//! The mapping store: durable persistence of identifier/url pairs in a
//! SQLite table reached through an r2d2 connection pool.
//!
//! The store is modelled by [`StoreModel`]: the rows of the backing table in
//! insertion order, plus a flag for whether the table has been created. The
//! model assumes the store handle is the sole owner of its backing file: no
//! other process or handle mutates the same table while this one is live.

use crate::model::{has_id, init_model, resolves_to, Row, StoreModel};
use crate::valid_id;
use vstd::prelude::*;

verus! {

/// How a store operation fails.
///
/// `NotFound` is the expected signal for an identifier with no row;
/// `StorageFailure` covers a connection that cannot be acquired or an
/// insert or query that the backing engine refuses.
#[derive(Clone, Copy, Debug, PartialEq, Eq, Structural)]
pub enum StoreError {
    NotFound,
    StorageFailure,
}

/// The connection pool, held opaquely: `r2d2::Pool`'s generic bound on its
/// manager keeps the type itself from being declared to the verifier, so the
/// pool lives behind this private body instead.
#[verifier::external_body]
struct PoolHandle {
    pool: r2d2::Pool<r2d2_sqlite::SqliteConnectionManager>,
}

/// A handle on one identifier/url table: a connection pool over the backing
/// database file, together with the ghost table contents it is modelled by.
pub struct MappingStore {
    handle: PoolHandle,
    rows: Ghost<Seq<Row>>,
    ready: Ghost<bool>,
}

impl View for MappingStore {
    type V = StoreModel;

    closed spec fn view(&self) -> StoreModel {
        StoreModel { rows: self.rows@, ready: self.ready@ }
    }
}

/// Relies on `r2d2_sqlite::SqliteConnectionManager::file` and
/// `r2d2::Pool::new`: a pool whose connections open the database file at
/// `path`, or an error when no first connection can be established.
#[verifier::external_body]
fn pool_for_file(path: &str) -> (r: Result<PoolHandle, StoreError>)
    ensures
        r matches Err(e) ==> e == StoreError::StorageFailure,
{
    let mgr = r2d2_sqlite::SqliteConnectionManager::file(path);
    match r2d2::Pool::new(mgr) {
        Ok(pool) => Ok(PoolHandle { pool }),
        Err(_) => Err(StoreError::StorageFailure),
    }
}

/// Relies on `nanoid::format` over nanoid's URL-safe alphabet (ASCII
/// letters, digits, `_` and `-`): the result is exactly `8` characters, each
/// from that alphabet. Nothing more is promised of a random identifier.
#[verifier::external_body]
fn fresh_id() -> (r: String)
    ensures
        valid_id(r@),
{
    nanoid::format(nanoid::rngs::default, &nanoid::alphabet::SAFE, 8)
}

impl MappingStore {
    /// Open a store over the database file at `path`. The backing table is
    /// not created here; call [`MappingStore::init`] before the first use.
    pub fn open(path: &str) -> (r: Result<MappingStore, StoreError>)
        ensures
            r matches Err(e) ==> e == StoreError::StorageFailure,
    {
        match pool_for_file(path) {
            Ok(handle) => Ok(
                (MappingStore { handle, rows: Ghost(arbitrary()), ready: Ghost(arbitrary()) }),
            ),
            Err(e) => Err(e),
        }
    }

    /// Relies on `r2d2::Pool::get` and `rusqlite::Connection::execute`:
    /// `CREATE TABLE IF NOT EXISTS` creates the table when it is absent and
    /// does nothing at all when it exists; it never touches a row.
    #[verifier::external_body]
    fn exec_create_table(&mut self) -> (r: Result<(), StoreError>)
        ensures
            final(self)@.rows == old(self)@.rows,
            r matches Ok(u) ==> final(self)@.ready,
            r matches Err(e) ==> e == StoreError::StorageFailure && final(self)@.ready == old(
                self,
            )@.ready,
    {
        let conn = match self.handle.pool.get() {
            Ok(c) => c,
            Err(_) => return Err(StoreError::StorageFailure),
        };
        match conn.execute("CREATE TABLE IF NOT EXISTS idurlmap (id TEXT, url TEXT)", ()) {
            Ok(_) => Ok(()),
            Err(_) => Err(StoreError::StorageFailure),
        }
    }

    /// Relies on `r2d2::Pool::get` and `rusqlite::Connection::execute`: a
    /// single `INSERT .. VALUES` either commits exactly the one given row or
    /// fails leaving the table unchanged; no partial write is observable.
    #[verifier::external_body]
    fn exec_insert(&mut self, id: &str, url: &str) -> (r: Result<(), StoreError>)
        ensures
            final(self)@.ready == old(self)@.ready,
            r matches Ok(u) ==> final(self)@.rows == old(self)@.rows.push(
                (Row { id: id@, url: url@ }),
            ),
            r matches Err(e) ==> e == StoreError::StorageFailure && final(self)@.rows == old(
                self,
            )@.rows,
    {
        let conn = match self.handle.pool.get() {
            Ok(c) => c,
            Err(_) => return Err(StoreError::StorageFailure),
        };
        match conn.execute("INSERT INTO idurlmap (id, url) VALUES (?1, ?2)", (id, url)) {
            Ok(_) => Ok(()),
            Err(_) => Err(StoreError::StorageFailure),
        }
    }

    /// Relies on `r2d2::Pool::get` and `rusqlite::Connection::query_row`
    /// (the closure only reads the selected column out of the row): the
    /// query returns the url of the first matching row found, in an order
    /// the engine does not promise, and `QueryReturnedNoRows` exactly when
    /// no row matches.
    #[verifier::external_body]
    fn exec_lookup(&self, id: &str) -> (r: Result<String, StoreError>)
        ensures
            r matches Ok(url) ==> resolves_to(self@.rows, id@, url@),
            r matches Err(e) ==> (e == StoreError::NotFound ==> !has_id(self@.rows, id@)),
            has_id(self@.rows, id@) ==> (r matches Err(e) ==> e == StoreError::StorageFailure),
    {
        let conn = match self.handle.pool.get() {
            Ok(c) => c,
            Err(_) => return Err(StoreError::StorageFailure),
        };
        match conn.query_row("SELECT url FROM idurlmap WHERE id = ?1", (id,), |row| row.get(0)) {
            Ok(url) => Ok(url),
            Err(rusqlite::Error::QueryReturnedNoRows) => Err(StoreError::NotFound),
            Err(_) => Err(StoreError::StorageFailure),
        }
    }

    /// Ensure the backing table exists. Safe to call on every start, also
    /// against a store populated by an earlier run: no row is touched, so a
    /// second call changes nothing the first did not.
    pub fn init(&mut self) -> (r: Result<(), StoreError>)
        ensures
            r matches Ok(u) ==> final(self)@ == init_model(old(self)@),
            r matches Err(e) ==> e == StoreError::StorageFailure && final(self)@ == old(self)@,
    {
        self.exec_create_table()
    }

    /// Store `url` under a freshly generated identifier and return the
    /// identifier. Any string is accepted and stored verbatim. On success
    /// exactly one row was appended; on failure the table is unchanged.
    pub fn create(&mut self, url: &str) -> (r: Result<String, StoreError>)
        ensures
            r matches Ok(id) ==> valid_id(id@) && final(self)@.rows == old(self)@.rows.push(
                (Row { id: id@, url: url@ }),
            ) && final(self)@.ready == old(self)@.ready,
            r matches Err(e) ==> e == StoreError::StorageFailure && final(self)@ == old(self)@,
    {
        let id = fresh_id();
        match self.exec_insert(id.as_str(), url) {
            Ok(u) => Ok(id),
            Err(e) => Err(e),
        }
    }

    /// Look `id` up and return the stored url unmodified. When several rows
    /// carry the same identifier, which one answers is not specified; when
    /// none does, the answer is `NotFound`.
    pub fn resolve(&self, id: &str) -> (r: Result<String, StoreError>)
        ensures
            r matches Ok(url) ==> resolves_to(self@.rows, id@, url@),
            r matches Err(e) ==> (e == StoreError::NotFound ==> !has_id(self@.rows, id@)),
            has_id(self@.rows, id@) ==> (r matches Err(e) ==> e == StoreError::StorageFailure),
            !has_id(self@.rows, id@) ==> !(r is Ok),
    {
        self.exec_lookup(id)
    }

    /// The lookup behind a redirect: the same contract as
    /// [`MappingStore::resolve`], consumed by the boundary as a redirect
    /// target instead of a payload.
    pub fn redirect_target(&self, id: &str) -> (r: Result<String, StoreError>)
        ensures
            r matches Ok(url) ==> resolves_to(self@.rows, id@, url@),
            r matches Err(e) ==> (e == StoreError::NotFound ==> !has_id(self@.rows, id@)),
            has_id(self@.rows, id@) ==> (r matches Err(e) ==> e == StoreError::StorageFailure),
            !has_id(self@.rows, id@) ==> !(r is Ok),
    {
        self.resolve(id)
    }
}

} // verus!

