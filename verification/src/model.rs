//! The mathematical model of the mapping store: a sequence of rows, each an
//! identifier paired with a url, plus a flag saying whether the backing table
//! has been set up.

use vstd::prelude::*;

verus! {

/// One stored mapping: an identifier and the url it resolves to.
pub ghost struct Row {
    pub id: Seq<char>,
    pub url: Seq<char>,
}

/// The abstract state of the store: the rows of the backing table, in
/// insertion order, and whether the table has been created.
pub ghost struct StoreModel {
    pub rows: Seq<Row>,
    pub ready: bool,
}

/// Some row of `rows` carries identifier `id`.
pub open spec fn has_id(rows: Seq<Row>, id: Seq<char>) -> bool {
    exists|i: int| 0 <= i < rows.len() && (#[trigger] rows[i]).id == id
}

/// Some row of `rows` maps identifier `id` to url `url`.
pub open spec fn resolves_to(rows: Seq<Row>, id: Seq<char>, url: Seq<char>) -> bool {
    exists|i: int| 0 <= i < rows.len() && (#[trigger] rows[i]).id == id && rows[i].url == url
}

/// What schema initialization does to the abstract state: the table comes to
/// exist; no row is touched.
pub open spec fn init_model(m: StoreModel) -> StoreModel {
    StoreModel { rows: m.rows, ready: true }
}

/// Round trip: appending a row under an identifier that no existing row
/// carries yields a table in which that identifier is present and resolves
/// only to the url it was stored with.
pub proof fn lemma_round_trip(rows: Seq<Row>, id: Seq<char>, url: Seq<char>)
    requires
        !has_id(rows, id),
    ensures
        has_id(rows.push((Row { id, url })), id),
        resolves_to(rows.push((Row { id, url })), id, url),
        forall|u: Seq<char>| resolves_to(rows.push((Row { id, url })), id, u) ==> u == url,
{
    let pushed = rows.push(Row { id, url });
    assert(pushed[rows.len() as int] == (Row { id, url }));
    assert forall|u: Seq<char>| resolves_to(pushed, id, u) implies u == url by {
        let i = choose|i: int| 0 <= i < pushed.len() && (#[trigger] pushed[i]).id == id
            && pushed[i].url == u;
        if i < rows.len() {
            assert(rows[i] == pushed[i]);
        }
    }
}

/// Not found: an identifier that no row carries resolves to nothing at all.
pub proof fn lemma_absent_never_resolves(rows: Seq<Row>, id: Seq<char>)
    requires
        !has_id(rows, id),
    ensures
        forall|u: Seq<char>| !resolves_to(rows, id, u),
{
    assert forall|u: Seq<char>| !resolves_to(rows, id, u) by {
        if resolves_to(rows, id, u) {
            let i = choose|i: int| 0 <= i < rows.len() && (#[trigger] rows[i]).id == id
                && rows[i].url == u;
            assert(has_id(rows, id));
        }
    }
}

/// Idempotent initialization: setting the schema up a second time leaves the
/// abstract state exactly where the first call put it.
pub proof fn lemma_init_idempotent(m: StoreModel)
    ensures
        init_model(init_model(m)) == init_model(m),
{
}

/// Independence: appending a row leaves every lookup under a different
/// identifier exactly as it was.
pub proof fn lemma_append_preserves_others(rows: Seq<Row>, row: Row, id: Seq<char>)
    requires
        id != row.id,
    ensures
        has_id(rows.push(row), id) == has_id(rows, id),
        forall|u: Seq<char>| resolves_to(rows.push(row), id, u) == resolves_to(rows, id, u),
{
    let pushed = rows.push(row);
    assert(forall|i: int| 0 <= i < rows.len() ==> pushed[i] == rows[i]);
    if has_id(pushed, id) {
        let i = choose|i: int| 0 <= i < pushed.len() && (#[trigger] pushed[i]).id == id;
        assert(i < rows.len());
        assert(rows[i].id == id);
    }
    assert forall|u: Seq<char>|
        resolves_to(pushed, id, u) == resolves_to(rows, id, u) by {
        if resolves_to(pushed, id, u) {
            let i = choose|i: int| 0 <= i < pushed.len() && (#[trigger] pushed[i]).id == id
                && pushed[i].url == u;
            assert(i < rows.len());
            assert(rows[i].id == id && rows[i].url == u);
        }
        if resolves_to(rows, id, u) {
            let i = choose|i: int| 0 <= i < rows.len() && (#[trigger] rows[i]).id == id
                && rows[i].url == u;
            assert(pushed[i].id == id && pushed[i].url == u);
        }
    }
}

/// Independent creates: appending a batch of rows whose identifiers are
/// fresh and pairwise distinct loses none of them; afterwards each batch
/// identifier is present and resolves only to its own url.
pub proof fn lemma_batch_creates_independent(rows: Seq<Row>, batch: Seq<Row>)
    requires
        forall|k: int| 0 <= k < batch.len() ==> !has_id(rows, (#[trigger] batch[k]).id),
        forall|k: int, j: int|
            0 <= k < batch.len() && 0 <= j < batch.len() && k != j ==> (#[trigger] batch[k]).id
                != (#[trigger] batch[j]).id,
    ensures
        forall|k: int| 0 <= k < batch.len() ==> has_id(rows + batch, (#[trigger] batch[k]).id),
        forall|k: int, u: Seq<char>|
            0 <= k < batch.len() && #[trigger] resolves_to(rows + batch, batch[k].id, u) ==> u
                == batch[k].url,
{
    let all = rows + batch;
    assert forall|k: int| 0 <= k < batch.len() implies has_id(
        all,
        (#[trigger] batch[k]).id,
    ) by {
        assert(all[rows.len() + k] == batch[k]);
    }
    assert forall|k: int, u: Seq<char>|
        0 <= k < batch.len() && #[trigger] resolves_to(all, batch[k].id, u) implies u
        == batch[k].url by {
        let i = choose|i: int| 0 <= i < all.len() && (#[trigger] all[i]).id == batch[k].id
            && all[i].url == u;
        if i < rows.len() {
            assert(rows[i] == all[i]);
            assert(has_id(rows, batch[k].id));
        } else {
            let j = i - rows.len();
            assert(all[i] == batch[j]);
            assert(batch[j].id == batch[k].id);
            if j != k {
                assert(false);
            }
        }
    }
}

} // verus!
