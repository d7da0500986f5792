use shorturl::store::{MappingStore, StoreError};

fn opened(path: &str) -> MappingStore {
    let mut store = MappingStore::open(path).expect("open store");
    store.init().expect("init store");
    store
}

#[test]
fn round_trip_scenario_a() {
    let mut store = opened("/tmp/shorturl_round_trip.sqlite3");
    let id = store.create("https://example.com/a").expect("create");
    assert_eq!(id.chars().count(), 8);
    let url = store.resolve(&id).expect("resolve");
    assert_eq!(url, "https://example.com/a");
}

#[test]
fn unknown_identifier_is_not_found() {
    let mut store = opened("/tmp/shorturl_not_found.sqlite3");
    let r = store.resolve("doesnotexist");
    assert_eq!(r, Err(StoreError::NotFound));
}

#[test]
fn empty_url_round_trips() {
    let mut store = opened("/tmp/shorturl_empty_url.sqlite3");
    let id = store.create("").expect("create empty url");
    assert_eq!(store.resolve(&id), Ok(String::new()));
}

#[test]
fn same_url_twice_gives_two_identifiers() {
    let mut store = opened("/tmp/shorturl_same_url.sqlite3");
    let url = "https://example.com/dup";
    let first = store.create(url).expect("first create");
    let second = store.create(url).expect("second create");
    assert_ne!(first, second);
    assert_eq!(store.resolve(&first), Ok(String::from(url)));
    assert_eq!(store.resolve(&second), Ok(String::from(url)));
}

#[test]
fn init_twice_is_harmless() {
    let path = "/tmp/shorturl_init_twice.sqlite3";
    let mut store = opened(path);
    let id = store.create("https://example.com/kept").expect("create");
    store.init().expect("second init");
    assert_eq!(
        store.resolve(&id),
        Ok(String::from("https://example.com/kept"))
    );
    let mut reopened = opened(path);
    assert_eq!(
        reopened.resolve(&id),
        Ok(String::from("https://example.com/kept"))
    );
    reopened.init().expect("init against populated store");
    assert_eq!(
        reopened.resolve(&id),
        Ok(String::from("https://example.com/kept"))
    );
}

#[test]
fn many_creates_are_all_resolvable() {
    let mut store = opened("/tmp/shorturl_many.sqlite3");
    let mut pairs: Vec<(String, String)> = Vec::new();
    for k in 0..10 {
        let url = format!("https://example.com/item/{}", k);
        let id = store.create(&url).expect("create");
        pairs.push((id, url));
    }
    for (id, url) in &pairs {
        assert_eq!(store.resolve(id), Ok(url.clone()));
    }
}

#[test]
fn missing_table_is_a_storage_failure() {
    let mut store =
        MappingStore::open("/tmp/shorturl_never_initialized.sqlite3").expect("open store");
    assert_eq!(store.create("https://example.com/x"), Err(StoreError::StorageFailure));
    assert_eq!(store.resolve("whatever1"), Err(StoreError::StorageFailure));
}

#[test]
fn redirect_target_matches_resolve() {
    let mut store = opened("/tmp/shorturl_redirect.sqlite3");
    let id = store.create("https://example.com/r").expect("create");
    assert_eq!(store.redirect_target(&id), store.resolve(&id));
    assert_eq!(
        store.redirect_target("doesnotexist"),
        Err(StoreError::NotFound)
    );
}
