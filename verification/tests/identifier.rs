use shorturl::is_well_formed_id;
use shorturl::store::MappingStore;

fn id_alphabet_char(c: char) -> bool {
    c == '_' || c == '-' || c.is_ascii_digit() || c.is_ascii_lowercase() || c.is_ascii_uppercase()
}

#[test]
fn created_identifiers_have_the_documented_shape() {
    let mut store = MappingStore::open("/tmp/shorturl_id_shape.sqlite3").expect("open store");
    store.init().expect("init store");
    for k in 0..20 {
        let id = store.create(&format!("https://example.com/shape/{}", k)).expect("create");
        assert_eq!(id.chars().count(), 8);
        assert!(id.chars().all(id_alphabet_char));
        assert!(is_well_formed_id(&id));
    }
}

#[test]
fn well_formed_id_accepts_the_full_alphabet() {
    assert!(is_well_formed_id("AZaz09_-"));
    assert!(is_well_formed_id("00000000"));
    assert!(is_well_formed_id("abcdefgh"));
}

#[test]
fn well_formed_id_rejects_wrong_lengths() {
    assert!(!is_well_formed_id(""));
    assert!(!is_well_formed_id("short"));
    assert!(!is_well_formed_id("ninechars"));
}

#[test]
fn well_formed_id_rejects_foreign_characters() {
    assert!(!is_well_formed_id("abc defg"));
    assert!(!is_well_formed_id("abc!defg"));
    assert!(!is_well_formed_id("abc/defg"));
    assert!(!is_well_formed_id("abcdefg\u{00e9}"));
}
