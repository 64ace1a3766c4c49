use laptop_toio::catalog::{catalog_entry, CATALOG_LEN};
use laptop_toio::ident::{contains_toio, derive_identity, return_toio_id, str_eq};

#[test]
fn identity_is_text_after_last_dash() {
    assert_eq!(derive_identity("toio-C0E").as_deref(), Some("C0E"));
    assert_eq!(derive_identity("toio Core Cube-h41").as_deref(), Some("h41"));
    assert_eq!(derive_identity("my-toio-a-b").as_deref(), Some("b"));
}

#[test]
fn identity_of_dashless_name_is_whole_name() {
    assert_eq!(derive_identity("toio").as_deref(), Some("toio"));
    assert_eq!(derive_identity("mytoiocube").as_deref(), Some("mytoiocube"));
}

#[test]
fn names_without_toio_are_rejected() {
    assert_eq!(derive_identity("cube-C0E"), None);
    assert_eq!(derive_identity(""), None);
    assert_eq!(derive_identity("TOIO-C0E"), None);
}

#[test]
fn contains_toio_looks_anywhere() {
    assert!(contains_toio("toio"));
    assert!(contains_toio("a toio cube"));
    assert!(!contains_toio("toi"));
    assert!(!contains_toio(""));
    assert!(!contains_toio("otiot"));
}

#[test]
fn catalog_lookup_finds_first_match() {
    assert_eq!(return_toio_id("Individual ID"), Some(0));
    // "0" fills every gap in the table; the first stands at entry 1.
    assert_eq!(return_toio_id("0"), Some(1));
    assert_eq!(return_toio_id("j1c"), Some(2));
    assert_eq!(return_toio_id("R3C"), Some(100));
    assert_eq!(return_toio_id("n2L"), Some(192));
}

#[test]
fn catalog_lookup_misses() {
    assert_eq!(return_toio_id("zzz"), None);
    assert_eq!(return_toio_id(""), None);
    // Labels are case-sensitive: entry 2 is "j1c", not "J1C".
    assert_eq!(return_toio_id("J1C"), None);
}

#[test]
fn catalog_entries_line_up() {
    assert_eq!(CATALOG_LEN, 193);
    assert_eq!(catalog_entry(0), "Individual ID");
    assert_eq!(catalog_entry(3), "r81");
    assert_eq!(catalog_entry(100), "R3C");
    assert_eq!(catalog_entry(192), "n2L");
}

#[test]
fn str_eq_compares_content() {
    assert!(str_eq("abc", "abc"));
    assert!(!str_eq("abc", "abd"));
    assert!(!str_eq("abc", "abcd"));
    assert!(str_eq("", ""));
}
