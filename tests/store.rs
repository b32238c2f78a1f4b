use di_examples::store::{MemoryDB, DB};

const APPLE_PIE: u128 = 0xfd03f48c_af4f_4485_8a56_03e5354277ce;
const MARSHMALLOW: u128 = 0xdeba1d8c_81fd_4273_9fcd_f4c5b5666fe2;
const ECLAIR: u128 = 0x29cf7887_d228_41ca_883c_516cf3105634;
const MERVEILLEUX: u128 = 0x9103a2b0_af58_4db5_a9a8_cbdd7274e15a;

#[test]
fn get_item_returns_the_seeded_names() {
    let db = MemoryDB::new();
    assert_eq!(db.get_item(&APPLE_PIE), Some("Apple Pie".to_string()));
    assert_eq!(db.get_item(&MARSHMALLOW), Some("Marshmallow".to_string()));
    assert_eq!(db.get_item(&ECLAIR), Some("Eclair au chocolat".to_string()));
    assert_eq!(db.get_item(&MERVEILLEUX), Some("Merveilleux".to_string()));
}

#[test]
fn get_item_reports_absence() {
    let db = MemoryDB::new();
    assert_eq!(db.get_item(&0), None);
    assert_eq!(db.get_item(&(APPLE_PIE + 1)), None);
}

#[test]
fn all_items_lists_each_pair_once() {
    let db = MemoryDB::new();
    let mut listed = db.all_items();
    assert_eq!(listed.len(), 4);
    listed.sort();
    let mut expected = vec![
        (APPLE_PIE, "Apple Pie".to_string()),
        (MARSHMALLOW, "Marshmallow".to_string()),
        (ECLAIR, "Eclair au chocolat".to_string()),
        (MERVEILLEUX, "Merveilleux".to_string()),
    ];
    expected.sort();
    assert_eq!(listed, expected);
}

#[test]
fn empty_store_lists_nothing() {
    let db = MemoryDB::from_pairs(vec![]);
    assert!(db.all_items().is_empty());
    assert_eq!(db.get_item(&APPLE_PIE), None);
}

#[test]
fn later_pair_wins_on_equal_identifiers() {
    let db = MemoryDB::from_pairs(vec![
        (7, "first".to_string()),
        (9, "other".to_string()),
        (7, "second".to_string()),
    ]);
    assert_eq!(db.get_item(&7), Some("second".to_string()));
    assert_eq!(db.get_item(&9), Some("other".to_string()));
    assert_eq!(db.all_items().len(), 2);
}

#[test]
fn largest_identifier_is_a_key_like_any_other() {
    let db = MemoryDB::from_pairs(vec![(u128::MAX, "max".to_string()), (0, "zero".to_string())]);
    assert_eq!(db.get_item(&u128::MAX), Some("max".to_string()));
    assert_eq!(db.get_item(&0), Some("zero".to_string()));
    assert_eq!(db.get_item(&1), None);
}

#[test]
fn clones_share_the_table() {
    let db = MemoryDB::new();
    let copy = db.clone();
    assert_eq!(db.all_items(), copy.all_items());
}
