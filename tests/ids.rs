use di_examples::handlers::{item_view, show_page_of, HandlerError};
use di_examples::store::MemoryDB;
use di_examples::view::Templates;

fn id_only() -> Templates {
    Templates::new(String::new(), "{{uuid}}".to_string()).unwrap()
}

fn store_with(id: u128) -> MemoryDB {
    MemoryDB::from_pairs(vec![(id, "x".to_string())])
}

#[test]
fn identifier_text_is_lower_case_hyphenated() {
    assert_eq!(
        item_view(0xfd03f48c_af4f_4485_8a56_03e5354277ce, String::new()).uuid,
        "fd03f48c-af4f-4485-8a56-03e5354277ce"
    );
    assert_eq!(item_view(0, String::new()).uuid, "00000000-0000-0000-0000-000000000000");
    assert_eq!(item_view(u128::MAX, String::new()).uuid, "ffffffff-ffff-ffff-ffff-ffffffffffff");
}

#[test]
fn hyphenated_text_parses_back() {
    let id: u128 = 0x9103a2b0_af58_4db5_a9a8_cbdd7274e15a;
    let text = item_view(id, String::new()).uuid;
    assert_eq!(show_page_of(&text, &store_with(id), &id_only()), Ok(text.clone()));
}

#[test]
fn other_accepted_forms() {
    let id: u128 = 0x29cf7887_d228_41ca_883c_516cf3105634;
    let canonical = "29cf7887-d228-41ca-883c-516cf3105634".to_string();
    for raw in [
        "29cf7887d22841ca883c516cf3105634",
        "29CF7887-D228-41CA-883C-516CF3105634",
        "{29cf7887-d228-41ca-883c-516cf3105634}",
        "urn:uuid:29cf7887-d228-41ca-883c-516cf3105634",
    ] {
        assert_eq!(show_page_of(raw, &store_with(id), &id_only()), Ok(canonical.clone()));
    }
}

#[test]
fn malformed_identifiers_are_rejected() {
    let db = store_with(0x29cf7887_d228_41ca_883c_516cf3105634);
    for raw in [
        "not-a-uuid",
        "",
        "29cf7887-d228-41ca-883c-516cf310563g",
        "29cf7887-d228-41ca-883c_516cf3105634",
    ] {
        assert_eq!(show_page_of(raw, &db, &id_only()), Err(HandlerError::InvalidIdentifier));
    }
}
