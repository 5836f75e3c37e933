//! The identifier derivation: length, alphabet, padding, stripping,
//! determinism, and the over-length diagnostic.

use cio_sync::entity::NewAssetItem;

fn item(name: &str) -> NewAssetItem {
    NewAssetItem {
        name: name.to_string(),
        picture: String::new(),
        type_: String::new(),
        qualities: Vec::new(),
        status: String::new(),
        manufacturer: String::new(),
        model_number: String::new(),
        serial_number: String::new(),
        current_employee_borrowing: String::new(),
        conference_room_using: Vec::new(),
        notes: String::new(),
        barcode: String::new(),
        barcode_png: String::new(),
        barcode_svg: String::new(),
        barcode_pdf_label: String::new(),
        cio_company_id: 0,
    }
}

#[test]
fn identifier_strips_and_uppercases() {
    let mut it = item("Dell XPS 13 (2020)");
    let over = it.generate_barcode();
    assert_eq!(it.barcode, "DELLXPS132020");
    assert_eq!(it.barcode.len(), 13);
    assert!(!over);
}

#[test]
fn identifier_stable_on_rerun() {
    let mut it = item("Dell XPS 13 (2020)");
    it.generate_barcode();
    let first = it.barcode.clone();
    it.generate_barcode();
    assert_eq!(it.barcode, first);

    // Deriving from the derived value is also a fixed point.
    let mut again = item(&first);
    again.generate_barcode();
    assert_eq!(again.barcode, first);
}

#[test]
fn identifier_pads_short_names() {
    let mut it = item("abc");
    let over = it.generate_barcode();
    assert_eq!(it.barcode, "0000000000ABC");
    assert_eq!(it.barcode.len(), 13);
    assert!(!over);
}

#[test]
fn identifier_keeps_overlength_value() {
    let mut it = item("Dell XPS 13 (2020) G2");
    let over = it.generate_barcode();
    assert_eq!(it.barcode, "DELLXPS132020G2");
    assert_eq!(it.barcode.len(), 15);
    assert!(over);

    // Unchanged on rerun despite the length violation.
    let first = it.barcode.clone();
    let over_again = it.generate_barcode();
    assert_eq!(it.barcode, first);
    assert!(over_again);
}

#[test]
fn identifier_strips_punctuation() {
    let mut it = item("a/b-c'd (e)");
    it.generate_barcode();
    assert_eq!(it.barcode, "00000000ABCDE");
}

#[test]
fn identifier_of_empty_name_is_all_zeros() {
    let mut it = item("");
    let over = it.generate_barcode();
    assert_eq!(it.barcode, "0000000000000");
    assert!(!over);
}

#[test]
fn identifier_trims_whitespace_ends() {
    let mut it = item("\tabc\n");
    it.generate_barcode();
    assert_eq!(it.barcode, "0000000000ABC");

    // Unicode whitespace is trimmed like the ASCII kind.
    let mut it = item("\u{A0}abc\u{3000}");
    it.generate_barcode();
    assert_eq!(it.barcode, "0000000000ABC");
}

#[test]
fn identifier_alphabet_is_digits_and_uppercase() {
    let mut it = item("Mixed Case-Name (42)");
    it.generate_barcode();
    assert!(it.barcode.len() >= 13);
    for c in it.barcode.chars() {
        assert!(c.is_ascii_digit() || c.is_ascii_uppercase());
    }
}
