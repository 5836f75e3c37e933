//! The label-dispatch decision and the interpretation of the printer's
//! response.

use cio_sync::entity::{AssetItem, NewAssetItem};
use cio_sync::print::{interpret_print_response, PrintLabelsRequest};

fn asset(label_ref: &str) -> AssetItem {
    AssetItem {
        id: 1,
        airtable_record_id: "rec1".to_string(),
        item: NewAssetItem {
            name: "Laptop A".to_string(),
            picture: String::new(),
            type_: "laptop".to_string(),
            qualities: Vec::new(),
            status: String::new(),
            manufacturer: String::new(),
            model_number: String::new(),
            serial_number: String::new(),
            current_employee_borrowing: String::new(),
            conference_room_using: Vec::new(),
            notes: String::new(),
            barcode: String::new(),
            barcode_png: String::new(),
            barcode_svg: String::new(),
            barcode_pdf_label: label_ref.to_string(),
            cio_company_id: 1,
        },
    }
}

#[test]
fn blank_label_reference_is_a_no_op() {
    assert!(asset("").print_label("http://printer.local").is_none());
    assert!(asset("   \t ").print_label("http://printer.local").is_none());
    // Unicode-only whitespace counts as blank too.
    assert!(asset("\u{A0}\u{2003}").print_label("http://printer.local").is_none());
}

#[test]
fn missing_printer_configuration_is_a_no_op() {
    assert!(asset("https://example.com/label.pdf").print_label("").is_none());
}

#[test]
fn configured_printer_gets_one_unit_at_the_zebra_endpoint() {
    let (endpoint, req) = asset("https://example.com/label.pdf")
        .print_label("http://printer.local")
        .expect("dispatch expected");
    assert_eq!(endpoint, "http://printer.local/zebra");
    assert_eq!(
        req,
        PrintLabelsRequest { url: "https://example.com/label.pdf".to_string(), quantity: 1 }
    );
}

#[test]
fn accepted_response_completes_the_dispatch() {
    assert!(interpret_print_response(202, String::new()).is_ok());
}

#[test]
fn non_accepted_response_is_fatal_and_carries_the_body() {
    let r = interpret_print_response(500, "printer on fire".to_string());
    let err = r.expect_err("a non-accepted status must fail the dispatch");
    assert!(err.is_dispatch());
    assert_eq!(err.dispatch_body().unwrap(), "printer on fire");
}
