//! The record pipeline and the store: normalization with placeholder keys,
//! artifact planning, upload references, idempotent upserts, and write-back.

use cio_sync::entity::{ExternalRecord, NewAssetItem};
use cio_sync::pipeline::{finish_record, normalize};
use cio_sync::store::LocalStore;

fn fields(name: &str, type_: &str) -> NewAssetItem {
    NewAssetItem {
        name: name.to_string(),
        picture: String::new(),
        type_: type_.to_string(),
        qualities: vec!["good".to_string()],
        status: "in use".to_string(),
        manufacturer: "Acme".to_string(),
        model_number: "M1".to_string(),
        serial_number: "SN1".to_string(),
        current_employee_borrowing: String::new(),
        conference_room_using: Vec::new(),
        notes: String::new(),
        barcode: String::new(),
        barcode_png: String::new(),
        barcode_svg: String::new(),
        barcode_pdf_label: String::new(),
        cio_company_id: 0,
    }
}

fn record(name: &str, type_: &str, ext_id: &str) -> ExternalRecord {
    ExternalRecord { id: ext_id.to_string(), fields: fields(name, type_) }
}

fn run_record(store: &mut LocalStore, rec: &ExternalRecord, tenant_id: i32) -> usize {
    let mut entity = normalize(rec, tenant_id);
    let expanded = entity.expand().expect("expansion should succeed");
    let planned = expanded.plan.is_some();
    // Deterministic stand-in for file storage: the id is the file name.
    let ids: Vec<String> = match &expanded.plan {
        Some(plan) => vec![
            plan.png.file_name.clone(),
            plan.svg.file_name.clone(),
            plan.label.file_name.clone(),
        ],
        None => Vec::new(),
    };
    entity.apply_artifact_urls(&ids);
    let uploads = ids.len();
    finish_record(store, entity, planned, uploads, rec.id.as_str()).expect("persist should succeed")
}

#[test]
fn pipeline_twice_leaves_store_unchanged() {
    let mut store = LocalStore::new();
    let batch = vec![
        record("Laptop A", "laptop", "rec1"),
        record("Dock B", "dock", "rec2"),
    ];
    for rec in &batch {
        run_record(&mut store, rec, 7);
    }
    let count = store.items.len();
    let snapshot = store.items.clone();

    for rec in &batch {
        run_record(&mut store, rec, 7);
    }
    assert_eq!(store.items.len(), count);
    assert_eq!(store.items, snapshot);
}

#[test]
fn blank_key_gets_placeholder_before_persist() {
    let mut store = LocalStore::new();
    let rec = record("", "laptop", "rec9");
    let entity = normalize(&rec, 3);
    assert!(!entity.name.is_empty());

    run_record(&mut store, &rec, 3);
    assert_eq!(store.items.len(), 1);
    assert!(!store.items[0].item.name.is_empty());
}

#[test]
fn upsert_updates_in_place_and_keeps_primary_key() {
    let mut store = LocalStore::new();
    let idx = run_record(&mut store, &record("Laptop A", "laptop", "rec1"), 7);
    let id_before = store.items[idx].id;

    let mut changed = record("Laptop A", "laptop", "rec1");
    changed.fields.status = "retired".to_string();
    let idx2 = run_record(&mut store, &changed, 7);

    assert_eq!(store.items.len(), 1);
    assert_eq!(store.items[idx2].id, id_before);
    assert_eq!(store.items[idx2].item.status, "retired");
}

#[test]
fn same_name_under_two_tenants_stays_separate() {
    let mut store = LocalStore::new();
    run_record(&mut store, &record("Laptop A", "laptop", "rec1"), 1);
    run_record(&mut store, &record("Laptop A", "laptop", "rec2"), 2);
    assert_eq!(store.items.len(), 2);
}

#[test]
fn external_identifier_is_written_back() {
    let mut store = LocalStore::new();
    let idx = run_record(&mut store, &record("Laptop A", "laptop", "recXYZ"), 7);
    assert_eq!(store.items[idx].airtable_record_id, "recXYZ");
}

#[test]
fn artifact_references_point_at_uploads() {
    let mut store = LocalStore::new();
    let idx = run_record(&mut store, &record("Laptop A", "laptop", "rec1"), 7);
    let item = &store.items[idx].item;
    assert_eq!(
        item.barcode_png,
        "https://drive.google.com/uc?export=download&id=laptop Laptop A.png"
    );
    assert!(item.barcode_svg.ends_with(".svg"));
    assert!(item.barcode_pdf_label.ends_with(" - Barcode Label.pdf"));
}

#[test]
fn incomplete_upload_fails_record_and_leaves_store() {
    let mut store = LocalStore::new();
    let rec = record("Laptop A", "laptop", "rec1");
    let mut entity = normalize(&rec, 7);
    entity.expand().expect("expansion should succeed");
    let ids = vec!["only-one".to_string()];
    entity.apply_artifact_urls(&ids);
    let r = finish_record(&mut store, entity, true, ids.len(), rec.id.as_str());
    assert!(r.is_err());
    assert!(r.unwrap_err().is_artifact());
    assert_eq!(store.items.len(), 0);
}

#[test]
fn artifact_plan_is_deterministic_and_real() {
    let mut entity = fields("widget", "laptop");
    entity.generate_barcode();
    let plan = entity
        .generate_barcode_images()
        .expect("generation should succeed")
        .expect("a named entity gets artifacts");

    assert_eq!(plan.png.file_name, "laptop widget.png");
    assert_eq!(plan.png.content_type, "image/png");
    // A real PNG comes back, not the bar pattern handed in.
    assert_eq!(&plan.png.bytes[..4], &[0x89u8, 0x50, 0x4e, 0x47]);

    assert_eq!(plan.svg.file_name, "laptop widget.svg");
    assert_eq!(plan.svg.content_type, "image/svg+xml");
    let svg_text = String::from_utf8(plan.svg.bytes.clone()).unwrap();
    assert!(svg_text.starts_with("<svg"));

    assert_eq!(plan.label.file_name, "laptop widget - Barcode Label.pdf");
    assert_eq!(plan.label.content_type, "application/pdf");
    assert_eq!(&plan.label.bytes[..4], b"LBL\n");

    let plan2 = entity.generate_barcode_images().unwrap().unwrap();
    assert_eq!(plan, plan2);
}

#[test]
fn artifact_generation_rejects_unencodable_identifier() {
    let mut entity = fields("widget!", "laptop");
    entity.generate_barcode();
    assert_eq!(entity.barcode, "000000WIDGET!");
    let r = entity.generate_barcode_images();
    assert!(r.is_err());
    assert!(r.unwrap_err().is_artifact());
}

#[test]
fn artifact_generation_skips_nameless_entity() {
    let mut entity = fields("", "laptop");
    entity.generate_barcode();
    let r = entity.generate_barcode_images().expect("no error for a nameless entity");
    assert!(r.is_none());
}

#[test]
fn file_names_drop_slashes() {
    let mut entity = fields("a/b", "dock");
    entity.generate_barcode();
    let plan = entity.generate_barcode_images().unwrap().unwrap();
    assert_eq!(plan.png.file_name, "dock ab.png");
}
