//! The data model of one sync run: tenants, raw external records, and the
//! normalized entity that the local store keeps.

use vstd::prelude::*;

use crate::barcode::{derive_identifier, identifier_spec, IDENTIFIER_LEN};

verus! {

/// An isolated operational domain (a company). Loaded once per invocation
/// and read-only for the duration of a run.
#[derive(Debug, Clone)]
pub struct Tenant {
    /// Stable numeric identifier.
    pub id: i32,
    /// Display name.
    pub name: String,
    /// The record-store base holding this tenant's asset collection.
    pub airtable_base_id_assets: String,
    /// The tenant's print endpoint; empty when no printer is configured.
    pub printer_url: String,
}

/// The fields of one asset entity, as they are written into the local store.
/// The natural key for upserts is `(cio_company_id, name)`.
#[derive(Debug, Clone, PartialEq)]
pub struct NewAssetItem {
    pub name: String,
    pub picture: String,
    pub type_: String,
    pub qualities: Vec<String>,
    pub status: String,
    pub manufacturer: String,
    pub model_number: String,
    pub serial_number: String,
    pub current_employee_borrowing: String,
    pub conference_room_using: Vec<String>,
    pub notes: String,
    /// The derived identifier, computed from `name`.
    pub barcode: String,
    /// Download reference of the raster identifier image.
    pub barcode_png: String,
    /// Download reference of the vector identifier image.
    pub barcode_svg: String,
    /// Download reference of the composed printable label.
    pub barcode_pdf_label: String,
    /// The tenant this entity belongs to.
    pub cio_company_id: i32,
}

/// A persisted entity: the fields plus the local primary key and the
/// write-back reference to the external record.
#[derive(Debug, Clone, PartialEq)]
pub struct AssetItem {
    /// Local storage primary key, preserved across upserts.
    pub id: i32,
    /// The external record identifier, written back after each upsert.
    pub airtable_record_id: String,
    /// The entity fields.
    pub item: NewAssetItem,
}

/// Raw data as returned by the system of record: an external identifier and
/// the field payload.
#[derive(Debug, Clone)]
pub struct ExternalRecord {
    /// The external identifier of this record.
    pub id: String,
    /// The field payload, already shaped like the local entity.
    pub fields: NewAssetItem,
}

/// Two field sets that agree on every field's content.
pub open spec fn entity_like(a: NewAssetItem, b: NewAssetItem) -> bool {
    &&& a.name@ == b.name@
    &&& a.picture@ == b.picture@
    &&& a.type_@ == b.type_@
    &&& a.qualities.deep_view() == b.qualities.deep_view()
    &&& a.status@ == b.status@
    &&& a.manufacturer@ == b.manufacturer@
    &&& a.model_number@ == b.model_number@
    &&& a.serial_number@ == b.serial_number@
    &&& a.current_employee_borrowing@ == b.current_employee_borrowing@
    &&& a.conference_room_using.deep_view() == b.conference_room_using.deep_view()
    &&& a.notes@ == b.notes@
    &&& a.barcode@ == b.barcode@
    &&& a.barcode_png@ == b.barcode_png@
    &&& a.barcode_svg@ == b.barcode_svg@
    &&& a.barcode_pdf_label@ == b.barcode_pdf_label@
    &&& a.cio_company_id == b.cio_company_id
}

/// Two persisted entities that agree on key, fields, and references.
pub open spec fn item_like(a: AssetItem, b: AssetItem) -> bool {
    a.id == b.id && a.airtable_record_id@ == b.airtable_record_id@ && entity_like(a.item, b.item)
}

impl NewAssetItem {
    /// Derives the identifier from the natural key and stores it in
    /// `barcode`. Returns `true` when the stripped key exceeds
    /// [`IDENTIFIER_LEN`]: the value is kept over-length (never truncated)
    /// and the caller should log the length violation.
    pub fn generate_barcode(&mut self) -> (over: bool)
        ensures
            final(self).barcode@ == identifier_spec(old(self).name@),
            over == (identifier_spec(old(self).name@).len() > IDENTIFIER_LEN),
            *final(self) == (NewAssetItem { barcode: final(self).barcode, ..*old(self) }),
    {
        let (code, over) = derive_identifier(self.name.as_str());
        self.barcode = code;
        over
    }
}

} // verus!
