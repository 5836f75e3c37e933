//! The per-record synchronization pipeline: normalize the raw external
//! record (synthesizing a placeholder natural key when it is blank), derive
//! the identifier, plan the artifacts, apply the uploaded artifact
//! references, idempotently persist, and write the external identifier back.
//! A failure at any stage yields a per-record error and leaves the store
//! untouched past the last completed record.

use vstd::prelude::*;
use vstd::string::{StrSliceExecFns, StringExecFns};

use crate::artifact::{artifacts_producible, plan_for, ArtifactPlan};
use crate::barcode::{identifier_spec, IDENTIFIER_LEN};
use crate::entity::{AssetItem, ExternalRecord, NewAssetItem};
use crate::errors::SyncError;
use crate::store::{key_matches, upsert_effect, LocalStore};

verus! {

/// Relies on the names crate's default `Generator`: its built-in word lists
/// are non-empty, so the iterator always yields an `adjective-noun` string
/// of at least one character.
#[verifier::external_body]
fn synthesize_name() -> (r: String)
    ensures
        r@.len() > 0,
{
    names::Generator::default().next().unwrap_or_default()
}

/// Copies a vector of strings; the copy agrees with the original element
/// for element.
fn clone_string_vec(v: &Vec<String>) -> (r: Vec<String>)
    ensures
        r@ == v@,
{
    let mut r: Vec<String> = Vec::new();
    let mut i: usize = 0;
    while i < v.len()
        invariant
            i <= v.len(),
            r@ == v@.subrange(0, i as int),
        decreases v.len() - i,
    {
        r.push(v[i].clone());
        proof {
            assert(v@.subrange(0, i as int).push(v@[i as int]) =~= v@.subrange(0, i as int + 1));
        }
        i += 1;
    }
    proof {
        assert(v@.subrange(0, v@.len() as int) =~= v@);
    }
    r
}

/// Maps a raw external record onto the local entity shape for the given
/// tenant. A blank natural key is replaced by a synthesized, non-blank
/// placeholder so the store's uniqueness invariant can hold; every other
/// field carries over unchanged.
pub fn normalize(rec: &ExternalRecord, tenant_id: i32) -> (e: NewAssetItem)
    ensures
        e.name@.len() > 0,
        rec.fields.name@.len() > 0 ==> e.name@ == rec.fields.name@,
        e.cio_company_id == tenant_id,
        e.picture@ == rec.fields.picture@,
        e.type_@ == rec.fields.type_@,
        e.qualities@ == rec.fields.qualities@,
        e.status@ == rec.fields.status@,
        e.manufacturer@ == rec.fields.manufacturer@,
        e.model_number@ == rec.fields.model_number@,
        e.serial_number@ == rec.fields.serial_number@,
        e.current_employee_borrowing@ == rec.fields.current_employee_borrowing@,
        e.conference_room_using@ == rec.fields.conference_room_using@,
        e.notes@ == rec.fields.notes@,
        e.barcode@ == rec.fields.barcode@,
        e.barcode_png@ == rec.fields.barcode_png@,
        e.barcode_svg@ == rec.fields.barcode_svg@,
        e.barcode_pdf_label@ == rec.fields.barcode_pdf_label@,
{
    let name = if rec.fields.name.as_str().is_empty() {
        synthesize_name()
    } else {
        rec.fields.name.clone()
    };
    NewAssetItem {
        name,
        picture: rec.fields.picture.clone(),
        type_: rec.fields.type_.clone(),
        qualities: clone_string_vec(&rec.fields.qualities),
        status: rec.fields.status.clone(),
        manufacturer: rec.fields.manufacturer.clone(),
        model_number: rec.fields.model_number.clone(),
        serial_number: rec.fields.serial_number.clone(),
        current_employee_borrowing: rec.fields.current_employee_borrowing.clone(),
        conference_room_using: clone_string_vec(&rec.fields.conference_room_using),
        notes: rec.fields.notes.clone(),
        barcode: rec.fields.barcode.clone(),
        barcode_png: rec.fields.barcode_png.clone(),
        barcode_svg: rec.fields.barcode_svg.clone(),
        barcode_pdf_label: rec.fields.barcode_pdf_label.clone(),
        cio_company_id: tenant_id,
    }
}

/// An entity expanded with its derived identifier and planned artifacts.
pub struct Expanded {
    /// The artifacts to upload, in order; `None` for an entity without a
    /// natural key.
    pub plan: Option<ArtifactPlan>,
    /// The stripped key exceeded the uniform identifier length; the value
    /// was kept over-length and the caller should log the violation.
    pub length_violation: bool,
}

impl NewAssetItem {
    /// Derives the identifier and plans the artifacts in one step: the
    /// planned artifacts always encode the identifier freshly derived from
    /// the entity's current natural key, never a stale one.
    pub fn expand(&mut self) -> (r: Result<Expanded, SyncError>)
        ensures
            final(self).barcode@ == identifier_spec(old(self).name@),
            *final(self) == (NewAssetItem { barcode: final(self).barcode, ..*old(self) }),
            old(self).name@.len() > 0 ==> (r is Ok <==> artifacts_producible(
                identifier_spec(old(self).name@),
            )),
            match r {
                Ok(exp) => {
                    &&& exp.length_violation == (identifier_spec(old(self).name@).len()
                        > IDENTIFIER_LEN)
                    &&& (exp.plan is Some <==> old(self).name@.len() > 0)
                    &&& exp.plan is Some ==> plan_for(
                        exp.plan.unwrap(),
                        old(self).type_@,
                        old(self).name@,
                        old(self).manufacturer@,
                        old(self).model_number@,
                        identifier_spec(old(self).name@),
                    )
                },
                Err(e) => e is Artifact && old(self).name@.len() > 0,
            },
    {
        let over = self.generate_barcode();
        let plan = match self.generate_barcode_images() {
            Ok(p) => p,
            Err(e) => {
                return Err(e);
            },
        };
        Ok(Expanded { plan, length_violation: over })
    }
}

/// The resolvable download reference for an uploaded file id.
pub open spec fn download_url_spec(id: Seq<char>) -> Seq<char> {
    "https://drive.google.com/uc?export=download&id="@ + id
}

/// Builds the download reference for an uploaded file id.
pub fn download_url(id: &str) -> (r: String)
    ensures
        r@ == download_url_spec(id@),
{
    String::from_str("https://drive.google.com/uc?export=download&id=").concat(id)
}

impl NewAssetItem {
    /// Stores the download references for the artifacts uploaded so far:
    /// `ids` holds the storage ids of the successfully uploaded prefix of
    /// the plan (raster image, vector image, label, in that order). A
    /// reference field is written only for an artifact that was produced
    /// and uploaded; the rest keep their previous value.
    pub fn apply_artifact_urls(&mut self, ids: &Vec<String>)
        ensures
            final(self).barcode_png@ == if ids@.len() > 0 {
                download_url_spec(ids@[0]@)
            } else {
                old(self).barcode_png@
            },
            final(self).barcode_svg@ == if ids@.len() > 1 {
                download_url_spec(ids@[1]@)
            } else {
                old(self).barcode_svg@
            },
            final(self).barcode_pdf_label@ == if ids@.len() > 2 {
                download_url_spec(ids@[2]@)
            } else {
                old(self).barcode_pdf_label@
            },
            *final(self) == (NewAssetItem {
                barcode_png: final(self).barcode_png,
                barcode_svg: final(self).barcode_svg,
                barcode_pdf_label: final(self).barcode_pdf_label,
                ..*old(self)
            }),
    {
        if ids.len() > 0 {
            self.barcode_png = download_url(ids[0].as_str());
        }
        if ids.len() > 1 {
            self.barcode_svg = download_url(ids[1].as_str());
        }
        if ids.len() > 2 {
            self.barcode_pdf_label = download_url(ids[2].as_str());
        }
    }
}

/// Persists one expanded entity and writes the external identifier back.
/// When artifacts were planned but not all three uploads succeeded, the
/// record fails with an artifact error and the store is untouched: the
/// persisted state never advances past the first failing step. Otherwise
/// the write succeeds, except on an insert that exhausts the primary key
/// space, which fails with a persist error and leaves the store unchanged.
pub fn finish_record(
    store: &mut LocalStore,
    entity: NewAssetItem,
    artifacts_planned: bool,
    uploads_done: usize,
    external_id: &str,
) -> (r: Result<usize, SyncError>)
    requires
        old(store).wf(),
        entity.name@.len() > 0,
    ensures
        final(store).wf(),
        artifacts_planned && uploads_done < 3 ==> r is Err && r->Err_0 is Artifact && *final(store)
            == *old(store),
        !(artifacts_planned && uploads_done < 3) ==> match r {
            Ok(i) => {
                &&& exists|mid: Seq<AssetItem>|
                    {
                        &&& #[trigger] upsert_effect(
                            old(store).items@,
                            entity,
                            old(store).next_id,
                            mid,
                        )
                        &&& 0 <= i < mid.len()
                        &&& final(store).items@ == mid.update(
                            i as int,
                            (AssetItem {
                                airtable_record_id: final(store).items@[i as int].airtable_record_id,
                                ..mid[i as int]
                            }),
                        )
                    }
                &&& 0 <= i < final(store).items@.len()
                &&& final(store).items@[i as int].item == entity
                &&& final(store).items@[i as int].airtable_record_id@ == external_id@
                &&& key_matches(final(store).items@[i as int], entity.cio_company_id, entity.name@)
            },
            Err(e) => {
                &&& e is Persist
                &&& *final(store) == *old(store)
                &&& old(store).next_id == i32::MAX
                &&& forall|j: int| 0 <= j < old(store).items@.len() ==> !key_matches(
                    #[trigger] old(store).items@[j],
                    entity.cio_company_id,
                    entity.name@,
                )
            },
        },
{
    if artifacts_planned && uploads_done < 3 {
        return Err(SyncError::Artifact(String::from_str("artifact upload incomplete")));
    }
    let idx = match store.upsert(entity) {
        Ok(i) => i,
        Err(e) => {
            return Err(e);
        },
    };
    store.set_external_id(idx, external_id);
    Ok(idx)
}

} // verus!
