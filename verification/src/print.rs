//! Label dispatch: the decision whether a persisted entity's label is sent
//! to the tenant's printer, and the interpretation of the print
//! collaborator's response. The HTTP exchange itself is the caller's; the
//! decisions on both sides of it are verified here.

use vstd::prelude::*;
use vstd::string::StringExecFns;

use crate::entity::AssetItem;
use crate::errors::SyncError;
use crate::text::{is_blank, is_blank_exec};

verus! {

/// The HTTP status with which the print collaborator signals acceptance.
pub const STATUS_ACCEPTED: u16 = 202;

/// A request to print labels: the label's download reference and how many
/// units to print.
#[derive(Debug, Clone, PartialEq)]
pub struct PrintLabelsRequest {
    /// The label document's download reference.
    pub url: String,
    /// The number of units to print.
    pub quantity: i32,
}

impl AssetItem {
    /// Decides the label dispatch for this entity: a blank label reference
    /// or a missing printer configuration is a no-op (`None`, no call is
    /// made); otherwise the request goes to the tenant's `zebra` endpoint,
    /// one unit.
    pub fn print_label(&self, printer_url: &str) -> (r: Option<(String, PrintLabelsRequest)>)
        ensures
            r is Some <==> (!is_blank(self.item.barcode_pdf_label@) && printer_url@.len() > 0),
            r is Some ==> {
                let (endpoint, req) = r.unwrap();
                &&& endpoint@ == printer_url@ + "/zebra"@
                &&& req.url@ == self.item.barcode_pdf_label@
                &&& req.quantity == 1
            },
    {
        if is_blank_exec(self.item.barcode_pdf_label.as_str()) {
            return None;
        }
        if printer_url.is_empty() {
            return None;
        }
        let endpoint = String::from_str(printer_url).concat("/zebra");
        let req = PrintLabelsRequest { url: self.item.barcode_pdf_label.clone(), quantity: 1 };
        Some((endpoint, req))
    }
}

/// Interprets the print collaborator's answer: "accepted" completes the
/// dispatch; any other status is a failure for this dispatch, carrying the
/// response body as diagnostic text.
pub fn interpret_print_response(status: u16, body: String) -> (r: Result<(), SyncError>)
    ensures
        r is Ok <==> status == STATUS_ACCEPTED,
        r is Err ==> r->Err_0 == (SyncError::Dispatch { status, body }),
{
    if status == STATUS_ACCEPTED {
        Ok(())
    } else {
        Err(SyncError::Dispatch { status, body })
    }
}

} // verus!
