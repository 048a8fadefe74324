//! The success record returned for a completed transfer, and the derivation
//! of the human-facing explorer link from a transaction identifier.

use vstd::prelude::*;
use vstd::string::StringExecFns;

verus! {

/// The response body returned to the HTTP caller on a successful transfer.
pub struct TransferRes {
    pub success: bool,
    pub tx_id: String,
    pub explorer_url: String,
}

/// The explorer link for a transaction identifier: the fixed explorer base,
/// the identifier, then the fixed page suffix.
pub open spec fn explorer_url_spec(tx_id: Seq<char>) -> Seq<char> {
    "https://app.fuel.network/tx/0x"@ + tx_id + "/simple"@
}

/// Builds the human-browsable explorer link for a submitted transaction.
pub fn explorer_url(tx_id: &str) -> (r: String)
    ensures
        r@ == explorer_url_spec(tx_id@),
{
    let base = String::from_str("https://app.fuel.network/tx/0x");
    base.concat(tx_id).concat("/simple")
}

/// Builds the success response body: successful, carrying the transaction
/// identifier and its derived explorer link.
pub fn success_response(tx_id: String) -> (r: TransferRes)
    ensures
        r.success,
        r.tx_id@ == tx_id@,
        r.explorer_url@ == explorer_url_spec(tx_id@),
{
    let url = explorer_url(tx_id.as_str());
    TransferRes { success: true, tx_id, explorer_url: url }
}

} // verus!
