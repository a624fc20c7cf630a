//! Wire-shape values exchanged between follower and authority.
//!
//! The encoding itself (JSON, a binary RPC frame, ...) is a collaborator's
//! concern; these are the plain values it carries.  `Get` returns the
//! authority's `{epoch, content}` pair, `Set` carries the same pair as a
//! fencing request and is answered with `{success, message}`.

use vstd::prelude::*;

use crate::error::ClipboardError;

verus! {

/// Response to `Get`: the authority's current register value.
#[derive(Clone, Debug)]
pub struct GetResponse {
    pub epoch: u64,
    pub content: String,
}

/// Request for `Set`: the content to write, fenced by the epoch the writer
/// last observed.
#[derive(Clone, Debug)]
pub struct SetRequest {
    pub epoch: u64,
    pub content: String,
}

/// Response to `Set`: whether the write was applied, and `"Outdated"` when
/// it was rejected as stale.
#[derive(Clone, Debug)]
pub struct SetResponse {
    pub success: bool,
    pub message: String,
}

/// Body of a push request in the plain HTTP binding: just the new content.
#[derive(Clone, Debug)]
pub struct ClipboardUpdate {
    pub contents: String,
}

/// Body of a long-poll response in the plain HTTP binding: the pending
/// content, if any arrived before the poll expired.
#[derive(Clone, Debug)]
pub struct ClipboardResponse {
    pub contents: Option<String>,
    pub updated: bool,
}

/// Body of a push response in the plain HTTP binding.
#[derive(Clone, Debug)]
pub struct Response {
    pub success: bool,
    pub error: Option<String>,
}

/// Unwraps a push request body to the content it carries.
pub fn get_contents(update: ClipboardUpdate) -> (r: String)
    ensures
        r@ == update.contents@,
{
    update.contents
}

/// Builds a long-poll response: `updated` says whether content arrived.
pub fn clipboard_response(contents: Option<String>) -> (r: ClipboardResponse)
    ensures
        r.contents == contents,
        r.updated == (contents is Some),
{
    let updated = contents.is_some();
    ClipboardResponse { contents, updated }
}

/// Builds the push response for the outcome of a local write attempt: a
/// duplicate is reported by name, every other failure as an internal error.
pub fn push_response(outcome: &Result<(), ClipboardError>) -> (r: Response)
    ensures
        r.success == (outcome is Ok),
        outcome is Ok ==> r.error is None,
        (outcome matches Err(e) && e is DuplicatedValue) ==> (r.error matches Some(m)
            && m@ == "Duplicated value"@),
        (outcome matches Err(e) && !(e is DuplicatedValue)) ==> (r.error matches Some(m)
            && m@ == "Internal error"@),
{
    match outcome {
        Ok(()) => Response { success: true, error: None },
        Err(ClipboardError::DuplicatedValue) => Response {
            success: false,
            error: Some("Duplicated value".to_owned()),
        },
        Err(_) => Response { success: false, error: Some("Internal error".to_owned()) },
    }
}

} // verus!
