//! Failure classification for the local content source.

use vstd::prelude::*;

verus! {

/// Outcome classification for clipboard reads and writes.
///
/// `Timeout` is a transient absence of content, `DuplicatedValue` and
/// `EmptyValue` are filtered inputs (never real failures), and `Other`
/// stands for a fault of the platform primitive itself; the caller decides
/// whether such a fault is retryable.
#[derive(Clone, Copy, Debug, PartialEq, Eq, Structural)]
pub enum ClipboardError {
    Timeout,
    DuplicatedValue,
    EmptyValue,
    Other,
}

} // verus!
