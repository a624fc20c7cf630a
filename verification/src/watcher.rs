//! The change watcher: filters raw clipboard reads into change events.
//!
//! The watcher keeps one marker — the value it last observed, whether read
//! from the platform or applied on behalf of the authority — and applies
//! two guards to every read: an empty value is discarded, and a value equal
//! to the marker is discarded as a duplicate.  Everything else becomes the
//! new marker and is emitted as a change event.  The marker is also how an
//! applied remote value is kept from echoing: recording it makes the very
//! next read of it a duplicate.

use vstd::prelude::*;

use crate::error::ClipboardError;

verus! {

/// Whether a read of `text` gets past both guards when the marker holds
/// `marker`: the value must be non-empty and differ from the last one seen.
pub open spec fn read_emits(marker: Seq<char>, text: Seq<char>) -> bool {
    text != marker && text.len() > 0
}

/// The marker after a read: an emitted value replaces it, a filtered one
/// leaves it alone.
pub open spec fn marker_after_read(marker: Seq<char>, text: Seq<char>) -> Seq<char> {
    if read_emits(marker, text) {
        text
    } else {
        marker
    }
}

/// The most-recently-seen-value slot and its two guards.  Its view is the
/// marker's character sequence.
pub struct Watcher {
    last: String,
}

impl View for Watcher {
    type V = Seq<char>;

    closed spec fn view(&self) -> Seq<char> {
        self.last@
    }
}

impl Watcher {
    /// A fresh watcher; the marker starts empty, so an empty first read is
    /// filtered as both empty and duplicate.
    pub fn new() -> (w: Self)
        ensures
            w@ == Seq::<char>::empty(),
    {
        Watcher { last: String::new() }
    }

    /// Classifies one successful raw read.  A value equal to the marker is
    /// a duplicate, an empty value is filtered, and anything else becomes
    /// the new marker and is emitted.
    pub fn observe(&mut self, text: String) -> (r: Result<String, ClipboardError>)
        ensures
            final(self)@ == marker_after_read(old(self)@, text@),
            read_emits(old(self)@, text@) ==> (r matches Ok(t) && t@ == text@),
            text@ == old(self)@ ==> (r matches Err(e) && e is DuplicatedValue),
            text@ != old(self)@ && text@.len() == 0 ==> (r matches Err(e) && e is EmptyValue),
    {
        if self.last == text {
            return Err(ClipboardError::DuplicatedValue);
        }
        if text.as_str().is_empty() {
            return Err(ClipboardError::EmptyValue);
        }
        self.last = text.clone();
        Ok(text)
    }

    /// Guards a write of local origin before it reaches the platform: an
    /// empty value is refused, and a value the watcher already holds is a
    /// duplicate.  The marker is untouched; `record` is called once the
    /// write has actually happened.
    pub fn check_write(&self, text: &String) -> (r: Result<(), ClipboardError>)
        ensures
            text@.len() == 0 ==> (r matches Err(e) && e is EmptyValue),
            text@.len() > 0 && text@ == self@ ==> (r matches Err(e) && e is DuplicatedValue),
            text@.len() > 0 && text@ != self@ ==> r is Ok,
    {
        if text.as_str().is_empty() {
            return Err(ClipboardError::EmptyValue);
        }
        if self.last == *text {
            return Err(ClipboardError::DuplicatedValue);
        }
        Ok(())
    }

    /// Records a value that was just written to the platform — by a local
    /// caller or on behalf of the authority — so the next read of it is
    /// filtered as a duplicate.
    pub fn record(&mut self, text: String)
        ensures
            final(self)@ == text@,
    {
        self.last = text;
    }

    /// The value the watcher last observed.
    pub fn last_observed(&self) -> (r: &String)
        ensures
            r@ == self@,
    {
        &self.last
    }
}

} // verus!
