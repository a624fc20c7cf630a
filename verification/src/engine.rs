//! The reconciliation engine run by the follower.
//!
//! Each tick the follower asks the authority for its register (`Get`) and
//! then decides:
//!
//! 1. If the authority's epoch is ahead of the follower's shadow copy, the
//!    remote value wins: it is applied to the local clipboard, the shadow
//!    is updated to match, and the watcher's marker is advanced so the
//!    applied value is not re-detected as a fresh local change (anti-echo).
//!    Remote always wins over a pending local change: this branch is
//!    decided before the watcher is ever polled.
//! 2. Otherwise the watcher is polled for a local change.  A change that
//!    merely equals the shadow content is dropped; anything else becomes a
//!    `Set` fenced on the shadow epoch.  A stale rejection is never
//!    retried directly — the next tick's `Get` reveals the newer remote
//!    state and resolves it.
//!
//! A transport failure anywhere in the tick changes nothing: the follower
//! simply tries again on its next tick.
//!
//! The loop that performs the actual `Get`/`Set` calls, clipboard reads
//! and writes lives outside this crate; it feeds the results of those
//! calls into [`Follower::on_get`], [`Follower::on_local_read`] and
//! [`Follower::on_set_response`] and carries out the decisions they
//! return.

use vstd::prelude::*;

use crate::protocol::{GetResponse, SetRequest, SetResponse};
use crate::watcher::{read_emits, Watcher};

verus! {

/// Mathematical value of the follower: its shadow copy of the authority's
/// register and the watcher's duplicate-filter marker.
pub ghost struct FollowerView {
    pub epoch: int,
    pub content: Seq<char>,
    pub marker: Seq<char>,
}

/// Whether the authority's register is ahead of the follower's shadow.
pub open spec fn remote_ahead(f: FollowerView, remote_epoch: int) -> bool {
    remote_epoch > f.epoch
}

/// The follower after applying a remote value: the shadow matches the
/// authority, and the marker holds the applied content so that its next
/// local read is filtered as a duplicate.
pub open spec fn apply_remote(f: FollowerView, epoch: int, content: Seq<char>) -> FollowerView {
    FollowerView { epoch: epoch, content: content, marker: content }
}

/// The view of an optional `Get` response as an `(epoch, content)` pair.
pub open spec fn response_view(response: Option<GetResponse>) -> Option<(int, Seq<char>)> {
    match response {
        Some(g) => Some((g.epoch as int, g.content@)),
        None => None,
    }
}

/// The follower after one `Get` outcome: a remote value that is ahead is
/// applied, anything else — an authority not ahead, or no response at all
/// — changes nothing.
pub open spec fn get_step(f: FollowerView, response: Option<(int, Seq<char>)>) -> FollowerView {
    match response {
        Some(g) => if remote_ahead(f, g.0) {
            apply_remote(f, g.0, g.1)
        } else {
            f
        },
        None => f,
    }
}

/// The follower after one poll of the local source: an emitted read moves
/// the marker, everything else changes nothing.
pub open spec fn local_step(f: FollowerView, read: Option<Seq<char>>) -> FollowerView {
    match read {
        Some(t) => if read_emits(f.marker, t) {
            FollowerView { epoch: f.epoch, content: f.content, marker: t }
        } else {
            f
        },
        None => f,
    }
}

/// The `Set` payload, if any, that one poll of the local source produces:
/// only a read that passes the watcher's guards and differs from the
/// shadow content is pushed, fenced on the shadow epoch.
pub open spec fn local_push(f: FollowerView, read: Option<Seq<char>>) -> Option<(int, Seq<char>)> {
    match read {
        Some(t) => if read_emits(f.marker, t) && t != f.content {
            Some((f.epoch, t))
        } else {
            None
        },
        None => None,
    }
}

/// The follower after the authority answered a push: acceptance moves the
/// shadow to the epoch the write created, anything else — rejection as
/// stale, or no answer at all — changes nothing.
pub open spec fn set_result_step(
    f: FollowerView,
    epoch: int,
    content: Seq<char>,
    success: bool,
) -> FollowerView {
    if success {
        FollowerView { epoch: epoch + 1, content: content, marker: f.marker }
    } else {
        f
    }
}

/// Law (anti-echo): once a remote value has been applied, polling the
/// local source and reading back that same value emits nothing and
/// changes nothing — the follower never pushes an applied value back.
pub proof fn lemma_anti_echo(f: FollowerView, epoch: int, content: Seq<char>)
    ensures
        local_step(apply_remote(f, epoch, content), Some(content)) == apply_remote(
            f,
            epoch,
            content,
        ),
        local_push(apply_remote(f, epoch, content), Some(content)) is None,
{
}

/// Law: whatever the follower reads locally, an empty value or a value it
/// already holds — as marker or as shadow content — is never handed to
/// the transport as a `Set` payload.
pub proof fn lemma_push_filtered(f: FollowerView, read: Option<Seq<char>>)
    ensures
        local_push(f, read) matches Some(p) ==> p.1.len() > 0 && p.1 != f.marker && p.1
            != f.content && p.0 == f.epoch,
{
}

/// Law: no step of a tick moves the shadow epoch backwards.  A remote
/// value is applied only when its epoch is ahead, polling the local
/// source never touches the shadow, and an accepted push — always fenced
/// on the shadow epoch of the tick that sent it — advances the shadow by
/// one.
pub proof fn lemma_shadow_epoch_never_decreases(
    f: FollowerView,
    response: Option<(int, Seq<char>)>,
    read: Option<Seq<char>>,
    epoch: int,
    content: Seq<char>,
    success: bool,
)
    requires
        epoch >= f.epoch,
    ensures
        get_step(f, response).epoch >= f.epoch,
        local_step(f, read).epoch == f.epoch,
        set_result_step(f, epoch, content, success).epoch >= f.epoch,
{
}

/// What the caller must do with the outcome of a `Get` tick.
pub enum GetDecision {
    /// Write this content to the local clipboard; the shadow and marker
    /// are already updated.
    ApplyRemote(String),
    /// The authority is not ahead: poll the local source for a change.
    PollLocal,
    /// The transport gave no information: end the tick, retry next tick.
    Skip,
}

/// The follower: the shadow copy of the authority's register, plus the
/// change watcher for the local clipboard.
pub struct Follower {
    epoch: u64,
    content: String,
    watcher: Watcher,
}

impl View for Follower {
    type V = FollowerView;

    closed spec fn view(&self) -> FollowerView {
        FollowerView { epoch: self.epoch as int, content: self.content@, marker: self.watcher@ }
    }
}

impl Follower {
    /// A fresh follower: shadow `{0, ""}`, empty marker.
    pub fn new() -> (f: Self)
        ensures
            f@ == (FollowerView {
                epoch: 0,
                content: Seq::<char>::empty(),
                marker: Seq::<char>::empty(),
            }),
    {
        Follower { epoch: 0, content: String::new(), watcher: Watcher::new() }
    }

    /// The shadow epoch.
    pub fn epoch(&self) -> (r: u64)
        ensures
            r as int == self@.epoch,
    {
        self.epoch
    }

    /// The shadow content.
    pub fn content(&self) -> (r: &String)
        ensures
            r@ == self@.content,
    {
        &self.content
    }

    /// The watcher's duplicate-filter marker.
    pub fn last_observed(&self) -> (r: &String)
        ensures
            r@ == self@.marker,
    {
        self.watcher.last_observed()
    }

    /// Step 1 of a tick: decide on the authority's answer to `Get`.  A
    /// remote value that is ahead wins and is applied — shadow and marker
    /// move together, before the watcher is ever polled.  No response
    /// leaves the follower exactly as it was.
    pub fn on_get(&mut self, response: Option<GetResponse>) -> (d: GetDecision)
        ensures
            final(self)@ == get_step(old(self)@, response_view(response)),
            response is None ==> d is Skip,
            response matches Some(g) ==> remote_ahead(old(self)@, g.epoch as int) ==> (d matches
                GetDecision::ApplyRemote(c) && c@ == g.content@),
            response matches Some(g) ==> !remote_ahead(old(self)@, g.epoch as int)
                ==> d is PollLocal,
    {
        match response {
            None => GetDecision::Skip,
            Some(g) => {
                if g.epoch > self.epoch {
                    self.epoch = g.epoch;
                    self.content = g.content.clone();
                    self.watcher.record(g.content.clone());
                    GetDecision::ApplyRemote(g.content)
                } else {
                    GetDecision::PollLocal
                }
            },
        }
    }

    /// Step 2 of a tick, reached only when the authority was not ahead:
    /// run one raw clipboard read through the watcher's guards.  A read
    /// that passes them but equals the shadow content is already in sync
    /// and dropped; anything else is returned as a `Set` request fenced on
    /// the shadow epoch.  The shadow itself is not touched here.
    pub fn on_local_read(&mut self, read: Option<String>) -> (req: Option<SetRequest>)
        ensures
            final(self)@ == local_step(old(self)@, read.deep_view()),
            req is Some <==> local_push(old(self)@, read.deep_view()) is Some,
            req matches Some(q) ==> local_push(old(self)@, read.deep_view()) == Some(
                (q.epoch as int, q.content@),
            ),
            req matches Some(q) ==> q.epoch as int == old(self)@.epoch && q.content@.len() > 0
                && q.content@ != old(self)@.marker && q.content@ != old(self)@.content,
    {
        match read {
            None => None,
            Some(text) => {
                match self.watcher.observe(text) {
                    Err(_) => None,
                    Ok(update) => {
                        if update == self.content {
                            None
                        } else {
                            Some(SetRequest { epoch: self.epoch, content: update })
                        }
                    },
                }
            },
        }
    }

    /// Step 3 of a tick, reached only when a push was sent: record what
    /// the authority made of it.  Acceptance moves the shadow to the newly
    /// created epoch and content; a stale rejection or a transport failure
    /// changes nothing — the next tick's `Get` resolves it.
    pub fn on_set_response(&mut self, request: SetRequest, response: Option<SetResponse>)
        requires
            request.epoch < u64::MAX,
        ensures
            final(self)@ == set_result_step(
                old(self)@,
                request.epoch as int,
                request.content@,
                response matches Some(r) && r.success,
            ),
    {
        match response {
            None => {},
            Some(r) => {
                if r.success {
                    self.epoch = request.epoch + 1;
                    self.content = request.content;
                }
            },
        }
    }
}

} // verus!
