//! The authority's versioned register and its conflict-resolution rule.
//!
//! The register holds `{epoch, content}`.  A write carries the epoch its
//! author last observed and is accepted only when that epoch still equals
//! the register's epoch; an accepted write stores the new content and
//! advances the epoch by exactly one.  This fencing check is the whole
//! conflict-detection mechanism: there is no merging and no timestamping.

use vstd::prelude::*;

use crate::protocol::{GetResponse, SetRequest, SetResponse};

verus! {

/// Mathematical value of the register.
pub ghost struct AuthorityView {
    pub epoch: int,
    pub content: Seq<char>,
}

/// Mathematical value of a write attempt: the observed epoch and the
/// proposed content.
pub ghost struct WriteOp {
    pub epoch: int,
    pub content: Seq<char>,
}

/// A write is accepted exactly when its observed epoch is current.
pub open spec fn accepts(s: AuthorityView, op: WriteOp) -> bool {
    op.epoch == s.epoch
}

/// The register after one write attempt: an accepted write stores the
/// content and advances the epoch by one, a rejected write changes nothing.
pub open spec fn apply(s: AuthorityView, op: WriteOp) -> AuthorityView {
    if accepts(s, op) {
        AuthorityView { epoch: s.epoch + 1, content: op.content }
    } else {
        s
    }
}

/// The register after a whole sequence of write attempts, applied in order.
pub open spec fn run(s: AuthorityView, ops: Seq<WriteOp>) -> AuthorityView
    decreases ops.len(),
{
    if ops.len() == 0 {
        s
    } else {
        apply(run(s, ops.drop_last()), ops.last())
    }
}

/// Whether the `i`-th attempt of `ops` is accepted, given everything that
/// ran before it.
pub open spec fn accepted_at(s: AuthorityView, ops: Seq<WriteOp>, i: int) -> bool {
    accepts(run(s, ops.take(i)), ops[i])
}

/// The register's epoch once the first `i` attempts of `ops` have run.
pub open spec fn epoch_after(s: AuthorityView, ops: Seq<WriteOp>, i: int) -> int {
    run(s, ops.take(i)).epoch
}

/// Running one more attempt is the same as applying it to the prefix.
proof fn lemma_run_unfold(s: AuthorityView, ops: Seq<WriteOp>, i: int)
    requires
        0 <= i < ops.len(),
    ensures
        run(s, ops.take(i + 1)) == apply(run(s, ops.take(i)), ops[i]),
{
    assert(ops.take(i + 1).drop_last() =~= ops.take(i));
    assert(ops.take(i + 1).last() == ops[i]);
}

/// The epoch never moves backwards: over any span of write attempts it is
/// monotone, growing by one on each accepted write and by nothing else.
pub proof fn lemma_epoch_monotone(s: AuthorityView, ops: Seq<WriteOp>, i: int, j: int)
    requires
        0 <= i <= j <= ops.len(),
    ensures
        epoch_after(s, ops, i) <= epoch_after(s, ops, j),
    decreases j - i,
{
    if i < j {
        lemma_epoch_monotone(s, ops, i, j - 1);
        lemma_run_unfold(s, ops, j - 1);
    }
}

/// An accepted write leaves the register holding exactly its content, under
/// an epoch one past the epoch it was fenced on: each new epoch identifies
/// the single write that produced it.
pub proof fn lemma_accepted_write(s: AuthorityView, ops: Seq<WriteOp>, i: int)
    requires
        0 <= i < ops.len(),
        accepted_at(s, ops, i),
    ensures
        run(s, ops.take(i + 1)) == (AuthorityView {
            epoch: epoch_after(s, ops, i) + 1,
            content: ops[i].content,
        }),
        epoch_after(s, ops, i + 1) == epoch_after(s, ops, i) + 1,
{
    lemma_run_unfold(s, ops, i);
}

/// Law: over any sequence of write attempts, the epochs assigned by
/// accepted writes strictly increase — the authority's epoch is strictly
/// increasing and no two accepted writes produce the same epoch.
pub proof fn lemma_epochs_strictly_increase(s: AuthorityView, ops: Seq<WriteOp>, i: int, j: int)
    requires
        0 <= i < j < ops.len(),
        accepted_at(s, ops, i),
        accepted_at(s, ops, j),
    ensures
        epoch_after(s, ops, i + 1) < epoch_after(s, ops, j + 1),
{
    lemma_accepted_write(s, ops, i);
    lemma_accepted_write(s, ops, j);
    lemma_epoch_monotone(s, ops, i + 1, j);
}

/// Law: two write attempts fenced on the same observed epoch cannot both
/// be accepted — whichever runs first is applied, and the other is then
/// rejected as stale, in either order.
pub proof fn lemma_same_epoch_race(s: AuthorityView, a: WriteOp, b: WriteOp)
    requires
        a.epoch == s.epoch,
        b.epoch == s.epoch,
    ensures
        accepts(s, a),
        accepts(s, b),
        !accepts(apply(s, a), b),
        !accepts(apply(s, b), a),
        apply(apply(s, a), b) == apply(s, a),
        apply(apply(s, b), a) == apply(s, b),
{
}

/// Law: `Get` is idempotent.  `Get` has no side effect and its result is a
/// function of the register alone, so any two snapshots taken from the
/// same register value — in particular two `Get` calls with no accepted
/// `Set` between them — are identical.
pub proof fn lemma_get_idempotent(
    s: AuthorityView,
    e1: int,
    c1: Seq<char>,
    e2: int,
    c2: Seq<char>,
)
    requires
        e1 == s.epoch,
        c1 == s.content,
        e2 == s.epoch,
        c2 == s.content,
    ensures
        e1 == e2,
        c1 == c2,
{
}

/// The authority's register, created at `{0, ""}` and mutated only by
/// accepted `Set` calls.
pub struct SyncState {
    epoch: u64,
    content: String,
}

impl View for SyncState {
    type V = AuthorityView;

    closed spec fn view(&self) -> AuthorityView {
        AuthorityView { epoch: self.epoch as int, content: self.content@ }
    }
}

impl SyncState {
    /// A fresh register: epoch `0`, empty content.
    pub fn new() -> (s: Self)
        ensures
            s@ == (AuthorityView { epoch: 0, content: Seq::<char>::empty() }),
    {
        SyncState { epoch: 0, content: String::new() }
    }

    /// `Get`: a snapshot of the current register, with no side effect.
    /// Repeating it with no intervening accepted `Set` returns the
    /// identical pair.
    pub fn get(&self) -> (r: GetResponse)
        ensures
            r.epoch as int == self@.epoch,
            r.content@ == self@.content,
    {
        GetResponse { epoch: self.epoch, content: self.content.clone() }
    }

    /// `Set`: the fenced write.  It succeeds if and only if the request's
    /// epoch equals the register's epoch; on success the content is
    /// replaced and the epoch advances by one, on rejection the register
    /// is untouched and the response is tagged `"Outdated"`.
    pub fn set(&mut self, request: SetRequest) -> (r: SetResponse)
        requires
            old(self)@.epoch < u64::MAX,
        ensures
            final(self)@ == apply(
                old(self)@,
                WriteOp { epoch: request.epoch as int, content: request.content@ },
            ),
            r.success == accepts(
                old(self)@,
                WriteOp { epoch: request.epoch as int, content: request.content@ },
            ),
            r.success <==> request.epoch as int == old(self)@.epoch,
            r.success ==> r.message@ == Seq::<char>::empty(),
            !r.success ==> r.message@ == "Outdated"@,
    {
        if self.epoch != request.epoch {
            return SetResponse { success: false, message: "Outdated".to_owned() };
        }
        self.epoch = self.epoch + 1;
        self.content = request.content;
        SetResponse { success: true, message: String::new() }
    }
}

} // verus!
