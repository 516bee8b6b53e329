//! Lock discipline of the two periodic schedules.
//!
//! Two independently clocked activities — the 1 Hz gas feed and the slow
//! submission loop — share the pair (sensor registry, measurement aggregator)
//! behind one mutual-exclusion lock, always acquired as a unit. The critical
//! sections must be minimal: every bus transaction and every snapshot mutation
//! happens while holding the lock, but network submission and inter-cycle
//! sleeping happen strictly outside it — submitting or sleeping under the lock
//! would stall the mandatory 1 Hz gas feed and silently corrupt its
//! calibration.
//!
//! This module states that discipline over explicit cycle plans: each
//! schedule's cycle is a fixed sequence of [`Step`]s, [`lock_safe`] says what
//! a correctly locking step sequence is, and the proofs below show that both
//! plans obey it and that it is preserved over any number of cycles. The
//! surrounding binary drives each schedule in exactly the order its plan
//! gives.

use vstd::prelude::*;

verus! {

/// One step of a periodic schedule's cycle.
#[derive(Clone, Copy, Debug, PartialEq, Eq, Structural)]
pub enum Step {
    /// Acquire the lock guarding the sensor registry and the aggregator.
    Acquire,
    /// Read the non-gas sensors over the bus and merge the results into the
    /// shared snapshot (slow schedule).
    MergeReads,
    /// Take the composite snapshot for submission and reset the shared one
    /// (slow schedule).
    TakeSnapshot,
    /// Feed the gas sensor — its mandatory 1 Hz measurement (fast schedule).
    FeedGas,
    /// Record the gas reading into the shared snapshot, subject to the
    /// warm-up gate (fast schedule).
    RecordGas,
    /// Release the lock.
    Release,
    /// Encode the taken snapshot and submit it over the network transport
    /// (slow schedule).
    Submit,
    /// Sleep until the next cycle (slow schedule; the fast schedule is paced
    /// by its timer).
    Sleep,
}

/// True of the steps that touch the lock-guarded pair: every bus transaction
/// and every snapshot mutation.
pub open spec fn touches_shared_state(step: Step) -> bool {
    match step {
        Step::MergeReads | Step::TakeSnapshot | Step::FeedGas | Step::RecordGas => true,
        _ => false,
    }
}

/// True of the steps that block for long or unbounded time and must therefore
/// run outside the lock: network submission and inter-cycle sleep.
pub open spec fn must_run_unlocked(step: Step) -> bool {
    step is Submit || step is Sleep
}

/// How many times the lock is held before step `i` of `s`: acquires minus
/// releases among the steps before it.
pub open spec fn lock_depth(s: Seq<Step>, i: int) -> int
    decreases i,
{
    if i <= 0 {
        0
    } else {
        lock_depth(s, i - 1) + (if s[i - 1] is Acquire {
            1
        } else if s[i - 1] is Release {
            -1
        } else {
            0
        })
    }
}

/// Step `i` of `s` respects the lock discipline: acquires are not nested,
/// releases match an acquire, shared state is touched only under the lock,
/// and submission and sleep happen only outside it.
pub open spec fn step_ok(s: Seq<Step>, i: int) -> bool {
    &&& s[i] is Acquire ==> lock_depth(s, i) == 0
    &&& s[i] is Release ==> lock_depth(s, i) == 1
    &&& touches_shared_state(s[i]) ==> lock_depth(s, i) == 1
    &&& must_run_unlocked(s[i]) ==> lock_depth(s, i) == 0
}

/// A step sequence that respects the lock discipline throughout and ends with
/// the lock released.
pub open spec fn lock_safe(s: Seq<Step>) -> bool {
    &&& forall|i: int| 0 <= i < s.len() ==> #[trigger] step_ok(s, i)
    &&& lock_depth(s, s.len() as int) == 0
}

/// One cycle of the slow schedule: under the lock, merge the non-gas reads
/// and take-and-reset the snapshot; outside it, submit and sleep.
pub open spec fn slow_cycle_plan() -> Seq<Step> {
    seq![
        Step::Acquire,
        Step::MergeReads,
        Step::TakeSnapshot,
        Step::Release,
        Step::Submit,
        Step::Sleep,
    ]
}

/// One cycle of the fast schedule: under the lock, feed the gas sensor and
/// record its reading; nothing runs outside it.
pub open spec fn fast_cycle_plan() -> Seq<Step> {
    seq![Step::Acquire, Step::FeedGas, Step::RecordGas, Step::Release]
}

/// The slow schedule's cycle, as the order the submission loop follows.
pub fn slow_cycle_steps() -> (steps: Vec<Step>)
    ensures
        steps@ == slow_cycle_plan(),
{
    let mut steps: Vec<Step> = Vec::new();
    steps.push(Step::Acquire);
    steps.push(Step::MergeReads);
    steps.push(Step::TakeSnapshot);
    steps.push(Step::Release);
    steps.push(Step::Submit);
    steps.push(Step::Sleep);
    proof {
        assert(steps@ =~= slow_cycle_plan());
    }
    steps
}

/// The fast schedule's cycle, as the order the gas feed task follows.
pub fn fast_cycle_steps() -> (steps: Vec<Step>)
    ensures
        steps@ == fast_cycle_plan(),
{
    let mut steps: Vec<Step> = Vec::new();
    steps.push(Step::Acquire);
    steps.push(Step::FeedGas);
    steps.push(Step::RecordGas);
    steps.push(Step::Release);
    proof {
        assert(steps@ =~= fast_cycle_plan());
    }
    steps
}

/// The slow schedule's cycle respects the lock discipline: in particular, the
/// lock is never held during network submission or inter-cycle sleep, and
/// every snapshot access happens under it.
pub proof fn lemma_slow_cycle_lock_safe()
    ensures
        lock_safe(slow_cycle_plan()),
{
    let p = slow_cycle_plan();
    assert(lock_depth(p, 0) == 0);
    assert(lock_depth(p, 1) == 1);
    assert(lock_depth(p, 2) == 1);
    assert(lock_depth(p, 3) == 1);
    assert(lock_depth(p, 4) == 0);
    assert(lock_depth(p, 5) == 0);
    assert(lock_depth(p, 6) == 0);
    assert(forall|i: int| 0 <= i < p.len() ==> #[trigger] step_ok(p, i));
}

/// The fast schedule's cycle respects the lock discipline: the gas feed and
/// the recording of its reading happen under the lock, and the cycle neither
/// submits nor sleeps.
pub proof fn lemma_fast_cycle_lock_safe()
    ensures
        lock_safe(fast_cycle_plan()),
{
    let p = fast_cycle_plan();
    assert(lock_depth(p, 0) == 0);
    assert(lock_depth(p, 1) == 1);
    assert(lock_depth(p, 2) == 1);
    assert(lock_depth(p, 3) == 1);
    assert(lock_depth(p, 4) == 0);
    assert(forall|i: int| 0 <= i < p.len() ==> #[trigger] step_ok(p, i));
}

/// The lock depth of a concatenation: within the first part it is the first
/// part's depth; after it, the parts' depths add up.
proof fn lemma_lock_depth_concat(a: Seq<Step>, b: Seq<Step>, i: int)
    requires
        0 <= i <= a.len() + b.len(),
    ensures
        lock_depth(a + b, i) == (if i <= a.len() {
            lock_depth(a, i)
        } else {
            lock_depth(a, a.len() as int) + lock_depth(b, i - a.len())
        }),
    decreases i,
{
    if i > 0 {
        lemma_lock_depth_concat(a, b, i - 1);
        if i - 1 < a.len() {
            assert((a + b)[i - 1] == a[i - 1]);
        } else {
            assert((a + b)[i - 1] == b[i - 1 - a.len()]);
            assert(lock_depth(b, 0) == 0);
        }
    }
}

/// Lock discipline is preserved under concatenation: a context that runs one
/// correctly locking step sequence after another still never holds the lock
/// where it must not.
pub proof fn lemma_lock_safe_concat(a: Seq<Step>, b: Seq<Step>)
    requires
        lock_safe(a),
        lock_safe(b),
    ensures
        lock_safe(a + b),
{
    let s = a + b;
    assert forall|i: int| 0 <= i < s.len() implies #[trigger] step_ok(s, i) by {
        lemma_lock_depth_concat(a, b, i);
        if i < a.len() {
            assert(s[i] == a[i]);
            assert(step_ok(a, i));
        } else {
            assert(s[i] == b[i - a.len()]);
            assert(step_ok(b, i - a.len()));
        }
    }
    lemma_lock_depth_concat(a, b, s.len() as int);
}

/// Any number of back-to-back cycles of one plan.
pub open spec fn cycles(n: nat, plan: Seq<Step>) -> Seq<Step>
    decreases n,
{
    if n == 0 {
        Seq::empty()
    } else {
        cycles((n - 1) as nat, plan) + plan
    }
}

/// Lock discipline holds over any number of cycles: however long either
/// schedule runs, the lock is never held during a submission or a sleep, and
/// shared state is only ever touched under it. Together with
/// [`lemma_slow_cycle_lock_safe`] and [`lemma_fast_cycle_lock_safe`], every
/// run of either schedule is lock-safe.
pub proof fn lemma_cycles_lock_safe(n: nat, plan: Seq<Step>)
    requires
        lock_safe(plan),
    ensures
        lock_safe(cycles(n, plan)),
    decreases n,
{
    if n == 0 {
        assert(lock_safe(Seq::<Step>::empty()));
    } else {
        lemma_cycles_lock_safe((n - 1) as nat, plan);
        lemma_lock_safe_concat(cycles((n - 1) as nat, plan), plan);
    }
}

} // verus!
