//! The life of a wrapper as a two-phase machine, and what follows from it.
//!
//! A wrapper is born [`Phase::Active`]. Its owner can pull from it any number
//! of times and then tears it down, which is the only step that leaves
//! `Active` and the only one on which the dropper runs. The functions here say
//! that in terms of phases and sequences of steps; the contracts of the
//! executable functions refer to them through `DropStream::phase`.

use vstd::prelude::*;

verus! {

/// Where a wrapper stands in its life.
pub enum Phase {
    /// The dropper is still held; the inner stream may be pulled.
    Active,
    /// The dropper has been taken out and called. Terminal.
    TornDown,
}

/// What the owner of a wrapper can do to it.
pub enum Op {
    /// Ask for the next item.
    Pull,
    /// Release the wrapper.
    Teardown,
}

impl Phase {
    /// The phase after one step.
    pub open spec fn after(self, op: Op) -> Phase {
        match op {
            Op::Pull => self,
            Op::Teardown => Phase::TornDown,
        }
    }

    /// Whether the dropper runs during the step `op` taken in this phase.
    pub open spec fn fires_on(self, op: Op) -> bool {
        self is Active && op is Teardown
    }

    /// The phase after the steps `ops`, taken in order.
    pub open spec fn after_all(self, ops: Seq<Op>) -> Phase
        decreases ops.len(),
    {
        if ops.len() == 0 {
            self
        } else {
            self.after_all(ops.drop_last()).after(ops.last())
        }
    }

    /// How often the dropper runs during the steps `ops`, taken in order.
    pub open spec fn invocations(self, ops: Seq<Op>) -> nat
        decreases ops.len(),
    {
        if ops.len() == 0 {
            0
        } else {
            let earlier = self.invocations(ops.drop_last());
            if self.after_all(ops.drop_last()).fires_on(ops.last()) {
                earlier + 1
            } else {
                earlier
            }
        }
    }
}

/// Every step in `ops` is a pull.
pub open spec fn only_pulls(ops: Seq<Op>) -> bool {
    forall|i: int| 0 <= i < ops.len() ==> ops[i] is Pull
}

/// Some step in `ops` is a teardown.
pub open spec fn has_teardown(ops: Seq<Op>) -> bool {
    exists|i: int| 0 <= i < ops.len() && ops[i] is Teardown
}

/// Nothing leads out of `TornDown`, and nothing done there runs the dropper.
pub proof fn lemma_torn_down_is_terminal(ops: Seq<Op>)
    ensures
        Phase::TornDown.after_all(ops) == Phase::TornDown,
        Phase::TornDown.invocations(ops) == 0,
    decreases ops.len(),
{
    if ops.len() > 0 {
        lemma_torn_down_is_terminal(ops.drop_last());
    }
}

/// Pulling, however often and whatever the answers, neither runs the dropper
/// nor changes the phase.
pub proof fn lemma_pulls_never_fire(phase: Phase, pulls: Seq<Op>)
    requires
        only_pulls(pulls),
    ensures
        phase.after_all(pulls) == phase,
        phase.invocations(pulls) == 0,
    decreases pulls.len(),
{
    if pulls.len() > 0 {
        lemma_pulls_never_fire(phase, pulls.drop_last());
    }
}

/// Over any steps at all, the dropper of a wrapper that starts out active runs
/// once if one of the steps is a teardown and not at all otherwise; it never
/// runs twice. The wrapper is torn down afterwards exactly if it ran.
pub proof fn lemma_fires_once_iff_torn_down(ops: Seq<Op>)
    ensures
        Phase::Active.invocations(ops) == (if has_teardown(ops) { 1nat } else { 0nat }),
        Phase::Active.after_all(ops) is TornDown <==> has_teardown(ops),
    decreases ops.len(),
{
    if ops.len() > 0 {
        let earlier = ops.drop_last();
        lemma_fires_once_iff_torn_down(earlier);
        if has_teardown(earlier) {
            let i = choose|i: int| 0 <= i < earlier.len() && earlier[i] is Teardown;
            assert(ops[i] is Teardown);
        } else if ops.last() is Teardown {
            assert(ops[ops.len() - 1] is Teardown);
        } else {
            assert forall|i: int| 0 <= i < ops.len() implies !(ops[i] is Teardown) by {
                if i < earlier.len() {
                    assert(earlier[i] == ops[i]);
                }
            }
        }
    }
}

/// A wrapper that is torn down without having been pulled runs its dropper
/// exactly once.
pub proof fn lemma_unused_wrapper_fires_once()
    ensures
        Phase::Active.invocations(seq![Op::Teardown]) == 1,
        Phase::Active.after_all(seq![Op::Teardown]) == Phase::TornDown,
{
    let ops = seq![Op::Teardown];
    assert(ops[0] is Teardown);
    lemma_fires_once_iff_torn_down(ops);
}

/// A wrapper that is pulled any number of times and then torn down runs its
/// dropper exactly once, and not before the teardown.
pub proof fn lemma_used_wrapper_fires_once(pulls: Seq<Op>)
    requires
        only_pulls(pulls),
    ensures
        Phase::Active.invocations(pulls) == 0,
        Phase::Active.after_all(pulls) == Phase::Active,
        Phase::Active.invocations(pulls.push(Op::Teardown)) == 1,
        Phase::Active.after_all(pulls.push(Op::Teardown)) == Phase::TornDown,
{
    lemma_pulls_never_fire(Phase::Active, pulls);
    let ops = pulls.push(Op::Teardown);
    assert(ops.drop_last() == pulls);
    assert(ops.last() is Teardown);
}

/// The dropper runs at the teardown and at no other step: after every pull,
/// the last one included, it has not run yet, and when the teardown is over it
/// has.
pub proof fn lemma_fires_after_last_pull(pulls: Seq<Op>, seen: int)
    requires
        only_pulls(pulls),
        0 <= seen <= pulls.len(),
    ensures
        Phase::Active.invocations(pulls.push(Op::Teardown).take(seen)) == 0,
        Phase::Active.invocations(pulls.push(Op::Teardown)) == 1,
{
    let ops = pulls.push(Op::Teardown);
    assert(ops.take(seen) == pulls.take(seen));
    assert(only_pulls(pulls.take(seen)));
    lemma_pulls_never_fire(Phase::Active, pulls.take(seen));
    lemma_used_wrapper_fires_once(pulls);
}

} // verus!
