//! What holds of every run of a step sequence, proved over the mathematical
//! states of the run.

use vstd::prelude::*;
use crate::guard::Verdict;
use crate::sequence::{Request, SequenceState};

verus! {

/// Resuming `resumes` suspensions counts that many steps, as far as steps
/// are left, and leaves the number of steps as it was.
pub proof fn lemma_after_counts_resumes(state: SequenceState, resumes: nat)
    requires
        state.wf(),
    ensures
        state.after(resumes).total == state.total,
        state.after(resumes).completed == if resumes <= state.remaining() {
            state.completed + resumes
        } else {
            state.total
        },
    decreases resumes,
{
    if resumes > 0 {
        lemma_after_counts_resumes(state, (resumes - 1) as nat);
    }
}

/// Over any run the counter never goes down, goes up by exactly one with
/// each step that is counted, and never exceeds the number of steps.
pub proof fn lemma_counter_monotonic(state: SequenceState, earlier: nat, later: nat)
    requires
        state.wf(),
        earlier <= later,
    ensures
        state.after(earlier).completed <= state.after(later).completed,
        state.after(later).completed <= state.total,
        state.after(earlier).pending() is Suspend ==> state.after(earlier + 1).completed
            == state.after(earlier).completed + 1,
        state.after(earlier).pending() is Finish ==> state.after(earlier + 1).completed
            == state.after(earlier).completed,
{
    lemma_after_counts_resumes(state, earlier);
    lemma_after_counts_resumes(state, later);
    lemma_after_counts_resumes(state, earlier + 1);
}

/// In a run from the start, the suspension of a step is asked for only once
/// every step before it is counted. When the run asks to suspend for step
/// `step` after `resumes` suspensions were resumed, these were the
/// suspensions of the steps before `step`, and the counter shows all of
/// them.
pub proof fn lemma_steps_in_order(total: nat, resumes: nat, step: nat)
    requires
        SequenceState::initial(total).after(resumes).pending() == (Request::Suspend { step }),
    ensures
        step == resumes + 1,
        step <= total,
        SequenceState::initial(total).after(resumes).completed == step - 1,
{
    lemma_after_counts_resumes(SequenceState::initial(total), resumes);
}

/// A run from the start in which every suspension is resumed ends with
/// every step counted. It then asks to finish with the number of steps as
/// its count, and the guard finds the scope complete.
pub proof fn lemma_uninterrupted_run_completes(total: nat)
    ensures
        SequenceState::initial(total).after(total) == SequenceState::initial(total).completion(),
        SequenceState::initial(total).after(total).pending() == (Request::Finish { count: total }),
        SequenceState::initial(total).after(total).scope_exit() == Verdict::Complete,
{
    lemma_after_counts_resumes(SequenceState::initial(total), total);
}

/// A run from the start whose scope is left after fewer suspensions were
/// resumed than it has steps is reported as interrupted. The count reported
/// is the number of steps counted until then, which is below the number of
/// steps.
pub proof fn lemma_early_exit_is_reported(total: nat, resumes: nat)
    requires
        resumes < total,
    ensures
        SequenceState::initial(total).after(resumes).scope_exit() == (Verdict::Interrupted {
            observed: resumes,
        }),
{
    lemma_after_counts_resumes(SequenceState::initial(total), resumes);
}

/// In every state the guard reports an interruption exactly while a
/// suspension is pending: leaving the scope at a suspension point is never
/// passed over, and leaving it after the last step is never reported.
pub proof fn lemma_interrupted_iff_suspended(state: SequenceState)
    requires
        state.wf(),
    ensures
        state.scope_exit() is Interrupted <==> state.pending() is Suspend,
        state.scope_exit() is Interrupted ==> state.scope_exit() == (Verdict::Interrupted {
            observed: state.completed,
        }) && state.completed < state.total,
{
}

} // verus!
