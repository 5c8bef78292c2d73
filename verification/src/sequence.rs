//! The step sequence: an ordered run of steps, each of which suspends and,
//! once resumed, is counted as completed.

use vstd::prelude::*;
use crate::guard::{verdict_on_exit, CompletionGuard, ScopeExit, Verdict};

verus! {

/// The number of steps of the guarded operation sequence.
pub const EXPECTED_STEPS: u32 = 3;

/// The delay for which each step suspends, in seconds.
pub const STEP_DELAY_SECS: u64 = 1;

/// The state of a run as a mathematical value: `completed` steps out of
/// `total` have been counted.
pub struct SequenceState {
    pub completed: nat,
    pub total: nat,
}

/// What a run asks of its driver, as a mathematical value.
pub enum Request {
    /// Suspend for the delay of step `step`; steps are numbered from one.
    Suspend { step: nat },
    /// Every step is counted: hand `count` back to the caller.
    Finish { count: nat },
}

impl SequenceState {
    /// The state before any step: nothing is counted yet.
    pub open spec fn initial(total: nat) -> Self {
        SequenceState { completed: 0, total }
    }

    /// The counter never exceeds the number of steps.
    pub open spec fn wf(self) -> bool {
        self.completed <= self.total
    }

    /// What the run asks for in this state: the suspension of the next step
    /// while one is left, the end of the run after that.
    pub open spec fn pending(self) -> Request {
        if self.completed < self.total {
            Request::Suspend { step: self.completed + 1 }
        } else {
            Request::Finish { count: self.completed }
        }
    }

    /// The state after the pending suspension was resumed: the step is
    /// counted. A run that has nothing pending stays as it is.
    pub open spec fn resumed(self) -> Self {
        if self.completed < self.total {
            SequenceState { completed: self.completed + 1, total: self.total }
        } else {
            self
        }
    }

    /// The number of steps that are not counted yet.
    pub open spec fn remaining(self) -> nat {
        (self.total - self.completed) as nat
    }

    /// The state in which every step is counted.
    pub open spec fn completion(self) -> Self {
        SequenceState { completed: self.total, total: self.total }
    }

    /// What the guard finds if the scope of the run is left in this state.
    pub open spec fn scope_exit(self) -> Verdict {
        verdict_on_exit(self.total, self.completed)
    }

    /// The state after `resumes` suspensions were resumed one after another.
    pub open spec fn after(self, resumes: nat) -> Self
        decreases resumes,
    {
        if resumes == 0 {
            self
        } else {
            self.after((resumes - 1) as nat).resumed()
        }
    }
}

/// What a run asks of its driver.
#[derive(Clone, Copy, Debug, PartialEq, Eq, Structural)]
pub enum Action {
    /// Suspend for the delay of step `step`, then resume the run; steps are
    /// numbered from one.
    Suspend { step: u32 },
    /// Every step is counted: hand `count` back to the caller.
    Finish { count: u32 },
}

impl View for Action {
    type V = Request;

    open spec fn view(&self) -> Request {
        match *self {
            Action::Suspend { step } => Request::Suspend { step: step as nat },
            Action::Finish { count } => Request::Finish { count: count as nat },
        }
    }
}

/// One run of the operation sequence: the completion counter together with
/// the guard that watches it.
#[derive(Debug)]
pub struct StepSequence {
    completed: u32,
    guard: CompletionGuard,
}

impl View for StepSequence {
    type V = SequenceState;

    closed spec fn view(&self) -> SequenceState {
        SequenceState {
            completed: self.completed as nat,
            total: self.guard@,
        }
    }
}

impl StepSequence {
    #[verifier::type_invariant]
    spec fn counter_within_steps(self) -> bool {
        self.completed <= self.guard@
    }

    /// A run of `steps` steps, none of them counted yet.
    pub fn new(steps: u32) -> (run: Self)
        ensures
            run@ == SequenceState::initial(steps as nat),
    {
        StepSequence { completed: 0, guard: CompletionGuard::new(steps) }
    }

    /// What the driver has to do next.
    pub fn next_action(&self) -> (action: Action)
        ensures
            self@.wf(),
            action@ == self@.pending(),
    {
        proof {
            use_type_invariant(self);
        }
        if self.completed < self.guard.expected() {
            Action::Suspend { step: self.completed + 1 }
        } else {
            Action::Finish { count: self.completed }
        }
    }

    /// Records that the pending suspension was resumed: counts the step, and
    /// says what the driver has to do next.
    pub fn resume(&mut self) -> (action: Action)
        ensures
            final(self)@.wf(),
            final(self)@ == old(self)@.resumed(),
            action@ == final(self)@.pending(),
    {
        if self.completed < self.guard.expected() {
            self.completed = self.completed + 1;
        }
        self.next_action()
    }

    /// Performs every step that is left, one after another and without a
    /// suspension between them, as an uninterrupted run does; returns the
    /// final count.
    pub fn run_to_completion(&mut self) -> (count: u32)
        ensures
            final(self)@ == old(self)@.completion(),
            final(self)@ == old(self)@.after(old(self)@.remaining()),
            count == old(self)@.total,
    {
        let mut action = self.next_action();
        let ghost mut resumes: nat = 0;
        loop
            invariant
                self@.wf(),
                self@ == old(self)@.after(resumes),
                self@.total == old(self)@.total,
                self@.completed == old(self)@.completed + resumes,
                action@ == self@.pending(),
            decreases self@.total - self@.completed,
        {
            match action {
                Action::Suspend { .. } => {
                    action = self.resume();
                    proof {
                        resumes = resumes + 1;
                    }
                },
                Action::Finish { count } => {
                    return count;
                },
            }
        }
    }

    /// What the guard finds if the scope of the run is left in this state.
    pub fn on_scope_exit(&self) -> (verdict: ScopeExit)
        ensures
            self@.wf(),
            verdict@ == self@.scope_exit(),
    {
        proof {
            use_type_invariant(self);
        }
        self.guard.inspect(self.completed)
    }
}

} // verus!
