//! The guard: what leaving the guarded scope means for a given count, and
//! the words in which an interruption is reported.

use vstd::prelude::*;
use vstd::string::StringExecFns;
use crate::decimal::{append_decimal, decimal_digits, lemma_decimal_round_trip};

verus! {

/// What the guard finds when the guarded scope is left, as a mathematical
/// value.
pub enum Verdict {
    /// Every expected step had completed.
    Complete,
    /// The scope was left with `observed` steps completed, which is not the
    /// number that was expected.
    Interrupted { observed: nat },
}

/// The verdict on leaving a scope that expected `expected` completed steps
/// while the counter shows `observed`.
pub open spec fn verdict_on_exit(expected: nat, observed: nat) -> Verdict {
    if observed == expected {
        Verdict::Complete
    } else {
        Verdict::Interrupted { observed }
    }
}

/// The words with which every report of an interruption begins.
pub const INTERRUPTION_LEAD: &'static str = "Transaction dropped before completion: ";

/// The text that reports an interruption at `observed` completed steps: the
/// fixed lead, then the count in decimal notation.
pub open spec fn interruption_text(observed: nat) -> Seq<char> {
    INTERRUPTION_LEAD@ + decimal_digits(observed)
}

/// What the guard finds when the guarded scope is left.
#[derive(Clone, Copy, Debug, PartialEq, Eq, Structural)]
pub enum ScopeExit {
    /// Every expected step had completed.
    Complete,
    /// The scope was left with `observed` steps completed, which is not the
    /// number that was expected.
    Interrupted { observed: u32 },
}

impl View for ScopeExit {
    type V = Verdict;

    open spec fn view(&self) -> Verdict {
        match *self {
            ScopeExit::Complete => Verdict::Complete,
            ScopeExit::Interrupted { observed } => Verdict::Interrupted { observed: observed as nat },
        }
    }
}

/// Knows how many steps a guarded scope has to complete.
#[derive(Debug)]
pub struct CompletionGuard {
    expected: u32,
}

impl View for CompletionGuard {
    type V = nat;

    /// The number of completed steps that the guard expects.
    closed spec fn view(&self) -> nat {
        self.expected as nat
    }
}

impl CompletionGuard {
    /// A guard for a scope that has to complete `expected` steps.
    pub fn new(expected: u32) -> (guard: Self)
        ensures
            guard@ == expected,
    {
        CompletionGuard { expected }
    }

    /// The number of completed steps that the guard expects.
    pub fn expected(&self) -> (expected: u32)
        ensures
            expected == self@,
    {
        self.expected
    }

    /// Judges the exit of the guarded scope from the count `observed` that
    /// was read at that moment.
    pub fn inspect(&self, observed: u32) -> (verdict: ScopeExit)
        ensures
            verdict@ == verdict_on_exit(self@, observed as nat),
    {
        if observed == self.expected {
            ScopeExit::Complete
        } else {
            ScopeExit::Interrupted { observed }
        }
    }
}

/// The message of the fatal signal for a scope that was left with `observed`
/// steps completed.
pub fn interruption_message(observed: u32) -> (message: String)
    ensures
        message@ == interruption_text(observed as nat),
{
    let mut message = String::from_str(INTERRUPTION_LEAD);
    append_decimal(&mut message, observed);
    message
}

/// The message tells the count: two interruptions at different counts are
/// reported in different words.
pub proof fn lemma_message_tells_count(first: nat, second: nat)
    requires
        interruption_text(first) == interruption_text(second),
    ensures
        first == second,
{
    let from = INTERRUPTION_LEAD@.len() as int;
    assert(interruption_text(first).subrange(from, interruption_text(first).len() as int)
        == decimal_digits(first));
    assert(interruption_text(second).subrange(from, interruption_text(second).len() as int)
        == decimal_digits(second));
    lemma_decimal_round_trip(first);
    lemma_decimal_round_trip(second);
}

} // verus!
