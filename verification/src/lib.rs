//! A completion guard for multi-step operation sequences.
//!
//! A sequence of steps either runs to the end or its interruption is made
//! impossible to overlook. Each step suspends and is counted once it is
//! resumed; when the scope that runs the sequence is left, the guard
//! compares the number of counted steps with the number expected and
//! reports an interruption if they differ.
//!
//! The crate holds the decisions and leaves the waiting to its driver. The
//! driver keeps a [`StepSequence`] in the scope that it guards, performs the
//! [`Action`] that the run asks for, and calls [`StepSequence::resume`] when
//! a suspension is over. On leaving the scope, on whatever path, it calls
//! [`StepSequence::on_scope_exit`] and raises its fatal signal, with
//! [`interruption_message`] as the message, if the verdict is
//! [`ScopeExit::Interrupted`].

pub mod decimal;
pub mod guard;
pub mod runs;
pub mod sequence;

pub use guard::{interruption_message, CompletionGuard, ScopeExit, INTERRUPTION_LEAD};
pub use sequence::{Action, StepSequence, EXPECTED_STEPS, STEP_DELAY_SECS};
