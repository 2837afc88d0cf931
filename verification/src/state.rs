//! The two-state protocol of a console: it is either waiting for the user's
//! next line or streaming a response, and each operation is allowed in exactly
//! one of the two states.

use vstd::prelude::*;
use crate::common::{ConsoleError, is_invalid_state};
use std::time::Instant;

verus! {

/// A reading of the monotonic clock. Nothing is known of its value.
#[verifier::external_type_specification]
#[verifier::external_body]
pub struct ExInstant(std::time::Instant);

/// Calls `Instant::now`. Trusted: nothing is claimed of the reading.
#[verifier::external_body]
pub(crate) fn now() -> (reading: Instant) {
    Instant::now()
}

/// Calls `Instant::elapsed` and renders the duration for display. Trusted:
/// nothing is claimed of the text, which depends on the clock.
#[verifier::external_body]
pub(crate) fn elapsed_text(start: &Instant) -> (text: String) {
    format!("{:?}", start.elapsed())
}

/// The operations of a console that depend on its state.
#[derive(Debug, Clone, Copy, PartialEq, Eq, Structural)]
pub enum Operation {
    PromptInput,
    StartResponding,
    StopResponding,
    AddResponseText,
    AddThinkingText,
    IfAccept,
    IfYes,
    AskUser,
}

impl Operation {
    /// Whether the operation belongs to the prompting state; every other
    /// operation belongs to the responding state.
    pub open spec fn while_prompting(self) -> bool {
        self == Operation::PromptInput || self == Operation::StartResponding
    }
}

/// Where a console stands in its dialogue.
#[derive(Debug)]
pub enum ConsoleState {
    /// Waiting for the next line or command from the user.
    Prompting,
    /// Streaming a response; `started_at` is the time at which the response
    /// began, kept only where statistics were asked for at that moment.
    Responding { started_at: Option<Instant> },
}

impl ConsoleState {
    /// Whether a response is being streamed.
    pub open spec fn responding(&self) -> bool {
        self is Responding
    }

    /// Whether `op` may be invoked in this state.
    pub open spec fn allows(&self, op: Operation) -> bool {
        op.while_prompting() == !self.responding()
    }

    /// The state that a response begun at `started_at` puts a prompting
    /// console in; a responding console stays as it is.
    pub open spec fn started(self, started_at: Option<Instant>) -> ConsoleState {
        if self.responding() {
            self
        } else {
            ConsoleState::Responding { started_at }
        }
    }

    /// The state after a response has ended.
    pub open spec fn stopped(self) -> ConsoleState {
        ConsoleState::Prompting
    }

    /// Whether a response is being streamed.
    pub fn is_responding(&self) -> (responding: bool)
        ensures
            responding == self.responding(),
    {
        match self {
            ConsoleState::Prompting => false,
            ConsoleState::Responding { .. } => true,
        }
    }

    /// Accepts `op` where the state allows it and refuses it with
    /// `InvalidState` where it does not.
    pub fn permit(&self, op: Operation) -> (verdict: Result<(), ConsoleError>)
        ensures
            verdict is Ok <==> self.allows(op),
            verdict is Err ==> is_invalid_state(verdict),
    {
        let prompting_op = match op {
            Operation::PromptInput => true,
            Operation::StartResponding => true,
            _ => false,
        };
        if prompting_op != self.is_responding() {
            Ok(())
        } else {
            Err(ConsoleError::InvalidState)
        }
    }

    /// Begins a response: a prompting console becomes a responding one that
    /// remembers `started_at`; a responding console refuses and is unchanged.
    pub fn start(&mut self, started_at: Option<Instant>) -> (verdict: Result<(), ConsoleError>)
        ensures
            verdict is Ok <==> !old(self).responding(),
            verdict is Err ==> is_invalid_state(verdict),
            *final(self) == old(self).started(started_at),
    {
        if self.is_responding() {
            Err(ConsoleError::InvalidState)
        } else {
            *self = ConsoleState::Responding { started_at };
            Ok(())
        }
    }

    /// Ends a response: a responding console becomes a prompting one and
    /// hands out the time it remembered; a prompting console refuses and is
    /// unchanged.
    pub fn stop(&mut self) -> (verdict: Result<Option<Instant>, ConsoleError>)
        ensures
            *final(self) == old(self).stopped(),
            match *old(self) {
                ConsoleState::Responding { started_at } => verdict == Ok::<
                    Option<Instant>,
                    ConsoleError,
                >(started_at),
                ConsoleState::Prompting => is_invalid_state(verdict),
            },
    {
        let started_at = match self {
            ConsoleState::Responding { started_at } => *started_at,
            ConsoleState::Prompting => {
                return Err(ConsoleError::InvalidState);
            },
        };
        *self = ConsoleState::Prompting;
        Ok(started_at)
    }
}

impl Default for ConsoleState {
    /// A console begins by prompting.
    fn default() -> (state: ConsoleState)
        ensures
            state == ConsoleState::Prompting,
    {
        ConsoleState::Prompting
    }
}

/// Each operation is allowed in exactly one of the two states: an operation
/// that a prompting console accepts is refused by a responding one, and the
/// other way round.
pub proof fn lemma_each_operation_has_one_state(
    prompting: ConsoleState,
    responding: ConsoleState,
    op: Operation,
)
    requires
        !prompting.responding(),
        responding.responding(),
    ensures
        prompting.allows(op) != responding.allows(op),
        prompting.allows(op) <==> op == Operation::PromptInput || op == Operation::StartResponding,
{
}

/// A response cycle returns the console to prompting: from a prompting
/// console, starting leads to responding, stopping leads back to prompting,
/// and a new response can then be started.
pub proof fn lemma_response_cycle(
    state: ConsoleState,
    first: Option<Instant>,
    second: Option<Instant>,
)
    requires
        !state.responding(),
    ensures
        state.allows(Operation::StartResponding),
        state.started(first).responding(),
        state.started(first).allows(Operation::StopResponding),
        !state.started(first).stopped().responding(),
        state.started(first).stopped().allows(Operation::StartResponding),
        state.started(first).stopped().started(second) == (ConsoleState::Responding {
            started_at: second,
        }),
{
}

} // verus!
