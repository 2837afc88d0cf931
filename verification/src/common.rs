//! The error taxonomy and the observability flags shared by every console.

use vstd::prelude::*;
use vstd::string::StringExecFns;
pub use crate::input::ConsoleInput;

verus! {

/// What a console operation can fail with.
#[derive(Debug, PartialEq, Eq)]
pub enum ConsoleError {
    /// The stream or session behind the console has ended.
    Terminated,
    /// The operation is not allowed in the console's current state.
    InvalidState,
    /// A slash-command that the console does not know.
    UnknownCommand { command: String },
}

/// The mathematical value of a [`ConsoleError`]: the same variants over
/// sequences of characters.
pub ghost enum ConsoleErrorView {
    Terminated,
    InvalidState,
    UnknownCommand { command: Seq<char> },
}

impl ConsoleErrorView {
    /// The text of the message that describes the error.
    pub open spec fn message(self) -> Seq<char> {
        match self {
            ConsoleErrorView::Terminated => "Console terminated"@,
            ConsoleErrorView::InvalidState => "Invalid state for operation"@,
            ConsoleErrorView::UnknownCommand { command } => "Unknown command: "@ + command,
        }
    }
}

impl View for ConsoleError {
    type V = ConsoleErrorView;

    open spec fn view(&self) -> ConsoleErrorView {
        match self {
            ConsoleError::Terminated => ConsoleErrorView::Terminated,
            ConsoleError::InvalidState => ConsoleErrorView::InvalidState,
            ConsoleError::UnknownCommand { command } => ConsoleErrorView::UnknownCommand {
                command: command@,
            },
        }
    }
}

/// Whether an operation was refused because the console was in the wrong
/// state for it.
pub open spec fn is_invalid_state<T>(r: Result<T, ConsoleError>) -> bool {
    r matches Err(ConsoleError::InvalidState)
}

/// Whether an operation failed because the stream or session has ended.
pub open spec fn is_terminated<T>(r: Result<T, ConsoleError>) -> bool {
    r matches Err(ConsoleError::Terminated)
}

impl ConsoleError {
    /// Renders the error as a human-readable message.
    pub fn to_string(&self) -> (text: String)
        ensures
            text@ == self@.message(),
    {
        match self {
            ConsoleError::Terminated => String::from_str("Console terminated"),
            ConsoleError::InvalidState => String::from_str("Invalid state for operation"),
            ConsoleError::UnknownCommand { command } => {
                String::from_str("Unknown command: ").concat(command.as_str())
            },
        }
    }
}

/// The two user-toggleable switches: timing statistics and the visibility of
/// the agent's thinking trace.
#[derive(Debug, Clone, Copy, PartialEq, Eq, Structural)]
pub struct Observability {
    pub statistics: bool,
    pub thinking: bool,
}

impl Observability {
    /// The flags after a call that offers `new_settings`: the new flags where
    /// some are offered, both replaced at once, and these flags where none
    /// are.
    pub open spec fn replaced_by(self, new_settings: Option<Observability>) -> Observability {
        match new_settings {
            Some(flags) => flags,
            None => self,
        }
    }
}

impl Default for Observability {
    /// Both switches are off.
    fn default() -> (flags: Observability)
        ensures
            flags == (Observability { statistics: false, thinking: false }),
    {
        Observability { statistics: false, thinking: false }
    }
}

/// Reading the flags right after setting them gives what was set, whatever
/// they were before; reading alone changes nothing.
pub proof fn lemma_flags_read_back(before: Observability, set: Observability)
    ensures
        before.replaced_by(Some(set)).replaced_by(None) == set,
        before.replaced_by(None) == before,
{
}

/// The operations that every console offers to the agent loop.
///
/// A console is either prompting or responding. `prompt_input` and
/// `start_responding` belong to the prompting state, every other operation
/// but `observability` to the responding state; an operation invoked in the
/// other state fails with `InvalidState`, and with that error on no other
/// occasion. Only the two transitions change the state, and only
/// `observability` changes the flags.
pub trait Console {
    /// Whether the console is streaming a response.
    spec fn responding(&self) -> bool;

    /// The observability flags in force.
    spec fn flags(&self) -> Observability;

    /// Waits for the user's next line and parses it.
    fn prompt_input(&mut self) -> (input: Result<ConsoleInput, ConsoleError>)
        ensures
            is_invalid_state(input) <==> old(self).responding(),
            final(self).responding() == old(self).responding(),
            final(self).flags() == old(self).flags(),
    ;

    /// Begins a response. Succeeds exactly where the console was prompting,
    /// and leaves it responding.
    fn start_responding(&mut self) -> (started: Result<(), ConsoleError>)
        ensures
            started is Ok <==> !old(self).responding(),
            started is Err ==> is_invalid_state(started),
            final(self).responding(),
            final(self).flags() == old(self).flags(),
    ;

    /// Ends a response and returns the console to prompting.
    fn stop_responding(&mut self) -> (stopped: Result<(), ConsoleError>)
        ensures
            is_invalid_state(stopped) <==> !old(self).responding(),
            stopped is Err ==> is_invalid_state(stopped) || is_terminated(stopped),
            !final(self).responding(),
            final(self).flags() == old(self).flags(),
    ;

    /// Hands back the flags in force before the call and, where new ones are
    /// given, replaces both at once. Allowed in either state; never fails.
    fn observability(&mut self, new_settings: Option<Observability>) -> (previous: Observability)
        ensures
            previous == old(self).flags(),
            final(self).flags() == old(self).flags().replaced_by(new_settings),
            final(self).responding() == old(self).responding(),
    ;

    /// Appends text to the agent's response.
    fn add_response_text(&mut self, text: String) -> (added: Result<(), ConsoleError>)
        ensures
            is_invalid_state(added) <==> !old(self).responding(),
            added is Err ==> is_invalid_state(added) || is_terminated(added),
            final(self).responding() == old(self).responding(),
            final(self).flags() == old(self).flags(),
    ;

    /// Appends text to the agent's thinking trace, which is shown only while
    /// the `thinking` flag is set.
    fn add_thinking_text(&mut self, text: String) -> (added: Result<(), ConsoleError>)
        ensures
            is_invalid_state(added) <==> !old(self).responding(),
            added is Err ==> is_invalid_state(added) || is_terminated(added),
            final(self).responding() == old(self).responding(),
            final(self).flags() == old(self).flags(),
    ;

    /// Asks the user to confirm an action; an empty answer confirms.
    fn if_accept(&mut self, text: String) -> (answer: Result<bool, ConsoleError>)
        ensures
            is_invalid_state(answer) <==> !old(self).responding(),
            answer is Err ==> is_invalid_state(answer) || is_terminated(answer),
            final(self).responding() == old(self).responding(),
            final(self).flags() == old(self).flags(),
    ;

    /// Asks the user a yes/no question; an empty answer means no.
    fn if_yes(&mut self, text: String) -> (answer: Result<bool, ConsoleError>)
        ensures
            is_invalid_state(answer) <==> !old(self).responding(),
            answer is Err ==> is_invalid_state(answer) || is_terminated(answer),
            final(self).responding() == old(self).responding(),
            final(self).flags() == old(self).flags(),
    ;

    /// Asks the user for one line of free text.
    fn ask_user(&mut self, text: String) -> (reply: Result<String, ConsoleError>)
        ensures
            is_invalid_state(reply) <==> !old(self).responding(),
            reply is Err ==> is_invalid_state(reply) || is_terminated(reply),
            final(self).responding() == old(self).responding(),
            final(self).flags() == old(self).flags(),
    ;
}

} // verus!
