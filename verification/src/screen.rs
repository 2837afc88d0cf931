//! The editing state of the full-screen console: a transcript of the lines
//! shown so far and the line that the user is typing.
//!
//! The screen itself and the keyboard belong to the program that owns the
//! terminal session. It draws what this state holds, reads a key, and hands
//! the key to the state, which says what the key means.

use vstd::prelude::*;
use vstd::string::StringExecFns;
use crate::common::{ConsoleError, Observability, is_invalid_state};
use crate::confirm::{question, question_of};
use crate::input::{ConsoleInput, parse_line, parsed_view};
use crate::state::{ConsoleState, Operation};
use crate::text::{pop_char, push_char};

verus! {

/// A key press, as far as the console tells keys apart.
#[derive(Debug, Clone, Copy, PartialEq, Eq, Structural)]
pub enum Key {
    /// The key that submits the line.
    Enter,
    /// The key that deletes the last character.
    Backspace,
    /// A key that types a character.
    Char(char),
    /// Any other key.
    Other,
}

/// What a key press answers to a yes/no question on the full screen: `y`,
/// `Y` and the submit key affirm, `n` and `N` deny, other keys do not answer.
pub open spec fn key_answer(key: Key) -> Option<bool> {
    match key {
        Key::Enter => Some(true),
        Key::Char(c) => if c == 'y' || c == 'Y' {
            Some(true)
        } else if c == 'n' || c == 'N' {
            Some(false)
        } else {
            None
        },
        _ => None,
    }
}

/// Reads a key press as the answer to a yes/no question.
pub fn answer_key(key: Key) -> (answer: Option<bool>)
    ensures
        answer == key_answer(key),
{
    match key {
        Key::Enter => Some(true),
        Key::Char(c) => if c == 'y' || c == 'Y' {
            Some(true)
        } else if c == 'n' || c == 'N' {
            Some(false)
        } else {
            None
        },
        _ => None,
    }
}

/// The lines of a transcript as one text, a newline between each two.
pub open spec fn joined(lines: Seq<Seq<char>>) -> Seq<char>
    decreases lines.len(),
{
    if lines.len() == 0 {
        Seq::empty()
    } else if lines.len() == 1 {
        lines[0]
    } else {
        joined(lines.drop_last()) + seq!['\n'] + lines.last()
    }
}

/// The line that echoes what the user submitted.
pub open spec fn echo_of(line: Seq<char>) -> Seq<char> {
    "> "@ + line
}

/// The line that shows a piece of the agent's thinking trace.
pub open spec fn thinking_line_of(text: Seq<char>) -> Seq<char> {
    "[thinking] "@ + text
}

/// What the full-screen console shows and where it stands in its dialogue.
pub struct Screen {
    state: ConsoleState,
    observability: Observability,
    input_text: String,
    messages: Vec<String>,
}

impl Screen {
    /// The lines shown so far, oldest first. Lines are only ever added.
    pub closed spec fn transcript(&self) -> Seq<Seq<char>> {
        self.messages.deep_view()
    }

    /// The line that the user is typing.
    pub closed spec fn input_line(&self) -> Seq<char> {
        self.input_text@
    }

    /// Whether the console is streaming a response.
    pub closed spec fn responding(&self) -> bool {
        self.state.responding()
    }

    /// The observability flags in force.
    pub closed spec fn flags(&self) -> Observability {
        self.observability
    }

    /// Whether `after` differs from this screen in nothing but the transcript
    /// and the input line.
    pub open spec fn same_session(&self, after: &Screen) -> bool {
        after.responding() == self.responding() && after.flags() == self.flags()
    }

    /// An empty screen: prompting, both flags off, nothing shown or typed.
    pub fn new() -> (screen: Screen)
        ensures
            !screen.responding(),
            screen.flags() == (Observability { statistics: false, thinking: false }),
            screen.transcript() == Seq::<Seq<char>>::empty(),
            screen.input_line() == Seq::<char>::empty(),
    {
        let screen = Screen {
            state: ConsoleState::Prompting,
            observability: Observability::default(),
            input_text: String::new(),
            messages: Vec::new(),
        };
        assert(screen.messages.deep_view() =~= Seq::<Seq<char>>::empty());
        screen
    }

    /// Adds a line at the end of the transcript.
    fn show(&mut self, line: String)
        ensures
            final(self).transcript() == old(self).transcript().push(line@),
            final(self).input_line() == old(self).input_line(),
            old(self).same_session(final(self)),
    {
        self.messages.push(line);
        assert(self.messages.deep_view() =~= old(self).messages.deep_view().push(line@));
    }

    /// Accepts `op` where the console's state allows it and refuses it with
    /// `InvalidState` where it does not.
    pub fn permit(&self, op: Operation) -> (verdict: Result<(), ConsoleError>)
        ensures
            verdict is Ok <==> (op.while_prompting() <==> !self.responding()),
            verdict is Err ==> is_invalid_state(verdict),
    {
        self.state.permit(op)
    }

    /// The line that the user is typing.
    pub fn input_text(&self) -> (text: &str)
        ensures
            text@ == self.input_line(),
    {
        self.input_text.as_str()
    }

    /// The transcript as one text, ready to be drawn.
    pub fn transcript_text(&self) -> (text: String)
        ensures
            text@ == joined(self.transcript()),
    {
        let mut text = String::new();
        let n: usize = self.messages.len();
        let ghost lines = self.messages.deep_view();
        let mut i: usize = 0;
        while i < n
            invariant
                n == self.messages@.len(),
                lines == self.messages.deep_view(),
                i <= n,
                text@ == joined(lines.subrange(0, i as int)),
            decreases n - i,
        {
            let ghost shown = lines.subrange(0, i as int);
            let ghost next = lines.subrange(0, i + 1);
            if i > 0 {
                text.append("\n");
            }
            text.append(self.messages[i].as_str());
            proof {
                reveal_strlit("\n");
                assert("\n"@ =~= seq!['\n']);
                assert(next.drop_last() =~= shown);
                assert(next.last() == self.messages@[i as int]@);
                if i == 0 {
                    assert(text@ =~= next[0]);
                }
            }
            i += 1;
        }
        assert(lines.subrange(0, n as int) =~= lines);
        text
    }

    /// Takes a key press while the user is typing a line.
    ///
    /// The submit key echoes the line into the transcript, empties the input
    /// line and hands back what the line means; a character is added to the
    /// line; the delete key takes the last character off; any other key does
    /// nothing. While the console is responding, every key is refused.
    pub fn prompt_key(&mut self, key: Key) -> (submitted: Option<Result<ConsoleInput, ConsoleError>>)
        ensures
            old(self).same_session(final(self)),
            old(self).responding() ==> {
                &&& submitted is Some && is_invalid_state(submitted->0)
                &&& final(self).transcript() == old(self).transcript()
                &&& final(self).input_line() == old(self).input_line()
            },
            !old(self).responding() ==> match key {
                Key::Enter => {
                    &&& submitted is Some
                    &&& parsed_view(submitted->0) == parse_line(old(self).input_line())
                    &&& final(self).transcript() == old(self).transcript().push(
                        echo_of(old(self).input_line()),
                    )
                    &&& final(self).input_line() == Seq::<char>::empty()
                },
                Key::Char(c) => {
                    &&& submitted is None
                    &&& final(self).transcript() == old(self).transcript()
                    &&& final(self).input_line() == old(self).input_line().push(c)
                },
                Key::Backspace => {
                    &&& submitted is None
                    &&& final(self).transcript() == old(self).transcript()
                    &&& final(self).input_line() == if old(self).input_line().len() > 0 {
                        old(self).input_line().drop_last()
                    } else {
                        old(self).input_line()
                    }
                },
                Key::Other => {
                    &&& submitted is None
                    &&& final(self).transcript() == old(self).transcript()
                    &&& final(self).input_line() == old(self).input_line()
                },
            },
    {
        if self.state.is_responding() {
            return Some(Err(ConsoleError::InvalidState));
        }
        match key {
            Key::Enter => {
                let line = self.input_text.clone();
                self.input_text = String::new();
                self.show(String::from_str("> ").concat(line.as_str()));
                Some(ConsoleInput::from_line(line.as_str()))
            },
            Key::Char(c) => {
                push_char(&mut self.input_text, c);
                None
            },
            Key::Backspace => {
                let _ = pop_char(&mut self.input_text);
                None
            },
            Key::Other => None,
        }
    }

    /// Begins a response. Succeeds exactly where the console was prompting,
    /// and leaves it responding.
    pub fn start_responding(&mut self) -> (started: Result<(), ConsoleError>)
        ensures
            started is Ok <==> !old(self).responding(),
            started is Err ==> is_invalid_state(started),
            final(self).responding(),
            final(self).flags() == old(self).flags(),
            final(self).transcript() == old(self).transcript(),
            final(self).input_line() == old(self).input_line(),
    {
        self.state.start(None)
    }

    /// Ends a response. Succeeds exactly where the console was responding,
    /// and leaves it prompting.
    pub fn stop_responding(&mut self) -> (stopped: Result<(), ConsoleError>)
        ensures
            stopped is Ok <==> old(self).responding(),
            stopped is Err ==> is_invalid_state(stopped),
            !final(self).responding(),
            final(self).flags() == old(self).flags(),
            final(self).transcript() == old(self).transcript(),
            final(self).input_line() == old(self).input_line(),
    {
        match self.state.stop() {
            Ok(_) => Ok(()),
            Err(refused) => Err(refused),
        }
    }

    /// Hands back the flags in force before the call and, where new ones are
    /// given, replaces both at once.
    pub fn observability(&mut self, new_settings: Option<Observability>) -> (previous:
        Observability)
        ensures
            previous == old(self).flags(),
            final(self).flags() == old(self).flags().replaced_by(new_settings),
            final(self).responding() == old(self).responding(),
            final(self).transcript() == old(self).transcript(),
            final(self).input_line() == old(self).input_line(),
    {
        let previous = self.observability;
        if let Some(flags) = new_settings {
            self.observability = flags;
        }
        previous
    }

    /// Adds the text to the transcript as a line of the agent's response.
    pub fn add_response_text(&mut self, text: String) -> (added: Result<(), ConsoleError>)
        ensures
            added is Ok <==> old(self).responding(),
            added is Err ==> is_invalid_state(added),
            old(self).same_session(final(self)),
            final(self).input_line() == old(self).input_line(),
            final(self).transcript() == if old(self).responding() {
                old(self).transcript().push(text@)
            } else {
                old(self).transcript()
            },
    {
        if !self.state.is_responding() {
            return Err(ConsoleError::InvalidState);
        }
        self.show(text);
        Ok(())
    }

    /// Adds the text to the transcript as a line of the thinking trace while
    /// the `thinking` flag is set, and nothing while it is not.
    pub fn add_thinking_text(&mut self, text: String) -> (added: Result<(), ConsoleError>)
        ensures
            added is Ok <==> old(self).responding(),
            added is Err ==> is_invalid_state(added),
            old(self).same_session(final(self)),
            final(self).input_line() == old(self).input_line(),
            final(self).transcript() == if old(self).responding() && old(self).flags().thinking {
                old(self).transcript().push(thinking_line_of(text@))
            } else {
                old(self).transcript()
            },
    {
        if !self.state.is_responding() {
            return Err(ConsoleError::InvalidState);
        }
        if self.observability.thinking {
            self.show(String::from_str("[thinking] ").concat(text.as_str()));
        }
        Ok(())
    }

    /// Shows a yes/no question in the transcript, with the hint that the
    /// submit key affirms. The answer is then read key by key.
    pub fn show_question(&mut self, text: &str) -> (shown: Result<(), ConsoleError>)
        ensures
            shown is Ok <==> old(self).responding(),
            shown is Err ==> is_invalid_state(shown),
            old(self).same_session(final(self)),
            final(self).input_line() == old(self).input_line(),
            final(self).transcript() == if old(self).responding() {
                old(self).transcript().push(question_of(text@, true))
            } else {
                old(self).transcript()
            },
    {
        if !self.state.is_responding() {
            return Err(ConsoleError::InvalidState);
        }
        self.show(question(text, true));
        Ok(())
    }
}

} // verus!
