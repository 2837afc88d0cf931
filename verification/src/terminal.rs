//! The full-screen console over recorded key presses.
//!
//! The keys that the user will press are held in memory, as the line console
//! holds the bytes that the user will type; the console takes them off the
//! front one by one. What it would draw is its [`Screen`]. A program that
//! owns a real terminal session hands its keys to a [`Screen`] itself.

use vstd::prelude::*;
use crate::common::{Console, ConsoleError, Observability, is_invalid_state, is_terminated};
use crate::confirm::question_of;
use crate::input::{ConsoleInput, parse_line, parsed_view};
use crate::screen::{Key, Screen, answer_key, echo_of, key_answer, thinking_line_of};
use crate::state::Operation;

verus! {

/// The input line after `key` has been pressed, where the key does not
/// submit the line: a character is added, the delete key takes the last
/// character off, any other key changes nothing.
pub open spec fn typed(line: Seq<char>, key: Key) -> Seq<char> {
    match key {
        Key::Char(c) => line.push(c),
        Key::Backspace => if line.len() > 0 {
            line.drop_last()
        } else {
            line
        },
        _ => line,
    }
}

/// How typing at the prompt runs on a sequence of keys: whether the line was
/// submitted, the line as it stood then or when the keys ran out, and the
/// keys that are left.
pub ghost struct TypingRun {
    pub submitted: bool,
    pub line: Seq<char>,
    pub rest: Seq<Key>,
}

/// The run of the prompt on `keys`, with `line` already typed: each key edits
/// the line until the submit key comes.
pub open spec fn typing_run(line: Seq<char>, keys: Seq<Key>) -> TypingRun
    decreases keys.len(),
{
    if keys.len() == 0 {
        TypingRun { submitted: false, line, rest: keys }
    } else if keys[0] == Key::Enter {
        TypingRun { submitted: true, line, rest: keys.drop_first() }
    } else {
        typing_run(typed(line, keys[0]), keys.drop_first())
    }
}

/// How a yes/no question runs on a sequence of keys: the answer, which is
/// `None` where the keys run out before one answers, and the keys that are
/// left.
pub ghost struct AnswerRun {
    pub answer: Option<bool>,
    pub rest: Seq<Key>,
}

/// The run of a yes/no question on `keys`: keys that do not answer are passed
/// over until one does.
pub open spec fn answer_run(keys: Seq<Key>) -> AnswerRun
    decreases keys.len(),
{
    if keys.len() == 0 {
        AnswerRun { answer: None, rest: keys }
    } else {
        match key_answer(keys[0]) {
            Some(yes) => AnswerRun { answer: Some(yes), rest: keys.drop_first() },
            None => answer_run(keys.drop_first()),
        }
    }
}

/// A full-screen console whose keyboard is a recorded sequence of keys.
pub struct Terminal {
    screen: Screen,
    keys: Vec<Key>,
    cursor: usize,
}

impl Terminal {
    /// What the console shows and where it stands in its dialogue.
    pub closed spec fn shown(&self) -> Screen {
        self.screen
    }

    /// The keys that have not been pressed yet.
    pub closed spec fn pending_keys(&self) -> Seq<Key> {
        if self.cursor <= self.keys@.len() {
            self.keys@.subrange(self.cursor as int, self.keys@.len() as int)
        } else {
            Seq::empty()
        }
    }

    /// Whether this console differs from `before` in nothing.
    pub open spec fn unchanged_from(&self, before: Terminal) -> bool {
        &&& self.pending_keys() == before.pending_keys()
        &&& self.shown().transcript() == before.shown().transcript()
        &&& self.shown().input_line() == before.shown().input_line()
        &&& self.shown().responding() == before.shown().responding()
        &&& self.shown().flags() == before.shown().flags()
    }

    /// A console with an empty screen on which `keys` will be pressed. It
    /// begins prompting, with both flags off.
    pub fn new_with_keys(keys: Vec<Key>) -> (console: Terminal)
        ensures
            console.pending_keys() == keys@,
            !console.shown().responding(),
            console.shown().flags() == (Observability { statistics: false, thinking: false }),
            console.shown().transcript() == Seq::<Seq<char>>::empty(),
            console.shown().input_line() == Seq::<char>::empty(),
    {
        let console = Terminal { screen: Screen::new(), keys, cursor: 0 };
        assert(console.keys@.subrange(0, console.keys@.len() as int) =~= keys@);
        console
    }

    /// What the console shows.
    pub fn screen(&self) -> (screen: &Screen)
        ensures
            *screen == self.shown(),
    {
        &self.screen
    }

    /// Takes the next key press, or `None` where no key is left.
    fn next_key(&mut self) -> (key: Option<Key>)
        ensures
            final(self).shown() == old(self).shown(),
            old(self).pending_keys().len() == 0 ==> key is None && final(self).pending_keys()
                == old(self).pending_keys(),
            old(self).pending_keys().len() > 0 ==> key == Some(old(self).pending_keys()[0])
                && final(self).pending_keys() == old(self).pending_keys().drop_first(),
    {
        if self.cursor < self.keys.len() {
            let key = self.keys[self.cursor];
            assert(self.pending_keys()[0] == key);
            assert(self.keys@.subrange(self.cursor + 1, self.keys@.len() as int)
                =~= self.pending_keys().drop_first());
            self.cursor += 1;
            Some(key)
        } else {
            assert(self.pending_keys().len() == 0);
            None
        }
    }

    /// Shows a yes/no question and reads keys until one answers it or none is
    /// left.
    fn confirm(&mut self, text: &str) -> (answer: Result<bool, ConsoleError>)
        ensures
            is_invalid_state(answer) <==> !old(self).shown().responding(),
            !old(self).shown().responding() ==> final(self).unchanged_from(*old(self)),
            old(self).shown().responding() ==> {
                let run = answer_run(old(self).pending_keys());
                &&& final(self).pending_keys() == run.rest
                &&& final(self).shown().transcript() == old(self).shown().transcript().push(
                    question_of(text@, true),
                )
                &&& final(self).shown().input_line() == old(self).shown().input_line()
                &&& final(self).shown().responding()
                &&& final(self).shown().flags() == old(self).shown().flags()
                &&& match run.answer {
                    Some(yes) => answer == Ok::<bool, ConsoleError>(yes),
                    None => is_terminated(answer),
                }
            },
    {
        match self.screen.show_question(text) {
            Err(refused) => {
                return Err(refused);
            },
            Ok(()) => {},
        }
        loop
            invariant
                old(self).shown().responding(),
                self.shown().transcript() == old(self).shown().transcript().push(
                    question_of(text@, true),
                ),
                self.shown().input_line() == old(self).shown().input_line(),
                self.shown().responding(),
                self.shown().flags() == old(self).shown().flags(),
                answer_run(self.pending_keys()) == answer_run(old(self).pending_keys()),
            decreases self.pending_keys().len(),
        {
            match self.next_key() {
                None => {
                    return Err(ConsoleError::Terminated);
                },
                Some(key) => {
                    if let Some(yes) = answer_key(key) {
                        return Ok(yes);
                    }
                },
            }
        }
    }
}

impl Console for Terminal {
    open spec fn responding(&self) -> bool {
        self.shown().responding()
    }

    open spec fn flags(&self) -> Observability {
        self.shown().flags()
    }

    /// Takes keys until the submit key comes, then echoes the line into the
    /// transcript, empties the input line and parses the line as it was
    /// typed. Where the keys run out first, the session has ended. While the
    /// console is responding, no key is taken and nothing changes.
    fn prompt_input(&mut self) -> (input: Result<ConsoleInput, ConsoleError>)
        ensures
            old(self).responding() ==> final(self).unchanged_from(*old(self)),
            !old(self).responding() ==> {
                let run = typing_run(old(self).shown().input_line(), old(self).pending_keys());
                &&& final(self).pending_keys() == run.rest
                &&& if run.submitted {
                    &&& parsed_view(input) == parse_line(run.line)
                    &&& final(self).shown().transcript() == old(self).shown().transcript().push(
                        echo_of(run.line),
                    )
                    &&& final(self).shown().input_line() == Seq::<char>::empty()
                } else {
                    &&& is_terminated(input)
                    &&& final(self).shown().transcript() == old(self).shown().transcript()
                    &&& final(self).shown().input_line() == run.line
                }
            },
    {
        match self.screen.permit(Operation::PromptInput) {
            Err(refused) => {
                return Err(refused);
            },
            Ok(()) => {},
        }
        loop
            invariant
                !old(self).shown().responding(),
                !self.shown().responding(),
                self.shown().flags() == old(self).shown().flags(),
                self.shown().transcript() == old(self).shown().transcript(),
                typing_run(self.shown().input_line(), self.pending_keys()) == typing_run(
                    old(self).shown().input_line(),
                    old(self).pending_keys(),
                ),
            decreases self.pending_keys().len(),
        {
            match self.next_key() {
                None => {
                    return Err(ConsoleError::Terminated);
                },
                Some(key) => {
                    if let Some(submitted) = self.screen.prompt_key(key) {
                        return submitted;
                    }
                },
            }
        }
    }

    fn start_responding(&mut self) -> (started: Result<(), ConsoleError>)
        ensures
            final(self).pending_keys() == old(self).pending_keys(),
            final(self).shown().transcript() == old(self).shown().transcript(),
            final(self).shown().input_line() == old(self).shown().input_line(),
    {
        self.screen.start_responding()
    }

    fn stop_responding(&mut self) -> (stopped: Result<(), ConsoleError>)
        ensures
            stopped is Ok <==> old(self).responding(),
            final(self).pending_keys() == old(self).pending_keys(),
            final(self).shown().transcript() == old(self).shown().transcript(),
            final(self).shown().input_line() == old(self).shown().input_line(),
    {
        self.screen.stop_responding()
    }

    fn observability(&mut self, new_settings: Option<Observability>) -> (previous: Observability)
        ensures
            final(self).pending_keys() == old(self).pending_keys(),
            final(self).shown().transcript() == old(self).shown().transcript(),
            final(self).shown().input_line() == old(self).shown().input_line(),
    {
        self.screen.observability(new_settings)
    }

    /// Adds the text to the transcript as a line of its own.
    fn add_response_text(&mut self, text: String) -> (added: Result<(), ConsoleError>)
        ensures
            added is Ok <==> old(self).responding(),
            final(self).pending_keys() == old(self).pending_keys(),
            final(self).shown().input_line() == old(self).shown().input_line(),
            final(self).shown().transcript() == if old(self).responding() {
                old(self).shown().transcript().push(text@)
            } else {
                old(self).shown().transcript()
            },
    {
        self.screen.add_response_text(text)
    }

    /// Adds the text to the transcript, marked as thinking, while the
    /// `thinking` flag is set, and nothing while it is not.
    fn add_thinking_text(&mut self, text: String) -> (added: Result<(), ConsoleError>)
        ensures
            added is Ok <==> old(self).responding(),
            final(self).pending_keys() == old(self).pending_keys(),
            final(self).shown().input_line() == old(self).shown().input_line(),
            final(self).shown().transcript() == if old(self).responding() && old(
                self,
            ).flags().thinking {
                old(self).shown().transcript().push(thinking_line_of(text@))
            } else {
                old(self).shown().transcript()
            },
    {
        self.screen.add_thinking_text(text)
    }

    /// Asks as `if_yes` does: on the full screen both questions show the
    /// hint `[Y/n]` and take the submit key for a yes.
    fn if_accept(&mut self, text: String) -> (answer: Result<bool, ConsoleError>)
        ensures
            !old(self).responding() ==> final(self).unchanged_from(*old(self)),
            old(self).responding() ==> {
                let run = answer_run(old(self).pending_keys());
                &&& final(self).pending_keys() == run.rest
                &&& final(self).shown().transcript() == old(self).shown().transcript().push(
                    question_of(text@, true),
                )
                &&& final(self).shown().input_line() == old(self).shown().input_line()
                &&& match run.answer {
                    Some(yes) => answer == Ok::<bool, ConsoleError>(yes),
                    None => is_terminated(answer),
                }
            },
    {
        self.confirm(text.as_str())
    }

    /// Shows the question in the transcript with the hint `[Y/n]`, then takes
    /// keys until one answers: `y`, `Y` and the submit key affirm, `n` and
    /// `N` deny. Where the keys run out first, the session has ended.
    fn if_yes(&mut self, text: String) -> (answer: Result<bool, ConsoleError>)
        ensures
            !old(self).responding() ==> final(self).unchanged_from(*old(self)),
            old(self).responding() ==> {
                let run = answer_run(old(self).pending_keys());
                &&& final(self).pending_keys() == run.rest
                &&& final(self).shown().transcript() == old(self).shown().transcript().push(
                    question_of(text@, true),
                )
                &&& final(self).shown().input_line() == old(self).shown().input_line()
                &&& match run.answer {
                    Some(yes) => answer == Ok::<bool, ConsoleError>(yes),
                    None => is_terminated(answer),
                }
            },
    {
        self.confirm(text.as_str())
    }

    /// The full screen has no second input mode for free text: while
    /// responding the question ends the session, with nothing shown and no
    /// key taken.
    fn ask_user(&mut self, text: String) -> (reply: Result<String, ConsoleError>)
        ensures
            reply is Err,
            final(self).unchanged_from(*old(self)),
    {
        match self.screen.permit(Operation::AskUser) {
            Err(refused) => Err(refused),
            Ok(()) => Err(ConsoleError::Terminated),
        }
    }
}

} // verus!
