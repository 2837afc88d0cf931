//! The command-line parser: one line of raw text becomes a structured input.
//!
//! A line whose trimmed form begins with `/` is split into words by the rules
//! of the POSIX shell and matched against the known commands by its number of
//! words and its first word. Every other line is a free-text prompt and is
//! handed on as it was received. A line that begins with `/` but cannot be
//! split (an unterminated quote, a trailing backslash) is a free-text prompt
//! as well.

use vstd::prelude::*;
use crate::common::{ConsoleError, ConsoleErrorView};
use crate::text::{same_text, trim, trimmed};
use vstd::string::{StrSliceExecFns, StringExecFns};

verus! {

/// What the user submitted at the prompt.
#[derive(Debug, PartialEq, Eq)]
pub enum ConsoleInput {
    /// Free text for the agent.
    Prompt { prompt: String },
    /// The command `/exit`.
    Exit,
    /// The command `/thinking on` or `/thinking off`.
    Thinking(bool),
    /// The command `/statistics on` or `/statistics off`.
    Statistics(bool),
}

/// The mathematical value of a [`ConsoleInput`].
pub ghost enum ConsoleInputView {
    Prompt { prompt: Seq<char> },
    Exit,
    Thinking(bool),
    Statistics(bool),
}

impl View for ConsoleInput {
    type V = ConsoleInputView;

    open spec fn view(&self) -> ConsoleInputView {
        match self {
            ConsoleInput::Prompt { prompt } => ConsoleInputView::Prompt { prompt: prompt@ },
            ConsoleInput::Exit => ConsoleInputView::Exit,
            ConsoleInput::Thinking(on) => ConsoleInputView::Thinking(*on),
            ConsoleInput::Statistics(on) => ConsoleInputView::Statistics(*on),
        }
    }
}

/// The mathematical value of what the parser hands back.
pub open spec fn parsed_view(r: Result<ConsoleInput, ConsoleError>) -> Result<
    ConsoleInputView,
    ConsoleErrorView,
> {
    match r {
        Ok(input) => Ok(input@),
        Err(error) => Err(error@),
    }
}

/// The words that `shlex::split` makes of `s`, or `None` where `s` ends inside
/// a quotation or right after a backslash.
pub uninterp spec fn shell_words(s: Seq<char>) -> Option<Seq<Seq<char>>>;

/// Calls `shlex::split`. Trusted: the words handed back are a function of the
/// text alone, named [`shell_words`].
#[verifier::external_body]
pub(crate) fn split_words(s: &str) -> (words: Option<Vec<String>>)
    ensures
        words.deep_view() == shell_words(s@),
{
    shlex::split(s)
}

/// The switch position that the word `on` or `off` names.
pub open spec fn switch_of(word: Seq<char>) -> Option<bool> {
    if word == "on"@ {
        Some(true)
    } else if word == "off"@ {
        Some(false)
    } else {
        None
    }
}

/// The command that a non-empty list of words spells. A command is known by
/// its number of words and its first word; a known name with a missing,
/// surplus or misspelt argument is as unknown as a wrong name.
pub open spec fn command_of(words: Seq<Seq<char>>) -> Result<ConsoleInputView, ConsoleErrorView>
    recommends
        words.len() > 0,
{
    let unknown = Err(ConsoleErrorView::UnknownCommand { command: words[0] });
    if words.len() == 1 {
        if words[0] == "/exit"@ {
            Ok(ConsoleInputView::Exit)
        } else {
            unknown
        }
    } else if words.len() == 2 {
        if words[0] == "/thinking"@ {
            match switch_of(words[1]) {
                Some(on) => Ok(ConsoleInputView::Thinking(on)),
                None => unknown,
            }
        } else if words[0] == "/statistics"@ {
            match switch_of(words[1]) {
                Some(on) => Ok(ConsoleInputView::Statistics(on)),
                None => unknown,
            }
        } else {
            unknown
        }
    } else {
        unknown
    }
}

/// What a command line becomes once it has been split: the command that its
/// words spell, or the line itself as free text where the split failed or
/// gave no word.
pub open spec fn parse_words(line: Seq<char>, words: Option<Seq<Seq<char>>>) -> Result<
    ConsoleInputView,
    ConsoleErrorView,
> {
    match words {
        Some(w) => if w.len() > 0 {
            command_of(w)
        } else {
            Ok(ConsoleInputView::Prompt { prompt: line })
        },
        None => Ok(ConsoleInputView::Prompt { prompt: line }),
    }
}

/// Whether a line, once trimmed, begins with the command prefix `/`.
pub open spec fn is_command_line(line: Seq<char>) -> bool {
    trimmed(line).len() > 0 && trimmed(line)[0] == '/'
}

/// What a raw line of text means.
pub open spec fn parse_line(line: Seq<char>) -> Result<ConsoleInputView, ConsoleErrorView> {
    if is_command_line(line) {
        parse_words(line, shell_words(trimmed(line)))
    } else {
        Ok(ConsoleInputView::Prompt { prompt: line })
    }
}

/// Reads the word `on` or `off`.
fn switch(word: &str) -> (on: Option<bool>)
    ensures
        on == switch_of(word@),
{
    if same_text(word, "on") {
        Some(true)
    } else if same_text(word, "off") {
        Some(false)
    } else {
        None
    }
}

impl ConsoleInput {
    /// Parses one line of raw text. Free text is never rejected; the only
    /// error is an unknown command, which carries the line's first word.
    pub fn from_line(line: &str) -> (parsed: Result<ConsoleInput, ConsoleError>)
        ensures
            parsed_view(parsed) == parse_line(line@),
    {
        let trimmed_line = trim(line);
        if trimmed_line.unicode_len() > 0 && trimmed_line.get_char(0) == '/' {
            let words = split_words(trimmed_line);
            ConsoleInput::from_words(line, words)
        } else {
            Ok(ConsoleInput::Prompt { prompt: String::from_str(line) })
        }
    }

    /// Classifies a command line that has been split into `words`; `line` is
    /// the text as it was received, which is kept where there are no words.
    pub fn from_words(line: &str, words: Option<Vec<String>>) -> (parsed: Result<
        ConsoleInput,
        ConsoleError,
    >)
        ensures
            parsed_view(parsed) == parse_words(line@, words.deep_view()),
    {
        match words {
            Some(parts) => {
                if parts.len() == 0 {
                    return Ok(ConsoleInput::Prompt { prompt: String::from_str(line) });
                }
                let ghost w = parts.deep_view();
                assert(w.len() == parts.len());
                assert(forall|i: int| 0 <= i < w.len() ==> w[i] == parts@[i]@);
                let command = parts[0].clone();
                let name = parts[0].as_str();
                if parts.len() == 1 {
                    if same_text(name, "/exit") {
                        Ok(ConsoleInput::Exit)
                    } else {
                        Err(ConsoleError::UnknownCommand { command })
                    }
                } else if parts.len() == 2 {
                    let argument = parts[1].as_str();
                    if same_text(name, "/thinking") {
                        match switch(argument) {
                            Some(on) => Ok(ConsoleInput::Thinking(on)),
                            None => Err(ConsoleError::UnknownCommand { command }),
                        }
                    } else if same_text(name, "/statistics") {
                        match switch(argument) {
                            Some(on) => Ok(ConsoleInput::Statistics(on)),
                            None => Err(ConsoleError::UnknownCommand { command }),
                        }
                    } else {
                        Err(ConsoleError::UnknownCommand { command })
                    }
                } else {
                    Err(ConsoleError::UnknownCommand { command })
                }
            },
            None => Ok(ConsoleInput::Prompt { prompt: String::from_str(line) }),
        }
    }
}

/// Free text is never rejected: a line that does not begin with `/` once it
/// is trimmed is a prompt, and the prompt is the line as it was received.
pub proof fn lemma_free_text_is_prompt(line: Seq<char>)
    requires
        !is_command_line(line),
    ensures
        parse_line(line) == Ok::<ConsoleInputView, ConsoleErrorView>(
            ConsoleInputView::Prompt { prompt: line },
        ),
{
}

/// The parser fails in one way only: a command line was split into words
/// that spell no known command, and the error carries the first word.
pub proof fn lemma_parse_fails_with_first_word(line: Seq<char>)
    requires
        parse_line(line) is Err,
    ensures
        is_command_line(line),
        shell_words(trimmed(line)) is Some,
        shell_words(trimmed(line))->0.len() > 0,
        parse_line(line) == Err::<ConsoleInputView, ConsoleErrorView>(
            ConsoleErrorView::UnknownCommand { command: shell_words(trimmed(line))->0[0] },
        ),
{
}

/// A command with a malformed argument is an unknown command, not an
/// error of a kind of its own.
pub proof fn lemma_bad_argument_is_unknown_command(name: Seq<char>, argument: Seq<char>)
    requires
        switch_of(argument) is None,
    ensures
        command_of(seq![name, argument]) == Err::<ConsoleInputView, ConsoleErrorView>(
            ConsoleErrorView::UnknownCommand { command: name },
        ),
{
}

} // verus!
