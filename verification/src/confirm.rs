//! Yes/no questions: how the prompt is decorated and how an answer is read.
//!
//! An answer is trimmed and lower-cased, then matched: `y` and `yes` affirm,
//! `n` and `no` deny, the empty answer takes the question's default, and
//! anything else is no answer at all, so that the question is asked again.

use vstd::prelude::*;
use crate::text::{lowercase, same_text, to_lowercase, trim, trimmed};
use vstd::string::StringExecFns;

verus! {

/// The decoration that signals a question's default: the capital letter is
/// what an empty answer means.
pub open spec fn default_hint(default: bool) -> Seq<char> {
    if default {
        " [Y/n]"@
    } else {
        " [y/N]"@
    }
}

/// The text of a yes/no question as it is shown to the user.
pub open spec fn question_of(text: Seq<char>, default: bool) -> Seq<char> {
    text + default_hint(default)
}

/// What a trimmed, lower-cased answer means, or `None` where it is neither a
/// yes nor a no.
pub open spec fn answer_of(normalized: Seq<char>, default: bool) -> Option<bool> {
    if normalized == "y"@ || normalized == "yes"@ {
        Some(true)
    } else if normalized == "n"@ || normalized == "no"@ {
        Some(false)
    } else if normalized == ""@ {
        Some(default)
    } else {
        None
    }
}

/// The form in which an answer is matched: trimmed, then lower-cased.
pub open spec fn normalized(line: Seq<char>) -> Seq<char> {
    lowercase(trimmed(line))
}

/// Decorates a yes/no question with the hint for its default.
pub fn question(text: &str, default: bool) -> (shown: String)
    ensures
        shown@ == question_of(text@, default),
{
    let hint = if default {
        " [Y/n]"
    } else {
        " [y/N]"
    };
    String::from_str(text).concat(hint)
}

/// Matches an answer that has already been trimmed and lower-cased.
pub fn match_answer(normalized: &str, default: bool) -> (answer: Option<bool>)
    ensures
        answer == answer_of(normalized@, default),
{
    if same_text(normalized, "y") || same_text(normalized, "yes") {
        Some(true)
    } else if same_text(normalized, "n") || same_text(normalized, "no") {
        Some(false)
    } else if same_text(normalized, "") {
        Some(default)
    } else {
        None
    }
}

/// Reads the answer to a yes/no question from the line that the user typed.
pub fn read_answer(line: &str, default: bool) -> (answer: Option<bool>)
    ensures
        answer == answer_of(normalized(line@), default),
{
    let lowered = to_lowercase(trim(line));
    match_answer(lowered.as_str(), default)
}

/// The two kinds of question differ on the empty answer alone: whatever else
/// the user types is read the same way by both.
pub proof fn lemma_default_decides_empty_answer_only(normalized: Seq<char>)
    ensures
        normalized != ""@ ==> answer_of(normalized, true) == answer_of(normalized, false),
        normalized == ""@ ==> answer_of(normalized, true) == Some(true) && answer_of(
            normalized,
            false,
        ) == Some(false),
{
    reveal_strlit("");
    reveal_strlit("y");
    reveal_strlit("yes");
    reveal_strlit("n");
    reveal_strlit("no");
    assert(""@.len() == 0);
    assert("y"@.len() == 1);
    assert("yes"@.len() == 3);
    assert("n"@.len() == 1);
    assert("no"@.len() == 2);
}

} // verus!
