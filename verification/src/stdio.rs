//! The line-based console: it reads whole lines from a byte source and writes
//! formatted text to a byte sink.
//!
//! Source and sink are buffers in memory. The source holds the bytes that the
//! user will type; each read takes one line off its front. The sink collects
//! every byte that the console writes.

use vstd::prelude::*;
use vstd::slice::{slice_subrange, slice_to_vec};
use vstd::string::StringExecFns;
use vstd::utf8::{decode_utf8, encode_utf8, valid_utf8};
use crate::common::{Console, ConsoleError, ConsoleErrorView, Observability, is_terminated};
use crate::confirm::{answer_of, normalized, question, question_of, read_answer};
use crate::input::{ConsoleInput, ConsoleInputView, is_command_line, parse_line, parsed_view};
use crate::state::{ConsoleState, elapsed_text, now};
use crate::text::{lemma_trimmed_is_idempotent, trim, trimmed, utf8_text};

verus! {

/// The byte that ends a line.
pub const NEWLINE: u8 = 10;

/// The number of bytes in the first line of `bytes`: up to and including the
/// first newline, or all of them where there is none.
pub open spec fn line_len(bytes: Seq<u8>) -> nat
    decreases bytes.len(),
{
    if bytes.len() == 0 {
        0
    } else if bytes[0] == NEWLINE {
        1
    } else {
        1 + line_len(bytes.drop_first())
    }
}

/// The first line of `bytes`, with its newline where it has one.
pub open spec fn first_line(bytes: Seq<u8>) -> Seq<u8> {
    bytes.subrange(0, line_len(bytes) as int)
}

/// What is left of `bytes` once its first line has been read.
pub open spec fn after_first_line(bytes: Seq<u8>) -> Seq<u8> {
    bytes.subrange(line_len(bytes) as int, bytes.len() as int)
}

/// The text of the next line that a source holding `pending` delivers, or
/// `None` where the source is exhausted or the line is not well-formed UTF-8.
pub open spec fn next_line(pending: Seq<u8>) -> Option<Seq<char>> {
    if pending.len() > 0 && valid_utf8(first_line(pending)) {
        Some(decode_utf8(first_line(pending)))
    } else {
        None
    }
}

/// The bytes that writing `text` as a line of its own adds to the sink.
pub open spec fn line_bytes(text: Seq<char>) -> Seq<u8> {
    encode_utf8(text) + seq![NEWLINE]
}

/// What a line submitted at the prompt means: it is parsed in its trimmed
/// form. A blank line is free text like any other, a prompt with no text.
pub open spec fn submitted(line: Seq<char>) -> Result<ConsoleInputView, ConsoleErrorView> {
    parse_line(trimmed(line))
}

/// What `prompt_input` yields on a source that holds `pending`.
pub open spec fn prompt_outcome(pending: Seq<u8>) -> Result<ConsoleInputView, ConsoleErrorView> {
    match next_line(pending) {
        Some(line) => submitted(line),
        None => Err(ConsoleErrorView::Terminated),
    }
}

/// The line that reports how long a response took.
pub open spec fn report_of(elapsed: Seq<char>) -> Seq<char> {
    "Response time: "@ + elapsed
}

/// The bytes that the report of a response's duration adds to the sink: the
/// report line and an empty line after it.
pub open spec fn report_bytes(elapsed: Seq<char>) -> Seq<u8> {
    line_bytes(report_of(elapsed)) + line_bytes(Seq::empty())
}

/// How a yes/no question runs on a source: how often it is asked, what is
/// left of the source afterwards, and the answer, which is `None` where the
/// source ends before a valid answer is read.
pub ghost struct ConfirmRun {
    pub answer: Option<bool>,
    pub asked: nat,
    pub rest: Seq<u8>,
}

/// The run of a yes/no question with the given default on a source that holds
/// `pending`. The question is asked, then a line is read; a line that is
/// neither a yes nor a no has the question asked again.
pub open spec fn confirm_run(pending: Seq<u8>, default: bool) -> ConfirmRun
    decreases pending.len(),
{
    let rest = after_first_line(pending);
    match next_line(pending) {
        None => ConfirmRun { answer: None, asked: 1, rest },
        Some(line) => match answer_of(normalized(line), default) {
            Some(answer) => ConfirmRun { answer: Some(answer), asked: 1, rest },
            None => {
                proof {
                    lemma_line_len_bounds(pending);
                }
                let again = confirm_run(rest, default);
                ConfirmRun { answer: again.answer, asked: again.asked + 1, rest: again.rest }
            },
        },
    }
}

/// `block` written `times` times in a row.
pub open spec fn repeated(block: Seq<u8>, times: nat) -> Seq<u8>
    decreases times,
{
    if times == 0 {
        Seq::empty()
    } else {
        block + repeated(block, (times - 1) as nat)
    }
}

/// Writing a block once more extends a run of repetitions by one.
proof fn lemma_repeated_push(block: Seq<u8>, times: nat)
    ensures
        repeated(block, times) + block =~= repeated(block, times + 1),
    decreases times,
{
    if times > 0 {
        lemma_repeated_push(block, (times - 1) as nat);
        assert(repeated(block, times) + block =~= block + (repeated(block, (times - 1) as nat)
            + block));
    }
}

/// Reads a line submitted at the prompt of a line console.
pub fn read_submission(line: &str) -> (parsed: Result<ConsoleInput, ConsoleError>)
    ensures
        parsed_view(parsed) == submitted(line@),
{
    ConsoleInput::from_line(trim(line))
}

/// The line that reports a response's duration, given the duration as text.
pub fn response_time_report(elapsed: &str) -> (report: String)
    ensures
        report@ == report_of(elapsed@),
{
    String::from_str("Response time: ").concat(elapsed)
}

/// The first line is never longer than the bytes at hand, and not empty where
/// there are any.
pub proof fn lemma_line_len_bounds(bytes: Seq<u8>)
    ensures
        line_len(bytes) <= bytes.len(),
        bytes.len() > 0 ==> line_len(bytes) >= 1,
    decreases bytes.len(),
{
    if bytes.len() > 0 && bytes[0] != NEWLINE {
        lemma_line_len_bounds(bytes.drop_first());
    }
}

/// Where the first `k` bytes hold no newline, the first line is those `k`
/// bytes followed by the first line of the rest.
proof fn lemma_line_len_skip(bytes: Seq<u8>, k: int)
    requires
        0 <= k <= bytes.len(),
        forall|j: int| 0 <= j < k ==> bytes[j] != NEWLINE,
    ensures
        line_len(bytes) == k + line_len(bytes.subrange(k, bytes.len() as int)),
    decreases k,
{
    if k == 0 {
        assert(bytes.subrange(0, bytes.len() as int) =~= bytes);
    } else {
        let rest = bytes.drop_first();
        assert forall|j: int| 0 <= j < k - 1 implies rest[j] != NEWLINE by {
            assert(rest[j] == bytes[j + 1]);
        }
        lemma_line_len_skip(rest, k - 1);
        assert(rest.subrange(k - 1, rest.len() as int) =~= bytes.subrange(k, bytes.len() as int));
    }
}

/// A console over a byte source and a byte sink held in memory.
pub struct StdIo {
    input: Vec<u8>,
    cursor: usize,
    output: Vec<u8>,
    state: ConsoleState,
    observability: Observability,
}

impl StdIo {
    /// The bytes of the source that have not been read yet.
    pub closed spec fn pending(&self) -> Seq<u8> {
        if self.cursor <= self.input@.len() {
            self.input@.subrange(self.cursor as int, self.input@.len() as int)
        } else {
            Seq::empty()
        }
    }

    /// Every byte written to the sink so far, those it held at construction
    /// first.
    pub closed spec fn written(&self) -> Seq<u8> {
        self.output@
    }

    /// Where the console stands in its dialogue.
    pub closed spec fn state(&self) -> ConsoleState {
        self.state
    }

    /// The observability flags in force.
    pub closed spec fn settings(&self) -> Observability {
        self.observability
    }

    /// A console that will read `reader` and that writes behind what `writer`
    /// holds. It begins prompting, with both flags off.
    pub fn new_with_buffers(reader: Vec<u8>, writer: Vec<u8>) -> (console: StdIo)
        ensures
            console.pending() == reader@,
            console.written() == writer@,
            console.state() == ConsoleState::Prompting,
            console.settings() == (Observability { statistics: false, thinking: false }),
    {
        let console = StdIo {
            input: reader,
            cursor: 0,
            output: writer,
            state: ConsoleState::Prompting,
            observability: Observability::default(),
        };
        assert(console.input@.subrange(0, console.input@.len() as int) =~= reader@);
        console
    }

    /// Every byte written to the sink so far.
    pub fn output(&self) -> (bytes: &[u8])
        ensures
            bytes@ == self.written(),
    {
        self.output.as_slice()
    }

    /// Takes the next line off the source, newline included. A source with
    /// nothing left, or a line that is not UTF-8, gives `None`.
    fn read_line(&mut self) -> (line: Option<String>)
        ensures
            final(self).pending() == after_first_line(old(self).pending()),
            final(self).written() == old(self).written(),
            final(self).state() == old(self).state(),
            final(self).settings() == old(self).settings(),
            match line {
                Some(text) => next_line(old(self).pending()) == Some(text@),
                None => next_line(old(self).pending()) is None,
            },
    {
        let n: usize = self.input.len();
        let start: usize = if self.cursor < n {
            self.cursor
        } else {
            n
        };
        let ghost pending = self.pending();
        assert(pending =~= self.input@.subrange(start as int, n as int));
        let mut end: usize = start;
        while end < n && self.input[end] != NEWLINE
            invariant
                n == self.input@.len(),
                start <= end <= n,
                forall|j: int| start <= j < end ==> self.input@[j] != NEWLINE,
            decreases n - end,
        {
            end += 1;
        }
        if end < n {
            end += 1;
        }
        proof {
            let k = if end > start && self.input@[end - 1] == NEWLINE {
                end - 1 - start
            } else {
                end - start
            };
            assert forall|j: int| 0 <= j < k implies pending[j] != NEWLINE by {
                assert(pending[j] == self.input@[j + start]);
            }
            lemma_line_len_skip(pending, k);
            let rest = pending.subrange(k, pending.len() as int);
            if k < end - start {
                assert(rest[0] == self.input@[end - 1]);
                assert(line_len(rest) == 1);
            } else {
                assert(rest.len() == 0);
            }
            assert(line_len(pending) == end - start);
            assert(first_line(pending) =~= self.input@.subrange(start as int, end as int));
            assert(after_first_line(pending) =~= self.input@.subrange(end as int, n as int));
        }
        let line = utf8_text(slice_subrange(self.input.as_slice(), start, end));
        let text = match line {
            Some(text) => if end > start {
                Some(String::from_str(text))
            } else {
                None
            },
            None => None,
        };
        self.cursor = end;
        text
    }

    /// Writes `text` to the sink.
    fn write(&mut self, text: &str)
        ensures
            final(self).written() == old(self).written() + encode_utf8(text@),
            final(self).pending() == old(self).pending(),
            final(self).state() == old(self).state(),
            final(self).settings() == old(self).settings(),
    {
        let mut bytes = slice_to_vec(text.as_bytes());
        self.output.append(&mut bytes);
    }

    /// Writes `text` to the sink as a line of its own.
    fn write_line(&mut self, text: &str)
        ensures
            final(self).written() == old(self).written() + line_bytes(text@),
            final(self).pending() == old(self).pending(),
            final(self).state() == old(self).state(),
            final(self).settings() == old(self).settings(),
    {
        self.write(text);
        self.output.push(NEWLINE);
        assert(self.written() =~= old(self).written() + line_bytes(text@));
    }
}

impl StdIo {
    /// Whether ending the response will report its duration: statistics are
    /// on and the response's start was recorded.
    pub open spec fn reports_duration(&self) -> bool {
        self.settings().statistics && self.state() matches ConsoleState::Responding {
            started_at: Some(_),
        }
    }

    /// Whether this console is in every respect as `before` is.
    pub open spec fn unchanged_from(&self, before: StdIo) -> bool {
        &&& self.pending() == before.pending()
        &&& self.written() == before.written()
        &&& self.state() == before.state()
        &&& self.settings() == before.settings()
    }

    /// Whether this console is what beginning a response makes of the
    /// prompting console `before`: it is responding, it has recorded the start
    /// exactly where statistics were on, and nothing else has changed.
    pub open spec fn begun_from(&self, before: StdIo) -> bool {
        &&& self.pending() == before.pending()
        &&& self.written() == before.written()
        &&& self.settings() == before.settings()
        &&& self.state() matches ConsoleState::Responding { started_at }
        &&& started_at is Some <==> before.settings().statistics
    }

    /// Whether this console is what ending the response makes of the
    /// responding console `before`: it is prompting, and the sink has gained
    /// the report of the duration where one was due and nothing where not.
    pub open spec fn ended_from(&self, before: StdIo) -> bool {
        &&& self.pending() == before.pending()
        &&& self.settings() == before.settings()
        &&& self.state() == ConsoleState::Prompting
        &&& before.reports_duration() ==> exists|elapsed: Seq<char>|
            self.written() == before.written() + report_bytes(elapsed)
        &&& !before.reports_duration() ==> self.written() == before.written()
    }

    /// Asks a yes/no question until a line answers it or the source ends.
    fn confirm(&mut self, text: &str, default: bool) -> (answer: Result<bool, ConsoleError>)
        ensures
            final(self).pending() == confirm_run(old(self).pending(), default).rest,
            final(self).written() == old(self).written() + repeated(
                line_bytes(question_of(text@, default)),
                confirm_run(old(self).pending(), default).asked,
            ),
            final(self).state() == old(self).state(),
            final(self).settings() == old(self).settings(),
            match confirm_run(old(self).pending(), default).answer {
                Some(yes) => answer == Ok::<bool, ConsoleError>(yes),
                None => is_terminated(answer),
            },
    {
        let shown = question(text, default);
        let ghost block = line_bytes(question_of(text@, default));
        let ghost whole = confirm_run(old(self).pending(), default);
        let ghost mut asked: nat = 0;
        loop
            invariant
                shown@ == question_of(text@, default),
                block == line_bytes(question_of(text@, default)),
                whole == confirm_run(old(self).pending(), default),
                whole.answer == confirm_run(self.pending(), default).answer,
                whole.rest == confirm_run(self.pending(), default).rest,
                whole.asked == asked + confirm_run(self.pending(), default).asked,
                self.written() == old(self).written() + repeated(block, asked),
                self.state() == old(self).state(),
                self.settings() == old(self).settings(),
            decreases self.pending().len(),
        {
            let ghost before = self.pending();
            self.write_line(shown.as_str());
            proof {
                lemma_repeated_push(block, asked);
                assert(self.written() =~= old(self).written() + repeated(block, asked + 1));
                lemma_line_len_bounds(before);
            }
            match self.read_line() {
                None => {
                    return Err(ConsoleError::Terminated);
                },
                Some(line) => {
                    match read_answer(line.as_str(), default) {
                        Some(yes) => {
                            return Ok(yes);
                        },
                        None => {
                            proof {
                                asked = asked + 1;
                            }
                        },
                    }
                },
            }
        }
    }
}

impl Console for StdIo {
    open spec fn responding(&self) -> bool {
        self.state().responding()
    }

    open spec fn flags(&self) -> Observability {
        self.settings()
    }

    /// Reads one line from the source and parses it in its trimmed form. A
    /// source with nothing left and a line that is not UTF-8 end the session;
    /// a blank line is a prompt with no text.
    fn prompt_input(&mut self) -> (input: Result<ConsoleInput, ConsoleError>)
        ensures
            final(self).state() == old(self).state(),
            final(self).written() == old(self).written(),
            old(self).responding() ==> final(self).pending() == old(self).pending(),
            !old(self).responding() ==> {
                &&& final(self).pending() == after_first_line(old(self).pending())
                &&& parsed_view(input) == prompt_outcome(old(self).pending())
            },
    {
        if self.state.is_responding() {
            return Err(ConsoleError::InvalidState);
        }
        match self.read_line() {
            Some(line) => read_submission(line.as_str()),
            None => Err(ConsoleError::Terminated),
        }
    }

    /// Begins a response. The start is recorded exactly where statistics are
    /// on at this moment.
    fn start_responding(&mut self) -> (started: Result<(), ConsoleError>)
        ensures
            old(self).responding() ==> final(self).unchanged_from(*old(self)),
            !old(self).responding() ==> final(self).begun_from(*old(self)),
    {
        if self.state.is_responding() {
            return Err(ConsoleError::InvalidState);
        }
        let started_at = if self.observability.statistics {
            Some(now())
        } else {
            None
        };
        self.state.start(started_at)
    }

    /// Ends a response. Where statistics are on and the start was recorded,
    /// one line that reports the duration and one empty line are written.
    fn stop_responding(&mut self) -> (stopped: Result<(), ConsoleError>)
        ensures
            stopped is Ok <==> old(self).responding(),
            !old(self).responding() ==> final(self).unchanged_from(*old(self)),
            old(self).responding() ==> final(self).ended_from(*old(self)),
    {
        match self.state.stop() {
            Ok(started_at) => {
                if self.observability.statistics {
                    if let Some(start) = started_at {
                        let elapsed = elapsed_text(&start);
                        self.report(elapsed.as_str());
                    }
                }
                Ok(())
            },
            Err(refused) => Err(refused),
        }
    }

    fn observability(&mut self, new_settings: Option<Observability>) -> (previous: Observability)
        ensures
            final(self).pending() == old(self).pending(),
            final(self).written() == old(self).written(),
            final(self).state() == old(self).state(),
    {
        let previous = self.observability;
        if let Some(flags) = new_settings {
            self.observability = flags;
        }
        previous
    }

    /// Writes the text as a line of its own.
    fn add_response_text(&mut self, text: String) -> (added: Result<(), ConsoleError>)
        ensures
            added is Ok <==> old(self).responding(),
            final(self).pending() == old(self).pending(),
            final(self).state() == old(self).state(),
            final(self).written() == if old(self).responding() {
                old(self).written() + line_bytes(text@)
            } else {
                old(self).written()
            },
    {
        if !self.state.is_responding() {
            return Err(ConsoleError::InvalidState);
        }
        self.write_line(text.as_str());
        Ok(())
    }

    /// Writes the text as a line of its own while the `thinking` flag is set,
    /// and nothing while it is not.
    fn add_thinking_text(&mut self, text: String) -> (added: Result<(), ConsoleError>)
        ensures
            added is Ok <==> old(self).responding(),
            final(self).pending() == old(self).pending(),
            final(self).state() == old(self).state(),
            final(self).written() == if old(self).responding() && old(self).settings().thinking {
                old(self).written() + line_bytes(text@)
            } else {
                old(self).written()
            },
    {
        if !self.state.is_responding() {
            return Err(ConsoleError::InvalidState);
        }
        if self.observability.thinking {
            self.write_line(text.as_str());
        }
        Ok(())
    }

    /// Asks with the hint `[Y/n]`, once for each line read, until a line
    /// answers or the source ends.
    fn if_accept(&mut self, text: String) -> (answer: Result<bool, ConsoleError>)
        ensures
            final(self).state() == old(self).state(),
            !old(self).responding() ==> final(self).pending() == old(self).pending()
                && final(self).written() == old(self).written(),
            old(self).responding() ==> {
                let run = confirm_run(old(self).pending(), true);
                &&& final(self).pending() == run.rest
                &&& final(self).written() == old(self).written() + repeated(
                    line_bytes(question_of(text@, true)),
                    run.asked,
                )
                &&& match run.answer {
                    Some(yes) => answer == Ok::<bool, ConsoleError>(yes),
                    None => is_terminated(answer),
                }
            },
    {
        if !self.state.is_responding() {
            return Err(ConsoleError::InvalidState);
        }
        self.confirm(text.as_str(), true)
    }

    /// Asks with the hint `[y/N]`, once for each line read, until a line
    /// answers or the source ends.
    fn if_yes(&mut self, text: String) -> (answer: Result<bool, ConsoleError>)
        ensures
            final(self).state() == old(self).state(),
            !old(self).responding() ==> final(self).pending() == old(self).pending()
                && final(self).written() == old(self).written(),
            old(self).responding() ==> {
                let run = confirm_run(old(self).pending(), false);
                &&& final(self).pending() == run.rest
                &&& final(self).written() == old(self).written() + repeated(
                    line_bytes(question_of(text@, false)),
                    run.asked,
                )
                &&& match run.answer {
                    Some(yes) => answer == Ok::<bool, ConsoleError>(yes),
                    None => is_terminated(answer),
                }
            },
    {
        if !self.state.is_responding() {
            return Err(ConsoleError::InvalidState);
        }
        self.confirm(text.as_str(), false)
    }

    /// Writes the text and a space, then reads one line and hands back its
    /// trimmed form. A source with nothing left ends the session.
    fn ask_user(&mut self, text: String) -> (reply: Result<String, ConsoleError>)
        ensures
            final(self).state() == old(self).state(),
            !old(self).responding() ==> final(self).pending() == old(self).pending()
                && final(self).written() == old(self).written(),
            old(self).responding() ==> {
                &&& final(self).pending() == after_first_line(old(self).pending())
                &&& final(self).written() == old(self).written() + encode_utf8(text@ + " "@)
                &&& match next_line(old(self).pending()) {
                    Some(line) => reply is Ok && reply->Ok_0@ == trimmed(line),
                    None => is_terminated(reply),
                }
            },
    {
        if !self.state.is_responding() {
            return Err(ConsoleError::InvalidState);
        }
        let shown = text.concat(" ");
        self.write(shown.as_str());
        match self.read_line() {
            Some(line) => Ok(String::from_str(trim(line.as_str()))),
            None => Err(ConsoleError::Terminated),
        }
    }
}

impl StdIo {
    /// Writes the report of a response's duration, given as text.
    fn report(&mut self, elapsed: &str)
        ensures
            final(self).written() == old(self).written() + report_bytes(elapsed@),
            final(self).pending() == old(self).pending(),
            final(self).state() == old(self).state(),
            final(self).settings() == old(self).settings(),
    {
        let report = response_time_report(elapsed);
        self.write_line(report.as_str());
        self.write_line("");
        proof {
            reveal_strlit("");
            assert(""@ =~= Seq::<char>::empty());
            assert(self.written() =~= old(self).written() + report_bytes(elapsed@));
        }
    }
}

/// At the prompt of a line console free text is handed on in its trimmed
/// form: a line that does not begin with `/` once trimmed is a prompt whose
/// text is the trimmed line.
pub proof fn lemma_free_text_is_trimmed_prompt(line: Seq<char>)
    requires
        !is_command_line(line),
    ensures
        submitted(line) == Ok::<ConsoleInputView, ConsoleErrorView>(
            ConsoleInputView::Prompt { prompt: trimmed(line) },
        ),
{
    lemma_trimmed_is_idempotent(line);
}

/// Statistics decide whether a response cycle reports its duration: a cycle
/// begun with statistics on adds one report to the sink, a cycle begun with
/// statistics off adds nothing. Either way the console is prompting again.
pub proof fn lemma_statistics_decide_report(before: StdIo, during: StdIo, after: StdIo)
    requires
        !before.state().responding(),
        during.begun_from(before),
        after.ended_from(during),
    ensures
        after.state() == ConsoleState::Prompting,
        before.settings().statistics ==> exists|elapsed: Seq<char>|
            after.written() == before.written() + report_bytes(elapsed),
        !before.settings().statistics ==> after.written() == before.written(),
{
}

/// A yes/no question that the next line answers is asked exactly once, and
/// only that line is read.
pub proof fn lemma_answered_at_once(pending: Seq<u8>, default: bool)
    requires
        next_line(pending) is Some,
        answer_of(normalized(next_line(pending)->0), default) is Some,
    ensures
        confirm_run(pending, default).asked == 1,
        confirm_run(pending, default).answer == answer_of(
            normalized(next_line(pending)->0),
            default,
        ),
        confirm_run(pending, default).rest == after_first_line(pending),
{
}

/// A yes/no question is asked once for each line that is read, the answering
/// line included; it never reads past the end of the source.
pub proof fn lemma_confirm_run_bounds(pending: Seq<u8>, default: bool)
    ensures
        confirm_run(pending, default).asked >= 1,
        confirm_run(pending, default).rest.len() <= pending.len(),
    decreases pending.len(),
{
    lemma_line_len_bounds(pending);
    if next_line(pending) is Some && answer_of(normalized(next_line(pending)->0), default)
        is None {
        lemma_confirm_run_bounds(after_first_line(pending), default);
    }
}

/// On a source with nothing left every read ends the session: the prompt, a
/// free-text question and a yes/no question all fail with `Terminated`, and a
/// yes/no question has been asked once by then.
pub proof fn lemma_closed_source_terminates(pending: Seq<u8>, default: bool)
    requires
        pending.len() == 0,
    ensures
        next_line(pending) is None,
        prompt_outcome(pending) == Err::<ConsoleInputView, ConsoleErrorView>(
            ConsoleErrorView::Terminated,
        ),
        confirm_run(pending, default).answer is None,
        confirm_run(pending, default).asked == 1,
{
}

} // verus!
