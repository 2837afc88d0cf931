use console::common::{Console, ConsoleError, ConsoleInput, Observability};
use console::state::{ConsoleState, Operation};
use console::stdio::{read_submission, response_time_report, StdIo};

#[test]
fn prompt_text_is_trimmed() {
    let mut console = StdIo::new_with_buffers(b"   spaced out  \r\n".to_vec(), Vec::new());
    assert_eq!(
        console.prompt_input(),
        Ok(ConsoleInput::Prompt { prompt: "spaced out".to_string() })
    );
}

#[test]
fn prompt_reads_one_line_at_a_time() {
    let mut console = StdIo::new_with_buffers(b"first\n/exit\nlast".to_vec(), Vec::new());
    assert_eq!(console.prompt_input(), Ok(ConsoleInput::Prompt { prompt: "first".to_string() }));
    assert_eq!(console.prompt_input(), Ok(ConsoleInput::Exit));
    assert_eq!(console.prompt_input(), Ok(ConsoleInput::Prompt { prompt: "last".to_string() }));
    assert_eq!(console.prompt_input(), Err(ConsoleError::Terminated));
    assert!(console.output().is_empty());
}

#[test]
fn blank_line_at_the_prompt_is_an_empty_prompt() {
    let mut console = StdIo::new_with_buffers(b"\nhello\n  \t\n".to_vec(), Vec::new());
    assert_eq!(console.prompt_input(), Ok(ConsoleInput::Prompt { prompt: "".to_string() }));
    assert_eq!(console.prompt_input(), Ok(ConsoleInput::Prompt { prompt: "hello".to_string() }));
    assert_eq!(console.prompt_input(), Ok(ConsoleInput::Prompt { prompt: "".to_string() }));
    assert_eq!(console.prompt_input(), Err(ConsoleError::Terminated));
}

#[test]
fn line_that_is_not_utf8_terminates() {
    let mut console = StdIo::new_with_buffers(vec![0xff, 0xfe, b'\n', b'o', b'k', b'\n'], Vec::new());
    assert_eq!(console.prompt_input(), Err(ConsoleError::Terminated));
    assert_eq!(console.prompt_input(), Ok(ConsoleInput::Prompt { prompt: "ok".to_string() }));
}

#[test]
fn text_beyond_ascii_is_read_and_written() {
    let mut console = StdIo::new_with_buffers("grüße, 世界\n".as_bytes().to_vec(), Vec::new());
    assert_eq!(
        console.prompt_input(),
        Ok(ConsoleInput::Prompt { prompt: "grüße, 世界".to_string() })
    );
    console.start_responding().unwrap();
    console.add_response_text("żółw".to_string()).unwrap();
    assert_eq!(console.output(), "żółw\n".as_bytes());
}

#[test]
fn submission_is_trimmed_then_parsed() {
    assert_eq!(read_submission("  /thinking on \n"), Ok(ConsoleInput::Thinking(true)));
    assert_eq!(read_submission(" hi \n"), Ok(ConsoleInput::Prompt { prompt: "hi".to_string() }));
    assert_eq!(read_submission("\n"), Ok(ConsoleInput::Prompt { prompt: String::new() }));
    assert_eq!(read_submission(""), Ok(ConsoleInput::Prompt { prompt: String::new() }));
    assert_eq!(
        read_submission("/nope\n"),
        Err(ConsoleError::UnknownCommand { command: "/nope".to_string() })
    );
}

#[test]
fn response_text_is_written_as_lines_behind_what_the_sink_held() {
    let mut console = StdIo::new_with_buffers(Vec::new(), b"kept|".to_vec());
    console.start_responding().unwrap();
    console.add_response_text("one".to_string()).unwrap();
    console.add_response_text("".to_string()).unwrap();
    console.add_response_text("two".to_string()).unwrap();
    assert_eq!(console.output(), b"kept|one\n\ntwo\n");
}

#[test]
fn thinking_text_follows_the_flag() {
    let mut console = StdIo::new_with_buffers(Vec::new(), Vec::new());
    console.start_responding().unwrap();
    assert_eq!(console.add_thinking_text("hidden".to_string()), Ok(()));
    assert!(console.output().is_empty());
    console.observability(Some(Observability { statistics: false, thinking: true }));
    assert_eq!(console.add_thinking_text("shown".to_string()), Ok(()));
    assert_eq!(console.output(), b"shown\n");
}

#[test]
fn every_responding_operation_is_refused_while_prompting() {
    let mut console = StdIo::new_with_buffers(b"y\n".to_vec(), Vec::new());
    assert_eq!(console.stop_responding(), Err(ConsoleError::InvalidState));
    assert_eq!(console.add_response_text("x".to_string()), Err(ConsoleError::InvalidState));
    assert_eq!(console.add_thinking_text("x".to_string()), Err(ConsoleError::InvalidState));
    assert_eq!(console.if_accept("x".to_string()), Err(ConsoleError::InvalidState));
    assert_eq!(console.if_yes("x".to_string()), Err(ConsoleError::InvalidState));
    assert_eq!(console.ask_user("x".to_string()), Err(ConsoleError::InvalidState));
    assert!(console.output().is_empty());
    assert_eq!(console.prompt_input(), Ok(ConsoleInput::Prompt { prompt: "y".to_string() }));
}

#[test]
fn every_prompting_operation_is_refused_while_responding() {
    let mut console = StdIo::new_with_buffers(b"line\n".to_vec(), Vec::new());
    console.start_responding().unwrap();
    assert_eq!(console.start_responding(), Err(ConsoleError::InvalidState));
    assert_eq!(console.prompt_input(), Err(ConsoleError::InvalidState));
    assert_eq!(console.ask_user("q".to_string()), Ok("line".to_string()));
}

#[test]
fn statistics_report_is_one_line_and_one_empty_line() {
    let mut console = StdIo::new_with_buffers(Vec::new(), Vec::new());
    console.observability(Some(Observability { statistics: true, thinking: false }));
    console.start_responding().unwrap();
    console.stop_responding().unwrap();
    let text = String::from_utf8(console.output().to_vec()).unwrap();
    assert!(text.starts_with("Response time: "));
    assert!(text.ends_with("\n\n"));
    assert_eq!(text.matches('\n').count(), 2);
    assert!(text.len() > "Response time: \n\n".len());
}

#[test]
fn statistics_must_be_on_at_the_start_and_at_the_end() {
    let mut late = StdIo::new_with_buffers(Vec::new(), Vec::new());
    late.start_responding().unwrap();
    late.observability(Some(Observability { statistics: true, thinking: false }));
    late.stop_responding().unwrap();
    assert!(late.output().is_empty());

    let mut early = StdIo::new_with_buffers(Vec::new(), Vec::new());
    early.observability(Some(Observability { statistics: true, thinking: false }));
    early.start_responding().unwrap();
    early.observability(Some(Observability { statistics: false, thinking: false }));
    early.stop_responding().unwrap();
    assert!(early.output().is_empty());
}

#[test]
fn report_line_names_the_duration() {
    assert_eq!(response_time_report("1.5s"), "Response time: 1.5s");
    assert_eq!(response_time_report(""), "Response time: ");
}

#[test]
fn empty_answer_takes_each_question_s_default() {
    let mut console = StdIo::new_with_buffers(b"\n\n".to_vec(), Vec::new());
    console.start_responding().unwrap();
    assert_eq!(console.if_yes("Delete?".to_string()), Ok(false));
    assert_eq!(console.if_accept("Keep?".to_string()), Ok(true));
    assert_eq!(console.output(), b"Delete? [y/N]\nKeep? [Y/n]\n");
}

#[test]
fn unrecognised_answer_asks_again() {
    let mut console = StdIo::new_with_buffers(b"maybe\nwhat\n yes \nno\n".to_vec(), Vec::new());
    console.start_responding().unwrap();
    assert_eq!(console.if_yes("Sure?".to_string()), Ok(true));
    assert_eq!(console.output(), b"Sure? [y/N]\nSure? [y/N]\nSure? [y/N]\n");
    assert_eq!(console.if_accept("Sure?".to_string()), Ok(false));
}

#[test]
fn closed_source_terminates_questions() {
    let mut console = StdIo::new_with_buffers(Vec::new(), Vec::new());
    console.start_responding().unwrap();
    assert_eq!(console.if_yes("Q?".to_string()), Err(ConsoleError::Terminated));
    assert_eq!(console.if_accept("Q?".to_string()), Err(ConsoleError::Terminated));
    assert_eq!(console.ask_user("Name?".to_string()), Err(ConsoleError::Terminated));
    assert_eq!(console.output(), b"Q? [y/N]\nQ? [Y/n]\nName? ");
}

#[test]
fn source_that_ends_before_an_answer_terminates() {
    let mut console = StdIo::new_with_buffers(b"perhaps\n".to_vec(), Vec::new());
    console.start_responding().unwrap();
    assert_eq!(console.if_accept("Q?".to_string()), Err(ConsoleError::Terminated));
    assert_eq!(console.output(), b"Q? [Y/n]\nQ? [Y/n]\n");
}

#[test]
fn last_line_answers_without_a_newline() {
    let mut console = StdIo::new_with_buffers(b"YES".to_vec(), Vec::new());
    console.start_responding().unwrap();
    assert_eq!(console.if_yes("Q?".to_string()), Ok(true));
}

#[test]
fn ask_user_writes_the_question_and_a_space() {
    let mut console = StdIo::new_with_buffers(b"  Ada Lovelace \n\n".to_vec(), Vec::new());
    console.start_responding().unwrap();
    assert_eq!(console.ask_user("Name?".to_string()), Ok("Ada Lovelace".to_string()));
    assert_eq!(console.output(), b"Name? ");
    assert_eq!(console.ask_user("Again?".to_string()), Ok(String::new()));
}

#[test]
fn flags_are_off_by_default_and_replaced_together() {
    assert_eq!(Observability::default(), Observability { statistics: false, thinking: false });
    let mut console = StdIo::new_with_buffers(Vec::new(), Vec::new());
    let only_thinking = Observability { statistics: false, thinking: true };
    let only_statistics = Observability { statistics: true, thinking: false };
    assert_eq!(console.observability(Some(only_thinking)), Observability::default());
    assert_eq!(console.observability(Some(only_statistics)), only_thinking);
    assert_eq!(console.observability(None), only_statistics);
    console.start_responding().unwrap();
    assert_eq!(console.observability(Some(only_thinking)), only_statistics);
    assert_eq!(console.observability(None), only_thinking);
}

#[test]
fn state_permits_each_operation_in_one_state() {
    let prompting = ConsoleState::default();
    let mut responding = ConsoleState::default();
    assert_eq!(responding.start(None), Ok(()));
    assert!(!prompting.is_responding());
    assert!(responding.is_responding());
    let for_prompting = [Operation::PromptInput, Operation::StartResponding];
    let for_responding = [
        Operation::StopResponding,
        Operation::AddResponseText,
        Operation::AddThinkingText,
        Operation::IfAccept,
        Operation::IfYes,
        Operation::AskUser,
    ];
    for op in for_prompting {
        assert_eq!(prompting.permit(op), Ok(()));
        assert_eq!(responding.permit(op), Err(ConsoleError::InvalidState));
    }
    for op in for_responding {
        assert_eq!(prompting.permit(op), Err(ConsoleError::InvalidState));
        assert_eq!(responding.permit(op), Ok(()));
    }
}

#[test]
fn state_transitions_refuse_out_of_turn() {
    let mut state = ConsoleState::default();
    assert!(matches!(state.stop(), Err(ConsoleError::InvalidState)));
    assert!(!state.is_responding());
    assert_eq!(state.start(None), Ok(()));
    assert_eq!(state.start(None), Err(ConsoleError::InvalidState));
    assert!(state.is_responding());
    assert!(matches!(state.stop(), Ok(None)));
    assert!(!state.is_responding());
    let now = std::time::Instant::now();
    assert_eq!(state.start(Some(now)), Ok(()));
    assert!(matches!(state.stop(), Ok(Some(at)) if at == now));
}
