use console::common::{ConsoleError, ConsoleInput, Observability};
use console::screen::{answer_key, Key, Screen};
use console::state::Operation;

#[test]
fn typed_characters_build_the_input_line() {
    let mut screen = Screen::new();
    assert_eq!(screen.input_text(), "");
    assert_eq!(screen.prompt_key(Key::Char('h')), None);
    assert_eq!(screen.prompt_key(Key::Char('é')), None);
    assert_eq!(screen.prompt_key(Key::Other), None);
    assert_eq!(screen.input_text(), "hé");
    assert_eq!(screen.transcript_text(), "");
}

#[test]
fn backspace_deletes_the_last_character() {
    let mut screen = Screen::new();
    assert_eq!(screen.prompt_key(Key::Backspace), None);
    assert_eq!(screen.input_text(), "");
    screen.prompt_key(Key::Char('a'));
    screen.prompt_key(Key::Char('ß'));
    assert_eq!(screen.prompt_key(Key::Backspace), None);
    assert_eq!(screen.input_text(), "a");
    screen.prompt_key(Key::Backspace);
    screen.prompt_key(Key::Backspace);
    assert_eq!(screen.input_text(), "");
}

#[test]
fn enter_submits_echoes_and_clears() {
    let mut screen = Screen::new();
    for c in "/thinking on".chars() {
        assert_eq!(screen.prompt_key(Key::Char(c)), None);
    }
    assert_eq!(screen.prompt_key(Key::Enter), Some(Ok(ConsoleInput::Thinking(true))));
    assert_eq!(screen.input_text(), "");
    assert_eq!(screen.transcript_text(), "> /thinking on");
    for c in " hi ".chars() {
        screen.prompt_key(Key::Char(c));
    }
    assert_eq!(
        screen.prompt_key(Key::Enter),
        Some(Ok(ConsoleInput::Prompt { prompt: " hi ".to_string() }))
    );
    assert_eq!(screen.transcript_text(), "> /thinking on\n>  hi ");
}

#[test]
fn enter_on_an_unknown_command_reports_it() {
    let mut screen = Screen::new();
    for c in "/nope 1".chars() {
        screen.prompt_key(Key::Char(c));
    }
    assert_eq!(
        screen.prompt_key(Key::Enter),
        Some(Err(ConsoleError::UnknownCommand { command: "/nope".to_string() }))
    );
    assert_eq!(screen.transcript_text(), "> /nope 1");
}

#[test]
fn enter_on_an_empty_line_is_an_empty_prompt() {
    let mut screen = Screen::new();
    assert_eq!(
        screen.prompt_key(Key::Enter),
        Some(Ok(ConsoleInput::Prompt { prompt: String::new() }))
    );
    assert_eq!(screen.transcript_text(), "> ");
}

#[test]
fn keys_are_refused_at_the_prompt_while_responding() {
    let mut screen = Screen::new();
    screen.prompt_key(Key::Char('x'));
    screen.start_responding().unwrap();
    assert_eq!(screen.prompt_key(Key::Char('y')), Some(Err(ConsoleError::InvalidState)));
    assert_eq!(screen.prompt_key(Key::Enter), Some(Err(ConsoleError::InvalidState)));
    assert_eq!(screen.input_text(), "x");
    assert_eq!(screen.transcript_text(), "");
}

#[test]
fn screen_follows_the_two_state_protocol() {
    let mut screen = Screen::new();
    assert_eq!(screen.permit(Operation::PromptInput), Ok(()));
    assert_eq!(screen.permit(Operation::IfYes), Err(ConsoleError::InvalidState));
    assert_eq!(screen.stop_responding(), Err(ConsoleError::InvalidState));
    assert_eq!(screen.add_response_text("x".to_string()), Err(ConsoleError::InvalidState));
    assert_eq!(screen.add_thinking_text("x".to_string()), Err(ConsoleError::InvalidState));
    assert_eq!(screen.show_question("x"), Err(ConsoleError::InvalidState));
    assert_eq!(screen.transcript_text(), "");
    assert_eq!(screen.start_responding(), Ok(()));
    assert_eq!(screen.start_responding(), Err(ConsoleError::InvalidState));
    assert_eq!(screen.permit(Operation::PromptInput), Err(ConsoleError::InvalidState));
    assert_eq!(screen.permit(Operation::AskUser), Ok(()));
    assert_eq!(screen.stop_responding(), Ok(()));
    assert_eq!(screen.start_responding(), Ok(()));
}

#[test]
fn response_and_thinking_lines_join_the_transcript() {
    let mut screen = Screen::new();
    screen.start_responding().unwrap();
    assert_eq!(screen.add_response_text("first".to_string()), Ok(()));
    assert_eq!(screen.add_thinking_text("unseen".to_string()), Ok(()));
    assert_eq!(screen.transcript_text(), "first");
    screen.observability(Some(Observability { statistics: false, thinking: true }));
    assert_eq!(screen.add_thinking_text("plan".to_string()), Ok(()));
    assert_eq!(screen.add_response_text("".to_string()), Ok(()));
    assert_eq!(screen.add_response_text("last".to_string()), Ok(()));
    assert_eq!(screen.transcript_text(), "first\n[thinking] plan\n\nlast");
}

#[test]
fn question_is_shown_with_the_hint_for_yes() {
    let mut screen = Screen::new();
    screen.start_responding().unwrap();
    assert_eq!(screen.show_question("Continue?"), Ok(()));
    assert_eq!(screen.transcript_text(), "Continue? [Y/n]");
}

#[test]
fn keys_answer_a_question() {
    assert_eq!(answer_key(Key::Char('y')), Some(true));
    assert_eq!(answer_key(Key::Char('Y')), Some(true));
    assert_eq!(answer_key(Key::Enter), Some(true));
    assert_eq!(answer_key(Key::Char('n')), Some(false));
    assert_eq!(answer_key(Key::Char('N')), Some(false));
    assert_eq!(answer_key(Key::Char('x')), None);
    assert_eq!(answer_key(Key::Backspace), None);
    assert_eq!(answer_key(Key::Other), None);
}

#[test]
fn screen_flags_return_the_previous_value() {
    let mut screen = Screen::new();
    let on = Observability { statistics: true, thinking: true };
    assert_eq!(screen.observability(None), Observability::default());
    assert_eq!(screen.observability(Some(on)), Observability::default());
    assert_eq!(screen.observability(None), on);
}
