use grov::tui::event::{Event, KeyCode};
use grov::tui::text_input::{Action, TextInput};

fn key(code: KeyCode) -> Event {
    Event::press(code)
}

#[test]
fn new_creates_empty_input() {
    let input = TextInput::new("test");
    assert_eq!(input.value, "");
    assert_eq!(input.cursor, 0);
    assert_eq!(input.label, "test");
}

#[test]
fn insert_and_cursor() {
    let mut input = TextInput::new("test");
    input.insert_char('a');
    input.insert_char('b');
    assert_eq!(input.value, "ab");
    assert_eq!(input.cursor, 2);
}

#[test]
fn delete_char_removes_before_cursor() {
    let mut input = TextInput::new("test").with_initial("abc");
    input.delete_char();
    assert_eq!(input.value, "ab");
    assert_eq!(input.cursor, 2);
}

#[test]
fn move_left_right() {
    let mut input = TextInput::new("test").with_initial("abc");
    input.move_left();
    assert_eq!(input.cursor, 2);
    input.move_right();
    assert_eq!(input.cursor, 3);
}

#[test]
fn home_end() {
    let mut input = TextInput::new("test").with_initial("abc");
    input.move_home();
    assert_eq!(input.cursor, 0);
    input.move_end();
    assert_eq!(input.cursor, 3);
}

#[test]
fn result_returns_default_when_empty() {
    let input = TextInput::new("test").with_default("fallback");
    assert_eq!(input.result(), "fallback");
}

#[test]
fn result_returns_value_when_not_empty() {
    let input = TextInput::new("test")
        .with_default("fallback")
        .with_initial("typed");
    assert_eq!(input.result(), "typed");
}

#[test]
fn delete_at_start_is_noop() {
    let mut input = TextInput::new("test");
    input.delete_char();
    assert_eq!(input.value, "");
    assert_eq!(input.cursor, 0);
}

#[test]
fn move_left_at_start_is_noop() {
    let mut input = TextInput::new("test");
    input.move_left();
    assert_eq!(input.cursor, 0);
}

#[test]
fn move_right_at_end_is_noop() {
    let mut input = TextInput::new("test").with_initial("ab");
    input.move_right();
    assert_eq!(input.cursor, 2);
}

#[test]
fn result_is_empty_without_value_and_default() {
    let input = TextInput::new("test");
    assert_eq!(input.result(), "");
}

#[test]
fn insert_multibyte_advances_by_encoded_length() {
    let mut input = TextInput::new("test");
    input.insert_char('a');
    input.insert_char('\u{e9}');
    assert_eq!(input.cursor, 3);
    input.insert_char('\u{20ac}');
    assert_eq!(input.cursor, 6);
    input.insert_char('\u{1f600}');
    assert_eq!(input.cursor, 10);
    assert_eq!(input.value, "a\u{e9}\u{20ac}\u{1f600}");
}

#[test]
fn cursor_stays_on_boundaries_over_multibyte_text() {
    let mut input = TextInput::new("test").with_initial("a\u{e9}\u{20ac}\u{1f600}z");
    assert_eq!(input.cursor, 11);
    let mut seen = vec![input.cursor];
    for _ in 0..6 {
        input.move_left();
        assert!(input.value.is_char_boundary(input.cursor));
        seen.push(input.cursor);
    }
    assert_eq!(seen, vec![11, 10, 6, 3, 1, 0, 0]);
    let mut back = vec![];
    for _ in 0..6 {
        input.move_right();
        assert!(input.value.is_char_boundary(input.cursor));
        back.push(input.cursor);
    }
    assert_eq!(back, vec![1, 3, 6, 10, 11, 11]);
}

#[test]
fn insert_in_the_middle() {
    let mut input = TextInput::new("test").with_initial("a\u{20ac}c");
    input.move_left();
    input.insert_char('\u{e9}');
    assert_eq!(input.value, "a\u{20ac}\u{e9}c");
    assert_eq!(input.cursor, 6);
}

#[test]
fn delete_char_removes_whole_code_point() {
    let mut input = TextInput::new("test").with_initial("a\u{1f600}b");
    input.move_left();
    input.delete_char();
    assert_eq!(input.value, "ab");
    assert_eq!(input.cursor, 1);
}

#[test]
fn delete_forward_removes_code_point_at_cursor() {
    let mut input = TextInput::new("test").with_initial("a\u{20ac}b");
    input.move_home();
    input.move_right();
    input.delete_forward();
    assert_eq!(input.value, "ab");
    assert_eq!(input.cursor, 1);
    input.move_end();
    input.delete_forward();
    assert_eq!(input.value, "ab");
    assert_eq!(input.cursor, 2);
}

#[test]
fn typed_unicode_keeps_cursor_in_range() {
    let text = "h\u{e9}llo w\u{f6}rld \u{4e16}\u{754c} \u{1f980}!";
    let mut input = TextInput::new("test");
    for c in text.chars() {
        let action = input.handle_event(&key(KeyCode::Char(c)));
        assert!(matches!(action, Action::Continue));
        assert!(input.cursor <= input.value.len());
        assert!(input.value.is_char_boundary(input.cursor));
    }
    assert_eq!(input.value, text);
    assert_eq!(input.cursor, text.len());
}

#[test]
fn enter_submits_value_or_default() {
    let mut input = TextInput::new("test").with_default("main");
    match input.handle_event(&key(KeyCode::Enter)) {
        Action::Submit(v) => assert_eq!(v, "main"),
        _ => panic!("expected Submit"),
    }
    input.handle_event(&key(KeyCode::Char('x')));
    match input.handle_event(&key(KeyCode::Enter)) {
        Action::Submit(v) => assert_eq!(v, "x"),
        _ => panic!("expected Submit"),
    }
}

#[test]
fn escape_cancels_input() {
    let mut input = TextInput::new("test").with_initial("abc");
    assert!(matches!(input.handle_event(&key(KeyCode::Esc)), Action::Cancel));
    assert_eq!(input.value, "abc");
}

#[test]
fn editing_keys_through_events() {
    let mut input = TextInput::new("test").with_initial("abc");
    input.handle_event(&key(KeyCode::Home));
    assert_eq!(input.cursor, 0);
    input.handle_event(&key(KeyCode::Delete));
    assert_eq!(input.value, "bc");
    input.handle_event(&key(KeyCode::End));
    assert_eq!(input.cursor, 2);
    input.handle_event(&key(KeyCode::Backspace));
    assert_eq!(input.value, "b");
    input.handle_event(&key(KeyCode::Left));
    assert_eq!(input.cursor, 0);
    input.handle_event(&key(KeyCode::Right));
    assert_eq!(input.cursor, 1);
    input.handle_event(&key(KeyCode::Tab));
    input.handle_event(&Event::Other);
    assert_eq!(input.value, "b");
    assert_eq!(input.cursor, 1);
}

#[test]
fn outcome_of_a_lone_field() {
    let outcome = grov::tui::text_input::outcome_of_field;
    match outcome(Action::Submit("x".to_string())) {
        Ok(grov::tui::FlowOutcome::Done(text)) => assert_eq!(text, "x"),
        _ => panic!("expected Done"),
    }
    assert!(matches!(outcome(Action::Continue), Ok(grov::tui::FlowOutcome::Continue)));
    assert_eq!(outcome(Action::Cancel).unwrap_err(), grov::tui::FlowError::Cancelled);
    assert_eq!(outcome(Action::Interrupt).unwrap_err(), grov::tui::FlowError::Interrupted);
}
