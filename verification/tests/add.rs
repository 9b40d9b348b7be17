use grov::commands::add::{
    checkout_command, resolve_base_branch, AddPicker, AddStep, BaseBranchAction, BasePrompt,
    BranchChoice, BranchSource,
};
use grov::tui::event::{Event, KeyCode, KeyEvent, MOD_CONTROL};
use grov::tui::{FlowError, FlowOutcome};

fn key_event(code: KeyCode) -> Event {
    Event::press(code)
}

fn key_char(c: char) -> Event {
    key_event(KeyCode::Char(c))
}

fn type_string(s: &str) -> Vec<Event> {
    s.chars().map(key_char).collect()
}

fn enter() -> Event {
    key_event(KeyCode::Enter)
}

fn esc() -> Event {
    key_event(KeyCode::Esc)
}

fn feed_picker(
    picker: &mut AddPicker,
    events: &[Event],
) -> Result<FlowOutcome<BranchChoice>, FlowError> {
    for ev in events {
        match picker.handle_event(ev)? {
            FlowOutcome::Done(r) => return Ok(FlowOutcome::Done(r)),
            FlowOutcome::Continue => {}
        }
    }
    Ok(FlowOutcome::Continue)
}

#[test]
fn resolve_base_provided() {
    assert_eq!(
        resolve_base_branch(Some("develop"), Some("feat"), true),
        BaseBranchAction::UseBase("develop".to_string())
    );
}

#[test]
fn resolve_base_provided_overrides_non_tty() {
    assert_eq!(
        resolve_base_branch(Some("develop"), None, false),
        BaseBranchAction::UseBase("develop".to_string())
    );
}

#[test]
fn resolve_tty_with_current_branch() {
    assert_eq!(
        resolve_base_branch(None, Some("feat"), true),
        BaseBranchAction::Prompt {
            default: Some("feat".to_string())
        }
    );
}

#[test]
fn resolve_tty_without_current_branch() {
    assert_eq!(
        resolve_base_branch(None, None, true),
        BaseBranchAction::Prompt { default: None }
    );
}

#[test]
fn resolve_non_tty_without_base() {
    assert_eq!(
        resolve_base_branch(None, Some("feat"), false),
        BaseBranchAction::ErrorNotTty
    );
}

#[test]
fn resolve_non_tty_no_base_no_branch() {
    assert_eq!(
        resolve_base_branch(None, None, false),
        BaseBranchAction::ErrorNotTty
    );
}

// --- Flow tests ---

#[test]
fn select_existing_branch() {
    let mut picker = AddPicker::new(vec!["main".into(), "develop".into()], Some("main".into()));
    // Press Enter on first item (main)
    let result = feed_picker(&mut picker, &[enter()]).unwrap();
    match result {
        FlowOutcome::Done(choice) => {
            assert_eq!(choice, BranchChoice::Existing("main".to_string()));
        }
        FlowOutcome::Continue => panic!("expected Done"),
    }
}

#[test]
fn create_new_branch() {
    let mut picker = AddPicker::new(vec!["main".into(), "develop".into()], Some("main".into()));
    let mut events: Vec<Event> = Vec::new();
    // Navigate down past items to "Create a new branch" extra option
    events.push(key_event(KeyCode::Down)); // develop
    events.push(key_event(KeyCode::Down)); // extra: Create a new branch
    events.push(enter()); // select extra
    // Type new branch name
    events.extend(type_string("feature-x"));
    events.push(enter());
    // Accept default base
    events.push(enter());

    let result = feed_picker(&mut picker, &events).unwrap();
    match result {
        FlowOutcome::Done(choice) => {
            assert_eq!(
                choice,
                BranchChoice::New {
                    name: "feature-x".to_string(),
                    base: "main".to_string(),
                }
            );
        }
        FlowOutcome::Continue => panic!("expected Done"),
    }
}

#[test]
fn esc_from_new_name_returns_to_list() {
    let mut picker = AddPicker::new(vec!["main".into(), "develop".into()], Some("main".into()));
    let events = vec![
        key_event(KeyCode::Down),
        key_event(KeyCode::Down),
        enter(),
        esc(),
    ];

    let result = feed_picker(&mut picker, &events).unwrap();
    assert!(matches!(result, FlowOutcome::Continue));
    assert!(matches!(picker.step, AddStep::SelectBranch));
}

#[test]
fn empty_branches_starts_at_new_name() {
    let mut picker = AddPicker::new(vec![], Some("main".into()));
    // Should start at NewBranchName step
    assert!(matches!(picker.step, AddStep::NewBranchName));

    // Type a name and submit
    let mut events: Vec<Event> = Vec::new();
    events.extend(type_string("new-feature"));
    events.push(enter());
    events.push(enter()); // accept default base

    let result = feed_picker(&mut picker, &events).unwrap();
    match result {
        FlowOutcome::Done(choice) => {
            assert_eq!(
                choice,
                BranchChoice::New {
                    name: "new-feature".to_string(),
                    base: "main".to_string(),
                }
            );
        }
        FlowOutcome::Continue => panic!("expected Done"),
    }
}

#[test]
fn esc_on_list_cancels() {
    let mut picker = AddPicker::new(vec!["main".into()], None);
    let err = feed_picker(&mut picker, &[esc()]).unwrap_err();
    assert_eq!(err, FlowError::Cancelled);
    assert_eq!(err.message(), "cancelled");
}

#[test]
fn esc_on_name_without_branches_cancels() {
    let mut picker = AddPicker::new(vec![], None);
    let err = feed_picker(&mut picker, &[key_char('x'), esc()]).unwrap_err();
    assert_eq!(err, FlowError::Cancelled);
}

#[test]
fn empty_name_is_not_taken() {
    let mut picker = AddPicker::new(vec![], None);
    let result = feed_picker(&mut picker, &[enter(), enter()]).unwrap();
    assert!(matches!(result, FlowOutcome::Continue));
    assert!(matches!(picker.step, AddStep::NewBranchName));
}

#[test]
fn base_falls_back_to_main_and_can_be_typed() {
    let mut picker = AddPicker::new(vec![], None);
    let mut events = type_string("x");
    events.push(enter());
    feed_picker(&mut picker, &events).unwrap();
    match &picker.step {
        AddStep::BaseBranch { new_name } => assert_eq!(new_name, "x"),
        _ => panic!("expected the base screen"),
    }
    assert_eq!(picker.input.label, "Base branch for 'x'");
    assert_eq!(picker.input.default.as_deref(), Some("main"));
    assert_eq!(picker.input.value, "");
    let mut events = type_string("develop");
    events.push(enter());
    match feed_picker(&mut picker, &events).unwrap() {
        FlowOutcome::Done(choice) => assert_eq!(
            choice,
            BranchChoice::New {
                name: "x".to_string(),
                base: "develop".to_string(),
            }
        ),
        FlowOutcome::Continue => panic!("expected Done"),
    }
}

#[test]
fn esc_from_base_keeps_the_typed_name() {
    let mut picker = AddPicker::new(vec!["main".into()], Some("trunk".into()));
    let mut events = vec![key_event(KeyCode::Down), enter()];
    events.extend(type_string("f\u{e9}e"));
    events.push(enter());
    events.push(esc());
    let result = feed_picker(&mut picker, &events).unwrap();
    assert!(matches!(result, FlowOutcome::Continue));
    assert!(matches!(picker.step, AddStep::NewBranchName));
    assert_eq!(picker.input.label, "New branch name");
    assert_eq!(picker.input.value, "f\u{e9}e");
    assert_eq!(picker.input.cursor, 4);
    assert_eq!(picker.input.default, None);
}

#[test]
fn filter_then_select_gives_listed_branch() {
    let mut picker = AddPicker::new(
        vec!["main".into(), "develop".into(), "feature-y".into()],
        None,
    );
    let mut events = type_string("FEAT");
    events.push(enter());
    match feed_picker(&mut picker, &events).unwrap() {
        FlowOutcome::Done(choice) => {
            assert_eq!(choice, BranchChoice::Existing("feature-y".to_string()))
        }
        FlowOutcome::Continue => panic!("expected Done"),
    }
}

#[test]
fn interrupt_ends_the_flow_on_every_screen() {
    let interrupt = Event::Key(KeyEvent { code: KeyCode::Char('c'), modifiers: MOD_CONTROL });
    let mut picker = AddPicker::new(vec!["main".into()], None);
    assert_eq!(picker.handle_event(&interrupt).unwrap_err(), FlowError::Interrupted);
    let mut picker = AddPicker::new(vec![], None);
    assert_eq!(picker.handle_event(&interrupt).unwrap_err(), FlowError::Interrupted);
    feed_picker(&mut picker, &[key_char('x'), enter()]).unwrap();
    assert_eq!(picker.handle_event(&interrupt).unwrap_err(), FlowError::Interrupted);
    assert_eq!(FlowError::Interrupted.message(), "interrupted");
}

#[test]
fn checkout_command_by_source() {
    assert_eq!(
        checkout_command("/p/x", "x", &BranchSource::Local),
        vec!["worktree", "add", "/p/x", "x"]
    );
    assert_eq!(
        checkout_command("/p/f-x", "f/x", &BranchSource::Remote),
        vec!["worktree", "add", "--track", "-b", "f/x", "/p/f-x", "origin/f/x"]
    );
    assert_eq!(
        checkout_command("/p/x", "x", &BranchSource::New { base: "main".to_string() }),
        vec!["worktree", "add", "-b", "x", "/p/x", "main"]
    );
}

#[test]
fn base_prompt_offers_the_default_and_takes_what_is_typed() {
    let mut prompt = BasePrompt::new("topic", "main");
    assert_eq!(prompt.input.label, "Base branch for new branch 'topic'");
    assert_eq!(prompt.input.default.as_deref(), Some("main"));
    match prompt.handle_event(&enter()).unwrap() {
        FlowOutcome::Done(base) => assert_eq!(base, "main"),
        FlowOutcome::Continue => panic!("expected Done"),
    }
    assert!(matches!(prompt.handle_event(&key_char('d')).unwrap(), FlowOutcome::Continue));
    match prompt.handle_event(&enter()).unwrap() {
        FlowOutcome::Done(base) => assert_eq!(base, "d"),
        FlowOutcome::Continue => panic!("expected Done"),
    }
    assert_eq!(prompt.handle_event(&esc()).unwrap_err(), FlowError::Cancelled);
    let interrupt = Event::Key(KeyEvent { code: KeyCode::Char('c'), modifiers: MOD_CONTROL });
    assert_eq!(prompt.handle_event(&interrupt).unwrap_err(), FlowError::Interrupted);
}
