use grov::commands::init::{detect_default_branch_remote, InitWizard, WizardResult};
use grov::tui::event::{Event, KeyCode};
use grov::tui::{FlowError, FlowOutcome};

fn key_event(code: KeyCode) -> Event {
    Event::press(code)
}

fn key_char(c: char) -> Event {
    key_event(KeyCode::Char(c))
}

fn type_string(s: &str) -> Vec<Event> {
    s.chars().map(key_char).collect()
}

fn enter() -> Event {
    key_event(KeyCode::Enter)
}

fn esc() -> Event {
    key_event(KeyCode::Esc)
}

fn feed_wizard(
    wizard: &mut InitWizard,
    events: &[Event],
) -> Result<FlowOutcome<WizardResult>, FlowError> {
    for ev in events {
        match wizard.handle_event(ev)? {
            FlowOutcome::Done(r) => return Ok(FlowOutcome::Done(r)),
            FlowOutcome::Continue => {}
        }
    }
    Ok(FlowOutcome::Continue)
}

fn new_test_wizard() -> InitWizard {
    let mut w = InitWizard::new();
    w.skip_detection = true;
    w
}

#[test]
fn wizard_full_flow() {
    let mut wizard = new_test_wizard();

    let mut events: Vec<Event> = Vec::new();
    // Step 0: type URL + Enter
    events.extend(type_string("https://github.com/user/repo.git"));
    events.push(enter());
    // Step 1: type name + Enter
    events.extend(type_string("myproject"));
    events.push(enter());
    // Step 2: type prefix + Enter
    events.extend(type_string("mp"));
    events.push(enter());
    // Step 3: type branch + Enter
    events.extend(type_string("develop"));
    events.push(enter());
    // Step 4: Right (to Yes) + Enter
    events.push(key_event(KeyCode::Right));
    events.push(enter());

    let result = feed_wizard(&mut wizard, &events).unwrap();
    match result {
        FlowOutcome::Done(r) => {
            assert_eq!(r.url, "https://github.com/user/repo.git");
            assert_eq!(r.name, "myproject");
            assert_eq!(r.prefix, "mp");
            assert_eq!(r.branch, "develop");
        }
        FlowOutcome::Continue => panic!("expected Done"),
    }
}

#[test]
fn wizard_default_branch_used() {
    let mut wizard = new_test_wizard();
    wizard.detected_branch = Some("master".to_string());

    let mut events: Vec<Event> = Vec::new();
    // Step 0: URL
    events.extend(type_string("https://example.com/repo"));
    events.push(enter());
    // Step 1: name (accept default)
    events.push(enter());
    // Step 2: prefix (accept default)
    events.push(enter());
    // Step 3: branch, submitted empty to use the default (detected "master")
    events.push(enter());
    // Step 4: confirm Yes
    events.push(key_char('y'));

    let result = feed_wizard(&mut wizard, &events).unwrap();
    match result {
        FlowOutcome::Done(r) => {
            assert_eq!(r.branch, "master");
        }
        FlowOutcome::Continue => panic!("expected Done"),
    }
}

#[test]
fn wizard_esc_goes_back() {
    let mut wizard = new_test_wizard();

    let mut events: Vec<Event> = Vec::new();
    // Step 0: URL
    events.extend(type_string("https://example.com/repo"));
    events.push(enter());
    // Step 1: name
    events.extend(type_string("proj"));
    events.push(enter());
    // Now at step 2, press Esc to go back
    events.push(esc());

    feed_wizard(&mut wizard, &events).unwrap();
    assert_eq!(wizard.step, 1);
}

#[test]
fn wizard_esc_at_step0_cancels() {
    let mut wizard = new_test_wizard();
    let result = feed_wizard(&mut wizard, &[esc()]);
    assert!(result.is_err());
    assert!(result.unwrap_err().message().contains("cancelled"));
}

#[test]
fn wizard_confirm_no_cancels() {
    let mut wizard = new_test_wizard();

    let mut events: Vec<Event> = Vec::new();
    events.extend(type_string("https://example.com/repo"));
    events.push(enter());
    events.push(enter()); // name default
    events.push(enter()); // prefix default
    events.push(enter()); // branch default
    // At confirm, press 'n'
    events.push(key_char('n'));

    let result = feed_wizard(&mut wizard, &events);
    assert!(result.is_err());
    assert!(result.unwrap_err().message().contains("cancelled"));
}

#[test]
fn wizard_defaults_are_derived() {
    let mut wizard = new_test_wizard();
    let mut events = type_string("https://example.com/user/tool.git");
    events.push(enter());
    feed_wizard(&mut wizard, &events).unwrap();
    assert_eq!(wizard.step, 1);
    assert_eq!(wizard.input.label, "Project name");
    assert_eq!(wizard.input.default.as_deref(), Some("tool"));
    events = vec![enter(), enter(), enter(), key_char('Y')];
    match feed_wizard(&mut wizard, &events).unwrap() {
        FlowOutcome::Done(r) => assert_eq!(
            r,
            WizardResult {
                url: "https://example.com/user/tool.git".to_string(),
                name: "tool".to_string(),
                prefix: String::new(),
                branch: "main".to_string(),
            }
        ),
        FlowOutcome::Continue => panic!("expected Done"),
    }
}

#[test]
fn wizard_esc_at_name_returns_to_url_with_value() {
    let mut wizard = new_test_wizard();
    let mut events = type_string("https://example.com/repo");
    events.push(enter());
    events.push(esc());
    let result = feed_wizard(&mut wizard, &events).unwrap();
    assert!(matches!(result, FlowOutcome::Continue));
    assert_eq!(wizard.step, 0);
    assert_eq!(wizard.input.label, "Repository URL");
    assert_eq!(wizard.input.value, "https://example.com/repo");
    assert_eq!(wizard.input.cursor, "https://example.com/repo".len());
    assert_eq!(wizard.input.result(), "https://example.com/repo");
}

#[test]
fn wizard_name_default_follows_a_changed_url() {
    let mut wizard = new_test_wizard();
    let mut events = type_string("a/one");
    events.push(enter());
    events.push(esc());
    for _ in 0..3 {
        events.push(key_event(KeyCode::Backspace));
    }
    events.extend(type_string("two.git"));
    events.push(enter());
    feed_wizard(&mut wizard, &events).unwrap();
    assert_eq!(wizard.step, 1);
    assert_eq!(wizard.url, "a/two.git");
    assert_eq!(wizard.input.default.as_deref(), Some("two"));
    assert_eq!(wizard.input.value, "");
}

#[test]
fn wizard_empty_url_is_not_taken() {
    let mut wizard = new_test_wizard();
    let result = feed_wizard(&mut wizard, &[enter()]).unwrap();
    assert!(matches!(result, FlowOutcome::Continue));
    assert_eq!(wizard.step, 0);
}

#[test]
fn wizard_esc_from_confirm_returns_to_branch() {
    let mut wizard = new_test_wizard();
    let mut events = type_string("u");
    events.push(enter());
    events.push(enter());
    events.push(enter());
    events.extend(type_string("dev"));
    events.push(enter());
    feed_wizard(&mut wizard, &events).unwrap();
    assert_eq!(wizard.step, 4);
    feed_wizard(&mut wizard, &[key_event(KeyCode::Tab), esc()]).unwrap();
    assert_eq!(wizard.step, 3);
    assert_eq!(wizard.input.value, "dev");
    assert_eq!(wizard.input.label, "Default branch");
    feed_wizard(&mut wizard, &[enter()]).unwrap();
    assert_eq!(wizard.step, 4);
    assert!(!wizard.confirm.selected);
    assert_eq!(wizard.confirm.label, "Proceed with initialization?");
}

#[test]
fn wizard_asks_for_a_probe_when_the_url_is_entered() {
    let mut wizard = InitWizard::new();
    assert_eq!(wizard.probe_request(), None);
    let mut events = type_string("https://example.com/repo");
    events.push(enter());
    feed_wizard(&mut wizard, &events).unwrap();
    assert_eq!(wizard.probe_request().as_deref(), Some("https://example.com/repo"));
    wizard.set_detected_branch(detect_default_branch_remote(
        "ref: refs/heads/trunk\tHEAD\n0123456789abcdef\tHEAD",
    ));
    assert_eq!(wizard.probe_request(), None);
    match feed_wizard(&mut wizard, &[enter(), enter(), enter(), key_char('y')]).unwrap() {
        FlowOutcome::Done(r) => assert_eq!(r.branch, "trunk"),
        FlowOutcome::Continue => panic!("expected Done"),
    }
}

#[test]
fn wizard_without_detection_asks_for_no_probe() {
    let mut wizard = new_test_wizard();
    let mut events = type_string("u");
    events.push(enter());
    feed_wizard(&mut wizard, &events).unwrap();
    assert_eq!(wizard.probe_request(), None);
}

#[test]
fn detect_reads_the_head_reference() {
    assert_eq!(
        detect_default_branch_remote("ref: refs/heads/main\tHEAD\nabc\tHEAD").as_deref(),
        Some("main")
    );
    assert_eq!(
        detect_default_branch_remote("abc\tHEAD\r\nref: refs/heads/feature/x\tHEAD\r\n")
            .as_deref(),
        Some("feature/x")
    );
    assert_eq!(
        detect_default_branch_remote("ref: refs/heads/no-tab").as_deref(),
        Some("no-tab")
    );
    assert_eq!(
        detect_default_branch_remote("ref: refs/heads/\tHEAD").as_deref(),
        Some("")
    );
    assert_eq!(detect_default_branch_remote("ref: refs/tags/v1\tHEAD"), None);
    assert_eq!(detect_default_branch_remote(" ref: refs/heads/main\tHEAD"), None);
    assert_eq!(detect_default_branch_remote(""), None);
}

#[test]
fn step_defaults_follow_what_was_entered() {
    let mut wizard = new_test_wizard();
    assert_eq!(wizard.default_for(0), None);
    assert_eq!(wizard.default_for(2), Some(String::new()));
    assert_eq!(wizard.default_for(3).as_deref(), Some("main"));
    wizard.url = "git@example.com:team/app.git".to_string();
    wizard.detected_branch = Some("trunk".to_string());
    assert_eq!(wizard.default_for(1).as_deref(), Some("app"));
    assert_eq!(wizard.default_for(3).as_deref(), Some("trunk"));
}
