use ratatui::backend::TestBackend;
use ratatui::layout::Rect as CellRect;
use ratatui::style::{Color, Modifier, Style as CellStyle};
use ratatui::text::{Line, Span as CellSpan};
use ratatui::widgets::{List, ListItem, ListState, Paragraph};
use ratatui::Terminal;

use grov::commands::add::AddPicker;
use grov::commands::init::InitWizard;
use grov::commands::remove::RemovePicker;
use grov::git::worktree::WorktreeInfo;
use grov::tui::confirm::Confirm;
use grov::tui::event::{Event, KeyCode};
use grov::tui::select_list::SelectList;
use grov::tui::step_bar::StepBar;
use grov::tui::surface::{Draw, Frame, Rect, Span, HIGHLIGHT_SYMBOL};
use grov::tui::text_input::TextInput;
use grov::tui::theme::Style;

fn key_event(code: KeyCode) -> Event {
    Event::press(code)
}

fn test_terminal(w: u16, h: u16) -> Terminal<TestBackend> {
    Terminal::new(TestBackend::new(w, h)).expect("failed to create test terminal")
}

/// Join all cells in the backend buffer into a single string (rows joined by newlines).
fn buffer_text(terminal: &Terminal<TestBackend>) -> String {
    let buf = terminal.backend().buffer();
    let area = *buf.area();
    let mut lines = Vec::new();
    for y in area.y..area.y + area.height {
        let mut line = String::new();
        for x in area.x..area.x + area.width {
            let cell = &buf[(x, y)];
            line.push_str(cell.symbol());
        }
        lines.push(line);
    }
    lines.join("\n")
}

fn style_of(style: Style) -> CellStyle {
    match style {
        Style::Cyan => CellStyle::new().fg(Color::Cyan).add_modifier(Modifier::BOLD),
        Style::Green => CellStyle::new().fg(Color::Green).add_modifier(Modifier::BOLD),
        Style::Dim => CellStyle::new().add_modifier(Modifier::DIM),
        Style::Highlight => CellStyle::new().fg(Color::Cyan),
        Style::Normal => CellStyle::new(),
        Style::Error => CellStyle::new().fg(Color::Red),
    }
}

fn span_of(span: &Span) -> CellSpan<'_> {
    CellSpan::styled(span.text.as_str(), style_of(span.style))
}

fn rect_of(area: Rect) -> CellRect {
    CellRect::new(area.x, area.y, area.width, area.height)
}

/// Paints what was drawn on the surface into the terminal and gives the text.
fn painted(w: u16, h: u16, drawn: &Frame) -> String {
    let mut terminal = test_terminal(w, h);
    terminal
        .draw(|frame| {
            for op in &drawn.ops {
                match op {
                    Draw::Line { area, spans } => {
                        let line = Line::from(spans.iter().map(span_of).collect::<Vec<_>>());
                        frame.render_widget(Paragraph::new(line), rect_of(*area));
                    }
                    Draw::List { area, items, selected } => {
                        let rows: Vec<ListItem> =
                            items.iter().map(|item| ListItem::new(span_of(item))).collect();
                        let list = List::new(rows)
                            .highlight_symbol(HIGHLIGHT_SYMBOL)
                            .highlight_style(style_of(Style::Highlight));
                        let mut state = ListState::default();
                        state.select(*selected);
                        frame.render_stateful_widget(list, rect_of(*area), &mut state);
                    }
                    Draw::Cursor { x, y } => frame.set_cursor_position((*x, *y)),
                }
            }
        })
        .unwrap();
    buffer_text(&terminal)
}

fn surface(w: u16, h: u16) -> Frame {
    Frame::new(Rect::new(0, 0, w, h))
}

fn line_texts(op: &Draw) -> Vec<(String, Style)> {
    match op {
        Draw::Line { spans, .. } => spans.iter().map(|s| (s.text.clone(), s.style)).collect(),
        _ => panic!("expected a line"),
    }
}

#[test]
fn renders_label() {
    let mut frame = surface(60, 5);
    let input = TextInput::new("Repository URL");
    input.render(&mut frame, Rect::new(0, 0, 60, 5));
    let text = painted(60, 5, &frame);
    assert!(text.contains("Repository URL"), "expected label in: {text}");
}

#[test]
fn renders_value() {
    let mut frame = surface(60, 5);
    let input = TextInput::new("test").with_initial("hello world");
    input.render(&mut frame, Rect::new(0, 0, 60, 5));
    let text = painted(60, 5, &frame);
    assert!(text.contains("> hello world"), "expected value in: {text}");
}

#[test]
fn renders_default_when_empty() {
    let mut frame = surface(60, 5);
    let input = TextInput::new("test").with_default("main");
    input.render(&mut frame, Rect::new(0, 0, 60, 5));
    let text = painted(60, 5, &frame);
    assert!(text.contains("> main"), "expected default in: {text}");
}

#[test]
fn text_input_draws_label_input_line_and_cursor() {
    let mut frame = surface(60, 5);
    let mut input = TextInput::new("Name").with_default("dflt").with_initial("h\u{e9}llo");
    input.move_left();
    input.render(&mut frame, Rect::new(2, 1, 40, 3));
    assert_eq!(frame.ops.len(), 3);
    match &frame.ops[0] {
        Draw::Line { area, .. } => assert_eq!(*area, Rect::new(2, 1, 40, 1)),
        _ => panic!("expected a line"),
    }
    assert_eq!(
        line_texts(&frame.ops[0]),
        vec![("  ? ".to_string(), Style::Cyan), ("Name".to_string(), Style::Cyan)]
    );
    match &frame.ops[1] {
        Draw::Line { area, .. } => assert_eq!(*area, Rect::new(2, 2, 40, 1)),
        _ => panic!("expected a line"),
    }
    assert_eq!(line_texts(&frame.ops[1]), vec![("  > h\u{e9}llo".to_string(), Style::Normal)]);
    // Four characters in front of the cursor, behind the four of the prompt.
    match &frame.ops[2] {
        Draw::Cursor { x, y } => assert_eq!((*x, *y), (2 + 4 + 4, 2)),
        _ => panic!("expected the cursor"),
    }

    let mut frame = surface(60, 5);
    TextInput::new("Name").with_default("dflt").render(&mut frame, Rect::new(0, 0, 60, 5));
    assert_eq!(line_texts(&frame.ops[1]), vec![("  > dflt".to_string(), Style::Dim)]);
    let mut frame = surface(60, 5);
    TextInput::new("Name").render(&mut frame, Rect::new(0, 0, 60, 5));
    assert_eq!(line_texts(&frame.ops[1]), vec![("  > ".to_string(), Style::Normal)]);
}

#[test]
fn text_input_cursor_column_saturates() {
    let mut frame = surface(60, 5);
    let input = TextInput::new("n").with_initial("abc");
    input.render(&mut frame, Rect::new(u16::MAX - 2, u16::MAX, 5, 5));
    match &frame.ops[2] {
        Draw::Cursor { x, y } => assert_eq!((*x, *y), (u16::MAX, u16::MAX)),
        _ => panic!("expected the cursor"),
    }
}

#[test]
fn renders_label_and_buttons() {
    let mut frame = surface(60, 10);
    let confirm = Confirm::new("Proceed with init?");
    confirm.render(&mut frame, Rect::new(0, 0, 60, 10));
    let text = painted(60, 10, &frame);
    assert!(
        text.contains("Proceed with init?"),
        "expected label in: {text}"
    );
    assert!(text.contains("No"), "expected 'No' in: {text}");
    assert!(text.contains("Yes"), "expected 'Yes' in: {text}");
}

#[test]
fn renders_selected_button() {
    let mut confirm = Confirm::new("test?");
    // Default: No is selected, shown as [No]
    let mut frame = surface(60, 10);
    confirm.render(&mut frame, Rect::new(0, 0, 60, 10));
    let text = painted(60, 10, &frame);
    assert!(text.contains("[No]"), "expected '[No]' in: {text}");

    // Toggle to Yes, shown as [Yes]
    confirm.handle_event(&key_event(KeyCode::Right));
    let mut frame = surface(60, 10);
    confirm.render(&mut frame, Rect::new(0, 0, 60, 10));
    let text = painted(60, 10, &frame);
    assert!(text.contains("[Yes]"), "expected '[Yes]' in: {text}");
}

#[test]
fn confirm_draws_buttons_on_the_third_row() {
    let mut frame = surface(60, 10);
    Confirm::new("q?").render(&mut frame, Rect::new(1, 4, 30, 5));
    assert_eq!(frame.ops.len(), 2);
    match &frame.ops[1] {
        Draw::Line { area, .. } => assert_eq!(*area, Rect::new(1, 6, 30, 1)),
        _ => panic!("expected a line"),
    }
    assert_eq!(
        line_texts(&frame.ops[1]),
        vec![
            ("      ".to_string(), Style::Normal),
            (" [No]  ".to_string(), Style::Highlight),
            ("   ".to_string(), Style::Normal),
            ("  Yes  ".to_string(), Style::Dim),
        ]
    );
}

#[test]
fn renders_label_and_items() {
    let mut frame = surface(60, 20);
    let list = SelectList::new(
        "Pick a branch",
        vec!["main".into(), "develop".into(), "feature-x".into()],
        vec![],
    );
    list.render(&mut frame, Rect::new(0, 0, 60, 20));
    let text = painted(60, 20, &frame);
    assert!(text.contains("Pick a branch"), "expected label in: {text}");
    assert!(text.contains("main"), "expected 'main' in: {text}");
    assert!(text.contains("develop"), "expected 'develop' in: {text}");
    assert!(
        text.contains("feature-x"),
        "expected 'feature-x' in: {text}"
    );
}

#[test]
fn renders_filtered_items() {
    let mut frame = surface(60, 20);
    let mut list = SelectList::new(
        "Pick",
        vec!["main".into(), "develop".into(), "feature-x".into()],
        vec![],
    );
    list.filter = "dev".to_string();
    list.update_filter();
    list.render(&mut frame, Rect::new(0, 0, 60, 20));
    let text = painted(60, 20, &frame);
    assert!(text.contains("develop"), "expected 'develop' in: {text}");
    // "main" should not appear as a list item
    assert!(
        !text.contains("    main"),
        "should not have 'main' as item: {text}"
    );
}

#[test]
fn renders_extra_options() {
    let mut frame = surface(60, 20);
    let list = SelectList::new(
        "Pick",
        vec!["main".into()],
        vec!["Create a new branch".into()],
    );
    list.render(&mut frame, Rect::new(0, 0, 60, 20));
    let text = painted(60, 20, &frame);
    assert!(
        text.contains("Create a new branch"),
        "expected extra option in: {text}"
    );
}

#[test]
fn list_marker_skips_the_separator_row() {
    let mut list = SelectList::new(
        "Pick",
        vec!["main".into(), "develop".into()],
        vec!["Create".into(), "Other".into()],
    );
    let selected_row = |list: &SelectList| {
        let mut frame = surface(60, 20);
        list.render(&mut frame, Rect::new(0, 0, 60, 20));
        match &frame.ops[2] {
            Draw::List { area, items, selected } => {
                assert_eq!(*area, Rect::new(0, 3, 60, 5));
                assert_eq!(items.len(), 5);
                assert_eq!(items[2].style, Style::Dim);
                *selected
            }
            _ => panic!("expected the list"),
        }
    };
    assert_eq!(selected_row(&list), Some(0));
    list.move_down();
    assert_eq!(selected_row(&list), Some(1));
    list.move_down();
    assert_eq!(list.selected(), Some(2));
    assert_eq!(selected_row(&list), Some(3));
    list.move_down();
    assert_eq!(selected_row(&list), Some(4));

    let mut frame = surface(60, 20);
    list.render(&mut frame, Rect::new(0, 0, 60, 20));
    let text = painted(60, 20, &frame);
    let marked: Vec<&str> = text.lines().filter(|l| l.contains('\u{276f}')).collect();
    assert_eq!(marked.len(), 1);
    assert!(marked[0].contains("Other"), "marker on the wrong row: {text}");
}

#[test]
fn list_without_extras_has_no_separator_and_fits_the_area() {
    let list = SelectList::new("Pick", vec!["a".into(), "b".into(), "c".into()], vec![]);
    let mut frame = surface(60, 7);
    list.render(&mut frame, Rect::new(0, 0, 60, 7));
    match &frame.ops[2] {
        Draw::List { area, items, selected } => {
            // Seven rows leave two for the list: three above it, two free below.
            assert_eq!(*area, Rect::new(0, 3, 60, 2));
            assert_eq!(items.len(), 3);
            assert_eq!(items[0].text, "    a");
            assert_eq!(*selected, Some(0));
        }
        _ => panic!("expected the list"),
    }
    assert_eq!(
        line_texts(&frame.ops[1]),
        vec![("  > (type to filter)".to_string(), Style::Dim)]
    );
}

#[test]
fn renders_step_names() {
    let mut frame = surface(80, 3);
    let step_bar = StepBar::new(&["URL", "Name", "Prefix", "Branch", "Confirm"], 2);
    step_bar.render(&mut frame, Rect::new(0, 0, 80, 1));
    let text = painted(80, 3, &frame);
    assert!(text.contains("URL"), "expected 'URL' in: {text}");
    assert!(text.contains("Name"), "expected 'Name' in: {text}");
    assert!(text.contains("Prefix"), "expected 'Prefix' in: {text}");
    assert!(text.contains("Branch"), "expected 'Branch' in: {text}");
    assert!(text.contains("Confirm"), "expected 'Confirm' in: {text}");
}

#[test]
fn renders_completed_marker() {
    let mut frame = surface(80, 3);
    // Step 2 means steps 0,1 are completed, step 2 is current
    let step_bar = StepBar::new(&["URL", "Name", "Prefix", "Branch", "Confirm"], 2);
    step_bar.render(&mut frame, Rect::new(0, 0, 80, 1));
    let text = painted(80, 3, &frame);
    // Completed steps should have the check mark
    assert!(text.contains("\u{2713}"), "expected checkmark in: {text}");
    // Current step should have the bullet marker
    assert!(
        text.contains("\u{25cf}"),
        "expected bullet marker in: {text}"
    );
}

#[test]
fn step_bar_marks_each_step_by_its_place() {
    let mut frame = surface(80, 3);
    StepBar::new(&["A", "B", "C"], 1).render(&mut frame, Rect::new(0, 0, 80, 1));
    assert_eq!(
        line_texts(&frame.ops[0]),
        vec![
            ("  ".to_string(), Style::Normal),
            ("\u{2713} ".to_string(), Style::Green),
            ("A".to_string(), Style::Green),
            ("  \u{203a}  ".to_string(), Style::Dim),
            ("\u{25cf} ".to_string(), Style::Cyan),
            ("B".to_string(), Style::Cyan),
            ("  \u{203a}  ".to_string(), Style::Dim),
            ("C".to_string(), Style::Dim),
        ]
    );
    let mut frame = surface(80, 3);
    StepBar::new(&[], 0).render(&mut frame, Rect::new(0, 0, 80, 1));
    assert_eq!(line_texts(&frame.ops[0]), vec![("  ".to_string(), Style::Normal)]);
}

#[test]
fn renders_branch_list() {
    let picker = AddPicker::new(
        vec!["main".into(), "develop".into(), "feature-y".into()],
        Some("main".into()),
    );
    let mut frame = surface(80, 24);
    picker.render(&mut frame);
    let text = painted(80, 24, &frame);
    assert!(text.contains("main"), "expected 'main' in: {text}");
    assert!(text.contains("develop"), "expected 'develop' in: {text}");
    assert!(
        text.contains("feature-y"),
        "expected 'feature-y' in: {text}"
    );
}

#[test]
fn add_picker_base_screen_names_the_new_branch() {
    let mut picker = AddPicker::new(vec![], Some("trunk".into()));
    for c in "topic".chars() {
        picker.handle_event(&key_event(KeyCode::Char(c))).unwrap();
    }
    picker.handle_event(&key_event(KeyCode::Enter)).unwrap();
    let mut frame = surface(80, 24);
    picker.render(&mut frame);
    let text = painted(80, 24, &frame);
    assert!(text.contains("New branch: topic"), "expected the name in: {text}");
    assert!(text.contains("Base branch for 'topic'"), "expected the label in: {text}");
    assert!(text.contains("> trunk"), "expected the default in: {text}");
    assert!(text.contains("Enter confirm"), "expected the help in: {text}");
}

#[test]
fn wizard_renders_completed_fields() {
    let mut wizard = InitWizard::new();
    wizard.skip_detection = true;

    // Advance past step 0 (URL)
    for c in "https://example.com/repo".chars() {
        wizard.handle_event(&key_event(KeyCode::Char(c))).unwrap();
    }
    wizard.handle_event(&key_event(KeyCode::Enter)).unwrap();

    // Render and check that URL value appears
    let mut frame = surface(80, 24);
    wizard.render(&mut frame);
    let text = painted(80, 24, &frame);
    assert!(
        text.contains("https://example.com/repo"),
        "expected URL in rendered output: {text}"
    );
}

#[test]
fn wizard_shows_none_for_an_empty_prefix() {
    let mut wizard = InitWizard::new();
    wizard.skip_detection = true;
    wizard.handle_event(&key_event(KeyCode::Char('u'))).unwrap();
    for _ in 0..3 {
        wizard.handle_event(&key_event(KeyCode::Enter)).unwrap();
    }
    assert_eq!(wizard.step, 3);
    let mut frame = surface(80, 24);
    wizard.render(&mut frame);
    let text = painted(80, 24, &frame);
    let rows: Vec<&str> = text.lines().collect();
    assert!(rows[3].starts_with("  URL:        u"), "row 3 in: {text}");
    assert!(rows[4].starts_with("  Name:       u"), "row 4 in: {text}");
    assert!(rows[5].starts_with("  Prefix:   (none)"), "row 5 in: {text}");
    assert!(rows[7].contains("Default branch"), "row 7 in: {text}");
    assert!(rows[8].starts_with("  > main"), "row 8 in: {text}");
    assert!(rows[23].contains("Esc back"), "help in: {text}");
}

#[test]
fn wizard_first_step_draws_bar_field_and_help() {
    let wizard = InitWizard::new();
    let mut frame = surface(80, 24);
    wizard.render(&mut frame);
    assert_eq!(frame.ops.len(), 5);
    let text = painted(80, 24, &frame);
    let rows: Vec<&str> = text.lines().collect();
    assert!(rows[1].contains("\u{25cf} URL"), "bar in: {text}");
    assert!(rows[3].contains("Repository URL"), "label in: {text}");
    assert!(rows[23].contains("Enter confirm"), "help in: {text}");
    assert!(!rows[23].contains("Esc back"), "help in: {text}");
}

#[test]
fn remove_picker_renders_list_then_question() {
    let worktrees = vec![
        WorktreeInfo {
            path: "/p/repo.git".to_string(),
            head: "0".to_string(),
            branch: None,
            is_bare: true,
        },
        WorktreeInfo {
            path: "/p/dev_main".to_string(),
            head: "1".to_string(),
            branch: Some("main".to_string()),
            is_bare: false,
        },
    ];
    let mut picker = RemovePicker::new(worktrees, false);
    let mut frame = surface(80, 24);
    picker.render(&mut frame);
    let text = painted(80, 24, &frame);
    assert!(text.contains("Select a worktree to remove"), "label in: {text}");
    assert!(text.contains("main (dev_main)"), "entry in: {text}");
    assert!(!text.contains("repo.git"), "bare entry in: {text}");

    picker.handle_event(&key_event(KeyCode::Enter)).unwrap();
    let mut frame = surface(80, 24);
    picker.render(&mut frame);
    let text = painted(80, 24, &frame);
    assert!(text.contains("Delete branch 'main' too?"), "question in: {text}");
    assert!(text.contains("[No]"), "buttons in: {text}");
    assert!(text.contains("y/n"), "help in: {text}");
}

#[test]
fn rect_is_cut_at_the_last_column_and_row() {
    let r = Rect::new(65530, 65534, 10, 10);
    assert_eq!((r.x, r.y, r.width, r.height), (65530, 65534, 5, 1));
    let r = Rect::new(3, 4, 10, 20);
    assert_eq!((r.x, r.y, r.width, r.height), (3, 4, 10, 20));
    let r = Rect::new(u16::MAX, 0, u16::MAX, u16::MAX);
    assert_eq!((r.x, r.y, r.width, r.height), (u16::MAX, 0, 0, u16::MAX));
    let row = Rect::new(65530, 65530, 100, 3).row(7);
    assert_eq!((row.x, row.y, row.width, row.height), (65530, u16::MAX, 5, 0));
    let row = Rect::new(1, 2, 30, 3).row(2);
    assert_eq!((row.x, row.y, row.width, row.height), (1, 4, 30, 1));
}
