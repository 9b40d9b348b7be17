//! A yes/no question.

use vstd::prelude::*;
use crate::tui::event::{Event, KeyCode, KeyEvent, MOD_NONE};
use crate::tui::surface::{DrawModel, Frame, Rect, Span, SpanModel, spans_view};
use crate::tui::theme::Style;
use crate::tui::{FlowError, FlowOutcome};

verus! {

/// What a question answers to an event.
#[derive(Debug)]
pub enum Action {
    /// The answer.
    Confirmed(bool),
    /// Escape was pressed.
    Cancel,
    /// Nothing to report; the toggle may have moved.
    Continue,
    /// The hard interrupt was pressed.
    Interrupt,
}

/// A question with the answers "No" and "Yes". `selected` is the answer
/// that the toggle stands on: `false` for "No".
#[derive(Debug)]
pub struct Confirm {
    pub label: String,
    pub selected: bool,
}

impl Confirm {
    /// A question whose toggle stands on "No".
    pub fn new(label: &str) -> (confirm: Confirm)
        ensures
            confirm.label@ == label@,
            !confirm.selected,
    {
        Confirm { label: label.to_owned(), selected: false }
    }

    /// The key toggles between the two answers.
    pub open spec fn toggles(key: KeyCode) -> bool {
        key == KeyCode::Left || key == KeyCode::Right || key == KeyCode::Tab
    }

    /// The answer that an accelerator key gives at once, if it is one.
    pub open spec fn accelerator(key: KeyCode) -> Option<bool> {
        if key == KeyCode::Char('y') || key == KeyCode::Char('Y') {
            Some(true)
        } else if key == KeyCode::Char('n') || key == KeyCode::Char('N') {
            Some(false)
        } else {
            None
        }
    }

    /// What the question answers to `event` when its toggle stands on
    /// `selected`.
    pub open spec fn spec_action(selected: bool, event: &Event) -> Action {
        if event.is_interrupt() {
            Action::Interrupt
        } else {
            match event.key() {
                Some(KeyCode::Enter) => Action::Confirmed(selected),
                Some(KeyCode::Esc) => Action::Cancel,
                Some(key) => match Self::accelerator(key) {
                    Some(answer) => Action::Confirmed(answer),
                    None => Action::Continue,
                },
                None => Action::Continue,
            }
        }
    }

    /// The question that `event` leaves behind: Left, Right and Tab move
    /// the toggle to the other answer; nothing else changes anything.
    pub open spec fn steps_to(&self, event: &Event, next: &Confirm) -> bool {
        &&& next.label == self.label
        &&& next.selected == if event.key() is Some && Self::toggles(event.key()->0) {
            !self.selected
        } else {
            self.selected
        }
    }

    /// Reacts to one event: Enter gives the answer under the toggle, `y` and
    /// `n` in either case give their answer whatever the toggle says, Escape
    /// cancels, and Left, Right and Tab move the toggle.
    pub fn handle_event(&mut self, event: &Event) -> (action: Action)
        ensures
            action == Self::spec_action(old(self).selected, event),
            old(self).steps_to(event, final(self)),
    {
        if event.interrupts() {
            return Action::Interrupt;
        }
        match event {
            Event::Key(k) => {
                match k.code {
                    KeyCode::Enter => {
                        return Action::Confirmed(self.selected);
                    },
                    KeyCode::Esc => {
                        return Action::Cancel;
                    },
                    KeyCode::Char(c) => {
                        if c == 'y' || c == 'Y' {
                            return Action::Confirmed(true);
                        }
                        if c == 'n' || c == 'N' {
                            return Action::Confirmed(false);
                        }
                    },
                    KeyCode::Left | KeyCode::Right | KeyCode::Tab => {
                        self.selected = !self.selected;
                    },
                    _ => {},
                }
            },
            Event::Other => {},
        }
        Action::Continue
    }

    /// The two buttons, with brackets round the one under the toggle.
    pub open spec fn buttons(&self) -> Seq<SpanModel> {
        if self.selected {
            seq![
                SpanModel { text: "      "@, style: Style::Normal },
                SpanModel { text: "  No  "@, style: Style::Dim },
                SpanModel { text: "   "@, style: Style::Normal },
                SpanModel { text: " [Yes] "@, style: Style::Highlight },
            ]
        } else {
            seq![
                SpanModel { text: "      "@, style: Style::Normal },
                SpanModel { text: " [No]  "@, style: Style::Highlight },
                SpanModel { text: "   "@, style: Style::Normal },
                SpanModel { text: "  Yes  "@, style: Style::Dim },
            ]
        }
    }

    /// What the question draws in `area`: the label on the first row and
    /// the buttons on the third.
    pub open spec fn spec_render(&self, area: Rect) -> Seq<DrawModel> {
        seq![
            DrawModel::Line {
                area: area.spec_row(0),
                spans: seq![
                    SpanModel { text: "  ? "@, style: Style::Cyan },
                    SpanModel { text: self.label@, style: Style::Cyan },
                ],
            },
            DrawModel::Line { area: area.spec_row(2), spans: self.buttons() },
        ]
    }

    /// Draws the question in `area`.
    pub fn render(&self, frame: &mut Frame, area: Rect)
        ensures
            final(frame).area == old(frame).area,
            final(frame)@ == old(frame)@ + self.spec_render(area),
    {
        let label_line = vec![
            Span::styled("  ? ", Style::Cyan),
            Span::styled(self.label.as_str(), Style::Cyan),
        ];
        proof {
            assert(spans_view(label_line@) =~= seq![
                SpanModel { text: "  ? "@, style: Style::Cyan },
                SpanModel { text: self.label@, style: Style::Cyan },
            ]);
        }
        frame.line(area.row(0), label_line);

        let buttons = if self.selected {
            vec![
                Span::styled("      ", Style::Normal),
                Span::styled("  No  ", Style::Dim),
                Span::styled("   ", Style::Normal),
                Span::styled(" [Yes] ", Style::Highlight),
            ]
        } else {
            vec![
                Span::styled("      ", Style::Normal),
                Span::styled(" [No]  ", Style::Highlight),
                Span::styled("   ", Style::Normal),
                Span::styled("  Yes  ", Style::Dim),
            ]
        };
        proof {
            assert(spans_view(buttons@) =~= self.buttons());
        }
        frame.line(area.row(2), buttons);
    }
}

/// A press of `code` without modifiers.
pub open spec fn pressed(code: KeyCode) -> Event {
    Event::Key(KeyEvent { code, modifiers: MOD_NONE })
}

/// Whichever answer the toggle stands on, `y` answers "Yes" and `n`
/// answers "No", in either case of the letter.
pub proof fn law_accelerators_decide(selected: bool)
    ensures
        Confirm::spec_action(selected, &pressed(KeyCode::Char('y'))) == Action::Confirmed(true),
        Confirm::spec_action(selected, &pressed(KeyCode::Char('Y'))) == Action::Confirmed(true),
        Confirm::spec_action(selected, &pressed(KeyCode::Char('n'))) == Action::Confirmed(false),
        Confirm::spec_action(selected, &pressed(KeyCode::Char('N'))) == Action::Confirmed(false),
{
}

/// Enter answers with the answer that the toggle stands on.
pub proof fn law_enter_answers_with_toggle(selected: bool)
    ensures
        Confirm::spec_action(selected, &pressed(KeyCode::Enter)) == Action::Confirmed(selected),
{
}

/// What a flow of one question tells its loop for an action of the
/// question: an answer ends the flow with it, Escape ends it with "No",
/// the hard interrupt interrupts it, and anything else goes on.
pub open spec fn question_outcome(action: Action) -> Result<FlowOutcome<bool>, FlowError> {
    match action {
        Action::Confirmed(answer) => Ok(FlowOutcome::Done(answer)),
        Action::Cancel => Ok(FlowOutcome::Done(false)),
        Action::Interrupt => Err(FlowError::Interrupted),
        Action::Continue => Ok(FlowOutcome::Continue),
    }
}

/// Turns an action of a question into the outcome of a flow that consists
/// of that question alone.
pub fn outcome_of_question(action: Action) -> (result: Result<FlowOutcome<bool>, FlowError>)
    ensures
        result == question_outcome(action),
{
    match action {
        Action::Confirmed(answer) => Ok(FlowOutcome::Done(answer)),
        Action::Cancel => Ok(FlowOutcome::Done(false)),
        Action::Interrupt => Err(FlowError::Interrupted),
        Action::Continue => Ok(FlowOutcome::Continue),
    }
}

} // verus!
