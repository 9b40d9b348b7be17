//! A progress line over the steps of a wizard.

use vstd::prelude::*;
use crate::tui::surface::{DrawModel, Frame, Rect, Span, SpanModel, spans_view};
use crate::tui::theme::Style;

verus! {

/// The steps of a wizard and the index of the one that is active.
#[derive(Debug)]
pub struct StepBar<'a> {
    pub steps: &'a [&'a str],
    pub current: usize,
}

/// The text between two steps.
pub const STEP_SEPARATOR: &'static str = "  \u{203a}  ";

/// The mark in front of a completed step.
pub const STEP_DONE: &'static str = "\u{2713} ";

/// The mark in front of the active step.
pub const STEP_ACTIVE: &'static str = "\u{25cf} ";

/// What step `i` of a bar draws: the separator unless it is the first,
/// then the step with its mark: completed in front of the active step,
/// active at it, dimmed and unmarked behind it.
pub open spec fn step_spans(names: Seq<Seq<char>>, current: int, i: int) -> Seq<SpanModel> {
    let lead = if i > 0 {
        seq![SpanModel { text: STEP_SEPARATOR@, style: Style::Dim }]
    } else {
        seq![]
    };
    if i < current {
        lead + seq![
            SpanModel { text: STEP_DONE@, style: Style::Green },
            SpanModel { text: names[i], style: Style::Green },
        ]
    } else if i == current {
        lead + seq![
            SpanModel { text: STEP_ACTIVE@, style: Style::Cyan },
            SpanModel { text: names[i], style: Style::Cyan },
        ]
    } else {
        lead + seq![SpanModel { text: names[i], style: Style::Dim }]
    }
}

/// What the first `n` steps of a bar draw, behind the left margin.
pub open spec fn spans_upto(names: Seq<Seq<char>>, current: int, n: int) -> Seq<SpanModel>
    decreases n,
{
    if n <= 0 {
        seq![SpanModel { text: "  "@, style: Style::Normal }]
    } else {
        spans_upto(names, current, n - 1) + step_spans(names, current, n - 1)
    }
}

/// The line that a bar over the steps `names` draws in `area` while step
/// `current` is active.
pub open spec fn bar_draw(names: Seq<Seq<char>>, current: int, area: Rect) -> DrawModel {
    DrawModel::Line { area, spans: spans_upto(names, current, names.len() as int) }
}

impl<'a> StepBar<'a> {
    /// A bar over `steps` with step `current` active.
    pub fn new(steps: &'a [&'a str], current: usize) -> (bar: StepBar<'a>)
        ensures
            bar.steps == steps,
            bar.current == current,
    {
        StepBar { steps, current }
    }

    /// The names of the steps.
    pub open spec fn names(&self) -> Seq<Seq<char>> {
        self.steps@.map_values(|s: &str| s@)
    }

    /// What the bar draws: one line over the whole of `area`.
    pub open spec fn spec_render(&self, area: Rect) -> Seq<DrawModel> {
        seq![bar_draw(self.names(), self.current as int, area)]
    }

    /// Draws the bar in `area`.
    pub fn render(&self, frame: &mut Frame, area: Rect)
        ensures
            final(frame).area == old(frame).area,
            final(frame)@ == old(frame)@ + self.spec_render(area),
    {
        let mut spans: Vec<Span> = Vec::new();
        spans.push(Span::styled("  ", Style::Normal));
        let mut i: usize = 0;
        while i < self.steps.len()
            invariant
                i <= self.steps@.len(),
                spans_view(spans@) == spans_upto(self.names(), self.current as int, i as int),
            decreases self.steps@.len() - i,
        {
            if i > 0 {
                spans.push(Span::styled(STEP_SEPARATOR, Style::Dim));
            }
            let step: &str = self.steps[i];
            if i < self.current {
                spans.push(Span::styled(STEP_DONE, Style::Green));
                spans.push(Span::styled(step, Style::Green));
            } else if i == self.current {
                spans.push(Span::styled(STEP_ACTIVE, Style::Cyan));
                spans.push(Span::styled(step, Style::Cyan));
            } else {
                spans.push(Span::styled(step, Style::Dim));
            }
            i += 1;
        }
        frame.line(area, spans);
    }
}

} // verus!
