//! The drawing surface: a rectangle of character cells that widgets draw
//! on by recording what is to be shown where. The terminal layer paints
//! the record.

use vstd::prelude::*;
use crate::text::concat;
use crate::tui::theme::Style;

verus! {

/// A rectangle of cells: its top left corner and its size.
#[derive(Debug, Clone, Copy, PartialEq, Eq)]
pub struct Rect {
    pub x: u16,
    pub y: u16,
    pub width: u16,
    pub height: u16,
}

/// What is left of `size` cells from cell `start` on, where cells are
/// counted in a `u16`.
pub open spec fn cut(start: u16, size: u16) -> u16 {
    if start + size > u16::MAX {
        (u16::MAX - start) as u16
    } else {
        size
    }
}

/// `ratatui::layout::Rect::new`: the rectangle with this corner, and with
/// this size as far as columns and rows can be counted in a `u16`; beyond
/// that the size is cut.
#[verifier::external_body]
fn cell_rect(x: u16, y: u16, width: u16, height: u16) -> (r: Rect)
    ensures
        r == Rect::spec_new(x, y, width, height),
{
    let cells = ratatui::layout::Rect::new(x, y, width, height);
    Rect { x: cells.x, y: cells.y, width: cells.width, height: cells.height }
}

impl Rect {
    /// The rectangle with the corner `x`, `y`, and the size `width`,
    /// `height` cut where the rectangle would reach past the last column or
    /// row.
    pub open spec fn spec_new(x: u16, y: u16, width: u16, height: u16) -> Rect {
        Rect { x, y, width: cut(x, width), height: cut(y, height) }
    }

    /// The rectangle with this corner and, as far as it fits, this size.
    pub fn new(x: u16, y: u16, width: u16, height: u16) -> (r: Rect)
        ensures
            r == Rect::spec_new(x, y, width, height),
    {
        cell_rect(x, y, width, height)
    }

    /// The row `offset` rows below the top of the rectangle, one cell high.
    /// Past the last row that a `u16` can address it stays on that row.
    pub open spec fn spec_row(self, offset: u16) -> Rect {
        Rect::spec_new(self.x, self.y.saturating_add(offset), self.width, 1)
    }

    /// The row `offset` rows below the top of the rectangle, one cell high.
    pub fn row(self, offset: u16) -> (r: Rect)
        ensures
            r == self.spec_row(offset),
    {
        Rect::new(self.x, self.y.saturating_add(offset), self.width, 1)
    }
}

/// A run of text in one style.
#[derive(Debug)]
pub struct Span {
    pub text: String,
    pub style: Style,
}

/// What a [`Span`] shows.
pub struct SpanModel {
    pub text: Seq<char>,
    pub style: Style,
}

impl View for Span {
    type V = SpanModel;

    open spec fn view(&self) -> SpanModel {
        SpanModel { text: self.text@, style: self.style }
    }
}

impl Span {
    /// A run of `text` in `style`.
    pub fn new(text: String, style: Style) -> (s: Span)
        ensures
            s@ == (SpanModel { text: text@, style }),
    {
        Span { text, style }
    }

    /// A run of a copy of `text` in `style`.
    pub fn styled(text: &str, style: Style) -> (s: Span)
        ensures
            s@ == (SpanModel { text: text@, style }),
    {
        Span { text: text.to_owned(), style }
    }
}

/// What a sequence of spans shows.
pub open spec fn spans_view(spans: Seq<Span>) -> Seq<SpanModel> {
    spans.map_values(|s: Span| s@)
}

/// One more span shows one thing more.
pub proof fn lemma_spans_view_push(spans: Seq<Span>, s: Span)
    ensures
        spans_view(spans.push(s)) == spans_view(spans).push(s@),
{
}

/// One thing to show.
#[derive(Debug)]
pub enum Draw {
    /// A line of text in `area`, made of spans from left to right.
    Line { area: Rect, spans: Vec<Span> },
    /// A list in `area`, one item a row, with a marker on the selected row.
    List { area: Rect, items: Vec<Span>, selected: Option<usize> },
    /// The terminal cursor at column `x`, row `y`.
    Cursor { x: u16, y: u16 },
}

/// What a [`Draw`] shows.
pub enum DrawModel {
    Line { area: Rect, spans: Seq<SpanModel> },
    List { area: Rect, items: Seq<SpanModel>, selected: Option<usize> },
    Cursor { x: u16, y: u16 },
}

impl View for Draw {
    type V = DrawModel;

    open spec fn view(&self) -> DrawModel {
        match self {
            Draw::Line { area, spans } => DrawModel::Line {
                area: *area,
                spans: spans_view(spans@),
            },
            Draw::List { area, items, selected } => DrawModel::List {
                area: *area,
                items: spans_view(items@),
                selected: *selected,
            },
            Draw::Cursor { x, y } => DrawModel::Cursor { x: *x, y: *y },
        }
    }
}

/// The marker in front of the selected row of a list.
pub const HIGHLIGHT_SYMBOL: &'static str = "  \u{276f} ";

/// A surface of a given size and the record of what was drawn on it, in
/// the order of drawing.
#[derive(Debug)]
pub struct Frame {
    pub area: Rect,
    pub ops: Vec<Draw>,
}

impl View for Frame {
    type V = Seq<DrawModel>;

    open spec fn view(&self) -> Seq<DrawModel> {
        self.ops@.map_values(|d: Draw| d@)
    }
}

impl Frame {
    /// An empty surface.
    pub fn new(area: Rect) -> (f: Frame)
        ensures
            f.area == area,
            f@ == Seq::<DrawModel>::empty(),
    {
        let f = Frame { area, ops: Vec::new() };
        f
    }

    /// The size of the surface.
    pub fn area(&self) -> (r: Rect)
        ensures
            r == self.area,
    {
        self.area
    }

    fn record(&mut self, op: Draw)
        ensures
            final(self).area == old(self).area,
            final(self)@ == old(self)@.push(op@),
    {
        self.ops.push(op);
    }

    /// Draws a line of spans in `area`.
    pub fn line(&mut self, area: Rect, spans: Vec<Span>)
        ensures
            final(self).area == old(self).area,
            final(self)@ == old(self)@.push(
                DrawModel::Line { area, spans: spans_view(spans@) },
            ),
    {
        self.record(Draw::Line { area, spans });
    }

    /// Draws a list in `area` with the marker on row `selected`.
    pub fn list(&mut self, area: Rect, items: Vec<Span>, selected: Option<usize>)
        ensures
            final(self).area == old(self).area,
            final(self)@ == old(self)@.push(
                DrawModel::List { area, items: spans_view(items@), selected },
            ),
    {
        self.record(Draw::List { area, items, selected });
    }

    /// Puts the terminal cursor at column `x`, row `y`.
    pub fn set_cursor_position(&mut self, x: u16, y: u16)
        ensures
            final(self).area == old(self).area,
            final(self)@ == old(self)@.push(DrawModel::Cursor { x, y }),
    {
        self.record(Draw::Cursor { x, y });
    }

    /// Draws the help line on the last row of the surface.
    pub fn help_line(&mut self, help: &str)
        ensures
            final(self).area == old(self).area,
            final(self)@ == old(self)@.push(help_draw(old(self).area, help@)),
    {
        let spans = vec![Span::new(concat("  ", help), Style::Dim)];
        proof {
            assert(spans_view(spans@) =~= seq![
                SpanModel { text: "  "@ + help@, style: Style::Dim },
            ]);
        }
        let area = Rect::new(0, self.area.height.saturating_sub(1), self.area.width, 1);
        self.line(area, spans);
    }
}

/// The help line of a surface of size `area`: dimmed, on its last row.
pub open spec fn help_draw(area: Rect, help: Seq<char>) -> DrawModel {
    DrawModel::Line {
        area: Rect { x: 0, y: area.height.saturating_sub(1), width: area.width, height: 1 },
        spans: seq![SpanModel { text: "  "@ + help, style: Style::Dim }],
    }
}

/// The part of a surface of size `area` that a flow gives to its widget:
/// from row 1 on, without the last two rows.
pub open spec fn widget_area(area: Rect) -> Rect {
    Rect { x: 0, y: 1, width: area.width, height: area.height.saturating_sub(3) }
}

} // verus!
