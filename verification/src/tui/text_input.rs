//! A single-line text field with a cursor.

use vstd::prelude::*;
use crate::text::{
    byte_len, char_at, char_before, char_width, concat, is_boundary, lemma_boundary_end,
    lemma_boundary_start, lemma_offset_monotonic, lemma_pos_of_offset, lemma_utf8_len_push,
    offset_of, opt_text, pos_of, position, utf8_len,
};
use crate::tui::surface::{DrawModel, Frame, Rect, Span, SpanModel, spans_view};
use crate::tui::theme::Style;
use crate::tui::{FlowError, FlowOutcome};
use crate::tui::event::{Event, KeyCode};

verus! {

/// What a text field answers to an event.
#[derive(Debug)]
pub enum Action {
    /// Enter was pressed: the field's result.
    Submit(String),
    /// Escape was pressed.
    Cancel,
    /// Nothing to report; the field may have changed.
    Continue,
    /// The hard interrupt was pressed.
    Interrupt,
}

/// An editable line of text. `cursor` is a byte offset into `value` and
/// always lies on a character boundary.
#[derive(Debug)]
pub struct TextInput {
    pub value: String,
    pub cursor: usize,
    pub default: Option<String>,
    pub label: String,
}

impl TextInput {
    /// The cursor lies on a character boundary of the value.
    pub open spec fn wf(&self) -> bool {
        is_boundary(self.value@, self.cursor as int)
    }

    /// The number of characters in front of the cursor.
    pub open spec fn pos(&self) -> int {
        pos_of(self.value@, self.cursor as int)
    }

    /// The text that the field stands for: the value, or the default where
    /// the value is empty, or nothing.
    pub open spec fn spec_result(&self) -> Seq<char> {
        if self.value@.len() > 0 {
            self.value@
        } else {
            match self.default {
                Some(d) => d@,
                None => Seq::empty(),
            }
        }
    }

    /// The field with the same label and default, and the given text and
    /// cursor position.
    pub open spec fn shows(&self, old: &TextInput, value: Seq<char>, pos: int) -> bool {
        &&& self.wf()
        &&& self.value@ == value
        &&& self.pos() == pos
        &&& self.cursor == offset_of(value, pos)
        &&& self.default == old.default
        &&& self.label == old.label
    }

    /// The field has this label, default, text and cursor position.
    pub open spec fn holds(
        &self,
        label: Seq<char>,
        default: Option<Seq<char>>,
        value: Seq<char>,
        pos: int,
    ) -> bool {
        &&& self.wf()
        &&& self.label@ == label
        &&& opt_text(self.default) == default
        &&& self.value@ == value
        &&& self.pos() == pos
        &&& self.cursor == offset_of(value, pos)
    }

    /// An empty field without a default.
    pub fn new(label: &str) -> (input: TextInput)
        ensures
            input.holds(label@, None, Seq::empty(), 0),
            input.cursor == 0,
    {
        let input = TextInput {
            value: String::new(),
            cursor: 0,
            default: None,
            label: label.to_owned(),
        };
        proof {
            lemma_boundary_start(input.value@);
        }
        input
    }

    /// The same field with `default` as its default.
    pub fn with_default(self, default: &str) -> (input: TextInput)
        ensures
            input.value == self.value,
            input.cursor == self.cursor,
            input.label == self.label,
            opt_text(input.default) == Some(default@),
            self.wf() ==> input.holds(self.label@, Some(default@), self.value@, self.pos()),
    {
        TextInput {
            value: self.value,
            cursor: self.cursor,
            default: Some(default.to_owned()),
            label: self.label,
        }
    }

    /// The same field holding `initial`, with the cursor at its end.
    pub fn with_initial(self, initial: &str) -> (input: TextInput)
        ensures
            input.wf(),
            input.value@ == initial@,
            input.pos() == initial@.len(),
            input.cursor == utf8_len(initial@),
            input.default == self.default,
            input.label == self.label,
            input.holds(self.label@, opt_text(self.default), initial@, initial@.len() as int),
    {
        let val = initial.to_owned();
        let n = byte_len(&val);
        proof {
            lemma_boundary_end(val@);
        }
        TextInput { value: val, cursor: n, default: self.default, label: self.label }
    }

    /// The value, or the default where the value is empty.
    pub fn result(&self) -> (s: String)
        ensures
            s@ == self.spec_result(),
    {
        if self.value.as_str().is_empty() {
            match &self.default {
                Some(d) => d.clone(),
                None => String::new(),
            }
        } else {
            self.value.clone()
        }
    }

    /// Inserts `c` at the cursor and moves the cursor behind it.
    pub fn insert_char(&mut self, c: char)
        requires
            old(self).wf(),
        ensures
            final(self).shows(
                old(self),
                old(self).value@.insert(old(self).pos(), c),
                old(self).pos() + 1,
            ),
            final(self).cursor == old(self).cursor + char_width(c),
    {
        let ghost k = self.pos();
        let ghost before = self.value@;
        self.value.insert(self.cursor, c);
        // The text with `c` in it has a length, so the offset behind `c` is
        // a `usize` too.
        let grown = byte_len(&self.value);
        proof {
            let after = self.value@;
            assert(after.take(k + 1) =~= before.take(k).push(c));
            lemma_utf8_len_push(before.take(k), c);
            lemma_offset_monotonic(after, k + 1, after.len() as int);
            lemma_boundary_end(after);
            lemma_pos_of_offset(after, k + 1);
            assert(self.cursor + char_width(c) <= grown);
        }
        self.cursor = self.cursor + c.len_utf8();
    }

    /// Removes the character in front of the cursor, if there is one.
    pub fn delete_char(&mut self)
        requires
            old(self).wf(),
        ensures
            old(self).pos() > 0 ==> final(self).shows(
                old(self),
                old(self).value@.remove(old(self).pos() - 1),
                old(self).pos() - 1,
            ),
            old(self).pos() == 0 ==> *final(self) == *old(self),
    {
        let ghost k = self.pos();
        let ghost before = self.value@;
        if self.cursor > 0 {
            match char_before(self.value.as_str(), self.cursor) {
                Some(p) => {
                    proof {
                        assert(before.take(k) =~= before.take(k - 1).push(before[k - 1]));
                        lemma_utf8_len_push(before.take(k - 1), before[k - 1]);
                        lemma_pos_of_offset(before, k - 1);
                        lemma_offset_monotonic(before, k - 1, before.len() as int);
                        lemma_boundary_end(before);
                    }
                    self.cursor = self.cursor - p.len_utf8();
                    self.value.remove(self.cursor);
                    proof {
                        let after = self.value@;
                        assert(after.take(k - 1) =~= before.take(k - 1));
                        lemma_pos_of_offset(after, k - 1);
                    }
                },
                None => {},
            }
        }
    }

    /// Removes the character at the cursor, if there is one.
    pub fn delete_forward(&mut self)
        requires
            old(self).wf(),
        ensures
            old(self).pos() < old(self).value@.len() ==> final(self).shows(
                old(self),
                old(self).value@.remove(old(self).pos()),
                old(self).pos(),
            ),
            old(self).pos() == old(self).value@.len() ==> *final(self) == *old(self),
    {
        let ghost k = self.pos();
        let ghost before = self.value@;
        proof {
            lemma_boundary_end(before);
            if k < before.len() {
                lemma_offset_monotonic(before, k, before.len() as int);
            }
        }
        if self.cursor < byte_len(&self.value) {
            self.value.remove(self.cursor);
            proof {
                let after = self.value@;
                assert(after.take(k) =~= before.take(k));
                lemma_pos_of_offset(after, k);
            }
        }
    }

    /// Moves the cursor one character to the left, if it is not at the start.
    pub fn move_left(&mut self)
        requires
            old(self).wf(),
        ensures
            final(self).shows(
                old(self),
                old(self).value@,
                if old(self).pos() > 0 {
                    old(self).pos() - 1
                } else {
                    0
                },
            ),
            final(self).value == old(self).value,
    {
        let ghost k = self.pos();
        let ghost text = self.value@;
        if self.cursor > 0 {
            match char_before(self.value.as_str(), self.cursor) {
                Some(p) => {
                    proof {
                        assert(text.take(k) =~= text.take(k - 1).push(text[k - 1]));
                        lemma_utf8_len_push(text.take(k - 1), text[k - 1]);
                        lemma_pos_of_offset(text, k - 1);
                    }
                    self.cursor = self.cursor - p.len_utf8();
                },
                None => {},
            }
        }
    }

    /// Moves the cursor one character to the right, if it is not at the end.
    pub fn move_right(&mut self)
        requires
            old(self).wf(),
        ensures
            final(self).shows(
                old(self),
                old(self).value@,
                if old(self).pos() < old(self).value@.len() {
                    old(self).pos() + 1
                } else {
                    old(self).pos()
                },
            ),
            final(self).value == old(self).value,
    {
        let ghost k = self.pos();
        let ghost text = self.value@;
        proof {
            lemma_boundary_end(text);
            if k < text.len() {
                lemma_offset_monotonic(text, k, text.len() as int);
            }
        }
        let n = byte_len(&self.value);
        if self.cursor < n {
            match char_at(self.value.as_str(), self.cursor) {
                Some(c) => {
                    proof {
                        assert(text.take(k + 1) =~= text.take(k).push(text[k]));
                        lemma_utf8_len_push(text.take(k), text[k]);
                        lemma_pos_of_offset(text, k + 1);
                        lemma_offset_monotonic(text, k + 1, text.len() as int);
                    }
                    self.cursor = self.cursor + c.len_utf8();
                },
                None => {},
            }
        }
    }

    /// Moves the cursor in front of the first character.
    pub fn move_home(&mut self)
        ensures
            final(self).shows(old(self), old(self).value@, 0),
            final(self).value == old(self).value,
            final(self).cursor == 0,
    {
        proof {
            lemma_boundary_start(self.value@);
        }
        self.cursor = 0;
    }

    /// Moves the cursor behind the last character.
    pub fn move_end(&mut self)
        ensures
            final(self).shows(old(self), old(self).value@, old(self).value@.len() as int),
            final(self).value == old(self).value,
    {
        proof {
            lemma_boundary_end(self.value@);
        }
        self.cursor = byte_len(&self.value);
    }

    /// The text and the cursor position that an editing key leaves behind.
    /// Keys that do not edit leave both as they are.
    pub open spec fn edit(value: Seq<char>, pos: int, key: KeyCode) -> (Seq<char>, int) {
        match key {
            KeyCode::Char(c) => (value.insert(pos, c), pos + 1),
            KeyCode::Backspace => if pos > 0 {
                (value.remove(pos - 1), pos - 1)
            } else {
                (value, pos)
            },
            KeyCode::Delete => if pos < value.len() {
                (value.remove(pos), pos)
            } else {
                (value, pos)
            },
            KeyCode::Left => (
                value,
                if pos > 0 {
                    pos - 1
                } else {
                    pos
                },
            ),
            KeyCode::Right => (
                value,
                if pos < value.len() {
                    pos + 1
                } else {
                    pos
                },
            ),
            KeyCode::Home => (value, 0),
            KeyCode::End => (value, value.len() as int),
            _ => (value, pos),
        }
    }

    /// The field that `event` leaves behind: an editing key changes text
    /// and cursor as [`TextInput::edit`] says; Enter, Escape, the hard
    /// interrupt and events that are no key leave the field as it is.
    pub open spec fn steps_to(&self, event: &Event, next: &TextInput) -> bool {
        if event.key() is Some && event.key() != Some(KeyCode::Enter) && event.key() != Some(
            KeyCode::Esc,
        ) {
            let after = Self::edit(self.value@, self.pos(), event.key()->0);
            next.shows(self, after.0, after.1)
        } else {
            *next == *self
        }
    }

    /// What the field answers to `event`: the hard interrupt is reported,
    /// Enter submits the result, Escape cancels, and nothing else is
    /// reported.
    pub open spec fn reports(&self, event: &Event, action: Action) -> bool {
        if event.is_interrupt() {
            action is Interrupt
        } else if event.key() == Some(KeyCode::Enter) {
            action is Submit && action->Submit_0@ == self.spec_result()
        } else if event.key() == Some(KeyCode::Esc) {
            action is Cancel
        } else {
            action is Continue
        }
    }

    /// Reacts to one event.
    pub fn handle_event(&mut self, event: &Event) -> (action: Action)
        requires
            old(self).wf(),
        ensures
            final(self).wf(),
            old(self).steps_to(event, final(self)),
            old(self).reports(event, action),
    {
        if event.interrupts() {
            return Action::Interrupt;
        }
        match event {
            Event::Key(k) => {
                match k.code {
                    KeyCode::Enter => {
                        return Action::Submit(self.result());
                    },
                    KeyCode::Esc => {
                        return Action::Cancel;
                    },
                    KeyCode::Char(c) => self.insert_char(c),
                    KeyCode::Backspace => self.delete_char(),
                    KeyCode::Delete => self.delete_forward(),
                    KeyCode::Left => self.move_left(),
                    KeyCode::Right => self.move_right(),
                    KeyCode::Home => self.move_home(),
                    KeyCode::End => self.move_end(),
                    _ => {},
                }
            },
            Event::Other => {},
        }
        Action::Continue
    }

    /// The text on the input line: the value, or the default while the
    /// value is empty.
    pub open spec fn shown(&self) -> Seq<char> {
        "  > "@ + self.spec_result()
    }

    /// The input line is dimmed while it shows the default.
    pub open spec fn shown_style(&self) -> Style {
        if self.value@.len() == 0 && self.default is Some {
            Style::Dim
        } else {
            Style::Normal
        }
    }

    /// The column of the terminal cursor: behind the prompt and the
    /// characters in front of the cursor, as far as a `u16` reaches.
    pub open spec fn cursor_column(&self, area: Rect) -> u16 {
        if area.x + 4 + self.pos() > u16::MAX {
            u16::MAX
        } else {
            (area.x + 4 + self.pos()) as u16
        }
    }

    /// What the field draws in `area`: the label on the first row, the
    /// input line on the second, and the cursor on the input line.
    pub open spec fn spec_render(&self, area: Rect) -> Seq<DrawModel> {
        seq![
            DrawModel::Line {
                area: area.spec_row(0),
                spans: seq![
                    SpanModel { text: "  ? "@, style: Style::Cyan },
                    SpanModel { text: self.label@, style: Style::Cyan },
                ],
            },
            DrawModel::Line {
                area: area.spec_row(1),
                spans: seq![SpanModel { text: self.shown(), style: self.shown_style() }],
            },
            DrawModel::Cursor { x: self.cursor_column(area), y: area.spec_row(1).y },
        ]
    }

    /// Draws the field in `area`.
    pub fn render(&self, frame: &mut Frame, area: Rect)
        requires
            self.wf(),
        ensures
            final(frame).area == old(frame).area,
            final(frame)@ == old(frame)@ + self.spec_render(area),
    {
        let label_line = vec![
            Span::styled("  ? ", Style::Cyan),
            Span::styled(self.label.as_str(), Style::Cyan),
        ];
        proof {
            assert(spans_view(label_line@) =~= seq![
                SpanModel { text: "  ? "@, style: Style::Cyan },
                SpanModel { text: self.label@, style: Style::Cyan },
            ]);
        }
        frame.line(area.row(0), label_line);

        let display = concat("  > ", self.result().as_str());
        let style = if self.value.as_str().is_empty() && self.default.is_some() {
            Style::Dim
        } else {
            Style::Normal
        };
        let input_line = vec![Span::new(display, style)];
        proof {
            assert(spans_view(input_line@) =~= seq![
                SpanModel { text: self.shown(), style: self.shown_style() },
            ]);
        }
        let input_row = area.row(1);
        frame.line(input_row, input_line);

        let pos = position(self.value.as_str(), self.cursor);
        let column: u16 = if pos > 0xFFFF {
            u16::MAX
        } else {
            area.x.saturating_add(4).saturating_add(pos as u16)
        };
        frame.set_cursor_position(column, input_row.y);
    }
}

/// The text and the cursor position after a run of keys, each applied as
/// [`TextInput::edit`] says.
pub open spec fn edit_all(value: Seq<char>, pos: int, keys: Seq<KeyCode>) -> (Seq<char>, int)
    decreases keys.len(),
{
    if keys.len() == 0 {
        (value, pos)
    } else {
        let before = edit_all(value, pos, keys.drop_last());
        TextInput::edit(before.0, before.1, keys.last())
    }
}

/// Whatever keys are pressed, the cursor stays between the start and the
/// end of the text.
pub proof fn law_cursor_stays_in_text(value: Seq<char>, pos: int, keys: Seq<KeyCode>)
    requires
        0 <= pos <= value.len(),
    ensures
        0 <= edit_all(value, pos, keys).1 <= edit_all(value, pos, keys).0.len(),
    decreases keys.len(),
{
    if keys.len() > 0 {
        law_cursor_stays_in_text(value, pos, keys.drop_last());
    }
}

/// The characters that a run of character keys types.
pub open spec fn typed_by(keys: Seq<KeyCode>) -> Seq<char> {
    Seq::new(keys.len(), |i: int| keys[i]->Char_0)
}

/// Typing characters puts them in front of the cursor, in the order of
/// typing, and leaves the cursor behind them.
pub proof fn law_typing_inserts_at_cursor(value: Seq<char>, pos: int, keys: Seq<KeyCode>)
    requires
        0 <= pos <= value.len(),
        forall|i: int| 0 <= i < keys.len() ==> #[trigger] keys[i] is Char,
    ensures
        edit_all(value, pos, keys) == (
            value.take(pos) + typed_by(keys) + value.skip(pos),
            pos + keys.len(),
        ),
    decreases keys.len(),
{
    if keys.len() > 0 {
        law_typing_inserts_at_cursor(value, pos, keys.drop_last());
    }
}

/// A cursor of a field in order is a byte offset within the text, on the
/// boundary of the character position that it stands for.
pub proof fn law_cursor_on_boundary(input: TextInput)
    requires
        input.wf(),
    ensures
        0 <= input.cursor <= utf8_len(input.value@),
        0 <= input.pos() <= input.value@.len(),
        input.cursor == offset_of(input.value@, input.pos()),
{
    let s = input.value@;
    let p = input.pos();
    lemma_offset_monotonic(s, p, s.len() as int);
    lemma_boundary_end(s);
}

/// What a flow of one text field tells its loop for an action of the
/// field: a submitted text ends the flow with that text, Escape cancels
/// it, the hard interrupt interrupts it, and anything else goes on.
pub open spec fn field_outcome(
    action: Action,
    result: Result<FlowOutcome<String>, FlowError>,
) -> bool {
    match action {
        Action::Submit(value) => result matches Ok(FlowOutcome::Done(text)) && text@ == value@,
        Action::Cancel => result == Err::<FlowOutcome<String>, FlowError>(FlowError::Cancelled),
        Action::Interrupt => result == Err::<FlowOutcome<String>, FlowError>(
            FlowError::Interrupted,
        ),
        Action::Continue => result matches Ok(FlowOutcome::Continue),
    }
}

/// Turns an action of a text field into the outcome of a flow that
/// consists of that field alone.
pub fn outcome_of_field(action: Action) -> (result: Result<FlowOutcome<String>, FlowError>)
    ensures
        field_outcome(action, result),
{
    match action {
        Action::Submit(value) => Ok(FlowOutcome::Done(value)),
        Action::Cancel => Err(FlowError::Cancelled),
        Action::Interrupt => Err(FlowError::Interrupted),
        Action::Continue => Ok(FlowOutcome::Continue),
    }
}

} // verus!
