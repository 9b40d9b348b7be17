//! A list to pick from, narrowed by typing.

use vstd::prelude::*;
use crate::text::{concat, contains_seq, lemma_texts_push, lowercase, str_contains, texts};
use crate::tui::event::{Event, KeyCode};
use crate::tui::surface::{
    DrawModel, Frame, lemma_spans_view_push, Rect, Span, SpanModel, spans_view,
};
use crate::tui::theme::Style;

verus! {

/// What was picked.
#[derive(Debug, Clone, Copy, PartialEq, Eq)]
pub enum SelectResult {
    /// An item, by its index in `items`.
    Item(usize),
    /// An extra option, by its index in `extra_options`.
    Extra(usize),
}

/// What a list answers to an event.
#[derive(Debug, Clone, Copy, PartialEq, Eq)]
pub enum Action {
    /// Enter was pressed on an entry.
    Selected(SelectResult),
    /// Escape was pressed.
    Cancel,
    /// Nothing to report; the list may have changed.
    Continue,
    /// The hard interrupt was pressed.
    Interrupt,
}

/// The line between the items and the extra options.
pub const SEPARATOR: &'static str =
    "    \u{2500}\u{2500}\u{2500}\u{2500}\u{2500}\u{2500}\u{2500}\u{2500}\u{2500}\u{2500}\u{2500}\u{2500}\u{2500}\u{2500}\u{2500}\u{2500}\u{2500}";

/// Whether `item` passes `filter`: every item passes the empty filter, and
/// another one passes where the filter occurs in it, letter case aside.
pub open spec fn item_matches(item: Seq<char>, filter: Seq<char>) -> bool {
    filter.len() == 0 || contains_seq(lowercase(item), lowercase(filter))
}

/// The indices of those among the first `n` items that pass `filter`, in
/// rising order.
pub open spec fn matching(items: Seq<Seq<char>>, filter: Seq<char>, n: int) -> Seq<usize>
    decreases n,
{
    if n <= 0 {
        Seq::empty()
    } else if item_matches(items[n - 1], filter) {
        matching(items, filter, n - 1).push((n - 1) as usize)
    } else {
        matching(items, filter, n - 1)
    }
}

/// The indices of those among the first `n` texts in which `needle`
/// occurs, in rising order; every index below `n` where all pass.
pub open spec fn containing(
    lowered: Seq<Seq<char>>,
    needle: Seq<char>,
    pass_all: bool,
    n: int,
) -> Seq<usize>
    decreases n,
{
    if n <= 0 {
        Seq::empty()
    } else if pass_all || contains_seq(lowered[n - 1], needle) {
        containing(lowered, needle, pass_all, n - 1).push((n - 1) as usize)
    } else {
        containing(lowered, needle, pass_all, n - 1)
    }
}

/// Looks `needle` up in each of the texts `lowered` and gives the indices
/// of those that hold it, in rising order. With `pass_all` every text
/// passes. The texts and the needle are taken as they are: letter case is
/// for the caller to level.
pub fn passing(lowered: &Vec<String>, lowered_filter: &str, pass_all: bool) -> (found: Vec<usize>)
    ensures
        found@ == containing(texts(lowered@), lowered_filter@, pass_all, lowered@.len() as int),
{
    let mut found: Vec<usize> = Vec::new();
    let mut i: usize = 0;
    while i < lowered.len()
        invariant
            i <= lowered@.len(),
            found@ == containing(texts(lowered@), lowered_filter@, pass_all, i as int),
        decreases lowered@.len() - i,
    {
        if pass_all || str_contains(lowered[i].as_str(), lowered_filter) {
            found.push(i);
        }
        i += 1;
    }
    found
}

/// Over the lowercase forms of the items and of the filter, the texts
/// that hold the filter are the items that pass it.
pub proof fn lemma_containing_is_matching(
    items: Seq<Seq<char>>,
    lowered: Seq<Seq<char>>,
    filter: Seq<char>,
    n: int,
)
    requires
        0 <= n <= items.len(),
        n <= lowered.len(),
        forall|k: int| 0 <= k < n ==> #[trigger] lowered[k] == lowercase(items[k]),
    ensures
        containing(lowered, lowercase(filter), filter.len() == 0, n) == matching(items, filter, n),
    decreases n,
{
    if n > 0 {
        lemma_containing_is_matching(items, lowered, filter, n - 1);
    }
}

/// The entry that a move from `selected` leads to, among `total` visible
/// entries: one down or one up, round the ends; with nothing visible the
/// selection stays as it is.
pub open spec fn moved(selected: Option<usize>, total: int, down: bool) -> Option<usize> {
    let current: int = match selected {
        Some(s) => s as int,
        None => 0,
    };
    if total <= 0 {
        selected
    } else if down {
        if current + 1 >= total {
            Some(0)
        } else {
            Some((current + 1) as usize)
        }
    } else {
        if current == 0 {
            Some((total - 1) as usize)
        } else {
            Some((current - 1) as usize)
        }
    }
}

/// A selection fits `total` visible entries: none where nothing is
/// visible, else one of them.
pub open spec fn selection_fits(selected: Option<usize>, total: int) -> bool {
    match selected {
        None => total == 0,
        Some(s) => s < total,
    }
}

/// A list of items and, behind them, extra options. `filter` narrows the
/// items; `filtered_indices` holds the indices of those that pass, and
/// `selected` counts through the visible entries: the passing items, then
/// the extra options.
#[derive(Debug)]
pub struct SelectList {
    pub label: String,
    pub items: Vec<String>,
    pub extra_options: Vec<String>,
    pub filter: String,
    pub filtered_indices: Vec<usize>,
    pub selected: Option<usize>,
}

impl SelectList {
    /// The entries can be counted in a `usize`, with room for the separator.
    pub open spec fn fits(&self) -> bool {
        self.items@.len() + self.extra_options@.len() < usize::MAX
    }

    /// The number of visible entries.
    pub open spec fn spec_total_visible(&self) -> int {
        (self.filtered_indices@.len() + self.extra_options@.len()) as int
    }

    /// `filtered_indices` is what `filter` lets through, and the selection
    /// fits the visible entries.
    pub open spec fn wf(&self) -> bool {
        &&& self.fits()
        &&& self.filtered_indices@ == matching(
            texts(self.items@),
            self.filter@,
            self.items@.len() as int,
        )
        &&& selection_fits(self.selected, self.spec_total_visible())
    }

    /// The list as [`SelectList::new`] makes it: these entries, an empty
    /// filter, and the first visible entry selected.
    pub open spec fn is_fresh(
        &self,
        label: Seq<char>,
        items: Seq<String>,
        extra_options: Seq<String>,
    ) -> bool {
        &&& self.wf()
        &&& self.label@ == label
        &&& self.items@ == items
        &&& self.extra_options@ == extra_options
        &&& self.filter@ == Seq::<char>::empty()
        &&& self.filtered_indices@ == Seq::new(items.len(), |i: int| i as usize)
        &&& self.selected == if items.len() + extra_options.len() > 0 {
            Some(0usize)
        } else {
            None
        }
    }

    /// The list is `old` with its items narrowed anew: the same entries and
    /// filter, the indices that the filter lets through, and the first
    /// visible entry selected, or none where nothing is visible.
    pub open spec fn refilters(&self, old: &SelectList) -> bool {
        &&& self.wf()
        &&& self.same_entries(old)
        &&& self.filter == old.filter
        &&& self.selected == if self.spec_total_visible() > 0 {
            Some(0usize)
        } else {
            None
        }
    }

    /// `other` has the same label, items and extra options.
    pub open spec fn same_entries(&self, other: &SelectList) -> bool {
        &&& self.label == other.label
        &&& self.items == other.items
        &&& self.extra_options == other.extra_options
    }

    /// A list with an empty filter, so that every item is visible, and the
    /// first visible entry selected.
    pub fn new(label: &str, items: Vec<String>, extra_options: Vec<String>) -> (list: SelectList)
        requires
            items@.len() + extra_options@.len() < usize::MAX,
        ensures
            list.is_fresh(label@, items@, extra_options@),
            list.items == items,
            list.extra_options == extra_options,
    {
        let mut list = SelectList {
            label: label.to_owned(),
            items,
            extra_options,
            filter: String::new(),
            filtered_indices: Vec::new(),
            selected: None,
        };
        list.update_filter();
        proof {
            law_empty_filter_shows_all(texts(list.items@), list.items@.len() as int);
        }
        list
    }

    /// The number of visible entries: the items that pass the filter and
    /// the extra options.
    pub fn total_visible(&self) -> (total: usize)
        requires
            self.wf(),
        ensures
            total == self.spec_total_visible(),
    {
        proof {
            lemma_matching_sorted(texts(self.items@), self.filter@, self.items@.len() as int);
        }
        self.filtered_indices.len() + self.extra_options.len()
    }

    /// The selected entry, counted through the visible entries.
    pub fn selected(&self) -> (selected: Option<usize>)
        ensures
            selected == self.selected,
    {
        self.selected
    }

    /// Narrows the items to those that pass the filter and selects the
    /// first visible entry, or none where nothing is visible.
    pub fn update_filter(&mut self)
        requires
            old(self).fits(),
        ensures
            final(self).refilters(old(self)),
    {
        let lower = self.filter.as_str().to_lowercase();
        let pass_all = self.filter.as_str().is_empty();
        let mut lowered: Vec<String> = Vec::new();
        let mut i: usize = 0;
        while i < self.items.len()
            invariant
                i <= self.items@.len(),
                lowered@.len() == i,
                forall|k: int|
                    0 <= k < i ==> #[trigger] texts(lowered@)[k] == lowercase(
                        texts(self.items@)[k],
                    ),
            decreases self.items@.len() - i,
        {
            let item = self.items[i].as_str().to_lowercase();
            proof {
                lemma_texts_push(lowered@, item);
            }
            lowered.push(item);
            i += 1;
        }
        let found = passing(&lowered, lower.as_str(), pass_all);
        proof {
            let n = self.items@.len() as int;
            lemma_containing_is_matching(texts(self.items@), texts(lowered@), self.filter@, n);
            lemma_matching_sorted(texts(self.items@), self.filter@, n);
        }
        self.filtered_indices = found;
        if self.filtered_indices.len() + self.extra_options.len() > 0 {
            self.selected = Some(0);
        } else {
            self.selected = None;
        }
    }

    /// Moves the selection one entry up, from the first to the last.
    pub fn move_up(&mut self)
        requires
            old(self).wf(),
        ensures
            final(self).wf(),
            final(self).same_entries(old(self)),
            final(self).filter == old(self).filter,
            final(self).filtered_indices == old(self).filtered_indices,
            final(self).selected == moved(
                old(self).selected,
                old(self).spec_total_visible(),
                false,
            ),
    {
        let total = self.total_visible();
        if total == 0 {
            return ;
        }
        let current = match self.selected {
            Some(s) => s,
            None => 0,
        };
        let next = if current == 0 {
            total - 1
        } else {
            current - 1
        };
        self.selected = Some(next);
    }

    /// Moves the selection one entry down, from the last to the first.
    pub fn move_down(&mut self)
        requires
            old(self).wf(),
        ensures
            final(self).wf(),
            final(self).same_entries(old(self)),
            final(self).filter == old(self).filter,
            final(self).filtered_indices == old(self).filtered_indices,
            final(self).selected == moved(old(self).selected, old(self).spec_total_visible(), true),
    {
        let total = self.total_visible();
        if total == 0 {
            return ;
        }
        let current = match self.selected {
            Some(s) => s,
            None => 0,
        };
        let next = if current + 1 >= total {
            0
        } else {
            current + 1
        };
        self.selected = Some(next);
    }

    /// What Enter picks: the item or the extra option under the selection.
    pub open spec fn spec_pick(&self) -> Option<SelectResult> {
        match self.selected {
            Some(s) => if s < self.filtered_indices@.len() {
                Some(SelectResult::Item(self.filtered_indices@[s as int]))
            } else {
                Some(SelectResult::Extra((s - self.filtered_indices@.len()) as usize))
            },
            None => None,
        }
    }

    /// The filter after a key: a character is added at its end, Backspace
    /// takes the last one away.
    pub open spec fn filter_after(filter: Seq<char>, key: KeyCode) -> Seq<char> {
        match key {
            KeyCode::Char(c) => filter.push(c),
            KeyCode::Backspace => if filter.len() > 0 {
                filter.drop_last()
            } else {
                filter
            },
            _ => filter,
        }
    }

    /// The list that `event` leaves behind: Up and Down move the
    /// selection, a character or Backspace changes the filter, which narrows
    /// the items anew and selects the first visible entry; every other event
    /// leaves the list as it is.
    pub open spec fn steps_to(&self, event: &Event, next: &SelectList) -> bool {
        match event.key() {
            Some(KeyCode::Up) => {
                &&& next.same_entries(self)
                &&& next.filter == self.filter
                &&& next.filtered_indices == self.filtered_indices
                &&& next.selected == moved(self.selected, self.spec_total_visible(), false)
            },
            Some(KeyCode::Down) => {
                &&& next.same_entries(self)
                &&& next.filter == self.filter
                &&& next.filtered_indices == self.filtered_indices
                &&& next.selected == moved(self.selected, self.spec_total_visible(), true)
            },
            Some(KeyCode::Char(c)) => {
                &&& next.same_entries(self)
                &&& next.filter@ == Self::filter_after(self.filter@, KeyCode::Char(c))
                &&& next.selected == if next.spec_total_visible() > 0 {
                    Some(0usize)
                } else {
                    None
                }
            },
            Some(KeyCode::Backspace) => {
                &&& next.same_entries(self)
                &&& next.filter@ == Self::filter_after(self.filter@, KeyCode::Backspace)
                &&& next.selected == if next.spec_total_visible() > 0 {
                    Some(0usize)
                } else {
                    None
                }
            },
            _ => *next == *self,
        }
    }

    /// What the list answers to `event`: the hard interrupt is reported,
    /// Enter picks the entry under the selection if there is one, Escape
    /// cancels, and nothing else is reported.
    pub open spec fn spec_action(&self, event: &Event) -> Action {
        if event.is_interrupt() {
            Action::Interrupt
        } else if event.key() == Some(KeyCode::Enter) {
            match self.spec_pick() {
                Some(picked) => Action::Selected(picked),
                None => Action::Continue,
            }
        } else if event.key() == Some(KeyCode::Esc) {
            Action::Cancel
        } else {
            Action::Continue
        }
    }

    /// Reacts to one event. A picked item is an item that passes the
    /// filter; a picked extra option is one of the extra options.
    pub fn handle_event(&mut self, event: &Event) -> (action: Action)
        requires
            old(self).wf(),
        ensures
            final(self).wf(),
            old(self).steps_to(event, final(self)),
            action == old(self).spec_action(event),
            action matches Action::Selected(SelectResult::Item(i)) ==> i < old(self).items@.len()
                && item_matches(old(self).items@[i as int]@, old(self).filter@),
            action matches Action::Selected(SelectResult::Extra(j)) ==> j < old(
                self,
            ).extra_options@.len(),
    {
        if event.interrupts() {
            return Action::Interrupt;
        }
        match event {
            Event::Key(k) => {
                match k.code {
                    KeyCode::Enter => {
                        match self.selected {
                            Some(selected) => {
                                let filtered_count = self.filtered_indices.len();
                                if selected < filtered_count {
                                    let i = self.filtered_indices[selected];
                                    proof {
                                        let all = texts(self.items@);
                                        let n = self.items@.len() as int;
                                        lemma_matching_complete(all, self.filter@, n, i as int);
                                    }
                                    return Action::Selected(SelectResult::Item(i));
                                } else {
                                    return Action::Selected(
                                        SelectResult::Extra(selected - filtered_count),
                                    );
                                }
                            },
                            None => {},
                        }
                    },
                    KeyCode::Esc => {
                        return Action::Cancel;
                    },
                    KeyCode::Up => self.move_up(),
                    KeyCode::Down => self.move_down(),
                    KeyCode::Backspace => {
                        self.filter.pop();
                        self.update_filter();
                    },
                    KeyCode::Char(c) => {
                        self.filter.push(c);
                        self.update_filter();
                    },
                    _ => {},
                }
            },
            Event::Other => {},
        }
        Action::Continue
    }

    /// The line under the label: the filter, or a hint while it is empty.
    pub open spec fn filter_line(&self) -> Seq<SpanModel> {
        if self.filter@.len() == 0 {
            seq![SpanModel { text: "  > (type to filter)"@, style: Style::Dim }]
        } else {
            seq![
                SpanModel { text: "  > "@, style: Style::Normal },
                SpanModel { text: self.filter@, style: Style::Normal },
            ]
        }
    }

    /// One row for each item that passes the filter.
    pub open spec fn item_rows(&self) -> Seq<SpanModel> {
        Seq::new(
            self.filtered_indices@.len(),
            |j: int|
                SpanModel {
                    text: "    "@ + self.items@[self.filtered_indices@[j] as int]@,
                    style: Style::Normal,
                },
        )
    }

    /// The separator stands between items and extra options where there
    /// are both.
    pub open spec fn has_separator(&self) -> bool {
        self.extra_options@.len() > 0 && self.filtered_indices@.len() > 0
    }

    /// The separator row, where there is one.
    pub open spec fn separator_rows(&self) -> Seq<SpanModel> {
        if self.has_separator() {
            seq![SpanModel { text: SEPARATOR@, style: Style::Dim }]
        } else {
            seq![]
        }
    }

    /// One row for each extra option.
    pub open spec fn extra_rows(&self) -> Seq<SpanModel> {
        Seq::new(
            self.extra_options@.len(),
            |j: int| SpanModel { text: "    "@ + self.extra_options@[j]@, style: Style::Cyan },
        )
    }

    /// The rows of the list: items, separator, extra options.
    pub open spec fn rows(&self) -> Seq<SpanModel> {
        self.item_rows() + self.separator_rows() + self.extra_rows()
    }

    /// The row that carries the marker: the selected entry, one further
    /// down where the separator lies in front of it.
    pub open spec fn visual_selection(&self) -> Option<usize> {
        match self.selected {
            Some(s) => if s < self.filtered_indices@.len() || !self.has_separator() {
                Some(s)
            } else {
                Some((s + 1) as usize)
            },
            None => None,
        }
    }

    /// The list takes as many rows as it has, within what `area` leaves
    /// below the three rows above it and the two kept free under it.
    pub open spec fn list_area(&self, area: Rect) -> Rect {
        let available = area.height.saturating_sub(5);
        Rect::spec_new(
            area.x,
            area.y.saturating_add(3),
            area.width,
            if self.rows().len() < available {
                self.rows().len() as u16
            } else {
                available
            },
        )
    }

    /// What the list draws in `area`: the label on the first row, the
    /// filter on the second, and the entries from the fourth row on.
    pub open spec fn spec_render(&self, area: Rect) -> Seq<DrawModel> {
        seq![
            DrawModel::Line {
                area: area.spec_row(0),
                spans: seq![
                    SpanModel { text: "  ? "@, style: Style::Cyan },
                    SpanModel { text: self.label@, style: Style::Cyan },
                ],
            },
            DrawModel::Line { area: area.spec_row(1), spans: self.filter_line() },
            DrawModel::List {
                area: self.list_area(area),
                items: self.rows(),
                selected: self.visual_selection(),
            },
        ]
    }

    /// Draws the list in `area`.
    pub fn render(&self, frame: &mut Frame, area: Rect)
        requires
            self.wf(),
        ensures
            final(frame).area == old(frame).area,
            final(frame)@ == old(frame)@ + self.spec_render(area),
    {
        let label_line = vec![
            Span::styled("  ? ", Style::Cyan),
            Span::styled(self.label.as_str(), Style::Cyan),
        ];
        proof {
            assert(spans_view(label_line@) =~= seq![
                SpanModel { text: "  ? "@, style: Style::Cyan },
                SpanModel { text: self.label@, style: Style::Cyan },
            ]);
        }
        frame.line(area.row(0), label_line);

        let filter_line = if self.filter.as_str().is_empty() {
            vec![Span::styled("  > (type to filter)", Style::Dim)]
        } else {
            vec![
                Span::styled("  > ", Style::Normal),
                Span::styled(self.filter.as_str(), Style::Normal),
            ]
        };
        proof {
            assert(spans_view(filter_line@) =~= self.filter_line());
        }
        frame.line(area.row(1), filter_line);

        proof {
            lemma_matching_sorted(texts(self.items@), self.filter@, self.items@.len() as int);
        }
        let mut rows: Vec<Span> = Vec::new();
        let mut j: usize = 0;
        while j < self.filtered_indices.len()
            invariant
                j <= self.filtered_indices@.len(),
                forall|k: int|
                    0 <= k < self.filtered_indices@.len() ==> #[trigger] self.filtered_indices@[k]
                        < self.items@.len(),
                spans_view(rows@) =~= self.item_rows().take(j as int),
            decreases self.filtered_indices@.len() - j,
        {
            let orig_idx = self.filtered_indices[j];
            let row = Span::new(concat("    ", self.items[orig_idx].as_str()), Style::Normal);
            proof {
                assert(self.item_rows().take(j + 1) =~= self.item_rows().take(j as int).push(
                    row@,
                ));
            }
            rows.push(row);
            j += 1;
        }
        let has_separator = self.extra_options.len() > 0 && self.filtered_indices.len() > 0;
        if has_separator {
            let row = Span::styled(SEPARATOR, Style::Dim);
            rows.push(row);
        }
        proof {
            assert(self.item_rows().take(self.filtered_indices@.len() as int)
                =~= self.item_rows());
        }
        let ghost head = self.item_rows() + self.separator_rows();
        let mut e: usize = 0;
        while e < self.extra_options.len()
            invariant
                e <= self.extra_options@.len(),
                head == self.item_rows() + self.separator_rows(),
                spans_view(rows@) =~= head + self.extra_rows().take(e as int),
            decreases self.extra_options@.len() - e,
        {
            let row = Span::new(concat("    ", self.extra_options[e].as_str()), Style::Cyan);
            proof {
                lemma_spans_view_push(rows@, row);
            }
            rows.push(row);
            e += 1;
        }
        proof {
            assert(spans_view(rows@) =~= self.rows());
        }

        let visual_selection = match self.selected {
            Some(sel) => if sel < self.filtered_indices.len() || !has_separator {
                Some(sel)
            } else {
                Some(sel + 1)
            },
            None => None,
        };
        let available = area.height.saturating_sub(5);
        let list_height: u16 = if rows.len() < available as usize {
            rows.len() as u16
        } else {
            available
        };
        let list_area = Rect::new(area.x, area.y.saturating_add(3), area.width, list_height);
        frame.list(list_area, rows, visual_selection);
    }
}

/// The indices that pass are indices of items, in strictly rising order.
pub proof fn lemma_matching_sorted(items: Seq<Seq<char>>, filter: Seq<char>, n: int)
    requires
        0 <= n <= items.len(),
        n <= usize::MAX,
    ensures
        matching(items, filter, n).len() <= n,
        forall|j: int|
            0 <= j < matching(items, filter, n).len() ==> #[trigger] matching(items, filter, n)[j]
                < n,
        forall|j: int, k: int|
            0 <= j < k < matching(items, filter, n).len() ==> matching(items, filter, n)[j]
                < matching(items, filter, n)[k],
    decreases n,
{
    if n > 0 {
        lemma_matching_sorted(items, filter, n - 1);
    }
}

/// An index is among those that pass exactly if its item passes.
pub proof fn lemma_matching_complete(items: Seq<Seq<char>>, filter: Seq<char>, n: int, i: int)
    requires
        0 <= n <= items.len(),
        n <= usize::MAX,
    ensures
        matching(items, filter, n).contains(i as usize) && 0 <= i <= usize::MAX <==> 0 <= i < n
            && item_matches(items[i], filter),
    decreases n,
{
    if n > 0 {
        lemma_matching_complete(items, filter, n - 1, i);
        let prev = matching(items, filter, n - 1);
        if item_matches(items[n - 1], filter) {
            let cur = prev.push((n - 1) as usize);
            if 0 <= i < n - 1 && item_matches(items[i], filter) {
                let j = choose|j: int| 0 <= j < prev.len() && prev[j] == i as usize;
                assert(cur[j] == i as usize);
            }
            if i == n - 1 {
                assert(cur[prev.len() as int] == i as usize);
            }
        }
    }
}

/// The empty filter lets every item through: the indices are `0`, `1`, ...
/// up to the number of items.
pub proof fn law_empty_filter_shows_all(items: Seq<Seq<char>>, n: int)
    requires
        0 <= n <= items.len(),
        n <= usize::MAX,
    ensures
        matching(items, Seq::empty(), n) == Seq::new(n as nat, |i: int| i as usize),
    decreases n,
{
    if n > 0 {
        law_empty_filter_shows_all(items, n - 1);
    }
}

/// A filter that no item passes leaves no index.
pub proof fn law_no_match_shows_none(items: Seq<Seq<char>>, filter: Seq<char>, n: int)
    requires
        0 <= n <= items.len(),
        forall|i: int| 0 <= i < n ==> !item_matches(#[trigger] items[i], filter),
    ensures
        matching(items, filter, n) == Seq::<usize>::empty(),
    decreases n,
{
    if n > 0 {
        law_no_match_shows_none(items, filter, n - 1);
    }
}

/// The selection after a run of moves, `true` for down and `false` for up.
pub open spec fn moved_all(selected: Option<usize>, total: int, moves: Seq<bool>) -> Option<usize>
    decreases moves.len(),
{
    if moves.len() == 0 {
        selected
    } else {
        moved(moved_all(selected, total, moves.drop_last()), total, moves.last())
    }
}

/// Whatever run of moves is made, a selection that fits the visible
/// entries still fits them: none exactly where nothing is visible, else
/// one of the entries.
pub proof fn law_moves_keep_selection(selected: Option<usize>, total: int, moves: Seq<bool>)
    requires
        0 <= total <= usize::MAX,
        selection_fits(selected, total),
    ensures
        selection_fits(moved_all(selected, total, moves), total),
        moved_all(selected, total, moves) is None <==> total == 0,
    decreases moves.len(),
{
    if moves.len() > 0 {
        law_moves_keep_selection(selected, total, moves.drop_last());
    }
}

/// A move down from the last visible entry leads to the first, and a move
/// up from the first to the last.
pub proof fn law_moves_wrap_around(total: int)
    requires
        0 < total <= usize::MAX,
    ensures
        moved(Some((total - 1) as usize), total, true) == Some(0usize),
        moved(Some(0usize), total, false) == Some((total - 1) as usize),
{
}

/// Narrowing the items a second time changes nothing: the same indices
/// pass and the same entry is selected.
pub proof fn law_filter_idempotent(list: SelectList, once: SelectList, twice: SelectList)
    requires
        once.refilters(&list),
        twice.refilters(&once),
    ensures
        twice.filtered_indices@ == once.filtered_indices@,
        twice.selected == once.selected,
        twice.filter == once.filter,
        twice.same_entries(&once),
{
}

/// What passes the filter keeps the order of the items: the indices
/// rise, and an index is among them exactly if its item passes.
pub proof fn law_filter_keeps_order(list: SelectList, i: int)
    requires
        list.wf(),
    ensures
        forall|j: int, k: int|
            0 <= j < k < list.filtered_indices@.len() ==> list.filtered_indices@[j]
                < list.filtered_indices@[k],
        (0 <= i < list.items@.len() && item_matches(list.items@[i]@, list.filter@))
            <==> list.filtered_indices@.contains(i as usize) && 0 <= i <= usize::MAX,
{
    let all = texts(list.items@);
    let n = list.items@.len() as int;
    lemma_matching_sorted(all, list.filter@, n);
    lemma_matching_complete(all, list.filter@, n, i);
}

/// Where no item passes the filter and there is no extra option, nothing
/// is visible and nothing is selected.
pub proof fn law_no_match_selects_none(list: SelectList, before: SelectList)
    requires
        list.refilters(&before),
        list.extra_options@.len() == 0,
        forall|i: int|
            0 <= i < list.items@.len() ==> !item_matches(
                #[trigger] texts(list.items@)[i],
                list.filter@,
            ),
    ensures
        list.filtered_indices@.len() == 0,
        list.selected is None,
{
    law_no_match_shows_none(texts(list.items@), list.filter@, list.items@.len() as int);
}

} // verus!
