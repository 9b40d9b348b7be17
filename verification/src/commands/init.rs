//! The wizard that collects what a new project needs: the repository URL,
//! the project name, the worktree prefix and the default branch.

use vstd::prelude::*;
use crate::paths::{repo_name, repo_name_from_url};
use crate::text::{
    before_first, chars_of, find_char, lines, opt_text, split_lines, starts_with, string_of,
    texts,
};
use crate::tui::confirm;
use crate::tui::confirm::Confirm;
use crate::tui::event::{Event, KeyCode};
use crate::tui::step_bar::{bar_draw, StepBar};
use crate::tui::surface::{DrawModel, Frame, help_draw, Rect, Span, SpanModel, spans_view};
use crate::tui::text_input;
use crate::tui::text_input::TextInput;
use crate::tui::theme::{HELP_FIRST_STEP, HELP_WIZARD, Style};
use crate::tui::{FlowError, FlowOutcome};

verus! {

/// What stands in front of the branch name in the line that names the
/// default branch of a remote.
pub const HEAD_REF_PREFIX: &'static str = "ref: refs/heads/";

/// The default branch that a listing of the remote's `HEAD` names: in the
/// first line that starts with [`HEAD_REF_PREFIX`], what follows the prefix
/// up to the first tab.
pub open spec fn detected_branch(listing: Seq<Seq<char>>) -> Option<Seq<char>>
    decreases listing.len(),
{
    if listing.len() == 0 {
        None
    } else if HEAD_REF_PREFIX@.is_prefix_of(listing[0]) {
        Some(before_first(listing[0].skip(HEAD_REF_PREFIX@.len() as int), '\t'))
    } else {
        detected_branch(listing.drop_first())
    }
}

/// Reads the default branch of a remote from the output of a listing of
/// its `HEAD` with symbolic references.
pub fn detect_default_branch_remote(output: &str) -> (branch: Option<String>)
    ensures
        opt_text(branch) == detected_branch(lines(output@)),
{
    let listing = split_lines(output);
    let prefix = chars_of(HEAD_REF_PREFIX);
    let mut i: usize = 0;
    proof {
        assert(texts(listing@).skip(0) =~= texts(listing@));
    }
    while i < listing.len()
        invariant
            i <= listing@.len(),
            prefix@ == HEAD_REF_PREFIX@,
            texts(listing@) == lines(output@),
            detected_branch(texts(listing@)) == detected_branch(texts(listing@).skip(i as int)),
        decreases listing@.len() - i,
    {
        let line = chars_of(listing[i].as_str());
        proof {
            let rest = texts(listing@).skip(i as int);
            assert(rest.drop_first() =~= texts(listing@).skip(i + 1));
        }
        if starts_with(&line, 0, line.len(), &prefix) {
            let from = prefix.len();
            let end = find_char(&line, from, line.len(), '\t');
            return Some(string_of(&line, from, end));
        }
        i += 1;
    }
    None
}

/// What the wizard has collected.
#[derive(Debug, PartialEq)]
pub struct WizardResult {
    pub url: String,
    pub name: String,
    pub prefix: String,
    pub branch: String,
}

/// The wizard. `step` runs from 0 to 4: URL, name, prefix, branch,
/// confirmation. The first four steps use `input`, the last `confirm`.
#[derive(Debug)]
pub struct InitWizard {
    pub step: usize,
    pub url: String,
    pub name: String,
    pub prefix: String,
    pub branch: String,
    /// The default branch that the remote reported, if it was asked.
    pub detected_branch: Option<String>,
    /// The remote is not to be asked for its default branch.
    pub skip_detection: bool,
    /// The URL was entered and the remote has not been asked yet.
    pub probe_pending: bool,
    pub input: TextInput,
    pub confirm: Confirm,
}

/// The label of the URL field.
pub const URL_LABEL: &'static str = "Repository URL";

/// The label of the name field.
pub const NAME_LABEL: &'static str = "Project name";

/// The label of the prefix field.
pub const PREFIX_LABEL: &'static str = "Worktree prefix (e.g. short alias, blank for none)";

/// The label of the branch field.
pub const BRANCH_LABEL: &'static str = "Default branch";

/// The question of the last step.
pub const CONFIRM_LABEL: &'static str = "Proceed with initialization?";

/// The branch that is offered where the remote reported none.
pub const FALLBACK_BRANCH: &'static str = "main";

impl InitWizard {
    /// The label of the field of a step.
    pub open spec fn step_label(step: int) -> Seq<char> {
        if step == 0 {
            URL_LABEL@
        } else if step == 1 {
            NAME_LABEL@
        } else if step == 2 {
            PREFIX_LABEL@
        } else {
            BRANCH_LABEL@
        }
    }

    /// What the field of a step offers, from what was entered so far: the
    /// repository name of the URL for the name, nothing for the prefix, and
    /// the branch that the remote reported, or `main`, for the branch.
    pub open spec fn step_default(&self, step: int) -> Option<Seq<char>> {
        if step == 0 {
            None
        } else if step == 1 {
            Some(repo_name(self.url@))
        } else if step == 2 {
            Some(Seq::empty())
        } else {
            Some(
                match self.detected_branch {
                    Some(b) => b@,
                    None => FALLBACK_BRANCH@,
                },
            )
        }
    }

    /// What was entered at a step.
    pub open spec fn entered(&self, step: int) -> Seq<char> {
        if step == 0 {
            self.url@
        } else if step == 1 {
            self.name@
        } else if step == 2 {
            self.prefix@
        } else {
            self.branch@
        }
    }

    /// The widget of the current step is as the step is entered: the field
    /// with the step's label and offer, holding what was entered there
    /// before with the cursor behind it; at the last step the question with
    /// its toggle on "No".
    pub open spec fn set_up(&self) -> bool {
        if self.step < 4 {
            self.input.holds(
                Self::step_label(self.step as int),
                self.step_default(self.step as int),
                self.entered(self.step as int),
                self.entered(self.step as int).len() as int,
            )
        } else if self.step == 4 {
            self.confirm.label@ == CONFIRM_LABEL@ && !self.confirm.selected
        } else {
            true
        }
    }

    /// The step is one of the five, and the field is in order.
    pub open spec fn wf(&self) -> bool {
        self.step <= 4 && self.input.wf()
    }

    /// `other` has collected the same and knows the same of the remote.
    pub open spec fn same_record(&self, other: &InitWizard) -> bool {
        &&& self.url == other.url
        &&& self.name == other.name
        &&& self.prefix == other.prefix
        &&& self.branch == other.branch
        &&& self.detected_branch == other.detected_branch
        &&& self.skip_detection == other.skip_detection
        &&& self.probe_pending == other.probe_pending
    }

    /// A wizard at its first step with nothing entered.
    pub fn new() -> (wizard: InitWizard)
        ensures
            wizard.wf(),
            wizard.set_up(),
            wizard.step == 0,
            wizard.url@.len() == 0,
            wizard.name@.len() == 0,
            wizard.prefix@.len() == 0,
            wizard.branch@.len() == 0,
            wizard.detected_branch is None,
            !wizard.skip_detection,
            !wizard.probe_pending,
    {
        let mut wizard = InitWizard {
            step: 0,
            url: String::new(),
            name: String::new(),
            prefix: String::new(),
            branch: String::new(),
            detected_branch: None,
            skip_detection: false,
            probe_pending: false,
            input: TextInput::new(URL_LABEL),
            confirm: Confirm::new(CONFIRM_LABEL),
        };
        wizard.setup_step();
        wizard
    }

    /// What the field of step `step` offers, from what was entered so far.
    pub fn default_for(&self, step: usize) -> (default: Option<String>)
        ensures
            opt_text(default) == self.step_default(step as int),
    {
        if step == 0 {
            None
        } else if step == 1 {
            Some(repo_name_from_url(self.url.as_str()))
        } else if step == 2 {
            Some(String::new())
        } else {
            match &self.detected_branch {
                Some(b) => Some(b.clone()),
                None => Some(FALLBACK_BRANCH.to_owned()),
            }
        }
    }

    /// Makes the widget of the current step ready, as [`InitWizard::set_up`]
    /// says. Nothing else changes.
    pub fn setup_step(&mut self)
        requires
            old(self).input.wf(),
        ensures
            final(self).set_up(),
            final(self).input.wf(),
            final(self).step == old(self).step,
            final(self).same_record(old(self)),
            old(self).step < 4 ==> final(self).confirm == old(self).confirm,
            old(self).step >= 4 ==> final(self).input == old(self).input,
    {
        if self.step < 4 {
            let (label, entered) = if self.step == 0 {
                (URL_LABEL, &self.url)
            } else if self.step == 1 {
                (NAME_LABEL, &self.name)
            } else if self.step == 2 {
                (PREFIX_LABEL, &self.prefix)
            } else {
                (BRANCH_LABEL, &self.branch)
            };
            let mut input = TextInput::new(label);
            match self.default_for(self.step) {
                Some(default) => {
                    input = input.with_default(default.as_str());
                },
                None => {},
            }
            if !entered.as_str().is_empty() {
                input = input.with_initial(entered.as_str());
            }
            proof {
                if entered@.len() == 0 {
                    assert(entered@ =~= Seq::<char>::empty());
                }
            }
            self.input = input;
        } else if self.step == 4 {
            self.confirm = Confirm::new(CONFIRM_LABEL);
        }
    }

    /// The wizard with `value` stored as what was entered at step `step`.
    pub open spec fn stores(&self, old: &InitWizard, step: int, value: Seq<char>) -> bool {
        &&& self.entered(step) == value
        &&& forall|other: int| 0 <= other < 4 && other != step ==> self.entered(other)
            == old.entered(other)
        &&& self.detected_branch == old.detected_branch
        &&& self.skip_detection == old.skip_detection
    }

    /// One step of the wizard at one of its four fields. Enter stores the
    /// field's result and leads to the next step, whose widget is set up;
    /// an empty URL is not taken. Leaving the URL step asks for the remote
    /// to be probed unless that is switched off. Escape leads back one step,
    /// whose field then holds what was entered there, or cancels the flow
    /// at the first step. Other events are the field's own.
    pub open spec fn steps_on_field(
        &self,
        event: &Event,
        next: &InitWizard,
        result: Result<FlowOutcome<WizardResult>, FlowError>,
    ) -> bool {
        if event.is_interrupt() {
            result == Err::<FlowOutcome<WizardResult>, FlowError>(FlowError::Interrupted) && *next
                == *self
        } else if event.key() == Some(KeyCode::Enter) {
            let value = self.input.spec_result();
            if self.step == 0 && value.len() == 0 {
                result matches Ok(FlowOutcome::Continue) && *next == *self
            } else {
                &&& result matches Ok(FlowOutcome::Continue)
                &&& next.step == self.step + 1
                &&& next.stores(self, self.step as int, value)
                &&& next.probe_pending == (self.probe_pending || (self.step == 0
                    && !self.skip_detection))
                &&& self.step < 3 ==> next.confirm == self.confirm
                &&& next.set_up()
            }
        } else if event.key() == Some(KeyCode::Esc) {
            if self.step == 0 {
                result == Err::<FlowOutcome<WizardResult>, FlowError>(FlowError::Cancelled)
                    && *next == *self
            } else {
                &&& result matches Ok(FlowOutcome::Continue)
                &&& next.step == self.step - 1
                &&& next.same_record(self)
                &&& next.confirm == self.confirm
                &&& next.set_up()
            }
        } else {
            &&& result matches Ok(FlowOutcome::Continue)
            &&& next.step == self.step
            &&& next.same_record(self)
            &&& next.confirm == self.confirm
            &&& self.input.steps_to(event, &next.input)
        }
    }

    /// One step of the wizard at the confirmation. "Yes" ends the flow
    /// with what was collected, "No" cancels it, Escape leads back to the
    /// branch step, and other events are the question's own.
    pub open spec fn steps_on_confirm(
        &self,
        event: &Event,
        next: &InitWizard,
        result: Result<FlowOutcome<WizardResult>, FlowError>,
    ) -> bool {
        match Confirm::spec_action(self.confirm.selected, event) {
            confirm::Action::Interrupt => result == Err::<FlowOutcome<WizardResult>, FlowError>(
                FlowError::Interrupted,
            ) && *next == *self,
            confirm::Action::Confirmed(true) => {
                &&& *next == *self
                &&& result matches Ok(FlowOutcome::Done(record))
                &&& record.url@ == self.url@
                &&& record.name@ == self.name@
                &&& record.prefix@ == self.prefix@
                &&& record.branch@ == self.branch@
            },
            confirm::Action::Confirmed(false) => result == Err::<
                FlowOutcome<WizardResult>,
                FlowError,
            >(FlowError::Cancelled) && *next == *self,
            confirm::Action::Cancel => {
                &&& result matches Ok(FlowOutcome::Continue)
                &&& next.step == 3
                &&& next.same_record(self)
                &&& next.confirm == self.confirm
                &&& next.set_up()
            },
            confirm::Action::Continue => {
                &&& result matches Ok(FlowOutcome::Continue)
                &&& next.step == self.step
                &&& next.same_record(self)
                &&& next.input == self.input
                &&& self.confirm.steps_to(event, &next.confirm)
            },
        }
    }

    /// One step of the wizard, by the step it is at.
    pub open spec fn steps(
        &self,
        event: &Event,
        next: &InitWizard,
        result: Result<FlowOutcome<WizardResult>, FlowError>,
    ) -> bool {
        if self.step < 4 {
            self.steps_on_field(event, next, result)
        } else {
            self.steps_on_confirm(event, next, result)
        }
    }

    /// Hands `event` to the widget of the current step and moves between
    /// the steps as [`InitWizard::steps`] says.
    pub fn handle_event(&mut self, event: &Event) -> (result: Result<
        FlowOutcome<WizardResult>,
        FlowError,
    >)
        requires
            old(self).wf(),
        ensures
            final(self).wf(),
            old(self).steps(event, final(self), result),
    {
        if self.step < 4 {
            match self.input.handle_event(event) {
                text_input::Action::Submit(val) => {
                    if self.step == 0 {
                        if val.as_str().is_empty() {
                            return Ok(FlowOutcome::Continue);
                        }
                        self.url = val;
                        if !self.skip_detection {
                            self.probe_pending = true;
                        }
                        self.step = 1;
                    } else if self.step == 1 {
                        self.name = val;
                        self.step = 2;
                    } else if self.step == 2 {
                        self.prefix = val;
                        self.step = 3;
                    } else {
                        self.branch = val;
                        self.step = 4;
                    }
                    self.setup_step();
                },
                text_input::Action::Cancel => {
                    if self.step == 0 {
                        return Err(FlowError::Cancelled);
                    }
                    self.step = self.step - 1;
                    self.setup_step();
                },
                text_input::Action::Interrupt => {
                    return Err(FlowError::Interrupted);
                },
                text_input::Action::Continue => {},
            }
        } else {
            match self.confirm.handle_event(event) {
                confirm::Action::Confirmed(yes) => {
                    if yes {
                        return Ok(
                            FlowOutcome::Done(
                                WizardResult {
                                    url: self.url.clone(),
                                    name: self.name.clone(),
                                    prefix: self.prefix.clone(),
                                    branch: self.branch.clone(),
                                },
                            ),
                        );
                    }
                    return Err(FlowError::Cancelled);
                },
                confirm::Action::Cancel => {
                    self.step = 3;
                    self.setup_step();
                },
                confirm::Action::Interrupt => {
                    return Err(FlowError::Interrupted);
                },
                confirm::Action::Continue => {},
            }
        }
        Ok(FlowOutcome::Continue)
    }

    /// The URL of the remote that is to be asked for its default branch,
    /// while the wizard waits for that.
    pub fn probe_request(&self) -> (url: Option<String>)
        ensures
            opt_text(url) == if self.probe_pending {
                Some(self.url@)
            } else {
                None
            },
    {
        if self.probe_pending {
            Some(self.url.clone())
        } else {
            None
        }
    }

    /// Takes what the remote reported as its default branch. The wizard
    /// no longer waits for a probe. The branch step offers what is known
    /// when it is entered, so this is to be called before the next event.
    pub fn set_detected_branch(&mut self, branch: Option<String>)
        ensures
            final(self).detected_branch == branch,
            !final(self).probe_pending,
            final(self).step == old(self).step,
            final(self).url == old(self).url,
            final(self).name == old(self).name,
            final(self).prefix == old(self).prefix,
            final(self).branch == old(self).branch,
            final(self).skip_detection == old(self).skip_detection,
            final(self).input == old(self).input,
            final(self).confirm == old(self).confirm,
    {
        self.detected_branch = branch;
        self.probe_pending = false;
    }

    /// The names of the five steps.
    pub open spec fn step_names() -> Seq<Seq<char>> {
        seq!["URL"@, "Name"@, "Prefix"@, "Branch"@, "Confirm"@]
    }

    /// What stands in front of the value of a completed field.
    pub open spec fn field_label(i: int) -> Seq<char> {
        if i == 0 {
            "  URL:        "@
        } else if i == 1 {
            "  Name:       "@
        } else if i == 2 {
            "  Prefix:     "@
        } else {
            "  Branch:     "@
        }
    }

    /// The field of step `i` is listed above the widget: the step is
    /// passed and something was entered there.
    pub open spec fn lists(&self, i: int) -> bool {
        i < self.step && self.entered(i).len() > 0
    }

    /// The number of listed fields in front of field `i`.
    pub open spec fn listed_before(&self, i: int) -> int {
        (if 0 < i && self.lists(0) {
            1int
        } else {
            0int
        }) + (if 1 < i && self.lists(1) {
            1int
        } else {
            0int
        }) + (if 2 < i && self.lists(2) {
            1int
        } else {
            0int
        }) + (if 3 < i && self.lists(3) {
            1int
        } else {
            0int
        })
    }

    /// The line of field `i` where it is listed: rows are taken from row
    /// 3 on, in the order of the steps.
    pub open spec fn field_draws(&self, i: int, width: u16) -> Seq<DrawModel> {
        if self.lists(i) {
            seq![
                DrawModel::Line {
                    area: Rect {
                        x: 0,
                        y: (3 + self.listed_before(i)) as u16,
                        width,
                        height: 1,
                    },
                    spans: seq![
                        SpanModel { text: Self::field_label(i), style: Style::Dim },
                        SpanModel { text: self.entered(i), style: Style::Normal },
                    ],
                },
            ]
        } else {
            seq![]
        }
    }

    /// Once the prefix step is passed with nothing entered, a line says
    /// that there is no prefix.
    pub open spec fn says_no_prefix(&self) -> bool {
        self.step > 2 && self.prefix@.len() == 0
    }

    /// The line that says that there is no prefix, where it is due.
    pub open spec fn no_prefix_draws(&self, width: u16) -> Seq<DrawModel> {
        if self.says_no_prefix() {
            seq![
                DrawModel::Line {
                    area: Rect {
                        x: 0,
                        y: (3 + self.listed_before(4)) as u16,
                        width,
                        height: 1,
                    },
                    spans: seq![
                        SpanModel { text: "  Prefix:   "@, style: Style::Dim },
                        SpanModel { text: "(none)"@, style: Style::Normal },
                    ],
                },
            ]
        } else {
            seq![]
        }
    }

    /// The row on which the widget starts: behind the listed lines, with
    /// one row free in front of it from the second step on.
    pub open spec fn widget_row(&self) -> int {
        3 + self.listed_before(4) + (if self.says_no_prefix() {
            1int
        } else {
            0int
        }) + (if self.step > 0 {
            1int
        } else {
            0int
        })
    }

    /// The part of a surface of size `area` that the widget gets.
    pub open spec fn widget_rect(&self, area: Rect) -> Rect {
        Rect {
            x: 0,
            y: self.widget_row() as u16,
            width: area.width,
            height: area.height.saturating_sub((self.widget_row() + 2) as u16),
        }
    }

    /// What the wizard draws above its widget on a surface `width` cells
    /// wide: the step bar on row 1 and the completed fields from row 3 on.
    pub open spec fn header_draws(&self, width: u16) -> Seq<DrawModel> {
        seq![
            bar_draw(
                Self::step_names(),
                self.step as int,
                Rect { x: 0, y: 1, width, height: 1 },
            ),
        ] + self.field_draws(0, width) + self.field_draws(1, width) + self.field_draws(2, width)
            + self.field_draws(3, width) + self.no_prefix_draws(width)
    }

    /// What the widget of the current step draws.
    pub open spec fn widget_draws(&self, area: Rect) -> Seq<DrawModel> {
        if self.step < 4 {
            self.input.spec_render(self.widget_rect(area))
        } else {
            self.confirm.spec_render(self.widget_rect(area))
        }
    }

    /// The help line of the current step.
    pub open spec fn help(&self) -> Seq<char> {
        if self.step == 0 {
            HELP_FIRST_STEP@
        } else {
            HELP_WIZARD@
        }
    }

    /// What the wizard draws on a surface of size `area`: the step bar,
    /// the completed fields, the widget of the current step, and the help
    /// line.
    pub open spec fn spec_render(&self, area: Rect) -> Seq<DrawModel> {
        (self.header_draws(area.width) + self.widget_draws(area)).push(
            help_draw(area, self.help()),
        )
    }

    fn render_field(&self, frame: &mut Frame, i: usize, y: u16) -> (next_y: u16)
        requires
            i < 4,
            y == 3 + self.listed_before(i as int),
        ensures
            final(frame).area == old(frame).area,
            final(frame)@ == old(frame)@ + self.field_draws(i as int, old(frame).area.width),
            next_y == 3 + self.listed_before(i + 1),
    {
        let (label, value) = if i == 0 {
            ("  URL:        ", &self.url)
        } else if i == 1 {
            ("  Name:       ", &self.name)
        } else if i == 2 {
            ("  Prefix:     ", &self.prefix)
        } else {
            ("  Branch:     ", &self.branch)
        };
        if i < self.step && !value.as_str().is_empty() {
            let spans = vec![
                Span::styled(label, Style::Dim),
                Span::styled(value.as_str(), Style::Normal),
            ];
            proof {
                assert(spans_view(spans@) =~= seq![
                    SpanModel { text: Self::field_label(i as int), style: Style::Dim },
                    SpanModel { text: self.entered(i as int), style: Style::Normal },
                ]);
            }
            let width = frame.area().width;
            frame.line(Rect::new(0, y, width, 1), spans);
            y + 1
        } else {
            y
        }
    }

    fn render_header(&self, frame: &mut Frame) -> (y: u16)
        requires
            self.step <= 4,
        ensures
            final(frame).area == old(frame).area,
            final(frame)@ == old(frame)@ + self.header_draws(old(frame).area.width),
            y == 3 + self.listed_before(4) + (if self.says_no_prefix() {
                1int
            } else {
                0int
            }),
    {
        let width = frame.area().width;
        let steps: [&str; 5] = ["URL", "Name", "Prefix", "Branch", "Confirm"];
        let step_bar = StepBar::new(steps.as_slice(), self.step);
        proof {
            assert(step_bar.names() =~= Self::step_names());
        }
        step_bar.render(frame, Rect::new(0, 1, width, 1));
        let mut y: u16 = 3;
        y = self.render_field(frame, 0, y);
        y = self.render_field(frame, 1, y);
        y = self.render_field(frame, 2, y);
        y = self.render_field(frame, 3, y);
        if self.step > 2 && self.prefix.as_str().is_empty() {
            let spans = vec![
                Span::styled("  Prefix:   ", Style::Dim),
                Span::styled("(none)", Style::Normal),
            ];
            proof {
                assert(spans_view(spans@) =~= seq![
                    SpanModel { text: "  Prefix:   "@, style: Style::Dim },
                    SpanModel { text: "(none)"@, style: Style::Normal },
                ]);
            }
            frame.line(Rect::new(0, y, width, 1), spans);
            y = y + 1;
        }
        y
    }

    /// Draws the wizard on the whole of `frame`.
    pub fn render(&self, frame: &mut Frame)
        requires
            self.wf(),
        ensures
            final(frame).area == old(frame).area,
            final(frame)@ == old(frame)@ + self.spec_render(old(frame).area),
    {
        let area = frame.area();
        let mut y = self.render_header(frame);
        if self.step > 0 {
            y = y + 1;
        }
        let widget = Rect::new(0, y, area.width, area.height.saturating_sub(y + 2));
        if self.step < 4 {
            self.input.render(frame, widget);
        } else {
            self.confirm.render(frame, widget);
        }
        let help = if self.step == 0 {
            HELP_FIRST_STEP
        } else {
            HELP_WIZARD
        };
        frame.help_line(help);
    }
}

} // verus!
