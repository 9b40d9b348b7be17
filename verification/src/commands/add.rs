//! Choosing the branch of a new worktree.

use vstd::prelude::*;
use crate::git::executor::arg_texts;
use crate::git::worktree::{add_args, add_worktree};
use crate::text::{concat, opt_str_text, opt_text, texts};
use crate::tui::event::{Event, KeyCode};
use crate::tui::select_list;
use crate::tui::select_list::{SelectList, SelectResult};
use crate::tui::surface::{
    DrawModel, Frame, help_draw, Rect, Span, SpanModel, spans_view, widget_area,
};
use crate::tui::text_input;
use crate::tui::text_input::{TextInput, outcome_of_field};
use crate::tui::theme::{HELP_SELECT, HELP_WIZARD, Style};
use crate::tui::{FlowError, FlowOutcome};

verus! {

/// How the base of a new branch is found.
#[derive(Debug, PartialEq)]
pub enum BaseBranchAction {
    /// The base was given.
    UseBase(String),
    /// Ask for it, offering `default`.
    Prompt { default: Option<String> },
    /// It was not given and nobody can be asked.
    ErrorNotTty,
}

/// Decides how the base of a new branch is found: a given base is used;
/// without one the user is asked, with the current branch as the offer,
/// where there is a terminal to ask on.
pub fn resolve_base_branch(
    base_flag: Option<&str>,
    current_branch: Option<&str>,
    is_tty: bool,
) -> (action: BaseBranchAction)
    ensures
        match base_flag {
            Some(b) => action is UseBase && action->UseBase_0@ == b@,
            None => if is_tty {
                action is Prompt && opt_text(action->Prompt_default) == opt_str_text(
                    current_branch,
                )
            } else {
                action is ErrorNotTty
            },
        },
{
    match base_flag {
        Some(b) => {
            return BaseBranchAction::UseBase(b.to_owned());
        },
        None => {},
    }
    if !is_tty {
        return BaseBranchAction::ErrorNotTty;
    }
    let default = match current_branch {
        Some(s) => Some(s.to_owned()),
        None => None,
    };
    BaseBranchAction::Prompt { default }
}

/// Where the branch of a new worktree comes from.
#[derive(Debug, PartialEq)]
pub enum BranchSource {
    /// The branch exists in the repository.
    Local,
    /// The branch exists on the remote `origin` only.
    Remote,
    /// The branch is new and starts at `base`.
    New { base: String },
}

/// The arguments that create the worktree of `branch` at `path`: a local
/// branch is checked out, a remote one is tracked by a new local branch of
/// its name, and a new branch is created at its base.
pub open spec fn checkout_args(
    path: Seq<char>,
    branch: Seq<char>,
    source: BranchSource,
) -> Seq<Seq<char>> {
    match source {
        BranchSource::Local => add_args(path, Some(branch), seq![]),
        BranchSource::Remote => add_args(
            path,
            Some("origin/"@ + branch),
            seq!["--track"@, "-b"@, branch],
        ),
        BranchSource::New { base } => add_args(path, Some(base@), seq!["-b"@, branch]),
    }
}

/// The arguments for git to create the worktree of `branch` at
/// `worktree_path`.
pub fn checkout_command(worktree_path: &str, branch: &str, source: &BranchSource) -> (args: Vec<
    String,
>)
    ensures
        texts(args@) == checkout_args(worktree_path@, branch@, *source),
{
    match source {
        BranchSource::Local => {
            let extra: [&str; 0] = [];
            proof {
                assert(arg_texts(extra@) =~= seq![]);
            }
            add_worktree(worktree_path, Some(branch), extra.as_slice())
        },
        BranchSource::Remote => {
            let remote_ref = concat("origin/", branch);
            let extra: [&str; 3] = ["--track", "-b", branch];
            proof {
                assert(arg_texts(extra@) =~= seq!["--track"@, "-b"@, branch@]);
            }
            add_worktree(worktree_path, Some(remote_ref.as_str()), extra.as_slice())
        },
        BranchSource::New { base } => {
            let extra: [&str; 2] = ["-b", branch];
            proof {
                assert(arg_texts(extra@) =~= seq!["-b"@, branch@]);
            }
            add_worktree(worktree_path, Some(base.as_str()), extra.as_slice())
        },
    }
}

/// The branch that the user chose.
#[derive(Debug, PartialEq)]
pub enum BranchChoice {
    /// A branch that exists.
    Existing(String),
    /// A branch to create from `base`.
    New { name: String, base: String },
}

/// The screen that the picker shows.
#[derive(Debug)]
pub enum AddStep {
    /// The list of branches.
    SelectBranch,
    /// The name of a new branch.
    NewBranchName,
    /// The base of the new branch `new_name`.
    BaseBranch { new_name: String },
}

/// The picker: the branches to choose from, the screen it is on, and the
/// two widgets that the screens use.
#[derive(Debug)]
pub struct AddPicker {
    pub step: AddStep,
    pub branches: Vec<String>,
    pub extras: Vec<String>,
    pub default_base: Option<String>,
    pub select: SelectList,
    pub input: TextInput,
}

/// The label of the branch list.
pub const SELECT_LABEL: &'static str = "Select a branch";

/// The label of the field for the name of a new branch.
pub const NAME_LABEL: &'static str = "New branch name";

/// The extra option of the branch list.
pub const CREATE_OPTION: &'static str = "Create a new branch";

/// The base that is offered where the caller named none.
pub const FALLBACK_BASE: &'static str = "main";

impl AddPicker {
    /// The label of the field for the base of the new branch `name`.
    pub open spec fn base_label(name: Seq<char>) -> Seq<char> {
        "Base branch for '"@ + name + "'"@
    }

    /// The base that the base field offers.
    pub open spec fn base_default(&self) -> Seq<char> {
        match self.default_base {
            Some(b) => b@,
            None => FALLBACK_BASE@,
        }
    }

    /// The list offers to create a branch exactly where there are branches
    /// to list; both widgets are in order, and the list shows the branches.
    pub open spec fn wf(&self) -> bool {
        &&& self.branches@.len() + 1 < usize::MAX
        &&& self.extras@.len() == if self.branches@.len() == 0 {
            0nat
        } else {
            1nat
        }
        &&& self.extras@.len() == 1 ==> self.extras@[0]@ == CREATE_OPTION@
        &&& self.select.wf()
        &&& self.select.items@ == self.branches@
        &&& self.select.extra_options@ == self.extras@
        &&& self.input.wf()
    }

    /// The picker has the same branches and the same offered base.
    pub open spec fn same_inputs(&self, other: &AddPicker) -> bool {
        &&& self.branches == other.branches
        &&& self.extras == other.extras
        &&& self.default_base == other.default_base
    }

    /// A picker over `branches`. It starts on the list, or on the name of
    /// a new branch where there is no branch to list.
    pub fn new(branches: Vec<String>, default_base: Option<String>) -> (picker: AddPicker)
        requires
            branches@.len() + 1 < usize::MAX,
        ensures
            picker.wf(),
            picker.branches == branches,
            picker.default_base == default_base,
            branches@.len() == 0 <==> picker.step is NewBranchName,
            branches@.len() > 0 <==> picker.step is SelectBranch,
            picker.select.is_fresh(SELECT_LABEL@, picker.branches@, picker.extras@),
            picker.input.holds(NAME_LABEL@, None, Seq::empty(), 0),
    {
        let step = if branches.len() == 0 {
            AddStep::NewBranchName
        } else {
            AddStep::SelectBranch
        };
        let extras = if branches.len() == 0 {
            Vec::new()
        } else {
            vec![CREATE_OPTION.to_owned()]
        };
        let select = SelectList::new(SELECT_LABEL, branches.clone(), extras.clone());
        let input = TextInput::new(NAME_LABEL);
        AddPicker { step, branches, extras, default_base, select, input }
    }

    /// One step of the picker on the branch list. A picked branch ends
    /// the flow with that branch; the extra option leads to a blank name
    /// field; Escape cancels the flow; other events are the list's own.
    pub open spec fn steps_on_list(
        &self,
        event: &Event,
        next: &AddPicker,
        result: Result<FlowOutcome<BranchChoice>, FlowError>,
    ) -> bool {
        match self.select.spec_action(event) {
            select_list::Action::Interrupt => result == Err::<
                FlowOutcome<BranchChoice>,
                FlowError,
            >(FlowError::Interrupted) && *next == *self,
            select_list::Action::Cancel => result == Err::<FlowOutcome<BranchChoice>, FlowError>(
                FlowError::Cancelled,
            ) && *next == *self,
            select_list::Action::Selected(SelectResult::Item(i)) => {
                &&& *next == *self
                &&& i < self.branches@.len()
                &&& result matches Ok(FlowOutcome::Done(BranchChoice::Existing(name)))
                &&& name@ == self.branches@[i as int]@
            },
            select_list::Action::Selected(SelectResult::Extra(_)) => {
                &&& result matches Ok(FlowOutcome::Continue)
                &&& next.step is NewBranchName
                &&& next.select == self.select
                &&& next.input.holds(NAME_LABEL@, None, Seq::empty(), 0)
            },
            select_list::Action::Continue => {
                &&& result matches Ok(FlowOutcome::Continue)
                &&& next.step is SelectBranch
                &&& self.select.steps_to(event, &next.select)
                &&& next.input == self.input
            },
        }
    }

    /// One step of the picker on the name field. A name that is not empty
    /// leads to the base field, which offers the caller's base; an empty
    /// one is not taken. Escape leads back to a fresh list, or cancels the
    /// flow where there is no branch to list. Other events are the field's
    /// own.
    pub open spec fn steps_on_name(
        &self,
        event: &Event,
        next: &AddPicker,
        result: Result<FlowOutcome<BranchChoice>, FlowError>,
    ) -> bool {
        if event.is_interrupt() {
            result == Err::<FlowOutcome<BranchChoice>, FlowError>(FlowError::Interrupted) && *next
                == *self
        } else if event.key() == Some(KeyCode::Enter) {
            let name = self.input.spec_result();
            if name.len() > 0 {
                &&& result matches Ok(FlowOutcome::Continue)
                &&& next.step is BaseBranch
                &&& next.step->new_name@ == name
                &&& next.select == self.select
                &&& next.input.holds(
                    Self::base_label(name),
                    Some(self.base_default()),
                    Seq::empty(),
                    0,
                )
            } else {
                result matches Ok(FlowOutcome::Continue) && *next == *self
            }
        } else if event.key() == Some(KeyCode::Esc) {
            if self.branches@.len() == 0 {
                result == Err::<FlowOutcome<BranchChoice>, FlowError>(FlowError::Cancelled)
                    && *next == *self
            } else {
                &&& result matches Ok(FlowOutcome::Continue)
                &&& next.step is SelectBranch
                &&& next.input == self.input
                &&& next.select.is_fresh(SELECT_LABEL@, self.branches@, self.extras@)
            }
        } else {
            &&& result matches Ok(FlowOutcome::Continue)
            &&& next.step is NewBranchName
            &&& next.select == self.select
            &&& self.input.steps_to(event, &next.input)
        }
    }

    /// One step of the picker on the base field for the new branch
    /// `new_name`. Enter ends the flow with the new branch and the field's
    /// result as its base; Escape leads back to the name field, which holds
    /// the name again; other events are the field's own.
    pub open spec fn steps_on_base(
        &self,
        new_name: Seq<char>,
        event: &Event,
        next: &AddPicker,
        result: Result<FlowOutcome<BranchChoice>, FlowError>,
    ) -> bool {
        if event.is_interrupt() {
            result == Err::<FlowOutcome<BranchChoice>, FlowError>(FlowError::Interrupted) && *next
                == *self
        } else if event.key() == Some(KeyCode::Enter) {
            &&& *next == *self
            &&& result matches Ok(FlowOutcome::Done(BranchChoice::New { name, base }))
            &&& name@ == new_name
            &&& base@ == self.input.spec_result()
        } else if event.key() == Some(KeyCode::Esc) {
            &&& result matches Ok(FlowOutcome::Continue)
            &&& next.step is NewBranchName
            &&& next.select == self.select
            &&& next.input.holds(NAME_LABEL@, None, new_name, new_name.len() as int)
        } else {
            &&& result matches Ok(FlowOutcome::Continue)
            &&& next.step is BaseBranch
            &&& next.step->new_name@ == new_name
            &&& next.select == self.select
            &&& self.input.steps_to(event, &next.input)
        }
    }

    /// One step of the picker, by the screen it is on.
    pub open spec fn steps(
        &self,
        event: &Event,
        next: &AddPicker,
        result: Result<FlowOutcome<BranchChoice>, FlowError>,
    ) -> bool {
        &&& next.same_inputs(self)
        &&& match self.step {
            AddStep::SelectBranch => self.steps_on_list(event, next, result),
            AddStep::NewBranchName => self.steps_on_name(event, next, result),
            AddStep::BaseBranch { new_name } => self.steps_on_base(new_name@, event, next, result),
        }
    }

    /// Hands `event` to the widget of the current screen and moves between
    /// the screens as [`AddPicker::steps`] says.
    pub fn handle_event(&mut self, event: &Event) -> (result: Result<
        FlowOutcome<BranchChoice>,
        FlowError,
    >)
        requires
            old(self).wf(),
        ensures
            final(self).wf(),
            old(self).steps(event, final(self), result),
    {
        match &self.step {
            AddStep::SelectBranch => {
                match self.select.handle_event(event) {
                    select_list::Action::Selected(picked) => match picked {
                        SelectResult::Item(i) => {
                            return Ok(
                                FlowOutcome::Done(BranchChoice::Existing(self.branches[i].clone())),
                            );
                        },
                        SelectResult::Extra(_) => {
                            self.input = TextInput::new(NAME_LABEL);
                            self.step = AddStep::NewBranchName;
                        },
                    },
                    select_list::Action::Cancel => {
                        return Err(FlowError::Cancelled);
                    },
                    select_list::Action::Interrupt => {
                        return Err(FlowError::Interrupted);
                    },
                    select_list::Action::Continue => {},
                }
            },
            AddStep::NewBranchName => {
                match self.input.handle_event(event) {
                    text_input::Action::Submit(name) => {
                        if !name.as_str().is_empty() {
                            let base_default = match &self.default_base {
                                Some(b) => b.clone(),
                                None => FALLBACK_BASE.to_owned(),
                            };
                            let label = concat(
                                concat("Base branch for '", name.as_str()).as_str(),
                                "'",
                            );
                            self.input = TextInput::new(label.as_str()).with_default(
                                base_default.as_str(),
                            );
                            self.step = AddStep::BaseBranch { new_name: name };
                        }
                    },
                    text_input::Action::Cancel => {
                        if self.branches.len() == 0 {
                            return Err(FlowError::Cancelled);
                        }
                        self.select = SelectList::new(
                            SELECT_LABEL,
                            self.branches.clone(),
                            self.extras.clone(),
                        );
                        self.step = AddStep::SelectBranch;
                    },
                    text_input::Action::Interrupt => {
                        return Err(FlowError::Interrupted);
                    },
                    text_input::Action::Continue => {},
                }
            },
            AddStep::BaseBranch { new_name } => {
                let name = new_name.clone();
                match self.input.handle_event(event) {
                    text_input::Action::Submit(base) => {
                        return Ok(FlowOutcome::Done(BranchChoice::New { name, base }));
                    },
                    text_input::Action::Cancel => {
                        self.input = TextInput::new(NAME_LABEL).with_initial(name.as_str());
                        self.step = AddStep::NewBranchName;
                    },
                    text_input::Action::Interrupt => {
                        return Err(FlowError::Interrupted);
                    },
                    text_input::Action::Continue => {},
                }
            },
        }
        Ok(FlowOutcome::Continue)
    }

    /// What the picker draws on a surface of size `area`: the widget of
    /// the current screen, on the base screen under a line that names the
    /// new branch, and the help line of that screen.
    pub open spec fn spec_render(&self, area: Rect) -> Seq<DrawModel> {
        match self.step {
            AddStep::SelectBranch => self.select.spec_render(widget_area(area)).push(
                help_draw(area, HELP_SELECT@),
            ),
            AddStep::NewBranchName => self.input.spec_render(widget_area(area)).push(
                help_draw(area, HELP_WIZARD@),
            ),
            AddStep::BaseBranch { new_name } => (seq![
                DrawModel::Line {
                    area: Rect { x: 0, y: 1, width: area.width, height: 1 },
                    spans: seq![
                        SpanModel { text: "  New branch: "@, style: Style::Dim },
                        SpanModel { text: new_name@, style: Style::Normal },
                    ],
                },
            ] + self.input.spec_render(
                Rect { x: 0, y: 3, width: area.width, height: area.height.saturating_sub(5) },
            )).push(help_draw(area, HELP_WIZARD@)),
        }
    }

    /// Draws the picker on the whole of `frame`.
    pub fn render(&self, frame: &mut Frame)
        requires
            self.wf(),
        ensures
            final(frame).area == old(frame).area,
            final(frame)@ == old(frame)@ + self.spec_render(old(frame).area),
    {
        let area = frame.area();
        let widget = Rect::new(0, 1, area.width, area.height.saturating_sub(3));
        match &self.step {
            AddStep::SelectBranch => {
                self.select.render(frame, widget);
                frame.help_line(HELP_SELECT);
            },
            AddStep::NewBranchName => {
                self.input.render(frame, widget);
                frame.help_line(HELP_WIZARD);
            },
            AddStep::BaseBranch { new_name } => {
                let info = vec![
                    Span::styled("  New branch: ", Style::Dim),
                    Span::styled(new_name.as_str(), Style::Normal),
                ];
                proof {
                    assert(spans_view(info@) =~= seq![
                        SpanModel { text: "  New branch: "@, style: Style::Dim },
                        SpanModel { text: new_name@, style: Style::Normal },
                    ]);
                }
                frame.line(Rect::new(0, 1, area.width, 1), info);
                let base_area = Rect::new(0, 3, area.width, area.height.saturating_sub(5));
                self.input.render(frame, base_area);
                frame.help_line(HELP_WIZARD);
            },
        }
    }
}

/// The question for the base of a new branch, asked on its own where the
/// branch was named on the command line.
#[derive(Debug)]
pub struct BasePrompt {
    pub input: TextInput,
}

impl BasePrompt {
    /// The label of the prompt for the base of the new branch `branch`.
    pub open spec fn label(branch: Seq<char>) -> Seq<char> {
        "Base branch for new branch '"@ + branch + "'"@
    }

    /// A prompt for the base of `branch` that offers `default`.
    pub fn new(branch: &str, default: &str) -> (prompt: BasePrompt)
        ensures
            prompt.input.holds(Self::label(branch@), Some(default@), Seq::empty(), 0),
    {
        let label = concat(concat("Base branch for new branch '", branch).as_str(), "'");
        BasePrompt { input: TextInput::new(label.as_str()).with_default(default) }
    }

    /// Hands `event` to the field. Enter ends the flow with the field's
    /// result, Escape cancels it, and other events are the field's own.
    pub fn handle_event(&mut self, event: &Event) -> (result: Result<
        FlowOutcome<String>,
        FlowError,
    >)
        requires
            old(self).input.wf(),
        ensures
            final(self).input.wf(),
            old(self).input.steps_to(event, &final(self).input),
            event.is_interrupt() ==> result == Err::<FlowOutcome<String>, FlowError>(
                FlowError::Interrupted,
            ),
            event.key() == Some(KeyCode::Enter) ==> (result matches Ok(FlowOutcome::Done(base))
                && base@ == old(self).input.spec_result()),
            event.key() == Some(KeyCode::Esc) ==> result == Err::<FlowOutcome<String>, FlowError>(
                FlowError::Cancelled,
            ),
            !event.is_interrupt() && event.key() != Some(KeyCode::Enter) && event.key() != Some(
                KeyCode::Esc,
            ) ==> result matches Ok(FlowOutcome::Continue),
    {
        outcome_of_field(self.input.handle_event(event))
    }

    /// What the prompt draws on a surface of size `area`: the field and
    /// the help line.
    pub open spec fn spec_render(&self, area: Rect) -> Seq<DrawModel> {
        self.input.spec_render(widget_area(area)).push(help_draw(area, HELP_WIZARD@))
    }

    /// Draws the prompt on the whole of `frame`.
    pub fn render(&self, frame: &mut Frame)
        requires
            self.input.wf(),
        ensures
            final(frame).area == old(frame).area,
            final(frame)@ == old(frame)@ + self.spec_render(old(frame).area),
    {
        let area = frame.area();
        let widget = Rect::new(0, 1, area.width, area.height.saturating_sub(3));
        self.input.render(frame, widget);
        frame.help_line(HELP_WIZARD);
    }
}

} // verus!
