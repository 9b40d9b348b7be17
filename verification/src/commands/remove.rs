//! Choosing the worktree to remove.

use vstd::prelude::*;
use vstd::pervasive::unreached;
use vstd::string::StringExecFns;
use crate::cli::RemoveMatchMode;
use crate::git::worktree::{
    branch_is, dir_is, dir_name_of, InfoModel, infos, matches_branch_name, matches_dir_name,
    worktree_dir_name, WorktreeInfo,
};
use crate::text::{concat, texts};
use crate::tui::confirm;
use crate::tui::confirm::Confirm;
use crate::tui::event::Event;
use crate::tui::select_list;
use crate::tui::select_list::{SelectList, SelectResult};
use crate::tui::surface::{DrawModel, Frame, help_draw, Rect, widget_area};
use crate::tui::theme::{HELP_CONFIRM, HELP_SELECT};
use crate::tui::{FlowError, FlowOutcome};

verus! {

/// The worktree to remove, by its index in the list of worktrees, and
/// whether its branch is to be deleted too.
#[derive(Debug, PartialEq)]
pub struct RemoveChoice {
    pub worktree_index: usize,
    pub delete_branch: bool,
}

/// Why a name did not lead to one worktree.
#[derive(Debug, PartialEq)]
pub enum ResolveError {
    /// No worktree bears the name.
    NotFound,
    /// These worktrees, by their indices, all bear the name.
    Ambiguous(Vec<usize>),
}

/// The worktree bears `name` in the sense of `mode`.
pub open spec fn bears(w: InfoModel, name: Seq<char>, mode: RemoveMatchMode) -> bool {
    match mode {
        RemoveMatchMode::Auto => branch_is(w, name) || dir_is(w, name),
        RemoveMatchMode::Branch => branch_is(w, name),
        RemoveMatchMode::Dir => dir_is(w, name),
    }
}

/// The indices of those among the first `n` worktrees that bear `name`,
/// in rising order.
pub open spec fn bearers(
    worktrees: Seq<InfoModel>,
    name: Seq<char>,
    mode: RemoveMatchMode,
    n: int,
) -> Seq<usize>
    decreases n,
{
    if n <= 0 {
        Seq::empty()
    } else if bears(worktrees[n - 1], name, mode) {
        bearers(worktrees, name, mode, n - 1).push((n - 1) as usize)
    } else {
        bearers(worktrees, name, mode, n - 1)
    }
}

/// What [`resolve_by_name`] answers: the one worktree that bears the
/// name, or why there is not exactly one.
pub open spec fn resolved(
    worktrees: Seq<InfoModel>,
    name: Seq<char>,
    mode: RemoveMatchMode,
    result: Result<usize, ResolveError>,
) -> bool {
    let all = bearers(worktrees, name, mode, worktrees.len() as int);
    if all.len() == 0 {
        result == Err::<usize, ResolveError>(ResolveError::NotFound)
    } else if all.len() == 1 {
        result == Ok::<usize, ResolveError>(all[0])
    } else {
        result matches Err(ResolveError::Ambiguous(found)) && found@ == all
    }
}

/// The indices of the bearers are indices of worktrees.
pub proof fn lemma_bearers_in_range(
    worktrees: Seq<InfoModel>,
    name: Seq<char>,
    mode: RemoveMatchMode,
    n: int,
)
    requires
        0 <= n <= worktrees.len(),
        n <= usize::MAX,
    ensures
        bearers(worktrees, name, mode, n).len() <= n,
        forall|j: int|
            0 <= j < bearers(worktrees, name, mode, n).len() ==> #[trigger] bearers(
                worktrees,
                name,
                mode,
                n,
            )[j] < n && bears(worktrees[bearers(worktrees, name, mode, n)[j] as int], name, mode),
    decreases n,
{
    if n > 0 {
        lemma_bearers_in_range(worktrees, name, mode, n - 1);
    }
}

/// Resolves the worktree that `name` stands for. The answer is the index
/// of the one worktree that bears the name; no bearer and more than one
/// are errors, and such an error speaks of worktrees of the list, so that
/// its text can be asked for.
pub fn resolve_by_name(
    worktrees: &[WorktreeInfo],
    name: &str,
    match_mode: RemoveMatchMode,
) -> (result: Result<usize, ResolveError>)
    ensures
        resolved(infos(worktrees@), name@, match_mode, result),
        result matches Ok(i) ==> i < worktrees@.len() && bears(
            worktrees@[i as int]@,
            name@,
            match_mode,
        ),
        result matches Err(e) ==> e.fits(worktrees@),
{
    let mut found: Vec<usize> = Vec::new();
    let mut i: usize = 0;
    while i < worktrees.len()
        invariant
            i <= worktrees@.len(),
            found@ == bearers(infos(worktrees@), name@, match_mode, i as int),
        decreases worktrees@.len() - i,
    {
        let w = &worktrees[i];
        let bears_name = match match_mode {
            RemoveMatchMode::Auto => matches_branch_name(w, name) || matches_dir_name(w, name),
            RemoveMatchMode::Branch => matches_branch_name(w, name),
            RemoveMatchMode::Dir => matches_dir_name(w, name),
        };
        if bears_name {
            found.push(i);
        }
        i += 1;
    }
    proof {
        lemma_bearers_in_range(infos(worktrees@), name@, match_mode, worktrees@.len() as int);
    }
    if found.len() == 0 {
        Err(ResolveError::NotFound)
    } else if found.len() > 1 {
        Err(ResolveError::Ambiguous(found))
    } else {
        Ok(found[0])
    }
}

/// The line that names one of several worktrees that bear a name.
pub open spec fn candidate_line(w: InfoModel) -> Seq<char> {
    "  - branch="@ + (match w.branch {
        Some(b) => b,
        None => "<none>"@,
    }) + " dir="@ + dir_name_of(w.path) + " path="@ + w.path
}

/// The lines of the first `n` of the worktrees `found`, one under the
/// other.
pub open spec fn candidate_lines(worktrees: Seq<InfoModel>, found: Seq<usize>, n: int) -> Seq<char>
    decreases n,
{
    if n <= 0 {
        Seq::empty()
    } else if n == 1 {
        candidate_line(worktrees[found[0] as int])
    } else {
        candidate_lines(worktrees, found, n - 1) + "\n"@ + candidate_line(
            worktrees[found[n - 1] as int],
        )
    }
}

impl ResolveError {
    /// The error speaks of worktrees of this list.
    pub open spec fn fits(&self, worktrees: Seq<WorktreeInfo>) -> bool {
        match self {
            ResolveError::NotFound => true,
            ResolveError::Ambiguous(found) => forall|j: int|
                0 <= j < found@.len() ==> #[trigger] found@[j] < worktrees.len(),
        }
    }

    /// The text of the error for the name that was asked for.
    pub open spec fn spec_message(&self, worktrees: Seq<InfoModel>, name: Seq<char>) -> Seq<
        char,
    > {
        match self {
            ResolveError::NotFound => "worktree not found: "@ + name,
            ResolveError::Ambiguous(found) => "ambiguous worktree name '"@ + name
                + "' matched multiple worktrees:\n"@ + candidate_lines(
                worktrees,
                found@,
                found@.len() as int,
            ) + "\nrerun with --match branch or --match dir"@,
        }
    }

    /// The text of the error: that nothing was found, or the worktrees
    /// that were, one a line, and how to tell them apart.
    pub fn message(&self, worktrees: &[WorktreeInfo], name: &str) -> (text: String)
        requires
            self.fits(worktrees@),
        ensures
            text@ == self.spec_message(infos(worktrees@), name@),
    {
        match self {
            ResolveError::NotFound => concat("worktree not found: ", name),
            ResolveError::Ambiguous(found) => {
                let mut text = concat("ambiguous worktree name '", name);
                text.append("' matched multiple worktrees:\n");
                let ghost head = text@;
                let mut j: usize = 0;
                while j < found.len()
                    invariant
                        j <= found@.len(),
                        forall|k: int|
                            0 <= k < found@.len() ==> #[trigger] found@[k] < worktrees@.len(),
                        text@ == head + candidate_lines(infos(worktrees@), found@, j as int),
                    decreases found@.len() - j,
                {
                    let w = &worktrees[found[j]];
                    if j > 0 {
                        text.append("\n");
                    }
                    text.append("  - branch=");
                    match &w.branch {
                        Some(b) => text.append(b.as_str()),
                        None => text.append("<none>"),
                    }
                    text.append(" dir=");
                    text.append(worktree_dir_name(w).as_str());
                    text.append(" path=");
                    text.append(w.path.as_str());
                    j += 1;
                }
                text.append("\nrerun with --match branch or --match dir");
                text
            },
        }
    }
}

/// The screen that the picker shows.
#[derive(Debug)]
pub enum PickerStep {
    /// The list of worktrees.
    SelectWorktree,
    /// The question whether the branch of worktree `wt_index` goes too.
    ConfirmDeleteBranch { wt_index: usize },
}

/// The picker: the worktrees, those of them that can be removed with
/// the labels they are listed under, and the two widgets.
#[derive(Debug)]
pub struct RemovePicker {
    pub step: PickerStep,
    pub candidates: Vec<(usize, String)>,
    pub worktrees: Vec<WorktreeInfo>,
    pub flag_delete_branch: bool,
    pub select: SelectList,
    pub confirm: Confirm,
}

/// The label of the list of worktrees.
pub const SELECT_LABEL: &'static str = "Select a worktree to remove";

/// What a worktree is listed under: its branch, or `<detached>`, and the
/// name of its directory in brackets.
pub open spec fn candidate_label(w: InfoModel) -> Seq<char> {
    (match w.branch {
        Some(b) => b,
        None => "<detached>"@,
    }) + " ("@ + dir_name_of(w.path) + ")"@
}

/// The indices of those among the first `n` worktrees that are not the
/// bare repository, in rising order.
pub open spec fn removable(worktrees: Seq<InfoModel>, n: int) -> Seq<usize>
    decreases n,
{
    if n <= 0 {
        Seq::empty()
    } else if !worktrees[n - 1].is_bare {
        removable(worktrees, n - 1).push((n - 1) as usize)
    } else {
        removable(worktrees, n - 1)
    }
}

/// The removable worktrees are worktrees of the list and not bare.
pub proof fn lemma_removable(worktrees: Seq<InfoModel>, n: int)
    requires
        0 <= n <= worktrees.len(),
        n <= usize::MAX,
    ensures
        removable(worktrees, n).len() <= n,
        forall|j: int|
            0 <= j < removable(worktrees, n).len() ==> #[trigger] removable(worktrees, n)[j] < n
                && !worktrees[removable(worktrees, n)[j] as int].is_bare,
    decreases n,
{
    if n > 0 {
        lemma_removable(worktrees, n - 1);
    }
}

/// The question whether the branch `branch` goes too.
pub open spec fn confirm_label(branch: Seq<char>) -> Seq<char> {
    "Delete branch '"@ + branch + "' too?"@
}

impl RemovePicker {
    /// Candidate `j` is the `j`-th removable worktree under its label.
    pub open spec fn candidate_ok(&self, j: int) -> bool {
        let all = infos(self.worktrees@);
        let index = removable(all, all.len() as int)[j];
        &&& self.candidates@[j].0 == index
        &&& self.candidates@[j].1@ == candidate_label(all[index as int])
        &&& self.select.items@[j]@ == candidate_label(all[index as int])
    }

    /// The candidates are the removable worktrees, the list shows their
    /// labels and has no extra option, and a pending question is about a
    /// worktree of the list.
    pub open spec fn wf(&self) -> bool {
        let all = infos(self.worktrees@);
        &&& self.worktrees@.len() < usize::MAX
        &&& self.candidates@.len() == removable(all, all.len() as int).len()
        &&& self.select.items@.len() == self.candidates@.len()
        &&& forall|j: int| 0 <= j < self.candidates@.len() ==> self.candidate_ok(j)
        &&& self.select.extra_options@.len() == 0
        &&& self.select.label@ == SELECT_LABEL@
        &&& self.select.wf()
        &&& match self.step {
            PickerStep::SelectWorktree => true,
            PickerStep::ConfirmDeleteBranch { wt_index } => wt_index < self.worktrees@.len(),
        }
    }

    /// `other` is over the same worktrees with the same flag.
    pub open spec fn same_inputs(&self, other: &RemovePicker) -> bool {
        &&& self.worktrees == other.worktrees
        &&& self.candidates == other.candidates
        &&& self.flag_delete_branch == other.flag_delete_branch
    }

    fn labels(candidates: &Vec<(usize, String)>) -> (display: Vec<String>)
        ensures
            display@.len() == candidates@.len(),
            forall|j: int| 0 <= j < display@.len() ==> #[trigger] display@[j]@ == candidates@[j].1@,
    {
        let mut display: Vec<String> = Vec::new();
        let mut j: usize = 0;
        while j < candidates.len()
            invariant
                j <= candidates@.len(),
                display@.len() == j,
                forall|k: int| 0 <= k < j ==> #[trigger] display@[k]@ == candidates@[k].1@,
            decreases candidates@.len() - j,
        {
            display.push(candidates[j].1.clone());
            j += 1;
        }
        display
    }

    /// A picker over `worktrees`, on the list of those that can be
    /// removed. With `flag_delete_branch` the branch of the picked worktree
    /// goes too and is not asked about.
    pub fn new(worktrees: Vec<WorktreeInfo>, flag_delete_branch: bool) -> (picker: RemovePicker)
        requires
            worktrees@.len() < usize::MAX,
        ensures
            picker.wf(),
            picker.worktrees == worktrees,
            picker.flag_delete_branch == flag_delete_branch,
            picker.step is SelectWorktree,
            picker.select.is_fresh(SELECT_LABEL@, picker.select.items@, Seq::empty()),
    {
        let mut candidates: Vec<(usize, String)> = Vec::new();
        let mut i: usize = 0;
        let ghost all = infos(worktrees@);
        while i < worktrees.len()
            invariant
                i <= worktrees@.len(),
                all == infos(worktrees@),
                candidates@.len() <= i,
                candidates@.len() == removable(all, i as int).len(),
                forall|j: int|
                    0 <= j < candidates@.len() ==> {
                        &&& (#[trigger] candidates@[j]).0 == removable(all, i as int)[j]
                        &&& candidates@[j].0 < i
                        &&& candidates@[j].1@ == candidate_label(all[candidates@[j].0 as int])
                    },
            decreases worktrees@.len() - i,
        {
            let wt = &worktrees[i];
            if !wt.is_bare {
                let mut label = match &wt.branch {
                    Some(b) => b.clone(),
                    None => "<detached>".to_owned(),
                };
                label.append(" (");
                label.append(worktree_dir_name(wt).as_str());
                label.append(")");
                candidates.push((i, label));
            }
            i += 1;
        }
        let select = SelectList::new(SELECT_LABEL, Self::labels(&candidates), Vec::new());
        RemovePicker {
            step: PickerStep::SelectWorktree,
            candidates,
            worktrees,
            flag_delete_branch,
            select,
            confirm: Confirm::new(""),
        }
    }

    /// One step of the picker on the list. Picking a worktree without a
    /// branch ends the flow at once, with no branch to delete, whatever the
    /// flag says. Picking one with a branch ends the flow at once where the
    /// branch goes in any case, and else leads to the question about the
    /// branch. Escape cancels the flow; other events are the list's own.
    pub open spec fn steps_on_list(
        &self,
        event: &Event,
        next: &RemovePicker,
        result: Result<FlowOutcome<RemoveChoice>, FlowError>,
    ) -> bool {
        match self.select.spec_action(event) {
            select_list::Action::Interrupt => result == Err::<
                FlowOutcome<RemoveChoice>,
                FlowError,
            >(FlowError::Interrupted) && *next == *self,
            select_list::Action::Cancel => result == Err::<FlowOutcome<RemoveChoice>, FlowError>(
                FlowError::Cancelled,
            ) && *next == *self,
            select_list::Action::Selected(SelectResult::Item(i)) => {
                let wt_index = self.candidates@[i as int].0;
                let branch = self.worktrees@[wt_index as int]@.branch;
                if branch is None {
                    *next == *self && result == Ok::<FlowOutcome<RemoveChoice>, FlowError>(
                        FlowOutcome::Done(
                            RemoveChoice { worktree_index: wt_index, delete_branch: false },
                        ),
                    )
                } else if self.flag_delete_branch {
                    *next == *self && result == Ok::<FlowOutcome<RemoveChoice>, FlowError>(
                        FlowOutcome::Done(
                            RemoveChoice { worktree_index: wt_index, delete_branch: true },
                        ),
                    )
                } else {
                    &&& result matches Ok(FlowOutcome::Continue)
                    &&& next.step == (PickerStep::ConfirmDeleteBranch { wt_index })
                    &&& next.select == self.select
                    &&& next.confirm.label@ == confirm_label(branch->0)
                    &&& !next.confirm.selected
                }
            },
            select_list::Action::Selected(SelectResult::Extra(_)) => false,
            select_list::Action::Continue => {
                &&& result matches Ok(FlowOutcome::Continue)
                &&& next.step is SelectWorktree
                &&& next.confirm == self.confirm
                &&& self.select.steps_to(event, &next.select)
            },
        }
    }

    /// One step of the picker on the question about the branch of
    /// worktree `wt_index`. An answer ends the flow with it; Escape leads
    /// back to a fresh list; other events are the question's own.
    pub open spec fn steps_on_confirm(
        &self,
        wt_index: usize,
        event: &Event,
        next: &RemovePicker,
        result: Result<FlowOutcome<RemoveChoice>, FlowError>,
    ) -> bool {
        match Confirm::spec_action(self.confirm.selected, event) {
            confirm::Action::Interrupt => result == Err::<FlowOutcome<RemoveChoice>, FlowError>(
                FlowError::Interrupted,
            ) && *next == *self,
            confirm::Action::Confirmed(yes) => *next == *self && result == Ok::<
                FlowOutcome<RemoveChoice>,
                FlowError,
            >(FlowOutcome::Done(RemoveChoice { worktree_index: wt_index, delete_branch: yes })),
            confirm::Action::Cancel => {
                &&& result matches Ok(FlowOutcome::Continue)
                &&& next.step is SelectWorktree
                &&& next.confirm == self.confirm
                &&& next.select.is_fresh(SELECT_LABEL@, next.select.items@, Seq::empty())
                &&& texts(next.select.items@) == texts(self.select.items@)
            },
            confirm::Action::Continue => {
                &&& result matches Ok(FlowOutcome::Continue)
                &&& next.step == self.step
                &&& next.select == self.select
                &&& self.confirm.steps_to(event, &next.confirm)
            },
        }
    }

    /// One step of the picker, by the screen it is on.
    pub open spec fn steps(
        &self,
        event: &Event,
        next: &RemovePicker,
        result: Result<FlowOutcome<RemoveChoice>, FlowError>,
    ) -> bool {
        &&& next.same_inputs(self)
        &&& match self.step {
            PickerStep::SelectWorktree => self.steps_on_list(event, next, result),
            PickerStep::ConfirmDeleteBranch { wt_index } => self.steps_on_confirm(
                wt_index,
                event,
                next,
                result,
            ),
        }
    }

    /// Hands `event` to the widget of the current screen and moves between
    /// the screens as [`RemovePicker::steps`] says. A flow that ends names
    /// a worktree of the list that is not the bare repository.
    pub fn handle_event(&mut self, event: &Event) -> (result: Result<
        FlowOutcome<RemoveChoice>,
        FlowError,
    >)
        requires
            old(self).wf(),
        ensures
            final(self).wf(),
            old(self).steps(event, final(self), result),
            result matches Ok(FlowOutcome::Done(choice)) ==> choice.worktree_index < old(
                self,
            ).worktrees@.len(),
    {
        proof {
            let all = infos(self.worktrees@);
            lemma_removable(all, all.len() as int);
        }
        match &self.step {
            PickerStep::SelectWorktree => {
                match self.select.handle_event(event) {
                    select_list::Action::Selected(picked) => match picked {
                        SelectResult::Item(i) => {
                            proof {
                                assert(self.candidate_ok(i as int));
                            }
                            let wt_index = self.candidates[i].0;
                            match &self.worktrees[wt_index].branch {
                                Some(branch) => {
                                    if self.flag_delete_branch {
                                        return Ok(
                                            FlowOutcome::Done(
                                                RemoveChoice {
                                                    worktree_index: wt_index,
                                                    delete_branch: true,
                                                },
                                            ),
                                        );
                                    }
                                    let label = concat(
                                        concat("Delete branch '", branch.as_str()).as_str(),
                                        "' too?",
                                    );
                                    self.confirm = Confirm::new(label.as_str());
                                    self.step = PickerStep::ConfirmDeleteBranch { wt_index };
                                },
                                None => {
                                    return Ok(
                                        FlowOutcome::Done(
                                            RemoveChoice {
                                                worktree_index: wt_index,
                                                delete_branch: false,
                                            },
                                        ),
                                    );
                                },
                            }
                        },
                        SelectResult::Extra(_) => {
                            return unreached();
                        },
                    },
                    select_list::Action::Cancel => {
                        return Err(FlowError::Cancelled);
                    },
                    select_list::Action::Interrupt => {
                        return Err(FlowError::Interrupted);
                    },
                    select_list::Action::Continue => {},
                }
            },
            PickerStep::ConfirmDeleteBranch { wt_index } => {
                let wt_index = *wt_index;
                match self.confirm.handle_event(event) {
                    confirm::Action::Confirmed(yes) => {
                        return Ok(
                            FlowOutcome::Done(
                                RemoveChoice { worktree_index: wt_index, delete_branch: yes },
                            ),
                        );
                    },
                    confirm::Action::Cancel => {
                        self.select = SelectList::new(
                            SELECT_LABEL,
                            Self::labels(&self.candidates),
                            Vec::new(),
                        );
                        self.step = PickerStep::SelectWorktree;
                        proof {
                            assert(texts(self.select.items@) =~= texts(old(self).select.items@))
                                by {
                                assert forall|j: int|
                                    0 <= j < self.select.items@.len() implies texts(
                                    self.select.items@,
                                )[j] == texts(old(self).select.items@)[j] by {
                                    assert(old(self).candidate_ok(j));
                                }
                            }
                            assert forall|j: int|
                                0 <= j < self.candidates@.len() implies self.candidate_ok(j) by {
                                assert(old(self).candidate_ok(j));
                            }
                        }
                    },
                    confirm::Action::Interrupt => {
                        return Err(FlowError::Interrupted);
                    },
                    confirm::Action::Continue => {},
                }
            },
        }
        proof {
            assert forall|j: int| 0 <= j < self.candidates@.len() implies self.candidate_ok(j) by {
                assert(old(self).candidate_ok(j));
            }
        }
        Ok(FlowOutcome::Continue)
    }

    /// What the picker draws on a surface of size `area`: the widget of
    /// the current screen and the help line of that screen.
    pub open spec fn spec_render(&self, area: Rect) -> Seq<DrawModel> {
        match self.step {
            PickerStep::SelectWorktree => self.select.spec_render(widget_area(area)).push(
                help_draw(area, HELP_SELECT@),
            ),
            PickerStep::ConfirmDeleteBranch { wt_index } => self.confirm.spec_render(
                widget_area(area),
            ).push(help_draw(area, HELP_CONFIRM@)),
        }
    }

    /// Draws the picker on the whole of `frame`.
    pub fn render(&self, frame: &mut Frame)
        requires
            self.wf(),
        ensures
            final(frame).area == old(frame).area,
            final(frame)@ == old(frame)@ + self.spec_render(old(frame).area),
    {
        let area = frame.area();
        let widget = Rect::new(0, 1, area.width, area.height.saturating_sub(3));
        match &self.step {
            PickerStep::SelectWorktree => {
                self.select.render(frame, widget);
                frame.help_line(HELP_SELECT);
            },
            PickerStep::ConfirmDeleteBranch { .. } => {
                self.confirm.render(frame, widget);
                frame.help_line(HELP_CONFIRM);
            },
        }
    }
}

/// Picking a worktree without a branch ends the flow at once with that
/// worktree and nothing to delete, whether or not the branch is to go in
/// any case; the question about the branch is never asked.
pub proof fn law_no_branch_to_delete(
    picker: RemovePicker,
    event: Event,
    next: RemovePicker,
    result: Result<FlowOutcome<RemoveChoice>, FlowError>,
    i: usize,
)
    requires
        picker.wf(),
        picker.step is SelectWorktree,
        picker.steps(&event, &next, result),
        picker.select.spec_action(&event) == select_list::Action::Selected(SelectResult::Item(i)),
        picker.worktrees@[picker.candidates@[i as int].0 as int].branch is None,
    ensures
        result == Ok::<FlowOutcome<RemoveChoice>, FlowError>(
            FlowOutcome::Done(
                RemoveChoice {
                    worktree_index: picker.candidates@[i as int].0,
                    delete_branch: false,
                },
            ),
        ),
        next.step is SelectWorktree,
{
}

/// Where the branch is to go in any case, picking a worktree that has a
/// branch ends the flow at once with the branch deleted; the question about
/// the branch is not asked.
pub proof fn law_flag_skips_the_question(
    picker: RemovePicker,
    event: Event,
    next: RemovePicker,
    result: Result<FlowOutcome<RemoveChoice>, FlowError>,
    i: usize,
)
    requires
        picker.wf(),
        picker.step is SelectWorktree,
        picker.flag_delete_branch,
        picker.steps(&event, &next, result),
        picker.select.spec_action(&event) == select_list::Action::Selected(SelectResult::Item(i)),
        picker.worktrees@[picker.candidates@[i as int].0 as int].branch is Some,
    ensures
        result == Ok::<FlowOutcome<RemoveChoice>, FlowError>(
            FlowOutcome::Done(
                RemoveChoice { worktree_index: picker.candidates@[i as int].0, delete_branch: true },
            ),
        ),
        next.step is SelectWorktree,
{
}

/// What is asked where git will not delete a branch that is not merged.
pub const FORCE_DELETE_QUESTION: &'static str = "Branch has unmerged changes. Force delete?";

/// The question whether a branch that is not merged is to be deleted all
/// the same.
#[derive(Debug)]
pub struct ForceDeletePrompt {
    pub confirm: Confirm,
}

impl ForceDeletePrompt {
    /// The question, with its toggle on "No".
    pub fn new() -> (prompt: ForceDeletePrompt)
        ensures
            prompt.confirm.label@ == FORCE_DELETE_QUESTION@,
            !prompt.confirm.selected,
    {
        ForceDeletePrompt { confirm: Confirm::new(FORCE_DELETE_QUESTION) }
    }

    /// Hands `event` to the question. An answer ends the flow with it,
    /// Escape ends it with "No", and other events are the question's own.
    pub fn handle_event(&mut self, event: &Event) -> (result: Result<FlowOutcome<bool>, FlowError>)
        ensures
            old(self).confirm.steps_to(event, &final(self).confirm),
            result == confirm::question_outcome(
                Confirm::spec_action(old(self).confirm.selected, event),
            ),
    {
        confirm::outcome_of_question(self.confirm.handle_event(event))
    }

    /// What the prompt draws on a surface of size `area`: the question and
    /// the help line.
    pub open spec fn spec_render(&self, area: Rect) -> Seq<DrawModel> {
        self.confirm.spec_render(widget_area(area)).push(help_draw(area, HELP_CONFIRM@))
    }

    /// Draws the prompt on the whole of `frame`.
    pub fn render(&self, frame: &mut Frame)
        ensures
            final(frame).area == old(frame).area,
            final(frame)@ == old(frame)@ + self.spec_render(old(frame).area),
    {
        let area = frame.area();
        let widget = Rect::new(0, 1, area.width, area.height.saturating_sub(3));
        self.confirm.render(frame, widget);
        frame.help_line(HELP_CONFIRM);
    }
}

} // verus!
