//! The workflow tab of the terminal interface: the workflows of the home
//! folder, the run view, and the two parameter editors.
//!
//! Keys are taken here; what needs the file system (scanning, loading and
//! saving) is asked of the caller as a [`WorkflowAction`].

use vstd::prelude::*;
use vstd::string::*;

use crate::docker::job::JobEntry;
use crate::docker::state::{run_view_key, RunViewKey, State as RunView};
use crate::job_config::params::JobParams;
use crate::job_config::workflow::WorkflowMeta;
use crate::keys::Key;
use crate::workflow::job::Job;
use crate::workflow::job_folder::JobFolder;
use crate::workflow::manager::WorkflowManager;
use crate::workflow::params_editor::{EditorOutcome, ParamsEditorState};
use crate::text::{concat2, concat3, decimal, push_decimal};
use crate::workflow::workflow_folder::{age_text, elapsed_secs, now_nanos, WorkflowFolder};

verus! {

/// What the workflow tab asks of its owner.
#[derive(Debug)]
pub enum WorkflowAction {
    Nothing,
    /// List the home folder again and refresh the workflows.
    Refresh,
    /// Scan the jobs of the workflow at `path`, newly selected.
    ScanJobs { path: String },
    /// Open the parameter editor of the job at this index of the run view.
    OpenJobEditor { job: usize },
    /// Open the global parameter editor of the workflow at this index.
    OpenGlobalEditor { workflow: usize },
    /// Save the job's parameters; close the editor once they are saved.
    SaveJobParams(JobParams),
    /// Save the workflow's global parameters; close the editor once saved.
    SaveGlobalParams(JobParams),
    /// Run the workflow the run view holds.
    Run,
}

/// The state of the workflow tab.
#[derive(Debug)]
pub struct State {
    pub selected_workflow: Option<usize>,
    pub workflow_manager: WorkflowManager,
    pub docker_state: RunView,
    pub show_docker_popup: bool,
    pub show_params_popup: bool,
    pub params_editor_state: Option<ParamsEditorState>,
    pub show_global_params_popup: bool,
    pub global_params_editor_state: Option<ParamsEditorState>,
}

/// The selection after moving down through `count` workflows: the next one,
/// wrapping around to the first; the first when none was selected.
pub open spec fn next_selection(sel: Option<usize>, count: nat) -> Option<usize> {
    if count == 0 {
        None
    } else {
        Some(
            match sel {
                Some(i) => ((i + 1) % (count as int)) as usize,
                None => 0usize,
            },
        )
    }
}

/// The selection after moving up through `count` workflows: the previous
/// one, wrapping around to the last; the last when none was selected.
pub open spec fn previous_selection(sel: Option<usize>, count: nat) -> Option<usize> {
    if count == 0 {
        None
    } else {
        Some(
            match sel {
                Some(i) => if i > 0 {
                    (i - 1) as usize
                } else {
                    (count - 1) as usize
                },
                None => (count - 1) as usize,
            },
        )
    }
}

/// The metadata a workflow gets when it has none yet, to hold its global
/// parameters.
pub fn default_global_metadata(workflow_name: String) -> (r: WorkflowMeta)
    ensures
        r.name == workflow_name,
        r.description@ == "Global workflow parameters"@,
        r.dependencies@.len() == 0,
        r.params@.len() == 0,
{
    WorkflowMeta::new(workflow_name, String::from_str("Global workflow parameters"))
}

impl State {
    /// The tab with the workflows of `workflow_manager`, nothing selected and
    /// no popup open.
    pub fn new(workflow_manager: WorkflowManager) -> (r: Self)
        ensures
            r.selected_workflow is None,
            r.workflow_manager == workflow_manager,
            r.docker_state.jobs@.len() == 0,
            !r.docker_state.is_executing_workflow,
            !r.show_docker_popup,
            !r.show_params_popup,
            r.params_editor_state is None,
            !r.show_global_params_popup,
            r.global_params_editor_state is None,
    {
        State {
            selected_workflow: None,
            workflow_manager,
            docker_state: RunView::new(),
            show_docker_popup: false,
            show_params_popup: false,
            params_editor_state: None,
            show_global_params_popup: false,
            global_params_editor_state: None,
        }
    }

    /// The selected workflow, if any.
    pub fn get_selected_workflow(&self) -> (r: Option<&WorkflowFolder>)
        ensures
            r == match self.selected_workflow {
                Some(i) => if i < self.workflow_manager.workflows_view().len() {
                    Some(&self.workflow_manager.workflows_view()[i as int])
                } else {
                    None
                },
                None => None,
            },
    {
        match self.selected_workflow {
            Some(i) => {
                let all = self.workflow_manager.get_workflows();
                if i < all.len() {
                    Some(&all[i])
                } else {
                    None
                }
            },
            None => None,
        }
    }

    /// Shows or hides the run view.
    pub fn toggle_docker_popup(&mut self)
        ensures
            *final(self) == (State { show_docker_popup: !old(self).show_docker_popup, ..*old(self) }),
    {
        self.show_docker_popup = !self.show_docker_popup;
    }

    /// The path of the selected workflow, whose jobs are to be scanned.
    fn selected_path(&self) -> (r: Option<String>)
        ensures
            match r {
                Some(p) => exists|i: usize|
                    self.selected_workflow == Some(i) && i < self.workflow_manager.workflows_view().len()
                        && p@ == self.workflow_manager.workflows_view()[i as int].path@,
                None => self.selected_workflow is None || self.selected_workflow.unwrap()
                    >= self.workflow_manager.workflows_view().len(),
            },
    {
        match self.get_selected_workflow() {
            Some(w) => Some(w.path.clone()),
            None => None,
        }
    }

    /// Selects the next workflow, wrapping around; the jobs of the newly
    /// selected workflow are then to be scanned from the returned path.
    pub fn select_next_workflow(&mut self) -> (r: Option<String>)
        ensures
            final(self).selected_workflow == next_selection(
                old(self).selected_workflow,
                old(self).workflow_manager.workflows_view().len(),
            ),
            final(self).workflow_manager == old(self).workflow_manager,
            r matches Some(p) ==> p@ == old(self).workflow_manager.workflows_view()[final(self).selected_workflow.unwrap() as int].path@,
            r is None <==> old(self).workflow_manager.workflows_view().len() == 0,
    {
        let count = self.workflow_manager.count();
        if count == 0 {
            self.selected_workflow = None;
            return None;
        }
        let next: usize = match self.selected_workflow {
            Some(i) => ((i % count) + 1) % count,
            None => 0,
        };
        proof {
            if let Some(i) = old(self).selected_workflow {
                vstd::arithmetic::div_mod::lemma_add_mod_noop(i as int, 1, count as int);
                vstd::arithmetic::div_mod::lemma_mod_twice(i as int, count as int);
                vstd::arithmetic::div_mod::lemma_add_mod_noop((i % count) as int, 1, count as int);
            }
        }
        self.selected_workflow = Some(next);
        self.selected_path()
    }

    /// Selects the previous workflow, wrapping around; the jobs of the newly
    /// selected workflow are then to be scanned from the returned path.
    pub fn select_previous_workflow(&mut self) -> (r: Option<String>)
        ensures
            final(self).selected_workflow == previous_selection(
                old(self).selected_workflow,
                old(self).workflow_manager.workflows_view().len(),
            ),
            final(self).workflow_manager == old(self).workflow_manager,
            r matches Some(p) ==> p@ == old(self).workflow_manager.workflows_view()[final(self).selected_workflow.unwrap() as int].path@,
            r is None <==> (old(self).workflow_manager.workflows_view().len() == 0 || final(self).selected_workflow.unwrap() >= old(self).workflow_manager.workflows_view().len()),
    {
        let count = self.workflow_manager.count();
        if count == 0 {
            self.selected_workflow = None;
            return None;
        }
        let prev: usize = match self.selected_workflow {
            Some(i) => if i > 0 { i - 1 } else { count - 1 },
            None => count - 1,
        };
        self.selected_workflow = Some(prev);
        self.selected_path()
    }

    /// Puts the scanned jobs of the selected workflow into the run view,
    /// each with a fresh entry.
    pub fn jobs_scanned(&mut self, jobs: Vec<JobFolder>)
        ensures
            final(self).docker_state.jobs@.len() == jobs@.len(),
            final(self).docker_state.job_entries@.len() == jobs@.len(),
            forall|i: int|
                0 <= i < jobs@.len() ==> (#[trigger] final(self).docker_state.jobs@[i]).name == jobs@[i].name
                    && final(self).docker_state.jobs@[i].path == jobs@[i].path
                    && final(self).docker_state.job_entries@[i].name == jobs@[i].name,
            final(self).docker_state.selected_job_index is None,
            final(self).selected_workflow == old(self).selected_workflow,
    {
        self.docker_state.clear_jobs();
        let mut entries: Vec<JobEntry> = Vec::new();
        let mut list: Vec<Job> = Vec::new();
        let mut i: usize = 0;
        while i < jobs.len()
            invariant
                i <= jobs@.len(),
                entries@.len() == i,
                list@.len() == i,
                forall|k: int|
                    0 <= k < i ==> (#[trigger] list@[k]).name == jobs@[k].name && list@[k].path
                        == jobs@[k].path && entries@[k].name == jobs@[k].name,
            decreases jobs@.len() - i,
        {
            entries.push(JobEntry::new(jobs[i].name.clone()));
            list.push(Job::new(jobs[i].name.clone(), jobs[i].path.clone()));
            i = i + 1;
        }
        self.docker_state.job_entries = entries;
        self.docker_state.jobs = list;
    }

    /// The job whose parameters to edit: the job selected in the run view.
    pub fn job_to_edit(&self) -> (r: Option<usize>)
        ensures
            r == match self.docker_state.selected_job_index {
                Some(i) => if i < self.docker_state.jobs@.len() {
                    Some(i)
                } else {
                    None
                },
                None => None,
            },
    {
        if self.docker_state.jobs.len() == 0 {
            return None;
        }
        match self.docker_state.selected_job_index {
            Some(i) => if i < self.docker_state.jobs.len() {
                Some(i)
            } else {
                None
            },
            None => None,
        }
    }

    /// The workflow whose global parameters to edit: the selected one.
    pub fn workflow_to_edit(&self) -> (r: Option<usize>)
        ensures
            r == match self.selected_workflow {
                Some(i) => if i < self.workflow_manager.workflows_view().len() {
                    Some(i)
                } else {
                    None
                },
                None => None,
            },
    {
        match self.selected_workflow {
            Some(i) => if i < self.workflow_manager.count() {
                Some(i)
            } else {
                None
            },
            None => None,
        }
    }

    /// Opens the job parameter editor with `editor`.
    pub fn set_params_editor(&mut self, editor: ParamsEditorState)
        ensures
            final(self).params_editor_state == Some(editor),
            final(self).show_params_popup,
    {
        self.params_editor_state = Some(editor);
        self.show_params_popup = true;
    }

    /// Closes the job parameter editor.
    pub fn close_params_editor(&mut self)
        ensures
            *final(self) == (State { show_params_popup: false, params_editor_state: None, ..*old(self) }),
    {
        self.show_params_popup = false;
        self.params_editor_state = None;
    }

    /// Opens the global parameter editor with `editor`.
    pub fn set_global_params_editor(&mut self, editor: ParamsEditorState)
        ensures
            final(self).global_params_editor_state == Some(editor),
            final(self).show_global_params_popup,
    {
        self.global_params_editor_state = Some(editor);
        self.show_global_params_popup = true;
    }

    /// Closes the global parameter editor.
    pub fn close_global_params_editor(&mut self)
        ensures
            *final(self) == (State {
                show_global_params_popup: false,
                global_params_editor_state: None,
                ..*old(self)
            }),
    {
        self.show_global_params_popup = false;
        self.global_params_editor_state = None;
    }

    /// The job selected in the run view, as a spec.
    pub open spec fn spec_job_to_edit(&self) -> Option<usize> {
        match self.docker_state.selected_job_index {
            Some(i) => if i < self.docker_state.jobs@.len() {
                Some(i)
            } else {
                None
            },
            None => None,
        }
    }

    /// The selected workflow's index, as a spec.
    pub open spec fn spec_workflow_to_edit(&self) -> Option<usize> {
        match self.selected_workflow {
            Some(i) => if i < self.workflow_manager.workflows_view().len() {
                Some(i)
            } else {
                None
            },
            None => None,
        }
    }

    /// Passes a key to an editor, which is put back after it.
    fn editor_key(
        slot: &mut Option<ParamsEditorState>,
        key: Key,
        buffer_float: Option<u64>,
        value_floats: &Vec<Option<u64>>,
    ) -> (r: Option<EditorOutcome>)
        requires
            *old(slot) matches Some(e) ==> value_floats@.len() == e.param_values@.len(),
        ensures
            *old(slot) is None ==> r is None && *final(slot) == *old(slot),
            *old(slot) is Some ==> r is Some && *final(slot) is Some,
    {
        let mut taken: Option<ParamsEditorState> = None;
        std::mem::swap(&mut taken, slot);
        match taken {
            Some(mut editor) => {
                let outcome = editor.handle_key(key, buffer_float, value_floats);
                *slot = Some(editor);
                Some(outcome)
            },
            None => None,
        }
    }

    /// Takes a key. An open parameter editor takes every key: Esc closes it,
    /// and saving asks the caller to save. Otherwise `d` shows or hides the
    /// run view, `p` asks for the editor of the job selected there and `g`
    /// for the global editor of the selected workflow; with the run view
    /// shown it takes the other keys, and otherwise, unless a workflow is
    /// running, `r` refreshes, the arrows and `j`/`k` move the selection
    /// (asking for the new workflow's jobs), and Enter puts the selected
    /// workflow in the run view and shows it. `buffer_float` and
    /// `value_floats` are what `str::parse::<f64>` reads from the open
    /// editor's edited text and values.
    pub fn handle_input(
        &mut self,
        key: Key,
        shift: bool,
        buffer_float: Option<u64>,
        value_floats: &Vec<Option<u64>>,
    ) -> (r: WorkflowAction)
        requires
            old(self).show_global_params_popup ==> (old(self).global_params_editor_state matches Some(e)
                ==> value_floats@.len() == e.param_values@.len()),
            !old(self).show_global_params_popup && old(self).show_params_popup ==> (old(self).params_editor_state matches Some(e)
                ==> value_floats@.len() == e.param_values@.len()),
        ensures
            old(self).show_global_params_popup ==> (r is Nothing || r is SaveGlobalParams),
            !old(self).show_global_params_popup && old(self).show_params_popup ==> (r is Nothing
                || r is SaveJobParams),
            ({
                let no_popup = !old(self).show_global_params_popup && !old(self).show_params_popup;
                let other = key != Key::Char('d') && key != Key::Char('p') && key != Key::Char('g');
                let idle = no_popup && other && !old(self).show_docker_popup
                    && !old(self).docker_state.is_executing_workflow;
                &&& (no_popup && key == Key::Char('d')) ==> r is Nothing && final(self).show_docker_popup
                    == !old(self).show_docker_popup
                &&& (no_popup && key == Key::Char('p')) ==> match old(self).spec_job_to_edit() {
                    Some(i) => r matches WorkflowAction::OpenJobEditor { job } && job == i,
                    None => r is Nothing,
                }
                &&& (no_popup && key == Key::Char('g')) ==> match old(self).spec_workflow_to_edit() {
                    Some(i) => r matches WorkflowAction::OpenGlobalEditor { workflow } && workflow == i,
                    None => r is Nothing,
                }
                &&& (no_popup && other && old(self).show_docker_popup) ==> ((r is Run <==> run_view_key(
                    key,
                    shift,
                    old(self).docker_state.jobs@.len() > 0,
                    old(self).docker_state.is_executing_workflow,
                ) == RunViewKey::Run) && (r is Run || r is Nothing))
                &&& (idle && key == Key::Char('r')) ==> r is Refresh
                &&& (idle && (key == Key::Up || key == Key::Char('j'))) ==> final(self).selected_workflow
                    == previous_selection(
                    old(self).selected_workflow,
                    old(self).workflow_manager.workflows_view().len(),
                ) && (r is ScanJobs || r is Nothing)
                &&& (idle && (key == Key::Down || key == Key::Char('k'))) ==> final(self).selected_workflow
                    == next_selection(
                    old(self).selected_workflow,
                    old(self).workflow_manager.workflows_view().len(),
                ) && (r is ScanJobs || r is Nothing)
                &&& (idle && key == Key::Enter) ==> r is Nothing && match old(self).spec_workflow_to_edit() {
                    Some(i) => final(self).docker_state.pending_workflow == Some(
                        old(self).workflow_manager.workflows_view()[i as int],
                    ) && final(self).show_docker_popup == !old(self).show_docker_popup,
                    None => *final(self) == *old(self),
                }
                &&& (no_popup && other && !old(self).show_docker_popup
                    && old(self).docker_state.is_executing_workflow) ==> r is Nothing && *final(self)
                    == *old(self)
            }),
    {
        if self.show_global_params_popup {
            let outcome = Self::editor_key(
                &mut self.global_params_editor_state,
                key,
                buffer_float,
                value_floats,
            );
            return match outcome {
                Some(EditorOutcome::Close) => {
                    self.close_global_params_editor();
                    WorkflowAction::Nothing
                },
                Some(EditorOutcome::Save(p)) => WorkflowAction::SaveGlobalParams(p),
                _ => WorkflowAction::Nothing,
            };
        }
        if self.show_params_popup {
            let outcome = Self::editor_key(&mut self.params_editor_state, key, buffer_float, value_floats);
            return match outcome {
                Some(EditorOutcome::Close) => {
                    self.close_params_editor();
                    WorkflowAction::Nothing
                },
                Some(EditorOutcome::Save(p)) => WorkflowAction::SaveJobParams(p),
                _ => WorkflowAction::Nothing,
            };
        }
        if key == Key::Char('d') {
            self.toggle_docker_popup();
            return WorkflowAction::Nothing;
        }
        if key == Key::Char('p') {
            return match self.job_to_edit() {
                Some(i) => WorkflowAction::OpenJobEditor { job: i },
                None => WorkflowAction::Nothing,
            };
        }
        if key == Key::Char('g') {
            return match self.workflow_to_edit() {
                Some(i) => WorkflowAction::OpenGlobalEditor { workflow: i },
                None => WorkflowAction::Nothing,
            };
        }
        if self.show_docker_popup {
            return match self.docker_state.handle_input(key, shift) {
                RunViewKey::Run => WorkflowAction::Run,
                _ => WorkflowAction::Nothing,
            };
        }
        if self.docker_state.is_executing_workflow {
            return WorkflowAction::Nothing;
        }
        if key == Key::Char('r') {
            WorkflowAction::Refresh
        } else if key == Key::Up || key == Key::Char('j') {
            match self.select_previous_workflow() {
                Some(path) => WorkflowAction::ScanJobs { path },
                None => WorkflowAction::Nothing,
            }
        } else if key == Key::Down || key == Key::Char('k') {
            match self.select_next_workflow() {
                Some(path) => WorkflowAction::ScanJobs { path },
                None => WorkflowAction::Nothing,
            }
        } else if key == Key::Enter {
            match self.workflow_to_edit() {
                Some(i) => {
                    let wf = self.workflow_manager.get_workflows()[i].copy();
                    self.docker_state.pending_workflow = Some(wf);
                    self.toggle_docker_popup();
                },
                None => {},
            }
            WorkflowAction::Nothing
        } else {
            WorkflowAction::Nothing
        }
    }
}

/// How old a workflow folder is, as the list shows it at time `now`.
pub open spec fn created_text(wf: WorkflowFolder, now: u128) -> Seq<char> {
    match wf.created {
        Some(c) => age_text(elapsed_secs(c, now)),
        None => "Unknown"@,
    }
}

/// One row of the workflow list: the folder's name, its age in brackets, and
/// whether it is the selected row.
pub struct WorkflowRow {
    pub name: String,
    pub created: String,
    pub selected: bool,
}

/// What the workflow list holds: the lines that say how to add a workflow
/// when there is none, else a row per workflow.
pub enum WorkflowListBody {
    Empty { lines: Vec<String> },
    Rows { rows: Vec<WorkflowRow> },
}

/// The workflow list: its title and what it holds.
pub struct WorkflowListView {
    pub title: String,
    pub body: WorkflowListBody,
}

/// `v` is the workflow list of `st` at time `now`: titled with the last
/// scan error when there is one, else with the number of workflows and the
/// home folder; empty, it tells where to create one.
pub open spec fn workflow_list_rel(st: State, now: u128, v: WorkflowListView) -> bool {
    let wfs = st.workflow_manager.workflows_view();
    let home = st.workflow_manager.home_view();
    &&& v.title@ == match st.workflow_manager.last_error_view() {
        Some(e) => "Workflow Folders - Error: "@ + e,
        None => "Workflow Folders ("@ + decimal(wfs.len()) + ") - "@ + home,
    }
    &&& if wfs.len() == 0 {
        v.body matches WorkflowListBody::Empty { lines } && lines@.map_values(|l: String| l@) == seq![
            "No workflows found"@,
            Seq::<char>::empty(),
            "Create a new folder in: "@,
            "  "@ + home,
        ]
    } else {
        v.body matches WorkflowListBody::Rows { rows } && rows@.len() == wfs.len() && forall|i: int|
            0 <= i < rows@.len() ==> {
                &&& (#[trigger] rows@[i]).name@ == wfs[i].name@
                &&& rows@[i].created@ == "("@ + created_text(wfs[i], now) + ")"@
                &&& rows@[i].selected == (st.selected_workflow == Some(i as usize))
            }
    }
}

impl State {
    /// The workflow list as it looks at time `now`, in nanoseconds since the
    /// Unix epoch.
    pub fn workflow_list_view_at(&self, now: u128) -> (r: WorkflowListView)
        ensures
            workflow_list_rel(*self, now, r),
    {
        let wfs = self.workflow_manager.get_workflows();
        let home = self.workflow_manager.home_path();
        let title = match self.workflow_manager.last_error() {
            Some(e) => concat2("Workflow Folders - Error: ", e),
            None => {
                let mut t = String::from_str("Workflow Folders (");
                push_decimal(&mut t, wfs.len() as u128);
                t.append(") - ");
                t.append(home);
                t
            },
        };
        if wfs.len() == 0 {
            let mut lines: Vec<String> = Vec::new();
            lines.push(String::from_str("No workflows found"));
            lines.push(String::new());
            lines.push(String::from_str("Create a new folder in: "));
            lines.push(concat2("  ", home));
            assert(lines@.map_values(|l: String| l@) =~= seq![
                "No workflows found"@,
                Seq::<char>::empty(),
                "Create a new folder in: "@,
                "  "@ + home@,
            ]);
            return WorkflowListView { title, body: WorkflowListBody::Empty { lines } };
        }
        let mut rows: Vec<WorkflowRow> = Vec::new();
        let mut i: usize = 0;
        while i < wfs.len()
            invariant
                wfs@ == self.workflow_manager.workflows_view(),
                i <= wfs@.len(),
                rows@.len() == i,
                forall|k: int|
                    0 <= k < i ==> {
                        &&& (#[trigger] rows@[k]).name@ == wfs@[k].name@
                        &&& rows@[k].created@ == "("@ + created_text(wfs@[k], now) + ")"@
                        &&& rows@[k].selected == (self.selected_workflow == Some(k as usize))
                    },
            decreases wfs@.len() - i,
        {
            let wf = &wfs[i];
            let shown = wf.created_display_at(now);
            let created = concat3("(", shown.as_str(), ")");
            let selected = match self.selected_workflow {
                Some(s) => s == i,
                None => false,
            };
            rows.push(WorkflowRow { name: wf.name.clone(), created, selected });
            i = i + 1;
        }
        WorkflowListView { title, body: WorkflowListBody::Rows { rows } }
    }

    /// The workflow list as it looks now, by the system clock.
    pub fn workflow_list_view(&self) -> (r: WorkflowListView)
        ensures
            exists|now: u128| workflow_list_rel(*self, now, r),
    {
        let now = now_nanos();
        self.workflow_list_view_at(now)
    }
}

} // verus!
