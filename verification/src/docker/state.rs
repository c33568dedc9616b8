//! What the run view shows: the jobs of the workflow being run, which one is
//! selected, and how far its log is scrolled.

use vstd::prelude::*;

use crate::docker::job::{JobEntry, JobStatus};
use crate::keys::Key;
use crate::docker::logs::{pushed, LogLine};
use crate::workflow::job::Job;
use crate::workflow::workflow_folder::WorkflowFolder;

verus! {

/// The lines `textwrap` breaks `content` into at `width` columns.
pub uninterp spec fn wrapped_lines(content: Seq<char>, width: usize) -> Seq<Seq<char>>;

/// How many lines `textwrap` wraps `content` into at `width` columns.
pub open spec fn wrapped_line_count(content: Seq<char>, width: usize) -> nat {
    wrapped_lines(content, width).len()
}

/// The lines `textwrap::wrap` breaks `content` into at `width` columns, each
/// as an owned string. They are a function of the text and the width alone;
/// how `textwrap` breaks lines is not restated here.
#[verifier::external_body]
pub(crate) fn wrap_lines(content: &str, width: usize) -> (r: Vec<String>)
    requires
        width > 0,
    ensures
        r@.map_values(|l: String| l@) == wrapped_lines(content@, width),
{
    textwrap::wrap(content, width).into_iter().map(|l| l.into_owned()).collect()
}

/// The wrapped line count of the first `n` log lines, with every partial sum
/// capped at `usize::MAX`.
pub open spec fn wrapped_total(lines: Seq<LogLine>, width: usize, n: int) -> nat
    decreases n,
{
    if n <= 0 {
        0
    } else {
        let s = wrapped_total(lines, width, n - 1) + wrapped_line_count(lines[n - 1].content@, width);
        if s > usize::MAX { usize::MAX as nat } else { s }
    }
}

/// The columns a log line has once its time and source prefix are shown.
pub open spec fn log_width(viewport_width: usize) -> int {
    if viewport_width >= 17 { viewport_width - 17 } else { 0 }
}

/// The run view's state.
#[derive(Debug)]
pub struct State {
    pub jobs: Vec<Job>,
    pub job_entries: Vec<JobEntry>,
    pub selected_job_index: Option<usize>,
    pub scroll_offset: usize,
    pub is_executing_workflow: bool,
    pub auto_scroll_enabled: bool,
    pub last_viewport_width: usize,
    pub last_viewport_height: usize,
    pub pending_workflow: Option<WorkflowFolder>,
}

impl State {
    /// The number of display lines the selected job's log takes: each log line
    /// is wrapped to the width left after its prefix, and when that width is
    /// ten columns or fewer, each log line counts once. Zero when no job is
    /// selected.
    pub open spec fn wrapped_count(&self) -> nat {
        match self.selected_job_index {
            Some(i) => if i < self.job_entries@.len() {
                let lines = self.job_entries@[i as int].logs.view_lines();
                let w = log_width(self.last_viewport_width);
                if w <= 10 {
                    lines.len()
                } else {
                    wrapped_total(lines, w as usize, lines.len() as int)
                }
            } else {
                0
            },
            None => 0,
        }
    }

    /// The furthest the log can scroll: its display lines less one screen.
    pub open spec fn max_scroll(&self) -> int {
        let c = self.wrapped_count();
        if c >= self.last_viewport_height { c - self.last_viewport_height } else { 0 }
    }
}

impl Default for State {
    fn default() -> (r: Self)
        ensures
            r.jobs@.len() == 0,
            r.job_entries@.len() == 0,
            r.selected_job_index is None,
            r.scroll_offset == 0,
            !r.is_executing_workflow,
            r.auto_scroll_enabled,
            r.last_viewport_width == 80,
            r.last_viewport_height == 20,
            r.pending_workflow is None,
    {
        Self {
            jobs: Vec::new(),
            job_entries: Vec::new(),
            selected_job_index: None,
            scroll_offset: 0,
            is_executing_workflow: false,
            auto_scroll_enabled: true,
            last_viewport_width: 80,
            last_viewport_height: 20,
            pending_workflow: None,
        }
    }
}

impl State {
    /// The initial state: no jobs, nothing selected, following the log.
    pub fn new() -> (r: Self)
        ensures
            r.jobs@.len() == 0,
            r.job_entries@.len() == 0,
            r.selected_job_index is None,
            r.scroll_offset == 0,
            !r.is_executing_workflow,
            r.auto_scroll_enabled,
            r.last_viewport_width == 80,
            r.last_viewport_height == 20,
            r.pending_workflow is None,
    {
        Self::default()
    }

    /// Applies one message from a running workflow: the job at `index` takes
    /// the status and the log line, and the log follows it when it is the
    /// selected job and auto-scroll is on. An index past the last job
    /// announces that the workflow has finished.
    pub fn update(&mut self, message: Option<(usize, JobStatus, LogLine)>)
        ensures
            message is None ==> *final(self) == *old(self),
            message matches Some((idx, status, line)) ==> {
                &&& idx < old(self).job_entries@.len() ==> {
                    &&& final(self).job_entries@.len() == old(self).job_entries@.len()
                    &&& final(self).job_entries@[idx as int].status == status
                    &&& final(self).job_entries@[idx as int].logs.view_lines() == pushed(
                        old(self).job_entries@[idx as int].logs.view_lines(),
                        old(self).job_entries@[idx as int].logs.capacity(),
                        line,
                    )
                    &&& forall|k: int|
                        0 <= k < old(self).job_entries@.len() && k != idx ==> final(self).job_entries@[k]
                            == old(self).job_entries@[k]
                    &&& final(self).is_executing_workflow == old(self).is_executing_workflow
                    &&& if old(self).auto_scroll_enabled && old(self).selected_job_index == Some(idx) {
                        &&& final(self).scroll_offset == final(self).max_scroll()
                        &&& final(self).auto_scroll_enabled
                    } else {
                        &&& final(self).scroll_offset == old(self).scroll_offset
                        &&& final(self).auto_scroll_enabled == old(self).auto_scroll_enabled
                    }
                }
                &&& idx >= old(self).job_entries@.len() ==> {
                    &&& final(self).job_entries == old(self).job_entries
                    &&& !final(self).is_executing_workflow
                    &&& final(self).scroll_offset == old(self).scroll_offset
                    &&& final(self).auto_scroll_enabled == old(self).auto_scroll_enabled
                }
            },
            final(self).jobs == old(self).jobs,
            final(self).selected_job_index == old(self).selected_job_index,
            final(self).last_viewport_width == old(self).last_viewport_width,
            final(self).last_viewport_height == old(self).last_viewport_height,
            final(self).pending_workflow == old(self).pending_workflow,
    {
        if let Some((idx, status, line)) = message {
            if idx < self.job_entries.len() {
                let mut entries: Vec<JobEntry> = Vec::new();
                std::mem::swap(&mut entries, &mut self.job_entries);
                let mut entry = entries.remove(idx);
                entry.status = status;
                entry.logs.push(line);
                entries.insert(idx, entry);
                self.job_entries = entries;
                if self.auto_scroll_enabled && self.selected_job_index == Some(idx) {
                    self.scroll_to_bottom();
                }
            } else {
                self.is_executing_workflow = false;
            }
        }
    }

    /// The number of display lines the selected job's log takes.
    pub fn calculate_wrapped_line_count(&self) -> (r: usize)
        ensures
            r == self.wrapped_count(),
    {
        match self.selected_job_index {
            Some(i) => {
                if i < self.job_entries.len() {
                    let logs = &self.job_entries[i].logs;
                    let available = self.last_viewport_width.saturating_sub(17);
                    if available <= 10 {
                        return logs.len();
                    }
                    let lines = logs.lines();
                    let mut total: usize = 0;
                    let mut k: usize = 0;
                    while k < lines.len()
                        invariant
                            k <= lines@.len(),
                            available > 10,
                            lines@ == logs.view_lines(),
                            total == wrapped_total(lines@, available, k as int),
                        decreases lines@.len() - k,
                    {
                        let c = wrap_lines(lines[k].content.as_str(), available).len();
                        total = total.saturating_add(c);
                        k = k + 1;
                    }
                    total
                } else {
                    0
                }
            },
            None => 0,
        }
    }

    /// Scrolls the log up one line, unless it is at the top.
    pub fn scroll_up(&mut self)
        ensures
            final(self).scroll_offset == if old(self).scroll_offset > 0 {
                (old(self).scroll_offset - 1) as usize
            } else {
                0
            },
            final(self).auto_scroll_enabled == old(self).auto_scroll_enabled,
            final(self).jobs == old(self).jobs,
            final(self).job_entries == old(self).job_entries,
            final(self).selected_job_index == old(self).selected_job_index,
            final(self).is_executing_workflow == old(self).is_executing_workflow,
            final(self).last_viewport_width == old(self).last_viewport_width,
            final(self).last_viewport_height == old(self).last_viewport_height,
            final(self).pending_workflow == old(self).pending_workflow,
    {
        if self.scroll_offset > 0 {
            self.scroll_offset = self.scroll_offset - 1;
        }
    }

    /// Scrolls the log down one line; at the bottom, it follows the log
    /// again instead.
    pub fn scroll_down(&mut self)
        ensures
            old(self).scroll_offset < old(self).max_scroll() ==> {
                &&& final(self).scroll_offset == old(self).scroll_offset + 1
                &&& final(self).auto_scroll_enabled == old(self).auto_scroll_enabled
            },
            old(self).scroll_offset >= old(self).max_scroll() ==> {
                &&& final(self).scroll_offset == old(self).scroll_offset
                &&& final(self).auto_scroll_enabled
            },
            final(self).jobs == old(self).jobs,
            final(self).job_entries == old(self).job_entries,
            final(self).selected_job_index == old(self).selected_job_index,
            final(self).is_executing_workflow == old(self).is_executing_workflow,
            final(self).last_viewport_width == old(self).last_viewport_width,
            final(self).last_viewport_height == old(self).last_viewport_height,
            final(self).pending_workflow == old(self).pending_workflow,
    {
        let count = self.calculate_wrapped_line_count();
        let max_scroll = count.saturating_sub(self.last_viewport_height);
        if self.scroll_offset < max_scroll {
            self.scroll_offset = self.scroll_offset + 1;
        } else {
            self.auto_scroll_enabled = true;
        }
    }

    /// Scrolls to the end of the log and follows it from there.
    pub fn scroll_to_bottom(&mut self)
        ensures
            final(self).scroll_offset == old(self).max_scroll(),
            final(self).auto_scroll_enabled,
            final(self).jobs == old(self).jobs,
            final(self).job_entries == old(self).job_entries,
            final(self).selected_job_index == old(self).selected_job_index,
            final(self).is_executing_workflow == old(self).is_executing_workflow,
            final(self).last_viewport_width == old(self).last_viewport_width,
            final(self).last_viewport_height == old(self).last_viewport_height,
            final(self).pending_workflow == old(self).pending_workflow,
    {
        let count = self.calculate_wrapped_line_count();
        self.scroll_offset = count.saturating_sub(self.last_viewport_height);
        self.auto_scroll_enabled = true;
    }

    /// Returns to the initial state.
    pub fn reset(&mut self)
        ensures
            final(self).jobs@.len() == 0,
            final(self).job_entries@.len() == 0,
            final(self).selected_job_index is None,
            final(self).scroll_offset == 0,
            !final(self).is_executing_workflow,
            final(self).auto_scroll_enabled,
            final(self).last_viewport_width == 80,
            final(self).last_viewport_height == 20,
            final(self).pending_workflow is None,
    {
        *self = Self::default();
    }

    /// Gets the currently selected job's entry.
    pub fn get_selected_job_entry(&self) -> (r: Option<&JobEntry>)
        ensures
            r == match self.selected_job_index {
                Some(i) => if i < self.job_entries@.len() {
                    Some(&self.job_entries@[i as int])
                } else {
                    None
                },
                None => None,
            },
    {
        match self.selected_job_index {
            Some(i) => if i < self.job_entries.len() {
                Some(&self.job_entries[i])
            } else {
                None
            },
            None => None,
        }
    }

    /// Gets a job by index.
    pub fn get_job(&self, index: usize) -> (r: Option<&Job>)
        ensures
            r == if index < self.jobs@.len() {
                Some(&self.jobs@[index as int])
            } else {
                None
            },
    {
        if index < self.jobs.len() {
            Some(&self.jobs[index])
        } else {
            None
        }
    }

    /// Selects the next job in the list, wrapping around to the first; with
    /// no jobs, nothing is selected. Changing jobs goes back to the top of the
    /// log and follows it.
    pub fn select_next_job(&mut self)
        ensures
            old(self).jobs@.len() == 0 ==> final(self).selected_job_index is None
                && final(self).scroll_offset == old(self).scroll_offset
                && final(self).auto_scroll_enabled == old(self).auto_scroll_enabled,
            old(self).jobs@.len() > 0 ==> {
                &&& final(self).selected_job_index == Some(
                    match old(self).selected_job_index {
                        Some(i) => ((i + 1) % (old(self).jobs@.len() as int)) as usize,
                        None => 0usize,
                    },
                )
                &&& final(self).scroll_offset == 0
                &&& final(self).auto_scroll_enabled
            },
            final(self).jobs == old(self).jobs,
            final(self).job_entries == old(self).job_entries,
            final(self).is_executing_workflow == old(self).is_executing_workflow,
            final(self).last_viewport_width == old(self).last_viewport_width,
            final(self).last_viewport_height == old(self).last_viewport_height,
            final(self).pending_workflow == old(self).pending_workflow,
    {
        if self.jobs.len() == 0 {
            self.selected_job_index = None;
            return;
        }
        let n = self.jobs.len();
        self.selected_job_index = Some(
            match self.selected_job_index {
                Some(idx) => ((idx % n) + 1) % n,
                None => 0,
            },
        );
        proof {
            if let Some(i) = old(self).selected_job_index {
                vstd::arithmetic::div_mod::lemma_add_mod_noop(i as int, 1, n as int);
                vstd::arithmetic::div_mod::lemma_mod_twice(i as int, n as int);
                vstd::arithmetic::div_mod::lemma_add_mod_noop((i % n) as int, 1, n as int);
            }
        }
        self.scroll_offset = 0;
        self.auto_scroll_enabled = true;
    }

    /// Selects the previous job in the list, wrapping around to the last;
    /// with nothing selected, the last job. With no jobs, nothing is
    /// selected. Changing jobs goes back to the top of the log and follows it.
    pub fn select_previous_job(&mut self)
        ensures
            old(self).jobs@.len() == 0 ==> final(self).selected_job_index is None
                && final(self).scroll_offset == old(self).scroll_offset
                && final(self).auto_scroll_enabled == old(self).auto_scroll_enabled,
            old(self).jobs@.len() > 0 ==> {
                &&& final(self).selected_job_index == Some(
                    match old(self).selected_job_index {
                        Some(i) => if i > 0 {
                            (i - 1) as usize
                        } else {
                            (old(self).jobs@.len() - 1) as usize
                        },
                        None => (old(self).jobs@.len() - 1) as usize,
                    },
                )
                &&& final(self).scroll_offset == 0
                &&& final(self).auto_scroll_enabled
            },
            final(self).jobs == old(self).jobs,
            final(self).job_entries == old(self).job_entries,
            final(self).is_executing_workflow == old(self).is_executing_workflow,
            final(self).last_viewport_width == old(self).last_viewport_width,
            final(self).last_viewport_height == old(self).last_viewport_height,
            final(self).pending_workflow == old(self).pending_workflow,
    {
        if self.jobs.len() == 0 {
            self.selected_job_index = None;
            return;
        }
        self.selected_job_index = Some(
            match self.selected_job_index {
                Some(idx) => if idx > 0 { idx - 1 } else { self.jobs.len() - 1 },
                None => self.jobs.len() - 1,
            },
        );
        self.scroll_offset = 0;
        self.auto_scroll_enabled = true;
    }

    /// Clears all jobs from the list.
    pub fn clear_jobs(&mut self)
        ensures
            final(self).jobs@.len() == 0,
            final(self).job_entries@.len() == 0,
            final(self).selected_job_index is None,
            final(self).scroll_offset == 0,
            final(self).auto_scroll_enabled == old(self).auto_scroll_enabled,
            final(self).is_executing_workflow == old(self).is_executing_workflow,
            final(self).last_viewport_width == old(self).last_viewport_width,
            final(self).last_viewport_height == old(self).last_viewport_height,
            final(self).pending_workflow == old(self).pending_workflow,
    {
        self.jobs.clear();
        self.job_entries.clear();
        self.selected_job_index = None;
        self.scroll_offset = 0;
    }
}

/// With at least one job, selecting the next job always selects a job, and
/// selecting the next job after the previous one returns to where the
/// selection was.
pub proof fn law_selection_round_trip(n: nat, i: nat)
    requires
        n > 0,
        i < n,
    ensures
        ((((if i > 0 { i - 1 } else { n - 1 }) + 1) as int) % (n as int)) == i,
        (((i + 1) as int) % (n as int)) < n as int,
{
    if i > 0 {
        vstd::arithmetic::div_mod::lemma_small_mod(i, n);
    } else {
        vstd::arithmetic::div_mod::lemma_mod_self_0(n as int);
    }
    vstd::arithmetic::div_mod::lemma_mod_pos_bound((i + 1) as int, n as int);
}


/// What a key does in the run view.
#[derive(Debug, Clone, Copy, PartialEq, Eq, Structural)]
pub enum RunViewKey {
    SelectNext,
    SelectPrevious,
    ScrollDown,
    /// Scroll up and stop following the log.
    ScrollUp,
    ScrollToBottom,
    /// Start running the pending workflow.
    Run,
    Nothing,
}

/// What `key` does in the run view, with Shift held or not: the arrows and
/// `j`/`k` select jobs (when there are any), or scroll with Shift; Page Up
/// and Page Down scroll; `b` goes to the end of the log; `r` runs the
/// pending workflow unless one is running.
pub open spec fn run_view_key(key: Key, shift: bool, has_jobs: bool, executing: bool) -> RunViewKey {
    let down = key == Key::Down || key == Key::Char('j');
    let up = key == Key::Up || key == Key::Char('k');
    if down && has_jobs && !shift {
        RunViewKey::SelectNext
    } else if up && has_jobs && !shift {
        RunViewKey::SelectPrevious
    } else if down && shift {
        RunViewKey::ScrollDown
    } else if up && shift {
        RunViewKey::ScrollUp
    } else if key == Key::PageUp {
        RunViewKey::ScrollUp
    } else if key == Key::PageDown {
        RunViewKey::ScrollDown
    } else if key == Key::Char('b') {
        RunViewKey::ScrollToBottom
    } else if key == Key::Char('r') && !executing {
        RunViewKey::Run
    } else {
        RunViewKey::Nothing
    }
}

impl State {
    /// Takes a key (see `run_view_key`) and says what it did. Running is
    /// left to the caller, through [`State::begin_run`].
    pub fn handle_input(&mut self, key: Key, shift: bool) -> (r: RunViewKey)
        ensures
            r == run_view_key(key, shift, old(self).jobs@.len() > 0, old(self).is_executing_workflow),
            final(self).jobs == old(self).jobs,
            final(self).job_entries == old(self).job_entries,
            final(self).is_executing_workflow == old(self).is_executing_workflow,
            final(self).pending_workflow == old(self).pending_workflow,
            r == RunViewKey::ScrollUp ==> !final(self).auto_scroll_enabled && final(self).scroll_offset == if old(
                self,
            ).scroll_offset > 0 {
                (old(self).scroll_offset - 1) as usize
            } else {
                0
            },
            r == RunViewKey::ScrollToBottom ==> final(self).scroll_offset == old(self).max_scroll()
                && final(self).auto_scroll_enabled,
            (r == RunViewKey::Run || r == RunViewKey::Nothing) ==> *final(self) == *old(self),
    {
        let effect = Self::key_effect(key, shift, self.jobs.len() > 0, self.is_executing_workflow);
        match effect {
            RunViewKey::SelectNext => self.select_next_job(),
            RunViewKey::SelectPrevious => self.select_previous_job(),
            RunViewKey::ScrollDown => self.scroll_down(),
            RunViewKey::ScrollUp => {
                self.scroll_up();
                self.auto_scroll_enabled = false;
            },
            RunViewKey::ScrollToBottom => self.scroll_to_bottom(),
            _ => {},
        }
        effect
    }

    fn key_effect(key: Key, shift: bool, has_jobs: bool, executing: bool) -> (r: RunViewKey)
        ensures
            r == run_view_key(key, shift, has_jobs, executing),
    {
        let down = key == Key::Down || key == Key::Char('j');
        let up = key == Key::Up || key == Key::Char('k');
        if down && has_jobs && !shift {
            RunViewKey::SelectNext
        } else if up && has_jobs && !shift {
            RunViewKey::SelectPrevious
        } else if down && shift {
            RunViewKey::ScrollDown
        } else if up && shift {
            RunViewKey::ScrollUp
        } else if key == Key::PageUp {
            RunViewKey::ScrollUp
        } else if key == Key::PageDown {
            RunViewKey::ScrollDown
        } else if key == Key::Char('b') {
            RunViewKey::ScrollToBottom
        } else if key == Key::Char('r') && !executing {
            RunViewKey::Run
        } else {
            RunViewKey::Nothing
        }
    }

    /// Starts the pending workflow, if there is one: it is handed over to be
    /// run, the view counts as running, and the next job is selected.
    pub fn begin_run(&mut self) -> (r: Option<WorkflowFolder>)
        ensures
            r == old(self).pending_workflow,
            final(self).pending_workflow is None,
            r is None ==> *final(self) == *old(self),
            r is Some ==> final(self).is_executing_workflow && final(self).jobs == old(self).jobs
                && final(self).job_entries == old(self).job_entries,
            r is Some ==> final(self).last_viewport_width == old(self).last_viewport_width
                && final(self).last_viewport_height == old(self).last_viewport_height,
            r is Some && old(self).jobs@.len() == 0 ==> final(self).selected_job_index is None
                && final(self).scroll_offset == old(self).scroll_offset
                && final(self).auto_scroll_enabled == old(self).auto_scroll_enabled,
            r is Some && old(self).jobs@.len() > 0 ==> {
                &&& final(self).selected_job_index == Some(
                    match old(self).selected_job_index {
                        Some(i) => ((i + 1) % (old(self).jobs@.len() as int)) as usize,
                        None => 0usize,
                    },
                )
                &&& final(self).scroll_offset == 0
                &&& final(self).auto_scroll_enabled
            },
    {
        let mut pending: Option<WorkflowFolder> = None;
        std::mem::swap(&mut pending, &mut self.pending_workflow);
        if pending.is_some() {
            self.is_executing_workflow = true;
            self.select_next_job();
        }
        pending
    }
}

} // verus!
