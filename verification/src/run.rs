//! Running the jobs of a workflow one after another, as the decisions made
//! between the jobs.
//!
//! A [`WorkflowRun`] says which job runs next, in the execution order, and
//! turns what came of each job into the messages reported for it; the first
//! job that fails ends the run. A [`RunMonitor`] follows those messages on
//! the receiving side of a headless run.

use vstd::prelude::*;
use vstd::string::*;

use crate::docker::executor::{notes_view, plain, Note, NoteView};
use crate::docker::job::JobStatus;
use crate::docker::logs::LogSource;
use crate::assoc::{first_key_index, lemma_first_key_index};
use crate::headless::{
    blocked_names_upto, has_missing, job_deps, missing_at, names_a_job, names_distinct, names_job,
    order_jobs, orderable, valid_order, OrderError,
};
use crate::job_config::workflow::WorkflowMeta;
use crate::text::{concat2, concat3, join, join_strings};
use crate::workflow::job_folder::JobFolder;

verus! {

/// Which front end runs the workflow; the two word their messages
/// differently.
#[derive(Debug, Clone, Copy, PartialEq, Eq, Structural)]
pub enum RunStyle {
    /// Run from the command line, without the terminal interface.
    Headless,
    /// Run from the terminal interface.
    Interface,
}

/// What came of one job: its configuration could not be read, or it ran,
/// possibly after failing to copy its input files.
#[derive(Debug)]
pub enum JobAttempt {
    ConfigFailed(String),
    Ran { copy_error: Option<String>, outcome: Result<(), String> },
}

/// A run of the jobs of a workflow, in execution order.
#[derive(Debug)]
pub struct WorkflowRun {
    pub style: RunStyle,
    /// The names of the jobs, by index.
    pub names: Vec<String>,
    /// The indices of the jobs in the order they run.
    pub order: Vec<usize>,
    /// How many jobs of the order have run.
    pub position: usize,
    /// Whether a job failed, which ends the run.
    pub failed: bool,
}

/// A message about the job at an index: status, stream and text.
pub type IndexedNote = (usize, NoteView);

/// Messages as plain values.
pub open spec fn indexed_view(v: Seq<(usize, Note)>) -> Seq<IndexedNote> {
    v.map_values(|m: (usize, Note)| (m.0, notes_view(seq![m.1])[0]))
}

/// The message reported when a job's configuration could not be read.
pub open spec fn config_failed_text(style: RunStyle, name: Seq<char>, e: Seq<char>) -> Seq<char> {
    match style {
        RunStyle::Headless => "Failed to load config for '"@ + name + "': "@ + e,
        RunStyle::Interface => "Load job config error: "@ + e,
    }
}

/// The message reported when running a job failed.
pub open spec fn job_failed_text(style: RunStyle, name: Seq<char>, e: Seq<char>) -> Seq<char> {
    match style {
        RunStyle::Headless => "Job '"@ + name + "' failed: "@ + e,
        RunStyle::Interface => "docker run job error: "@ + e,
    }
}

/// The messages for what came of job `idx`, named `name`.
pub open spec fn attempt_messages(
    style: RunStyle,
    idx: usize,
    name: Seq<char>,
    a: JobAttempt,
) -> Seq<IndexedNote> {
    match a {
        JobAttempt::ConfigFailed(e) => seq![
            (idx, plain(JobStatus::Failed, LogSource::Stderr, config_failed_text(style, name, e@))),
        ],
        JobAttempt::Ran { copy_error, outcome } => (match copy_error {
            Some(e) => seq![
                (
                    idx,
                    plain(
                        JobStatus::Running,
                        LogSource::Stderr,
                        "Warning: Failed to copy input files: "@ + e@,
                    ),
                ),
            ],
            None => Seq::empty(),
        }) + match outcome {
            Ok(_) => Seq::empty(),
            Err(e) => seq![
                (idx, plain(JobStatus::Failed, LogSource::Stderr, job_failed_text(style, name, e@))),
            ],
        },
    }
}

/// Whether a job came through.
pub open spec fn attempt_succeeded(a: JobAttempt) -> bool {
    a matches JobAttempt::Ran { outcome: Ok(_), .. }
}

impl WorkflowRun {
    /// The run's indices are those of its jobs, and it is no further than
    /// its order.
    pub open spec fn wf(&self) -> bool {
        &&& forall|p: int| 0 <= p < self.order@.len() ==> (#[trigger] self.order@[p]) < self.names@.len()
        &&& self.position <= self.order@.len()
    }

    /// The job that runs next, if any.
    pub open spec fn spec_next(&self) -> Option<usize> {
        if self.failed || self.position >= self.order@.len() {
            None
        } else {
            Some(self.order@[self.position as int])
        }
    }

    /// A run of the jobs `names` in the order `order`, which holds indices
    /// of them.
    pub fn new(style: RunStyle, names: Vec<String>, order: Vec<usize>) -> (r: Self)
        requires
            forall|p: int| 0 <= p < order@.len() ==> (#[trigger] order@[p]) < names@.len(),
        ensures
            r.wf(),
            r.style == style,
            r.names@ == names@,
            r.order@ == order@,
            r.position == 0,
            !r.failed,
    {
        WorkflowRun { style, names, order, position: 0, failed: false }
    }

    /// The job that runs next: the next one of the order, until the order
    /// is done or a job failed.
    pub fn next_job(&self) -> (r: Option<usize>)
        requires
            self.wf(),
        ensures
            r == self.spec_next(),
    {
        if self.failed || self.position >= self.order.len() {
            None
        } else {
            Some(self.order[self.position])
        }
    }

    /// Takes what came of the job that ran: the messages to report for it.
    /// A job that came through moves the run on to the next; any other
    /// outcome fails the run, and no job runs after it.
    pub fn record(&mut self, attempt: JobAttempt) -> (r: Vec<(usize, Note)>)
        requires
            old(self).wf(),
            old(self).spec_next() is Some,
        ensures
            final(self).wf(),
            final(self).style == old(self).style,
            final(self).names == old(self).names,
            final(self).order == old(self).order,
            indexed_view(r@) == attempt_messages(
                old(self).style,
                old(self).order@[old(self).position as int],
                old(self).names@[old(self).order@[old(self).position as int] as int]@,
                attempt,
            ),
            attempt_succeeded(attempt) ==> final(self).position == old(self).position + 1
                && !final(self).failed,
            !attempt_succeeded(attempt) ==> final(self).position == old(self).position
                && final(self).failed && final(self).spec_next() is None,
    {
        let n = self.order.len();
        assert(self.position < n);
        let idx = self.order[self.position];
        let name = self.names[idx].as_str();
        let mut out: Vec<(usize, Note)> = Vec::new();
        match attempt {
            JobAttempt::ConfigFailed(e) => {
                let text = match self.style {
                    RunStyle::Headless => {
                        let mut t = concat3("Failed to load config for '", name, "': ");
                        t.append(e.as_str());
                        t
                    },
                    RunStyle::Interface => concat2("Load job config error: ", e.as_str()),
                };
                out.push((idx, Note { status: JobStatus::Failed, source: LogSource::Stderr, text }));
                self.failed = true;
            },
            JobAttempt::Ran { copy_error, outcome } => {
                if let Some(e) = copy_error {
                    let text = concat2("Warning: Failed to copy input files: ", e.as_str());
                    out.push((idx, Note { status: JobStatus::Running, source: LogSource::Stderr, text }));
                }
                let ghost copied = indexed_view(out@);
                match outcome {
                    Ok(_) => {
                        self.position = self.position + 1;
                        proof {
                            assert(indexed_view(out@) =~= copied + Seq::<IndexedNote>::empty());
                        }
                    },
                    Err(e) => {
                        let text = match self.style {
                            RunStyle::Headless => {
                                let mut t = concat3("Job '", name, "' failed: ");
                                t.append(e.as_str());
                                t
                            },
                            RunStyle::Interface => concat2("docker run job error: ", e.as_str()),
                        };
                        out.push((idx, Note { status: JobStatus::Failed, source: LogSource::Stderr, text }));
                        self.failed = true;
                    },
                }
            },
        }
        proof {
            assert(indexed_view(out@) =~= attempt_messages(
                old(self).style,
                old(self).order@[old(self).position as int],
                old(self).names@[old(self).order@[old(self).position as int] as int]@,
                attempt,
            ));
        }
        out
    }

    /// The message that ends the run, sent for the index past the last job:
    /// a headless run that failed ends failed, every other run completed.
    pub fn final_status(&self) -> (r: (usize, JobStatus))
        ensures
            r.0 == self.names@.len(),
            r.1 == if self.style == RunStyle::Headless && self.failed {
                JobStatus::Failed
            } else {
                JobStatus::Completed
            },
    {
        let status = if self.style == RunStyle::Headless && self.failed {
            JobStatus::Failed
        } else {
            JobStatus::Completed
        };
        (self.names.len(), status)
    }

    /// What the run as a whole came to.
    pub fn outcome(&self) -> (r: Result<(), String>)
        ensures
            !self.failed ==> r is Ok,
            self.failed ==> (r matches Err(m) && m@ == "Workflow failed"@),
    {
        if self.failed {
            Err(String::from_str("Workflow failed"))
        } else {
            Ok(())
        }
    }
}

/// The receiving side of a headless run: which job each message is about,
/// and what the run came to.
#[derive(Debug)]
pub struct RunMonitor {
    /// The names of the jobs, by index.
    pub names: Vec<String>,
    pub result: Result<(), String>,
    /// Whether the message that ends the run has come.
    pub finished: bool,
}

/// The name shown for the job at `index`.
pub open spec fn job_name_at(names: Seq<String>, index: usize) -> Seq<char> {
    if index < names.len() {
        names[index as int]@
    } else {
        "unknown"@
    }
}

impl RunMonitor {
    /// Follows a run of the jobs `names`.
    pub fn new(names: Vec<String>) -> (r: Self)
        ensures
            r.names@ == names@,
            r.result is Ok,
            !r.finished,
    {
        RunMonitor { names, result: Ok(()), finished: false }
    }

    /// Takes a message with `status` for the job at `index`. The index past
    /// the last job ends the run, failed when its status is `Failed`; any
    /// other index names the job the message is about (`unknown` when there
    /// is none), and a `Failed` status fails the run with that job's name.
    pub fn receive(&mut self, index: usize, status: &JobStatus) -> (r: Option<String>)
        ensures
            final(self).names == old(self).names,
            index == old(self).names@.len() ==> {
                &&& r is None
                &&& final(self).finished
                &&& status is Failed ==> (final(self).result matches Err(m) && m@ == "Workflow failed"@)
                &&& !(status is Failed) ==> final(self).result == old(self).result
            },
            index != old(self).names@.len() ==> {
                &&& r matches Some(name) && name@ == job_name_at(old(self).names@, index)
                &&& final(self).finished == old(self).finished
                &&& status is Failed ==> (final(self).result matches Err(m) && m@ == "Job '"@
                    + job_name_at(old(self).names@, index) + "' failed"@)
                &&& !(status is Failed) ==> final(self).result == old(self).result
            },
    {
        let failed = matches!(status, JobStatus::Failed);
        if index == self.names.len() {
            if failed {
                self.result = Err(String::from_str("Workflow failed"));
            }
            self.finished = true;
            return None;
        }
        let name = if index < self.names.len() {
            self.names[index].clone()
        } else {
            String::from_str("unknown")
        };
        if failed {
            self.result = Err(concat3("Job '", name.as_str(), "' failed"));
        }
        Some(name)
    }
}

/// What stops the interface's run before any job runs.
#[derive(Debug)]
pub enum Setback {
    /// No connection to the Docker engine, with its message.
    Engine(String),
    /// The temporary copy of the workflow could not be made.
    TempFolder(String),
    /// The jobs could not be ordered.
    Dependencies(String),
}

/// The messages the interface reports for a setback, with `jobs` the number
/// of jobs: the setback on the first job, unless it is the temporary copy,
/// and the run's end, failed.
pub open spec fn setback_messages(jobs: usize, s: Setback) -> Seq<IndexedNote> {
    match s {
        Setback::Engine(e) => seq![
            (0usize, plain(JobStatus::Failed, LogSource::Stderr, "Faild to create docker executor: "@ + e@)),
            (jobs, plain(JobStatus::Failed, LogSource::Stdout, Seq::empty())),
        ],
        Setback::TempFolder(e) => seq![
            (jobs, plain(JobStatus::Failed, LogSource::Stderr, "Create temp dir error: "@ + e@)),
        ],
        Setback::Dependencies(e) => seq![
            (0usize, plain(JobStatus::Failed, LogSource::Stderr, "Dependency error: "@ + e@)),
            (jobs, plain(JobStatus::Failed, LogSource::Stdout, Seq::empty())),
        ],
    }
}

/// The messages the interface reports for a setback.
pub fn setback_notes(jobs: usize, setback: Setback) -> (r: Vec<(usize, Note)>)
    ensures
        indexed_view(r@) == setback_messages(jobs, setback),
{
    let mut out: Vec<(usize, Note)> = Vec::new();
    match setback {
        Setback::Engine(e) => {
            let text = concat2("Faild to create docker executor: ", e.as_str());
            out.push((0, Note { status: JobStatus::Failed, source: LogSource::Stderr, text }));
            out.push((jobs, Note { status: JobStatus::Failed, source: LogSource::Stdout, text: String::new() }));
        },
        Setback::TempFolder(e) => {
            let text = concat2("Create temp dir error: ", e.as_str());
            out.push((jobs, Note { status: JobStatus::Failed, source: LogSource::Stderr, text }));
        },
        Setback::Dependencies(e) => {
            let text = concat2("Dependency error: ", e.as_str());
            out.push((0, Note { status: JobStatus::Failed, source: LogSource::Stderr, text }));
            out.push((jobs, Note { status: JobStatus::Failed, source: LogSource::Stdout, text: String::new() }));
        },
    }
    proof {
        assert(indexed_view(out@) =~= setback_messages(jobs, setback));
    }
    out
}

/// The message the interface reports once the jobs are ordered, on the
/// first job: the job names in execution order.
pub fn order_note(names: &Vec<String>) -> (r: Note)
    ensures
        r.status == JobStatus::Idle,
        r.source == LogSource::Stdout,
        r.text@ == "Jobs will execute in dependency order: "@ + join(
            names@.map_values(|s: String| s@),
            " → "@,
        ),
{
    let list = join_strings(names, " → ");
    Note {
        status: JobStatus::Idle,
        source: LogSource::Stdout,
        text: concat2("Jobs will execute in dependency order: ", list.as_str()),
    }
}


/// Dependency `k` of `ds` is the first that names no job.
pub open spec fn first_unknown_dep(jobs: Seq<JobFolder>, ds: Seq<String>, k: int) -> bool {
    &&& 0 <= k < ds.len()
    &&& !names_job(jobs, ds[k]@)
    &&& forall|k2: int| 0 <= k2 < k ==> names_job(jobs, #[trigger] ds[k2]@)
}

/// Job `i`'s configuration stops the ordering: it could not be read, or one
/// of its dependencies names no job.
pub open spec fn config_blocks(
    jobs: Seq<JobFolder>,
    configs: Seq<Result<Vec<String>, String>>,
    i: int,
) -> bool {
    match configs[i] {
        Err(_) => true,
        Ok(ds) => exists|k: int| 0 <= k < ds@.len() && !names_job(jobs, #[trigger] ds@[k]@),
    }
}

/// Job `i` is the first whose configuration stops the ordering.
pub open spec fn first_block(
    jobs: Seq<JobFolder>,
    configs: Seq<Result<Vec<String>, String>>,
    i: int,
) -> bool {
    &&& 0 <= i < jobs.len()
    &&& config_blocks(jobs, configs, i)
    &&& forall|j: int| 0 <= j < i ==> !#[trigger] config_blocks(jobs, configs, j)
}

/// The message for the configuration of job `i` that stops the ordering,
/// with `k` its first dependency that names no job.
pub open spec fn block_message(
    jobs: Seq<JobFolder>,
    configs: Seq<Result<Vec<String>, String>>,
    i: int,
    k: int,
) -> Seq<char> {
    match configs[i] {
        Err(e) => "Failed to load config for job '"@ + jobs[i].name@ + "': "@ + e@,
        Ok(ds) => "Job '"@ + jobs[i].name@ + "' depends on '"@ + ds@[k]@ + "', but '"@ + ds@[k]@
            + "' does not exist in the workflow"@,
    }
}

/// The jobs' dependencies as read from their configurations, by job name.
pub open spec fn config_deps(
    jobs: Seq<JobFolder>,
    configs: Seq<Result<Vec<String>, String>>,
) -> Seq<(String, Vec<String>)> {
    Seq::new(
        jobs.len(),
        |i: int|
            (
                jobs[i].name,
                match configs[i] {
                    Ok(d) => d,
                    Err(_) => arbitrary(),
                },
            ),
    )
}

/// The message for jobs that can never run, the interface's way.
pub open spec fn interface_circular_message(
    jobs: Seq<JobFolder>,
    deps: Seq<(String, Vec<String>)>,
) -> Seq<char> {
    "Circular dependency detected involving jobs: "@ + join(
        blocked_names_upto(jobs, deps, jobs.len() as int),
        ", "@,
    )
}

/// The first dependency in `ds` that names no job, if any.
fn first_unknown(jobs: &[JobFolder], ds: &Vec<String>) -> (r: Option<usize>)
    ensures
        r matches Some(k) ==> first_unknown_dep(jobs@, ds@, k as int),
        r is None ==> forall|k: int| 0 <= k < ds@.len() ==> names_job(jobs@, #[trigger] ds@[k]@),
{
    let mut k: usize = 0;
    while k < ds.len()
        invariant
            k <= ds@.len(),
            forall|k2: int| 0 <= k2 < k ==> names_job(jobs@, #[trigger] ds@[k2]@),
        decreases ds@.len() - k,
    {
        if !names_a_job(jobs, ds[k].as_str()) {
            return Some(k);
        }
        k = k + 1;
    }
    None
}

/// Orders the jobs the interface runs, each job's dependencies read from
/// its own configuration (`configs[i]` for job `i`: the dependency list,
/// or why it could not be read).
///
/// The jobs are looked at in order: the first whose configuration could not
/// be read, or names a dependency that is no job, stops the ordering with a
/// message that says so. Otherwise the jobs are ordered when their names
/// are distinct and some order satisfies every dependency; when not, the
/// message names the jobs that can never run.
pub fn interface_order(jobs: &[JobFolder], configs: Vec<Result<Vec<String>, String>>) -> (r: Result<
    Vec<usize>,
    String,
>)
    requires
        configs@.len() == jobs@.len(),
    ensures
        (exists|i: int| 0 <= i < jobs@.len() && config_blocks(jobs@, configs@, i)) ==> exists|
            i: int,
            k: int,
        |
            #![trigger block_message(jobs@, configs@, i, k)]
            first_block(jobs@, configs@, i) && (configs@[i] matches Ok(ds) ==> first_unknown_dep(
                jobs@,
                ds@,
                k,
            )) && (r matches Err(m) && m@ == block_message(jobs@, configs@, i, k)),
        (forall|i: int| 0 <= i < jobs@.len() ==> !config_blocks(jobs@, configs@, i)) ==> {
            let deps = config_deps(jobs@, configs@);
            &&& (r is Ok <==> names_distinct(jobs@) && orderable(jobs@, deps))
            &&& (r matches Err(m) ==> m@ == interface_circular_message(jobs@, deps))
            &&& (r matches Ok(order) ==> valid_order(jobs@, deps, order@))
        },
{
    let n = jobs.len();
    let mut i: usize = 0;
    while i < n
        invariant
            n == jobs@.len(),
            configs@.len() == n,
            i <= n,
            forall|j: int| 0 <= j < i ==> !#[trigger] config_blocks(jobs@, configs@, j),
        decreases n - i,
    {
        match &configs[i] {
            Err(e) => {
                let mut m = concat3("Failed to load config for job '", jobs[i].name.as_str(), "': ");
                m.append(e.as_str());
                proof {
                    assert(first_block(jobs@, configs@, i as int));
                    assert(m@ == block_message(jobs@, configs@, i as int, 0));
                }
                return Err(m);
            },
            Ok(ds) => {
                match first_unknown(jobs, ds) {
                    Some(k) => {
                        let d = ds[k].as_str();
                        let mut m = concat3("Job '", jobs[i].name.as_str(), "' depends on '");
                        m.append(d);
                        m.append("', but '");
                        m.append(d);
                        m.append("' does not exist in the workflow");
                        proof {
                            assert(config_blocks(jobs@, configs@, i as int));
                            assert(first_block(jobs@, configs@, i as int));
                            assert(m@ == block_message(jobs@, configs@, i as int, k as int));
                        }
                        return Err(m);
                    },
                    None => {},
                }
            },
        }
        i = i + 1;
    }
    let ghost orig = configs@;
    let ghost deps = config_deps(jobs@, configs@);
    let mut dependencies: Vec<(String, Vec<String>)> = Vec::new();
    let mut configs = configs;
    let mut j: usize = 0;
    while j < n
        invariant
            n == jobs@.len(),
            configs@.len() == n,
            orig.len() == n,
            j <= n,
            forall|x: int| 0 <= x < n ==> !#[trigger] config_blocks(jobs@, orig, x),
            forall|x: int| j <= x < n ==> #[trigger] configs@[x] == orig[x],
            deps == config_deps(jobs@, orig),
            dependencies@ =~= deps.take(j as int),
        decreases n - j,
    {
        let mut taken: Result<Vec<String>, String> = Err(String::new());
        let ghost before = configs@;
        std::mem::swap(&mut taken, &mut configs[j]);
        let ds = match taken {
            Ok(ds) => ds,
            Err(_) => {
                proof {
                    assert(config_blocks(jobs@, orig, j as int));
                }
                Vec::new()
            },
        };
        proof {
            assert(orig[j as int] matches Ok(d) && d == ds);
        }
        dependencies.push((jobs[j].name.clone(), ds));
        proof {
            assert(dependencies@ =~= deps.take(j + 1));
        }
        j = j + 1;
    }
    proof {
        assert(dependencies@ =~= deps);
    }
    let meta = WorkflowMeta {
        name: String::new(),
        description: String::new(),
        dependencies,
        params: Vec::new(),
    };
    proof {
        lemma_config_deps_complete(jobs@, orig);
    }
    match order_jobs(jobs, &meta) {
        Ok(order) => Ok(order),
        Err(OrderError::Blocked(list)) => {
            Err(concat2("Circular dependency detected involving jobs: ", list.as_str()))
        },
        Err(OrderError::MissingDependency { job, dep }) => {
            proof {
                assert(false);
            }
            Err(String::new())
        },
    }
}

/// When no configuration stops the ordering, every dependency read from the
/// configurations names a job.
proof fn lemma_config_deps_complete(jobs: Seq<JobFolder>, configs: Seq<Result<Vec<String>, String>>)
    requires
        configs.len() == jobs.len(),
        forall|x: int| 0 <= x < jobs.len() ==> !#[trigger] config_blocks(jobs, configs, x),
    ensures
        !has_missing(jobs, config_deps(jobs, configs)),
{
    let deps = config_deps(jobs, configs);
    assert forall|i: int, k: int| !missing_at(jobs, deps, i, k) by {
        if 0 <= i < jobs.len() {
            lemma_first_key_index(deps, jobs[i].name@);
            assert(deps[i].0@ == jobs[i].name@);
            let f = first_key_index(deps, jobs[i].name@);
            assert(0 <= f < jobs.len());
            assert(!config_blocks(jobs, configs, f));
            assert(job_deps(jobs, deps, i) == deps[f].1@);
        }
    }
}

} // verus!
