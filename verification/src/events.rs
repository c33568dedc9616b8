//! Machine-readable output for headless runs.
//!
//! A headless run tells a person plenty and a program almost nothing: without
//! `--json` the only reliable signal a caller gets is the process exit code, so
//! learning *which* job failed means scraping prose that was never meant to be
//! an interface.
//!
//! [`Emitter`] decides everything a run prints. In [`OutputFormat::Human`] it
//! gives the lines a person reads; in [`OutputFormat::Json`] it gives one event
//! per message, for the caller to write to stdout as newline-delimited JSON.
//! Writing them, and stamping events with the time, is the caller's part.

use vstd::prelude::*;
use vstd::string::*;

use crate::docker::job::JobStatus;
use crate::docker::logs::LogSource;
use crate::text::{decimal, join, join_strings, push_decimal};

verus! {

#[derive(Debug, Clone, Copy, PartialEq, Eq, Structural)]
pub enum OutputFormat {
    Human,
    Json,
}

/// The stream a human-readable line goes to.
#[derive(Debug, Clone, Copy, PartialEq, Eq, Structural)]
pub enum Stream {
    Stdout,
    Stderr,
}

/// A line for a person to read.
#[derive(Debug, Clone)]
pub struct Line {
    pub stream: Stream,
    pub text: String,
}

/// One machine-readable event.
#[derive(Debug, Clone)]
pub enum Event {
    /// The run is about to begin, with its jobs in execution order.
    WorkflowStarted { workflow: String, jobs: Vec<String> },
    /// A job moved to another phase, at the given time (milliseconds since the
    /// Unix epoch).
    JobPhase { job: String, index: usize, status: &'static str, at: i64 },
    /// A line a job's container wrote.
    Log { job: String, index: usize, stream: Stream, text: String, at: i64 },
    /// A job ended, with silva's own failure message when it failed.
    JobFinished { job: String, index: usize, failed: bool, error: Option<String> },
    /// A job the run never reached.
    JobSkipped { job: String, index: usize, reason: String },
    /// The run ended: `completed`, `failed` or `cancelled`.
    WorkflowEnded { status: &'static str, error: Option<String>, output_dir: String },
}

/// What the emitter gives for one message of the run.
#[derive(Debug, Clone)]
pub enum Emission {
    Nothing,
    Lines(Vec<Line>),
    Event(Event),
}

/// The name a consumer sees for a job status.
pub open spec fn status_name_of(s: JobStatus) -> Seq<char> {
    match s {
        JobStatus::Idle => "idle"@,
        JobStatus::Pending => "pending"@,
        JobStatus::PullingImage => "pulling_image"@,
        JobStatus::BuildingImage => "building_image"@,
        JobStatus::CreatingContainer => "creating_container"@,
        JobStatus::ContainerRunning(_) => "running"@,
        JobStatus::Running => "running"@,
        JobStatus::Completed => "completed"@,
        JobStatus::Failed => "failed"@,
    }
}

/// Job lifecycle as a consumer sees it. Derived from [`JobStatus`], which
/// carries container detail a caller has no use for.
pub fn status_name(status: &JobStatus) -> (r: &'static str)
    ensures
        r@ == status_name_of(*status),
{
    match status {
        JobStatus::Idle => "idle",
        JobStatus::Pending => "pending",
        JobStatus::PullingImage => "pulling_image",
        JobStatus::BuildingImage => "building_image",
        JobStatus::CreatingContainer => "creating_container",
        JobStatus::ContainerRunning(_) => "running",
        JobStatus::Running => "running",
        JobStatus::Completed => "completed",
        JobStatus::Failed => "failed",
    }
}

/// Whether a message of job `index` in `status` is a phase transition to
/// report, after `last` was the last one reported: never for a terminal
/// status, and not for a repeat of the last phase of the same job.
pub open spec fn reports_phase(last: Option<(usize, Seq<char>)>, index: usize, status: JobStatus) -> bool {
    !(status is Completed || status is Failed) && last != Some((index, status_name_of(status)))
}

/// A phase just reported is not reported again: a second message of the same
/// job in the same phase is dropped.
pub proof fn law_repeated_phase_reported_once(last: Option<(usize, Seq<char>)>, index: usize, status: JobStatus)
    requires
        reports_phase(last, index, status),
    ensures
        !reports_phase(Some((index, status_name_of(status))), index, status),
{
}

/// Terminal statuses are never reported as phases: the executor sends
/// `Completed` once per script, which is progress, not the job finishing.
pub proof fn law_terminal_status_is_no_phase(last: Option<(usize, Seq<char>)>, index: usize, status: JobStatus)
    requires
        status is Completed || status is Failed,
    ensures
        !reports_phase(last, index, status),
{
}

/// What a line says: its stream and text.
pub open spec fn line_view(l: Line) -> (Stream, Seq<char>) {
    (l.stream, l.text@)
}

/// The lines of an emission, or none when it holds no lines.
pub open spec fn emitted_lines(e: Emission) -> Seq<(Stream, Seq<char>)> {
    match e {
        Emission::Lines(v) => v@.map_values(|l: Line| line_view(l)),
        _ => Seq::empty(),
    }
}

/// A line on stdout.
pub open spec fn out(text: Seq<char>) -> (Stream, Seq<char>) {
    (Stream::Stdout, text)
}

/// A line on stderr.
pub open spec fn err(text: Seq<char>) -> (Stream, Seq<char>) {
    (Stream::Stderr, text)
}

fn line(stream: Stream, text: String) -> (r: Line)
    ensures
        line_view(r) == (stream, text@),
{
    Line { stream, text }
}

/// An emission of the given lines.
fn lines(v: Vec<Line>) -> (r: Emission)
    ensures
        r is Lines,
        emitted_lines(r) == v@.map_values(|l: Line| line_view(l)),
{
    Emission::Lines(v)
}

pub struct Emitter {
    format: OutputFormat,
    /// Human mode prints a header when the run moves to another job.
    current_job: Option<String>,
    /// JSON mode emits a job event only when its phase actually changes: the
    /// executor reports `Completed` once per script, which is progress rather
    /// than a job finishing.
    last_status: Option<(usize, &'static str)>,
}

impl Emitter {
    /// The format the emitter writes.
    pub closed spec fn format_of(&self) -> OutputFormat {
        self.format
    }

    /// The job whose header human mode printed last.
    pub closed spec fn current_job_of(&self) -> Option<Seq<char>> {
        match self.current_job {
            Some(j) => Some(j@),
            None => None,
        }
    }

    /// The job and phase JSON mode reported last.
    pub closed spec fn last_phase_of(&self) -> Option<(usize, Seq<char>)> {
        match self.last_status {
            Some((i, s)) => Some((i, s@)),
            None => None,
        }
    }

    pub fn new(format: OutputFormat) -> (r: Self)
        ensures
            r.format_of() == format,
            r.current_job_of() is None,
            r.last_phase_of() is None,
    {
        Self { format, current_job: None, last_status: None }
    }

    pub fn is_json(&self) -> (r: bool)
        ensures
            r == (self.format_of() == OutputFormat::Json),
    {
        match self.format {
            OutputFormat::Json => true,
            OutputFormat::Human => false,
        }
    }

    /// Environment facts, before the run proper. Human only: a consumer that
    /// wants the temp folder gets it on the terminal `workflow` event.
    pub fn preamble(&self, docker_socket: &str, workflow_name: &str, temp_folder: &str) -> (r: Emission)
        ensures
            self.format_of() == OutputFormat::Json ==> r is Nothing,
            self.format_of() == OutputFormat::Human ==> r is Lines && emitted_lines(r) == seq![
                out("Docker socket: "@ + docker_socket@),
                out("Running workflow: "@ + workflow_name@),
                out("Temp folder: "@ + temp_folder@),
            ],
    {
        if self.is_json() {
            return Emission::Nothing;
        }
        let mut a = String::from_str("Docker socket: ");
        a.append(docker_socket);
        let mut b = String::from_str("Running workflow: ");
        b.append(workflow_name);
        let mut c = String::from_str("Temp folder: ");
        c.append(temp_folder);
        let mut v: Vec<Line> = Vec::new();
        v.push(line(Stream::Stdout, a));
        v.push(line(Stream::Stdout, b));
        v.push(line(Stream::Stdout, c));
        assert(v@.map_values(|l: Line| line_view(l)) =~= seq![
            out("Docker socket: "@ + docker_socket@),
            out("Running workflow: "@ + workflow_name@),
            out("Temp folder: "@ + temp_folder@),
        ]);
        lines(v)
    }

    pub fn jobs_found(&self, count: usize) -> (r: Emission)
        ensures
            self.format_of() == OutputFormat::Json ==> r is Nothing,
            self.format_of() == OutputFormat::Human ==> r is Lines && emitted_lines(r) == seq![
                out("Found "@ + decimal(count as nat) + " job(s)"@),
            ],
    {
        if self.is_json() {
            return Emission::Nothing;
        }
        let mut a = String::from_str("Found ");
        push_decimal(&mut a, count as u128);
        a.append(" job(s)");
        let mut v: Vec<Line> = Vec::new();
        v.push(line(Stream::Stdout, a));
        assert(v@.map_values(|l: Line| line_view(l)) =~= seq![
            out("Found "@ + decimal(count as nat) + " job(s)"@),
        ]);
        lines(v)
    }

    pub fn global_params_loaded(&self, count: usize) -> (r: Emission)
        ensures
            (self.format_of() == OutputFormat::Json || count == 0) ==> r is Nothing,
            (self.format_of() == OutputFormat::Human && count > 0) ==> r is Lines && emitted_lines(r)
                == seq![out("Loaded "@ + decimal(count as nat) + " global workflow parameter(s)"@)],
    {
        if self.is_json() || count == 0 {
            return Emission::Nothing;
        }
        let mut a = String::from_str("Loaded ");
        push_decimal(&mut a, count as u128);
        a.append(" global workflow parameter(s)");
        let mut v: Vec<Line> = Vec::new();
        v.push(line(Stream::Stdout, a));
        assert(v@.map_values(|l: Line| line_view(l)) =~= seq![
            out("Loaded "@ + decimal(count as nat) + " global workflow parameter(s)"@),
        ]);
        lines(v)
    }

    /// Printed as soon as the graph is sorted, which is where it has always
    /// appeared. The machine-readable counterpart is [`Emitter::workflow_started`],
    /// which waits until the run is actually about to begin.
    pub fn execution_order(&self, execution_order: &Vec<String>) -> (r: Emission)
        ensures
            self.format_of() == OutputFormat::Json ==> r is Nothing,
            self.format_of() == OutputFormat::Human ==> r is Lines && emitted_lines(r) == seq![
                out(
                    "Execution order: "@ + join(
                        execution_order@.map_values(|s: String| s@),
                        " -> "@,
                    ),
                ),
            ],
    {
        if self.is_json() {
            return Emission::Nothing;
        }
        let mut a = String::from_str("Execution order: ");
        let joined = join_strings(execution_order, " -> ");
        a.append(joined.as_str());
        let mut v: Vec<Line> = Vec::new();
        v.push(line(Stream::Stdout, a));
        assert(v@.map_values(|l: Line| line_view(l)) =~= seq![
            out("Execution order: "@ + join(execution_order@.map_values(|s: String| s@), " -> "@)),
        ]);
        lines(v)
    }

    /// The run is about to begin: prechecks have passed and inputs are staged.
    /// A workflow rejected before this point never reports itself as started.
    pub fn workflow_started(&self, workflow_name: &str, execution_order: &Vec<String>) -> (r: Emission)
        ensures
            self.format_of() == OutputFormat::Json ==> (r matches Emission::Event(
                Event::WorkflowStarted { workflow, jobs },
            ) && workflow@ == workflow_name@ && jobs@.map_values(|s: String| s@)
                == execution_order@.map_values(|s: String| s@)),
            self.format_of() == OutputFormat::Human ==> r is Lines && emitted_lines(r) == seq![
                out(Seq::empty()),
            ],
    {
        if self.is_json() {
            let mut jobs: Vec<String> = Vec::new();
            for i in 0..execution_order.len()
                invariant
                    jobs@.len() == i,
                    forall|k: int| 0 <= k < i ==> #[trigger] jobs@[k]@ == execution_order@[k]@,
            {
                jobs.push(execution_order[i].clone());
            }
            assert(jobs@.map_values(|s: String| s@) =~= execution_order@.map_values(|s: String| s@));
            return Emission::Event(
                Event::WorkflowStarted { workflow: workflow_name.to_string(), jobs },
            );
        }
        let mut v: Vec<Line> = Vec::new();
        v.push(line(Stream::Stdout, String::new()));
        assert(v@.map_values(|l: Line| line_view(l)) =~= seq![out(Seq::empty())]);
        lines(v)
    }

    /// Whether this message is a phase transition worth reporting. `Completed`
    /// and `Failed` never are: the executor sends `Completed` once per script,
    /// and a job's terminal state is decided by the run moving on (see
    /// [`Emitter::job_finished`]). A repeat of the phase last reported, for the
    /// same job, is not either; any other phase is, and becomes the last one.
    pub fn should_report_phase(&mut self, index: usize, status: &JobStatus) -> (r: bool)
        ensures
            r == reports_phase(old(self).last_phase_of(), index, *status),
            r ==> final(self).last_phase_of() == Some((index, status_name_of(*status))),
            !r ==> final(self).last_phase_of() == old(self).last_phase_of(),
            final(self).format_of() == old(self).format_of(),
            final(self).current_job_of() == old(self).current_job_of(),
    {
        match status {
            JobStatus::Completed | JobStatus::Failed => {
                return false;
            },
            _ => {},
        }
        let name = status_name(status);
        let same = match self.last_status {
            Some((i, s)) => i == index && crate::text::str_eq(s, name),
            None => false,
        };
        if same {
            return false;
        }
        self.last_status = Some((index, name));
        true
    }

    /// A job's phase changed, at `at` (milliseconds since the Unix epoch).
    /// In JSON mode this is a `job` event, unless it repeats the last phase
    /// reported (see [`Emitter::should_report_phase`]). In human mode it is
    /// only the header shown when the run moves to another job, preceded by
    /// an empty line unless it is the first; the status line follows the log
    /// line and comes from [`Emitter::job_status_line`].
    pub fn job_phase(&mut self, job: &str, index: usize, status: &JobStatus, at: i64) -> (r: Emission)
        ensures
            final(self).format_of() == old(self).format_of(),
            old(self).format_of() == OutputFormat::Json ==> {
                let report = !(status is Completed || status is Failed) && old(self).last_phase_of()
                    != Some((index, status_name_of(*status)));
                &&& final(self).current_job_of() == old(self).current_job_of()
                &&& report ==> final(self).last_phase_of() == Some((index, status_name_of(*status)))
                &&& !report ==> final(self).last_phase_of() == old(self).last_phase_of()
                &&& !report ==> r is Nothing
                &&& report ==> (r matches Emission::Event(Event::JobPhase { job: j, index: i, status: s, at: t })
                    && j@ == job@ && i == index && s@ == status_name_of(*status) && t == at)
            },
            old(self).format_of() == OutputFormat::Human ==> {
                &&& final(self).last_phase_of() == old(self).last_phase_of()
                &&& final(self).current_job_of() == Some(job@)
                &&& old(self).current_job_of() == Some(job@) ==> r is Nothing
                &&& old(self).current_job_of() is None ==> r is Lines && emitted_lines(r) == seq![
                    out("=== Job: "@ + job@ + " ==="@),
                ]
                &&& (old(self).current_job_of() is Some && old(self).current_job_of() != Some(job@))
                    ==> r is Lines && emitted_lines(r) == seq![
                    out(Seq::empty()),
                    out("=== Job: "@ + job@ + " ==="@),
                ]
            },
    {
        if self.is_json() {
            let name = status_name(status);
            if !self.should_report_phase(index, status) {
                return Emission::Nothing;
            }
            return Emission::Event(
                Event::JobPhase { job: job.to_string(), index, status: name, at },
            );
        }
        let same = match &self.current_job {
            Some(c) => crate::text::str_eq(c.as_str(), job),
            None => false,
        };
        if same {
            return Emission::Nothing;
        }
        let mut v: Vec<Line> = Vec::new();
        if self.current_job.is_some() {
            v.push(line(Stream::Stdout, String::new()));
        }
        let mut h = String::from_str("=== Job: ");
        h.append(job);
        h.append(" ===");
        v.push(line(Stream::Stdout, h));
        self.current_job = Some(job.to_string());
        assert(v@.map_values(|l: Line| line_view(l)) =~= if old(self).current_job_of() is None {
            seq![out("=== Job: "@ + job@ + " ==="@)]
        } else {
            seq![out(Seq::empty()), out("=== Job: "@ + job@ + " ==="@)]
        });
        lines(v)
    }

    /// Human mode's per-message status line, printed after the log line
    /// exactly as it was before events existed. JSON mode reports terminal
    /// state once per job instead (see [`Emitter::job_finished`]).
    pub fn job_status_line(&self, job: &str, status: &JobStatus) -> (r: Emission)
        ensures
            (self.format_of() == OutputFormat::Json || !(status is Completed || status is Failed))
                ==> r is Nothing,
            (self.format_of() == OutputFormat::Human && status is Completed) ==> r is Lines
                && emitted_lines(r) == seq![out("["@ + job@ + "] Completed"@)],
            (self.format_of() == OutputFormat::Human && status is Failed) ==> r is Lines
                && emitted_lines(r) == seq![err("["@ + job@ + "] Failed"@)],
    {
        if self.is_json() {
            return Emission::Nothing;
        }
        let (stream, tail) = match status {
            JobStatus::Completed => (Stream::Stdout, "] Completed"),
            JobStatus::Failed => (Stream::Stderr, "] Failed"),
            _ => {
                return Emission::Nothing;
            },
        };
        let mut t = String::from_str("[");
        t.append(job);
        t.append(tail);
        let mut v: Vec<Line> = Vec::new();
        v.push(line(stream, t));
        assert(v@.map_values(|l: Line| line_view(l)) =~= seq![(stream, "["@ + job@ + tail@)]);
        lines(v)
    }

    /// A line of a job's output, captured at `at` (milliseconds since the
    /// Unix epoch). An empty line is dropped.
    pub fn log(&self, job: &str, index: usize, source: LogSource, text: &str, at: i64) -> (r: Emission)
        ensures
            text@.len() == 0 ==> r is Nothing,
            (text@.len() > 0 && self.format_of() == OutputFormat::Json) ==> (r matches Emission::Event(
                Event::Log { job: j, index: i, stream: s, text: t, at: a },
            ) && j@ == job@ && i == index && t@ == text@ && a == at && s == match source {
                LogSource::Stdout => Stream::Stdout,
                LogSource::Stderr => Stream::Stderr,
            }),
            (text@.len() > 0 && self.format_of() == OutputFormat::Human) ==> r is Lines && emitted_lines(r)
                == seq![
                (
                    match source {
                        LogSource::Stdout => Stream::Stdout,
                        LogSource::Stderr => Stream::Stderr,
                    },
                    text@,
                ),
            ],
    {
        if text.unicode_len() == 0 {
            return Emission::Nothing;
        }
        let stream = match source {
            LogSource::Stdout => Stream::Stdout,
            LogSource::Stderr => Stream::Stderr,
        };
        if self.is_json() {
            return Emission::Event(
                Event::Log { job: job.to_string(), index, stream, text: text.to_string(), at },
            );
        }
        let mut v: Vec<Line> = Vec::new();
        v.push(line(stream, text.to_string()));
        assert(v@.map_values(|l: Line| line_view(l)) =~= seq![(stream, text@)]);
        lines(v)
    }

    /// One terminal event per job, given when the run moves on or ends.
    /// `error` carries silva's own failure message rather than leaving a
    /// caller to read it out of the logs. JSON only.
    pub fn job_finished(&self, job: &str, index: usize, failed: bool, error: Option<&str>) -> (r: Emission)
        ensures
            self.format_of() == OutputFormat::Human ==> r is Nothing,
            self.format_of() == OutputFormat::Json ==> (r matches Emission::Event(
                Event::JobFinished { job: j, index: i, failed: f, error: e },
            ) && j@ == job@ && i == index && f == failed && match (e, error) {
                (Some(x), Some(y)) => x@ == y@,
                (None, None) => true,
                _ => false,
            }),
    {
        if !self.is_json() {
            return Emission::Nothing;
        }
        let e = match error {
            Some(m) => Some(m.to_string()),
            None => None,
        };
        Emission::Event(Event::JobFinished { job: job.to_string(), index, failed, error: e })
    }

    /// Jobs the run never reached. Without this they are simply absent, and a
    /// caller cannot tell "never ran" from "not part of this workflow". JSON
    /// only.
    pub fn job_skipped(&self, job: &str, index: usize, reason: &str) -> (r: Emission)
        ensures
            self.format_of() == OutputFormat::Human ==> r is Nothing,
            self.format_of() == OutputFormat::Json ==> (r matches Emission::Event(
                Event::JobSkipped { job: j, index: i, reason: m },
            ) && j@ == job@ && i == index && m@ == reason@),
    {
        if !self.is_json() {
            return Emission::Nothing;
        }
        Emission::Event(Event::JobSkipped { job: job.to_string(), index, reason: reason.to_string() })
    }

    /// The run was interrupted (Ctrl-C in headless mode) rather than
    /// completing or failing on its own. Kept distinct from
    /// [`Emitter::workflow_finished`] so a consumer can tell a deliberate
    /// interrupt apart from a crash.
    pub fn workflow_cancelled(&self, output_dir: &str) -> (r: Emission)
        ensures
            self.format_of() == OutputFormat::Json ==> (r matches Emission::Event(
                Event::WorkflowEnded { status, error, output_dir: d },
            ) && status@ == "cancelled"@ && error is None && d@ == output_dir@),
            self.format_of() == OutputFormat::Human ==> r is Lines && emitted_lines(r) == seq![
                out(Seq::empty()),
                err("Workflow cancelled"@),
                out(Seq::empty()),
                out("Working folder: "@ + output_dir@),
                out("  (You can inspect this folder to debug the issue)"@),
            ],
    {
        if self.is_json() {
            return Emission::Event(
                Event::WorkflowEnded { status: "cancelled", error: None, output_dir: output_dir.to_string() },
            );
        }
        let mut w = String::from_str("Working folder: ");
        w.append(output_dir);
        let mut v: Vec<Line> = Vec::new();
        v.push(line(Stream::Stdout, String::new()));
        v.push(line(Stream::Stderr, String::from_str("Workflow cancelled")));
        v.push(line(Stream::Stdout, String::new()));
        v.push(line(Stream::Stdout, w));
        v.push(line(Stream::Stdout, String::from_str("  (You can inspect this folder to debug the issue)")));
        assert(v@.map_values(|l: Line| line_view(l)) =~= seq![
            out(Seq::empty()),
            err("Workflow cancelled"@),
            out(Seq::empty()),
            out("Working folder: "@ + output_dir@),
            out("  (You can inspect this folder to debug the issue)"@),
        ]);
        lines(v)
    }

    /// The run ended on its own, completed or failed.
    pub fn workflow_finished(&self, result: &Result<(), String>, output_dir: &str) -> (r: Emission)
        ensures
            self.format_of() == OutputFormat::Json ==> (r matches Emission::Event(
                Event::WorkflowEnded { status, error, output_dir: d },
            ) && d@ == output_dir@ && match result {
                Ok(()) => status@ == "completed"@ && error is None,
                Err(m) => status@ == "failed"@ && (error matches Some(x) && x@ == m@),
            }),
            self.format_of() == OutputFormat::Human ==> r is Lines && emitted_lines(r) == match result {
                Ok(()) => seq![
                    out(Seq::empty()),
                    out("Workflow completed successfully"@),
                    out(Seq::empty()),
                    out("Output folder: "@ + output_dir@),
                    out("  (This folder will persist until you delete it manually)"@),
                ],
                Err(m) => seq![
                    out(Seq::empty()),
                    err("Workflow failed: "@ + m@),
                    out(Seq::empty()),
                    out("Working folder: "@ + output_dir@),
                    out("  (You can inspect this folder to debug the issue)"@),
                ],
            },
    {
        if self.is_json() {
            return match result {
                Ok(()) => Emission::Event(
                    Event::WorkflowEnded {
                        status: "completed",
                        error: None,
                        output_dir: output_dir.to_string(),
                    },
                ),
                Err(m) => Emission::Event(
                    Event::WorkflowEnded {
                        status: "failed",
                        error: Some(m.clone()),
                        output_dir: output_dir.to_string(),
                    },
                ),
            };
        }
        let mut v: Vec<Line> = Vec::new();
        v.push(line(Stream::Stdout, String::new()));
        match result {
            Ok(()) => {
                let mut o = String::from_str("Output folder: ");
                o.append(output_dir);
                v.push(line(Stream::Stdout, String::from_str("Workflow completed successfully")));
                v.push(line(Stream::Stdout, String::new()));
                v.push(line(Stream::Stdout, o));
                v.push(
                    line(
                        Stream::Stdout,
                        String::from_str("  (This folder will persist until you delete it manually)"),
                    ),
                );
            },
            Err(m) => {
                let mut f = String::from_str("Workflow failed: ");
                f.append(m.as_str());
                let mut w = String::from_str("Working folder: ");
                w.append(output_dir);
                v.push(line(Stream::Stderr, f));
                v.push(line(Stream::Stdout, String::new()));
                v.push(line(Stream::Stdout, w));
                v.push(
                    line(Stream::Stdout, String::from_str("  (You can inspect this folder to debug the issue)")),
                );
            },
        }
        proof {
            match result {
                Ok(()) => {
                    assert(v@.map_values(|l: Line| line_view(l)) =~= seq![
                        out(Seq::empty()),
                        out("Workflow completed successfully"@),
                        out(Seq::empty()),
                        out("Output folder: "@ + output_dir@),
                        out("  (This folder will persist until you delete it manually)"@),
                    ]);
                },
                Err(m) => {
                    assert(v@.map_values(|l: Line| line_view(l)) =~= seq![
                        out(Seq::empty()),
                        err("Workflow failed: "@ + m@),
                        out(Seq::empty()),
                        out("Working folder: "@ + output_dir@),
                        out("  (You can inspect this folder to debug the issue)"@),
                    ]);
                },
            }
        }
        lines(v)
    }
}

} // verus!
