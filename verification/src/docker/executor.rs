//! Running one job in a container, as the decisions between the calls made to
//! the Docker engine.
//!
//! A [`JobRun`] is started from a job's configuration and says which call to
//! make next ([`DockerAction`]); the caller makes it and hands back what came
//! of it ([`DockerEvent`]). Each step also gives the status and log lines to
//! report for the job ([`Note`]).

use vstd::prelude::*;
use vstd::string::*;

use crate::assoc::{insert_entry, find_key, lookup, lemma_first_key_index};
use crate::docker::job::JobStatus;
use crate::docker::logs::{LogBuffer, LogSource};
use crate::job_config::config::{Container, JobConfig};
use crate::paths::{path_join, spec_path_join};
use crate::script::{range_texts, token_ranges, tokens, trim, trim_range};
use crate::text::{
    concat2, concat3, contains_text, decimal, has_substring, parse_usize_range, parsed_unsigned, push_char, push_decimal, push_signed,
    signed_decimal, to_chars,
};

verus! {

/// Error of a Docker operation.
#[derive(Debug, Clone, PartialEq, Eq)]
pub enum DockerError {
    /// An error of the Docker engine's API, by its message.
    BollardError(String),
    ImageBuildFailed(String),
    ContainerCreateFailed(String),
    ContainerStartFailed(String),
    ScriptExecutionFailed { script: String, exit_code: i64 },
    LogStreamError(String),
    NoContainerId,
    /// A file-system error, by its message.
    IoError(String),
    ChannelSendMessageError(String),
}

/// The message of a Docker error.
pub open spec fn docker_error_message(e: DockerError) -> Seq<char> {
    match e {
        DockerError::BollardError(m) => "Docker API error: "@ + m@,
        DockerError::ImageBuildFailed(m) => "Image build failed: "@ + m@,
        DockerError::ContainerCreateFailed(m) => "Container creation failed: "@ + m@,
        DockerError::ContainerStartFailed(m) => "Container start failed: "@ + m@,
        DockerError::ScriptExecutionFailed { script, exit_code } => "Script '"@ + script@
            + "' failed with exit code "@ + signed_decimal(exit_code as int),
        DockerError::LogStreamError(m) => "Log streaming error: "@ + m@,
        DockerError::NoContainerId => "No container ID available"@,
        DockerError::IoError(m) => "IO error: "@ + m@,
        DockerError::ChannelSendMessageError(m) => "MPSC channel send message error: "@ + m@,
    }
}

impl DockerError {
    /// The error's message.
    pub fn message(&self) -> (r: String)
        ensures
            r@ == docker_error_message(*self),
    {
        let mut out = String::new();
        match self {
            DockerError::BollardError(m) => {
                out.append("Docker API error: ");
                out.append(m.as_str());
            },
            DockerError::ImageBuildFailed(m) => {
                out.append("Image build failed: ");
                out.append(m.as_str());
            },
            DockerError::ContainerCreateFailed(m) => {
                out.append("Container creation failed: ");
                out.append(m.as_str());
            },
            DockerError::ContainerStartFailed(m) => {
                out.append("Container start failed: ");
                out.append(m.as_str());
            },
            DockerError::ScriptExecutionFailed { script, exit_code } => {
                out.append("Script '");
                out.append(script.as_str());
                out.append("' failed with exit code ");
                push_signed(&mut out, *exit_code);
            },
            DockerError::LogStreamError(m) => {
                out.append("Log streaming error: ");
                out.append(m.as_str());
            },
            DockerError::NoContainerId => {
                out.append("No container ID available");
            },
            DockerError::IoError(m) => {
                out.append("IO error: ");
                out.append(m.as_str());
            },
            DockerError::ChannelSendMessageError(m) => {
                out.append("MPSC channel send message error: ");
                out.append(m.as_str());
            },
        }
        out
    }
}

/// What is reported about a job at one point of its run: its new status and
/// one line for its log.
#[derive(Debug, Clone)]
pub struct Note {
    pub status: JobStatus,
    pub source: LogSource,
    pub text: String,
}

/// A note on the standard output.
fn out_note(status: JobStatus, text: String) -> (r: Note)
    ensures
        r.status == status,
        r.source == LogSource::Stdout,
        r.text == text,
{
    Note { status, source: LogSource::Stdout, text }
}

/// A note on the standard error.
fn err_note(status: JobStatus, text: String) -> (r: Note)
    ensures
        r.status == status,
        r.source == LogSource::Stderr,
        r.text == text,
{
    Note { status, source: LogSource::Stderr, text }
}

/// The outcome of a job run, with what it holds of the container and logs.
#[derive(Debug)]
pub struct JobResult {
    pub container_id: Option<String>,
    pub status: JobStatus,
    pub logs: LogBuffer,
}

impl Default for JobResult {
    fn default() -> (r: Self)
        ensures
            r.container_id is None,
            r.status == JobStatus::Idle,
            r.logs.view_lines().len() == 0,
            r.logs.capacity() == 10000,
    {
        Self { container_id: None, status: JobStatus::Idle, logs: LogBuffer::default() }
    }
}

impl JobResult {
    /// Takes over the container and the logs of `source`: its container id,
    /// when it has one, replaces this one, its log lines follow this one's,
    /// and the status goes back to idle. `source` is left with no container
    /// and no log lines.
    pub fn acquire(&mut self, source: &mut JobResult)
        ensures
            final(self).container_id == match old(source).container_id {
                Some(id) => Some(id),
                None => old(self).container_id,
            },
            final(self).status == JobStatus::Idle,
            final(self).logs.view_lines() == old(self).logs.view_lines() + old(
                source,
            ).logs.view_lines(),
            final(self).logs.capacity() == old(self).logs.capacity(),
            final(source).container_id is None,
            final(source).status == old(source).status,
            final(source).logs.view_lines().len() == 0,
    {
        let mut taken: Option<String> = None;
        std::mem::swap(&mut taken, &mut source.container_id);
        if let Some(id) = taken {
            self.container_id = Some(id);
        }
        self.status = JobStatus::Idle;
        self.logs.append(&mut source.logs);
    }
}


/// The text `{:?}` gives for a path.
pub uninterp spec fn path_debug_text(path: Seq<char>) -> Seq<char>;

/// Formats a path with `{:?}`, as `std::path::Path`'s `Debug` writes it.
#[verifier::external_body]
fn path_debug(path: &str) -> (r: String)
    ensures
        r@ == path_debug_text(path@),
{
    format!("{:?}", std::path::Path::new(path))
}

/// What the engine answered when asked about an image tag.
#[derive(Debug, Clone)]
pub enum ImageCheck {
    Exists,
    /// The engine answered that no such image exists.
    Missing,
    /// Any other failure, by its message.
    Failed(String),
}

/// What came of the call a [`JobRun`] asked for.
#[derive(Debug)]
pub enum DockerEvent {
    Pulled(Result<(), DockerError>),
    Inspected(ImageCheck),
    /// The image was built; the id the engine gave it.
    Built(Result<String, DockerError>),
    /// The container was created, with its id, or the engine's message.
    Created(Result<String, String>),
    /// The container was started, or the engine's message.
    Started(Result<(), String>),
    /// The container reached the running state.
    Ready(Result<(), DockerError>),
    /// Whether the script file exists in the job folder.
    ScriptFound(bool),
    /// The script's exit code.
    ScriptExited(Result<i64, DockerError>),
    /// The number of output files collected.
    Collected(Result<usize, DockerError>),
}

/// The call to make next for a job run.
#[derive(Debug)]
pub enum DockerAction {
    PullImage { image: String },
    InspectImage { tag: String },
    BuildImage { image_name: String, dockerfile: String },
    /// Create a container of `image`, with `bind` as its volume binding and
    /// `working_dir` as its working directory, asking for the GPUs when
    /// `use_gpu` holds.
    CreateContainer { image: String, use_gpu: bool, bind: String, working_dir: String },
    StartContainer { container_id: String },
    WaitUntilRunning { container_id: String, timeout_secs: u64 },
    /// Find out whether the file at `path` exists.
    CheckScript { path: String },
    ExecScript { container_id: String, working_dir: String, script: String },
    /// Run `script` with `bash -c` in the container to collect the outputs.
    CollectOutputs { container_id: String, working_dir: String, script: String },
    /// The run is over: the container the job ran in, or the error.
    Finish(Result<String, DockerError>),
}

/// Where a job run stands: the call it waits on.
#[derive(Debug, Clone, Copy, PartialEq, Eq, Structural)]
pub enum RunPhase {
    Pulling,
    Inspecting,
    Building,
    Creating,
    Starting,
    Waiting,
    /// Checking whether script `k` (0 for pre-run, 2 for post-run) exists.
    Checking(usize),
    /// Running script `k` (0 pre-run, 1 main, 2 post-run).
    Executing(usize),
    Collecting,
    Done,
}

/// One job being run in a container.
#[derive(Debug)]
pub struct JobRun {
    /// The workflow folder the jobs run in, mounted in the container.
    pub workflow_folder: String,
    pub job_name: String,
    pub config: JobConfig,
    /// The image to pull, or the name of the image to build.
    pub image_name: String,
    /// The image the container runs, once known.
    pub image: String,
    /// The container the scripts run in, once known.
    pub container_id: String,
    /// Whether every script run so far succeeded.
    pub scripts_ok: bool,
    pub phase: RunPhase,
}

/// A job run as plain values.
#[verifier::ext_equal]
pub struct RunView {
    pub folder: Seq<char>,
    pub job: Seq<char>,
    pub config: JobConfig,
    pub image_name: Seq<char>,
    pub image: Seq<char>,
    pub container: Seq<char>,
    pub scripts_ok: bool,
    pub phase: RunPhase,
}

/// A Docker error as plain values.
#[verifier::ext_equal]
pub enum ErrorView {
    Bollard(Seq<char>),
    ImageBuild(Seq<char>),
    Create(Seq<char>),
    Start(Seq<char>),
    Script(Seq<char>, i64),
    Stream(Seq<char>),
    NoContainer,
    Io(Seq<char>),
    Channel(Seq<char>),
}

/// A Docker error as plain values.
pub open spec fn error_view(e: DockerError) -> ErrorView {
    match e {
        DockerError::BollardError(m) => ErrorView::Bollard(m@),
        DockerError::ImageBuildFailed(m) => ErrorView::ImageBuild(m@),
        DockerError::ContainerCreateFailed(m) => ErrorView::Create(m@),
        DockerError::ContainerStartFailed(m) => ErrorView::Start(m@),
        DockerError::ScriptExecutionFailed { script, exit_code } => ErrorView::Script(
            script@,
            exit_code,
        ),
        DockerError::LogStreamError(m) => ErrorView::Stream(m@),
        DockerError::NoContainerId => ErrorView::NoContainer,
        DockerError::IoError(m) => ErrorView::Io(m@),
        DockerError::ChannelSendMessageError(m) => ErrorView::Channel(m@),
    }
}

/// A call to make, as plain values.
#[verifier::ext_equal]
pub enum ActionView {
    Pull(Seq<char>),
    Inspect(Seq<char>),
    Build(Seq<char>, Seq<char>),
    Create(Seq<char>, bool, Seq<char>, Seq<char>),
    Start(Seq<char>),
    Wait(Seq<char>, u64),
    Check(Seq<char>),
    Exec(Seq<char>, Seq<char>, Seq<char>),
    Collect(Seq<char>, Seq<char>, Seq<char>),
    Finish(Result<Seq<char>, ErrorView>),
}

/// A call to make, as plain values.
pub open spec fn action_view(a: DockerAction) -> ActionView {
    match a {
        DockerAction::PullImage { image } => ActionView::Pull(image@),
        DockerAction::InspectImage { tag } => ActionView::Inspect(tag@),
        DockerAction::BuildImage { image_name, dockerfile } => ActionView::Build(
            image_name@,
            dockerfile@,
        ),
        DockerAction::CreateContainer { image, use_gpu, bind, working_dir } => ActionView::Create(
            image@,
            use_gpu,
            bind@,
            working_dir@,
        ),
        DockerAction::StartContainer { container_id } => ActionView::Start(container_id@),
        DockerAction::WaitUntilRunning { container_id, timeout_secs } => ActionView::Wait(
            container_id@,
            timeout_secs,
        ),
        DockerAction::CheckScript { path } => ActionView::Check(path@),
        DockerAction::ExecScript { container_id, working_dir, script } => ActionView::Exec(
            container_id@,
            working_dir@,
            script@,
        ),
        DockerAction::CollectOutputs { container_id, working_dir, script } => ActionView::Collect(
            container_id@,
            working_dir@,
            script@,
        ),
        DockerAction::Finish(r) => ActionView::Finish(
            match r {
                Ok(id) => Ok(id@),
                Err(e) => Err(error_view(e)),
            },
        ),
    }
}

/// A job status as plain values.
#[verifier::ext_equal]
pub enum StatusView {
    Plain(JobStatus),
    /// The container with this id is running.
    Container(Seq<char>),
}

/// A job status as plain values.
pub open spec fn status_view(s: JobStatus) -> StatusView {
    match s {
        JobStatus::ContainerRunning(id) => StatusView::Container(id@),
        _ => StatusView::Plain(s),
    }
}

/// A note as plain values: status, stream and text.
pub type NoteView = (StatusView, LogSource, Seq<char>);

/// Notes as plain values.
pub open spec fn notes_view(notes: Seq<Note>) -> Seq<NoteView> {
    notes.map_values(|n: Note| (status_view(n.status), n.source, n.text@))
}

/// A note with a status that names no container.
pub open spec fn plain(status: JobStatus, source: LogSource, text: Seq<char>) -> NoteView {
    (StatusView::Plain(status), source, text)
}

/// The state, notes and call of one step of a job run.
pub type Step = (RunView, Seq<NoteView>, ActionView);

/// The script at position `k` of the run order: pre-run, main, post-run.
pub open spec fn script_of(c: JobConfig, k: int) -> Seq<char> {
    if k == 0 {
        c.scripts.pre@
    } else if k == 1 {
        c.scripts.run@
    } else {
        c.scripts.post@
    }
}

/// The job's folder inside the container.
pub open spec fn container_dir(v: RunView) -> Seq<char> {
    spec_path_join("/workspace"@, v.job)
}

/// The job's folder on the host.
pub open spec fn host_dir(v: RunView) -> Seq<char> {
    spec_path_join(v.folder, v.job)
}

/// The Dockerfile the job's image is built from.
pub open spec fn dockerfile_of(v: RunView) -> Seq<char> {
    match v.config.container {
        Container::DockerFile(p) => spec_path_join(host_dir(v), p@),
        Container::DockerImage(u) => u@,
    }
}

/// The run ends well: the container is kept for the jobs that follow.
pub open spec fn finish_ok(v: RunView, ns: Seq<NoteView>) -> Step {
    (
        RunView { phase: RunPhase::Done, ..v },
        ns.push(
            plain(
                JobStatus::Completed,
                LogSource::Stdout,
                "Job completed, container "@ + v.container
                    + " will be cleaned up after workflow finishes"@,
            ),
        ),
        ActionView::Finish(Ok(v.container)),
    )
}

/// The run ends with an error.
pub open spec fn finish_err(v: RunView, e: ErrorView) -> Step {
    (RunView { phase: RunPhase::Done, ..v }, Seq::empty(), ActionView::Finish(Err(e)))
}

/// After the scripts: the outputs are collected when every script succeeded
/// and the job names output patterns; otherwise the run ends.
pub open spec fn outputs_step(v: RunView, ns: Seq<NoteView>) -> Step {
    if v.scripts_ok && v.config.outputs@.len() > 0 {
        (
            RunView { phase: RunPhase::Collecting, ..v },
            ns.push(plain(JobStatus::Running, LogSource::Stdout, "Collecting output files..."@)),
            ActionView::Collect(v.container, container_dir(v), collection_script(v.config.outputs@)),
        )
    } else {
        finish_ok(v, ns)
    }
}

/// Script `k` is run in the job's folder inside the container.
pub open spec fn exec_step(v: RunView, k: usize, ns: Seq<NoteView>) -> Step {
    (
        RunView { phase: RunPhase::Executing(k), ..v },
        ns.push(plain(JobStatus::Running, LogSource::Stdout, "Executing script: "@ + script_of(v.config, k as int))),
        ActionView::Exec(v.container, container_dir(v), script_of(v.config, k as int)),
    )
}

/// The step for script `k`: the main script always runs, the pre-run and
/// post-run scripts only when their file exists; past the last script come
/// the outputs.
pub open spec fn script_step(v: RunView, k: usize, ns: Seq<NoteView>) -> Step {
    if k >= 3 {
        outputs_step(v, ns)
    } else if k == 1 {
        exec_step(v, k, ns)
    } else {
        (
            RunView { phase: RunPhase::Checking(k), ..v },
            ns,
            ActionView::Check(spec_path_join(host_dir(v), script_of(v.config, k as int))),
        )
    }
}

/// The container registered for an image, as plain values.
pub open spec fn registered(reg: Seq<(String, String)>, image: Seq<char>) -> Option<Seq<char>> {
    match lookup(reg, image) {
        Some(id) => Some(id@),
        None => None,
    }
}

/// Once the image is known: a container already made from it is reused,
/// and otherwise one is created with the workflow folder bound to
/// `/workspace`.
pub open spec fn container_step(v: RunView, reg: Seq<(String, String)>, ns: Seq<NoteView>) -> Step {
    match registered(reg, v.image) {
        Some(id) => script_step(
            RunView { container: id, ..v },
            0,
            ns.push(
                plain(
                    JobStatus::Running,
                    LogSource::Stdout,
                    "Reusing existing container "@ + id + " for image "@ + v.image,
                ),
            ),
        ),
        None => (
            RunView { phase: RunPhase::Creating, ..v },
            ns.push(
                plain(JobStatus::CreatingContainer, LogSource::Stdout, "Creating container with image: "@ + v.image),
            ) + if v.config.use_gpu {
                seq![
                    plain(
                        JobStatus::CreatingContainer,
                        LogSource::Stdout,
                        "GPU support enabled for this container"@,
                    ),
                ]
            } else {
                Seq::empty()
            },
            ActionView::Create(v.image, v.config.use_gpu, v.folder + ":/workspace"@, "/workspace"@),
        ),
    }
}

/// The first step of a run: pull the image the job names, or look for the
/// image built for it before, named after the workflow and the job.
pub open spec fn start_step(
    workflow_name: Seq<char>,
    folder: Seq<char>,
    job: Seq<char>,
    config: JobConfig,
) -> Step {
    let v = RunView {
        folder,
        job,
        config,
        image_name: match config.container {
            Container::DockerImage(url) => url@,
            Container::DockerFile(_) => workflow_name + "_"@ + job,
        },
        image: Seq::empty(),
        container: Seq::empty(),
        scripts_ok: true,
        phase: match config.container {
            Container::DockerImage(_) => RunPhase::Pulling,
            Container::DockerFile(_) => RunPhase::Inspecting,
        },
    };
    match config.container {
        Container::DockerImage(url) => (
            v,
            seq![plain(JobStatus::PullingImage, LogSource::Stdout, "Pulling image: "@ + url@)],
            ActionView::Pull(url@),
        ),
        Container::DockerFile(_) => (v, Seq::empty(), ActionView::Inspect(v.image_name + ":latest"@)),
    }
}

/// Whether a run in state `v` takes `e`: the event must answer the call
/// the run waits on.
pub open spec fn spec_accepts(v: RunView, e: DockerEvent) -> bool {
    match v.phase {
        RunPhase::Pulling => e is Pulled,
        RunPhase::Inspecting => e is Inspected,
        RunPhase::Building => e is Built,
        RunPhase::Creating => e is Created,
        RunPhase::Starting => e is Started,
        RunPhase::Waiting => e is Ready,
        RunPhase::Checking(k) => e is ScriptFound && (k == 0 || k == 2),
        RunPhase::Executing(k) => e is ScriptExited && k < 3,
        RunPhase::Collecting => e is Collected,
        RunPhase::Done => false,
    }
}

/// The step a run in state `v` takes on `e`, with `reg` the containers
/// made so far, by image.
pub open spec fn spec_advance(v: RunView, reg: Seq<(String, String)>, e: DockerEvent) -> Step {
    match e {
        DockerEvent::Pulled(Ok(_)) => container_step(RunView { image: v.image_name, ..v }, reg, Seq::empty()),
        DockerEvent::Pulled(Err(err)) => finish_err(v, error_view(err)),
        DockerEvent::Inspected(ImageCheck::Exists) => container_step(
            RunView { image: v.image_name + ":latest"@, ..v },
            reg,
            seq![
                plain(
                    JobStatus::BuildingImage,
                    LogSource::Stdout,
                    "docker image "@ + v.image_name
                        + " exists, skip building, remove the image to rebuild ..."@,
                ),
            ],
        ),
        DockerEvent::Inspected(ImageCheck::Missing) => (
            RunView { phase: RunPhase::Building, ..v },
            seq![
                plain(
                    JobStatus::BuildingImage,
                    LogSource::Stdout,
                    "Building image from: "@ + path_debug_text(dockerfile_of(v)),
                ),
            ],
            ActionView::Build(v.image_name, dockerfile_of(v)),
        ),
        DockerEvent::Inspected(ImageCheck::Failed(m)) => finish_err(
            v,
            ErrorView::ImageBuild("inspect image "@ + v.image_name + " error: "@ + m@),
        ),
        DockerEvent::Built(Ok(id)) => container_step(
            RunView { image: v.image_name + ":latest"@, ..v },
            reg,
            seq![
                plain(
                    JobStatus::BuildingImage,
                    LogSource::Stdout,
                    "Building image complete with image id: "@ + id@,
                ),
            ],
        ),
        DockerEvent::Built(Err(err)) => finish_err(v, error_view(err)),
        DockerEvent::Created(Ok(id)) => (
            RunView { phase: RunPhase::Starting, container: id@, ..v },
            seq![
                plain(
                    JobStatus::CreatingContainer,
                    LogSource::Stdout,
                    "Container created: "@ + id@ + ", binding "@ + v.folder + " to /workspace"@,
                ),
            ],
            ActionView::Start(id@),
        ),
        DockerEvent::Created(Err(m)) => finish_err(v, ErrorView::Create(m@)),
        DockerEvent::Started(Ok(_)) => (
            RunView { phase: RunPhase::Waiting, ..v },
            seq![
                plain(
                    JobStatus::CreatingContainer,
                    LogSource::Stdout,
                    "Waiting for Container "@ + v.container + " running ... "@,
                ),
            ],
            ActionView::Wait(v.container, 30),
        ),
        DockerEvent::Started(Err(m)) => finish_err(v, ErrorView::Start(m@)),
        DockerEvent::Ready(Ok(_)) => script_step(
            v,
            0,
            seq![
                (
                    StatusView::Container(v.container),
                    LogSource::Stdout,
                    "Now container "@ + v.container + " is running ... "@,
                ),
                plain(JobStatus::Running, LogSource::Stdout, "Container started and ready"@),
            ],
        ),
        DockerEvent::Ready(Err(err)) => finish_err(v, error_view(err)),
        DockerEvent::ScriptFound(found) => {
            let k = match v.phase {
                RunPhase::Checking(k) => k,
                _ => 0,
            };
            if found {
                exec_step(v, k, Seq::empty())
            } else {
                script_step(
                    v,
                    (k + 1) as usize,
                    seq![
                        plain(
                            JobStatus::Running,
                            LogSource::Stdout,
                            "Script "@ + script_of(v.config, k as int) + " not found ... skip"@,
                        ),
                    ],
                )
            }
        },
        DockerEvent::ScriptExited(r) => {
            let k = match v.phase {
                RunPhase::Executing(k) => k,
                _ => 0,
            };
            let s = script_of(v.config, k as int);
            match r {
                Ok(code) => if code == 0 {
                    script_step(
                        v,
                        (k + 1) as usize,
                        seq![
                            plain(
                                JobStatus::Completed,
                                LogSource::Stdout,
                                "Script "@ + s + " completed successfully"@,
                            ),
                        ],
                    )
                } else {
                    outputs_step(
                        RunView { scripts_ok: false, ..v },
                        seq![
                            plain(
                                JobStatus::Failed,
                                LogSource::Stderr,
                                "Script "@ + s + " failed with exit code "@ + signed_decimal(code as int),
                            ),
                        ],
                    )
                },
                Err(err) => outputs_step(
                    RunView { scripts_ok: false, ..v },
                    seq![plain(JobStatus::Failed, LogSource::Stderr, "Error: "@ + docker_error_message(err))],
                ),
            }
        },
        DockerEvent::Collected(Ok(n)) => finish_ok(
            v,
            seq![
                plain(
                    JobStatus::Completed,
                    LogSource::Stdout,
                    "Collected "@ + decimal(n as nat) + " output file(s) to outputs/ folder"@,
                ),
            ],
        ),
        DockerEvent::Collected(Err(err)) => finish_ok(
            v,
            seq![
                plain(
                    JobStatus::Running,
                    LogSource::Stderr,
                    "Warning: Failed to collect output files: "@ + docker_error_message(err),
                ),
            ],
        ),
    }
}

/// The shell lines that start the output collection.
pub open spec fn collection_head() -> Seq<char> {
    "mkdir -p outputs\nfile_count=0\necho 'Collecting output files...'\n"@
}

/// The shell lines that copy the files matching `pattern` into `outputs/`,
/// counting them.
pub open spec fn collection_block(pattern: Seq<char>) -> Seq<char> {
    "shopt -s nullglob\nmatched_files=("@ + pattern + ")\nshopt -u nullglob\nif [ ${#matched_files[@]} -eq 0 ]; then\n  echo 'Pattern \""@
        + pattern + "\" matched no files'\nelse\n  for file in \"${matched_files[@]}\"; do\n    if [ -f \"$file\" ]; then\n      if cp -v \"$file\" outputs/ 2>&1; then\n        file_count=$((file_count + 1))\n      else\n        echo \"Warning: Failed to copy file: $file\"\n      fi\n    elif [ -d \"$file\" ]; then\n      if cp -rv \"$file\" outputs/ 2>&1; then\n        file_count=$((file_count + 1))\n      else\n        echo \"Warning: Failed to copy directory: $file\"\n      fi\n    fi\n  done\nfi\n"@
}

/// The shell lines that end the output collection, reporting the count.
pub open spec fn collection_tail() -> Seq<char> {
    "echo \"Total files collected: $file_count\"\nexit 0\n"@
}

/// The blocks for the patterns, in order.
pub open spec fn collection_blocks(patterns: Seq<String>) -> Seq<char>
    decreases patterns.len(),
{
    if patterns.len() == 0 {
        Seq::empty()
    } else {
        collection_blocks(patterns.drop_last()) + collection_block(patterns.last()@)
    }
}

/// The shell script that collects the files matching `patterns` into the
/// job's `outputs/` folder and reports how many it copied.
pub open spec fn collection_script(patterns: Seq<String>) -> Seq<char> {
    collection_head() + collection_blocks(patterns) + collection_tail()
}


/// Whether a step's outcome is `s`: the state after it, its notes and its
/// call.
pub open spec fn matches_step(after: RunView, notes: Seq<Note>, action: DockerAction, s: Step) -> bool {
    &&& after == s.0
    &&& notes_view(notes) == s.1
    &&& action_view(action) == s.2
}

/// Adds a note.
fn push_note(notes: &mut Vec<Note>, status: JobStatus, source: LogSource, text: String)
    ensures
        notes_view(final(notes)@) == notes_view(old(notes)@).push((status_view(status), source, text@)),
{
    let ghost before = notes@;
    notes.push(Note { status, source, text });
    proof {
        assert(notes_view(notes@) =~= notes_view(before).push((status_view(status), source, text@)));
    }
}

/// The output collection script, as text.
fn collection_script_text(patterns: &Vec<String>) -> (r: String)
    ensures
        r@ == collection_script(patterns@),
{
    let mut out = String::from_str("mkdir -p outputs\nfile_count=0\necho 'Collecting output files...'\n");
    let mut i: usize = 0;
    while i < patterns.len()
        invariant
            i <= patterns@.len(),
            out@ == collection_head() + collection_blocks(patterns@.take(i as int)),
        decreases patterns@.len() - i,
    {
        let p = patterns[i].as_str();
        out.append("shopt -s nullglob\nmatched_files=(");
        out.append(p);
        out.append(")\nshopt -u nullglob\nif [ ${#matched_files[@]} -eq 0 ]; then\n  echo 'Pattern \"");
        out.append(p);
        out.append("\" matched no files'\nelse\n  for file in \"${matched_files[@]}\"; do\n    if [ -f \"$file\" ]; then\n      if cp -v \"$file\" outputs/ 2>&1; then\n        file_count=$((file_count + 1))\n      else\n        echo \"Warning: Failed to copy file: $file\"\n      fi\n    elif [ -d \"$file\" ]; then\n      if cp -rv \"$file\" outputs/ 2>&1; then\n        file_count=$((file_count + 1))\n      else\n        echo \"Warning: Failed to copy directory: $file\"\n      fi\n    fi\n  done\nfi\n");
        proof {
            assert(patterns@.take(i + 1).drop_last() =~= patterns@.take(i as int));
            assert(patterns@.take(i + 1).last() == patterns@[i as int]);
            assert(out@ =~= collection_head() + collection_blocks(patterns@.take(i + 1)));
        }
        i = i + 1;
    }
    proof {
        assert(patterns@.take(patterns@.len() as int) =~= patterns@);
    }
    out.append("echo \"Total files collected: $file_count\"\nexit 0\n");
    out
}

impl JobRun {
    /// The run as plain values.
    pub open spec fn run_view(&self) -> RunView {
        RunView {
            folder: self.workflow_folder@,
            job: self.job_name@,
            config: self.config,
            image_name: self.image_name@,
            image: self.image@,
            container: self.container_id@,
            scripts_ok: self.scripts_ok,
            phase: self.phase,
        }
    }

    /// The script at position `k` of the run order.
    fn script_at(&self, k: usize) -> (r: &String)
        ensures
            r@ == script_of(self.config, k as int),
    {
        if k == 0 {
            &self.config.scripts.pre
        } else if k == 1 {
            &self.config.scripts.run
        } else {
            &self.config.scripts.post
        }
    }

    fn finish_ok(&mut self, notes: Vec<Note>) -> (r: (Vec<Note>, DockerAction))
        ensures
            matches_step(final(self).run_view(), r.0@, r.1, finish_ok(old(self).run_view(), notes_view(notes@))),
    {
        let mut notes = notes;
        let mut text = String::from_str("Job completed, container ");
        text.append(self.container_id.as_str());
        text.append(" will be cleaned up after workflow finishes");
        push_note(&mut notes, JobStatus::Completed, LogSource::Stdout, text);
        self.phase = RunPhase::Done;
        let id = self.container_id.clone();
        (notes, DockerAction::Finish(Ok(id)))
    }

    fn outputs_step(&mut self, notes: Vec<Note>) -> (r: (Vec<Note>, DockerAction))
        ensures
            matches_step(final(self).run_view(), r.0@, r.1, outputs_step(old(self).run_view(), notes_view(notes@))),
    {
        if self.scripts_ok && self.config.outputs.len() > 0 {
            let mut notes = notes;
            push_note(
                &mut notes,
                JobStatus::Running,
                LogSource::Stdout,
                String::from_str("Collecting output files..."),
            );
            self.phase = RunPhase::Collecting;
            let script = collection_script_text(&self.config.outputs);
            let working_dir = path_join("/workspace", self.job_name.as_str());
            let container_id = self.container_id.clone();
            (notes, DockerAction::CollectOutputs { container_id, working_dir, script })
        } else {
            self.finish_ok(notes)
        }
    }

    fn exec_step(&mut self, k: usize, notes: Vec<Note>) -> (r: (Vec<Note>, DockerAction))
        ensures
            matches_step(final(self).run_view(), r.0@, r.1, exec_step(old(self).run_view(), k, notes_view(notes@))),
    {
        let mut notes = notes;
        let script = self.script_at(k).clone();
        let text = concat2("Executing script: ", script.as_str());
        push_note(&mut notes, JobStatus::Running, LogSource::Stdout, text);
        self.phase = RunPhase::Executing(k);
        let working_dir = path_join("/workspace", self.job_name.as_str());
        let container_id = self.container_id.clone();
        (notes, DockerAction::ExecScript { container_id, working_dir, script })
    }

    fn script_step(&mut self, k: usize, notes: Vec<Note>) -> (r: (Vec<Note>, DockerAction))
        ensures
            matches_step(final(self).run_view(), r.0@, r.1, script_step(old(self).run_view(), k, notes_view(notes@))),
    {
        if k >= 3 {
            self.outputs_step(notes)
        } else if k == 1 {
            self.exec_step(k, notes)
        } else {
            let dir = path_join(self.workflow_folder.as_str(), self.job_name.as_str());
            let path = path_join(dir.as_str(), self.script_at(k).as_str());
            self.phase = RunPhase::Checking(k);
            (notes, DockerAction::CheckScript { path })
        }
    }

    fn container_step(&mut self, registry: &Vec<(String, String)>, notes: Vec<Note>) -> (r: (
        Vec<Note>,
        DockerAction,
    ))
        ensures
            matches_step(
                final(self).run_view(),
                r.0@,
                r.1,
                container_step(old(self).run_view(), registry@, notes_view(notes@)),
            ),
    {
        let mut notes = notes;
        proof {
            lemma_first_key_index(registry@, self.image@);
        }
        match find_key(registry, self.image.as_str()) {
            Some(i) => {
                let id = registry[i].1.clone();
                let mut text = concat3("Reusing existing container ", id.as_str(), " for image ");
                text.append(self.image.as_str());
                push_note(&mut notes, JobStatus::Running, LogSource::Stdout, text);
                self.container_id = id;
                self.script_step(0, notes)
            },
            None => {
                let text = concat2("Creating container with image: ", self.image.as_str());
                push_note(&mut notes, JobStatus::CreatingContainer, LogSource::Stdout, text);
                let ghost before = notes_view(notes@);
                if self.config.use_gpu {
                    push_note(
                        &mut notes,
                        JobStatus::CreatingContainer,
                        LogSource::Stdout,
                        String::from_str("GPU support enabled for this container"),
                    );
                    proof {
                        assert(notes_view(notes@) =~= before + seq![
                            plain(
                                JobStatus::CreatingContainer,
                                LogSource::Stdout,
                                "GPU support enabled for this container"@,
                            ),
                        ]);
                    }
                } else {
                    proof {
                        assert(notes_view(notes@) =~= before + Seq::<NoteView>::empty());
                    }
                }
                self.phase = RunPhase::Creating;
                let bind = concat2(self.workflow_folder.as_str(), ":/workspace");
                let image = self.image.clone();
                (
                    notes,
                    DockerAction::CreateContainer {
                        image,
                        use_gpu: self.config.use_gpu,
                        bind,
                        working_dir: String::from_str("/workspace"),
                    },
                )
            },
        }
    }

    /// Starts running a job of the workflow `workflow_name`, whose jobs run
    /// in `workflow_folder`: the run, the notes to report and the first call
    /// to make.
    pub fn start(workflow_name: &str, workflow_folder: &str, job_name: &str, config: JobConfig) -> (r: (
        JobRun,
        Vec<Note>,
        DockerAction,
    ))
        ensures
            matches_step(
                r.0.run_view(),
                r.1@,
                r.2,
                start_step(workflow_name@, workflow_folder@, job_name@, config),
            ),
    {
        let mut notes: Vec<Note> = Vec::new();
        match &config.container {
            Container::DockerImage(url) => {
                let image_name = url.clone();
                let text = concat2("Pulling image: ", url.as_str());
                push_note(&mut notes, JobStatus::PullingImage, LogSource::Stdout, text);
                let image = url.clone();
                let run = JobRun {
                    workflow_folder: String::from_str(workflow_folder),
                    job_name: String::from_str(job_name),
                    config,
                    image_name,
                    image: String::new(),
                    container_id: String::new(),
                    scripts_ok: true,
                    phase: RunPhase::Pulling,
                };
                proof {
                    assert(notes_view(notes@) =~= seq![
                        plain(JobStatus::PullingImage, LogSource::Stdout, "Pulling image: "@ + image@),
                    ]);
                }
                (run, notes, DockerAction::PullImage { image })
            },
            Container::DockerFile(_) => {
                let image_name = concat3(workflow_name, "_", job_name);
                let tag = concat2(image_name.as_str(), ":latest");
                let run = JobRun {
                    workflow_folder: String::from_str(workflow_folder),
                    job_name: String::from_str(job_name),
                    config,
                    image_name,
                    image: String::new(),
                    container_id: String::new(),
                    scripts_ok: true,
                    phase: RunPhase::Inspecting,
                };
                proof {
                    assert(notes_view(notes@) =~= Seq::<NoteView>::empty());
                }
                (run, notes, DockerAction::InspectImage { tag })
            },
        }
    }

    /// Whether the run takes `event`: whether it answers the call the run
    /// waits on.
    pub fn accepts(&self, event: &DockerEvent) -> (r: bool)
        ensures
            r == spec_accepts(self.run_view(), *event),
    {
        match self.phase {
            RunPhase::Pulling => matches!(event, DockerEvent::Pulled(_)),
            RunPhase::Inspecting => matches!(event, DockerEvent::Inspected(_)),
            RunPhase::Building => matches!(event, DockerEvent::Built(_)),
            RunPhase::Creating => matches!(event, DockerEvent::Created(_)),
            RunPhase::Starting => matches!(event, DockerEvent::Started(_)),
            RunPhase::Waiting => matches!(event, DockerEvent::Ready(_)),
            RunPhase::Checking(k) => matches!(event, DockerEvent::ScriptFound(_)) && (k == 0 || k == 2),
            RunPhase::Executing(k) => matches!(event, DockerEvent::ScriptExited(_)) && k < 3,
            RunPhase::Collecting => matches!(event, DockerEvent::Collected(_)),
            RunPhase::Done => false,
        }
    }

    /// Whether the run is over.
    pub fn is_done(&self) -> (r: bool)
        ensures
            r == (self.phase == RunPhase::Done),
    {
        matches!(self.phase, RunPhase::Done)
    }

    /// Takes what came of the last call: the notes to report and the next
    /// call. `registry` holds the containers made so far, by image; a
    /// container made in this step is added to it.
    pub fn advance(&mut self, event: DockerEvent, registry: &mut Vec<(String, String)>) -> (r: (
        Vec<Note>,
        DockerAction,
    ))
        requires
            spec_accepts(old(self).run_view(), event),
        ensures
            matches_step(
                final(self).run_view(),
                r.0@,
                r.1,
                spec_advance(old(self).run_view(), old(registry)@, event),
            ),
            event matches DockerEvent::Ready(Ok(_)) ==> {
                &&& registered(final(registry)@, old(self).image@) == Some(old(self).container_id@)
                &&& forall|k: Seq<char>|
                    k != old(self).image@ ==> lookup(final(registry)@, k) == lookup(old(registry)@, k)
            },
            !(event matches DockerEvent::Ready(Ok(_))) ==> final(registry)@ == old(registry)@,
    {
        let notes: Vec<Note> = Vec::new();
        proof {
            assert(notes_view(notes@) =~= Seq::<NoteView>::empty());
        }
        match event {
            DockerEvent::Pulled(Ok(_)) => {
                self.image = self.image_name.clone();
                self.container_step(registry, notes)
            },
            DockerEvent::Inspected(ImageCheck::Exists) => {
                let mut notes = notes;
                let mut text = concat2("docker image ", self.image_name.as_str());
                text.append(" exists, skip building, remove the image to rebuild ...");
                push_note(&mut notes, JobStatus::BuildingImage, LogSource::Stdout, text);
                self.image = concat2(self.image_name.as_str(), ":latest");
                self.container_step(registry, notes)
            },
            DockerEvent::Inspected(ImageCheck::Missing) => {
                let mut notes = notes;
                let dockerfile = match &self.config.container {
                    Container::DockerFile(p) => {
                        let dir = path_join(self.workflow_folder.as_str(), self.job_name.as_str());
                        path_join(dir.as_str(), p.as_str())
                    },
                    Container::DockerImage(u) => u.clone(),
                };
                let shown = path_debug(dockerfile.as_str());
                let text = concat2("Building image from: ", shown.as_str());
                push_note(&mut notes, JobStatus::BuildingImage, LogSource::Stdout, text);
                self.phase = RunPhase::Building;
                let image_name = self.image_name.clone();
                (notes, DockerAction::BuildImage { image_name, dockerfile })
            },
            DockerEvent::Inspected(ImageCheck::Failed(m)) => {
                let mut text = concat3("inspect image ", self.image_name.as_str(), " error: ");
                text.append(m.as_str());
                self.phase = RunPhase::Done;
                (notes, DockerAction::Finish(Err(DockerError::ImageBuildFailed(text))))
            },
            DockerEvent::Built(Ok(id)) => {
                let mut notes = notes;
                let text = concat2("Building image complete with image id: ", id.as_str());
                push_note(&mut notes, JobStatus::BuildingImage, LogSource::Stdout, text);
                self.image = concat2(self.image_name.as_str(), ":latest");
                self.container_step(registry, notes)
            },
            DockerEvent::Created(Ok(id)) => {
                let mut notes = notes;
                let mut text = concat3("Container created: ", id.as_str(), ", binding ");
                text.append(self.workflow_folder.as_str());
                text.append(" to /workspace");
                push_note(&mut notes, JobStatus::CreatingContainer, LogSource::Stdout, text);
                self.phase = RunPhase::Starting;
                self.container_id = id.clone();
                (notes, DockerAction::StartContainer { container_id: id })
            },
            DockerEvent::Created(Err(m)) => {
                self.phase = RunPhase::Done;
                (notes, DockerAction::Finish(Err(DockerError::ContainerCreateFailed(m))))
            },
            DockerEvent::Started(Ok(_)) => {
                let mut notes = notes;
                let text = concat3("Waiting for Container ", self.container_id.as_str(), " running ... ");
                push_note(&mut notes, JobStatus::CreatingContainer, LogSource::Stdout, text);
                self.phase = RunPhase::Waiting;
                let container_id = self.container_id.clone();
                (notes, DockerAction::WaitUntilRunning { container_id, timeout_secs: 30 })
            },
            DockerEvent::Started(Err(m)) => {
                self.phase = RunPhase::Done;
                (notes, DockerAction::Finish(Err(DockerError::ContainerStartFailed(m))))
            },
            DockerEvent::Ready(Ok(_)) => {
                let mut notes = notes;
                let text = concat3("Now container ", self.container_id.as_str(), " is running ... ");
                push_note(
                    &mut notes,
                    JobStatus::ContainerRunning(self.container_id.clone()),
                    LogSource::Stdout,
                    text,
                );
                push_note(
                    &mut notes,
                    JobStatus::Running,
                    LogSource::Stdout,
                    String::from_str("Container started and ready"),
                );
                proof {
                    assert(notes_view(notes@) =~= seq![
                        (
                            StatusView::Container(self.container_id@),
                            LogSource::Stdout,
                            "Now container "@ + self.container_id@ + " is running ... "@,
                        ),
                        plain(JobStatus::Running, LogSource::Stdout, "Container started and ready"@),
                    ]);
                }
                insert_entry(registry, self.image.clone(), self.container_id.clone());
                self.script_step(0, notes)
            },
            DockerEvent::ScriptFound(found) => {
                let k = match self.phase {
                    RunPhase::Checking(k) => k,
                    _ => 0,
                };
                if found {
                    self.exec_step(k, notes)
                } else {
                    let mut notes = notes;
                    let text = concat3("Script ", self.script_at(k).as_str(), " not found ... skip");
                    push_note(&mut notes, JobStatus::Running, LogSource::Stdout, text);
                    self.script_step(k + 1, notes)
                }
            },
            DockerEvent::ScriptExited(result) => {
                let k = match self.phase {
                    RunPhase::Executing(k) => k,
                    _ => 0,
                };
                let mut notes = notes;
                match result {
                    Ok(code) => {
                        if code == 0 {
                            let text = concat3(
                                "Script ",
                                self.script_at(k).as_str(),
                                " completed successfully",
                            );
                            push_note(&mut notes, JobStatus::Completed, LogSource::Stdout, text);
                            self.script_step(k + 1, notes)
                        } else {
                            let mut text = concat3(
                                "Script ",
                                self.script_at(k).as_str(),
                                " failed with exit code ",
                            );
                            push_signed(&mut text, code);
                            push_note(&mut notes, JobStatus::Failed, LogSource::Stderr, text);
                            self.scripts_ok = false;
                            self.outputs_step(notes)
                        }
                    },
                    Err(e) => {
                        let m = e.message();
                        let text = concat2("Error: ", m.as_str());
                        push_note(&mut notes, JobStatus::Failed, LogSource::Stderr, text);
                        self.scripts_ok = false;
                        self.outputs_step(notes)
                    },
                }
            },
            DockerEvent::Collected(Ok(n)) => {
                let mut notes = notes;
                let mut text = String::from_str("Collected ");
                push_decimal(&mut text, n as u128);
                text.append(" output file(s) to outputs/ folder");
                push_note(&mut notes, JobStatus::Completed, LogSource::Stdout, text);
                self.finish_ok(notes)
            },
            DockerEvent::Collected(Err(e)) => {
                let mut notes = notes;
                let m = e.message();
                let text = concat2("Warning: Failed to collect output files: ", m.as_str());
                push_note(&mut notes, JobStatus::Running, LogSource::Stderr, text);
                self.finish_ok(notes)
            },
            DockerEvent::Pulled(Err(e)) => {
                self.phase = RunPhase::Done;
                (notes, DockerAction::Finish(Err(e)))
            },
            DockerEvent::Built(Err(e)) => {
                self.phase = RunPhase::Done;
                (notes, DockerAction::Finish(Err(e)))
            },
            DockerEvent::Ready(Err(e)) => {
                self.phase = RunPhase::Done;
                (notes, DockerAction::Finish(Err(e)))
            },
        }
    }
}


/// The text after the last `:` of `s`, as `str::rsplit_once(':')` gives its
/// second part; `None` when `s` has no `:`.
pub open spec fn after_last_colon(s: Seq<char>) -> Option<Seq<char>>
    decreases s.len(),
{
    if s.len() == 0 {
        None
    } else if s.last() == ':' {
        Some(Seq::empty())
    } else {
        match after_last_colon(s.drop_last()) {
            Some(t) => Some(t.push(s.last())),
            None => None,
        }
    }
}

/// The file count the collection script reports on its last line, after the
/// last `:`, or `None` when that line holds none.
pub open spec fn collected_count(last_line: Seq<char>) -> Option<nat> {
    match after_last_colon(last_line) {
        Some(t) => parsed_unsigned(trim(t), usize::MAX as nat),
        None => None,
    }
}

/// With no `:` from position `i` on, what follows the last `:` of `s` is what
/// follows it in `s[..i]`, and then the rest of `s`.
proof fn lemma_after_last_colon(s: Seq<char>, i: int)
    requires
        0 <= i <= s.len(),
        forall|j: int| i <= j < s.len() ==> s[j] != ':',
    ensures
        after_last_colon(s) == match after_last_colon(s.take(i)) {
            Some(t) => Some(t + s.subrange(i, s.len() as int)),
            None => None::<Seq<char>>,
        },
    decreases s.len(),
{
    if i == s.len() {
        assert(s.take(i) =~= s);
        match after_last_colon(s) {
            Some(t) => {
                assert(t + s.subrange(i, s.len() as int) =~= t);
            },
            None => {},
        }
    } else {
        let p = s.drop_last();
        lemma_after_last_colon(p, i);
        assert(p.take(i) =~= s.take(i));
        match after_last_colon(s.take(i)) {
            Some(t) => {
                assert((t + p.subrange(i, p.len() as int)).push(s.last()) =~= t + s.subrange(
                    i,
                    s.len() as int,
                ));
            },
            None => {},
        }
    }
}

/// The position right after the last `:` of `cs`, or `None` when it has none.
fn after_last_colon_at(cs: &Vec<char>) -> (r: Option<usize>)
    ensures
        r matches Some(i) ==> i <= cs@.len() && after_last_colon(cs@) == Some(
            cs@.subrange(i as int, cs@.len() as int),
        ),
        r is None ==> after_last_colon(cs@) is None,
{
    let n = cs.len();
    let mut i = n;
    while i > 0
        invariant
            i <= n == cs@.len(),
            forall|j: int| i <= j < n ==> cs@[j] != ':',
        decreases i,
    {
        if cs[i - 1] == ':' {
            proof {
                lemma_after_last_colon(cs@, i as int);
                assert(cs@.take(i as int).last() == ':');
                assert(Seq::<char>::empty() + cs@.subrange(i as int, n as int) =~= cs@.subrange(
                    i as int,
                    n as int,
                ));
            }
            return Some(i);
        }
        i = i - 1;
    }
    proof {
        lemma_after_last_colon(cs@, 0);
        assert(cs@.take(0).len() == 0);
    }
    None
}

/// Reads the file count from the last line the collection script printed.
pub fn parse_collected_count(last_line: &str) -> (r: Option<usize>)
    ensures
        r matches Some(n) ==> collected_count(last_line@) == Some(n as nat),
        r is None ==> collected_count(last_line@) is None,
{
    let cs = to_chars(last_line);
    match after_last_colon_at(&cs) {
        Some(i) => {
            let (a, b) = trim_range(&cs, i, cs.len());
            parse_usize_range(&cs, a, b)
        },
        None => None,
    }
}

/// `s` without the newlines at its end, as `str::trim_end_matches("\n")`
/// leaves it.
pub open spec fn strip_newlines(s: Seq<char>) -> Seq<char>
    decreases s.len(),
{
    if s.len() > 0 && s.last() == '\n' {
        strip_newlines(s.drop_last())
    } else {
        s
    }
}

/// `text` without the newlines at its end.
fn without_trailing_newlines(text: &str) -> (r: String)
    ensures
        r@ == strip_newlines(text@),
{
    let cs = to_chars(text);
    let mut end = cs.len();
    proof {
        assert(cs@.take(end as int) =~= cs@);
    }
    while end > 0 && cs[end - 1] == '\n'
        invariant
            end <= cs@.len(),
            strip_newlines(cs@) == strip_newlines(cs@.take(end as int)),
        decreases end,
    {
        proof {
            assert(cs@.take(end as int).drop_last() =~= cs@.take(end - 1));
        }
        end = end - 1;
    }
    proof {
        if end > 0 {
            assert(cs@.take(end as int).last() == cs@[end - 1]);
        }
        assert(strip_newlines(cs@.take(end as int)) == cs@.take(end as int));
    }
    let mut out = String::new();
    let mut i: usize = 0;
    while i < end
        invariant
            i <= end <= cs@.len(),
            out@ == cs@.take(i as int),
        decreases end - i,
    {
        push_char(&mut out, cs[i]);
        proof {
            assert(cs@.take(i + 1) =~= cs@.take(i as int).push(cs@[i as int]));
        }
        i = i + 1;
    }
    proof {
        assert(cs@ =~= text@);
    }
    out
}

/// The text of bytes read as UTF-8, with each invalid sequence replaced by
/// `U+FFFD`, as `String::from_utf8_lossy` gives it.
pub uninterp spec fn utf8_lossy(bytes: Seq<u8>) -> Seq<char>;

/// Decodes bytes as UTF-8, replacing invalid sequences, with
/// `String::from_utf8_lossy`.
#[verifier::external_body]
fn lossy_text(bytes: &[u8]) -> (r: String)
    ensures
        r@ == utf8_lossy(bytes@),
{
    String::from_utf8_lossy(bytes).into_owned()
}

/// The note for a chunk of a script's output: its text, without the
/// newlines at its end, on the stream it came from.
pub fn script_output_note(source: LogSource, bytes: &[u8]) -> (r: Note)
    ensures
        r.status == JobStatus::Running,
        r.source == source,
        r.text@ == strip_newlines(utf8_lossy(bytes@)),
{
    let text = lossy_text(bytes);
    Note { status: JobStatus::Running, source, text: without_trailing_newlines(text.as_str()) }
}

/// The exit code of a finished script: the one the engine reports, or 1 when
/// it reports none.
pub fn exit_code_or_failure(code: Option<i64>) -> (r: i64)
    ensures
        r == match code {
            Some(c) => c,
            None => 1,
        },
{
    match code {
        Some(c) => c,
        None => 1,
    }
}

/// What the output collection printed so far: the last non-empty line of
/// its standard output.
#[derive(Debug)]
pub struct CollectionLog {
    pub last_line: String,
}

impl CollectionLog {
    /// Nothing printed yet.
    pub fn new() -> (r: Self)
        ensures
            r.last_line@ == Seq::<char>::empty(),
    {
        CollectionLog { last_line: String::new() }
    }

    /// Takes a chunk of the collection's output. A chunk with text, once the
    /// newlines at its end are dropped, is reported on its stream, and on
    /// the standard output it becomes the last line; an empty one is
    /// dropped.
    pub fn absorb(&mut self, source: LogSource, bytes: &[u8]) -> (r: Option<Note>)
        ensures
            strip_newlines(utf8_lossy(bytes@)).len() == 0 ==> (r is None && final(self).last_line@
                == old(self).last_line@),
            strip_newlines(utf8_lossy(bytes@)).len() > 0 ==> {
                &&& r matches Some(n) && n.status == JobStatus::Running && n.source == source
                    && n.text@ == strip_newlines(utf8_lossy(bytes@))
                &&& final(self).last_line@ == if source == LogSource::Stdout {
                    strip_newlines(utf8_lossy(bytes@))
                } else {
                    old(self).last_line@
                }
            },
    {
        let note = script_output_note(source, bytes);
        if note.text.unicode_len() == 0 {
            return None;
        }
        if source == LogSource::Stdout {
            self.last_line = note.text.clone();
        }
        Some(note)
    }

    /// The outcome of the collection once it has ended with `exit_code`:
    /// the count read from the last line (zero, with an error note, when it
    /// holds none), or the failure of the collection script when it did not
    /// exit with 0 (1 when the engine reports no code).
    pub fn finish(&self, exit_code: Option<i64>) -> (r: (Option<Note>, Result<usize, DockerError>))
        ensures
            collected_count(self.last_line@) is Some ==> r.0 is None,
            collected_count(self.last_line@) is None ==> (r.0 matches Some(n) && n.status
                == JobStatus::Running && n.source == LogSource::Stderr && n.text@
                == "parse file count from -"@ + self.last_line@ + "- error"@),
            ({
                let code = match exit_code {
                    Some(c) => c,
                    None => 1,
                };
                if code != 0 {
                    r.1 matches Err(DockerError::ScriptExecutionFailed { script, exit_code: c })
                        && script@ == "output_collection"@ && c == code
                } else {
                    r.1 matches Ok(n) && n == match collected_count(self.last_line@) {
                        Some(k) => k,
                        None => 0,
                    }
                }
            }),
    {
        let parsed = parse_collected_count(self.last_line.as_str());
        let note = match parsed {
            Some(_) => None,
            None => {
                let text = concat3("parse file count from -", self.last_line.as_str(), "- error");
                Some(err_note(JobStatus::Running, text))
            },
        };
        let code = exit_code_or_failure(exit_code);
        if code != 0 {
            return (
                note,
                Err(
                    DockerError::ScriptExecutionFailed {
                        script: String::from_str("output_collection"),
                        exit_code: code,
                    },
                ),
            );
        }
        let count = match parsed {
            Some(n) => n,
            None => 0,
        };
        (note, Ok(count))
    }
}

/// What waiting for a container to run decides on one look at it.
pub open spec fn startup_decision(
    running: Option<bool>,
    dead: Option<bool>,
    oom_killed: Option<bool>,
    elapsed_nanos: u128,
    timeout_secs: u64,
) -> Option<Result<(), ErrorView>> {
    if running == Some(true) {
        Some(Ok(()))
    } else if dead == Some(true) || oom_killed == Some(true) {
        Some(Err(ErrorView::Start("Container died during startup"@)))
    } else if elapsed_nanos > timeout_secs * 1_000_000_000 {
        Some(
            Err(
                ErrorView::Start(
                    "Container did not start within "@ + decimal(timeout_secs as nat) + " seconds"@,
                ),
            ),
        )
    } else {
        None
    }
}

/// Decides, from one look at a container's state, whether it runs, failed
/// to start, or is to be looked at again: a running container is ready, a
/// dead or killed one failed, and one still starting after the time allowed
/// failed too. `None`: look again.
pub fn startup_check(
    running: Option<bool>,
    dead: Option<bool>,
    oom_killed: Option<bool>,
    elapsed_nanos: u128,
    timeout_secs: u64,
) -> (r: Option<Result<(), DockerError>>)
    ensures
        match r {
            Some(Ok(_)) => startup_decision(running, dead, oom_killed, elapsed_nanos, timeout_secs)
                == Some(Ok::<(), ErrorView>(())),
            Some(Err(e)) => startup_decision(running, dead, oom_killed, elapsed_nanos, timeout_secs)
                == Some(Err::<(), ErrorView>(error_view(e))),
            None => startup_decision(running, dead, oom_killed, elapsed_nanos, timeout_secs) is None,
        },
{
    if running == Some(true) {
        Some(Ok(()))
    } else if dead == Some(true) || oom_killed == Some(true) {
        Some(Err(DockerError::ContainerStartFailed(String::from_str("Container died during startup"))))
    } else if elapsed_nanos > (timeout_secs as u128) * 1_000_000_000 {
        let mut text = String::from_str("Container did not start within ");
        push_decimal(&mut text, timeout_secs as u128);
        text.append(" seconds");
        Some(Err(DockerError::ContainerStartFailed(text)))
    } else {
        None
    }
}

/// The notes of cleaning up the containers `ids` after a workflow, given
/// what stopping and removing each one gave (`None` for success, or the
/// engine's message).
pub open spec fn cleanup_view(
    ids: Seq<String>,
    stops: Seq<Option<String>>,
    removes: Seq<Option<String>>,
) -> Seq<NoteView> {
    if ids.len() == 0 {
        Seq::empty()
    } else {
        seq![
            plain(
                JobStatus::Completed,
                LogSource::Stdout,
                "Cleaning up "@ + decimal(ids.len()) + " container(s)..."@,
            ),
        ] + cleanup_steps(ids, stops, removes) + seq![
            plain(JobStatus::Completed, LogSource::Stdout, "All containers cleaned up"@),
        ]
    }
}

/// The notes of stopping and removing each container, in order.
pub open spec fn cleanup_steps(
    ids: Seq<String>,
    stops: Seq<Option<String>>,
    removes: Seq<Option<String>>,
) -> Seq<NoteView>
    decreases ids.len(),
{
    if ids.len() == 0 {
        Seq::empty()
    } else {
        let k = ids.len() - 1;
        cleanup_steps(ids.drop_last(), stops.take(k), removes.take(k)) + seq![
            container_note(ids[k]@, stops[k], "Stopped container "@, "Failed to stop container "@),
            container_note(ids[k]@, removes[k], "Removed container "@, "Failed to remove container "@),
        ]
    }
}

/// The note of one stop or removal: success on the standard output, failure
/// with the engine's message on the standard error.
pub open spec fn container_note(
    id: Seq<char>,
    outcome: Option<String>,
    done: Seq<char>,
    failed: Seq<char>,
) -> NoteView {
    match outcome {
        None => plain(JobStatus::Completed, LogSource::Stdout, done + id),
        Some(e) => plain(JobStatus::Completed, LogSource::Stderr, failed + id + ": "@ + e@),
    }
}

/// The note of one stop or removal.
fn container_outcome_note(id: &str, outcome: &Option<String>, done: &str, failed: &str) -> (r: Note)
    ensures
        (status_view(r.status), r.source, r.text@) == container_note(id@, *outcome, done@, failed@),
{
    match outcome {
        None => out_note(JobStatus::Completed, concat2(done, id)),
        Some(e) => {
            let mut text = concat3(failed, id, ": ");
            text.append(e.as_str());
            err_note(JobStatus::Completed, text)
        },
    }
}

/// The notes of cleaning up the containers `ids`, given what stopping and
/// removing each one gave.
pub fn cleanup_notes(ids: &Vec<String>, stops: &Vec<Option<String>>, removes: &Vec<Option<String>>) -> (r:
    Vec<Note>)
    requires
        stops.len() == ids.len(),
        removes.len() == ids.len(),
    ensures
        notes_view(r@) == cleanup_view(ids@, stops@, removes@),
{
    let mut notes: Vec<Note> = Vec::new();
    if ids.len() == 0 {
        proof {
            assert(notes_view(notes@) =~= Seq::<NoteView>::empty());
        }
        return notes;
    }
    let mut text = String::from_str("Cleaning up ");
    push_decimal(&mut text, ids.len() as u128);
    text.append(" container(s)...");
    push_note(&mut notes, JobStatus::Completed, LogSource::Stdout, text);
    let ghost head = notes_view(notes@);
    let mut i: usize = 0;
    while i < ids.len()
        invariant
            i <= ids@.len(),
            stops@.len() == ids@.len(),
            removes@.len() == ids@.len(),
            notes_view(notes@) == head + cleanup_steps(
                ids@.take(i as int),
                stops@.take(i as int),
                removes@.take(i as int),
            ),
        decreases ids@.len() - i,
    {
        let ghost before = notes_view(notes@);
        let a = container_outcome_note(ids[i].as_str(), &stops[i], "Stopped container ", "Failed to stop container ");
        let b = container_outcome_note(ids[i].as_str(), &removes[i], "Removed container ", "Failed to remove container ");
        notes.push(a);
        notes.push(b);
        proof {
            let ii = i as int;
            assert(ids@.take(ii + 1).drop_last() =~= ids@.take(ii));
            assert(stops@.take(ii + 1).take(ii) =~= stops@.take(ii));
            assert(removes@.take(ii + 1).take(ii) =~= removes@.take(ii));
            assert(notes_view(notes@) =~= before + seq![
                container_note(ids@[ii]@, stops@[ii], "Stopped container "@, "Failed to stop container "@),
                container_note(ids@[ii]@, removes@[ii], "Removed container "@, "Failed to remove container "@),
            ]);
        }
        i = i + 1;
    }
    proof {
        assert(ids@.take(ids@.len() as int) =~= ids@);
        assert(stops@.take(ids@.len() as int) =~= stops@);
        assert(removes@.take(ids@.len() as int) =~= removes@);
    }
    push_note(
        &mut notes,
        JobStatus::Completed,
        LogSource::Stdout,
        String::from_str("All containers cleaned up"),
    );
    proof {
        assert(notes_view(notes@) =~= cleanup_view(ids@, stops@, removes@));
    }
    notes
}


/// The image id a line of build output announces: when the line says
/// `Successfully built`, its last word (empty when it has none).
pub open spec fn build_line_image_id(line: Seq<char>) -> Option<Seq<char>> {
    if has_substring(line, "Successfully built"@) {
        let words = tokens(line);
        Some(
            if words.len() == 0 {
                Seq::empty()
            } else {
                trim(words.last())
            },
        )
    } else {
        None
    }
}

/// The image id a line of build output announces, if it announces one.
pub fn image_id_from_build_line(line: &str) -> (r: Option<String>)
    ensures
        match r {
            Some(id) => build_line_image_id(line@) == Some(id@),
            None => build_line_image_id(line@) is None,
        },
{
    if !contains_text(line, "Successfully built") {
        return None;
    }
    let cs = to_chars(line);
    let ranges = token_ranges(&cs, 0, cs.len());
    proof {
        assert(cs@.subrange(0, cs@.len() as int) =~= line@);
    }
    if ranges.len() == 0 {
        return Some(String::new());
    }
    let (lo, hi) = ranges[ranges.len() - 1];
    proof {
        assert(range_texts(cs@, ranges@).last() == cs@.subrange(lo as int, hi as int));
    }
    let (a, b) = trim_range(&cs, lo, hi);
    let mut out = String::new();
    let mut i = a;
    while i < b
        invariant
            a <= i <= b <= cs@.len(),
            out@ == cs@.subrange(a as int, i as int),
        decreases b - i,
    {
        push_char(&mut out, cs[i]);
        proof {
            assert(cs@.subrange(a as int, i + 1) =~= cs@.subrange(a as int, i as int).push(cs@[i as int]));
        }
        i = i + 1;
    }
    Some(out)
}

/// Takes one item of an image build's output: a line that announces the
/// image id replaces `image_id`, and an error the build reports ends it.
pub fn build_progress(image_id: &mut String, stream: Option<String>, error: Option<String>) -> (r: Result<
    (),
    DockerError,
>)
    ensures
        final(image_id)@ == match stream {
            Some(line) => match build_line_image_id(line@) {
                Some(id) => id,
                None => old(image_id)@,
            },
            None => old(image_id)@,
        },
        match error {
            Some(e) => r matches Err(DockerError::ImageBuildFailed(m)) && m@ == e@,
            None => r is Ok,
        },
{
    if let Some(line) = stream {
        if let Some(id) = image_id_from_build_line(line.as_str()) {
            *image_id = id;
        }
    }
    match error {
        Some(e) => Err(DockerError::ImageBuildFailed(e)),
        None => Ok(()),
    }
}

/// The folder that holds the last component of a path, as `Path::parent`
/// gives it.
pub uninterp spec fn path_parent_text(path: Seq<char>) -> Option<Seq<char>>;

/// The last component of a path, as `Path::file_name` gives it.
pub uninterp spec fn path_file_name_text(path: Seq<char>) -> Option<Seq<char>>;

/// The folder that holds the last component of `path`, with `Path::parent`.
#[verifier::external_body]
fn path_parent(path: &str) -> (r: Option<String>)
    ensures
        match r {
            Some(p) => path_parent_text(path@) == Some(p@),
            None => path_parent_text(path@) is None,
        },
{
    std::path::Path::new(path).parent().map(|p| p.to_string_lossy().into_owned())
}

/// The last component of `path`, with `Path::file_name`.
#[verifier::external_body]
pub(crate) fn path_file_name(path: &str) -> (r: Option<String>)
    ensures
        match r {
            Some(n) => path_file_name_text(path@) == Some(n@),
            None => path_file_name_text(path@) is None,
        },
{
    std::path::Path::new(path).file_name().map(|n| n.to_string_lossy().into_owned())
}

/// The build context of a Dockerfile, the folder that holds it, and the
/// Dockerfile's name within it (`Dockerfile` when the path names none). A
/// path with no parent folder cannot be built from.
pub fn build_context(dockerfile: &str) -> (r: Result<(String, String), DockerError>)
    ensures
        match path_parent_text(dockerfile@) {
            None => r matches Err(DockerError::ImageBuildFailed(m)) && m@ == "Invalid Dockerfile path"@,
            Some(dir) => r matches Ok((context, name)) && context@ == dir && name@ == match path_file_name_text(
                dockerfile@,
            ) {
                Some(n) => n,
                None => "Dockerfile"@,
            },
        },
{
    match path_parent(dockerfile) {
        None => Err(DockerError::ImageBuildFailed(String::from_str("Invalid Dockerfile path"))),
        Some(context) => {
            let name = match path_file_name(dockerfile) {
                Some(n) => n,
                None => String::from_str("Dockerfile"),
            };
            Ok((context, name))
        },
    }
}


/// How far a run has come: every step of a run takes it further, and a
/// finished run is furthest.
pub open spec fn phase_rank(p: RunPhase) -> int {
    match p {
        RunPhase::Pulling => 0,
        RunPhase::Inspecting => 0,
        RunPhase::Building => 1,
        RunPhase::Creating => 2,
        RunPhase::Starting => 3,
        RunPhase::Waiting => 4,
        RunPhase::Checking(k) => 5 + 2 * k,
        RunPhase::Executing(k) => 6 + 2 * k,
        RunPhase::Collecting => 11,
        RunPhase::Done => 12,
    }
}

/// The steps after the scripts lead to collecting outputs or to the end.
proof fn lemma_outputs_rank(v: RunView, ns: Seq<NoteView>)
    ensures
        phase_rank(outputs_step(v, ns).0.phase) >= 11,
        outputs_step(v, ns).0.phase is Collecting || outputs_step(v, ns).0.phase is Done,
{
}

/// The step for script `k` leads at least as far as that script.
proof fn lemma_script_rank(v: RunView, k: usize, ns: Seq<NoteView>)
    requires
        k <= 3,
    ensures
        phase_rank(script_step(v, k, ns).0.phase) >= 5 + 2 * k,
        script_step(v, k, ns).0.phase matches RunPhase::Checking(j) ==> j == k && (j == 0 || j == 2),
        script_step(v, k, ns).0.phase matches RunPhase::Executing(j) ==> j == k && j == 1,
{
    if k >= 3 {
        lemma_outputs_rank(v, ns);
    }
}

/// Every event a job run takes moves it strictly forward, through a bounded
/// number of phases, so a run always ends: the image, the container, the
/// pre-run, main and post-run scripts in this order, the outputs, the end.
pub proof fn law_run_moves_forward(v: RunView, reg: Seq<(String, String)>, e: DockerEvent)
    requires
        spec_accepts(v, e),
    ensures
        phase_rank(spec_advance(v, reg, e).0.phase) > phase_rank(v.phase),
        phase_rank(spec_advance(v, reg, e).0.phase) <= 12,
{
    match v.phase {
        RunPhase::Checking(k) => {
            lemma_script_rank(v, (k + 1) as usize, seq![]);
            lemma_script_rank(v, (k + 1) as usize, seq![
                plain(
                    JobStatus::Running,
                    LogSource::Stdout,
                    "Script "@ + script_of(v.config, k as int) + " not found ... skip"@,
                ),
            ]);
        },
        RunPhase::Executing(k) => {
            let s = script_of(v.config, k as int);
            lemma_script_rank(v, (k + 1) as usize, seq![
                plain(JobStatus::Completed, LogSource::Stdout, "Script "@ + s + " completed successfully"@),
            ]);
        },
        _ => {},
    }
    match e {
        DockerEvent::Pulled(Ok(_)) => {
            lemma_container_rank(RunView { image: v.image_name, ..v }, reg, Seq::empty());
        },
        DockerEvent::Inspected(ImageCheck::Exists) => {
            lemma_container_rank(
                RunView { image: v.image_name + ":latest"@, ..v },
                reg,
                seq![
                    plain(
                        JobStatus::BuildingImage,
                        LogSource::Stdout,
                        "docker image "@ + v.image_name
                            + " exists, skip building, remove the image to rebuild ..."@,
                    ),
                ],
            );
        },
        DockerEvent::Built(Ok(id)) => {
            lemma_container_rank(
                RunView { image: v.image_name + ":latest"@, ..v },
                reg,
                seq![
                    plain(
                        JobStatus::BuildingImage,
                        LogSource::Stdout,
                        "Building image complete with image id: "@ + id@,
                    ),
                ],
            );
        },
        DockerEvent::Ready(Ok(_)) => {
            lemma_script_rank(
                v,
                0,
                seq![
                    (
                        StatusView::Container(v.container),
                        LogSource::Stdout,
                        "Now container "@ + v.container + " is running ... "@,
                    ),
                    plain(JobStatus::Running, LogSource::Stdout, "Container started and ready"@),
                ],
            );
        },
        _ => {},
    }
}

/// Once the image is known, the run creates a container or moves on to the
/// scripts.
proof fn lemma_container_rank(v: RunView, reg: Seq<(String, String)>, ns: Seq<NoteView>)
    ensures
        phase_rank(container_step(v, reg, ns).0.phase) >= 2,
{
    match registered(reg, v.image) {
        Some(id) => {
            lemma_script_rank(
                RunView { container: id, ..v },
                0,
                ns.push(
                    plain(
                        JobStatus::Running,
                        LogSource::Stdout,
                        "Reusing existing container "@ + id + " for image "@ + v.image,
                    ),
                ),
            );
        },
        None => {},
    }
}

/// A script that fails, by its exit code or by an error, ends the run: no
/// later script runs and no outputs are collected, and the job still hands
/// back its container.
pub proof fn law_failed_script_ends_run(v: RunView, reg: Seq<(String, String)>, outcome: Result<i64, DockerError>)
    requires
        v.phase matches RunPhase::Executing(k) && k < 3,
        !(outcome matches Ok(c) && c == 0),
    ensures
        spec_advance(v, reg, DockerEvent::ScriptExited(outcome)).0.phase == RunPhase::Done,
        spec_advance(v, reg, DockerEvent::ScriptExited(outcome)).2 == ActionView::Finish(Ok(v.container)),
{
}

/// The scripts run in order: when the script at position `k` (pre-run 0,
/// main 1, post-run 2) exits with code 0, the main script is executed next
/// after the pre-run script, the post-run script is looked for next after
/// the main script, and after the post-run script the outputs are collected
/// or the run ends well. A missing pre-run script also leads straight to the
/// main script, which therefore runs whenever the pre-run script did not
/// fail.
pub proof fn law_scripts_run_in_order(v: RunView, reg: Seq<(String, String)>)
    ensures
        v.phase == RunPhase::Executing(0) ==> {
            let s = spec_advance(v, reg, DockerEvent::ScriptExited(Ok(0)));
            &&& s.0.phase == RunPhase::Executing(1)
            &&& s.2 == ActionView::Exec(v.container, spec_path_join("/workspace"@, v.job), v.config.scripts.run@)
        },
        v.phase == RunPhase::Checking(0) ==> {
            let s = spec_advance(v, reg, DockerEvent::ScriptFound(false));
            &&& s.0.phase == RunPhase::Executing(1)
            &&& s.2 == ActionView::Exec(v.container, spec_path_join("/workspace"@, v.job), v.config.scripts.run@)
        },
        v.phase == RunPhase::Executing(1) ==> {
            let s = spec_advance(v, reg, DockerEvent::ScriptExited(Ok(0)));
            &&& s.0.phase == RunPhase::Checking(2)
            &&& s.2 == ActionView::Check(spec_path_join(spec_path_join(v.folder, v.job), v.config.scripts.post@))
        },
        v.phase == RunPhase::Executing(2) ==> {
            let s = spec_advance(v, reg, DockerEvent::ScriptExited(Ok(0)));
            &&& s.0.phase == RunPhase::Collecting || s.0.phase == RunPhase::Done
            &&& s.0.scripts_ok == v.scripts_ok
        },
        v.phase == RunPhase::Checking(0) ==> spec_advance(v, reg, DockerEvent::ScriptFound(true)).2
            == ActionView::Exec(v.container, spec_path_join("/workspace"@, v.job), v.config.scripts.pre@),
{
}

} // verus!
