//! The execution state of the jobs of a workflow run.

use vstd::prelude::*;
use vstd::string::*;

use crate::docker::logs::{utc_now_millis, LogBuffer, LogLine};

verus! {

/// Status of a Docker job execution.
#[derive(Debug, Clone, PartialEq, Eq)]
pub enum JobStatus {
    Idle,
    Pending,
    PullingImage,
    BuildingImage,
    CreatingContainer,
    /// Carries the container id.
    ContainerRunning(String),
    Running,
    Completed,
    Failed,
}

/// The label shown for a status.
pub open spec fn status_label(s: JobStatus) -> Seq<char> {
    match s {
        JobStatus::Idle => "Idle"@,
        JobStatus::Pending => "Pending"@,
        JobStatus::PullingImage => "Pulling Image"@,
        JobStatus::BuildingImage => "Building Image"@,
        JobStatus::CreatingContainer => "Creating Container"@,
        JobStatus::ContainerRunning(_) => "Container Created"@,
        JobStatus::Running => "Running"@,
        JobStatus::Completed => "Completed"@,
        JobStatus::Failed => "Failed"@,
    }
}

/// The phases in which a job is under way.
pub open spec fn spec_is_running(s: JobStatus) -> bool {
    match s {
        JobStatus::PullingImage | JobStatus::BuildingImage | JobStatus::CreatingContainer
        | JobStatus::ContainerRunning(_) | JobStatus::Running => true,
        _ => false,
    }
}

/// The statuses a job ends in.
pub open spec fn spec_is_finished(s: JobStatus) -> bool {
    s is Completed || s is Failed
}

impl JobStatus {
    /// The label shown for this status.
    pub fn as_str(&self) -> (r: &str)
        ensures
            r@ == status_label(*self),
    {
        match self {
            JobStatus::Idle => "Idle",
            JobStatus::Pending => "Pending",
            JobStatus::PullingImage => "Pulling Image",
            JobStatus::BuildingImage => "Building Image",
            JobStatus::CreatingContainer => "Creating Container",
            JobStatus::ContainerRunning(_) => "Container Created",
            JobStatus::Running => "Running",
            JobStatus::Completed => "Completed",
            JobStatus::Failed => "Failed",
        }
    }

    /// Whether the job is under way: pulling or building its image, creating
    /// its container, or running.
    pub fn is_running(&self) -> (r: bool)
        ensures
            r == spec_is_running(*self),
    {
        match self {
            JobStatus::PullingImage => true,
            JobStatus::BuildingImage => true,
            JobStatus::CreatingContainer => true,
            JobStatus::ContainerRunning(_) => true,
            JobStatus::Running => true,
            _ => false,
        }
    }

    /// Whether the job has ended, successfully or not.
    pub fn is_finished(&self) -> (r: bool)
        ensures
            r == spec_is_finished(*self),
    {
        match self {
            JobStatus::Completed => true,
            JobStatus::Failed => true,
            _ => false,
        }
    }
}

/// No status is both under way and finished.
pub proof fn law_running_and_finished_exclusive(s: JobStatus)
    ensures
        !(spec_is_running(s) && spec_is_finished(s)),
{
}

/// Represents a single job entry with its execution state.
#[derive(Debug, Clone)]
pub struct JobEntry {
    pub name: String,
    pub status: JobStatus,
    pub logs: LogBuffer,
    pub container_id: Option<String>,
    /// Milliseconds since the Unix epoch (UTC).
    pub start_time: Option<i64>,
    /// Milliseconds since the Unix epoch (UTC).
    pub end_time: Option<i64>,
    pub error_message: Option<String>,
}

impl JobEntry {
    /// An idle entry with no logs.
    pub fn new(name: String) -> (r: Self)
        ensures
            r.name == name,
            r.status == JobStatus::Idle,
            r.logs.view_lines() == Seq::<LogLine>::empty(),
            r.logs.capacity() == 10000,
            r.container_id is None,
            r.start_time is None,
            r.end_time is None,
            r.error_message is None,
    {
        Self {
            name,
            status: JobStatus::Idle,
            logs: LogBuffer::default(),
            container_id: None,
            start_time: None,
            end_time: None,
            error_message: None,
        }
    }

    /// Marks the job as started now: it is pulling its image, and its logs,
    /// container, end time and error are cleared.
    pub fn start_job(&mut self)
        ensures
            final(self).name == old(self).name,
            final(self).status == JobStatus::PullingImage,
            final(self).start_time is Some,
            final(self).end_time is None,
            final(self).logs.view_lines() == Seq::<LogLine>::empty(),
            final(self).logs.capacity() == old(self).logs.capacity(),
            final(self).container_id is None,
            final(self).error_message is None,
    {
        self.status = JobStatus::PullingImage;
        self.start_time = Some(utc_now_millis());
        self.end_time = None;
        self.logs.clear();
        self.container_id = None;
        self.error_message = None;
    }

    /// Marks the job as finished now, completed or failed.
    pub fn complete_job(&mut self, success: bool)
        ensures
            final(self).status == (if success { JobStatus::Completed } else { JobStatus::Failed }),
            final(self).end_time is Some,
            final(self).name == old(self).name,
            final(self).logs == old(self).logs,
            final(self).container_id == old(self).container_id,
            final(self).start_time == old(self).start_time,
            final(self).error_message == old(self).error_message,
    {
        self.status = if success { JobStatus::Completed } else { JobStatus::Failed };
        self.end_time = Some(utc_now_millis());
    }
}

} // verus!
