//! A job folder: a directory of a workflow whose `.chiral/job.toml` describes
//! the job.

use vstd::prelude::*;
use vstd::string::*;

use crate::paths::{path_join, spec_path_join};
use crate::job_config::config::{config_error_message, JobConfigError};
use crate::sorting::{insert_sorted, sorted_by_name, Named};

verus! {

/// Represents a job folder within a workflow.
#[derive(Debug, Clone, PartialEq)]
pub struct JobFolder {
    pub name: String,
    pub path: String,
    pub config_path: String,
    pub chiral_dir: String,
}

impl JobFolder {
    /// Creates a new JobFolder; its configuration lives in
    /// `<path>/.chiral/job.toml`.
    pub fn new(name: String, path: String) -> (r: Self)
        ensures
            r.name == name,
            r.path == path,
            r.chiral_dir@ == spec_path_join(path@, ".chiral"@),
            r.config_path@ == spec_path_join(spec_path_join(path@, ".chiral"@), "job.toml"@),
    {
        let chiral_dir = path_join(path.as_str(), ".chiral");
        let config_path = path_join(chiral_dir.as_str(), "job.toml");
        Self { name, path, config_path, chiral_dir }
    }

    /// Gets the path to params.json, which sits at the top of the job folder.
    pub fn params_path(&self) -> (r: String)
        ensures
            r@ == spec_path_join(self.path@, "params.json"@),
    {
        path_join(self.path.as_str(), "params.json")
    }

    /// An exact copy of this job folder.
    pub fn copy(&self) -> (r: Self)
        ensures
            r == *self,
    {
        JobFolder {
            name: self.name.clone(),
            path: self.path.clone(),
            config_path: self.config_path.clone(),
            chiral_dir: self.chiral_dir.clone(),
        }
    }
}

impl Named for JobFolder {
    open spec fn name_view(&self) -> Seq<char> {
        self.name@
    }

    fn name_str(&self) -> (r: &str) {
        self.name.as_str()
    }
}

/// Error types for job operations; each carries the text of what went wrong.
#[derive(Debug, Clone, PartialEq)]
pub enum JobError {
    IoError(String),
    InvalidJob(String),
    ConfigError(JobConfigError),
    ParamsError(String),
}

/// The message of a job error.
pub open spec fn job_error_message(e: JobError) -> Seq<char> {
    match e {
        JobError::IoError(m) => "IO error: "@ + m@,
        JobError::InvalidJob(m) => "Invalid job: "@ + m@,
        JobError::ConfigError(c) => "Configuration error: "@ + config_error_message(c),
        JobError::ParamsError(m) => "Parameters error: "@ + m@,
    }
}

impl JobError {
    /// The error's message, as it is displayed.
    pub fn message(&self) -> (r: String)
        ensures
            r@ == job_error_message(*self),
    {
        let (head, body) = match self {
            JobError::IoError(m) => ("IO error: ", m.clone()),
            JobError::InvalidJob(m) => ("Invalid job: ", m.clone()),
            JobError::ConfigError(c) => ("Configuration error: ", c.message()),
            JobError::ParamsError(m) => ("Parameters error: ", m.clone()),
        };
        let mut r = String::from_str(head);
        r.append(body.as_str());
        r
    }
}

/// A directory entry of a workflow folder, as the caller found it: the job
/// folder it would be, whether it is a directory, and whether its
/// `.chiral/job.toml` is a file.
pub struct JobCandidate {
    pub folder: JobFolder,
    pub is_dir: bool,
    pub has_config: bool,
}

/// What the caller found when it listed a workflow folder.
pub enum JobListing {
    /// The workflow path does not exist.
    Missing,
    /// The workflow path is not a directory.
    NotADirectory,
    /// The folder could not be read; the I/O error's message.
    Unreadable(String),
    /// The entries that could be read, in the order the listing gave them.
    Entries(Vec<JobCandidate>),
}

/// The job folders among the candidates: the directories that hold a
/// configuration, in order.
pub open spec fn job_folders_of(c: Seq<JobCandidate>) -> Seq<JobFolder>
    decreases c.len(),
{
    if c.len() == 0 {
        Seq::empty()
    } else if c.last().is_dir && c.last().has_config {
        job_folders_of(c.drop_last()).push(c.last().folder)
    } else {
        job_folders_of(c.drop_last())
    }
}

/// Scans a workflow directory for job folders.
pub struct JobScanner;

impl JobScanner {
    /// The jobs of a workflow folder, from a listing of it: the
    /// subdirectories holding `.chiral/job.toml`, sorted by name. A path that
    /// does not exist, is not a directory, or cannot be read is an error.
    pub fn scan_jobs(workflow_path: &str, listing: JobListing) -> (r: Result<Vec<JobFolder>, JobError>)
        ensures
            listing is Missing ==> (r matches Err(JobError::InvalidJob(m)) && m@
                == "Workflow path does not exist: "@ + workflow_path@),
            listing is NotADirectory ==> (r matches Err(JobError::InvalidJob(m)) && m@
                == "Workflow path is not a directory: "@ + workflow_path@),
            listing matches JobListing::Unreadable(e) ==> r == Err::<Vec<JobFolder>, JobError>(
                JobError::IoError(e),
            ),
            listing matches JobListing::Entries(c) ==> (r matches Ok(jobs) && sorted_by_name(jobs@)
                && jobs@.to_multiset() == job_folders_of(c@).to_multiset()),
    {
        match listing {
            JobListing::Missing => {
                let mut m = String::from_str("Workflow path does not exist: ");
                m.append(workflow_path);
                Err(JobError::InvalidJob(m))
            },
            JobListing::NotADirectory => {
                let mut m = String::from_str("Workflow path is not a directory: ");
                m.append(workflow_path);
                Err(JobError::InvalidJob(m))
            },
            JobListing::Unreadable(e) => Err(JobError::IoError(e)),
            JobListing::Entries(candidates) => {
                let ghost all = candidates@;
                let n = candidates.len();
                let mut rest = candidates;
                let mut out: Vec<JobFolder> = Vec::new();
                let mut i: usize = 0;
                proof {
                    assert(job_folders_of(all.take(0)) =~= out@);
                    assert(all.skip(0) =~= all);
                }
                while i < n
                    invariant
                        i <= n == all.len(),
                        rest@ == all.skip(i as int),
                        sorted_by_name(out@),
                        out@.to_multiset() == job_folders_of(all.take(i as int)).to_multiset(),
                    decreases n - i,
                {
                    proof {
                        assert(all.take(i + 1).drop_last() =~= all.take(i as int));
                        assert(all.take(i + 1).last() == all[i as int]);
                    }
                    let c = rest.remove(0);
                    proof {
                        assert(rest@ =~= all.skip(i + 1));
                    }
                    if c.is_dir && c.has_config {
                        let ghost f = c.folder;
                        insert_sorted(&mut out, c.folder);
                        proof {
                            vstd::seq_lib::to_multiset_build(job_folders_of(all.take(i as int)), f);
                        }
                    }
                    i = i + 1;
                }
                proof {
                    assert(all.take(n as int) =~= all);
                }
                Ok(out)
            },
        }
    }

    /// Whether a path is a job folder: a directory whose `.chiral/job.toml`,
    /// or else whose legacy `@job.toml`, is a file.
    pub fn is_job_folder(is_dir: bool, config_is_file: bool, legacy_is_file: bool) -> (r: bool)
        ensures
            r == (is_dir && (config_is_file || legacy_is_file)),
    {
        if !is_dir {
            return false;
        }
        config_is_file || legacy_is_file
    }
}

} // verus!
