//! A job within a workflow, as the run view tracks it: its folder, its
//! configuration file, and its `.chiral` directory.

use vstd::prelude::*;
use vstd::string::*;

use crate::job_config::config::{JobConfig, JobConfigError, NodeMetadata};
use crate::text::concat2;
use crate::paths::{path_join, spec_path_join};

verus! {

/// Represents a job within a workflow.
#[derive(Debug, Clone, PartialEq)]
pub struct Job {
    pub name: String,
    pub path: String,
    /// The job's configuration file, `<path>/@job.toml`.
    pub config_path: String,
    pub chiral_dir: String,
}

impl Job {
    /// Creates a new Job, whose configuration is `<path>/@job.toml` and whose
    /// metadata directory is `<path>/.chiral`.
    pub fn new(name: String, path: String) -> (r: Self)
        ensures
            r.name == name,
            r.path == path,
            r.chiral_dir@ == spec_path_join(path@, ".chiral"@),
            r.config_path@ == spec_path_join(path@, "@job.toml"@),
    {
        let chiral_dir = path_join(path.as_str(), ".chiral");
        let config_path = path_join(path.as_str(), "@job.toml");
        Self { name, path, config_path, chiral_dir }
    }

    /// The legacy configuration file, `<path>/@job.toml`.
    pub fn legacy_config_path(&self) -> (r: String)
        ensures
            r@ == spec_path_join(self.path@, "@job.toml"@),
    {
        path_join(self.path.as_str(), "@job.toml")
    }

    /// Gets the path to node.json.
    pub fn node_metadata_path(&self) -> (r: String)
        ensures
            r@ == spec_path_join(self.chiral_dir@, "node.json"@),
    {
        path_join(self.chiral_dir.as_str(), "node.json")
    }

    /// Whether the job has a configuration: its configuration file, or else
    /// the legacy `@job.toml`, is a file.
    pub fn has_config(&self, config_is_file: bool, legacy_is_file: bool) -> (r: bool)
        ensures
            r == (config_is_file || legacy_is_file),
    {
        if config_is_file {
            return true;
        }
        legacy_is_file
    }

    /// The node metadata a job gets when it has no `node.json` yet: its name,
    /// the description `Job: <name>`, and no parameters.
    pub fn default_node_metadata(&self) -> (r: NodeMetadata)
        ensures
            r.name@ == self.name@,
            r.description@ == "Job: "@ + self.name@,
            r.params@.len() == 0,
    {
        NodeMetadata::new(self.name.clone(), concat2("Job: ", self.name.as_str()))
    }

    /// Gets the path to params.json.
    pub fn params_path(&self) -> (r: String)
        ensures
            r@ == spec_path_join(self.chiral_dir@, "params.json"@),
    {
        path_join(self.chiral_dir.as_str(), "params.json")
    }

    /// Which file the configuration is read from: the configuration file
    /// when it exists, else the legacy `@job.toml` when that exists; when
    /// neither does, the message that says so.
    pub open spec fn config_source(&self, config_exists: bool, legacy_exists: bool) -> Result<Seq<char>, Seq<char>> {
        if config_exists {
            Ok(self.config_path@)
        } else if legacy_exists {
            Ok(spec_path_join(self.path@, "@job.toml"@))
        } else {
            Err(
                "No job configuration found at "@ + self.config_path@ + " or "@ + spec_path_join(
                    self.path@,
                    "@job.toml"@,
                ),
            )
        }
    }

    /// Loads the job's configuration with `read`, from the file chosen by
    /// `config_source`, given whether the configuration file and the legacy
    /// `@job.toml` exist. When neither exists, the result is `FileNotFound`.
    pub fn load_config<F: FnOnce(String) -> Result<JobConfig, JobConfigError>>(
        &self,
        config_exists: bool,
        legacy_exists: bool,
        read: F,
    ) -> (r: Result<JobConfig, JobConfigError>)
        requires
            forall|p: String| call_requires(read, (p,)),
        ensures
            match self.config_source(config_exists, legacy_exists) {
                Ok(path) => exists|p: String| p@ == path && call_ensures(read, (p,), r),
                Err(m) => r matches Err(JobConfigError::FileNotFound(x)) && x@ == m,
            },
    {
        if config_exists {
            let p = self.config_path.clone();
            read(p)
        } else {
            let legacy = self.legacy_config_path();
            if legacy_exists {
                read(legacy)
            } else {
                let mut m = String::from_str("No job configuration found at ");
                m.append(self.config_path.as_str());
                m.append(" or ");
                m.append(legacy.as_str());
                Err(JobConfigError::FileNotFound(m))
            }
        }
    }
}

} // verus!
