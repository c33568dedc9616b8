//! Workflow metadata (`workflow.toml`): the workflow's name and description,
//! which jobs depend on which, and the workflow-wide parameters.

use vstd::prelude::*;

use crate::assoc::{find_key, insert_entry, lemma_first_key_index, lookup};
use crate::job_config::job::{default_params_of, params_entry_error_at, validate_params_against, ParamDefinition};
use crate::job_config::params::{toml_to_json_rel, WorkflowParams};

verus! {

/// Represents the metadata for a workflow (workflow.toml).
#[derive(Debug, PartialEq)]
pub struct WorkflowMeta {
    pub name: String,
    pub description: String,
    /// Job dependencies: job name -> the jobs it depends on.
    /// Example: { "job_2": ["job_1"], "job_3": ["job_1", "job_2"] }
    pub dependencies: Vec<(String, Vec<String>)>,
    /// Global parameter definitions for this workflow, by name.
    pub params: Vec<(String, ParamDefinition)>,
}

/// The dependencies recorded for a job: the list under its name, or none.
pub open spec fn deps_of(deps: Seq<(String, Vec<String>)>, job: Seq<char>) -> Seq<String> {
    match lookup(deps, job) {
        Some(v) => v@,
        None => Seq::empty(),
    }
}

impl WorkflowMeta {
    /// Creates a new workflow metadata with the given name and description.
    pub fn new(name: String, description: String) -> (r: Self)
        ensures
            r.name == name,
            r.description == description,
            r.dependencies@.len() == 0,
            r.params@.len() == 0,
    {
        Self { name, description, dependencies: Vec::new(), params: Vec::new() }
    }

    /// Gets the dependencies for a specific job.
    /// Returns an empty slice if the job has no dependencies.
    pub fn get_job_dependencies(&self, job_name: &str) -> (r: &[String])
        ensures
            r@ == deps_of(self.dependencies@, job_name@),
    {
        proof {
            lemma_first_key_index(self.dependencies@, job_name@);
        }
        match find_key(&self.dependencies, job_name) {
            Some(i) => self.dependencies[i].1.as_slice(),
            None => &[],
        }
    }

    /// Sets the dependencies for a specific job, replacing any it had.
    pub fn set_job_dependencies(&mut self, job_name: String, deps: Vec<String>)
        ensures
            lookup(final(self).dependencies@, job_name@) == Some(deps),
            forall|k: Seq<char>|
                k != job_name@ ==> lookup(final(self).dependencies@, k) == lookup(
                    old(self).dependencies@,
                    k,
                ),
            final(self).name == old(self).name,
            final(self).description == old(self).description,
            final(self).params == old(self).params,
    {
        insert_entry(&mut self.dependencies, job_name, deps);
    }

    /// Adds a parameter definition to this workflow, replacing any definition
    /// already held under that name.
    pub fn add_param(&mut self, name: String, definition: ParamDefinition)
        ensures
            lookup(final(self).params@, name@) == Some(definition),
            forall|k: Seq<char>|
                k != name@ ==> lookup(final(self).params@, k) == lookup(old(self).params@, k),
            final(self).name == old(self).name,
            final(self).description == old(self).description,
            final(self).dependencies == old(self).dependencies,
    {
        insert_entry(&mut self.params, name, definition);
    }

    /// Validates global parameter values against this workflow's
    /// definitions, reporting the first unknown or invalid entry. `texts[i]`
    /// is how the value of entry `i` is written as TOML.
    pub fn validate_params(&self, params: &WorkflowParams, texts: &Vec<String>) -> (r: Result<
        (),
        String,
    >)
        requires
            texts@.len() == params@.len(),
        ensures
            r is Ok <==> forall|i: int|
                0 <= i < params@.len() ==> params_entry_error_at(self.params@, params@, texts@, i)
                    is None,
            r matches Err(m) ==> exists|i: int|
                0 <= i < params@.len() && params_entry_error_at(self.params@, params@, texts@, i)
                    == Some(m@) && forall|j: int|
                    0 <= j < i ==> params_entry_error_at(self.params@, params@, texts@, j) is None,
    {
        validate_params_against(&self.params, params, texts)
    }

    /// Generates default parameters: each definition's default, converted
    /// to JSON.
    pub fn generate_default_params(&self) -> (r: WorkflowParams)
        ensures
            r@.len() == self.params@.len(),
            forall|i: int|
                0 <= i < self.params@.len() ==> (#[trigger] r@[i]).0@ == self.params@[i].0@
                    && toml_to_json_rel(self.params@[i].1.default, r@[i].1),
    {
        default_params_of(&self.params)
    }
}

/// Setting a job's dependencies and reading them back gives what was set,
/// and the dependencies of every other job are unchanged.
pub proof fn law_dependencies_read_back(
    before: Seq<(String, Vec<String>)>,
    after: Seq<(String, Vec<String>)>,
    job: Seq<char>,
    deps: Vec<String>,
    other: Seq<char>,
)
    requires
        lookup(after, job) == Some(deps),
        forall|k: Seq<char>| k != job ==> lookup(after, k) == lookup(before, k),
    ensures
        deps_of(after, job) == deps@,
        other != job ==> deps_of(after, other) == deps_of(before, other),
{
}

} // verus!
