//! Static validation of a workflow folder: no containers, no Docker, no run.
//!
//! `silva validate <dir>` answers one question: would this folder run? It
//! parses `workflow.toml` and every `job.toml`, checks the dependency graph,
//! applies the same prechecks headless execution applies, and validates any
//! parameter files against their definitions.
//!
//! This module judges what was read from the folder, a [`WorkflowSnapshot`];
//! reading the folder is the caller's part.

use vstd::prelude::*;
use vstd::string::*;

use crate::script::{is_white_space, trim_end};
use crate::headless::{
    dependency_cycle, has_missing, is_execution_order, law_cycle_not_orderable, names_distinct, sort_error,
    sort_jobs_checked,
};
use crate::job_config::job::{first_param_error, lemma_first_param_error, params_entry_error_at, validate_params_against, JobMeta, ParamDefinition};
use crate::job_config::params::JobParams;
use crate::job_config::workflow::WorkflowMeta;
use crate::precheck::{any_flagged, check_cross_node_references, check_input_files_folder, check_install_commands, free_job_labels, missing_inputs_message, report_body, report_footer, report_header, ScriptRule, ScriptText};
use crate::workflow::job_folder::JobFolder;
use crate::text::{contains_string, decimal, join, join_strings, push_char, push_decimal, to_chars};

verus! {

/// What a finding holds: its kind, the file and the job it is about, and its
/// message.
pub type FindingView = (Seq<char>, Option<Seq<char>>, Option<Seq<char>>, Seq<char>);

/// The view of an optional string.
pub open spec fn opt_view(o: Option<String>) -> Option<Seq<char>> {
    match o {
        Some(s) => Some(s@),
        None => None,
    }
}

/// One problem, addressed to whoever has to fix it.
#[derive(Debug, Clone, PartialEq)]
pub struct Finding {
    /// Machine-readable category: `workflow`, `job`, `dependency`, `params`,
    /// `script`, or `inputs`.
    pub kind: &'static str,
    /// Path this is about, relative to the workflow folder where possible.
    pub file: Option<String>,
    /// Job folder this is about, when it is about one.
    pub job: Option<String>,
    pub message: String,
}

/// What a finding says.
pub open spec fn finding_view(f: Finding) -> FindingView {
    (f.kind@, opt_view(f.file), opt_view(f.job), f.message@)
}

/// The views of a list of findings.
pub open spec fn findings_view(fs: Seq<Finding>) -> Seq<FindingView> {
    fs.map_values(|f: Finding| finding_view(f))
}

impl Finding {
    /// A finding of the given kind, about no particular file or job.
    pub fn new(kind: &'static str, message: String) -> (r: Self)
        ensures
            finding_view(r) == (kind@, None::<Seq<char>>, None::<Seq<char>>, message@),
    {
        Self { kind, file: None, job: None, message }
    }

    /// The same finding, about `file`.
    pub fn at(self, file: String) -> (r: Self)
        ensures
            finding_view(r) == (self.kind@, Some(file@), opt_view(self.job), self.message@),
    {
        let mut f = self;
        f.file = Some(file);
        f
    }

    /// The same finding, about the job folder `job`.
    pub fn in_job(self, job: String) -> (r: Self)
        ensures
            finding_view(r) == (self.kind@, opt_view(self.file), Some(job@), self.message@),
    {
        let mut f = self;
        f.job = Some(job);
        f
    }
}

/// The outcome of validating a workflow folder.
#[derive(Debug)]
pub struct Report {
    pub workflow_name: Option<String>,
    /// Job folders found, in scan order.
    pub jobs: Vec<String>,
    /// Execution order, when the graph is sound enough to produce one.
    pub order: Vec<String>,
    pub findings: Vec<Finding>,
}

impl Default for Report {
    fn default() -> (r: Self)
        ensures
            r.workflow_name is None,
            r.jobs@.len() == 0,
            r.order@.len() == 0,
            r.findings@.len() == 0,
    {
        Self { workflow_name: None, jobs: Vec::new(), order: Vec::new(), findings: Vec::new() }
    }
}

/// The views of a list of strings.
pub open spec fn string_views(v: Seq<String>) -> Seq<Seq<char>> {
    v.map_values(|s: String| s@)
}

/// `s` with every line break followed by four spaces, so that the lines after
/// the first are indented.
pub open spec fn indent_continuations(s: Seq<char>) -> Seq<char>
    decreases s.len(),
{
    if s.len() == 0 {
        Seq::empty()
    } else {
        indent_continuations(s.drop_last()) + if s.last() == '\n' {
            "\n    "@
        } else {
            seq![s.last()]
        }
    }
}

/// Where a finding points: ` [file]`, else ` [job]`, else nothing.
pub open spec fn finding_place(f: FindingView) -> Seq<char> {
    match f.1 {
        Some(file) => " ["@ + file + "]"@,
        None => match f.2 {
            Some(job) => " ["@ + job + "]"@,
            None => Seq::empty(),
        },
    }
}

/// The line a finding takes in the human output.
pub open spec fn finding_line(f: FindingView) -> Seq<char> {
    "  "@ + f.0 + finding_place(f) + ": "@ + indent_continuations(trim_end(f.3)) + "\n"@
}

/// The lines of all findings, in order.
pub open spec fn finding_lines(fs: Seq<FindingView>) -> Seq<char>
    decreases fs.len(),
{
    if fs.len() == 0 {
        Seq::empty()
    } else {
        finding_lines(fs.drop_last()) + finding_line(fs.last())
    }
}

/// The human output of a report.
pub open spec fn rendered(
    workflow_name: Option<Seq<char>>,
    jobs: nat,
    order: Seq<Seq<char>>,
    findings: Seq<FindingView>,
) -> Seq<char> {
    if findings.len() == 0 {
        let name = match workflow_name {
            Some(n) => n,
            None => "workflow"@,
        };
        name + ": "@ + decimal(jobs) + " job(s) ok\nExecution order: "@ + join(order, " -> "@)
            + "\n"@
    } else {
        decimal(findings.len()) + " problem(s) found:\n\n"@ + finding_lines(findings)
    }
}

/// The length of `cs` without its trailing white space.
fn trimmed_end_len(cs: &Vec<char>) -> (r: usize)
    ensures
        r <= cs.len(),
        cs@.take(r as int) == trim_end(cs@),
{
    let mut b = cs.len();
    assert(cs@.take(b as int) =~= cs@);
    while b > 0 && white_space_at(cs, b - 1)
        invariant
            b <= cs.len(),
            trim_end(cs@) == trim_end(cs@.take(b as int)),
        decreases b,
    {
        assert(cs@.take(b as int).drop_last() =~= cs@.take(b - 1));
        b = b - 1;
    }
    b
}

fn white_space_at(cs: &Vec<char>, i: usize) -> (r: bool)
    requires
        i < cs.len(),
    ensures
        r == is_white_space(cs@[i as int]),
{
    crate::script::white_space(cs[i])
}

/// Appends the message with its trailing white space removed and its
/// continuation lines indented.
fn append_indented(out: &mut String, message: &str)
    ensures
        final(out)@ == old(out)@ + indent_continuations(trim_end(message@)),
{
    let cs = to_chars(message);
    let n = trimmed_end_len(&cs);
    let ghost t = cs@.take(n as int);
    let ghost start = out@;
    let mut i: usize = 0;
    while i < n
        invariant
            i <= n <= cs.len(),
            t == cs@.take(n as int),
            out@ == start + indent_continuations(t.take(i as int)),
        decreases n - i,
    {
        proof {
            assert(t.take(i + 1).drop_last() =~= t.take(i as int));
            assert(t.take(i + 1).last() == cs@[i as int]);
        }
        if cs[i] == '\n' {
            out.append("\n    ");
        } else {
            push_char(out, cs[i]);
            assert(seq![cs@[i as int]] =~= Seq::<char>::empty().push(cs@[i as int]));
        }
        proof {
            assert(out@ =~= start + indent_continuations(t.take(i + 1)));
        }
        i = i + 1;
    }
    proof {
        assert(t.take(n as int) =~= t);
        assert(t =~= trim_end(message@));
    }
}

impl Report {
    /// Whether the folder would run: nothing was found wrong.
    pub fn is_valid(&self) -> (r: bool)
        ensures
            r == (self.findings@.len() == 0),
    {
        self.findings.len() == 0
    }

    /// Human output. Success names the execution order, because that is the
    /// thing a person actually wants confirmed.
    #[verifier::spinoff_prover]
    #[verifier::rlimit(30)]
    pub fn render(&self) -> (r: String)
        ensures
            r@ == rendered(
                opt_view(self.workflow_name),
                self.jobs@.len(),
                string_views(self.order@),
                findings_view(self.findings@),
            ),
    {
        if self.is_valid() {
            let mut out = match &self.workflow_name {
                Some(n) => n.clone(),
                None => String::from_str("workflow"),
            };
            out.append(": ");
            push_decimal(&mut out, self.jobs.len() as u128);
            out.append(" job(s) ok\nExecution order: ");
            let order = join_strings(&self.order, " -> ");
            out.append(order.as_str());
            out.append("\n");
            return out;
        }
        let ghost fs = findings_view(self.findings@);
        let mut out = String::new();
        push_decimal(&mut out, self.findings.len() as u128);
        out.append(" problem(s) found:\n\n");
        let ghost head = out@;
        let mut i: usize = 0;
        while i < self.findings.len()
            invariant
                i <= self.findings@.len(),
                fs == findings_view(self.findings@),
                out@ == head + finding_lines(fs.take(i as int)),
            decreases self.findings@.len() - i,
        {
            let f = &self.findings[i];
            proof {
                assert(fs.take(i + 1).drop_last() =~= fs.take(i as int));
                assert(fs.take(i + 1).last() == finding_view(*f));
            }
            let ghost before = out@;
            out.append("  ");
            out.append(f.kind);
            match &f.file {
                Some(file) => {
                    out.append(" [");
                    out.append(file.as_str());
                    out.append("]");
                },
                None => match &f.job {
                    Some(job) => {
                        out.append(" [");
                        out.append(job.as_str());
                        out.append("]");
                    },
                    None => {},
                },
            }
            out.append(": ");
            append_indented(&mut out, f.message.as_str());
            out.append("\n");
            proof {
                assert(out@ =~= before + finding_line(finding_view(*f)));
            }
            i = i + 1;
        }
        proof {
            assert(fs.take(self.findings@.len() as int) =~= fs);
        }
        out
    }
}

/// The findings for the dependencies of `job` that name no job folder.
pub open spec fn unknown_dep_findings(job: Seq<char>, list: Seq<Seq<char>>, names: Seq<Seq<char>>) -> Seq<
    FindingView,
>
    decreases list.len(),
{
    if list.len() == 0 {
        Seq::empty()
    } else {
        let d = list.last();
        unknown_dep_findings(job, list.drop_last(), names) + if names.contains(d) {
            Seq::empty()
        } else {
            seq![
                (
                    "dependency"@,
                    Some(".chiral/workflow.toml"@),
                    Some(job),
                    "Job '"@ + job + "' depends on '"@ + d + "', which is not a job folder here."@,
                ),
            ]
        }
    }
}

/// The findings for one `[dependencies]` entry: its job, when that is not a
/// job folder, then each of its dependencies that is not.
pub open spec fn entry_name_findings(job: Seq<char>, list: Seq<Seq<char>>, names: Seq<Seq<char>>) -> Seq<
    FindingView,
> {
    (if names.contains(job) {
        Seq::empty()
    } else {
        seq![
            (
                "dependency"@,
                Some(".chiral/workflow.toml"@),
                None,
                "[dependencies] names '"@ + job + "', which is not a job folder here."@,
            ),
        ]
    }) + unknown_dep_findings(job, list, names)
}

/// The findings for every name in `[dependencies]` that is not a job folder,
/// entry by entry.
pub open spec fn dependency_name_findings(deps: Seq<(String, Vec<String>)>, names: Seq<Seq<char>>) -> Seq<
    FindingView,
>
    decreases deps.len(),
{
    if deps.len() == 0 {
        Seq::empty()
    } else {
        dependency_name_findings(deps.drop_last(), names) + entry_name_findings(
            deps.last().0@,
            string_views(deps.last().1@),
            names,
        )
    }
}

/// Appends the findings for the dependencies of `job` that name no job folder.
fn push_unknown_deps(job: &String, list: &Vec<String>, job_names: &[String], findings: &mut Vec<Finding>)
    ensures
        findings_view(final(findings)@) == findings_view(old(findings)@) + unknown_dep_findings(
            job@,
            string_views(list@),
            string_views(job_names@),
        ),
{
    let ghost names = string_views(job_names@);
    let ghost all = string_views(list@);
    let ghost start = findings_view(findings@);
    let mut k: usize = 0;
    while k < list.len()
        invariant
            k <= list@.len(),
            names == string_views(job_names@),
            all == string_views(list@),
            findings_view(findings@) == start + unknown_dep_findings(job@, all.take(k as int), names),
        decreases list@.len() - k,
    {
        proof {
            assert(all.take(k + 1).drop_last() =~= all.take(k as int));
            assert(all.take(k + 1).last() == list@[k as int]@);
        }
        let dep = &list[k];
        let ghost mid = findings@;
        if !contains_string(job_names, dep.as_str()) {
            let mut m = String::from_str("Job '");
            m.append(job.as_str());
            m.append("' depends on '");
            m.append(dep.as_str());
            m.append("', which is not a job folder here.");
            let f = Finding::new("dependency", m).at(String::from_str(".chiral/workflow.toml")).in_job(
                job.clone(),
            );
            findings.push(f);
            assert(findings_view(findings@) =~= findings_view(mid).push(finding_view(f)));
        }
        proof {
            assert(findings_view(findings@) =~= start + unknown_dep_findings(job@, all.take(k + 1), names));
        }
        k = k + 1;
    }
    proof {
        assert(all.take(list@.len() as int) =~= all);
    }
}

/// `[dependencies]` may name a job that does not exist: the topological sort
/// reports the first such name, so check them all here for one full list.
pub fn check_dependency_names(metadata: &WorkflowMeta, job_names: &[String], findings: &mut Vec<Finding>)
    ensures
        findings_view(final(findings)@) == findings_view(old(findings)@) + dependency_name_findings(
            metadata.dependencies@,
            string_views(job_names@),
        ),
{
    let ghost names = string_views(job_names@);
    let ghost deps = metadata.dependencies@;
    let ghost start = findings_view(findings@);
    let mut e: usize = 0;
    while e < metadata.dependencies.len()
        invariant
            e <= deps.len(),
            deps == metadata.dependencies@,
            names == string_views(job_names@),
            findings_view(findings@) == start + dependency_name_findings(deps.take(e as int), names),
        decreases deps.len() - e,
    {
        proof {
            assert(deps.take(e + 1).drop_last() =~= deps.take(e as int));
            assert(deps.take(e + 1).last() == deps[e as int]);
        }
        let (job, list) = &metadata.dependencies[e];
        let ghost mid = findings_view(findings@);
        if !contains_string(job_names, job.as_str()) {
            let mut m = String::from_str("[dependencies] names '");
            m.append(job.as_str());
            m.append("', which is not a job folder here.");
            let f = Finding::new("dependency", m).at(String::from_str(".chiral/workflow.toml"));
            findings.push(f);
        }
        proof {
            assert(findings_view(findings@) =~= mid + (if names.contains(job@) {
                Seq::<FindingView>::empty()
            } else {
                seq![
                    (
                        "dependency"@,
                        Some(".chiral/workflow.toml"@),
                        None::<Seq<char>>,
                        "[dependencies] names '"@ + job@ + "', which is not a job folder here."@,
                    ),
                ]
            }));
        }
        push_unknown_deps(job, list, job_names, findings);
        proof {
            assert(findings_view(findings@) =~= start + dependency_name_findings(deps.take(e + 1), names));
        }
        e = e + 1;
    }
    proof {
        assert(deps.take(deps.len() as int) =~= deps);
    }
}

/// A parameter file as read: its entries, and how each entry's value is
/// written as TOML (`texts[i]` for entry `i`).
pub struct ParamsFile {
    pub values: JobParams,
    pub texts: Vec<String>,
}

/// A parameter file has a text for each entry.
pub open spec fn params_file_wf(p: ParamsFile) -> bool {
    p.texts@.len() == p.values@.len()
}

/// What was read of one job folder.
pub struct JobSnapshot {
    pub folder: JobFolder,
    /// The job's configuration, or why it could not be loaded.
    pub meta: Result<JobMeta, String>,
    /// The job's `params.json`: `Ok(None)` when there is none, `Err` when it
    /// could not be read.
    pub params: Result<Option<ParamsFile>, String>,
}

/// What was read of a workflow folder.
pub struct WorkflowSnapshot {
    /// The folder's path, as displayed.
    pub path: String,
    /// `Err(reason)` when the path could not be resolved; else whether it is
    /// a directory.
    pub access: Result<bool, String>,
    /// The workflow's `workflow.toml`: `Ok(None)` when there is none, `Err`
    /// when it could not be loaded.
    pub metadata: Result<Option<WorkflowMeta>, String>,
    /// The job folders, in scan order, or why they could not be scanned.
    pub jobs: Result<Vec<JobSnapshot>, String>,
    /// The workflow's `global_params.json`, when it was read.
    pub workflow_params: Option<ParamsFile>,
    /// The scripts of the jobs whose configuration loaded.
    pub scripts: Vec<ScriptText>,
    /// Whether `input_files/` is a directory.
    pub input_files_present: bool,
}

/// The job's parameter file, if read, has a text for each entry.
pub open spec fn job_params_wf(j: JobSnapshot) -> bool {
    j.params matches Ok(Some(p)) ==> params_file_wf(p)
}

/// Every parameter file of the snapshot has a text for each entry.
pub open spec fn snapshot_wf(s: WorkflowSnapshot) -> bool {
    &&& (s.workflow_params matches Some(p) ==> params_file_wf(p))
    &&& (s.jobs matches Ok(js) ==> forall|i: int|
        0 <= i < js@.len() ==> job_params_wf(#[trigger] js@[i]))
}

/// The names of the job folders.
pub open spec fn folder_names(js: Seq<JobSnapshot>) -> Seq<Seq<char>> {
    js.map_values(|j: JobSnapshot| j.folder.name@)
}

/// The jobs whose configuration loaded, in order.
pub open spec fn parsed_snapshots(js: Seq<JobSnapshot>) -> Seq<JobSnapshot>
    decreases js.len(),
{
    if js.len() == 0 {
        Seq::empty()
    } else if js.last().meta is Ok {
        parsed_snapshots(js.drop_last()).push(js.last())
    } else {
        parsed_snapshots(js.drop_last())
    }
}

/// The folders of the jobs whose configuration loaded.
pub open spec fn parsed_folders(js: Seq<JobSnapshot>) -> Seq<JobFolder> {
    parsed_snapshots(js).map_values(|j: JobSnapshot| j.folder)
}

/// The findings for the job configurations that could not be loaded.
pub open spec fn load_findings(js: Seq<JobSnapshot>) -> Seq<FindingView>
    decreases js.len(),
{
    if js.len() == 0 {
        Seq::empty()
    } else {
        let j = js.last();
        load_findings(js.drop_last()) + match j.meta {
            Ok(_) => Seq::empty(),
            Err(e) => seq![
                (
                    "job"@,
                    Some(j.folder.name@ + "/.chiral/job.toml"@),
                    Some(j.folder.name@),
                    e@,
                ),
            ],
        }
    }
}

/// The findings about the dependency graph: every name that is not a job
/// folder; when there is none, what ordering the loaded jobs reports.
pub open spec fn dependency_findings(meta: WorkflowMeta, js: Seq<JobSnapshot>) -> Seq<FindingView> {
    let names = dependency_name_findings(meta.dependencies@, folder_names(js));
    if names.len() > 0 {
        names
    } else {
        match sort_error(parsed_folders(js), meta.dependencies@) {
            Some(e) => seq![("dependency"@, None, None, e)],
            None => Seq::empty(),
        }
    }
}

/// The finding for a parameter file whose first bad entry has error `e`.
pub open spec fn params_finding(file: Seq<char>, job: Option<Seq<char>>, e: Option<Seq<char>>) -> Seq<
    FindingView,
> {
    match e {
        Some(m) => seq![("params"@, Some(file), job, m)],
        None => Seq::empty(),
    }
}

/// The finding for the workflow's parameter file, if it has a bad entry.
pub open spec fn global_params_findings(meta: WorkflowMeta, wp: Option<ParamsFile>) -> Seq<FindingView> {
    match wp {
        Some(p) => params_finding(
            "global_params.json"@,
            None,
            first_param_error(meta.params@, p.values@, p.texts@),
        ),
        None => Seq::empty(),
    }
}

/// The findings for the parameter files of the loaded jobs.
pub open spec fn job_params_findings(js: Seq<JobSnapshot>) -> Seq<FindingView>
    decreases js.len(),
{
    if js.len() == 0 {
        Seq::empty()
    } else {
        let j = js.last();
        let name = j.folder.name@;
        job_params_findings(js.drop_last()) + match j.meta {
            Ok(m) => match j.params {
                Ok(Some(p)) => params_finding(
                    name + "/params.json"@,
                    Some(name),
                    first_param_error(m.params@, p.values@, p.texts@),
                ),
                Ok(None) => Seq::empty(),
                Err(e) => seq![("params"@, Some(name + "/params.json"@), Some(name), e@)],
            },
            Err(_) => Seq::empty(),
        }
    }
}

/// The findings of the prechecks a run applies: install commands, `../`
/// references, and the `input_files/` folder.
pub open spec fn precheck_findings(
    path: Seq<char>,
    scripts: Seq<ScriptText>,
    meta: WorkflowMeta,
    parsed: Seq<JobFolder>,
    input_files_present: bool,
) -> Seq<FindingView> {
    let labels = free_job_labels(parsed, meta.dependencies@);
    (if any_flagged(scripts, ScriptRule::InstallCommand) {
        seq![
            (
                "script"@,
                None,
                None,
                report_header(ScriptRule::InstallCommand) + report_body(
                    scripts,
                    ScriptRule::InstallCommand,
                ) + report_footer(ScriptRule::InstallCommand),
            ),
        ]
    } else {
        Seq::empty()
    }) + (if any_flagged(scripts, ScriptRule::ParentReference) {
        seq![
            (
                "script"@,
                None,
                None,
                report_header(ScriptRule::ParentReference) + report_body(
                    scripts,
                    ScriptRule::ParentReference,
                ) + report_footer(ScriptRule::ParentReference),
            ),
        ]
    } else {
        Seq::empty()
    }) + (if labels.len() == 0 || input_files_present {
        Seq::empty()
    } else {
        seq![("inputs"@, Some("input_files/"@), None, missing_inputs_message(path, labels))]
    })
}

/// Everything found wrong with a workflow whose metadata and jobs were read.
pub open spec fn job_findings(s: WorkflowSnapshot, meta: WorkflowMeta, js: Seq<JobSnapshot>) -> Seq<
    FindingView,
> {
    load_findings(js) + dependency_findings(meta, js) + global_params_findings(meta, s.workflow_params)
        + job_params_findings(js) + precheck_findings(
        s.path@,
        s.scripts@,
        meta,
        parsed_folders(js),
        s.input_files_present,
    )
}

/// Everything found wrong with a workflow folder.
pub open spec fn expected_findings(s: WorkflowSnapshot) -> Seq<FindingView> {
    match s.access {
        Err(e) => seq![("workflow"@, None, None, "Cannot read "@ + s.path@ + ": "@ + e@)],
        Ok(false) => seq![("workflow"@, None, None, "Not a directory: "@ + s.path@)],
        Ok(true) => match s.metadata {
            Err(e) => seq![("workflow"@, Some(".chiral/workflow.toml"@), None, e@)],
            Ok(None) => seq![
                ("workflow"@, Some(".chiral/workflow.toml"@), None, "No workflow metadata found."@),
            ],
            Ok(Some(meta)) => match s.jobs {
                Err(e) => seq![("workflow"@, None, None, "Cannot scan jobs: "@ + e@)],
                Ok(js) => if js@.len() == 0 {
                    seq![
                        (
                            "workflow"@,
                            None,
                            None,
                            "No jobs found. A job is a folder containing .chiral/job.toml."@,
                        ),
                    ]
                } else {
                    job_findings(s, meta, js@)
                },
            },
        },
    }
}

/// The workflow's metadata, when the folder is a directory and it loaded.
pub open spec fn loaded_metadata(s: WorkflowSnapshot) -> Option<WorkflowMeta> {
    match s.access {
        Ok(true) => match s.metadata {
            Ok(Some(meta)) => Some(meta),
            _ => None,
        },
        _ => None,
    }
}

/// The job folders that were scanned, when the metadata loaded.
pub open spec fn scanned_jobs(s: WorkflowSnapshot) -> Seq<JobSnapshot> {
    match loaded_metadata(s) {
        Some(_) => match s.jobs {
            Ok(js) => js@,
            Err(_) => Seq::empty(),
        },
        None => Seq::empty(),
    }
}

/// The jobs were ordered: the folder was read up to its dependency graph, and
/// the graph is sound.
pub open spec fn ordered(s: WorkflowSnapshot) -> bool {
    match loaded_metadata(s) {
        Some(meta) => {
            let js = scanned_jobs(s);
            &&& s.jobs is Ok
            &&& js.len() > 0
            &&& dependency_name_findings(meta.dependencies@, folder_names(js)).len() == 0
            &&& sort_error(parsed_folders(js), meta.dependencies@) is None
        },
        None => false,
    }
}

/// The names of the job folders.
fn job_names(js: &Vec<JobSnapshot>) -> (r: Vec<String>)
    ensures
        string_views(r@) == folder_names(js@),
{
    let mut out: Vec<String> = Vec::new();
    for i in 0..js.len()
        invariant
            out@.len() == i,
            string_views(out@) == folder_names(js@.take(i as int)),
    {
        let name = js[i].folder.name.clone();
        out.push(name);
        assert forall|k: int| 0 <= k < i + 1 implies #[trigger] string_views(out@)[k] == folder_names(
            js@.take(i + 1),
        )[k] by {
            if k < i {
                assert(string_views(out@)[k] == folder_names(js@.take(i as int))[k]);
            }
        }
        assert(string_views(out@) =~= folder_names(js@.take(i + 1)));
    }
    assert(js@.take(js@.len() as int) =~= js@);
    out
}

/// Appends `f` to the findings.
fn push_finding(findings: &mut Vec<Finding>, f: Finding)
    ensures
        findings_view(final(findings)@) == findings_view(old(findings)@).push(finding_view(f)),
{
    findings.push(f);
    assert(findings_view(findings@) =~= findings_view(old(findings)@).push(finding_view(f)));
}

/// `name` followed by `suffix`.
fn suffixed(name: &String, suffix: &str) -> (r: String)
    ensures
        r@ == name@ + suffix@,
{
    let mut r = name.clone();
    r.append(suffix);
    r
}

/// Appends the findings for the job configurations that could not be loaded.
fn push_load_findings(js: &Vec<JobSnapshot>, findings: &mut Vec<Finding>)
    ensures
        findings_view(final(findings)@) == findings_view(old(findings)@) + load_findings(js@),
{
    let ghost start = findings_view(findings@);
    for i in 0..js.len()
        invariant
            findings_view(findings@) == start + load_findings(js@.take(i as int)),
    {
        proof {
            assert(js@.take(i + 1).drop_last() =~= js@.take(i as int));
            assert(js@.take(i + 1).last() == js@[i as int]);
        }
        let j = &js[i];
        match &j.meta {
            Ok(_) => {},
            Err(e) => {
                let f = Finding::new("job", e.clone()).at(suffixed(&j.folder.name, "/.chiral/job.toml")).in_job(
                    j.folder.name.clone(),
                );
                push_finding(findings, f);
            },
        }
        assert(findings_view(findings@) =~= start + load_findings(js@.take(i + 1)));
    }
    assert(js@.take(js@.len() as int) =~= js@);
}

/// The folders of the jobs whose configuration loaded.
fn parsed_jobs(js: &Vec<JobSnapshot>) -> (r: Vec<JobFolder>)
    ensures
        r@ == parsed_folders(js@),
{
    let mut out: Vec<JobFolder> = Vec::new();
    for i in 0..js.len()
        invariant
            out@ == parsed_folders(js@.take(i as int)),
    {
        proof {
            assert(js@.take(i + 1).drop_last() =~= js@.take(i as int));
            assert(js@.take(i + 1).last() == js@[i as int]);
        }
        if js[i].meta.is_ok() {
            out.push(js[i].folder.copy());
        }
        assert(out@ =~= parsed_folders(js@.take(i + 1)));
    }
    assert(js@.take(js@.len() as int) =~= js@);
    out
}

/// The error of the first bad entry of a parameter file, if any.
fn first_bad_param(defs: &Vec<(String, ParamDefinition)>, p: &ParamsFile) -> (r: Option<String>)
    requires
        params_file_wf(*p),
    ensures
        opt_view(r) == first_param_error(defs@, p.values@, p.texts@),
{
    match validate_params_against(defs, &p.values, &p.texts) {
        Ok(()) => {
            proof {
                lemma_first_param_error(defs@, p.values@, p.texts@, 0, p.values@.len() as int);
            }
            None
        },
        Err(m) => {
            proof {
                let e = choose|e: int|
                    0 <= e < p.values@.len() && params_entry_error_at(defs@, p.values@, p.texts@, e)
                        == Some(m@) && forall|j: int|
                        0 <= j < e ==> params_entry_error_at(defs@, p.values@, p.texts@, j) is None;
                lemma_first_param_error(defs@, p.values@, p.texts@, 0, e);
            }
            Some(m)
        },
    }
}

/// Appends the findings for the parameter files of the loaded jobs.
fn push_job_params_findings(js: &Vec<JobSnapshot>, findings: &mut Vec<Finding>)
    requires
        forall|i: int| 0 <= i < js@.len() ==> job_params_wf(#[trigger] js@[i]),
    ensures
        findings_view(final(findings)@) == findings_view(old(findings)@) + job_params_findings(js@),
{
    let ghost start = findings_view(findings@);
    for i in 0..js.len()
        invariant
            forall|i: int| 0 <= i < js@.len() ==> job_params_wf(#[trigger] js@[i]),
            findings_view(findings@) == start + job_params_findings(js@.take(i as int)),
    {
        proof {
            assert(js@.take(i + 1).drop_last() =~= js@.take(i as int));
            assert(js@.take(i + 1).last() == js@[i as int]);
            assert(job_params_wf(js@[i as int]));
        }
        let j = &js[i];
        let ghost before = findings_view(findings@);
        match &j.meta {
            Ok(m) => match &j.params {
                Ok(Some(p)) => match first_bad_param(&m.params, p) {
                    Some(e) => {
                        let f = Finding::new("params", e).at(suffixed(&j.folder.name, "/params.json")).in_job(
                            j.folder.name.clone(),
                        );
                        push_finding(findings, f);
                    },
                    None => {},
                },
                Ok(None) => {},
                Err(e) => {
                    let f = Finding::new("params", e.clone()).at(suffixed(&j.folder.name, "/params.json")).in_job(
                        j.folder.name.clone(),
                    );
                    push_finding(findings, f);
                },
            },
            Err(_) => {},
        }
        assert(findings_view(findings@) =~= start + job_params_findings(js@.take(i + 1)));
    }
    assert(js@.take(js@.len() as int) =~= js@);
}

/// Appends the findings of the prechecks a run applies.
fn push_precheck_findings(
    path: &String,
    scripts: &Vec<ScriptText>,
    meta: &WorkflowMeta,
    parsed: &Vec<JobFolder>,
    input_files_present: bool,
    findings: &mut Vec<Finding>,
)
    ensures
        findings_view(final(findings)@) == findings_view(old(findings)@) + precheck_findings(
            path@,
            scripts@,
            *meta,
            parsed@,
            input_files_present,
        ),
{
    let ghost start = findings_view(findings@);
    if let Err(e) = check_install_commands(scripts) {
        push_finding(findings, Finding::new("script", e));
    }
    let ghost mid1 = findings_view(findings@);
    if let Err(e) = check_cross_node_references(scripts) {
        push_finding(findings, Finding::new("script", e));
    }
    let ghost mid2 = findings_view(findings@);
    if let Err(e) = check_input_files_folder(path.as_str(), parsed.as_slice(), meta, input_files_present) {
        push_finding(findings, Finding::new("inputs", e).at(String::from_str("input_files/")));
    }
    assert(findings_view(findings@) =~= start + precheck_findings(
        path@,
        scripts@,
        *meta,
        parsed@,
        input_files_present,
    ));
}

/// A report holding one finding.
fn single_finding(report: &mut Report, f: Finding)
    requires
        old(report).findings@.len() == 0,
    ensures
        findings_view(final(report).findings@) == seq![finding_view(f)],
        final(report).workflow_name == old(report).workflow_name,
        final(report).jobs == old(report).jobs,
        final(report).order == old(report).order,
{
    push_finding(&mut report.findings, f);
    assert(findings_view(report.findings@) =~= seq![finding_view(f)]);
}

/// Validates what was read of a workflow folder. Never runs anything and
/// never needs Docker.
///
/// The checks stop at the first of: a path that cannot be read, one that is
/// no directory, missing or unreadable metadata, job folders that cannot be
/// scanned, or no job folders at all. Past those, every problem is reported:
/// configurations that do not load (their jobs are left out of the later
/// checks), dependency names that are not job folders (or else what ordering
/// the jobs reports), bad parameter files, and the prechecks of a run.
pub fn validate_workflow(s: &WorkflowSnapshot) -> (r: Report)
    requires
        snapshot_wf(*s),
    ensures
        findings_view(r.findings@) == expected_findings(*s),
        opt_view(r.workflow_name) == match loaded_metadata(*s) {
            Some(meta) => Some(meta.name@),
            None => None,
        },
        string_views(r.jobs@) == folder_names(scanned_jobs(*s)),
        ordered(*s) ==> is_execution_order(
            parsed_folders(scanned_jobs(*s)),
            loaded_metadata(*s).unwrap().dependencies@,
            string_views(r.order@),
        ),
        !ordered(*s) ==> r.order@.len() == 0,
{
    let mut report = Report::default();
    match &s.access {
        Err(e) => {
            let mut m = String::from_str("Cannot read ");
            m.append(s.path.as_str());
            m.append(": ");
            m.append(e.as_str());
            single_finding(&mut report, Finding::new("workflow", m));
            return report;
        },
        Ok(false) => {
            let mut m = String::from_str("Not a directory: ");
            m.append(s.path.as_str());
            single_finding(&mut report, Finding::new("workflow", m));
            return report;
        },
        Ok(true) => {},
    }
    // workflow.toml: the one file whose absence stops everything else.
    let metadata = match &s.metadata {
        Ok(Some(meta)) => {
            report.workflow_name = Some(meta.name.clone());
            meta
        },
        Ok(None) => {
            let f = Finding::new("workflow", String::from_str("No workflow metadata found.")).at(
                String::from_str(".chiral/workflow.toml"),
            );
            single_finding(&mut report, f);
            return report;
        },
        Err(e) => {
            let f = Finding::new("workflow", e.clone()).at(String::from_str(".chiral/workflow.toml"));
            single_finding(&mut report, f);
            return report;
        },
    };
    // Job folders.
    let js = match &s.jobs {
        Ok(js) => js,
        Err(e) => {
            let mut m = String::from_str("Cannot scan jobs: ");
            m.append(e.as_str());
            single_finding(&mut report, Finding::new("workflow", m));
            return report;
        },
    };
    report.jobs = job_names(js);
    if js.len() == 0 {
        let f = Finding::new(
            "workflow",
            String::from_str("No jobs found. A job is a folder containing .chiral/job.toml."),
        );
        single_finding(&mut report, f);
        return report;
    }
    // Every job.toml loads; jobs whose configuration does not are left out of
    // the later checks, so one broken file does not cascade.
    push_load_findings(js, &mut report.findings);
    let parsed = parsed_jobs(js);
    let ghost after_load = findings_view(report.findings@);
    // Dependencies: names that resolve, and no cycles. The name check reports
    // every bad name; once the names are sound, the ordering has nothing left
    // to find but cycles.
    let names_before = report.findings.len();
    check_dependency_names(metadata, report.jobs.as_slice(), &mut report.findings);
    if report.findings.len() == names_before {
        match sort_jobs_checked(parsed.as_slice(), metadata) {
            Ok(sorted) => {
                let mut order: Vec<String> = Vec::new();
                for p in 0..sorted.len()
                    invariant
                        order@.len() == p,
                        forall|q: int| 0 <= q < p ==> #[trigger] order@[q]@ == sorted@[q].name@,
                {
                    order.push(sorted[p].name.clone());
                }
                assert(string_views(order@) =~= sorted@.map_values(|j: JobFolder| j.name@));
                report.order = order;
            },
            Err(e) => {
                push_finding(&mut report.findings, Finding::new("dependency", e));
            },
        }
    }
    let ghost after_deps = findings_view(report.findings@);
    assert(after_deps =~= after_load + dependency_findings(*metadata, js@));
    // Parameter files, where they exist, against their definitions.
    if let Some(p) = &s.workflow_params {
        if let Some(e) = first_bad_param(&metadata.params, p) {
            push_finding(&mut report.findings, Finding::new("params", e).at(String::from_str("global_params.json")));
        }
    }
    assert(findings_view(report.findings@) =~= after_deps + global_params_findings(*metadata, s.workflow_params));
    push_job_params_findings(js, &mut report.findings);
    // The conventions headless execution enforces, so validation agrees with
    // what a run would do.
    push_precheck_findings(&s.path, &s.scripts, metadata, &parsed, s.input_files_present, &mut report.findings);
    assert(findings_view(report.findings@) =~= job_findings(*s, *metadata, js@));
    report
}

/// Jobs whose dependencies form a cycle cannot be ordered: the dependency
/// check reports a finding about them.
pub proof fn law_cycle_gets_a_finding(meta: WorkflowMeta, js: Seq<JobSnapshot>, c: Seq<int>)
    requires
        dependency_cycle(parsed_folders(js), meta.dependencies@, c),
    ensures
        sort_error(parsed_folders(js), meta.dependencies@) is Some,
        dependency_findings(meta, js).len() > 0,
{
    let jobs = parsed_folders(js);
    let deps = meta.dependencies@;
    if !has_missing(jobs, deps) && names_distinct(jobs) {
        law_cycle_not_orderable(jobs, deps, c);
    }
}

/// A workflow whose loaded jobs depend on each other in a cycle is given no
/// execution order.
pub proof fn law_cycle_means_no_order(s: WorkflowSnapshot, c: Seq<int>)
    requires
        loaded_metadata(s) is Some,
        dependency_cycle(parsed_folders(scanned_jobs(s)), loaded_metadata(s)->0.dependencies@, c),
    ensures
        !ordered(s),
{
    law_cycle_gets_a_finding(loaded_metadata(s)->0, scanned_jobs(s), c);
}

} // verus!
