use silva::job_config::job::{Container, JobMeta, ParamDefinition, ParamType};
use silva::job_config::workflow::WorkflowMeta;
use silva::precheck::ScriptText;
use silva::validate::{
    validate_workflow, Finding, JobSnapshot, ParamsFile, Report, WorkflowSnapshot,
};
use silva::values::{JsonNumber, JsonValue, TomlValue};
use silva::workflow::job_folder::JobFolder;

fn job_meta() -> JobMeta {
    let mut meta = JobMeta::new(
        "Job".to_string(),
        "a job".to_string(),
        Container::new("alpine:latest".to_string()),
    );
    meta.outputs = vec!["*.txt".to_string()];
    meta.scripts.run = "run.sh".to_string();
    meta.add_param(
        "threshold".to_string(),
        ParamDefinition::new(
            ParamType::Float,
            TomlValue::Float(1.0f64.to_bits()),
            "a threshold".to_string(),
            None,
        ),
    );
    meta
}

fn job(name: &str) -> JobSnapshot {
    JobSnapshot {
        folder: JobFolder::new(name.to_string(), format!("/tmp/wf/{name}")),
        meta: Ok(job_meta()),
        params: Ok(None),
    }
}

fn scripts(names: &[&str]) -> Vec<ScriptText> {
    names
        .iter()
        .map(|n| ScriptText {
            job_name: n.to_string(),
            script_name: "run.sh".to_string(),
            content: Some("#!/bin/bash\necho hi\n".to_string()),
        })
        .collect()
}

/// Minimal workflow: `01-first` and `02-second`, both with a trivial job
/// configuration, and the given dependencies.
fn workflow(dependencies: Vec<(&str, Vec<&str>)>) -> WorkflowSnapshot {
    let mut meta = WorkflowMeta::new("Test".to_string(), "a test workflow".to_string());
    for (job, deps) in dependencies {
        meta.set_job_dependencies(job.to_string(), deps.into_iter().map(String::from).collect());
    }
    WorkflowSnapshot {
        path: "/tmp/wf".to_string(),
        access: Ok(true),
        metadata: Ok(Some(meta)),
        jobs: Ok(vec![job("01-first"), job("02-second")]),
        workflow_params: None,
        scripts: scripts(&["01-first", "02-second"]),
        // `01-first` has no dependencies, so input_files/ has to exist.
        input_files_present: true,
    }
}

fn of_kind<'a>(report: &'a Report, kind: &str) -> Vec<&'a Finding> {
    report.findings.iter().filter(|f| f.kind == kind).collect()
}

#[test]
fn valid_workflow_reports_execution_order() {
    let report = validate_workflow(&workflow(vec![("02-second", vec!["01-first"])]));

    assert!(report.is_valid(), "{:?}", report.findings);
    assert_eq!(report.order, vec!["01-first", "02-second"]);
    assert_eq!(report.workflow_name.as_deref(), Some("Test"));
}

#[test]
fn missing_workflow_toml_is_reported_once() {
    let mut s = workflow(vec![]);
    s.metadata = Ok(None);
    let report = validate_workflow(&s);

    assert!(!report.is_valid());
    assert_eq!(report.findings.len(), 1);
    assert_eq!(report.findings[0].kind, "workflow");
}

#[test]
fn dependency_on_a_job_that_does_not_exist_names_the_job() {
    let report = validate_workflow(&workflow(vec![("02-second", vec!["01-missing"])]));

    let deps = of_kind(&report, "dependency");
    // Exactly one: the name check and the topological sort must not both
    // report the same missing dependency.
    assert_eq!(deps.len(), 1, "{:?}", report.findings);
    assert!(deps[0].message.contains("01-missing"));
    assert_eq!(deps[0].job.as_deref(), Some("02-second"));
}

#[test]
fn dependencies_naming_an_unknown_job_are_reported() {
    let report = validate_workflow(&workflow(vec![("03-ghost", vec!["01-first"])]));

    assert!(report.findings.iter().any(|f| f.message.contains("03-ghost")));
}

#[test]
fn a_cycle_is_reported() {
    let report = validate_workflow(&workflow(vec![
        ("01-first", vec!["02-second"]),
        ("02-second", vec!["01-first"]),
    ]));

    assert!(!report.is_valid());
    assert!(report.findings.iter().any(|f| f.kind == "dependency"));
    assert!(report.order.is_empty());
}

#[test]
fn a_malformed_job_toml_is_reported_and_does_not_cascade() {
    let mut s = workflow(vec![("02-second", vec!["01-first"])]);
    if let Ok(jobs) = &mut s.jobs {
        jobs[1].meta = Err("missing field `description`".to_string());
    }
    s.scripts = scripts(&["01-first"]);

    let report = validate_workflow(&s);

    let jobs = of_kind(&report, "job");
    assert_eq!(jobs.len(), 1, "{:?}", report.findings);
    assert_eq!(jobs[0].job.as_deref(), Some("02-second"));
    assert_eq!(jobs[0].file.as_deref(), Some("02-second/.chiral/job.toml"));
}

#[test]
fn a_params_file_naming_an_unknown_parameter_is_reported() {
    let mut s = workflow(vec![("02-second", vec!["01-first"])]);
    if let Ok(jobs) = &mut s.jobs {
        jobs[0].params = Ok(Some(ParamsFile {
            values: vec![(
                "cutoff".to_string(),
                JsonValue::Number(JsonNumber::Float(2.0f64.to_bits())),
            )],
            texts: vec!["2.0".to_string()],
        }));
    }

    let report = validate_workflow(&s);

    let params = of_kind(&report, "params");
    assert_eq!(params.len(), 1, "{:?}", report.findings);
    assert!(params[0].message.contains("cutoff"));
    assert_eq!(params[0].file.as_deref(), Some("01-first/params.json"));
}

#[test]
fn a_params_file_matching_its_definitions_passes() {
    let mut s = workflow(vec![("02-second", vec!["01-first"])]);
    if let Ok(jobs) = &mut s.jobs {
        jobs[0].params = Ok(Some(ParamsFile {
            values: vec![(
                "threshold".to_string(),
                JsonValue::Number(JsonNumber::Float(2.5f64.to_bits())),
            )],
            texts: vec!["2.5".to_string()],
        }));
    }

    let report = validate_workflow(&s);

    assert!(report.is_valid(), "{:?}", report.findings);
}

#[test]
fn missing_input_files_folder_is_reported() {
    let mut s = workflow(vec![("02-second", vec!["01-first"])]);
    s.input_files_present = false;

    let report = validate_workflow(&s);

    assert!(report.findings.iter().any(|f| f.kind == "inputs"));
}

#[test]
fn a_folder_with_no_jobs_is_reported() {
    let mut s = workflow(vec![]);
    s.jobs = Ok(vec![]);

    let report = validate_workflow(&s);

    assert!(!report.is_valid());
    assert!(report.jobs.is_empty());
}

#[test]
fn a_path_that_does_not_exist_is_reported_rather_than_panicking() {
    let s = WorkflowSnapshot {
        path: "/nonexistent/workflow/folder".to_string(),
        access: Err("No such file or directory (os error 2)".to_string()),
        metadata: Ok(None),
        jobs: Ok(vec![]),
        workflow_params: None,
        scripts: vec![],
        input_files_present: false,
    };
    let report = validate_workflow(&s);
    assert!(!report.is_valid());
    assert_eq!(report.findings[0].kind, "workflow");
    assert_eq!(
        report.findings[0].message,
        "Cannot read /nonexistent/workflow/folder: No such file or directory (os error 2)"
    );
}

#[test]
fn render_names_the_order_or_the_problems() {
    let report = validate_workflow(&workflow(vec![("02-second", vec!["01-first"])]));
    assert_eq!(
        report.render(),
        "Test: 2 job(s) ok\nExecution order: 01-first -> 02-second\n"
    );

    let report = validate_workflow(&workflow(vec![("02-second", vec!["01-missing"])]));
    assert_eq!(
        report.render(),
        "1 problem(s) found:\n\n  dependency [.chiral/workflow.toml]: Job '02-second' depends on '01-missing', which is not a job folder here.\n"
    );
}

#[test]
fn render_indents_continuation_lines() {
    let report = Report {
        workflow_name: None,
        jobs: vec![],
        order: vec![],
        findings: vec![Finding::new("script", "first\nsecond\n\n".to_string())
            .in_job("01".to_string())],
    };
    assert_eq!(report.render(), "1 problem(s) found:\n\n  script [01]: first\n    second\n");
}
