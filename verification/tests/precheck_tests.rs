use silva::job_config::workflow::WorkflowMeta;
use silva::precheck::{
    line_has_install_command,
    check_cross_node_references, check_input_files_folder, check_install_commands, script_names,
    ScriptText,
};
use silva::workflow::job_folder::JobFolder;

/// The run script of a job, as a job folder created with that script holds it.
fn run_script(name: &str, run_sh: &str) -> ScriptText {
    ScriptText {
        job_name: name.to_string(),
        script_name: "run.sh".to_string(),
        content: Some(run_sh.to_string()),
    }
}

fn job(name: &str) -> JobFolder {
    JobFolder::new(name.to_string(), format!("/w/{name}"))
}

#[test]
fn test_clean_scripts_pass() {
    let job = run_script("01-clean", "#!/bin/bash\npython main.py\n");
    assert!(check_install_commands(&vec![job]).is_ok());
}

#[test]
fn test_pip_install_detected() {
    let job = run_script("01-bad", "#!/bin/bash\npip install pandas\npython main.py\n");
    let err = check_install_commands(&vec![job]).unwrap_err();
    assert!(err.contains("pip install pandas"));
    assert!(err.contains("[01-bad]"));
    assert!(err.contains("run.sh:2"));
}

#[test]
fn test_pip_install_multiple_spaces() {
    let job = run_script("01-spaces", "#!/bin/bash\npip   install   pandas\n");
    let err = check_install_commands(&vec![job]).unwrap_err();
    assert!(err.contains("[01-spaces]"));
}

#[test]
fn test_pip_install_with_tabs() {
    let job = run_script("01-tabs", "#!/bin/bash\npip\t\tinstall\tpandas\n");
    let err = check_install_commands(&vec![job]).unwrap_err();
    assert!(err.contains("[01-tabs]"));
}

#[test]
fn test_apt_get_detected() {
    let job = run_script("01-apt", "#!/bin/bash\napt-get install -y curl\n");
    let err = check_install_commands(&vec![job]).unwrap_err();
    assert!(err.contains("apt-get install"));
}

#[test]
fn test_apk_add_detected() {
    let job = run_script("01-apk", "#!/bin/bash\napk  add  git\n");
    let err = check_install_commands(&vec![job]).unwrap_err();
    assert!(err.contains("[01-apk]"));
}

#[test]
fn test_comments_ignored() {
    let job = run_script("01-commented", "#!/bin/bash\n# pip install pandas\npython main.py\n");
    assert!(check_install_commands(&vec![job]).is_ok());
}

#[test]
fn test_multiple_violations_listed() {
    let job1 = run_script("01-a", "#!/bin/bash\npip install pandas\n");
    let job2 = run_script("02-b", "#!/bin/bash\nconda install numpy\n");
    let err = check_install_commands(&vec![job1, job2]).unwrap_err();
    assert!(err.contains("[01-a]"));
    assert!(err.contains("[02-b]"));
    assert!(err.contains("conda install"));
}

#[test]
fn install_report_reads_in_full() {
    let job = run_script("01-bad", "  pip install x  \r\nok\n");
    let err = check_install_commands(&vec![job]).unwrap_err();
    assert_eq!(
        err,
        "Install commands found in workflow scripts.\n\
         Dependencies must be pre-baked into Docker images.\n\
         \n  [01-bad] run.sh:1 — pip install x\
         \n\nFix: Move install commands into Dockerfiles and rebuild the images."
    );
}

#[test]
fn install_words_must_be_whole_and_adjacent() {
    let job = run_script("01", "pipx install a\npip  --user install b\necho pip install\n");
    let err = check_install_commands(&vec![job]).unwrap_err();
    assert!(err.contains("run.sh:3"));
    assert!(!err.contains("run.sh:1"));
    assert!(!err.contains("run.sh:2"));
}

#[test]
fn unreadable_scripts_are_not_checked() {
    let s = ScriptText {
        job_name: "01".to_string(),
        script_name: "pre_run.sh".to_string(),
        content: None,
    };
    assert!(check_install_commands(&vec![s]).is_ok());
}

fn meta_no_deps() -> WorkflowMeta {
    WorkflowMeta::new("test".to_string(), "test workflow".to_string())
}

fn meta_with_deps(deps: Vec<(&str, Vec<&str>)>) -> WorkflowMeta {
    let mut meta = WorkflowMeta::new("test".to_string(), "test workflow".to_string());
    for (job, dep_list) in deps {
        meta.set_job_dependencies(job.to_string(), dep_list.into_iter().map(String::from).collect());
    }
    meta
}

#[test]
fn test_input_files_present_passes() {
    let meta = meta_no_deps();
    assert!(check_input_files_folder("/w", &[job("01-ingest")], &meta, true).is_ok());
}

#[test]
fn test_input_files_missing_errors() {
    let meta = meta_no_deps();
    let err = check_input_files_folder("/w", &[job("01-ingest")], &meta, false).unwrap_err();
    assert!(err.contains("No 'input_files/' folder found"));
    assert!(err.contains("[01-ingest]"));
}

#[test]
fn test_input_files_not_needed_when_all_have_deps() {
    let meta = meta_with_deps(vec![("02-analysis", vec!["01-prep"])]);
    // No input_files/ folder, but all jobs have dependencies: should pass
    assert!(check_input_files_folder("/w", &[job("02-analysis")], &meta, false).is_ok());
}

#[test]
fn test_input_files_missing_lists_multiple_jobs() {
    let meta = meta_no_deps();
    let err = check_input_files_folder("/w", &[job("01-a"), job("01-b")], &meta, false).unwrap_err();
    assert!(err.contains("[01-a]"));
    assert!(err.contains("[01-b]"));
    assert_eq!(
        err,
        "No 'input_files/' folder found, but dependency-free jobs exist:\n\
         \n  [01-a], [01-b]\n\n\
         Fix: Create /w/input_files/ with the data these jobs need."
    );
}

#[test]
fn test_no_cross_node_refs_passes() {
    let job = run_script("02-analysis", "#!/bin/bash\ncp inputs/data.csv .\npython main.py\n");
    assert!(check_cross_node_references(&vec![job]).is_ok());
}

#[test]
fn test_cross_node_ref_detected() {
    let job = run_script(
        "02-analysis",
        "#!/bin/bash\ncp ../01-prep/outputs/result.csv .\npython main.py\n",
    );
    let err = check_cross_node_references(&vec![job]).unwrap_err();
    assert!(err.contains("[02-analysis]"));
    assert!(err.contains("../01-prep/outputs/result.csv"));
    assert!(err.contains("run.sh:2"));
}

#[test]
fn test_cross_node_ref_in_comment_ignored() {
    let job = run_script("02-analysis", "#!/bin/bash\n# cp ../01-prep/output.csv .\npython main.py\n");
    assert!(check_cross_node_references(&vec![job]).is_ok());
}

#[test]
fn test_cross_node_ref_multiple_violations() {
    let job1 = run_script("02-analysis", "#!/bin/bash\ncp ../01-prep/outputs/result.csv .\n");
    let job2 = run_script("03-report", "#!/bin/bash\ncat ../02-analysis/outputs/summary.txt\n");
    let err = check_cross_node_references(&vec![job1, job2]).unwrap_err();
    assert!(err.contains("[02-analysis]"));
    assert!(err.contains("[03-report]"));
}

#[test]
fn script_names_fall_back_to_defaults() {
    assert_eq!(script_names(None), vec!["pre_run.sh", "run.sh", "post_run.sh"]);
    let meta = silva::job_config::job::JobMeta::new(
        "j".to_string(),
        "d".to_string(),
        silva::job_config::job::Container::new("a".to_string()),
    );
    assert_eq!(script_names(Some(&meta)), vec!["./pre_run.sh", "./run.sh", "./post_run.sh"]);
}

#[test]
fn install_commands_on_one_line() {
    assert!(line_has_install_command("pip\t\tinstall\tpandas"));
    assert!(line_has_install_command("sudo apt-get install -y curl"));
    assert!(line_has_install_command("apk add bash"));
    assert!(line_has_install_command("pip3  install numpy"));
    assert!(!line_has_install_command("install pip"));
    assert!(!line_has_install_command("pip-install x"));
    assert!(!line_has_install_command("echo pip"));
    assert!(!line_has_install_command(""));
}
