use silva::job_config::job::{Container, JobMeta};
use silva::workflow::apps::{
    apps_from_dirs, apps_to_build, derive_image_tag, discover_apps, referenced_images, LocalApp,
};
use silva::workflow::home::{WorkflowHome, WorkflowHomeError};
use silva::workflow::job::Job;
use silva::workflow::job_folder::{JobCandidate, JobError, JobFolder, JobListing, JobScanner};
use silva::workflow::manager::{
    already_exists, DirEntryInfo, HomeListing, WorkflowError, WorkflowManager,
};
use silva::workflow::workflow_folder::WorkflowFolder;

#[test]
fn test_job_new() {
    let path = "/tmp/test_job".to_string();
    let job = Job::new("test_job".to_string(), path.clone());

    assert_eq!(job.name, "test_job");
    assert_eq!(job.path, path);
    assert_eq!(job.config_path, "/tmp/test_job/@job.toml");
}

#[test]
fn test_job_folder_new() {
    let path = "/tmp/test_job".to_string();
    let job = JobFolder::new("test_job".to_string(), path.clone());

    assert_eq!(job.name, "test_job");
    assert_eq!(job.path, path);
    assert_eq!(job.config_path, "/tmp/test_job/.chiral/job.toml");
}

#[test]
fn test_workflow_folder_created_display_none() {
    let workflow = WorkflowFolder::new("test".to_string(), "/test".to_string(), None);

    assert_eq!(workflow.created_display(), "Unknown");
}

#[test]
fn test_workflow_folder_created_display() {
    let now: u128 = 1_700_000_000_000_000_000;
    let workflow = WorkflowFolder::new("test".to_string(), "/test".to_string(), Some(now));
    let display = workflow.created_display();
    assert!(display.contains("ago") || display == "0s ago");
}

#[test]
fn created_display_units() {
    let s: u128 = 1_000_000_000;
    let w = WorkflowFolder::new("w".to_string(), "/w".to_string(), Some(10 * s));
    assert_eq!(w.created_display_at(10 * s), "0s ago");
    assert_eq!(w.created_display_at(69 * s), "59s ago");
    assert_eq!(w.created_display_at(70 * s), "1m ago");
    assert_eq!(w.created_display_at(10 * s + 3600 * s), "1h ago");
    assert_eq!(w.created_display_at(10 * s + 2 * 86400 * s + 5), "2d ago");
    // A clock behind the creation time reads as just now.
    assert_eq!(w.created_display_at(0), "0s ago");
}

#[test]
fn workflow_folder_paths() {
    let w = WorkflowFolder::new("w".to_string(), "/home/w".to_string(), None);
    assert_eq!(w.chiral_dir(), "/home/w/.chiral");
    assert_eq!(w.workflow_metadata_path(), "/home/w/.chiral/workflow.toml");
    assert_eq!(w.workflow_params_path(), "/home/w/global_params.json");
}

// --- tag derivation ---

#[test]
fn test_derive_single_word_name() {
    assert_eq!(
        derive_image_tag("p2rank_2026_07_10").unwrap(),
        "p2rank:2026_07_10"
    );
}

#[test]
fn test_derive_multi_word_name_keeps_underscores() {
    assert_eq!(
        derive_image_tag("admet_pipeline_2026_06_02").unwrap(),
        "admet_pipeline:2026_06_02"
    );
    assert_eq!(
        derive_image_tag("solubility_pipeline_2026_06_05").unwrap(),
        "solubility_pipeline:2026_06_05"
    );
    assert_eq!(
        derive_image_tag("binder_design_2026_06_28").unwrap(),
        "binder_design:2026_06_28"
    );
    assert_eq!(
        derive_image_tag("polymer_md_2026_07_28").unwrap(),
        "polymer_md:2026_07_28"
    );
    assert_eq!(
        derive_image_tag("barrier_films_2026_07_28").unwrap(),
        "barrier_films:2026_07_28"
    );
}

#[test]
fn test_derive_hyphenated_name() {
    assert_eq!(
        derive_image_tag("pipeline-report_2026_07_10").unwrap(),
        "pipeline-report:2026_07_10"
    );
    assert_eq!(
        derive_image_tag("unimol-docking_2026_07_10").unwrap(),
        "unimol-docking:2026_07_10"
    );
    assert_eq!(
        derive_image_tag("pocket-qc_2026_07_10").unwrap(),
        "pocket-qc:2026_07_10"
    );
}

#[test]
fn test_derive_version_suffix_stays_in_tag() {
    assert_eq!(
        derive_image_tag("chai_2026_05_20_v2").unwrap(),
        "chai:2026_05_20_v2"
    );
}

#[test]
fn test_derive_date_parts_do_not_create_a_boundary() {
    assert_eq!(
        derive_image_tag("admet_pipeline_2026_05_31").unwrap(),
        "admet_pipeline:2026_05_31"
    );
}

#[test]
fn test_derive_uses_the_last_boundary() {
    assert_eq!(
        derive_image_tag("run_2020_rerun_2026_01_01").unwrap(),
        "run_2020_rerun:2026_01_01"
    );
}

#[test]
fn test_derive_rejects_names_without_a_date() {
    assert!(derive_image_tag("blast").is_none());
    assert!(derive_image_tag("blast_latest").is_none());
    assert!(derive_image_tag("blast_202").is_none());
    assert!(derive_image_tag("").is_none());
}

#[test]
fn test_derive_rejects_empty_name_or_tag() {
    assert!(derive_image_tag("_2026_07_10").is_none());
    assert!(derive_image_tag("blast_").is_none());
}

// --- discovery and selection ---

fn app_dir(name: &str) -> (String, String) {
    (name.to_string(), format!("/w/apps/{name}/Dockerfile"))
}

#[test]
fn test_discover_no_apps_folder_is_empty() {
    assert!(discover_apps(vec![]).is_empty());
}

#[test]
fn test_discover_finds_apps_with_dockerfile() {
    let apps = discover_apps(vec![app_dir("pocket-qc_2026_07_10"), app_dir("p2rank_2026_07_10")]);
    assert_eq!(apps.len(), 2);
    assert_eq!(apps[0].image, "p2rank:2026_07_10");
    assert_eq!(apps[1].image, "pocket-qc:2026_07_10");
    assert!(apps[0].dockerfile.ends_with("p2rank_2026_07_10/Dockerfile"));
}

#[test]
fn test_discover_skips_undated_dirs() {
    assert!(discover_apps(vec![app_dir("scratch")]).is_empty());
}

fn meta_with_image(image: &str) -> JobMeta {
    JobMeta::new(
        "job".to_string(),
        "test".to_string(),
        Container::new(image.to_string()),
    )
}

#[test]
fn test_apps_to_build_only_referenced() {
    let apps = apps_from_dirs(&vec![
        app_dir("admet_pipeline_2026_05_31"),
        app_dir("admet_pipeline_2026_06_02"),
    ]);
    let referenced = referenced_images(&vec![Some(meta_with_image("admet_pipeline:2026_06_02"))]);
    let to_build = apps_to_build(apps, &referenced);
    assert_eq!(to_build.len(), 1);
    assert_eq!(to_build[0].image, "admet_pipeline:2026_06_02");
}

#[test]
fn test_apps_to_build_skips_registry_qualified_images() {
    let apps = apps_from_dirs(&vec![app_dir("p2rank_2026_07_10")]);
    let referenced = referenced_images(&vec![
        Some(meta_with_image("p2rank:2026_07_10")),
        Some(meta_with_image("ghcr.io/chiral-data/boltz:2025_09_05")),
    ]);
    let to_build = apps_to_build(apps, &referenced);
    assert_eq!(to_build.len(), 1);
    assert_eq!(to_build[0].image, "p2rank:2026_07_10");
}

#[test]
fn test_apps_to_build_empty_when_nothing_matches() {
    let apps = apps_from_dirs(&vec![app_dir("p2rank_2026_07_10")]);
    let referenced = referenced_images(&vec![Some(meta_with_image("gromacs:2025_11_12"))]);
    assert!(apps_to_build(apps, &referenced).is_empty());
}

#[test]
fn test_apps_to_build_empty_without_apps_folder() {
    let referenced = referenced_images(&vec![Some(meta_with_image("ubuntu:22.04"))]);
    assert!(apps_to_build(Vec::<LocalApp>::new(), &referenced).is_empty());
}

#[test]
fn unloadable_configs_reference_nothing() {
    let referenced = referenced_images(&vec![None, Some(meta_with_image("a:1")), None]);
    assert_eq!(referenced, vec!["a:1".to_string()]);
}

// --- job scanning ---

fn candidate(name: &str, is_dir: bool, has_config: bool) -> JobCandidate {
    JobCandidate {
        folder: JobFolder::new(name.to_string(), format!("/w/{name}")),
        is_dir,
        has_config,
    }
}

#[test]
fn job_folder_test_scan_jobs_empty_workflow() {
    let jobs = JobScanner::scan_jobs("/w", JobListing::Entries(vec![])).unwrap();
    assert_eq!(jobs.len(), 0);
}

#[test]
fn job_folder_test_scan_jobs_with_jobs() {
    let jobs = JobScanner::scan_jobs(
        "/w",
        JobListing::Entries(vec![
            candidate("job_3", true, true),
            candidate("job_1", true, true),
            candidate("job_2", true, true),
        ]),
    )
    .unwrap();
    assert_eq!(jobs.len(), 3);
    assert_eq!(jobs[0].name, "job_1");
    assert_eq!(jobs[1].name, "job_2");
    assert_eq!(jobs[2].name, "job_3");
}

#[test]
fn job_folder_test_scan_jobs_ignores_folders_without_config() {
    let jobs = JobScanner::scan_jobs(
        "/w",
        JobListing::Entries(vec![candidate("job_1", true, true), candidate("job_2", true, false)]),
    )
    .unwrap();
    assert_eq!(jobs.len(), 1);
    assert_eq!(jobs[0].name, "job_1");
}

#[test]
fn job_folder_test_scan_jobs_ignores_files() {
    let jobs = JobScanner::scan_jobs(
        "/w",
        JobListing::Entries(vec![candidate("job_1", true, true), candidate("file.txt", false, false)]),
    )
    .unwrap();
    assert_eq!(jobs.len(), 1);
}

#[test]
fn job_folder_test_scan_jobs_nonexistent_path() {
    let result = JobScanner::scan_jobs("/nonexistent/path", JobListing::Missing);
    assert!(result.is_err());
    match result.unwrap_err() {
        JobError::InvalidJob(m) => assert!(m.contains("does not exist")),
        _ => panic!("expected InvalidJob"),
    }
}

#[test]
fn job_folder_test_is_job_folder() {
    assert!(!JobScanner::is_job_folder(true, false, false));
    assert!(JobScanner::is_job_folder(true, true, false));
    assert!(!JobScanner::is_job_folder(false, false, false));
    // A legacy `@job.toml` makes a job folder too.
    assert!(JobScanner::is_job_folder(true, false, true));
    assert!(!JobScanner::is_job_folder(false, true, true));
}

// --- home and manager ---

#[test]
fn test_default_home_path() {
    let home = WorkflowHome::new(None).unwrap();
    assert_eq!(home.path(), "./home");
}

#[test]
fn test_home_path_from_env() {
    let test_path = "/tmp/test_silva_home";
    let home = WorkflowHome::new(Some(test_path.to_string())).unwrap();
    assert_eq!(home.path(), test_path);
}

fn entry(name: &str, is_dir: bool) -> DirEntryInfo {
    DirEntryInfo {
        name: name.to_string(),
        path: format!("/home/{name}"),
        is_dir,
        created: None,
    }
}

fn manager() -> WorkflowManager {
    WorkflowManager::new(WorkflowHome::new(Some("/home".to_string())).unwrap())
}

#[test]
fn test_workflow_manager_new() {
    let manager = manager();
    assert_eq!(manager.count(), 0);
    assert!(manager.last_error().is_none());
}

#[test]
fn test_workflow_manager_initialize() {
    let mut manager = manager();
    let result = manager.initialize(Ok(()), HomeListing::Entries(vec![]));
    assert!(result.is_ok());
    let err = manager
        .initialize(
            Err(WorkflowHomeError::NotADirectory("/home".to_string())),
            HomeListing::Entries(vec![]),
        )
        .unwrap_err();
    assert_eq!(err.message(), "Home directory error: Path is not a directory: /home");
}

#[test]
fn test_scan_workflows_empty_directory() {
    let mut manager = manager();
    let result = manager.scan_workflows(HomeListing::Entries(vec![]));
    assert!(result.is_ok());
    assert_eq!(manager.count(), 0);
}

#[test]
fn test_scan_workflows_with_folders() {
    let mut manager = manager();
    let result = manager.scan_workflows(HomeListing::Entries(vec![
        entry("workflow_2", true),
        entry("workflow_3", true),
        entry("workflow_1", true),
    ]));
    assert!(result.is_ok());
    assert_eq!(manager.count(), 3);

    let workflows = manager.get_workflows();
    assert_eq!(workflows[0].name, "workflow_1");
    assert_eq!(workflows[1].name, "workflow_2");
    assert_eq!(workflows[2].name, "workflow_3");
}

#[test]
fn test_scan_workflows_ignores_files() {
    let mut manager = manager();
    let result = manager.scan_workflows(HomeListing::Entries(vec![
        entry("workflow_1", true),
        entry("file.txt", false),
    ]));
    assert!(result.is_ok());
    assert_eq!(manager.count(), 1);
    assert_eq!(manager.get_workflows()[0].name, "workflow_1");
}

#[test]
fn test_refresh_workflows() {
    let mut manager = manager();
    manager.scan_workflows(HomeListing::Entries(vec![])).unwrap();
    assert_eq!(manager.count(), 0);
    manager
        .refresh(HomeListing::Entries(vec![entry("new_workflow", true)]))
        .unwrap();
    assert_eq!(manager.count(), 1);
}

#[test]
fn missing_and_unreadable_homes() {
    let mut manager = manager();
    assert!(manager.scan_workflows(HomeListing::Missing).is_ok());
    assert_eq!(manager.last_error(), Some("Home directory does not exist"));
    let err = manager
        .scan_workflows(HomeListing::Unreadable("denied".to_string()))
        .unwrap_err();
    assert_eq!(err, WorkflowError::ScanError("denied".to_string()));
    assert_eq!(manager.last_error(), Some("Failed to read directory: denied"));
}

#[test]
fn test_create_workflow_sanitizes_name() {
    let manager = manager();
    let (name, path) = manager.new_workflow_target("test workflow!").unwrap();
    assert_eq!(name, "test_workflow_");
    assert_eq!(path, "/home/test_workflow_");
}

#[test]
fn test_create_workflow_empty_name() {
    let manager = manager();
    assert!(manager.new_workflow_target("").is_err());
}

#[test]
fn test_create_workflow_duplicate() {
    let err = already_exists("duplicate");
    assert_eq!(err.message(), "Invalid workflow: Workflow 'duplicate' already exists");
}

#[test]
fn apps_from_dirs_keeps_the_given_order() {
    let apps = apps_from_dirs(&vec![app_dir("zeta_2026_01_01"), app_dir("alpha_2026_01_01")]);
    assert_eq!(apps[0].image, "zeta:2026_01_01");
    assert_eq!(apps[1].image, "alpha:2026_01_01");
    let sorted = discover_apps(vec![app_dir("zeta_2026_01_01"), app_dir("scratch"), app_dir("alpha_2026_01_01")]);
    assert_eq!(sorted.len(), 2);
    assert_eq!(sorted[0].image, "alpha:2026_01_01");
    assert_eq!(sorted[1].image, "zeta:2026_01_01");
}

#[test]
fn a_job_has_a_config_in_either_place() {
    let job = Job::new("j".to_string(), "/w/j".to_string());
    assert!(job.has_config(true, false));
    assert!(job.has_config(false, true));
    assert!(!job.has_config(false, false));
}
