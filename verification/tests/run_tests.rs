use silva::job_config::workflow::WorkflowMeta;
use silva::headless::{
    HeadlessPrep, PrepareAction, PrepareEvent, PreparePhase,
    check_run_path, found_jobs, metadata_or_default, temp_copy_failure, topological_sort_jobs,
};
use silva::docker::executor::{
    build_context, build_progress, cleanup_notes, image_id_from_build_line, parse_collected_count,
    startup_check, CollectionLog, DockerAction, DockerError, DockerEvent, ImageCheck, JobResult,
    JobRun, Note,
};
use silva::docker::job::JobStatus;
use silva::docker::logs::{LogLine, LogSource};
use silva::inputs::{CopyAction, CopyEvent, EntryKind, InputCopy};
use silva::job_config::config::{Container, JobConfig};
use silva::run::{
    interface_order, order_note, setback_notes, JobAttempt, RunMonitor, RunStyle, Setback, WorkflowRun,
};
use silva::workflow::job_folder::{JobFolder, JobListing, JobScanner};

fn texts(notes: &[Note]) -> Vec<String> {
    notes.iter().map(|n| n.text.clone()).collect()
}

fn s(v: &[&str]) -> Vec<String> {
    v.iter().map(|x| x.to_string()).collect()
}

fn image_config(url: &str) -> JobConfig {
    JobConfig::new(Container::DockerImage(url.to_string()))
}

#[test]
fn job_test_scan_jobs_nonexistent_path() {
    let result = JobScanner::scan_jobs("/nonexistent/path", JobListing::Missing);
    assert!(result.is_err());
}

#[test]
fn docker_error_messages() {
    assert_eq!(DockerError::BollardError("down".into()).message(), "Docker API error: down");
    assert_eq!(DockerError::ImageBuildFailed("x".into()).message(), "Image build failed: x");
    assert_eq!(DockerError::ContainerCreateFailed("x".into()).message(), "Container creation failed: x");
    assert_eq!(DockerError::ContainerStartFailed("x".into()).message(), "Container start failed: x");
    assert_eq!(
        DockerError::ScriptExecutionFailed { script: "run.sh".into(), exit_code: -3 }.message(),
        "Script 'run.sh' failed with exit code -3"
    );
    assert_eq!(DockerError::LogStreamError("x".into()).message(), "Log streaming error: x");
    assert_eq!(DockerError::NoContainerId.message(), "No container ID available");
    assert_eq!(DockerError::IoError("x".into()).message(), "IO error: x");
    assert_eq!(
        DockerError::ChannelSendMessageError("x".into()).message(),
        "MPSC channel send message error: x"
    );
}

#[test]
fn a_pulled_image_runs_its_scripts_in_a_new_container() {
    let mut registry: Vec<(String, String)> = Vec::new();
    let (mut run, notes, action) = JobRun::start("wf", "/tmp/wf", "job1", image_config("ubuntu:22.04"));
    assert_eq!(texts(&notes), s(&["Pulling image: ubuntu:22.04"]));
    assert_eq!(notes[0].status, JobStatus::PullingImage);
    assert!(matches!(action, DockerAction::PullImage { ref image } if image == "ubuntu:22.04"));

    let (notes, action) = run.advance(DockerEvent::Pulled(Ok(())), &mut registry);
    assert_eq!(texts(&notes), s(&["Creating container with image: ubuntu:22.04"]));
    match action {
        DockerAction::CreateContainer { image, use_gpu, bind, working_dir } => {
            assert_eq!(image, "ubuntu:22.04");
            assert!(!use_gpu);
            assert_eq!(bind, "/tmp/wf:/workspace");
            assert_eq!(working_dir, "/workspace");
        }
        other => panic!("unexpected {other:?}"),
    }

    let (notes, action) = run.advance(DockerEvent::Created(Ok("c1".into())), &mut registry);
    assert_eq!(texts(&notes), s(&["Container created: c1, binding /tmp/wf to /workspace"]));
    assert!(matches!(action, DockerAction::StartContainer { ref container_id } if container_id == "c1"));

    let (notes, action) = run.advance(DockerEvent::Started(Ok(())), &mut registry);
    assert_eq!(texts(&notes), s(&["Waiting for Container c1 running ... "]));
    assert!(matches!(action, DockerAction::WaitUntilRunning { timeout_secs: 30, .. }));

    let (notes, action) = run.advance(DockerEvent::Ready(Ok(())), &mut registry);
    assert_eq!(
        texts(&notes),
        s(&["Now container c1 is running ... ", "Container started and ready"])
    );
    assert_eq!(notes[0].status, JobStatus::ContainerRunning("c1".into()));
    assert_eq!(registry, vec![("ubuntu:22.04".to_string(), "c1".to_string())]);
    assert!(matches!(action, DockerAction::CheckScript { ref path } if path == "/tmp/wf/job1/./pre_run.sh"));

    let (notes, action) = run.advance(DockerEvent::ScriptFound(false), &mut registry);
    assert_eq!(
        texts(&notes),
        s(&["Script ./pre_run.sh not found ... skip", "Executing script: ./run.sh"])
    );
    match action {
        DockerAction::ExecScript { container_id, working_dir, script } => {
            assert_eq!(container_id, "c1");
            assert_eq!(working_dir, "/workspace/job1");
            assert_eq!(script, "./run.sh");
        }
        other => panic!("unexpected {other:?}"),
    }

    let (notes, action) = run.advance(DockerEvent::ScriptExited(Ok(0)), &mut registry);
    assert_eq!(texts(&notes), s(&["Script ./run.sh completed successfully"]));
    assert!(matches!(action, DockerAction::CheckScript { ref path } if path == "/tmp/wf/job1/./post_run.sh"));

    let (notes, action) = run.advance(DockerEvent::ScriptFound(true), &mut registry);
    assert_eq!(texts(&notes), s(&["Executing script: ./post_run.sh"]));
    assert!(matches!(action, DockerAction::ExecScript { .. }));

    let (notes, action) = run.advance(DockerEvent::ScriptExited(Ok(0)), &mut registry);
    assert_eq!(
        texts(&notes),
        s(&[
            "Script ./post_run.sh completed successfully",
            "Job completed, container c1 will be cleaned up after workflow finishes",
        ])
    );
    assert!(matches!(action, DockerAction::Finish(Ok(ref id)) if id == "c1"));
    assert!(run.is_done());
}

#[test]
fn a_container_made_for_the_image_is_reused() {
    let mut registry = vec![("ubuntu:22.04".to_string(), "c9".to_string())];
    let (mut run, _, _) = JobRun::start("wf", "/tmp/wf", "job2", image_config("ubuntu:22.04"));
    let (notes, action) = run.advance(DockerEvent::Pulled(Ok(())), &mut registry);
    assert_eq!(texts(&notes), s(&["Reusing existing container c9 for image ubuntu:22.04"]));
    assert!(matches!(action, DockerAction::CheckScript { .. }));
    assert_eq!(registry.len(), 1);
}

#[test]
fn a_failing_script_ends_the_run_without_collecting_outputs() {
    let mut config = image_config("alpine");
    config.outputs = vec!["*.csv".to_string()];
    let mut registry = vec![("alpine".to_string(), "c2".to_string())];
    let (mut run, _, _) = JobRun::start("wf", "/w", "j", config);
    run.advance(DockerEvent::Pulled(Ok(())), &mut registry);
    run.advance(DockerEvent::ScriptFound(false), &mut registry);
    let (notes, action) = run.advance(DockerEvent::ScriptExited(Ok(2)), &mut registry);
    assert_eq!(
        texts(&notes),
        s(&[
            "Script ./run.sh failed with exit code 2",
            "Job completed, container c2 will be cleaned up after workflow finishes",
        ])
    );
    assert_eq!(notes[0].status, JobStatus::Failed);
    assert_eq!(notes[0].source, LogSource::Stderr);
    assert!(matches!(action, DockerAction::Finish(Ok(ref id)) if id == "c2"));
}

#[test]
fn outputs_are_collected_after_the_scripts() {
    let mut config = image_config("alpine");
    config.outputs = vec!["*.csv".to_string()];
    let mut registry = vec![("alpine".to_string(), "c3".to_string())];
    let (mut run, _, _) = JobRun::start("wf", "/w", "j", config);
    run.advance(DockerEvent::Pulled(Ok(())), &mut registry);
    run.advance(DockerEvent::ScriptFound(false), &mut registry);
    run.advance(DockerEvent::ScriptExited(Ok(0)), &mut registry);
    let (notes, action) = run.advance(DockerEvent::ScriptFound(false), &mut registry);
    assert_eq!(
        texts(&notes),
        s(&["Script ./post_run.sh not found ... skip", "Collecting output files..."])
    );
    match action {
        DockerAction::CollectOutputs { container_id, working_dir, script } => {
            assert_eq!(container_id, "c3");
            assert_eq!(working_dir, "/workspace/j");
            assert!(script.starts_with("mkdir -p outputs\nfile_count=0\n"));
            assert!(script.contains("matched_files=(*.csv)\n"));
            assert!(script.contains("  echo 'Pattern \"*.csv\" matched no files'\n"));
            assert!(script.ends_with("echo \"Total files collected: $file_count\"\nexit 0\n"));
        }
        other => panic!("unexpected {other:?}"),
    }
    let (notes, action) = run.advance(DockerEvent::Collected(Ok(3)), &mut registry);
    assert_eq!(
        texts(&notes),
        s(&[
            "Collected 3 output file(s) to outputs/ folder",
            "Job completed, container c3 will be cleaned up after workflow finishes",
        ])
    );
    assert!(matches!(action, DockerAction::Finish(Ok(_))));
}

#[test]
fn a_dockerfile_image_is_built_when_missing() {
    let mut registry: Vec<(String, String)> = Vec::new();
    let config = JobConfig::new(Container::DockerFile("Dockerfile".into()));
    let (mut run, notes, action) = JobRun::start("wf", "/w", "job1", config);
    assert!(notes.is_empty());
    assert!(matches!(action, DockerAction::InspectImage { ref tag } if tag == "wf_job1:latest"));
    let (notes, action) = run.advance(DockerEvent::Inspected(ImageCheck::Missing), &mut registry);
    assert_eq!(texts(&notes), s(&["Building image from: \"/w/job1/Dockerfile\""]));
    match action {
        DockerAction::BuildImage { image_name, dockerfile } => {
            assert_eq!(image_name, "wf_job1");
            assert_eq!(dockerfile, "/w/job1/Dockerfile");
        }
        other => panic!("unexpected {other:?}"),
    }
    let (notes, action) = run.advance(DockerEvent::Built(Ok("sha1".into())), &mut registry);
    assert_eq!(
        texts(&notes),
        s(&[
            "Building image complete with image id: sha1",
            "Creating container with image: wf_job1:latest",
        ])
    );
    assert!(matches!(action, DockerAction::CreateContainer { .. }));
}

#[test]
fn an_existing_dockerfile_image_is_not_rebuilt() {
    let mut registry: Vec<(String, String)> = Vec::new();
    let mut config = JobConfig::new(Container::DockerFile("Dockerfile".into()));
    config.use_gpu = true;
    let (mut run, _, _) = JobRun::start("wf", "/w", "job1", config);
    let (notes, action) = run.advance(DockerEvent::Inspected(ImageCheck::Exists), &mut registry);
    assert_eq!(
        texts(&notes),
        s(&[
            "docker image wf_job1 exists, skip building, remove the image to rebuild ...",
            "Creating container with image: wf_job1:latest",
            "GPU support enabled for this container",
        ])
    );
    assert!(matches!(action, DockerAction::CreateContainer { use_gpu: true, .. }));
}

#[test]
fn engine_failures_end_the_run_with_an_error() {
    let mut registry: Vec<(String, String)> = Vec::new();
    let config = JobConfig::new(Container::DockerFile("Dockerfile".into()));
    let (mut run, _, _) = JobRun::start("wf", "/w", "job1", config);
    let (notes, action) = run.advance(DockerEvent::Inspected(ImageCheck::Failed("boom".into())), &mut registry);
    assert!(notes.is_empty());
    match action {
        DockerAction::Finish(Err(e)) => assert_eq!(e.message(), "Image build failed: inspect image wf_job1 error: boom"),
        other => panic!("unexpected {other:?}"),
    }

    let (mut run, _, _) = JobRun::start("wf", "/w", "j", image_config("alpine"));
    run.advance(DockerEvent::Pulled(Ok(())), &mut registry);
    let (_, action) = run.advance(DockerEvent::Created(Err("no space".into())), &mut registry);
    assert!(matches!(action, DockerAction::Finish(Err(DockerError::ContainerCreateFailed(ref m))) if m == "no space"));
    assert!(!run.accepts(&DockerEvent::Started(Ok(()))));
}

#[test]
fn collected_counts_are_read_from_the_last_line() {
    assert_eq!(parse_collected_count("Total files collected: 3"), Some(3));
    assert_eq!(parse_collected_count("a: b: +12 "), Some(12));
    assert_eq!(parse_collected_count("no colon"), None);
    assert_eq!(parse_collected_count("count: -1"), None);
    assert_eq!(parse_collected_count("count:"), None);

    let mut log = CollectionLog::new();
    assert!(log.absorb(LogSource::Stdout, b"\n").is_none());
    let note = log.absorb(LogSource::Stdout, b"Total files collected: 4\n\n").unwrap();
    assert_eq!(note.text, "Total files collected: 4");
    let _ = log.absorb(LogSource::Stderr, b"warning\n");
    assert_eq!(log.last_line, "Total files collected: 4");
    let (note, count) = log.finish(Some(0));
    assert!(note.is_none());
    assert_eq!(count, Ok(4));

    let log = CollectionLog::new();
    let (note, count) = log.finish(None);
    assert_eq!(note.unwrap().text, "parse file count from -- error");
    assert_eq!(
        count,
        Err(DockerError::ScriptExecutionFailed { script: "output_collection".into(), exit_code: 1 })
    );
}

#[test]
fn waiting_for_a_container_decides_on_its_state() {
    assert_eq!(startup_check(Some(true), None, None, 0, 30), Some(Ok(())));
    assert_eq!(
        startup_check(Some(false), Some(true), None, 0, 30),
        Some(Err(DockerError::ContainerStartFailed("Container died during startup".into())))
    );
    assert_eq!(startup_check(None, None, None, 30_000_000_000, 30), None);
    assert_eq!(
        startup_check(None, None, None, 30_000_000_001, 30),
        Some(Err(DockerError::ContainerStartFailed("Container did not start within 30 seconds".into())))
    );
}

#[test]
fn build_output_gives_the_image_id() {
    assert_eq!(image_id_from_build_line("Successfully built 1a2b3c\n"), Some("1a2b3c".to_string()));
    assert_eq!(image_id_from_build_line("Step 1/3 : FROM ubuntu"), None);
    let mut id = String::new();
    assert!(build_progress(&mut id, Some("Successfully built ff00\n".into()), None).is_ok());
    assert_eq!(id, "ff00");
    assert_eq!(
        build_progress(&mut id, None, Some("failed".into())),
        Err(DockerError::ImageBuildFailed("failed".into()))
    );
    assert_eq!(build_context("/a/b/Dockerfile"), Ok(("/a/b".to_string(), "Dockerfile".to_string())));
    assert!(build_context("/").is_err());
}

#[test]
fn cleanup_reports_every_container() {
    let notes = cleanup_notes(&s(&["c1", "c2"]), &vec![None, Some("gone".into())], &vec![None, None]);
    assert_eq!(
        texts(&notes),
        s(&[
            "Cleaning up 2 container(s)...",
            "Stopped container c1",
            "Removed container c1",
            "Failed to stop container c2: gone",
            "Removed container c2",
            "All containers cleaned up",
        ])
    );
    assert_eq!(notes[3].source, LogSource::Stderr);
    assert!(cleanup_notes(&vec![], &vec![], &vec![]).is_empty());
}

#[test]
fn a_job_result_takes_over_container_and_logs() {
    let mut a = JobResult::default();
    a.logs.push(LogLine::new(LogSource::Stdout, "one".into()));
    let mut b = JobResult::default();
    b.container_id = Some("c1".into());
    b.status = JobStatus::Running;
    b.logs.push(LogLine::new(LogSource::Stdout, "two".into()));
    a.acquire(&mut b);
    assert_eq!(a.container_id, Some("c1".to_string()));
    assert_eq!(a.status, JobStatus::Idle);
    assert_eq!(a.logs.len(), 2);
    assert!(b.container_id.is_none());
    assert!(b.logs.is_empty());
}

#[test]
fn a_headless_run_follows_the_order_and_stops_at_a_failure() {
    let mut run = WorkflowRun::new(RunStyle::Headless, s(&["a", "b", "c"]), vec![2, 0, 1]);
    assert_eq!(run.next_job(), Some(2));
    let out = run.record(JobAttempt::Ran { copy_error: Some("disk".into()), outcome: Ok(()) });
    assert_eq!(out.len(), 1);
    assert_eq!(out[0].0, 2);
    assert_eq!(out[0].1.text, "Warning: Failed to copy input files: disk");
    assert_eq!(run.next_job(), Some(0));
    let out = run.record(JobAttempt::Ran { copy_error: None, outcome: Err("boom".into()) });
    assert_eq!(out[0].1.text, "Job 'a' failed: boom");
    assert_eq!(out[0].1.status, JobStatus::Failed);
    assert_eq!(run.next_job(), None);
    assert_eq!(run.final_status(), (3, JobStatus::Failed));
    assert_eq!(run.outcome(), Err("Workflow failed".to_string()));
}

#[test]
fn the_interface_words_run_messages_its_own_way() {
    let mut run = WorkflowRun::new(RunStyle::Interface, s(&["a"]), vec![0]);
    let out = run.record(JobAttempt::ConfigFailed("bad toml".into()));
    assert_eq!(out[0].1.text, "Load job config error: bad toml");
    assert_eq!(run.final_status(), (1, JobStatus::Completed));

    let mut run = WorkflowRun::new(RunStyle::Interface, s(&["a"]), vec![0]);
    let out = run.record(JobAttempt::Ran { copy_error: None, outcome: Err("x".into()) });
    assert_eq!(out[0].1.text, "docker run job error: x");

    let mut run = WorkflowRun::new(RunStyle::Headless, s(&["a"]), vec![0]);
    let out = run.record(JobAttempt::ConfigFailed("bad".into()));
    assert_eq!(out[0].1.text, "Failed to load config for 'a': bad");
}

#[test]
fn the_monitor_names_jobs_and_records_failures() {
    let mut m = RunMonitor::new(s(&["a", "b"]));
    assert_eq!(m.receive(0, &JobStatus::Running), Some("a".to_string()));
    assert_eq!(m.receive(5, &JobStatus::Running), Some("unknown".to_string()));
    assert_eq!(m.receive(1, &JobStatus::Failed), Some("b".to_string()));
    assert_eq!(m.result, Err("Job 'b' failed".to_string()));
    assert_eq!(m.receive(2, &JobStatus::Completed), None);
    assert!(m.finished);
    assert_eq!(m.result, Err("Job 'b' failed".to_string()));
    let mut m = RunMonitor::new(s(&["a"]));
    m.receive(1, &JobStatus::Failed);
    assert_eq!(m.result, Err("Workflow failed".to_string()));
}

#[test]
fn setbacks_and_the_order_are_reported() {
    let out = setback_notes(3, Setback::Engine("no socket".into()));
    assert_eq!(out.len(), 2);
    assert_eq!((out[0].0, out[0].1.text.as_str()), (0, "Faild to create docker executor: no socket"));
    assert_eq!((out[1].0, out[1].1.text.as_str()), (3, ""));
    let out = setback_notes(3, Setback::TempFolder("denied".into()));
    assert_eq!((out[0].0, out[0].1.text.as_str()), (3, "Create temp dir error: denied"));
    let out = setback_notes(2, Setback::Dependencies("cycle".into()));
    assert_eq!(out[0].1.text, "Dependency error: cycle");
    assert_eq!(order_note(&s(&["a", "b"])).text, "Jobs will execute in dependency order: a → b");
}

fn folders(names: &[&str]) -> Vec<JobFolder> {
    names.iter().map(|n| JobFolder::new(n.to_string(), format!("/w/{n}"))).collect()
}

#[test]
fn the_interface_orders_jobs_from_their_configurations() {
    let jobs = folders(&["a", "b", "c"]);
    let order = interface_order(&jobs, vec![Ok(s(&["b"])), Ok(vec![]), Ok(s(&["a"]))]).unwrap();
    assert_eq!(order, vec![1, 0, 2]);

    let err = interface_order(&jobs, vec![Ok(vec![]), Err("bad".into()), Ok(s(&["zz"]))]).unwrap_err();
    assert_eq!(err, "Failed to load config for job 'b': bad");

    let err = interface_order(&jobs, vec![Ok(s(&["zz"])), Err("bad".into()), Ok(vec![])]).unwrap_err();
    assert_eq!(err, "Job 'a' depends on 'zz', but 'zz' does not exist in the workflow");

    let err = interface_order(&jobs, vec![Ok(s(&["b"])), Ok(s(&["a"])), Ok(vec![])]).unwrap_err();
    assert_eq!(err, "Circular dependency detected involving jobs: a, b");
}

#[test]
fn inputs_are_copied_from_dependency_outputs() {
    let (mut copy, notes, action) = InputCopy::start(
        RunStyle::Interface,
        "/w".into(),
        "b".into(),
        s(&["a", "ghost"]),
        s(&["a", "b"]),
        vec![],
    );
    assert!(notes.is_empty());
    assert!(matches!(action, CopyAction::CheckFolder { ref path } if path == "/w/a/outputs"));
    let (_, action) = copy.advance(CopyEvent::FolderExists(true));
    assert!(matches!(action, CopyAction::ListFolder { ref path } if path == "/w/a/outputs"));
    let (_, action) = copy.advance(CopyEvent::Listed(Ok(s(&["/w/a/outputs/x.csv", "/w/a/outputs/sub"]))));
    assert!(matches!(action, CopyAction::Inspect { ref path } if path == "/w/a/outputs/x.csv"));
    let (_, action) = copy.advance(CopyEvent::Kind(EntryKind::File));
    match action {
        CopyAction::CopyFile { from, to } => {
            assert_eq!(from, "/w/a/outputs/x.csv");
            assert_eq!(to, "/w/b/x.csv");
        }
        other => panic!("unexpected {other:?}"),
    }
    let (notes, action) = copy.advance(CopyEvent::FileCopied(Ok(())));
    assert_eq!(texts(&notes), s(&["Copied file 'x.csv' from 'a'"]));
    assert!(matches!(action, CopyAction::Inspect { ref path } if path == "/w/a/outputs/sub"));
    let (_, action) = copy.advance(CopyEvent::Kind(EntryKind::Folder));
    assert!(matches!(action, CopyAction::CopyFolder { ref to, .. } if to == "/w/b/sub"));
    let (notes, action) = copy.advance(CopyEvent::FolderCopied(Ok(2)));
    assert_eq!(
        texts(&notes),
        s(&[
            "Copied directory 'sub/' (2 file(s)) from 'a'",
            "Warning: Dependency job 'ghost' not found",
            "Copied 2 input file(s) from dependencies",
        ])
    );
    assert_eq!(notes[1].source, LogSource::Stderr);
    assert!(matches!(action, CopyAction::Done));
    assert!(copy.is_done());
    assert_eq!(copy.copied_count(), 2);
}

#[test]
fn a_file_name_is_copied_from_one_dependency_only() {
    let (mut copy, _, _) = InputCopy::start(
        RunStyle::Headless,
        "/w".into(),
        "c".into(),
        s(&["a", "b"]),
        s(&["a", "b", "c"]),
        s(&["*.csv"]),
    );
    let (_, action) = copy.advance(CopyEvent::FolderExists(true));
    assert!(matches!(action, CopyAction::Glob { ref pattern } if pattern == "/w/a/outputs/*.csv"));
    copy.advance(CopyEvent::Globbed(Ok(s(&["/w/a/outputs/r.csv"]))));
    copy.advance(CopyEvent::Kind(EntryKind::File));
    let (notes, action) = copy.advance(CopyEvent::FileCopied(Ok(())));
    assert_eq!(texts(&notes), s(&["Copied 'r.csv' from 'a'"]));
    assert!(matches!(action, CopyAction::CheckFolder { ref path } if path == "/w/b/outputs"));
    copy.advance(CopyEvent::FolderExists(true));
    let (notes, action) = copy.advance(CopyEvent::Globbed(Ok(s(&["/w/b/outputs/r.csv"]))));
    assert_eq!(texts(&notes), s(&["Warning: File 'r.csv' already copied, skipping from 'b'"]));
    assert_eq!(notes[0].source, LogSource::Stdout);
    assert!(matches!(action, CopyAction::Done));
    assert_eq!(copy.copied_count(), 1);
}

#[test]
fn copy_problems_are_reported_and_skipped() {
    let (mut copy, _, _) = InputCopy::start(
        RunStyle::Interface,
        "/w".into(),
        "c".into(),
        s(&["a", "b"]),
        s(&["a", "b", "c"]),
        s(&["*.csv", "*.txt"]),
    );
    let (notes, _) = copy.advance(CopyEvent::FolderExists(false));
    assert_eq!(texts(&notes), s(&["No outputs found for dependency 'a', skipping"]));
    copy.advance(CopyEvent::FolderExists(true));
    let (notes, action) = copy.advance(CopyEvent::Globbed(Err("bad pattern".into())));
    assert_eq!(texts(&notes), s(&["Invalid glob pattern '*.csv': bad pattern"]));
    assert!(matches!(action, CopyAction::Glob { ref pattern } if pattern == "/w/b/outputs/*.txt"));
    copy.advance(CopyEvent::Globbed(Ok(s(&["/w/b/outputs/link.txt"]))));
    let (notes, action) = copy.advance(CopyEvent::Kind(EntryKind::Other));
    assert_eq!(
        texts(&notes),
        s(&["Warning: Skipping 'link.txt' from 'b' (not a regular file or directory)"])
    );
    assert!(matches!(action, CopyAction::Done));
}

#[test]
fn a_run_checks_its_path_first() {
    assert_eq!(
        check_run_path(Err("No such file or directory (os error 2)".to_string()), false),
        Err("Invalid workflow path: No such file or directory (os error 2)".to_string())
    );
    assert_eq!(
        check_run_path(Ok("/w/file.txt".to_string()), false),
        Err("Workflow path is not a directory: /w/file.txt".to_string())
    );
    assert_eq!(
        check_run_path(Ok("/home/me/wf_a".to_string()), true),
        Ok(("/home/me/wf_a".to_string(), "wf_a".to_string()))
    );
    assert_eq!(
        check_run_path(Ok("/".to_string()), true),
        Ok(("/".to_string(), "workflow".to_string()))
    );
}

#[test]
fn a_run_needs_jobs_and_metadata() {
    assert_eq!(
        temp_copy_failure("disk full"),
        "Failed to create temp workflow: disk full"
    );
    assert_eq!(
        found_jobs(Err("Workflow path does not exist: /x".to_string())).unwrap_err(),
        "Failed to scan jobs: Workflow path does not exist: /x"
    );
    assert_eq!(found_jobs(Ok(vec![])).unwrap_err(), "No jobs found in workflow");
    let jobs = found_jobs(Ok(vec![JobFolder::new("a".to_string(), "/t/a".to_string())])).unwrap();
    assert_eq!(jobs.len(), 1);
    let meta = metadata_or_default(None, "wf_a");
    assert_eq!(meta.name, "wf_a");
    assert_eq!(meta.description, "");
    assert!(meta.dependencies.is_empty());
}

#[test]
fn a_dependency_cycle_is_refused() {
    let jobs = vec![
        JobFolder::new("a".to_string(), "/w/a".to_string()),
        JobFolder::new("b".to_string(), "/w/b".to_string()),
    ];
    let mut meta = WorkflowMeta::new("wf".to_string(), String::new());
    meta.set_job_dependencies("a".to_string(), vec!["b".to_string()]);
    meta.set_job_dependencies("b".to_string(), vec!["a".to_string()]);
    assert!(topological_sort_jobs(&jobs, &meta).is_err());
}

fn prepared(jobs: Vec<JobFolder>, meta: Option<WorkflowMeta>) -> (HeadlessPrep, PrepareAction) {
    let (mut prep, first) = HeadlessPrep::start();
    assert!(matches!(first, PrepareAction::ResolvePath));
    match prep.advance(PrepareEvent::Resolved { resolved: Ok("/w/wf_a".to_string()), is_dir: true }) {
        PrepareAction::CopyToTemp { path } => assert_eq!(path, "/w/wf_a"),
        _ => panic!("a directory is copied next"),
    }
    match prep.advance(PrepareEvent::TempCopied(Ok("/tmp/silva_wf_a".to_string()))) {
        PrepareAction::ScanJobs { temp } => assert_eq!(temp, "/tmp/silva_wf_a"),
        _ => panic!("the copy is scanned next"),
    }
    match prep.advance(PrepareEvent::Scanned(Ok(jobs))) {
        PrepareAction::LoadMetadata { path } => assert_eq!(path, "/w/wf_a"),
        _ => panic!("the metadata is read next"),
    }
    let last = prep.advance(PrepareEvent::MetadataLoaded(meta));
    (prep, last)
}

#[test]
fn a_headless_run_checks_everything_before_it_runs() {
    let jobs = vec![
        JobFolder::new("b".to_string(), "/t/b".to_string()),
        JobFolder::new("a".to_string(), "/t/a".to_string()),
    ];
    let mut meta = WorkflowMeta::new("wf".to_string(), String::new());
    meta.set_job_dependencies("b".to_string(), vec!["a".to_string()]);
    let (prep, last) = prepared(jobs, Some(meta));
    assert_eq!(prep.phase, PreparePhase::Ready);
    match last {
        PrepareAction::Run { name, temp, order, meta } => {
            assert_eq!(name, "wf_a");
            assert_eq!(temp, "/tmp/silva_wf_a");
            assert_eq!(order.len(), 2);
            assert_eq!(order[0].name, "a");
            assert_eq!(order[1].name, "b");
            assert_eq!(meta.name, "wf");
        }
        _ => panic!("the jobs run"),
    }

    let (_, last) = prepared(vec![JobFolder::new("a".to_string(), "/t/a".to_string())], None);
    match last {
        PrepareAction::Run { meta, .. } => {
            assert_eq!(meta.name, "wf_a");
            assert_eq!(meta.description, "");
        }
        _ => panic!("without metadata the jobs still run"),
    }
}

#[test]
fn a_headless_run_stops_at_the_first_failed_check() {
    let (mut prep, _) = HeadlessPrep::start();
    match prep.advance(PrepareEvent::Resolved { resolved: Ok("/w/f".to_string()), is_dir: false }) {
        PrepareAction::Fail { message } => {
            assert_eq!(message, "Workflow path is not a directory: /w/f")
        }
        _ => panic!("a file is no workflow"),
    }
    assert_eq!(prep.phase, PreparePhase::Failed);

    let (mut prep, _) = HeadlessPrep::start();
    prep.advance(PrepareEvent::Resolved { resolved: Ok("/w/wf".to_string()), is_dir: true });
    match prep.advance(PrepareEvent::TempCopied(Err("disk full".to_string()))) {
        PrepareAction::Fail { message } => {
            assert_eq!(message, "Failed to create temp workflow: disk full")
        }
        _ => panic!("a failed copy stops the run"),
    }

    let (mut prep, _) = HeadlessPrep::start();
    prep.advance(PrepareEvent::Resolved { resolved: Ok("/w/wf".to_string()), is_dir: true });
    prep.advance(PrepareEvent::TempCopied(Ok("/tmp/x".to_string())));
    match prep.advance(PrepareEvent::Scanned(Ok(vec![]))) {
        PrepareAction::Fail { message } => assert_eq!(message, "No jobs found in workflow"),
        _ => panic!("no jobs stops the run"),
    }

    let jobs = vec![
        JobFolder::new("a".to_string(), "/t/a".to_string()),
        JobFolder::new("b".to_string(), "/t/b".to_string()),
    ];
    let mut meta = WorkflowMeta::new("wf".to_string(), String::new());
    meta.set_job_dependencies("a".to_string(), vec!["b".to_string()]);
    meta.set_job_dependencies("b".to_string(), vec!["a".to_string()]);
    let (prep, last) = prepared(jobs, Some(meta));
    assert_eq!(prep.phase, PreparePhase::Failed);
    match last {
        PrepareAction::Fail { message } => {
            assert_eq!(message, "Circular dependency detected: a, b")
        }
        _ => panic!("a cycle stops the run"),
    }
}

#[test]
fn an_acyclic_graph_always_sorts() {
    let jobs = vec![
        JobFolder::new("c".to_string(), "/w/c".to_string()),
        JobFolder::new("b".to_string(), "/w/b".to_string()),
        JobFolder::new("a".to_string(), "/w/a".to_string()),
    ];
    let mut meta = WorkflowMeta::new("wf".to_string(), String::new());
    meta.set_job_dependencies("c".to_string(), vec!["b".to_string(), "a".to_string()]);
    meta.set_job_dependencies("b".to_string(), vec!["a".to_string()]);
    let sorted = topological_sort_jobs(&jobs, &meta).unwrap();
    let names: Vec<&str> = sorted.iter().map(|j| j.name.as_str()).collect();
    assert_eq!(names, vec!["a", "b", "c"]);
}
