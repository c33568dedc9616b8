use silva::docker::job::JobStatus;
use silva::docker::logs::LogSource;
use silva::events::{status_name, Emission, Emitter, Event, OutputFormat, Stream};
use silva::update::{
    after_prompt, answer_accepts, install_failure_message, opt_out_value, release_update, version_of_tag, UpdateContext,
    UpdateInfo, UpdatePolicy,
};

#[test]
fn container_detail_is_not_part_of_the_reported_status() {
    assert_eq!(
        status_name(&JobStatus::ContainerRunning("abc123".to_string())),
        status_name(&JobStatus::Running)
    );
}

#[test]
fn a_repeated_phase_is_reported_once() {
    let mut emitter = Emitter::new(OutputFormat::Json);
    // `Running` arrives many times per job; a consumer wants the transition.
    assert!(emitter.should_report_phase(0, &JobStatus::Running));
    assert!(!emitter.should_report_phase(0, &JobStatus::Running));
    assert!(emitter.should_report_phase(0, &JobStatus::PullingImage));
    // A different job at the same phase is its own transition.
    assert!(emitter.should_report_phase(1, &JobStatus::PullingImage));
}

#[test]
fn terminal_statuses_are_not_reported_as_phases() {
    let mut emitter = Emitter::new(OutputFormat::Json);
    // The executor sends `Completed` once per script: that is progress,
    // not the job finishing, so it is never a phase event.
    assert!(!emitter.should_report_phase(0, &JobStatus::Completed));
    assert!(!emitter.should_report_phase(0, &JobStatus::Failed));
}

#[test]
fn every_status_has_a_snake_case_name() {
    for status in [
        JobStatus::Idle,
        JobStatus::Pending,
        JobStatus::PullingImage,
        JobStatus::BuildingImage,
        JobStatus::CreatingContainer,
        JobStatus::Running,
        JobStatus::Completed,
        JobStatus::Failed,
    ] {
        let name = status_name(&status);
        assert!(!name.is_empty());
        assert_eq!(name, name.to_lowercase());
        assert!(!name.contains(' '));
    }
}

#[test]
fn emitter_format_is_what_it_was_created_with() {
    assert!(Emitter::new(OutputFormat::Json).is_json());
    assert!(!Emitter::new(OutputFormat::Human).is_json());
}

fn lines_of(e: Emission) -> Vec<(Stream, String)> {
    match e {
        Emission::Lines(v) => v.into_iter().map(|l| (l.stream, l.text)).collect(),
        _ => panic!("expected lines"),
    }
}

#[test]
fn human_job_headers_separate_jobs() {
    let mut emitter = Emitter::new(OutputFormat::Human);
    let first = lines_of(emitter.job_phase("01-a", 0, &JobStatus::Running, 0));
    assert_eq!(first, vec![(Stream::Stdout, "=== Job: 01-a ===".to_string())]);
    assert!(matches!(
        emitter.job_phase("01-a", 0, &JobStatus::Running, 0),
        Emission::Nothing
    ));
    let second = lines_of(emitter.job_phase("02-b", 1, &JobStatus::Running, 0));
    assert_eq!(
        second,
        vec![
            (Stream::Stdout, String::new()),
            (Stream::Stdout, "=== Job: 02-b ===".to_string())
        ]
    );
}

#[test]
fn json_phase_events_carry_the_phase() {
    let mut emitter = Emitter::new(OutputFormat::Json);
    match emitter.job_phase("01-a", 0, &JobStatus::PullingImage, 42) {
        Emission::Event(Event::JobPhase { job, index, status, at }) => {
            assert_eq!(job, "01-a");
            assert_eq!(index, 0);
            assert_eq!(status, "pulling_image");
            assert_eq!(at, 42);
        }
        _ => panic!("expected a phase event"),
    }
    assert!(matches!(
        emitter.job_phase("01-a", 0, &JobStatus::PullingImage, 43),
        Emission::Nothing
    ));
}

#[test]
fn status_lines_and_logs_in_human_mode() {
    let emitter = Emitter::new(OutputFormat::Human);
    assert_eq!(
        lines_of(emitter.job_status_line("01-a", &JobStatus::Failed)),
        vec![(Stream::Stderr, "[01-a] Failed".to_string())]
    );
    assert!(matches!(
        emitter.job_status_line("01-a", &JobStatus::Running),
        Emission::Nothing
    ));
    assert!(matches!(
        emitter.log("01-a", 0, LogSource::Stdout, "", 0),
        Emission::Nothing
    ));
    assert_eq!(
        lines_of(emitter.log("01-a", 0, LogSource::Stderr, "oops", 0)),
        vec![(Stream::Stderr, "oops".to_string())]
    );
}

#[test]
fn workflow_end_in_both_formats() {
    let human = Emitter::new(OutputFormat::Human);
    let lines = lines_of(human.workflow_finished(&Err("Job 'x' failed".to_string()), "/tmp/out"));
    assert_eq!(lines[1], (Stream::Stderr, "Workflow failed: Job 'x' failed".to_string()));
    assert_eq!(lines[3], (Stream::Stdout, "Working folder: /tmp/out".to_string()));
    let json = Emitter::new(OutputFormat::Json);
    match json.workflow_finished(&Ok(()), "/tmp/out") {
        Emission::Event(Event::WorkflowEnded { status, error, output_dir }) => {
            assert_eq!(status, "completed");
            assert!(error.is_none());
            assert_eq!(output_dir, "/tmp/out");
        }
        _ => panic!("expected a workflow event"),
    }
    assert!(matches!(human.job_finished("x", 0, true, None), Emission::Nothing));
}

/// An interactive TUI start on a terminal: the only case that may install.
fn tui_on_a_terminal() -> UpdateContext {
    UpdateContext {
        no_update_flag: false,
        opted_out_by_env: false,
        json: false,
        stdin_is_tty: true,
        is_workflow_run: false,
    }
}

#[test]
fn interactive_only_for_a_tui_start_on_a_terminal() {
    assert_eq!(
        UpdatePolicy::resolve(tui_on_a_terminal()),
        UpdatePolicy::Interactive
    );
}

#[test]
fn a_workflow_run_never_installs_even_on_a_terminal() {
    let ctx = UpdateContext {
        is_workflow_run: true,
        ..tui_on_a_terminal()
    };
    assert_eq!(UpdatePolicy::resolve(ctx), UpdatePolicy::NotifyOnly);
}

/// The reported bug: a scripted run with stdin piped must not reach a prompt.
#[test]
fn a_piped_run_is_disabled_not_merely_unprompted() {
    let ctx = UpdateContext {
        stdin_is_tty: false,
        is_workflow_run: true,
        ..tui_on_a_terminal()
    };
    assert_eq!(UpdatePolicy::resolve(ctx), UpdatePolicy::Disabled);
}

#[test]
fn each_opt_out_disables_the_check_on_its_own() {
    for ctx in [
        UpdateContext {
            no_update_flag: true,
            ..tui_on_a_terminal()
        },
        UpdateContext {
            opted_out_by_env: true,
            ..tui_on_a_terminal()
        },
        UpdateContext {
            json: true,
            ..tui_on_a_terminal()
        },
        UpdateContext {
            stdin_is_tty: false,
            ..tui_on_a_terminal()
        },
    ] {
        assert_eq!(
            UpdatePolicy::resolve(ctx),
            UpdatePolicy::Disabled,
            "expected Disabled for {ctx:?}"
        );
    }
}

#[test]
fn update_context_new_keeps_its_facts() {
    let ctx = UpdateContext::new(false, false, true, false, true);
    assert!(ctx.is_workflow_run);
    assert!(ctx.stdin_is_tty);
    assert!(!ctx.json);
}

#[test]
fn test_version_comparison() {
    // A newer release is offered; the same version is not.
    let newer = release_update("0.3.8", "v0.4.0", "https://example.org/r").unwrap();
    let info = newer.expect("0.4.0 is newer than 0.3.8");
    assert_eq!(info.latest_version, "0.4.0");
    assert_eq!(info.current_version, "0.3.8");
    assert!(release_update("0.3.8", "v0.3.8", "u").unwrap().is_none());
    assert!(release_update("0.4.0", "0.3.8", "u").unwrap().is_none());
}

#[test]
fn invalid_versions_are_reported() {
    let err = release_update("not-a-version", "v1.0.0", "u").unwrap_err();
    assert!(err.starts_with("Invalid current version: "));
    let err = release_update("1.0.0", "vlatest", "u").unwrap_err();
    assert!(err.starts_with("Invalid latest version: "));
}

#[test]
fn tags_lose_every_leading_v() {
    assert_eq!(version_of_tag("v1.2.3"), "1.2.3");
    assert_eq!(version_of_tag("vv1.2.3"), "1.2.3");
    assert_eq!(version_of_tag("1.2.3"), "1.2.3");
}

#[test]
fn opt_out_values() {
    assert!(opt_out_value("1"));
    assert!(opt_out_value(" yes "));
    assert!(!opt_out_value(""));
    assert!(!opt_out_value("  "));
    assert!(!opt_out_value("0"));
    assert!(!opt_out_value("FALSE"));
    assert!(!opt_out_value(" false "));
    assert!(opt_out_value("00"));
}

#[test]
fn prompt_answers() {
    assert!(answer_accepts("\n"));
    assert!(answer_accepts("Y\n"));
    assert!(answer_accepts(" yes "));
    assert!(answer_accepts("YeS"));
    assert!(!answer_accepts("n"));
    assert!(!answer_accepts("yess"));
}

#[test]
fn declining_defers_the_update() {
    let info = UpdateInfo {
        latest_version: "0.5.0".to_string(),
        current_version: "0.4.0".to_string(),
        release_url: "u".to_string(),
    };
    let r = after_prompt(&info, false, false);
    assert!(!r.should_exit);
    assert_eq!(r.deferred_update.as_deref(), Some("0.5.0"));
    let r = after_prompt(&info, true, true);
    assert!(r.should_exit);
    let r = after_prompt(&info, true, false);
    assert!(!r.should_exit && r.deferred_update.is_none());
}

#[test]
fn install_failure_quotes_the_exit_code() {
    assert_eq!(install_failure_message(Some(1)), "Install script failed with exit code: Some(1)");
    assert_eq!(install_failure_message(Some(-2)), "Install script failed with exit code: Some(-2)");
    assert_eq!(install_failure_message(None), "Install script failed with exit code: None");
}

#[test]
fn releases_are_compared_by_semver_order() {
    assert!(release_update("0.9.0", "v0.10.0", "u").unwrap().is_some());
    assert!(release_update("0.10.0", "v0.9.0", "u").unwrap().is_none());
    assert!(release_update("1.0.0-alpha", "v1.0.0", "u").unwrap().is_some());
    assert!(release_update("1.0.0", "v1.0.0-alpha", "u").unwrap().is_none());
}
