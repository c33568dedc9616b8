use silva::application::{Application, ApplicationCatalog, ApplicationLoader, Requirements, State};
use silva::cli::parse_cli_env_vars;
use silva::dok::{
    api_parse_error, api_reply, bundle_env_var, bundle_task_name, decode_script,
    finished_task_outcome, is_final_status, resolve_run_mode, BundlePrep, PrepAction, PrepEvent,
    PrepPhase,
};
use silva::health_check::{show_value, HealthStatus, State as HealthState};
use silva::keys::Key;

#[test]
fn resolve_run_mode_from_cli_env() {
    let cli = vec!["FOO=bar".to_string(), "RUN_MODE=use_dok".to_string()];
    assert_eq!(resolve_run_mode(&cli, &[], None), Some("use_dok".to_string()));
}

#[test]
fn resolve_run_mode_last_cli_entry_wins() {
    let cli = vec!["RUN_MODE=mock".to_string(), "RUN_MODE=use_gpu".to_string()];
    assert_eq!(resolve_run_mode(&cli, &[], None), Some("use_gpu".to_string()));
}

#[test]
fn resolve_run_mode_absent_returns_none() {
    let cli = vec!["FOO=bar".to_string()];
    assert_eq!(resolve_run_mode(&cli, &[], None), None);
}

#[test]
fn resolve_run_mode_falls_back_to_env_passthrough() {
    let result = resolve_run_mode(&[], &["RUN_MODE".to_string()], Some("use_dok".to_string()));
    assert_eq!(result, Some("use_dok".to_string()));
}

#[test]
fn resolve_run_mode_cli_takes_precedence_over_env_passthrough() {
    let cli = vec!["RUN_MODE=use_dok".to_string()];
    let result = resolve_run_mode(&cli, &["RUN_MODE".to_string()], Some("mock".to_string()));
    assert_eq!(result, Some("use_dok".to_string()));
}

#[test]
fn host_run_mode_is_ignored_unless_passed_through() {
    assert_eq!(resolve_run_mode(&[], &[], Some("mock".to_string())), None);
    let cli = vec!["RUN_MODE_X=1".to_string(), "RUN_MODE".to_string()];
    assert_eq!(resolve_run_mode(&cli, &[], None), None);
    let cli = vec!["RUN_MODE=a=b".to_string()];
    assert_eq!(resolve_run_mode(&cli, &[], None), Some("a=b".to_string()));
}

#[test]
fn dok_task_texts() {
    assert_eq!(bundle_task_name("123"), "silva-dok-bundle-123");
    assert_eq!(bundle_env_var("https://x"), "DOK_BUNDLE_URL=https://x");
    assert!(decode_script("QUJD").contains("base64.b64decode(\"QUJD\")"));
    assert!(is_final_status("done"));
    assert!(is_final_status("canceled"));
    assert!(!is_final_status("running"));
    assert_eq!(
        finished_task_outcome("t1", "error", "oom", None).unwrap_err(),
        "DOK prep task t1 finished with status=error: oom"
    );
    assert_eq!(
        finished_task_outcome("t1", "done", "", None).unwrap_err(),
        "DOK prep task t1 has no artifact"
    );
    assert_eq!(
        finished_task_outcome("t1", "done", "", Some("a9".to_string())).unwrap(),
        "a9"
    );
}

#[test]
fn cli_env_entries_need_a_key() {
    let ok = vec!["A=1".to_string(), "B=".to_string()];
    assert_eq!(parse_cli_env_vars(&ok).unwrap(), ok);
    let bad = vec!["A=1".to_string(), "=x".to_string(), "C".to_string()];
    assert_eq!(
        parse_cli_env_vars(&bad).unwrap_err(),
        "Invalid -e/--env value '=x': expected KEY=VALUE"
    );
}

fn app(id: &str, category: &str, tags: &[&str]) -> Application {
    Application {
        id: id.to_string(),
        name: id.to_uppercase(),
        version: "1".to_string(),
        category: category.to_string(),
        description: String::new(),
        long_description: String::new(),
        base_image: String::new(),
        registry: "ghcr.io/chiral-data/".to_string(),
        image_path: format!("{id}:latest"),
        tags: tags.iter().map(|t| t.to_string()).collect(),
        requirements: Requirements {
            gpu: false,
            memory_gb: 4,
            cuda_version: None,
        },
        documentation_url: String::new(),
    }
}

fn catalog() -> ApplicationCatalog {
    ApplicationCatalog {
        version: "1.0".to_string(),
        last_updated: String::new(),
        applications: vec![
            app("gromacs", "md", &["gpu", "simulation"]),
            app("rdkit", "chem", &["python"]),
            app("openmm", "md", &["python", "gpu"]),
        ],
    }
}

#[test]
fn catalog_lookups() {
    let c = catalog();
    assert_eq!(c.get_by_id("rdkit").unwrap().name, "RDKIT");
    assert!(c.get_by_id("nope").is_none());
    let md: Vec<&str> = c.filter_by_category("md").iter().map(|a| a.id.as_str()).collect();
    assert_eq!(md, vec!["gromacs", "openmm"]);
    let py: Vec<&str> = c.filter_by_tag("python").iter().map(|a| a.id.as_str()).collect();
    assert_eq!(py, vec!["rdkit", "openmm"]);
    let a = &c.applications[0];
    assert_eq!(a.full_image_name(), "ghcr.io/chiral-data/gromacs:latest");
    assert_eq!(a.docker_pull_command(), "docker pull ghcr.io/chiral-data/gromacs:latest");
}

#[test]
fn loader_defaults_to_applications_json() {
    assert_eq!(ApplicationLoader::default().file_path(), "applications.json");
    assert_eq!(ApplicationLoader::new("x.json".to_string()).file_path(), "x.json");
}

#[test]
fn application_tab_navigation() {
    let mut s = State::new(catalog());
    s.handle_input(Key::Up);
    assert_eq!(s.selected_index, 2);
    s.handle_input(Key::Char('j'));
    assert_eq!(s.selected_index, 0);
    s.handle_input(Key::Enter);
    assert!(s.show_popup);
    s.handle_input(Key::Char('d'));
    assert!(!s.show_popup);
    assert_eq!(s.selected_application().unwrap().id, "gromacs");
    let mut empty = State::default();
    empty.select_next();
    assert_eq!(empty.selected_index, 0);
    assert!(empty.selected_application().is_none());
}

#[test]
fn health_items() {
    let mut h = HealthState::default();
    let long = "x".repeat(60);
    h.run_health_checks(
        &vec![
            ("SHELL".to_string(), Some("/bin/bash".to_string())),
            ("SILVA_WORKFLOW_HOME".to_string(), None),
            ("LONG".to_string(), Some(long.clone())),
        ],
        &vec![("docker".to_string(), Some("/usr/bin/docker\n".to_string()))],
    );
    assert_eq!(h.health_checks.len(), 4);
    assert_eq!(h.health_checks[0].name, "Environmental vairables: SHELL");
    assert!(h.health_checks[0].status == HealthStatus::Pass);
    assert_eq!(h.health_checks[1].details, "Not set");
    assert!(h.health_checks[1].status == HealthStatus::Fail);
    assert_eq!(h.health_checks[2].details, format!("{}...", &long[..47]));
    assert_eq!(h.health_checks[3].details, "/usr/bin/docker");
    assert_eq!(show_value("short"), "short");
    let exactly_fifty = "y".repeat(50);
    assert_eq!(show_value(&exactly_fifty), exactly_fifty);
}

#[test]
fn applications_table_rows() {
    let mut state = State::new(catalog());
    state.catalog.applications[2].requirements.gpu = true;
    state.selected_index = 1;
    let table = state.applications_table();
    assert_eq!(table.title, "Available Applications (3)");
    assert_eq!(table.rows.len(), 3);
    assert_eq!(table.rows[0].name, "GROMACS");
    assert_eq!(table.rows[0].category, "md");
    assert_eq!(table.rows[0].version, "1");
    assert_eq!(table.rows[0].gpu, "  ");
    assert!(!table.rows[0].selected);
    assert!(table.rows[1].selected);
    assert_eq!(table.rows[2].gpu, "🎮");
}

#[test]
fn application_detail_lines() {
    let mut a = app("gromacs", "md", &["gpu", "simulation"]);
    a.long_description = "Molecular dynamics.".to_string();
    a.base_image = "ubuntu:22.04".to_string();
    a.documentation_url = "https://example.org".to_string();
    let lines = a.detail_lines();
    assert_eq!(lines.len(), 22);
    assert_eq!(lines[0], "Name: GROMACS");
    assert_eq!(lines[2], "Category: md");
    assert_eq!(lines[3], "Version: 1");
    assert_eq!(lines[6], "Molecular dynamics.");
    assert_eq!(lines[9], "  Base Image: ubuntu:22.04");
    assert_eq!(lines[10], "  Registry: ghcr.io/chiral-data/gromacs:latest");
    assert_eq!(lines[13], "  GPU Required: No");
    assert_eq!(lines[14], "  Memory: 4 GB");
    assert_eq!(lines[16], "Tags: gpu, simulation");
    assert_eq!(lines[19], "  docker pull ghcr.io/chiral-data/gromacs:latest");
    assert_eq!(lines[21], "Documentation: https://example.org");
    assert_eq!(a.details_title(), " GROMACS - Details ");

    a.requirements.gpu = true;
    a.requirements.cuda_version = Some("12.2".to_string());
    let lines = a.detail_lines();
    assert_eq!(lines.len(), 23);
    assert_eq!(lines[13], "  GPU Required: Yes");
    assert_eq!(lines[15], "  CUDA Version: 12.2");
    assert_eq!(lines[17], "Tags: gpu, simulation");
}

#[test]
fn health_rows_show_each_check() {
    let mut h = HealthState::default();
    let rows = h.health_rows();
    assert_eq!(rows.len(), 1);
    assert_eq!(rows[0].icon, "🔄");
    assert_eq!(rows[0].label, " Running health checks...");
    h.run_health_checks(
        &vec![
            ("SHELL".to_string(), Some("/bin/zsh".to_string())),
            ("SILVA_WORKFLOW_HOME".to_string(), None),
        ],
        &vec![],
    );
    let rows = h.health_rows();
    assert_eq!(rows.len(), h.health_checks.len());
    assert_eq!(rows[0].icon, "✅");
    assert_eq!(rows[0].label, format!(" {}: ", h.health_checks[0].name));
    assert_eq!(rows[0].details, h.health_checks[0].details);
    assert_eq!(rows[1].icon, "❌");
}

fn polled(status: &str, artifact: Option<&str>, past_deadline: bool) -> PrepEvent {
    PrepEvent::Polled {
        status: status.to_string(),
        error_message: String::new(),
        artifact_id: artifact.map(|a| a.to_string()),
        past_deadline,
    }
}

#[test]
fn bundle_prep_goes_from_submit_to_download() {
    let (mut prep, first) = BundlePrep::start("QUJD", "1700");
    match first {
        PrepAction::PostTask { name, script } => {
            assert_eq!(name, "silva-dok-bundle-1700");
            assert!(script.contains("base64.b64decode(\"QUJD\")"));
        }
        _ => panic!("the first action submits the task"),
    }
    match prep.advance(PrepEvent::Submitted { task_id: Some("t1".to_string()) }) {
        PrepAction::GetTask { task_id } => assert_eq!(task_id, "t1"),
        _ => panic!("the task is polled at once"),
    }
    match prep.advance(polled("running", None, false)) {
        PrepAction::WaitThenGetTask { task_id } => assert_eq!(task_id, "t1"),
        _ => panic!("an unfinished task is polled again"),
    }
    match prep.advance(polled("done", Some("a9"), false)) {
        PrepAction::GetDownload { artifact_id } => assert_eq!(artifact_id, "a9"),
        _ => panic!("a done task leads to its download"),
    }
    assert!(matches!(prep.phase, PrepPhase::Download { .. }));
    match prep.advance(PrepEvent::Downloaded { url: Some("https://dl/x".to_string()) }) {
        PrepAction::Finish { result } => assert_eq!(result, Ok("https://dl/x".to_string())),
        _ => panic!("the download ends the preparation"),
    }
    assert!(prep.is_finished());
}

#[test]
fn bundle_prep_errors() {
    let (mut prep, _) = BundlePrep::start("x", "1");
    match prep.advance(PrepEvent::Submitted { task_id: None }) {
        PrepAction::Finish { result } => {
            assert_eq!(result, Err("DOK task response missing id".to_string()))
        }
        _ => panic!("no id ends it"),
    }

    let (mut prep, _) = BundlePrep::start("x", "1");
    prep.advance(PrepEvent::Submitted { task_id: Some("t2".to_string()) });
    match prep.advance(polled("running", None, true)) {
        PrepAction::Finish { result } => {
            assert_eq!(result, Err("Timed out waiting for DOK prep task t2".to_string()))
        }
        _ => panic!("the deadline ends it"),
    }

    let (mut prep, _) = BundlePrep::start("x", "1");
    prep.advance(PrepEvent::Submitted { task_id: Some("t3".to_string()) });
    let failed = PrepEvent::Polled {
        status: "error".to_string(),
        error_message: "oom".to_string(),
        artifact_id: None,
        past_deadline: true,
    };
    match prep.advance(failed) {
        PrepAction::Finish { result } => assert_eq!(
            result,
            Err("DOK prep task t3 finished with status=error: oom".to_string())
        ),
        _ => panic!("a failed task ends it"),
    }

    let (mut prep, _) = BundlePrep::start("x", "1");
    prep.advance(PrepEvent::Submitted { task_id: Some("t4".to_string()) });
    match prep.advance(polled("done", None, false)) {
        PrepAction::Finish { result } => {
            assert_eq!(result, Err("DOK prep task t4 has no artifact".to_string()))
        }
        _ => panic!("no artifact ends it"),
    }

    let (mut prep, _) = BundlePrep::start("x", "1");
    prep.advance(PrepEvent::Submitted { task_id: Some("t5".to_string()) });
    prep.advance(polled("done", Some("a"), false));
    match prep.advance(PrepEvent::Downloaded { url: None }) {
        PrepAction::Finish { result } => assert_eq!(
            result,
            Err("DOK artifact download response missing url".to_string())
        ),
        _ => panic!("no url ends it"),
    }

    let (mut prep, _) = BundlePrep::start("x", "1");
    match prep.advance(PrepEvent::ApiFailed { message: "DOK API request failed: x".to_string() }) {
        PrepAction::Finish { result } => {
            assert_eq!(result, Err("DOK API request failed: x".to_string()))
        }
        _ => panic!("a failed request ends it"),
    }
    assert!(prep.is_finished());
}

#[test]
fn dok_api_replies() {
    assert_eq!(api_reply("200 OK", true, "{}".to_string()), Ok("{}".to_string()));
    assert_eq!(
        api_reply("400 Bad Request", false, "{\"detail\":\"x\"}".to_string()),
        Err("DOK API request rejected (400 Bad Request): {\"detail\":\"x\"}".to_string())
    );
    assert_eq!(
        api_parse_error("expected value", "oops"),
        "Failed to parse DOK API response: expected value (body: oops)"
    );
}
