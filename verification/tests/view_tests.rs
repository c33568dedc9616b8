use silva::docker::job::{JobEntry, JobStatus};
use silva::docker::logs::{LogLine, LogSource};
use silva::docker::state::State;
use silva::docker::view::{get_job_status_symbol_and_color, source_tint, LogsSection};
use silva::palette::Tint;
use silva::workflow::job::Job;

fn line(ms: i64, source: LogSource, content: &str) -> LogLine {
    LogLine {
        timestamp: ms,
        source,
        content: content.to_string(),
    }
}

fn two_job_state() -> State {
    let mut state = State::new();
    state.jobs = vec![
        Job::new("fetch".to_string(), "/w/fetch".to_string()),
        Job::new("fold".to_string(), "/w/fold".to_string()),
    ];
    state.job_entries = vec![JobEntry::new("fetch".to_string()), JobEntry::new("fold".to_string())];
    state
}

#[test]
fn status_symbols_and_colors() {
    assert_eq!(get_job_status_symbol_and_color(&JobStatus::Idle), ("○", Tint::Gray));
    assert_eq!(get_job_status_symbol_and_color(&JobStatus::Pending), ("⬜", Tint::Gray));
    assert_eq!(get_job_status_symbol_and_color(&JobStatus::PullingImage), ("⟳", Tint::Yellow));
    assert_eq!(
        get_job_status_symbol_and_color(&JobStatus::ContainerRunning("abc".to_string())),
        ("⟳", Tint::Yellow)
    );
    assert_eq!(get_job_status_symbol_and_color(&JobStatus::Running), ("⟳", Tint::Yellow));
    assert_eq!(get_job_status_symbol_and_color(&JobStatus::Completed), ("✓", Tint::Green));
    assert_eq!(get_job_status_symbol_and_color(&JobStatus::Failed), ("✗", Tint::Red));
    assert_eq!(source_tint(LogSource::Stdout), Tint::White);
    assert_eq!(source_tint(LogSource::Stderr), Tint::Red);
}

#[test]
fn status_section_shows_the_selected_job() {
    let mut state = two_job_state();
    let idle = state.status_section();
    assert_eq!(idle.title, "Docker Job Status");
    assert_eq!(idle.text, "Status: Idle");
    assert_eq!(idle.tint, Tint::Gray);

    state.job_entries[1].status = JobStatus::BuildingImage;
    state.selected_job_index = Some(1);
    let building = state.status_section();
    assert_eq!(building.text, "Status: Building Image");
    assert_eq!(building.tint, Tint::Yellow);

    state.job_entries[1].status = JobStatus::Completed;
    assert_eq!(state.status_section().tint, Tint::Green);
}

#[test]
fn job_list_marks_the_selected_job() {
    let mut state = two_job_state();
    state.selected_job_index = Some(1);
    state.job_entries[0].status = JobStatus::Failed;
    let list = state.job_list_section();
    assert_eq!(list.title, "Jobs (2/2)");
    assert_eq!(list.rows.len(), 2);
    assert_eq!(list.rows[0].marker, "  ");
    assert_eq!(list.rows[0].symbol, "✗");
    assert_eq!(list.rows[0].tint, Tint::Red);
    assert_eq!(list.rows[0].name, "fetch");
    assert_eq!(list.rows[0].name_tint, Tint::Red);
    assert_eq!(list.rows[1].marker, "> ");
    assert_eq!(list.rows[1].symbol, "○");
    assert_eq!(list.rows[1].name_tint, Tint::Cyan);
}

#[test]
fn log_section_without_a_selection() {
    let mut state = two_job_state();
    match state.job_logs_section(80, 24, None) {
        LogsSection::NoJob { title, message } => {
            assert_eq!(title, "Job Logs");
            assert_eq!(message, "No job selected");
        }
        LogsSection::Log { .. } => panic!("no job is selected"),
    }
    assert_eq!(state.last_viewport_width, 80);
    assert_eq!(state.last_viewport_height, 22);
}

#[test]
fn log_section_wraps_and_scrolls() {
    let mut state = two_job_state();
    state.selected_job_index = Some(0);
    state.job_entries[0]
        .logs
        .push(line(3_723_000, LogSource::Stdout, "aaaa bbbb cccc dddd eeee ffff"));
    state.job_entries[0]
        .logs
        .push(line(3_724_000, LogSource::Stderr, "oops"));
    state.scroll_offset = 1;
    state.auto_scroll_enabled = false;
    // 30 columns leave 11 for the text; 5 rows leave 3 inside the borders.
    match state.job_logs_section(30, 5, Some("/tmp/run")) {
        LogsSection::Log { title, rows } => {
            assert_eq!(
                title,
                "fetch - Logs (1/2) [AUTO-SCROLL PAUSED] | Folder: /tmp/run | o-Open"
            );
            assert_eq!(rows.len(), 3);
            assert_eq!(rows[0].text, "                 cccc dddd");
            assert_eq!(rows[0].source, LogSource::Stdout);
            assert_eq!(rows[1].text, "                 eeee ffff");
            assert_eq!(rows[2].text, "01:02:04 [ERR] oops");
            assert_eq!(rows[2].source, LogSource::Stderr);
        }
        LogsSection::NoJob { .. } => panic!("a job is selected"),
    }
    assert_eq!(state.last_viewport_width, 30);
    assert_eq!(state.last_viewport_height, 3);
}

#[test]
fn log_section_first_row_carries_time_and_source() {
    let mut state = two_job_state();
    state.selected_job_index = Some(1);
    state.job_entries[1]
        .logs
        .push(line(3_723_000, LogSource::Stdout, "aaaa bbbb cccc dddd eeee ffff"));
    match state.job_logs_section(30, 24, None) {
        LogsSection::Log { title, rows } => {
            assert_eq!(title, "fold - Logs (0/1)");
            assert_eq!(rows.len(), 3);
            assert_eq!(rows[0].text, "01:02:03 [OUT] aaaa bbbb");
        }
        LogsSection::NoJob { .. } => panic!("a job is selected"),
    }
}

#[test]
fn log_section_too_narrow_to_wrap() {
    let mut state = two_job_state();
    state.selected_job_index = Some(0);
    state.job_entries[0]
        .logs
        .push(line(0, LogSource::Stdout, "a long line that is not wrapped"));
    match state.job_logs_section(20, 1, None) {
        LogsSection::Log { rows, .. } => {
            // A one-row area shows no rows inside its borders.
            assert_eq!(rows.len(), 0);
        }
        LogsSection::NoJob { .. } => panic!("a job is selected"),
    }
    match state.job_logs_section(20, 10, None) {
        LogsSection::Log { rows, .. } => {
            assert_eq!(rows.len(), 1);
            assert_eq!(rows[0].text, "00:00:00 [OUT] a long line that is not wrapped");
        }
        LogsSection::NoJob { .. } => panic!("a job is selected"),
    }
}

#[test]
fn log_rows_before_the_epoch_wrap_to_the_previous_day() {
    let mut state = two_job_state();
    state.selected_job_index = Some(0);
    state.job_entries[0].logs.push(line(-1, LogSource::Stdout, "x"));
    match state.job_logs_section(80, 10, None) {
        LogsSection::Log { rows, .. } => assert_eq!(rows[0].text, "23:59:59 [OUT] x"),
        LogsSection::NoJob { .. } => panic!("a job is selected"),
    }
}
