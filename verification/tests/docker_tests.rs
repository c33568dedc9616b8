use silva::docker::job::{JobEntry, JobStatus};
use silva::docker::logs::{millis_of_reading, LogBuffer, LogLine, LogSource};
use silva::docker::state::State;
use silva::workflow::job::Job;

#[test]
fn state_test_job_status_as_str() {
    assert_eq!(JobStatus::Idle.as_str(), "Idle");
    assert_eq!(JobStatus::BuildingImage.as_str(), "Building Image");
    assert_eq!(JobStatus::Completed.as_str(), "Completed");
}

#[test]
fn state_test_job_status_is_running() {
    assert!(!JobStatus::Idle.is_running());
    assert!(JobStatus::PullingImage.is_running());
    assert!(JobStatus::Running.is_running());
    assert!(!JobStatus::Completed.is_running());
    assert!(!JobStatus::Failed.is_running());
}

#[test]
fn state_test_job_status_is_finished() {
    assert!(!JobStatus::Idle.is_finished());
    assert!(!JobStatus::Running.is_finished());
    assert!(JobStatus::Completed.is_finished());
    assert!(JobStatus::Failed.is_finished());
}

#[test]
fn state_test_docker_job_state_scroll() {
    let mut state = State::new();

    // Scrolling up from 0 should do nothing
    state.scroll_up();
    assert_eq!(state.scroll_offset, 0);

    // Scroll down
    state.scroll_down();
    assert_eq!(state.scroll_offset, 0); // No logs yet, so stays at 0
}

#[test]
fn test_log_buffer_push() {
    let mut buffer = LogBuffer::new(3);
    buffer.push(LogLine::new(LogSource::Stdout, "line 1".to_string()));
    buffer.push(LogLine::new(LogSource::Stdout, "line 2".to_string()));
    buffer.push(LogLine::new(LogSource::Stdout, "line 3".to_string()));

    assert_eq!(buffer.len(), 3);
}

#[test]
fn test_log_buffer_rotation() {
    let mut buffer = LogBuffer::new(2);
    buffer.push(LogLine::new(LogSource::Stdout, "line 1".to_string()));
    buffer.push(LogLine::new(LogSource::Stdout, "line 2".to_string()));
    buffer.push(LogLine::new(LogSource::Stdout, "line 3".to_string()));

    assert_eq!(buffer.len(), 2);
    assert_eq!(buffer.lines()[0].content, "line 2");
    assert_eq!(buffer.lines()[1].content, "line 3");
}

#[test]
fn test_log_buffer_clear() {
    let mut buffer = LogBuffer::new(10);
    buffer.push(LogLine::new(LogSource::Stdout, "line 1".to_string()));
    buffer.push(LogLine::new(LogSource::Stdout, "line 2".to_string()));

    assert_eq!(buffer.len(), 2);

    buffer.clear();
    assert_eq!(buffer.len(), 0);
    assert!(buffer.is_empty());
}

#[test]
fn test_log_buffer_tail() {
    let mut buffer = LogBuffer::new(10);
    buffer.push(LogLine::new(LogSource::Stdout, "line 1".to_string()));
    buffer.push(LogLine::new(LogSource::Stdout, "line 2".to_string()));
    buffer.push(LogLine::new(LogSource::Stdout, "line 3".to_string()));

    let tail = buffer.tail(2);
    assert_eq!(tail.len(), 2);
    assert_eq!(tail[0].content, "line 2");
    assert_eq!(tail[1].content, "line 3");
}

#[test]
fn test_log_line_source() {
    let stdout_line = LogLine::new(LogSource::Stdout, "stdout message".to_string());
    let stderr_line = LogLine::new(LogSource::Stderr, "stderr message".to_string());

    assert_eq!(stdout_line.source, LogSource::Stdout);
    assert_eq!(stderr_line.source, LogSource::Stderr);
}

#[test]
fn log_buffer_of_capacity_zero_keeps_the_newest_line() {
    let mut buffer = LogBuffer::new(0);
    buffer.push(LogLine::new(LogSource::Stdout, "line 1".to_string()));
    buffer.push(LogLine::new(LogSource::Stdout, "line 2".to_string()));
    assert_eq!(buffer.len(), 1);
    assert_eq!(buffer.lines()[0].content, "line 2");
}

#[test]
fn log_buffer_append_moves_lines() {
    let mut a = LogBuffer::new(3);
    let mut b = LogBuffer::new(10);
    a.push(LogLine::new(LogSource::Stdout, "a1".to_string()));
    b.push(LogLine::new(LogSource::Stderr, "b1".to_string()));
    b.push(LogLine::new(LogSource::Stderr, "b2".to_string()));
    b.push(LogLine::new(LogSource::Stderr, "b3".to_string()));
    a.append(&mut b);
    assert!(b.is_empty());
    // Appending moves every line over, whatever the capacity.
    assert_eq!(a.len(), 4);
    assert_eq!(a.lines()[0].content, "a1");
    assert_eq!(a.lines()[3].content, "b3");
}

#[test]
fn log_line_display_formats_time_and_source() {
    let line = LogLine {
        timestamp: 3_723_000,
        source: LogSource::Stderr,
        content: "boom".to_string(),
    };
    assert_eq!(line.to_display_string(), "01:02:03 [ERR] boom");
}

#[test]
fn job_entry_lifecycle() {
    let mut entry = JobEntry::new("job".to_string());
    assert_eq!(entry.status, JobStatus::Idle);
    entry.start_job();
    assert_eq!(entry.status, JobStatus::PullingImage);
    assert!(entry.start_time.is_some());
    entry.complete_job(false);
    assert_eq!(entry.status, JobStatus::Failed);
    assert!(entry.end_time.is_some());
}

#[test]
fn selection_wraps_around_the_jobs() {
    let mut state = State::new();
    state.jobs = vec![
        Job::new("a".to_string(), "/w/a".to_string()),
        Job::new("b".to_string(), "/w/b".to_string()),
        Job::new("c".to_string(), "/w/c".to_string()),
    ];
    state.job_entries = vec![
        JobEntry::new("a".to_string()),
        JobEntry::new("b".to_string()),
        JobEntry::new("c".to_string()),
    ];
    state.select_next_job();
    assert_eq!(state.selected_job_index, Some(0));
    state.select_previous_job();
    assert_eq!(state.selected_job_index, Some(2));
    state.select_next_job();
    assert_eq!(state.selected_job_index, Some(0));
}

#[test]
fn beginning_a_run_selects_the_next_job() {
    let mut state = State::new();
    state.jobs = vec![
        Job::new("a".to_string(), "/w/a".to_string()),
        Job::new("b".to_string(), "/w/b".to_string()),
    ];
    state.job_entries = vec![JobEntry::new("a".to_string()), JobEntry::new("b".to_string())];
    state.selected_job_index = Some(1);
    state.scroll_offset = 5;
    state.auto_scroll_enabled = false;
    state.pending_workflow = Some(silva::workflow::workflow_folder::WorkflowFolder::new(
        "wf".to_string(),
        "/w".to_string(),
        None,
    ));
    let wf = state.begin_run().unwrap();
    assert_eq!(wf.name, "wf");
    assert!(state.is_executing_workflow);
    assert!(state.pending_workflow.is_none());
    assert_eq!(state.selected_job_index, Some(0));
    assert_eq!(state.scroll_offset, 0);
    assert!(state.auto_scroll_enabled);
}

#[test]
fn clock_readings_become_milliseconds_rounded_down() {
    assert_eq!(millis_of_reading(Ok(1_500_999_999)), 1500);
    assert_eq!(millis_of_reading(Ok(0)), 0);
    assert_eq!(millis_of_reading(Err(1)), -1);
    assert_eq!(millis_of_reading(Err(1_000_000)), -1);
    assert_eq!(millis_of_reading(Err(1_000_001)), -2);
    assert_eq!(millis_of_reading(Ok(u128::MAX)), i64::MAX);
    assert_eq!(millis_of_reading(Err(u128::MAX)), i64::MIN);
}
