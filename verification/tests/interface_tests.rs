use silva::app::{fallback_catalog, App, AppAction, Body, HelpLine};
use silva::palette::Tint;
use silva::docker::state::{RunViewKey, State as RunView};
use silva::job_config::job::{ParamDefinition, ParamType};
use silva::keys::Key;
use silva::values::{JsonNumber, JsonValue, TomlValue};
use silva::workflow::home::WorkflowHome;
use silva::workflow::job_folder::JobFolder;
use silva::workflow::manager::{DirEntryInfo, HomeListing, WorkflowManager};
use silva::workflow::params_editor::{
    editor_values, string_to_param_value, EditorOutcome, ParamsEditorState,
};
use silva::workflow::state::{State as WorkflowState, WorkflowAction, WorkflowListBody};
use silva::workflow::workflow_folder::WorkflowFolder;

fn def(t: ParamType, default: TomlValue) -> ParamDefinition {
    ParamDefinition::new(t, default, String::from("hint"), None)
}

fn str_value(v: &JsonValue) -> &str {
    match v {
        JsonValue::String(s) => s.as_str(),
        other => panic!("not a string: {other:?}"),
    }
}

#[test]
fn text_becomes_a_value_of_the_parameter_type() {
    assert_eq!(
        string_to_param_value(" 42 ", &ParamType::Integer, None),
        Ok(JsonValue::Number(JsonNumber::PosInt(42)))
    );
    assert_eq!(
        string_to_param_value("-7", &ParamType::Integer, None),
        Ok(JsonValue::Number(JsonNumber::NegInt(-7)))
    );
    assert_eq!(
        string_to_param_value("4.5", &ParamType::Integer, None),
        Err("Invalid integer: 4.5".to_string())
    );
    let bits = 1.5f64.to_bits();
    assert_eq!(
        string_to_param_value("1.5", &ParamType::Float, Some(bits)),
        Ok(JsonValue::Number(JsonNumber::Float(bits)))
    );
    assert_eq!(
        string_to_param_value("nan", &ParamType::Float, Some(f64::NAN.to_bits())),
        Ok(JsonValue::Null)
    );
    assert_eq!(
        string_to_param_value(" abc ", &ParamType::Float, None),
        Err("Invalid float: abc".to_string())
    );
    assert_eq!(string_to_param_value("YES", &ParamType::Boolean, None), Ok(JsonValue::Bool(true)));
    assert_eq!(string_to_param_value(" 0", &ParamType::Boolean, None), Ok(JsonValue::Bool(false)));
    assert_eq!(
        string_to_param_value("maybe", &ParamType::Boolean, None),
        Err("Invalid boolean: maybe (use true/false)".to_string())
    );
    assert_eq!(
        string_to_param_value("  hi there ", &ParamType::String, None),
        Ok(JsonValue::String("hi there".to_string()))
    );
    match string_to_param_value("[a, b ,c]", &ParamType::Array, None) {
        Ok(JsonValue::Array(items)) => {
            let texts: Vec<&str> = items.iter().map(str_value).collect();
            assert_eq!(texts, vec!["a", "b", "c"]);
        }
        other => panic!("unexpected {other:?}"),
    }
    match string_to_param_value("x", &ParamType::Array, None) {
        Ok(JsonValue::Array(items)) => assert_eq!(items.len(), 1),
        other => panic!("unexpected {other:?}"),
    }
    match string_to_param_value("[]", &ParamType::Array, None) {
        Ok(JsonValue::Array(items)) => assert_eq!(str_value(&items[0]), ""),
        other => panic!("unexpected {other:?}"),
    }
}

#[test]
fn editor_values_prefer_the_current_value() {
    let defs = vec![
        ("count".to_string(), def(ParamType::Integer, TomlValue::Integer(3))),
        ("name".to_string(), def(ParamType::String, TomlValue::String("x".into()))),
    ];
    let current = vec![("name".to_string(), JsonValue::String("y".into()))];
    let values = editor_values(&defs, Some(current));
    assert_eq!(values[0].0, "count");
    assert_eq!(values[0].1, JsonValue::Number(JsonNumber::PosInt(3)));
    assert_eq!(values[1].1, JsonValue::String("y".into()));
    let values = editor_values(&defs, None);
    assert_eq!(values[1].1, JsonValue::String("x".into()));
}

fn editor() -> ParamsEditorState {
    let defs = vec![
        ("threshold".to_string(), def(ParamType::Float, TomlValue::Float(0.5f64.to_bits()))),
        ("count".to_string(), def(ParamType::Integer, TomlValue::Integer(3))),
        (
            "mode".to_string(),
            ParamDefinition::new(
                ParamType::Enum,
                TomlValue::String("a".into()),
                String::from("hint"),
                Some(vec!["a".to_string(), "b".to_string()]),
            ),
        ),
    ];
    let values = vec![
        ("threshold".to_string(), "0.5".to_string()),
        ("count".to_string(), "3".to_string()),
        ("mode".to_string(), "a".to_string()),
    ];
    ParamsEditorState::new("job1".into(), "desc".into(), false, defs, values)
}

#[test]
fn the_editor_lists_values_by_name_and_moves_between_them() {
    let mut e = editor();
    let names: Vec<&str> = e.param_values.iter().map(|p| p.0.as_str()).collect();
    assert_eq!(names, vec!["count", "mode", "threshold"]);
    e.move_up();
    assert_eq!(e.selected_index, 0);
    e.move_down();
    e.move_down();
    e.move_down();
    assert_eq!(e.selected_index, 2);
}

#[test]
fn an_edit_is_checked_before_it_is_kept() {
    let mut e = editor();
    e.start_editing();
    assert!(e.editing);
    assert_eq!(e.input_buffer, "3");
    e.input_backspace();
    e.input_char('x');
    e.save_current_edit(None);
    assert_eq!(e.error_message, Some("Invalid integer: x".to_string()));
    assert!(e.editing);
    e.input_backspace();
    e.input_char('7');
    e.save_current_edit(None);
    assert!(!e.editing);
    assert_eq!(e.param_values[0].1, "7");
    assert!(e.error_message.is_none());

    e.move_down();
    e.start_editing();
    e.input_backspace();
    e.input_char('z');
    e.save_current_edit(None);
    assert_eq!(
        e.error_message,
        Some("Value 'z' not in allowed values: [\"a\", \"b\"]".to_string())
    );
    e.cancel_editing();
    assert!(!e.editing && e.error_message.is_none());

    e.move_down();
    e.start_editing();
    e.save_current_edit(Some(f64::INFINITY.to_bits()));
    assert_eq!(e.error_message, Some("Expected float, got \"null\"".to_string()));
}

#[test]
fn saving_turns_every_text_back_into_a_value() {
    let mut e = editor();
    let floats = vec![None, None, Some(0.5f64.to_bits())];
    match e.handle_key(Key::Char('s'), None, &floats) {
        EditorOutcome::Save(params) => {
            assert_eq!(params.len(), 3);
            assert_eq!(params[0], ("count".to_string(), JsonValue::Number(JsonNumber::PosInt(3))));
            assert_eq!(params[2].1, JsonValue::Number(JsonNumber::Float(0.5f64.to_bits())));
        }
        other => panic!("unexpected {other:?}"),
    }
    let floats = vec![None, None, None];
    assert!(matches!(e.handle_key(Key::Char('s'), None, &floats), EditorOutcome::Stay));
    assert_eq!(e.error_message, Some("Invalid value for threshold: Invalid float: 0.5".to_string()));
    assert!(matches!(e.handle_key(Key::Esc, None, &floats), EditorOutcome::Close));
    assert!(matches!(e.handle_key(Key::Enter, None, &floats), EditorOutcome::Stay));
    assert!(e.editing);
    assert!(matches!(e.handle_key(Key::Char('s'), None, &floats), EditorOutcome::Stay));
    assert_eq!(e.input_buffer, "3s");
}

#[test]
fn run_view_keys_select_scroll_and_run() {
    let mut view = RunView::new();
    assert_eq!(view.handle_input(Key::Down, false), RunViewKey::Nothing);
    assert_eq!(view.handle_input(Key::Down, true), RunViewKey::ScrollDown);
    assert_eq!(view.handle_input(Key::PageUp, false), RunViewKey::ScrollUp);
    assert!(!view.auto_scroll_enabled);
    assert_eq!(view.handle_input(Key::Char('b'), false), RunViewKey::ScrollToBottom);
    assert!(view.auto_scroll_enabled);
    assert_eq!(view.handle_input(Key::Char('r'), false), RunViewKey::Run);
    assert!(view.begin_run().is_none());
    view.is_executing_workflow = true;
    assert_eq!(view.handle_input(Key::Char('r'), false), RunViewKey::Nothing);
}

fn entry(name: &str) -> DirEntryInfo {
    DirEntryInfo { name: name.to_string(), path: format!("/home/{name}"), is_dir: true, created: None }
}

fn workflows(names: &[&str]) -> WorkflowManager {
    let mut m = WorkflowManager::new(WorkflowHome::new(Some("/home".to_string())).unwrap());
    m.scan_workflows(HomeListing::Entries(names.iter().map(|n| entry(n)).collect())).unwrap();
    m
}

#[test]
fn the_workflow_tab_moves_the_selection_and_asks_for_jobs() {
    let mut tab = WorkflowState::new(workflows(&["wf_a", "wf_b"]));
    let none: Vec<Option<u64>> = vec![];
    match tab.handle_input(Key::Down, false, None, &none) {
        WorkflowAction::ScanJobs { path } => assert_eq!(path, "/home/wf_a"),
        other => panic!("unexpected {other:?}"),
    }
    match tab.handle_input(Key::Char('j'), false, None, &none) {
        WorkflowAction::ScanJobs { path } => assert_eq!(path, "/home/wf_b"),
        other => panic!("unexpected {other:?}"),
    }
    assert_eq!(tab.selected_workflow, Some(1));
    tab.jobs_scanned(vec![
        JobFolder::new("j1".into(), "/home/wf_b/j1".into()),
        JobFolder::new("j2".into(), "/home/wf_b/j2".into()),
    ]);
    assert_eq!(tab.docker_state.jobs.len(), 2);
    assert_eq!(tab.docker_state.job_entries[1].name, "j2");
    assert!(matches!(tab.handle_input(Key::Char('p'), false, None, &none), WorkflowAction::Nothing));
    assert!(matches!(
        tab.handle_input(Key::Char('g'), false, None, &none),
        WorkflowAction::OpenGlobalEditor { workflow: 1 }
    ));
    assert!(matches!(tab.handle_input(Key::Char('r'), false, None, &none), WorkflowAction::Refresh));
    assert!(matches!(tab.handle_input(Key::Enter, false, None, &none), WorkflowAction::Nothing));
    assert!(tab.show_docker_popup);
    assert_eq!(tab.docker_state.pending_workflow.as_ref().map(|w| w.name.as_str()), Some("wf_b"));
    assert!(matches!(tab.handle_input(Key::Down, false, None, &none), WorkflowAction::Nothing));
    assert_eq!(tab.docker_state.selected_job_index, Some(0));
    assert!(matches!(
        tab.handle_input(Key::Char('p'), false, None, &none),
        WorkflowAction::OpenJobEditor { job: 0 }
    ));
    assert!(matches!(tab.handle_input(Key::Char('r'), false, None, &none), WorkflowAction::Run));
    let started: Option<WorkflowFolder> = tab.docker_state.begin_run();
    assert_eq!(started.map(|w| w.name), Some("wf_b".to_string()));
    assert!(tab.docker_state.is_executing_workflow);
    assert_eq!(tab.docker_state.selected_job_index, Some(1));
}

#[test]
fn an_open_editor_takes_the_keys_of_the_workflow_tab() {
    let mut tab = WorkflowState::new(workflows(&["wf_a"]));
    tab.set_params_editor(editor());
    let floats = vec![None, None, Some(0.5f64.to_bits())];
    assert!(matches!(tab.handle_input(Key::Char('d'), false, None, &floats), WorkflowAction::Nothing));
    assert!(!tab.show_docker_popup);
    match tab.handle_input(Key::Char('s'), false, None, &floats) {
        WorkflowAction::SaveJobParams(p) => assert_eq!(p.len(), 3),
        other => panic!("unexpected {other:?}"),
    }
    assert!(matches!(tab.handle_input(Key::Esc, false, None, &floats), WorkflowAction::Nothing));
    assert!(!tab.show_params_popup);
    assert!(tab.params_editor_state.is_none());
}

#[test]
fn the_interface_moves_between_tabs_and_quits() {
    let mut app = App::new(fallback_catalog(), workflows(&[]));
    let none: Vec<Option<u64>> = vec![];
    assert_eq!(app.application_state.catalog.version, "1.0");
    assert!(matches!(app.handle_key_event(Key::Left, false, None, &none), AppAction::Continue));
    assert_eq!(app.selected_tab, 2);
    assert!(matches!(app.handle_key_event(Key::Char('r'), false, None, &none), AppAction::RunHealthChecks));
    assert!(matches!(app.handle_key_event(Key::Char('l'), false, None, &none), AppAction::Continue));
    assert_eq!(app.selected_tab, 0);
    app.handle_key_event(Key::Right, false, None, &none);
    assert!(matches!(
        app.handle_key_event(Key::Char('d'), false, None, &none),
        AppAction::Workflow(WorkflowAction::Nothing)
    ));
    assert!(app.workflow_state.show_docker_popup);
    app.handle_key_event(Key::Char('i'), false, None, &none);
    assert!(app.show_help);
    assert!(matches!(app.handle_key_event(Key::Char('q'), false, None, &none), AppAction::Quit));
}

#[test]
fn editor_list_items_show_name_type_value_and_hint() {
    let mut ed = editor();
    let items = ed.params_list_items();
    assert_eq!(items.len(), 3);
    assert_eq!(items[0].name, "count");
    assert_eq!(items[0].cursor, ">");
    assert!(items[0].selected);
    assert_eq!(items[0].type_text, "integer");
    assert_eq!(items[0].value, "3");
    assert_eq!(items[0].hint, Some("hint".to_string()));
    assert_eq!(items[0].line, "> count (integer): 3");
    assert_eq!(items[1].cursor, " ");
    assert_eq!(items[1].line, "  mode (enum): a");
    assert_eq!(items[2].line, "  threshold (float): 0.5");

    ed.start_editing();
    ed.input_char('7');
    let items = ed.params_list_items();
    assert_eq!(items[0].cursor, "▶");
    assert!(items[0].editing);
    assert_eq!(items[0].value, "37");
    assert_eq!(items[0].hint, None);
}

#[test]
fn editor_list_item_without_definition() {
    let ed = ParamsEditorState::new(
        "job".into(),
        "d".into(),
        false,
        vec![],
        vec![("loose".to_string(), "1".to_string())],
    );
    let items = ed.params_list_items();
    assert_eq!(items[0].type_text, "?");
    assert_eq!(items[0].hint, None);
    assert_eq!(items[0].line, "> loose (?): 1");
}

#[test]
fn editor_frame_titles_and_notices() {
    let mut ed = editor();
    let frame = ed.editor_frame();
    assert_eq!(frame.title, " Edit Parameters: job1 ");
    assert_eq!(frame.description, "desc");
    assert_eq!(frame.list_title, " Parameters ");
    assert_eq!(frame.notice, "↑↓: Navigate | Enter: Edit | s: Save All | Esc: Cancel");
    assert!(!frame.notice_is_error);

    ed.start_editing();
    assert_eq!(ed.editor_frame().notice, "Type to edit | Enter: Save | Esc: Cancel");

    ed.error_message = Some("bad value".to_string());
    let frame = ed.editor_frame();
    assert_eq!(frame.notice, "bad value");
    assert!(frame.notice_is_error);

    let global = ParamsEditorState::new("wf".into(), "".into(), true, vec![], vec![]);
    let frame = global.editor_frame();
    assert_eq!(frame.title, " Edit Global Parameters: wf ");
    assert_eq!(frame.list_title, " Global Parameters ");
}

#[test]
fn the_screen_follows_the_tab_and_the_popups() {
    let mut app = App::new(fallback_catalog(), workflows(&[]));
    let screen = app.screen();
    assert_eq!(screen.body, Body::Applications);
    assert!(!screen.run_popup && !screen.params_popup && !screen.help_popup);
    app.selected_tab = 1;
    app.workflow_state.show_docker_popup = true;
    app.workflow_state.show_params_popup = true;
    app.show_help = true;
    let screen = app.screen();
    assert_eq!(screen.body, Body::Workflows);
    assert!(screen.run_popup);
    // The parameter popup needs an editor to show.
    assert!(!screen.params_popup);
    assert!(screen.help_popup);
    app.selected_tab = 2;
    assert_eq!(app.screen().body, Body::HealthChecks);
    app.selected_tab = 7;
    assert_eq!(app.screen().body, Body::Nothing);
}

fn key_of(line: &HelpLine) -> (&str, Option<Tint>, &str) {
    match line {
        HelpLine::Blank => ("", None, ""),
        HelpLine::Note { text } => ("", None, text.as_str()),
        HelpLine::Key { key, tint, action } => (key.as_str(), Some(*tint), action.as_str()),
    }
}

#[test]
fn the_help_popup_lists_the_keys_of_the_tab() {
    let mut app = App::new(fallback_catalog(), workflows(&[]));
    let help = app.help_popup(100, 50);
    assert_eq!(help.title, " Help (Press 'i' to close) ");
    assert_eq!((help.area.x, help.area.y, help.area.width, help.area.height), (30, 15, 40, 20));
    assert_eq!(help.lines.len(), 8);
    assert_eq!(key_of(&help.lines[0]), ("", None, ""));
    assert_eq!(key_of(&help.lines[1]), (" ←/→ or h/l ", Some(Tint::Cyan), "Switch tabs"));
    assert_eq!(key_of(&help.lines[2]), ("          q ", Some(Tint::Red), "Quit"));
    assert_eq!(key_of(&help.lines[3]), ("  ↑↓ or j/k ", Some(Tint::Green), "Navigate"));
    assert_eq!(key_of(&help.lines[7]), ("          i ", Some(Tint::Cyan), "Toggle Help"));

    app.selected_tab = 1;
    let help = app.help_popup(30, 10);
    assert_eq!((help.area.x, help.area.y, help.area.width, help.area.height), (2, 2, 26, 6));
    assert_eq!(help.lines.len(), 16);
    assert_eq!(key_of(&help.lines[10]), ("", None, "In Job Details:"));
    assert_eq!(key_of(&help.lines[11]), ("   Shift+↑↓ ", Some(Tint::Green), "Scroll Logs"));

    app.selected_tab = 2;
    assert_eq!(app.help_popup(2, 2).lines.len(), 6);
    assert_eq!(app.help_popup(2, 2).area.width, 0);
}

#[test]
fn the_workflow_list_names_each_folder_and_its_age() {
    let mut tab = WorkflowState::new(workflows(&[]));
    let view = tab.workflow_list_view_at(0);
    assert_eq!(view.title, "Workflow Folders (0) - /home");
    match view.body {
        WorkflowListBody::Empty { lines } => {
            assert_eq!(lines, vec!["No workflows found", "", "Create a new folder in: ", "  /home"]);
        }
        WorkflowListBody::Rows { .. } => panic!("there are no workflows"),
    }

    let mut m = WorkflowManager::new(WorkflowHome::new(Some("/home".to_string())).unwrap());
    let mut aged = entry("wf_b");
    aged.created = Some(0);
    m.scan_workflows(HomeListing::Entries(vec![entry("wf_a"), aged])).unwrap();
    tab = WorkflowState::new(m);
    tab.selected_workflow = Some(1);
    let view = tab.workflow_list_view_at(7_200_000_000_000);
    assert_eq!(view.title, "Workflow Folders (2) - /home");
    match view.body {
        WorkflowListBody::Rows { rows } => {
            assert_eq!(rows.len(), 2);
            assert_eq!(rows[0].name, "wf_a");
            assert_eq!(rows[0].created, "(Unknown)");
            assert!(!rows[0].selected);
            assert_eq!(rows[1].name, "wf_b");
            assert_eq!(rows[1].created, "(2h ago)");
            assert!(rows[1].selected);
        }
        WorkflowListBody::Empty { .. } => panic!("there are workflows"),
    }
}

#[test]
fn the_workflow_list_title_reports_a_scan_error() {
    let mut m = WorkflowManager::new(WorkflowHome::new(Some("/home".to_string())).unwrap());
    let _ = m.scan_workflows(HomeListing::Missing);
    let tab = WorkflowState::new(m);
    let view = tab.workflow_list_view();
    assert_eq!(view.title, "Workflow Folders - Error: Home directory does not exist");
}
