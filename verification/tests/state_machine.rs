use job_monitor::filter::{filter_jobs, state_matches, FilterMode};
use job_monitor::jobs::Job;
use job_monitor::nav::{advance, retreat};
use job_monitor::state::{App, InputEvent};

fn job(id: &str, state: &str) -> Job {
    Job {
        id: String::from(id),
        name: String::from(id),
        state: String::from(state),
        waiting_at: 1,
        running_at: 0,
        terminated_at: 0,
        properties: Vec::new(),
    }
}

fn app_with(states: &[(&str, &str)]) -> App {
    let mut app = App::new();
    app.commands = states.iter().map(|(id, s)| job(id, s)).collect();
    app
}

fn filtered_ids(app: &App) -> Vec<String> {
    app.filtered_commands().iter().map(|j| j.id.clone()).collect()
}

#[test]
fn test_new_app_defaults() {
    let app = App::new();
    assert!(app.commands.is_empty());
    assert_eq!(app.cursor, None);
    assert_eq!(app.filter_mode, FilterMode::Default);
    assert!(app.selected_command.is_none());
}

#[test]
fn test_filter_waiting_scenario() {
    // states ["Waiting", "Running", "Completed"], mode Waiting: first job only
    let jobs = vec![job("a", "Waiting"), job("b", "Running"), job("c", "Completed")];
    let out = filter_jobs(&jobs, FilterMode::Waiting);
    assert_eq!(out.len(), 1);
    assert_eq!(out[0].id, "a");
}

#[test]
fn test_filter_default_keeps_source_order() {
    let jobs = vec![
        job("a", "Completed"),
        job("b", "Running"),
        job("c", "Waiting"),
        job("d", "Aborted"),
        job("e", "running"),
    ];
    let out = filter_jobs(&jobs, FilterMode::Default);
    let ids: Vec<&str> = out.iter().map(|j| j.id.as_str()).collect();
    assert_eq!(ids, vec!["b", "c", "e"]);
}

#[test]
fn test_filter_case_insensitive() {
    assert!(state_matches(FilterMode::Running, "RUNNING"));
    assert!(state_matches(FilterMode::Running, "Running"));
    assert!(state_matches(FilterMode::Running, "running"));
    assert!(!state_matches(FilterMode::Running, "run"));
    assert!(state_matches(FilterMode::Aborted, "aBoRtEd"));
    assert!(state_matches(FilterMode::All, "anything at all"));
    assert!(!state_matches(FilterMode::Waiting, "waiting "));
}

#[test]
fn test_filter_idempotent() {
    let jobs = vec![job("a", "Waiting"), job("b", "Running"), job("c", "Completed")];
    let once = filter_jobs(&jobs, FilterMode::Default);
    let twice = filter_jobs(&once, FilterMode::Default);
    let ids_once: Vec<&str> = once.iter().map(|j| j.id.as_str()).collect();
    let ids_twice: Vec<&str> = twice.iter().map(|j| j.id.as_str()).collect();
    assert_eq!(ids_once, ids_twice);
}

#[test]
fn test_navigator_wraparound() {
    // cursor Some(2) over 3 elements: advance wraps to Some(0)
    assert_eq!(advance(Some(2), 3), Some(0));
    // retreat on Some(0) wraps to Some(2)
    assert_eq!(retreat(Some(0), 3), Some(2));
    assert_eq!(advance(Some(0), 3), Some(1));
    assert_eq!(advance(Some(1), 3), Some(2));
    assert_eq!(retreat(Some(2), 3), Some(1));
    // no selection yet: both start at the first row
    assert_eq!(advance(None, 3), Some(0));
    assert_eq!(retreat(None, 3), Some(0));
    // empty list: no cursor
    assert_eq!(advance(None, 0), None);
    assert_eq!(retreat(None, 0), None);
    assert_eq!(advance(Some(1), 0), None);
    assert_eq!(retreat(Some(1), 0), None);
}

#[test]
fn test_mode_switch_resets_cursor() {
    let mut app = app_with(&[("a", "Waiting"), ("b", "Running")]);
    app.next();
    app.next();
    assert_eq!(app.cursor, Some(1));
    // non-empty target view: cursor resets to the first row
    app.set_filter_mode(FilterMode::Running);
    assert_eq!(app.cursor, Some(0));
    // empty target view: no cursor
    app.set_filter_mode(FilterMode::Aborted);
    assert_eq!(app.cursor, None);
}

#[test]
fn test_handle_input_quit_only_while_browsing() {
    let mut app = app_with(&[("a", "Waiting")]);
    app.next();
    assert!(!app.handle_input(InputEvent::Confirm));
    assert!(app.selected_command.is_some());
    // quit is ignored while the detail view is open
    assert!(!app.handle_input(InputEvent::Quit));
    assert!(app.selected_command.is_some());
    // confirm closes the detail view
    assert!(!app.handle_input(InputEvent::Confirm));
    assert!(app.selected_command.is_none());
    // browsing again: quit terminates
    assert!(app.handle_input(InputEvent::Quit));
}

#[test]
fn test_navigation_suspended_in_detail_view() {
    let mut app = app_with(&[("a", "Waiting"), ("b", "Running")]);
    app.next();
    app.handle_input(InputEvent::Confirm);
    let cursor_before = app.cursor;
    let mode_before = app.filter_mode;
    app.handle_input(InputEvent::MoveNext);
    app.handle_input(InputEvent::MovePrev);
    app.handle_input(InputEvent::SetMode(FilterMode::All));
    assert_eq!(app.cursor, cursor_before);
    assert_eq!(app.filter_mode, mode_before);
    assert!(app.selected_command.is_some());
    // back closes it too
    app.handle_input(InputEvent::Back);
    assert!(app.selected_command.is_none());
}

#[test]
fn test_confirm_captures_selected_filtered_job() {
    let mut app = app_with(&[("a", "Completed"), ("b", "Waiting"), ("c", "Running")]);
    // Default mode shows ["b", "c"]; select the second row
    app.next();
    app.next();
    assert_eq!(app.cursor, Some(1));
    app.handle_input(InputEvent::Confirm);
    let snapshot = app.selected_command.as_ref().expect("detail view should be open");
    assert_eq!(snapshot.id, "c");
}

#[test]
fn test_confirm_without_selection_is_noop() {
    let mut app = app_with(&[("a", "Waiting")]);
    assert_eq!(app.cursor, None);
    app.handle_input(InputEvent::Confirm);
    assert!(app.selected_command.is_none());
}

#[test]
fn test_snapshot_detached_from_refresh() {
    let mut app = app_with(&[("a", "Waiting")]);
    app.next();
    app.handle_input(InputEvent::Confirm);
    // the data source now reports the job in another state
    app.apply_refresh(vec![job("a", "Running")]);
    let snapshot = app.selected_command.as_ref().expect("detail view should be open");
    assert_eq!(snapshot.state, "Waiting");
    assert_eq!(app.commands[0].state, "Running");
}

#[test]
fn test_refresh_keeps_valid_cursor() {
    let mut app = app_with(&[("a", "Waiting"), ("b", "Running"), ("c", "Waiting")]);
    app.next();
    app.next();
    assert_eq!(app.cursor, Some(1));
    app.apply_refresh(vec![job("x", "Waiting"), job("y", "Running")]);
    assert_eq!(app.cursor, Some(1));
    assert_eq!(filtered_ids(&app), vec!["x", "y"]);
}

#[test]
fn test_refresh_clamps_shrunken_cursor() {
    let mut app = app_with(&[("a", "Waiting"), ("b", "Running"), ("c", "Waiting")]);
    app.next();
    app.next();
    app.next();
    assert_eq!(app.cursor, Some(2));
    // the filtered list shrinks to one row: clamp to its last index
    app.apply_refresh(vec![job("x", "Waiting"), job("q", "Completed")]);
    assert_eq!(app.cursor, Some(0));
    // and to none when it empties
    app.apply_refresh(Vec::new());
    assert_eq!(app.cursor, None);
}

#[test]
fn test_empty_refresh_still_renders() {
    // a data source that never connects: the dashboard shows an empty table
    let mut app = App::new();
    app.apply_refresh(Vec::new());
    assert_eq!(filtered_ids(&app), Vec::<String>::new());
    assert_eq!(app.cursor, None);
    app.handle_input(InputEvent::MoveNext);
    assert_eq!(app.cursor, None);
}
