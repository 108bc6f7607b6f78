use synctr_engine::profile::{Mode, Profile};
use synctr_engine::status::LastRun;
use synctr_engine::tui::{
    detail_lines, key_action, log_window, move_selection, push_log, reselect, running_mark,
    scroll_offset,
    toggle_plan, Key, TogglePlan, UiAction,
};

#[test]
fn log_window_pins_to_tail_then_scrolls() {
    assert_eq!(log_window(10, 4, 0), (6, 10));
    assert_eq!(log_window(10, 4, 2), (4, 8));
    assert_eq!(log_window(10, 4, 99), (0, 4));
    assert_eq!(log_window(3, 8, 0), (0, 3));
    assert_eq!(log_window(0, 4, 0), (0, 0));
}

#[test]
fn scroll_is_clamped_to_the_log() {
    assert_eq!(scroll_offset(10, 4, 0, 1), 4);
    assert_eq!(scroll_offset(10, 4, 4, 1), 6);
    assert_eq!(scroll_offset(10, 4, 6, -1), 2);
    assert_eq!(scroll_offset(10, 4, 2, -1), 0);
    assert_eq!(scroll_offset(3, 0, 0, 5), 2);
}

#[test]
fn selection_wraps_around() {
    assert_eq!(move_selection(3, Some(2), 1), Some(0));
    assert_eq!(move_selection(3, Some(0), -1), Some(2));
    assert_eq!(move_selection(3, None, 1), Some(1));
    assert_eq!(move_selection(0, None, 1), None);
    assert_eq!(move_selection(5, Some(1), -7), Some(4));
}

#[test]
fn log_keeps_last_500_lines() {
    let mut log: Vec<String> = Vec::new();
    for i in 0..505 {
        push_log(&mut log, format!("line {i}"));
    }
    assert_eq!(log.len(), 500);
    assert_eq!(log[0], "line 5");
    assert_eq!(log[499], "line 504");
}

#[test]
fn keys_map_to_actions() {
    assert_eq!(key_action(false, Key::Char('q')), UiAction::Quit);
    assert_eq!(key_action(true, Key::Esc), UiAction::Quit);
    assert_eq!(key_action(false, Key::Char('?')), UiAction::ShowHelp(true));
    assert_eq!(key_action(true, Key::Char('h')), UiAction::ShowHelp(false));
    assert_eq!(key_action(true, Key::Char('j')), UiAction::Nothing);
    assert_eq!(key_action(false, Key::Down), UiAction::Move(1));
    assert_eq!(key_action(false, Key::Char('k')), UiAction::Move(-1));
    assert_eq!(key_action(false, Key::PageUp), UiAction::Scroll(1));
    assert_eq!(key_action(false, Key::PageDown), UiAction::Scroll(-1));
    assert_eq!(key_action(false, Key::Char('r')), UiAction::Reload);
    assert_eq!(key_action(false, Key::Enter), UiAction::Toggle { dry_run: false });
    assert_eq!(key_action(false, Key::Char('d')), UiAction::Toggle { dry_run: true });
    assert_eq!(key_action(false, Key::Other), UiAction::Nothing);
}

#[test]
fn one_child_at_a_time() {
    assert_eq!(toggle_plan(None, Some("a")), TogglePlan::Nothing);
    assert_eq!(toggle_plan(Some("a"), Some("a")), TogglePlan::Stop);
    assert_eq!(toggle_plan(Some("b"), Some("a")), TogglePlan::StopThenStart);
    assert_eq!(toggle_plan(Some("b"), None), TogglePlan::Start);
}

#[test]
fn marks_and_state_pane() {
    assert_eq!(running_mark(Some(Some(25))), " running 25%");
    assert_eq!(running_mark(Some(None)), " running");
    assert_eq!(running_mark(None), "");
    let p = Profile::new(
        "docs".into(),
        "/tmp/docs".into(),
        "b2:x".into(),
        Mode::Copy,
        None,
        vec![],
        vec![],
        "/",
    )
    .unwrap();
    let last = LastRun::at(3, 0);
    let lines = detail_lines(&p, Some(&last), 120, "not found", None, false);
    assert_eq!(
        lines,
        vec![
            "docs",
            "mode    copy",
            "local   /tmp/docs",
            "remote  b2:x",
            "rclone  not found",
            "last    exit 3 2m ago (1970-01-01T00:00:00Z)",
            "state   idle",
        ]
    );
    let never = detail_lines(&p, None, 0, "x", None, true);
    assert_eq!(never[5], "last    never");
    assert_eq!(never[6], "state   running");
}

#[test]
fn reload_keeps_the_selected_profile_when_it_is_still_there() {
    let names: Vec<String> = vec!["alpha".into(), "docs".into(), "notes".into()];
    assert_eq!(reselect(&names, Some("docs")), Some(1));
    assert_eq!(reselect(&names, Some("gone")), Some(0));
    assert_eq!(reselect(&names, None), Some(0));
    assert_eq!(reselect(&vec![], Some("docs")), None);
    assert_eq!(reselect(&vec![], None), None);
}

