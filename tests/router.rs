use desktop_shell::router::{
    dispatch, route, ContentEvent, MenuAction, MenuEffects, LOGOUT_EVENT_NAME,
    MENU_EDIT_PREFERENCES_ID, MENU_FILE_CLOSE_WINDOW_ID, MENU_FILE_LOGOUT_ID, MENU_FILE_QUIT_ID,
    PREFERENCES_EVENT_NAME,
};

fn event_names(e: &MenuEffects) -> Vec<String> {
    e.emitted.iter().map(|ev| ev.name.clone()).collect()
}

fn assert_no_effect(e: &MenuEffects) {
    assert!(e.emitted.is_empty());
    assert_eq!(e.close_window, None);
    assert_eq!(e.exit_status, None);
}

#[test]
fn logout_emits_one_logout_event() {
    let e = dispatch("file.logout", Some("main"));
    assert_eq!(event_names(&e), vec!["desktop://menu/logout".to_string()]);
    assert_eq!(e.close_window, None);
    assert_eq!(e.exit_status, None);
}

#[test]
fn quit_requests_exit_with_status_zero() {
    let e = dispatch("file.quit", Some("main"));
    assert_eq!(e.exit_status, Some(0));
    assert!(e.emitted.is_empty());
    assert_eq!(e.close_window, None);
}

#[test]
fn close_window_closes_the_focused_window() {
    let e = dispatch("file.close_window", Some("main"));
    assert_eq!(e.close_window, Some("main".to_string()));
    assert!(e.emitted.is_empty());
    assert_eq!(e.exit_status, None);
}

#[test]
fn close_window_without_focus_is_noop() {
    let e = dispatch("file.close_window", None);
    assert_no_effect(&e);
}

#[test]
fn unregistered_identifier_is_noop() {
    for id in ["file.unknown", "", "FILE.LOGOUT", "file.logout ", "edit.undo", "separator"] {
        assert_no_effect(&dispatch(id, Some("main")));
        assert_eq!(route(id), MenuAction::Ignore);
    }
}

#[test]
fn preferences_emits_one_preferences_event() {
    let e = dispatch("edit.preferences", None);
    assert_eq!(event_names(&e), vec!["desktop://menu/preferences".to_string()]);
    assert_eq!(e.close_window, None);
    assert_eq!(e.exit_status, None);
}

#[test]
fn every_registered_identifier_has_one_effect() {
    let ids = [
        MENU_FILE_LOGOUT_ID,
        MENU_FILE_CLOSE_WINDOW_ID,
        MENU_FILE_QUIT_ID,
        MENU_EDIT_PREFERENCES_ID,
    ];
    for id in ids {
        assert_ne!(route(id), MenuAction::Ignore);
        let e = dispatch(id, Some("main"));
        let kinds = usize::from(!e.emitted.is_empty())
            + usize::from(e.close_window.is_some())
            + usize::from(e.exit_status.is_some());
        assert_eq!(kinds, 1);
        assert!(e.emitted.len() <= 1);
    }
}

#[test]
fn route_table() {
    assert_eq!(route("file.logout"), MenuAction::EmitToContent(ContentEvent::Logout));
    assert_eq!(route("file.close_window"), MenuAction::CloseFocusedWindow);
    assert_eq!(route("file.quit"), MenuAction::Terminate(0));
    assert_eq!(route("edit.preferences"), MenuAction::EmitToContent(ContentEvent::Preferences));
}

#[test]
fn event_names_are_namespaced() {
    assert_eq!(ContentEvent::Logout.name(), LOGOUT_EVENT_NAME);
    assert_eq!(ContentEvent::Preferences.name(), PREFERENCES_EVENT_NAME);
    assert_eq!(ContentEvent::Logout.name(), "desktop://menu/logout");
}

#[test]
fn logout_and_preferences_repeat_independently() {
    let run = ["file.logout", "edit.preferences", "file.logout", "file.logout", "edit.preferences"];
    for id in run {
        let names = event_names(&dispatch(id, None));
        if id == "file.logout" {
            assert_eq!(names, vec!["desktop://menu/logout".to_string()]);
        } else {
            assert_eq!(names, vec!["desktop://menu/preferences".to_string()]);
        }
    }
}
