use freecam::cursor_grab::{
    cursor_grab, toggle_cursor_grab, CursorAction, CursorGrab, FocusEvent,
};

#[test]
fn state_queries() {
    let mut g = CursorGrab::Inactive;
    assert!(g.is_inactive());
    assert!(!g.is_active());
    g.activate();
    assert!(g.is_active());
    assert!(!g.is_inactive());
    g.deactivate();
    assert!(g.is_inactive());
}

#[test]
fn mouse_press_activates_when_inactive() {
    let mut g = CursorGrab::Inactive;
    toggle_cursor_grab(&mut g, true, false);
    assert!(g.is_active());
    // A further mouse press changes nothing.
    toggle_cursor_grab(&mut g, true, false);
    assert!(g.is_active());
}

#[test]
fn escape_deactivates_when_active() {
    let mut g = CursorGrab::Active;
    toggle_cursor_grab(&mut g, false, true);
    assert!(g.is_inactive());
    // Escape alone does not activate.
    toggle_cursor_grab(&mut g, false, true);
    assert!(g.is_inactive());
}

#[test]
fn both_edges_in_one_frame_end_inactive() {
    // The mouse press activates first, then escape deactivates.
    let mut g = CursorGrab::Inactive;
    toggle_cursor_grab(&mut g, true, true);
    assert!(g.is_inactive());
    let mut g = CursorGrab::Active;
    toggle_cursor_grab(&mut g, true, true);
    assert!(g.is_inactive());
}

#[test]
fn activation_grabs_a_focused_window() {
    let a = cursor_grab(&CursorGrab::Active, true, true, false, &vec![]);
    assert_eq!(a, CursorAction::Grab);
}

#[test]
fn activation_on_unfocused_window_waits() {
    let a = cursor_grab(&CursorGrab::Active, true, false, false, &vec![]);
    assert_eq!(a, CursorAction::Keep);
}

#[test]
fn deactivation_releases_a_grabbed_cursor() {
    let a = cursor_grab(&CursorGrab::Inactive, true, false, true, &vec![]);
    assert_eq!(a, CursorAction::Release);
    let b = cursor_grab(&CursorGrab::Inactive, true, false, false, &vec![]);
    assert_eq!(b, CursorAction::Keep);
}

#[test]
fn inactive_without_change_keeps() {
    let a = cursor_grab(&CursorGrab::Inactive, false, true, true, &vec![]);
    assert_eq!(a, CursorAction::Keep);
}

#[test]
fn losing_focus_releases_while_active() {
    let events = vec![FocusEvent { primary: true, focused: false }];
    let a = cursor_grab(&CursorGrab::Active, false, false, true, &events);
    assert_eq!(a, CursorAction::Release);
}

#[test]
fn regaining_focus_grabs_while_active() {
    let events = vec![FocusEvent { primary: true, focused: true }];
    let a = cursor_grab(&CursorGrab::Active, false, true, false, &events);
    assert_eq!(a, CursorAction::Grab);
}

#[test]
fn other_windows_focus_events_are_ignored() {
    let events = vec![
        FocusEvent { primary: false, focused: false },
        FocusEvent { primary: false, focused: true },
    ];
    let a = cursor_grab(&CursorGrab::Active, false, false, true, &events);
    assert_eq!(a, CursorAction::Keep);
}

#[test]
fn a_later_primary_event_counts() {
    let events = vec![
        FocusEvent { primary: false, focused: true },
        FocusEvent { primary: true, focused: false },
    ];
    let a = cursor_grab(&CursorGrab::Active, false, false, true, &events);
    assert_eq!(a, CursorAction::Release);
}

#[test]
fn no_events_keep_the_cursor() {
    let a = cursor_grab(&CursorGrab::Active, false, true, true, &vec![]);
    assert_eq!(a, CursorAction::Keep);
}
