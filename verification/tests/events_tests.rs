use mandel_viewer::events::{CameraMove, Event, Viewer};

fn idle() -> Viewer {
    Viewer { should_quit: false, should_redraw: false }
}

#[test]
fn new_viewer_draws_its_first_frame() {
    let mut viewer = Viewer::new();
    assert!(!viewer.should_quit);
    assert!(viewer.should_redraw);
    assert!(viewer.take_redraw());
    assert!(!viewer.should_redraw);
    assert!(!viewer.take_redraw());
    assert!(!viewer.should_quit);
}

#[test]
fn quit_event_ends_the_viewer() {
    let mut viewer = idle();
    assert_eq!(viewer.handle_event(&Event::Quit), CameraMove::Stay);
    assert_eq!(viewer, Viewer { should_quit: true, should_redraw: false });
}

#[test]
fn escape_key_ends_the_viewer() {
    let mut viewer = idle();
    let event = Event::KeyDown { key: Some(String::from("Escape")) };
    assert_eq!(viewer.handle_event(&event), CameraMove::Stay);
    assert_eq!(viewer, Viewer { should_quit: true, should_redraw: false });
}

#[test]
fn other_keys_change_nothing() {
    for key in [Some("Q"), Some("escape"), Some("Escape "), Some(""), None] {
        let mut viewer = idle();
        let event = Event::KeyDown { key: key.map(String::from) };
        assert_eq!(viewer.handle_event(&event), CameraMove::Stay);
        assert_eq!(viewer, idle());
    }
}

#[test]
fn drag_with_the_left_button_pans() {
    let mut viewer = idle();
    let event = Event::MouseMotion { left: true, xrel: 3, yrel: -4 };
    assert_eq!(viewer.handle_event(&event), CameraMove::Pan { dx: 3, dy: -4 });
    assert_eq!(viewer, Viewer { should_quit: false, should_redraw: true });
}

#[test]
fn drag_by_nothing_still_redraws() {
    let mut viewer = idle();
    let event = Event::MouseMotion { left: true, xrel: 0, yrel: 0 };
    assert_eq!(viewer.handle_event(&event), CameraMove::Pan { dx: 0, dy: 0 });
    assert!(viewer.should_redraw);
}

#[test]
fn drag_keeps_the_extremes() {
    let mut viewer = idle();
    let event = Event::MouseMotion { left: true, xrel: i32::MIN, yrel: i32::MAX };
    assert_eq!(
        viewer.handle_event(&event),
        CameraMove::Pan { dx: i32::MIN, dy: i32::MAX }
    );
}

#[test]
fn motion_without_the_left_button_changes_nothing() {
    let mut viewer = idle();
    let event = Event::MouseMotion { left: false, xrel: 3, yrel: -4 };
    assert_eq!(viewer.handle_event(&event), CameraMove::Stay);
    assert_eq!(viewer, idle());
}

#[test]
fn wheel_zooms_by_its_direction() {
    for (y, camera) in [
        (1, CameraMove::ZoomIn),
        (5, CameraMove::ZoomIn),
        (i32::MAX, CameraMove::ZoomIn),
        (-1, CameraMove::ZoomOut),
        (i32::MIN, CameraMove::ZoomOut),
    ] {
        let mut viewer = idle();
        assert_eq!(viewer.handle_event(&Event::MouseWheel { y }), camera);
        assert_eq!(viewer, Viewer { should_quit: false, should_redraw: true });
    }
}

#[test]
fn wheel_that_did_not_turn_changes_nothing() {
    let mut viewer = idle();
    assert_eq!(viewer.handle_event(&Event::MouseWheel { y: 0 }), CameraMove::Stay);
    assert_eq!(viewer, idle());
}

#[test]
fn change_of_size_redraws() {
    let mut viewer = idle();
    assert_eq!(viewer.handle_event(&Event::SizeChanged), CameraMove::Stay);
    assert_eq!(viewer, Viewer { should_quit: false, should_redraw: true });
}

#[test]
fn other_events_change_nothing() {
    let mut viewer = idle();
    assert_eq!(viewer.handle_event(&Event::Other), CameraMove::Stay);
    assert_eq!(viewer, idle());
    let mut viewer = Viewer::new();
    assert_eq!(viewer.handle_event(&Event::Other), CameraMove::Stay);
    assert_eq!(viewer, Viewer::new());
}

#[test]
fn flags_that_are_set_stay_set() {
    let mut viewer = Viewer { should_quit: true, should_redraw: true };
    for event in [
        Event::Other,
        Event::Quit,
        Event::SizeChanged,
        Event::MouseWheel { y: 0 },
        Event::MouseMotion { left: false, xrel: 1, yrel: 1 },
        Event::KeyDown { key: None },
    ] {
        viewer.handle_event(&event);
        assert_eq!(viewer, Viewer { should_quit: true, should_redraw: true });
    }
}

#[test]
fn take_redraw_keeps_the_quit_flag() {
    let mut viewer = Viewer { should_quit: true, should_redraw: true };
    assert!(viewer.take_redraw());
    assert_eq!(viewer, Viewer { should_quit: true, should_redraw: false });
}
