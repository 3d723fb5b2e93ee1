use learn_opengl::camera::{Axis, CameraMovement, MovementKeys};
use learn_opengl::input::{route_mouse_event, CursorTracker, Difference, InputEvent, MouseAction};

fn value(d: Difference<f32>) -> f32 {
    d.minuend - d.subtrahend
}

#[test]
fn forward_and_backward_move_along_front() {
    assert_eq!(CameraMovement::FORWARD.axis(), Axis::Front);
    assert_eq!(CameraMovement::BACKWARD.axis(), Axis::Front);
    assert_eq!(CameraMovement::FORWARD.sign(), 1);
    assert_eq!(CameraMovement::BACKWARD.sign(), -1);
}

#[test]
fn left_and_right_move_along_right() {
    assert_eq!(CameraMovement::LEFT.axis(), Axis::Right);
    assert_eq!(CameraMovement::RIGHT.axis(), Axis::Right);
    assert_eq!(CameraMovement::LEFT.sign(), -1);
    assert_eq!(CameraMovement::RIGHT.sign(), 1);
}

#[test]
fn no_keys_no_movement() {
    let keys = MovementKeys { forward: false, backward: false, left: false, right: false };
    assert!(keys.held_movements().is_empty());
}

#[test]
fn held_keys_in_fixed_order() {
    let keys = MovementKeys { forward: true, backward: false, left: true, right: true };
    assert_eq!(
        keys.held_movements(),
        vec![CameraMovement::FORWARD, CameraMovement::LEFT, CameraMovement::RIGHT]
    );
    let all = MovementKeys { forward: true, backward: true, left: true, right: true };
    assert_eq!(
        all.held_movements(),
        vec![
            CameraMovement::FORWARD,
            CameraMovement::BACKWARD,
            CameraMovement::LEFT,
            CameraMovement::RIGHT
        ]
    );
}

#[test]
fn first_cursor_event_only_seeds() {
    let mut tracker = CursorTracker::new(0.0f32, 0.0f32);
    let first = tracker.track(640.0, 360.0);
    assert_eq!(value(first.x), 0.0);
    assert_eq!(value(first.y), 0.0);
    assert!(!tracker.first_mouse);
    assert_eq!((tracker.last_x, tracker.last_y), (640.0, 360.0));
}

#[test]
fn second_cursor_event_gives_difference_with_y_inverted() {
    let mut tracker = CursorTracker::new(0.0f32, 0.0f32);
    tracker.track(640.0, 360.0);
    let second = tracker.track(650.0, 340.0);
    assert_eq!(value(second.x), 10.0);
    assert_eq!(value(second.y), 20.0);
    let third = tracker.track(645.0, 350.0);
    assert_eq!(value(third.x), -5.0);
    assert_eq!(value(third.y), -10.0);
}

#[test]
fn scroll_forwards_vertical_amount_only() {
    let mut tracker = CursorTracker::new(0.0f32, 0.0f32);
    let action = route_mouse_event(&mut tracker, InputEvent::Scroll(3.0, -1.0));
    assert_eq!(action, MouseAction::Zoom(-1.0));
    assert!(tracker.first_mouse);
}

#[test]
fn other_events_are_ignored() {
    let mut tracker = CursorTracker::new(1.0f32, 2.0f32);
    let action = route_mouse_event(&mut tracker, InputEvent::Other);
    assert_eq!(action, MouseAction::Ignore);
    assert_eq!(tracker, CursorTracker::new(1.0f32, 2.0f32));
}

#[test]
fn cursor_events_go_through_the_tracker() {
    let mut tracker = CursorTracker::new(0.0f32, 0.0f32);
    match route_mouse_event(&mut tracker, InputEvent::CursorPos(5.0, 5.0)) {
        MouseAction::Look(o) => assert_eq!((value(o.x), value(o.y)), (0.0, 0.0)),
        other => panic!("unexpected {:?}", other),
    }
    match route_mouse_event(&mut tracker, InputEvent::CursorPos(15.0, 0.0)) {
        MouseAction::Look(o) => assert_eq!((value(o.x), value(o.y)), (10.0, 5.0)),
        other => panic!("unexpected {:?}", other),
    }
}
