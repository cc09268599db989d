use button_controller::math::{Matrix2d, Rectangle, Vec2d};
use button_controller::{
    ButtonController, ButtonEvent, ButtonState, ButtonVisual, PointerSample, TouchPhase,
    TouchSample,
};

fn rect() -> Rectangle {
    Rectangle { x: 10, y: 60, w: 280, h: 180 }
}

fn motion(x: i32, y: i32) -> PointerSample {
    PointerSample { cursor: Some(Vec2d { x, y }), press: false, release: false }
}

fn press() -> PointerSample {
    PointerSample { cursor: None, press: true, release: false }
}

fn release() -> PointerSample {
    PointerSample { cursor: None, press: false, release: true }
}

fn touch(phase: TouchPhase, x: i32, y: i32) -> TouchSample {
    TouchSample { phase, position: Vec2d { x, y } }
}

#[test]
fn new_controller_is_idle() {
    let c = ButtonController::new();
    assert!(!c.mouse_cursor_inside());
    assert!(!c.was_inside());
    assert!(!c.pressed());
    assert_eq!(c.pressed_at(), None);
    assert!(c.events().is_empty());
}

#[test]
fn press_outside_is_ignored() {
    let t = Matrix2d::identity();
    let mut c = ButtonController::new();
    c.event(rect(), t, motion(500, 500), 0);
    assert!(c.events().is_empty());
    c.event(rect(), t, press(), 1);
    assert!(!c.pressed());
    assert!(!c.was_inside());
    assert_eq!(c.pressed_at(), None);
    assert!(c.events().is_empty());
}

#[test]
fn release_without_accepted_press_is_silent() {
    let t = Matrix2d::identity();
    let mut c = ButtonController::new();
    c.event(rect(), t, release(), 0);
    assert!(c.events().is_empty());
    assert!(!c.pressed());
}

#[test]
fn press_then_release_inside_clicks() {
    let t = Matrix2d::identity();
    let mut c = ButtonController::new();
    c.event(rect(), t, motion(50, 100), 0);
    c.clear_events();
    c.event(rect(), t, press(), 10);
    assert_eq!(*c.events(), vec![ButtonEvent::Press]);
    assert!(c.pressed());
    assert_eq!(c.pressed_at(), Some(10));
    c.event(rect(), t, release(), 11);
    assert_eq!(*c.events(), vec![ButtonEvent::Press, ButtonEvent::Click]);
    assert!(!c.pressed());
    assert!(!c.was_inside());
    assert!(c.mouse_cursor_inside());
}

#[test]
fn press_and_release_in_one_sample_clicks() {
    let t = Matrix2d::identity();
    let mut c = ButtonController::new();
    c.event(rect(), t, motion(50, 100), 0);
    c.clear_events();
    c.event(
        rect(),
        t,
        PointerSample { cursor: None, press: true, release: true },
        5,
    );
    assert_eq!(*c.events(), vec![ButtonEvent::Press, ButtonEvent::Click]);
}

#[test]
fn press_move_out_then_release_cancels() {
    let t = Matrix2d::identity();
    let mut c = ButtonController::new();
    c.event(rect(), t, motion(50, 100), 0);
    c.clear_events();
    c.event(rect(), t, press(), 10);
    c.event(rect(), t, motion(500, 500), 11);
    c.event(rect(), t, release(), 12);
    assert_eq!(
        *c.events(),
        vec![ButtonEvent::Press, ButtonEvent::MouseLeave, ButtonEvent::Cancel]
    );
    assert!(!c.pressed());
    assert!(!c.mouse_cursor_inside());
}

#[test]
fn repeated_motion_sample_reports_once() {
    let t = Matrix2d::identity();
    let mut c = ButtonController::new();
    c.event(rect(), t, motion(50, 100), 0);
    assert_eq!(*c.events(), vec![ButtonEvent::MouseEnter]);
    c.event(rect(), t, motion(50, 100), 1);
    assert_eq!(*c.events(), vec![ButtonEvent::MouseEnter]);
    c.event(rect(), t, motion(60, 100), 2);
    assert_eq!(*c.events(), vec![ButtonEvent::MouseEnter]);
}

#[test]
fn touch_start_outside_then_end_is_silent() {
    let t = Matrix2d::identity();
    let mut c = ButtonController::new();
    c.touch_event(rect(), t, touch(TouchPhase::Start, 500, 500), 0);
    c.touch_event(rect(), t, touch(TouchPhase::End, 500, 500), 1);
    assert!(c.events().is_empty());
    assert!(!c.pressed());
    assert!(!c.was_inside());
    assert!(!c.mouse_cursor_inside());
}

#[test]
fn touch_start_inside_presses_without_enter_event() {
    let t = Matrix2d::identity();
    let mut c = ButtonController::new();
    c.touch_event(rect(), t, touch(TouchPhase::Start, 50, 100), 7);
    assert_eq!(*c.events(), vec![ButtonEvent::Press]);
    assert!(c.pressed());
    assert!(c.was_inside());
    assert!(c.mouse_cursor_inside());
    assert_eq!(c.pressed_at(), Some(7));
}

#[test]
fn touch_move_applies_enter_and_leave() {
    let t = Matrix2d::identity();
    let mut c = ButtonController::new();
    c.touch_event(rect(), t, touch(TouchPhase::Move, 50, 100), 0);
    assert_eq!(*c.events(), vec![ButtonEvent::MouseEnter]);
    c.touch_event(rect(), t, touch(TouchPhase::Move, 500, 500), 1);
    assert_eq!(*c.events(), vec![ButtonEvent::MouseEnter, ButtonEvent::MouseLeave]);
}

#[test]
fn touch_end_resets_hover_unlike_pointer_release() {
    let t = Matrix2d::identity();
    let mut c = ButtonController::new();
    c.touch_event(rect(), t, touch(TouchPhase::Start, 50, 100), 0);
    c.clear_events();
    c.touch_event(rect(), t, touch(TouchPhase::End, 50, 100), 1);
    assert_eq!(*c.events(), vec![ButtonEvent::Click]);
    assert!(!c.pressed());
    assert!(!c.was_inside());
    assert!(!c.mouse_cursor_inside());
}

#[test]
fn touch_leave_then_end_cancels() {
    let t = Matrix2d::identity();
    let mut c = ButtonController::new();
    c.touch_event(rect(), t, touch(TouchPhase::Start, 50, 100), 0);
    c.touch_event(rect(), t, touch(TouchPhase::Move, 500, 500), 1);
    c.touch_event(rect(), t, touch(TouchPhase::End, 500, 500), 2);
    assert_eq!(
        *c.events(),
        vec![ButtonEvent::Press, ButtonEvent::MouseLeave, ButtonEvent::Cancel]
    );
}

#[test]
fn touch_hardware_cancel_is_a_true_noop() {
    let t = Matrix2d::identity();
    let mut c = ButtonController::new();
    c.touch_event(rect(), t, touch(TouchPhase::Start, 50, 100), 0);
    let before = c.events().clone();
    c.touch_event(rect(), t, touch(TouchPhase::Cancel, 50, 100), 1);
    assert_eq!(*c.events(), before);
    assert!(c.pressed());
    assert!(c.was_inside());
    assert!(c.mouse_cursor_inside());
}

#[test]
fn appear_pressed_within_and_after_grace() {
    let t = Matrix2d::identity();
    let mut c = ButtonController::new();
    c.event(rect(), t, motion(50, 100), 0);
    c.event(rect(), t, press(), 100);
    c.event(rect(), t, release(), 110);
    assert!(!c.pressed());
    assert!(c.appear_pressed(200, 250));
    assert!(!c.appear_pressed(200, 300));
    assert!(c.appear_pressed(200, 299));
}

#[test]
fn grace_period_visual_shows_press_then_hover() {
    let t = Matrix2d::identity();
    let mut c = ButtonController::new();
    c.event(rect(), t, motion(50, 100), 0);
    c.event(rect(), t, press(), 1000);
    c.event(rect(), t, release(), 1010);
    // Cursor still inside: pressed appearance within grace shows Press,
    // afterwards the real (unpressed, inside) pair shows Hover.
    assert_eq!(c.state(200, 1100), ButtonState::Press);
    assert_eq!(c.state(200, 1200), ButtonState::Hover);
}

#[test]
fn end_to_end_pointer_scenario() {
    let t = Matrix2d::identity();
    let mut c = ButtonController::new();

    c.event(rect(), t, motion(50, 100), 0);
    assert_eq!(*c.events(), vec![ButtonEvent::MouseEnter]);
    c.clear_events();

    c.event(rect(), t, press(), 1000);
    assert_eq!(*c.events(), vec![ButtonEvent::Press]);
    c.clear_events();

    c.event(rect(), t, motion(500, 500), 1050);
    assert_eq!(*c.events(), vec![ButtonEvent::MouseLeave]);
    c.clear_events();

    c.event(rect(), t, release(), 1100);
    assert_eq!(*c.events(), vec![ButtonEvent::Cancel]);

    // Grace period of 200 ticks: right after the release the button still
    // appears pressed with the cursor outside, so the state is Cancel; once
    // the grace period has elapsed it falls back to Inactive.
    assert_eq!(c.state(200, 1101), ButtonState::Cancel);
    assert_eq!(c.state(200, 1300), ButtonState::Inactive);
}

#[test]
fn visual_state_table_is_total() {
    let combos = [
        (true, true, ButtonState::Press),
        (true, false, ButtonState::Cancel),
        (false, true, ButtonState::Hover),
        (false, false, ButtonState::Inactive),
    ];
    for &(appear_pressed, mouse_cursor_inside, expected) in combos.iter() {
        let v = ButtonVisual { appear_pressed, mouse_cursor_inside };
        assert_eq!(v.state(), expected);
    }
}

#[test]
fn clear_events_keeps_flags() {
    let t = Matrix2d::identity();
    let mut c = ButtonController::new();
    c.event(rect(), t, motion(50, 100), 0);
    c.event(rect(), t, press(), 1);
    c.clear_events();
    assert!(c.events().is_empty());
    assert!(c.pressed());
    assert!(c.was_inside());
    assert!(c.mouse_cursor_inside());
    assert_eq!(c.pressed_at(), Some(1));
}
