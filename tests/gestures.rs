use appmarkable::geometry::{is_hitting, Point, Rect};
use appmarkable::input::{
    corner_bottom_left, corner_bottom_right, Button, ButtonFlags, Finger, InputEvent, InputState, CORNER_SIZE,
};
use appmarkable::trigger::{corners_touched_by, QuitTrigger};

fn touch(id: i32, x: u16, y: u16, pressed: bool) -> InputEvent {
    InputEvent::Touch { finger: Finger { id, pos: Point { x, y }, pressed } }
}

fn press(button: Button, pressed: bool) -> InputEvent {
    InputEvent::Press { button, pressed }
}

fn state_after(events: Vec<InputEvent>) -> InputState {
    let mut s = InputState::new();
    s.update(&events);
    s
}

#[test]
fn corner_regions() {
    assert_eq!(CORNER_SIZE, 100);
    assert_eq!(corner_bottom_left(), Rect { top: 1772, left: 0, width: 100, height: 100 });
    assert_eq!(corner_bottom_right(), Rect { top: 1772, left: 1304, width: 100, height: 100 });
}

#[test]
fn hit_test_is_half_open() {
    let r = Rect { top: 10, left: 20, width: 5, height: 3 };
    assert!(is_hitting(Point { x: 20, y: 10 }, r));
    assert!(is_hitting(Point { x: 24, y: 12 }, r));
    assert!(!is_hitting(Point { x: 25, y: 10 }, r));
    assert!(!is_hitting(Point { x: 20, y: 13 }, r));
    assert!(!is_hitting(Point { x: 19, y: 11 }, r));
    assert!(!is_hitting(Point { x: 0, y: 0 }, Rect { top: 0, left: 0, width: 0, height: 0 }));
}

#[test]
fn both_corners_touched_quits() {
    let s = state_after(vec![touch(0, 50, 1800, true), touch(1, 1350, 1850, true)]);
    assert!(QuitTrigger::TouchCorners.evaluate(&s));
    assert!(corners_touched_by(s.fingers()));
}

#[test]
fn one_corner_only_does_not_quit() {
    let s = state_after(vec![touch(0, 50, 1800, true)]);
    assert!(!QuitTrigger::TouchCorners.evaluate(&s));
    let s = state_after(vec![touch(0, 50, 1800, true), touch(1, 700, 900, true)]);
    assert!(!QuitTrigger::TouchCorners.evaluate(&s));
}

#[test]
fn same_corner_twice_does_not_quit() {
    let s = state_after(vec![touch(0, 10, 1780, true), touch(1, 90, 1860, true)]);
    assert!(!QuitTrigger::TouchCorners.evaluate(&s));
    let s = state_after(vec![touch(0, 1310, 1780, true), touch(1, 1400, 1870, true)]);
    assert!(!QuitTrigger::TouchCorners.evaluate(&s));
}

#[test]
fn third_finger_blocks_gesture() {
    let s = state_after(vec![touch(0, 50, 1800, true), touch(1, 1350, 1850, true), touch(2, 700, 900, true)]);
    assert!(!QuitTrigger::TouchCorners.evaluate(&s));
    let s = state_after(vec![
        touch(0, 50, 1800, true),
        touch(1, 1350, 1850, true),
        touch(2, 700, 900, true),
        touch(2, 700, 900, false),
    ]);
    assert!(QuitTrigger::TouchCorners.evaluate(&s));
}

#[test]
fn latest_touch_state_wins() {
    let mut s = state_after(vec![touch(0, 50, 1800, true), touch(1, 1350, 1850, true)]);
    assert!(QuitTrigger::TouchCorners.evaluate(&s));
    s.apply(touch(1, 1350, 1850, false));
    assert!(!QuitTrigger::TouchCorners.evaluate(&s));
    assert_eq!(s.fingers().len(), 2);
    s.apply(touch(1, 700, 1850, true));
    assert!(!QuitTrigger::TouchCorners.evaluate(&s));
    assert_eq!(s.fingers()[1], Finger { id: 1, pos: Point { x: 700, y: 1850 }, pressed: true });
    s.apply(touch(1, 1390, 1790, true));
    assert!(QuitTrigger::TouchCorners.evaluate(&s));
}

#[test]
fn fresh_state_does_not_quit() {
    let s = InputState::new();
    assert!(s.fingers().is_empty());
    assert_eq!(s.buttons(), ButtonFlags::released());
    assert!(!QuitTrigger::TouchCorners.evaluate(&s));
    let combo = QuitTrigger::ButtonCombo { first: Button::Left, second: Button::Right };
    assert!(!combo.evaluate(&s));
}

#[test]
fn button_combo() {
    let combo = QuitTrigger::ButtonCombo { first: Button::Left, second: Button::Right };
    let mut s = state_after(vec![press(Button::Left, true)]);
    assert!(!combo.evaluate(&s));
    s.apply(press(Button::Right, true));
    assert!(combo.evaluate(&s));
    s.apply(press(Button::Left, false));
    assert!(!combo.evaluate(&s));
    s.apply(press(Button::Left, true));
    assert!(combo.evaluate(&s));
    s.apply(press(Button::Right, false));
    assert!(!combo.evaluate(&s));
    let s = state_after(vec![press(Button::Right, true)]);
    assert!(!combo.evaluate(&s));
}

#[test]
fn other_buttons_do_not_count() {
    let combo = QuitTrigger::ButtonCombo { first: Button::Left, second: Button::Right };
    let s = state_after(vec![press(Button::Middle, true), press(Button::Power, true), press(Button::WakeUp, true)]);
    assert!(!combo.evaluate(&s));
    let b = s.buttons();
    assert!(b.is_held(Button::Middle) && b.is_held(Button::Power) && b.is_held(Button::WakeUp));
    assert!(!b.is_held(Button::Left) && !b.is_held(Button::Right));
}

#[test]
fn button_flags_set() {
    let mut f = ButtonFlags::released();
    f.set(Button::Power, true);
    assert_eq!(f, ButtonFlags { left: false, middle: false, right: false, power: true, wake_up: false });
    f.set(Button::Power, false);
    assert_eq!(f, ButtonFlags::released());
}
