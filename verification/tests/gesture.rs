use std::cell::RefCell;
use std::rc::Rc;

use swipe_gesture::touch::{SwipeDelta, Touch, TouchPhase, TouchPoint};
use swipe_gesture::user_input::InputHandler;

type Pair = fn(i64, i64) -> (i64, i64);

fn pair(dx: i64, dy: i64) -> (i64, i64) {
    (dx, dy)
}

fn sample(phase: TouchPhase, x: i32, y: i32) -> Touch {
    Touch { phase, location: TouchPoint { x, y } }
}

fn reporting() -> InputHandler<Pair> {
    let mut handler = InputHandler::<Pair>::new();
    handler.register_handler(pair);
    handler
}

#[test]
fn started_then_ended_reports_the_difference() {
    let mut handler = reporting();
    assert_eq!(handler.add_event(sample(TouchPhase::Started, 3, 4)), None);
    assert_eq!(handler.add_event(sample(TouchPhase::Ended, 10, 1)), Some((7, -3)));
}

#[test]
fn moves_between_start_and_end_do_not_count() {
    let mut handler = reporting();
    assert_eq!(handler.add_event(sample(TouchPhase::Started, 100, 200)), None);
    assert_eq!(handler.add_event(sample(TouchPhase::Moved, 150, 900)), None);
    assert_eq!(handler.add_event(sample(TouchPhase::Moved, -40, 0)), None);
    assert_eq!(handler.add_event(sample(TouchPhase::Ended, 180, 190)), Some((80, -10)));
}

#[test]
fn moved_never_calls_the_handler_nor_moves_the_start() {
    let calls = Rc::new(RefCell::new(Vec::new()));
    let seen = calls.clone();
    let mut handler = InputHandler::new();
    handler.register_handler(move |dx: i64, dy: i64| seen.borrow_mut().push((dx, dy)));
    assert_eq!(handler.add_event(sample(TouchPhase::Moved, 9, 9)), None);
    assert_eq!(handler.add_event(sample(TouchPhase::Started, 1, 1)), None);
    assert_eq!(handler.add_event(sample(TouchPhase::Moved, 100, 100)), None);
    assert!(calls.borrow().is_empty());
    assert_eq!(handler.add_event(sample(TouchPhase::Ended, 2, 3)), Some(()));
    assert_eq!(*calls.borrow(), vec![(1, 2)]);
}

#[test]
fn cancelled_gesture_calls_nothing() {
    let calls = Rc::new(RefCell::new(Vec::new()));
    let seen = calls.clone();
    let mut handler = InputHandler::new();
    handler.register_handler(move |dx: i64, dy: i64| seen.borrow_mut().push((dx, dy)));
    assert_eq!(handler.add_event(sample(TouchPhase::Started, 20, 30)), None);
    assert_eq!(handler.add_event(sample(TouchPhase::Moved, 25, 30)), None);
    assert_eq!(handler.add_event(sample(TouchPhase::Cancelled, 90, 30)), None);
    assert!(calls.borrow().is_empty());
}

#[test]
fn cancel_clears_the_recorded_start() {
    let mut handler = reporting();
    assert_eq!(handler.add_event(sample(TouchPhase::Started, 20, 30)), None);
    assert_eq!(handler.add_event(sample(TouchPhase::Cancelled, 21, 31)), None);
    assert_eq!(handler.add_event(sample(TouchPhase::Ended, 5, 6)), Some((5, 6)));
}

#[test]
fn second_start_discards_the_first() {
    let mut handler = reporting();
    assert_eq!(handler.add_event(sample(TouchPhase::Started, 0, 0)), None);
    assert_eq!(handler.add_event(sample(TouchPhase::Started, 10, 10)), None);
    let answer = handler.add_event(sample(TouchPhase::Ended, 70, 10));
    assert_eq!(answer, Some((60, 0)));
    assert_ne!(answer, Some((70, 10)));
}

#[test]
fn end_without_start_is_measured_from_the_origin() {
    let mut handler = reporting();
    assert_eq!(handler.add_event(sample(TouchPhase::Ended, 42, -17)), Some((42, -17)));
}

#[test]
fn end_clears_the_recorded_start() {
    let mut handler = reporting();
    assert_eq!(handler.add_event(sample(TouchPhase::Started, 10, 10)), None);
    assert_eq!(handler.add_event(sample(TouchPhase::Ended, 15, 12)), Some((5, 2)));
    assert_eq!(handler.add_event(sample(TouchPhase::Ended, 15, 12)), Some((15, 12)));
}

#[test]
fn gestures_follow_one_another() {
    let mut handler = reporting();
    assert_eq!(handler.add_event(sample(TouchPhase::Started, 0, 0)), None);
    assert_eq!(handler.add_event(sample(TouchPhase::Ended, 61, 0)), Some((61, 0)));
    assert_eq!(handler.add_event(sample(TouchPhase::Started, 61, 0)), None);
    assert_eq!(handler.add_event(sample(TouchPhase::Ended, 0, 5)), Some((-61, 5)));
}

#[test]
fn without_a_handler_nothing_is_called_and_the_start_is_cleared() {
    let mut handler = InputHandler::<Pair>::new();
    assert_eq!(handler.add_event(sample(TouchPhase::Started, 5, 5)), None);
    assert_eq!(handler.add_event(sample(TouchPhase::Ended, 6, 6)), None);
    handler.register_handler(pair);
    assert_eq!(handler.add_event(sample(TouchPhase::Ended, 7, 7)), Some((7, 7)));
}

#[test]
fn registering_keeps_the_gesture_in_progress() {
    let mut handler = InputHandler::<Pair>::new();
    assert_eq!(handler.add_event(sample(TouchPhase::Started, 1, 1)), None);
    handler.register_handler(pair);
    assert_eq!(handler.add_event(sample(TouchPhase::Ended, 4, 5)), Some((3, 4)));
}

#[test]
fn second_registration_replaces_the_first() {
    let first_calls = Rc::new(RefCell::new(Vec::new()));
    let second_calls = Rc::new(RefCell::new(Vec::new()));
    let first_seen = first_calls.clone();
    let second_seen = second_calls.clone();
    let mut handler: InputHandler<Box<dyn Fn(i64, i64) -> u8>> = InputHandler::new();
    handler.register_handler(Box::new(move |dx, dy| {
        first_seen.borrow_mut().push((dx, dy));
        1
    }));
    handler.register_handler(Box::new(move |dx, dy| {
        second_seen.borrow_mut().push((dx, dy));
        2
    }));
    assert_eq!(handler.add_event(sample(TouchPhase::Started, 10, 20)), None);
    assert_eq!(handler.add_event(sample(TouchPhase::Ended, 13, 18)), Some(2));
    assert_eq!(handler.add_event(sample(TouchPhase::Ended, 1, 1)), Some(2));
    assert!(first_calls.borrow().is_empty());
    assert_eq!(*second_calls.borrow(), vec![(3, -2), (1, 1)]);
}

#[test]
fn widest_gesture_does_not_overflow() {
    let mut handler = reporting();
    assert_eq!(handler.add_event(sample(TouchPhase::Started, i32::MIN, i32::MAX)), None);
    assert_eq!(
        handler.add_event(sample(TouchPhase::Ended, i32::MAX, i32::MIN)),
        Some((4294967295, -4294967295))
    );
}

#[test]
fn delta_between_two_points() {
    let start = TouchPoint::new(10, 10);
    let end = TouchPoint::new(70, 10);
    assert_eq!(SwipeDelta::between(start, end), SwipeDelta { dx: 60, dy: 0 });
    assert_eq!(SwipeDelta::between(end, start), SwipeDelta { dx: -60, dy: 0 });
    assert_eq!(SwipeDelta::between(start, start), SwipeDelta { dx: 0, dy: 0 });
    assert_eq!(
        SwipeDelta::between(TouchPoint::new(0, 0), TouchPoint::new(i32::MIN, i32::MAX)),
        SwipeDelta { dx: -2147483648, dy: 2147483647 }
    );
}

#[test]
fn new_point_holds_its_coordinates() {
    assert_eq!(TouchPoint::new(-3, 8), TouchPoint { x: -3, y: 8 });
}
