use leet_rs::callback::{callback, leet};
use leet_rs::error_slot::ErrorSlot;
use leet_rs::fault::{contain_fault, error_msg, set_error, FaultPayload};
use leet_rs::point::{Point, Point_drop, Point_manhattan, Point_new, Point_operate};

#[test]
fn take_with_no_prior_set_returns_none() {
    let mut slot = ErrorSlot::new();
    assert_eq!(slot.take(), None);
}

#[test]
fn last_set_wins_and_take_drains_once() {
    let mut slot = ErrorSlot::new();
    slot.set(String::from("A"));
    slot.set(String::from("B"));
    assert_eq!(slot.take().as_deref(), Some("B"));
    assert_eq!(slot.take(), None);
}

#[test]
fn reset_clears_the_slot() {
    let mut slot = ErrorSlot::new();
    slot.set(String::from("stale"));
    slot.reset();
    assert_eq!(slot.take(), None);
}

#[test]
fn error_msg_prefers_static_text() {
    let p = FaultPayload::Literal("boom");
    assert_eq!(error_msg(&p), "boom");
}

#[test]
fn error_msg_uses_dynamic_text() {
    let p = FaultPayload::Message(String::from("built at fault time"));
    assert_eq!(error_msg(&p), "built at fault time");
}

#[test]
fn error_msg_falls_back_on_opaque_payload() {
    let p = FaultPayload::Opaque;
    assert_eq!(error_msg(&p), "Unknown error");
}

#[test]
fn set_error_arms_the_slot() {
    let mut slot = ErrorSlot::new();
    set_error(&mut slot, &FaultPayload::Literal("recorded"));
    assert_eq!(slot.take().as_deref(), Some("recorded"));
}

#[test]
fn normal_outcome_passes_through_barrier() {
    let mut slot = ErrorSlot::new();
    let r = contain_fault(&mut slot, Ok::<i64, FaultPayload>(7), -1);
    assert_eq!(r, 7);
    assert_eq!(slot.take(), None);
}

#[test]
fn contained_fault_yields_sentinel_and_one_message() {
    let mut slot = ErrorSlot::new();
    let r = contain_fault(&mut slot, Err::<i64, FaultPayload>(FaultPayload::Literal("kaboom")), -1);
    assert_eq!(r, -1);
    assert_eq!(slot.take().as_deref(), Some("kaboom"));
    assert_eq!(slot.take(), None);
}

#[test]
fn two_contained_faults_leave_one_whole_message() {
    let mut slot = ErrorSlot::new();
    let _ = contain_fault(&mut slot, Err::<i64, FaultPayload>(FaultPayload::Literal("first")), -1);
    let _ = contain_fault(&mut slot, Err::<i64, FaultPayload>(FaultPayload::Literal("second")), -1);
    let msg = slot.take().expect("a message must be retrievable");
    assert_eq!(msg, "second");
    assert_eq!(slot.take(), None);
}

#[test]
fn point_accessors_read_the_coordinates() {
    let p = Point::new(-7, 12);
    assert_eq!(p.x(), -7);
    assert_eq!(p.y(), 12);
}

#[test]
fn manhattan_on_negative_points() {
    let p = Point::new(-3, -4);
    let q = Point::new(5, 6);
    assert_eq!(p.manhattan(&q), 18);
}

#[test]
fn construct_then_destroy_never_faults() {
    let b = Point_new(3, 4);
    Point_drop(Some(b));
}

#[test]
fn destroy_absent_point_is_noop() {
    Point_drop(None);
}

#[test]
fn guarded_manhattan_happy_path() {
    let mut slot = ErrorSlot::new();
    let r = Point_manhattan(&mut slot, Point::new(-3, -4), Point::new(5, 6));
    assert_eq!(r, 18);
    assert_eq!(slot.take(), None);
}

#[test]
fn guarded_manhattan_precondition_violation_is_contained() {
    let mut slot = ErrorSlot::new();
    let r = Point_manhattan(&mut slot, Point::new(3, 4), Point::new(5, 6));
    assert_eq!(r, -1);
    let msg = slot.take().expect("a message must be retrievable");
    assert!(!msg.is_empty());
    assert_eq!(msg, "assertion failed: self.x < 0 && self.y < 0");
    assert_eq!(slot.take(), None);
}

#[test]
fn guarded_manhattan_overflow_is_contained() {
    let mut slot = ErrorSlot::new();
    let r = Point_manhattan(
        &mut slot,
        Point::new(i64::MIN, i64::MIN),
        Point::new(i64::MAX, i64::MAX),
    );
    assert_eq!(r, -1);
    assert_eq!(slot.take().as_deref(), Some("attempt to add with overflow"));
}

#[test]
fn operate_hands_fixed_points_to_the_callback() {
    let r = Point_operate(|_p1: Point, _p2: Point| 7i64);
    assert_eq!(r, 7);
}

#[test]
fn leet_returns_the_probe_value() {
    assert_eq!(leet(), 1337);
}

#[test]
fn callback_receives_the_fixed_operands() {
    assert_eq!(callback(|a: i64, b: i64| a + b), 50);
    assert_eq!(callback(|a: i64, b: i64| a * b), 481);
}
