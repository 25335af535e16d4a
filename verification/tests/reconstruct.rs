use mouse_smoother::events::EventKind;
use mouse_smoother::reconstruct::{reconstruct_axis, wheel_notches, WheelEvent};

#[test]
fn round_trip_full_notches() {
    // 360 high-resolution units are three notches: both events emitted.
    let events = reconstruct_axis(EventKind::Wheel, EventKind::WheelHiRes, 360);
    assert_eq!(
        events,
        vec![
            WheelEvent { kind: EventKind::Wheel, value: 3 },
            WheelEvent { kind: EventKind::WheelHiRes, value: 360 },
        ]
    );
}

#[test]
fn round_trip_sub_notch() {
    // 50 units are less than one notch: only the high-resolution event.
    let events = reconstruct_axis(EventKind::Wheel, EventKind::WheelHiRes, 50);
    assert_eq!(events, vec![WheelEvent { kind: EventKind::WheelHiRes, value: 50 }]);
}

#[test]
fn suppressed_delta_emits_nothing() {
    let events = reconstruct_axis(EventKind::Wheel, EventKind::WheelHiRes, 0);
    assert!(events.is_empty());
}

#[test]
fn negative_deltas() {
    let events = reconstruct_axis(EventKind::HWheel, EventKind::HWheelHiRes, -360);
    assert_eq!(
        events,
        vec![
            WheelEvent { kind: EventKind::HWheel, value: -3 },
            WheelEvent { kind: EventKind::HWheelHiRes, value: -360 },
        ]
    );
    let events = reconstruct_axis(EventKind::HWheel, EventKind::HWheelHiRes, -50);
    assert_eq!(events, vec![WheelEvent { kind: EventKind::HWheelHiRes, value: -50 }]);
}

#[test]
fn notches_truncate_toward_zero() {
    assert_eq!(wheel_notches(0), 0);
    assert_eq!(wheel_notches(119), 0);
    assert_eq!(wheel_notches(120), 1);
    assert_eq!(wheel_notches(360), 3);
    assert_eq!(wheel_notches(379), 3);
    assert_eq!(wheel_notches(-119), 0);
    assert_eq!(wheel_notches(-120), -1);
    assert_eq!(wheel_notches(-379), -3);
}

#[test]
fn notches_at_the_extremes() {
    assert_eq!(wheel_notches(i32::MAX), i32::MAX / 120);
    assert_eq!(wheel_notches(i32::MIN), i32::MIN / 120);
}
