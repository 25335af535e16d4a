use mouse_smoother::events::{EventKind, RawEvent};
use mouse_smoother::extract::{extract, resolve_hi_res, WheelSample, MAX_STANDARD_DELTA};

fn ev(kind: EventKind, value: i32) -> RawEvent {
    RawEvent { kind, value }
}

#[test]
fn extracts_each_kind() {
    let batch = vec![
        ev(EventKind::Other, 9),
        ev(EventKind::Wheel, 1),
        ev(EventKind::WheelHiRes, 120),
        ev(EventKind::HWheel, -2),
        ev(EventKind::HWheelHiRes, -240),
    ];
    let e = extract(&batch);
    assert!(e.has_wheel);
    assert_eq!(e.vertical, WheelSample { standard: 1, hi_res: 120 });
    assert_eq!(e.horizontal, WheelSample { standard: -2, hi_res: -240 });
}

#[test]
fn later_event_of_same_kind_wins() {
    let batch = vec![
        ev(EventKind::Wheel, 2),
        ev(EventKind::Wheel, 3),
        ev(EventKind::WheelHiRes, 240),
        ev(EventKind::WheelHiRes, -360),
    ];
    let e = extract(&batch);
    assert_eq!(e.vertical, WheelSample { standard: 3, hi_res: -360 });
}

#[test]
fn no_wheel_activity() {
    let batch = vec![ev(EventKind::Other, 1), ev(EventKind::Other, -1)];
    let e = extract(&batch);
    assert!(!e.has_wheel);
    assert_eq!(e.vertical, WheelSample { standard: 0, hi_res: 0 });
    assert_eq!(e.horizontal, WheelSample { standard: 0, hi_res: 0 });
}

#[test]
fn empty_batch() {
    let batch: Vec<RawEvent> = Vec::new();
    let e = extract(&batch);
    assert!(!e.has_wheel);
    assert_eq!(e.vertical, WheelSample { standard: 0, hi_res: 0 });
}

#[test]
fn zero_valued_wheel_event_still_counts_as_activity() {
    let batch = vec![ev(EventKind::Wheel, 0)];
    let e = extract(&batch);
    assert!(e.has_wheel);
    assert_eq!(e.vertical, WheelSample { standard: 0, hi_res: 0 });
}

#[test]
fn standard_only_is_converted() {
    // One notch becomes 120 high-resolution units.
    assert_eq!(resolve_hi_res(&WheelSample { standard: 1, hi_res: 0 }), 120);
    assert_eq!(resolve_hi_res(&WheelSample { standard: -3, hi_res: 0 }), -360);
}

#[test]
fn hi_res_present_wins() {
    // When the high-resolution delta is present the standard one is
    // not converted.
    assert_eq!(resolve_hi_res(&WheelSample { standard: 1, hi_res: 30 }), 30);
    assert_eq!(resolve_hi_res(&WheelSample { standard: 0, hi_res: -45 }), -45);
    assert_eq!(resolve_hi_res(&WheelSample { standard: 0, hi_res: 0 }), 0);
}

#[test]
fn conversion_at_the_bound() {
    let v = resolve_hi_res(&WheelSample { standard: MAX_STANDARD_DELTA, hi_res: 0 });
    assert_eq!(v, MAX_STANDARD_DELTA * 120);
    let v = resolve_hi_res(&WheelSample { standard: -MAX_STANDARD_DELTA, hi_res: 0 });
    assert_eq!(v, -MAX_STANDARD_DELTA * 120);
}
