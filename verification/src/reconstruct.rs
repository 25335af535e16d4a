//! Turning a filtered high-resolution delta back into output events.
//!
//! A filtered delta `v` becomes zero, one, or two events for its axis:
//! nothing when `v == 0`; a high-resolution event carrying `v` verbatim
//! otherwise; and additionally a standard-resolution event carrying
//! `v / 120` (truncated toward zero) when that quotient is non-zero.

use crate::events::EventKind;
use vstd::prelude::*;

verus! {

/// `v / 120` truncated toward zero: the standard-notch count hidden in
/// a high-resolution delta.
pub open spec fn spec_notches(v: int) -> int {
    if v >= 0 {
        v / 120
    } else {
        -((-v) / 120)
    }
}

/// One event to hand to the output device: a wheel kind and its value.
#[derive(Clone, Copy, Debug, PartialEq, Eq, Structural)]
pub struct WheelEvent {
    pub kind: EventKind,
    pub value: i32,
}

/// The events reconstructed for one axis from the filtered delta
/// `filtered`, in emission order: the standard-resolution event (only
/// when its truncated quotient is non-zero), then the high-resolution
/// event (whenever `filtered` itself is non-zero).
pub open spec fn axis_events(standard_kind: EventKind, hi_res_kind: EventKind, filtered: i32) -> Seq<
    WheelEvent,
> {
    if filtered == 0 {
        Seq::<WheelEvent>::empty()
    } else {
        let hi = seq![WheelEvent { kind: hi_res_kind, value: filtered }];
        if spec_notches(filtered as int) != 0 {
            seq![
                WheelEvent {
                    kind: standard_kind,
                    value: spec_notches(filtered as int) as i32,
                },
            ] + hi
        } else {
            hi
        }
    }
}

/// Compute the standard-notch count of a high-resolution delta:
/// `v / 120` truncated toward zero, as the original integer division
/// does it.
pub fn wheel_notches(v: i32) -> (n: i32)
    ensures
        n == spec_notches(v as int),
{
    if v >= 0 {
        let magnitude: u32 = v as u32;
        let quotient: u32 = magnitude / 120;
        proof {
            vstd::arithmetic::div_mod::lemma_div_nonincreasing(magnitude as int, 120);
        }
        quotient as i32
    } else {
        let magnitude: u64 = (-(v as i64)) as u64;
        let quotient: u64 = magnitude / 120;
        proof {
            vstd::arithmetic::div_mod::lemma_div_is_ordered(
                magnitude as int,
                u32::MAX as int + 1,
                120,
            );
        }
        -(quotient as i32)
    }
}

/// Reconstruct the output events of one axis from its filtered delta.
/// `standard_kind` and `hi_res_kind` name the axis.
pub fn reconstruct_axis(standard_kind: EventKind, hi_res_kind: EventKind, filtered: i32) -> (events:
    Vec<WheelEvent>)
    ensures
        events@ == axis_events(standard_kind, hi_res_kind, filtered),
{
    let mut events: Vec<WheelEvent> = Vec::new();
    if filtered != 0 {
        let standard = wheel_notches(filtered);
        if standard != 0 {
            events.push(WheelEvent { kind: standard_kind, value: standard });
        }
        events.push(WheelEvent { kind: hi_res_kind, value: filtered });
    }
    proof {
        assert(events@ =~= axis_events(standard_kind, hi_res_kind, filtered));
    }
    events
}

} // verus!
