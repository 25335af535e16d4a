//! Pulling the per-axis wheel deltas out of a flushed batch.
//!
//! One hardware report cycle carries at most one delta per axis and
//! resolution; when a batch nevertheless holds several events of the
//! same kind, the later one wins, mirroring one-report-per-cycle
//! hardware semantics. When only the standard-resolution delta is
//! present, the high-resolution delta is derived from it at the fixed
//! unit conversion of 120 units per notch.

use crate::events::{EventKind, RawEvent};
use vstd::prelude::*;

verus! {

/// High-resolution units per one standard notch — a fixed hardware
/// convention.
pub const HI_RES_UNITS_PER_NOTCH: i32 = 120;

/// The largest standard-delta magnitude whose high-resolution
/// equivalent still fits in an `i32`: `i32::MAX` divided by 120,
/// rounded down.
pub const MAX_STANDARD_DELTA: i32 = 17895697;

/// The delta pair extracted for one axis from one batch.
#[derive(Clone, Copy, Debug, PartialEq, Eq, Structural)]
pub struct WheelSample {
    /// Standard-resolution delta, one unit per notch; `0` when absent.
    pub standard: i32,
    /// High-resolution delta, 120 units per notch; `0` when absent.
    pub hi_res: i32,
}

/// Everything the wheel filter needs from one batch: the two per-axis
/// samples and whether the batch carried any wheel event at all.
#[derive(Clone, Copy, Debug, PartialEq, Eq, Structural)]
pub struct Extraction {
    /// Whether any event of a wheel kind occurred, whatever its value.
    pub has_wheel: bool,
    /// The vertical-axis sample.
    pub vertical: WheelSample,
    /// The horizontal-axis sample.
    pub horizontal: WheelSample,
}

/// The value of the last event of kind `kind` in `batch`, or `0` when
/// there is none (last-write-wins per cycle).
pub open spec fn last_value(batch: Seq<RawEvent>, kind: EventKind) -> i32
    decreases batch.len(),
{
    if batch.len() == 0 {
        0
    } else if batch.last().kind == kind {
        batch.last().value
    } else {
        last_value(batch.drop_last(), kind)
    }
}

/// Whether `batch` holds any wheel event.
pub open spec fn has_wheel_event(batch: Seq<RawEvent>) -> bool
    decreases batch.len(),
{
    if batch.len() == 0 {
        false
    } else {
        !(batch.last().kind is Other) || has_wheel_event(batch.drop_last())
    }
}

/// What [`extract`] returns for a batch.
pub open spec fn extraction_of(batch: Seq<RawEvent>) -> Extraction {
    Extraction {
        has_wheel: has_wheel_event(batch),
        vertical: WheelSample {
            standard: last_value(batch, EventKind::Wheel),
            hi_res: last_value(batch, EventKind::WheelHiRes),
        },
        horizontal: WheelSample {
            standard: last_value(batch, EventKind::HWheel),
            hi_res: last_value(batch, EventKind::HWheelHiRes),
        },
    }
}

/// The effective high-resolution delta of a sample: when only the
/// standard delta is present it is converted at 120 units per notch,
/// otherwise the high-resolution delta stands as is.
pub open spec fn resolved_hi_res(sample: WheelSample) -> int {
    if sample.standard != 0 && sample.hi_res == 0 {
        sample.standard * 120
    } else {
        sample.hi_res as int
    }
}

/// Scan one batch and extract, per axis, the standard- and
/// high-resolution deltas (last write wins) plus the wheel-activity
/// flag.
pub fn extract(batch: &Vec<RawEvent>) -> (e: Extraction)
    ensures
        e == extraction_of(batch@),
{
    let mut has_wheel = false;
    let mut wheel: i32 = 0;
    let mut wheel_hi: i32 = 0;
    let mut hwheel: i32 = 0;
    let mut hwheel_hi: i32 = 0;

    let n = batch.len();
    for i in 0..n
        invariant
            n == batch@.len(),
            has_wheel == has_wheel_event(batch@.take(i as int)),
            wheel == last_value(batch@.take(i as int), EventKind::Wheel),
            wheel_hi == last_value(batch@.take(i as int), EventKind::WheelHiRes),
            hwheel == last_value(batch@.take(i as int), EventKind::HWheel),
            hwheel_hi == last_value(batch@.take(i as int), EventKind::HWheelHiRes),
    {
        proof {
            assert(batch@.take(i + 1).drop_last() =~= batch@.take(i as int));
            assert(batch@.take(i + 1).last() == batch@[i as int]);
        }
        let ev = batch[i];
        match ev.kind {
            EventKind::Wheel => {
                has_wheel = true;
                wheel = ev.value;
            },
            EventKind::WheelHiRes => {
                has_wheel = true;
                wheel_hi = ev.value;
            },
            EventKind::HWheel => {
                has_wheel = true;
                hwheel = ev.value;
            },
            EventKind::HWheelHiRes => {
                has_wheel = true;
                hwheel_hi = ev.value;
            },
            EventKind::Other => {},
        }
    }
    proof {
        assert(batch@.take(n as int) =~= batch@);
    }
    Extraction {
        has_wheel,
        vertical: WheelSample { standard: wheel, hi_res: wheel_hi },
        horizontal: WheelSample { standard: hwheel, hi_res: hwheel_hi },
    }
}

/// Compute the effective high-resolution delta of one sample.
///
/// The bound on `standard` is what the unit conversion needs to stay
/// inside `i32`; a real wheel reports a few notches per cycle.
pub fn resolve_hi_res(sample: &WheelSample) -> (v: i32)
    requires
        -MAX_STANDARD_DELTA <= sample.standard <= MAX_STANDARD_DELTA,
    ensures
        v == resolved_hi_res(*sample),
{
    if sample.standard != 0 && sample.hi_res == 0 {
        sample.standard * HI_RES_UNITS_PER_NOTCH
    } else {
        sample.hi_res
    }
}

} // verus!
