//! The per-axis debouncing state machine.
//!
//! One `WheelDebouncer` instance owns the filtering decision for one
//! scroll axis. Its single entry point, [`WheelDebouncer::smooth`],
//! maps a raw high-resolution delta plus its arrival time to a filtered
//! delta; a suppressed event comes out as `0`, never as an error.

use vstd::prelude::*;

verus! {

/// A reversal that arrives at least `debounce_timeout` after the previous
/// event is accepted only if its magnitude exceeds this floor
/// (in high-resolution units; 300 units are 2.5 standard notches).
pub const REVERSAL_MAGNITUDE_FLOOR: i32 = 300;

/// The direction of a signed delta: `1`, `-1`, or `0`.
pub open spec fn spec_sign(value: i32) -> int {
    if value > 0 {
        1
    } else if value < 0 {
        -1
    } else {
        0
    }
}

/// Milliseconds elapsed from `from` to `to`, zero if `to` lies before
/// `from` (a monotonic clock never goes backwards, so the clamp is
/// only a guard).
pub open spec fn spec_elapsed(from: u64, to: u64) -> u64 {
    if to >= from {
        (to - from) as u64
    } else {
        0
    }
}

/// The debouncing state machine for one scroll axis.
///
/// `debounce_time` and `debounce_timeout` are the two configured
/// durations; the remaining fields are the state that persists across
/// report cycles. All times are in milliseconds.
pub struct WheelDebouncer {
    /// Maximum gap between events still considered one ongoing gesture.
    pub debounce_time: u64,
    /// Maximum duration a reversal run may be suppressed as jitter.
    pub debounce_timeout: u64,
    /// Direction of the last accepted or same-direction event: -1, 0 or 1.
    pub last_direction: i32,
    /// Arrival time of the event seen most recently.
    pub last_scroll_time: u64,
    /// Whether a scroll gesture has been recognised.
    pub is_scrolling: bool,
    /// Arrival time of the first suppressed reversal of the current
    /// suppressed run, if one is under way.
    pub debounce_start_time: Option<u64>,
}

/// The exact transition relation of [`WheelDebouncer::smooth`]: from a
/// state, a raw delta and its arrival time to the successor state and
/// the filtered delta.
///
/// The rules, in priority order:
/// 1. idle gap — a gap longer than `debounce_time` starts a new
///    gesture: accept the delta unconditionally;
/// 2. reversal while a suppressed run is older than `debounce_timeout`
///    — the reversal is deliberate: accept it;
/// 3. reversal arriving sooner than `debounce_timeout` after the
///    previous event — jitter: suppress it, keep the old direction,
///    and mark the start of the suppressed run;
/// 4. reversal after a pause of at least `debounce_timeout` — accept
///    it only above the magnitude floor;
/// 5. same direction, or a zero delta — pass through.
///
/// Every rule records `now` as the time of the last seen event.
pub open spec fn smooth_spec(s: WheelDebouncer, value: i32, now: u64) -> (WheelDebouncer, i32) {
    let direction = spec_sign(value);
    let gap = spec_elapsed(s.last_scroll_time, now);
    if gap > s.debounce_time {
        // Rule 1: idle gap — a new gesture begins.
        (
            WheelDebouncer {
                last_direction: direction as i32,
                last_scroll_time: now,
                is_scrolling: true,
                debounce_start_time: None,
                ..s
            },
            value,
        )
    } else {
        let t = WheelDebouncer { last_scroll_time: now, ..s };
        if direction != 0 && direction != s.last_direction {
            if s.debounce_start_time matches Some(start) && spec_elapsed(start, now)
                > s.debounce_timeout {
                // Rule 2: the suppressed run outlived the timeout.
                (
                    WheelDebouncer {
                        last_direction: direction as i32,
                        debounce_start_time: None,
                        ..t
                    },
                    value,
                )
            } else if gap < s.debounce_timeout {
                // Rule 3: an immediate reversal is mechanical bounce.
                if s.debounce_start_time is None {
                    (WheelDebouncer { debounce_start_time: Some(now), ..t }, 0)
                } else {
                    (t, 0)
                }
            } else if -REVERSAL_MAGNITUDE_FLOOR <= value && value <= REVERSAL_MAGNITUDE_FLOOR {
                // Rule 4, below the floor: a small late reversal is noise.
                (t, 0)
            } else {
                // Rule 4, above the floor: a deliberate direction change.
                (
                    WheelDebouncer {
                        last_direction: direction as i32,
                        is_scrolling: true,
                        debounce_start_time: None,
                        ..t
                    },
                    value,
                )
            }
        } else if direction != 0 {
            // Rule 5: same direction as before.
            (WheelDebouncer { last_direction: direction as i32, ..t }, value)
        } else {
            // Rule 5: a zero delta carries no movement.
            (t, 0)
        }
    }
}

/// The end state and the outputs of feeding `inputs` — pairs of a raw
/// delta and its arrival time — to the state machine in order.
pub open spec fn smooth_run(s: WheelDebouncer, inputs: Seq<(i32, u64)>) -> (WheelDebouncer, Seq<
    i32,
>)
    decreases inputs.len(),
{
    if inputs.len() == 0 {
        (s, Seq::<i32>::empty())
    } else {
        let prefix = smooth_run(s, inputs.drop_last());
        let step = smooth_spec(prefix.0, inputs.last().0, inputs.last().1);
        (step.0, prefix.1.push(step.1))
    }
}

/// A run without reversals passes through whole: when every delta of
/// `inputs` moves in the direction the debouncer last accepted, every
/// one comes out unchanged and the direction stands, whatever the
/// spacing — a gap beyond `debounce_time` starts a new gesture in the
/// same direction, and anything closer is a same-direction pass.
pub proof fn lemma_same_direction_run_passes(s: WheelDebouncer, inputs: Seq<(i32, u64)>)
    requires
        s.last_direction == 1 || s.last_direction == -1,
        forall|i: int|
            0 <= i < inputs.len() ==> spec_sign(#[trigger] inputs[i].0) == s.last_direction,
    ensures
        smooth_run(s, inputs).0.last_direction == s.last_direction,
        smooth_run(s, inputs).1.len() == inputs.len(),
        forall|i: int| 0 <= i < inputs.len() ==> smooth_run(s, inputs).1[i] == #[trigger] inputs[i].0,
    decreases inputs.len(),
{
    if inputs.len() > 0 {
        assert(forall|i: int|
            0 <= i < inputs.drop_last().len() ==> #[trigger] inputs.drop_last()[i] == inputs[i]);
        lemma_same_direction_run_passes(s, inputs.drop_last());
        assert(spec_sign(inputs.last().0) == s.last_direction);
        let prefix = smooth_run(s, inputs.drop_last());
        let step = smooth_spec(prefix.0, inputs.last().0, inputs.last().1);
        assert(step.1 == inputs.last().0);
        assert forall|i: int| 0 <= i < inputs.len() implies smooth_run(s, inputs).1[i] == #[trigger] inputs[i].0 by {
            if i < inputs.len() - 1 {
                assert(smooth_run(s, inputs).1[i] == prefix.1[i]);
                assert(inputs.drop_last()[i] == inputs[i]);
            } else {
                assert(smooth_run(s, inputs).1[i] == step.1);
            }
        }
    }
}

/// While reversals keep being suppressed as jitter, the recorded start
/// of the suppressed run never moves and the original direction stands,
/// so the timeout escape is measured from the first suppressed
/// reversal.
pub proof fn lemma_suppression_keeps_run_start(s: WheelDebouncer, value: i32, now: u64)
    requires
        spec_elapsed(s.last_scroll_time, now) <= s.debounce_time,
        spec_sign(value) != 0,
        spec_sign(value) != s.last_direction,
        s.debounce_start_time matches Some(start) && spec_elapsed(start, now) <= s.debounce_timeout,
        spec_elapsed(s.last_scroll_time, now) < s.debounce_timeout,
    ensures
        smooth_spec(s, value, now).1 == 0,
        smooth_spec(s, value, now).0.debounce_start_time == s.debounce_start_time,
        smooth_spec(s, value, now).0.last_direction == s.last_direction,
{
}

impl WheelDebouncer {
    /// A fresh debouncer for one axis. `now` is the current time; the
    /// first event closer than `debounce_time` to `now` is measured
    /// against it.
    pub fn new(debounce_time: u64, debounce_timeout: u64, now: u64) -> (d: WheelDebouncer)
        ensures
            d == (WheelDebouncer {
                debounce_time,
                debounce_timeout,
                last_direction: 0,
                last_scroll_time: now,
                is_scrolling: false,
                debounce_start_time: None,
            }),
    {
        WheelDebouncer {
            debounce_time,
            debounce_timeout,
            last_direction: 0,
            last_scroll_time: now,
            is_scrolling: false,
            debounce_start_time: None,
        }
    }

    /// Filter one raw delta. Returns the delta to emit: `value` itself
    /// when the event is accepted, `0` when it is suppressed.
    ///
    /// The full transition is pinned by [`smooth_spec`]; the remaining
    /// clauses restate its headline rules.
    pub fn smooth(&mut self, value: i32, now: u64) -> (filtered: i32)
        ensures
            (*final(self), filtered) == smooth_spec(*old(self), value, now),
            // An idle gap longer than `debounce_time` always starts a new
            // gesture: the delta passes unchanged and the suppressed-run
            // marker is cleared.
            spec_elapsed(old(self).last_scroll_time, now) > old(self).debounce_time ==> {
                &&& filtered == value
                &&& final(self).last_direction == spec_sign(value)
                &&& final(self).debounce_start_time is None
            },
            // A delta in the current direction always passes unchanged.
            ({
                &&& spec_elapsed(old(self).last_scroll_time, now) <= old(self).debounce_time
                &&& spec_sign(value) == old(self).last_direction
                &&& spec_sign(value) != 0
            }) ==> filtered == value && final(self).last_direction == old(self).last_direction,
            // A reversal whose suppressed run has exceeded `debounce_timeout`
            // passes unchanged and registers the new direction.
            ({
                &&& spec_elapsed(old(self).last_scroll_time, now) <= old(self).debounce_time
                &&& spec_sign(value) != 0
                &&& spec_sign(value) != old(self).last_direction
                &&& old(self).debounce_start_time matches Some(start) && spec_elapsed(start, now)
                    > old(self).debounce_timeout
            }) ==> filtered == value && final(self).last_direction == spec_sign(value),
            // A reversal arriving sooner than `debounce_timeout` after the
            // previous event, with no expired suppressed run, is suppressed
            // and the original direction is kept.
            ({
                &&& spec_elapsed(old(self).last_scroll_time, now) <= old(self).debounce_time
                &&& spec_sign(value) != 0
                &&& spec_sign(value) != old(self).last_direction
                &&& !(old(self).debounce_start_time matches Some(start) && spec_elapsed(start, now)
                    > old(self).debounce_timeout)
                &&& spec_elapsed(old(self).last_scroll_time, now) < old(self).debounce_timeout
            }) ==> filtered == 0 && final(self).last_direction == old(self).last_direction,
            // A reversal after a pause of at least `debounce_timeout` (but
            // within `debounce_time`, and with no expired suppressed run) is
            // measured against the magnitude floor: at or under it the
            // reversal is suppressed, above it it passes and registers the
            // new direction.
            ({
                &&& spec_elapsed(old(self).last_scroll_time, now) <= old(self).debounce_time
                &&& spec_sign(value) != 0
                &&& spec_sign(value) != old(self).last_direction
                &&& !(old(self).debounce_start_time matches Some(start) && spec_elapsed(start, now)
                    > old(self).debounce_timeout)
                &&& spec_elapsed(old(self).last_scroll_time, now) >= old(self).debounce_timeout
            }) ==> {
                &&& (-REVERSAL_MAGNITUDE_FLOOR <= value <= REVERSAL_MAGNITUDE_FLOOR) ==> filtered
                    == 0 && final(self).last_direction == old(self).last_direction
                &&& !(-REVERSAL_MAGNITUDE_FLOOR <= value <= REVERSAL_MAGNITUDE_FLOOR) ==> filtered
                    == value && final(self).last_direction == spec_sign(value)
            },
            // Every rule records `now` as the last event time.
            final(self).last_scroll_time == now,
            // The configured durations never change.
            final(self).debounce_time == old(self).debounce_time,
            final(self).debounce_timeout == old(self).debounce_timeout,
            // The filter only ever suppresses: it emits the delta or zero.
            filtered == value || filtered == 0,
    {
        let direction: i32 = if value > 0 {
            1
        } else if value < 0 {
            -1
        } else {
            0
        };
        let time_since_last: u64 = if now >= self.last_scroll_time {
            now - self.last_scroll_time
        } else {
            0
        };

        if time_since_last > self.debounce_time {
            // Nothing scrolled for a while: this is a new gesture.
            self.is_scrolling = true;
            self.last_direction = direction;
            self.last_scroll_time = now;
            self.debounce_start_time = None;
            return value;
        }

        self.last_scroll_time = now;

        if direction != 0 && direction != self.last_direction {
            if let Some(start_time) = self.debounce_start_time {
                let suppressed_for: u64 = if now >= start_time {
                    now - start_time
                } else {
                    0
                };
                if suppressed_for > self.debounce_timeout {
                    // Suppression has gone on long enough: the user means it.
                    self.debounce_start_time = None;
                    self.last_direction = direction;
                    return value;
                }
            }

            if time_since_last < self.debounce_timeout {
                // An immediate reversal: mechanical bounce.
                if self.debounce_start_time.is_none() {
                    self.debounce_start_time = Some(now);
                }
                return 0;
            } else {
                // A late reversal: deliberate only if it moved far enough.
                if -REVERSAL_MAGNITUDE_FLOOR <= value && value <= REVERSAL_MAGNITUDE_FLOOR {
                    return 0;
                }
                self.is_scrolling = true;
                self.last_direction = direction;
                self.debounce_start_time = None;
                return value;
            }
        }

        if direction != 0 {
            self.last_direction = direction;
            return value;
        }

        0
    }
}

} // verus!
