//! One whole filtering cycle: extraction, debouncing and
//! reconstruction over both axes of a flushed batch.
//!
//! [`SmootherCore::process_batch`] is the decision half of a report
//! cycle. It turns a batch into the ordered list of output actions the
//! surrounding program performs against the synthetic device; the
//! synchronization marker that triggered the flush is forwarded by the
//! caller after all of them.

use crate::debouncer::{smooth_spec, WheelDebouncer};
use crate::events::{EventKind, RawEvent};
use crate::extract::{
    extract, extraction_of, has_wheel_event, resolve_hi_res, resolved_hi_res, WheelSample,
    MAX_STANDARD_DELTA,
};
use crate::config::Config;
use crate::reconstruct::{axis_events, wheel_notches, WheelEvent};
use vstd::prelude::*;

verus! {

/// One step of a cycle's output: forward an input event unchanged, or
/// emit a reconstructed wheel event.
#[derive(Clone, Copy, Debug, PartialEq, Eq, Structural)]
pub enum OutputAction {
    /// Forward the batch event with this index verbatim.
    Forward(usize),
    /// Emit this synthesized wheel event.
    Emit(WheelEvent),
}

/// A batch whose standard-resolution wheel deltas survive the unit
/// conversion to high resolution without leaving `i32`. The deltas a
/// physical wheel reports are a few notches per cycle, far below the
/// bound.
pub open spec fn batch_bounded(batch: Seq<RawEvent>) -> bool {
    forall|i: int|
        0 <= i < batch.len() && (batch[i].kind is Wheel || batch[i].kind is HWheel)
            ==> -MAX_STANDARD_DELTA <= #[trigger] batch[i].value <= MAX_STANDARD_DELTA
}

/// The forwarding actions of a batch: one `Forward` per non-wheel
/// event, in original order.
pub open spec fn forwards_of(batch: Seq<RawEvent>) -> Seq<OutputAction>
    decreases batch.len(),
{
    if batch.len() == 0 {
        Seq::<OutputAction>::empty()
    } else {
        let rest = forwards_of(batch.drop_last());
        if batch.last().kind is Other {
            rest.push(OutputAction::Forward((batch.len() - 1) as usize))
        } else {
            rest
        }
    }
}

/// Wheel events lifted into output actions, in order.
pub open spec fn emit_actions(events: Seq<WheelEvent>) -> Seq<OutputAction>
    decreases events.len(),
{
    if events.len() == 0 {
        Seq::<OutputAction>::empty()
    } else {
        emit_actions(events.drop_last()).push(OutputAction::Emit(events.last()))
    }
}

/// What one axis contributes to a cycle: the debouncer is consulted
/// exactly when the axis saw wheel activity with a non-zero delta, and
/// its verdict is reconstructed into output events.
pub open spec fn axis_cycle(
    debouncer: WheelDebouncer,
    sample: WheelSample,
    standard_kind: EventKind,
    hi_res_kind: EventKind,
    now: u64,
) -> (WheelDebouncer, Seq<OutputAction>) {
    if sample.standard != 0 || sample.hi_res != 0 {
        let step = smooth_spec(debouncer, resolved_hi_res(sample) as i32, now);
        (step.0, emit_actions(axis_events(standard_kind, hi_res_kind, step.1)))
    } else {
        (debouncer, Seq::<OutputAction>::empty())
    }
}

/// The whole cycle over a batch: non-wheel events are forwarded in
/// original order, then the vertical axis emits, then the horizontal
/// axis. A batch without wheel events leaves both debouncers untouched.
pub open spec fn cycle_spec(
    vertical: WheelDebouncer,
    horizontal: WheelDebouncer,
    batch: Seq<RawEvent>,
    now: u64,
) -> (WheelDebouncer, WheelDebouncer, Seq<OutputAction>) {
    let fwd = forwards_of(batch);
    let ex = extraction_of(batch);
    if !ex.has_wheel {
        (vertical, horizontal, fwd)
    } else {
        let v_step = axis_cycle(vertical, ex.vertical, EventKind::Wheel, EventKind::WheelHiRes, now);
        let h_step = axis_cycle(
            horizontal,
            ex.horizontal,
            EventKind::HWheel,
            EventKind::HWheelHiRes,
            now,
        );
        (v_step.0, h_step.0, fwd + v_step.1 + h_step.1)
    }
}

/// The per-session filtering state: one debouncer per axis.
pub struct SmootherCore {
    /// The vertical-axis debouncer.
    pub vertical: WheelDebouncer,
    /// The horizontal-axis debouncer.
    pub horizontal: WheelDebouncer,
}

/// `batch_bounded` carries down to every last-write-wins delta of a
/// standard-resolution wheel kind.
proof fn lemma_last_value_bounded(batch: Seq<RawEvent>, kind: EventKind)
    requires
        batch_bounded(batch),
        kind is Wheel || kind is HWheel,
    ensures
        -MAX_STANDARD_DELTA <= crate::extract::last_value(batch, kind) <= MAX_STANDARD_DELTA,
    decreases batch.len(),
{
    if batch.len() > 0 && !(batch.last().kind == kind) {
        assert(batch_bounded(batch.drop_last())) by {
            assert(forall|i: int|
                0 <= i < batch.drop_last().len() ==> batch.drop_last()[i] == batch[i]);
        }
        lemma_last_value_bounded(batch.drop_last(), kind);
    }
}

impl SmootherCore {
    /// Fresh per-axis debouncers from the configured durations. `now`
    /// is the current time; both axes start as if an event had just
    /// been seen.
    pub fn new(config: &Config, now: u64) -> (core: SmootherCore)
        ensures
            core.vertical == (WheelDebouncer {
                debounce_time: config.wheel.debounce_time_ms,
                debounce_timeout: config.wheel.debounce_timeout_ms,
                last_direction: 0,
                last_scroll_time: now,
                is_scrolling: false,
                debounce_start_time: None,
            }),
            core.horizontal == (WheelDebouncer {
                debounce_time: config.wheel.h_debounce_time_ms,
                debounce_timeout: config.wheel.debounce_timeout_ms,
                last_direction: 0,
                last_scroll_time: now,
                is_scrolling: false,
                debounce_start_time: None,
            }),
    {
        SmootherCore {
            vertical: WheelDebouncer::new(
                config.get_debounce_time(),
                config.get_debounce_timeout(),
                now,
            ),
            horizontal: WheelDebouncer::new(
                config.get_h_debounce_time(),
                config.get_debounce_timeout(),
                now,
            ),
        }
    }

    /// Run one cycle over a flushed batch, arrived at time `now`.
    ///
    /// Returns the output actions in emission order: every non-wheel
    /// event forwarded unchanged, then the reconstructed vertical
    /// events, then the horizontal ones. A wheel axis whose deltas are
    /// all zero — and every axis of a batch without wheel events —
    /// leaves its debouncer untouched.
    pub fn process_batch(&mut self, batch: &Vec<RawEvent>, now: u64) -> (actions: Vec<
        OutputAction,
    >)
        requires
            batch_bounded(batch@),
        ensures
            ({
                let step = cycle_spec(old(self).vertical, old(self).horizontal, batch@, now);
                &&& final(self).vertical == step.0
                &&& final(self).horizontal == step.1
                &&& actions@ == step.2
            }),
            !has_wheel_event(batch@) ==> *final(self) == *old(self),
    {
        let mut actions: Vec<OutputAction> = Vec::new();

        // Forward everything that is not a wheel event, in order.
        let n = batch.len();
        for i in 0..n
            invariant
                n == batch@.len(),
                actions@ == forwards_of(batch@.take(i as int)),
        {
            proof {
                assert(batch@.take(i + 1).drop_last() =~= batch@.take(i as int));
                assert(batch@.take(i + 1).last() == batch@[i as int]);
            }
            if matches!(batch[i].kind, EventKind::Other) {
                actions.push(OutputAction::Forward(i));
            }
        }
        proof {
            assert(batch@.take(n as int) =~= batch@);
        }

        let ex = extract(batch);
        if ex.has_wheel {
            proof {
                lemma_last_value_bounded(batch@, EventKind::Wheel);
                lemma_last_value_bounded(batch@, EventKind::HWheel);
            }
            self.process_axis(&mut actions, true, ex.vertical, now);
            self.process_axis(&mut actions, false, ex.horizontal, now);
        }
        actions
    }

    /// One axis of a cycle: resolve the sample, consult the axis's
    /// debouncer, and append the reconstructed events.
    fn process_axis(
        &mut self,
        actions: &mut Vec<OutputAction>,
        is_vertical: bool,
        sample: WheelSample,
        now: u64,
    )
        requires
            -MAX_STANDARD_DELTA <= sample.standard <= MAX_STANDARD_DELTA,
        ensures
            ({
                let standard_kind = if is_vertical {
                    EventKind::Wheel
                } else {
                    EventKind::HWheel
                };
                let hi_res_kind = if is_vertical {
                    EventKind::WheelHiRes
                } else {
                    EventKind::HWheelHiRes
                };
                let debouncer = if is_vertical {
                    old(self).vertical
                } else {
                    old(self).horizontal
                };
                let step = axis_cycle(debouncer, sample, standard_kind, hi_res_kind, now);
                &&& final(actions)@ == old(actions)@ + step.1
                &&& (if is_vertical {
                    final(self).vertical == step.0 && final(self).horizontal == old(
                        self,
                    ).horizontal
                } else {
                    final(self).horizontal == step.0 && final(self).vertical == old(self).vertical
                })
            }),
    {
        let standard_kind = if is_vertical {
            EventKind::Wheel
        } else {
            EventKind::HWheel
        };
        let hi_res_kind = if is_vertical {
            EventKind::WheelHiRes
        } else {
            EventKind::HWheelHiRes
        };
        if sample.standard != 0 || sample.hi_res != 0 {
            let resolved = resolve_hi_res(&sample);
            let filtered = if is_vertical {
                self.vertical.smooth(resolved, now)
            } else {
                self.horizontal.smooth(resolved, now)
            };
            if filtered != 0 {
                let standard = wheel_notches(filtered);
                let ghost before = actions@;
                if standard != 0 {
                    actions.push(OutputAction::Emit(WheelEvent { kind: standard_kind, value: standard }));
                }
                actions.push(OutputAction::Emit(WheelEvent { kind: hi_res_kind, value: filtered }));
                proof {
                    let events = axis_events(standard_kind, hi_res_kind, filtered);
                    let standard_event = WheelEvent { kind: standard_kind, value: standard };
                    let hi_res_event = WheelEvent { kind: hi_res_kind, value: filtered };
                    assert(emit_actions(Seq::<WheelEvent>::empty()) =~= Seq::<
                        OutputAction,
                    >::empty());
                    if standard != 0 {
                        assert(events =~= seq![standard_event, hi_res_event]);
                        assert(events.last() == hi_res_event);
                        assert(events.drop_last() =~= seq![standard_event]);
                        assert(seq![standard_event].drop_last() =~= Seq::<WheelEvent>::empty());
                        assert(emit_actions(seq![standard_event].drop_last()) =~= Seq::<
                            OutputAction,
                        >::empty());
                        assert(emit_actions(seq![standard_event]) =~= seq![
                            OutputAction::Emit(standard_event),
                        ]);
                        assert(emit_actions(events) =~= seq![
                            OutputAction::Emit(standard_event),
                            OutputAction::Emit(hi_res_event),
                        ]);
                    } else {
                        assert(events =~= seq![hi_res_event]);
                        assert(events.last() == hi_res_event);
                        assert(events.drop_last() =~= Seq::<WheelEvent>::empty());
                        assert(emit_actions(events.drop_last()) =~= Seq::<OutputAction>::empty());
                        assert(emit_actions(events) =~= seq![OutputAction::Emit(hi_res_event)]);
                    }
                    assert(actions@ =~= before + emit_actions(events));
                }
            } else {
                proof {
                    assert(actions@ =~= actions@ + emit_actions(
                        axis_events(standard_kind, hi_res_kind, filtered),
                    ));
                }
            }
        } else {
            proof {
                assert(actions@ =~= actions@ + Seq::<OutputAction>::empty());
            }
        }
    }
}

} // verus!
