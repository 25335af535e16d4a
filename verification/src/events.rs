//! The event model and the per-cycle event grouper.
//!
//! The surrounding program reads raw device events and mirrors each one
//! here as a [`RawEvent`]: the axis code reduced to the one distinction
//! the filter cares about, plus the signed delta. Synchronization
//! markers are never stored — they delimit the batches.

use vstd::prelude::*;

verus! {

/// What a raw event means to the wheel filter.
///
/// The four wheel codes carry scroll deltas; everything else —
/// pointer motion, buttons, miscellaneous codes — is `Other` and is
/// forwarded unchanged.
#[derive(Clone, Copy, Debug, PartialEq, Eq, Structural)]
pub enum EventKind {
    /// Vertical wheel, standard resolution (one unit per notch).
    Wheel,
    /// Vertical wheel, high resolution (120 units per notch).
    WheelHiRes,
    /// Horizontal wheel, standard resolution.
    HWheel,
    /// Horizontal wheel, high resolution.
    HWheelHiRes,
    /// Any non-wheel event.
    Other,
}

/// One raw event of a report cycle: its kind and its signed value.
#[derive(Clone, Copy, Debug, PartialEq, Eq, Structural)]
pub struct RawEvent {
    pub kind: EventKind,
    pub value: i32,
}

/// Accumulates the raw events of one report cycle.
///
/// A synchronization marker is never pushed; when one arrives the
/// caller flushes the batch and forwards the marker itself.
pub struct EventGrouper {
    /// The events of the cycle in progress, in arrival order.
    pub batch: Vec<RawEvent>,
}

impl EventGrouper {
    /// An empty grouper, ready for the first cycle.
    pub fn new() -> (g: EventGrouper)
        ensures
            g.batch@ == Seq::<RawEvent>::empty(),
    {
        EventGrouper { batch: Vec::new() }
    }

    /// Append one event to the batch in progress.
    pub fn push(&mut self, event: RawEvent)
        ensures
            final(self).batch@ == old(self).batch@.push(event),
    {
        self.batch.push(event);
    }

    /// Hand the accumulated batch over and start the next cycle empty.
    pub fn flush(&mut self) -> (batch: Vec<RawEvent>)
        ensures
            batch@ == old(self).batch@,
            final(self).batch@ == Seq::<RawEvent>::empty(),
    {
        let mut out: Vec<RawEvent> = Vec::new();
        core::mem::swap(&mut out, &mut self.batch);
        out
    }
}

} // verus!
