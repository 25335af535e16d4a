//! Temporal debouncing for scroll-wheel event streams.
//!
//! A physical wheel with a worn detent produces spurious direction
//! reversals (mechanical jitter). This library contains the filtering
//! core that a device proxy runs once per hardware report cycle:
//!
//! * [`events`] — groups the raw events of one report cycle into a batch;
//! * [`extract`] — pulls the per-axis wheel deltas out of a batch;
//! * [`debouncer`] — the per-axis state machine that suppresses jitter;
//! * [`reconstruct`] — turns a filtered delta back into output events;
//! * [`pipeline`] — drives one whole cycle over both axes;
//! * [`config`] — the tunable durations;
//! * [`logger`] — log-level bookkeeping for the surrounding program.
//!
//! All timestamps and durations are in milliseconds. Timestamps are
//! measured from an arbitrary origin fixed for the lifetime of a
//! session; only differences between them matter.

pub mod config;
pub mod debouncer;
pub mod events;
pub mod extract;
pub mod logger;
pub mod pipeline;
pub mod reconstruct;
