//! A timing facade for the phases of a rendering pipeline.
//!
//! Pipeline code starts, stops and cancels phase timers, or injects a
//! duration it measured itself, through [`Telemetry`]. Where the
//! measurements go is decided by the backend the facade was built with:
//! a no-op stub, a glean-backed registry, or an in-memory recorder.
//! Every backend exposes the calls it makes on the metrics registry as a
//! sequence of [`RegistryCall`] values, so the contracts can say exactly
//! which primitive each facade operation reaches.

mod active;
mod backend;
mod glean_metrics;
mod laws;
mod phase;
mod telemetry;

pub use active::ActiveBackend;
pub use backend::{logged, RecordingBackend, RegistryCall, StubBackend, TimingBackend};
pub use glean_metrics::GleanMetrics;
pub use laws::{
    cancel_after_start_accumulates_nothing, repeated_terminal_call, start_then_stop,
    stub_makes_no_calls,
};
pub use phase::{Phase, TimerId, PLACEHOLDER_TIMER_ID};
pub use telemetry::Telemetry;
