//! A timing engine that drives an interactive application's main loop.
//!
//! Pull by pull, the engine decides whether to render a frame, commit a
//! fixed-timestep simulation update, deliver a queued input item, or report
//! idle time, and hands control back to the caller after each decision.
//! Simulation updates run at a stable fixed rate, decoupled from a variable,
//! capped rendering rate; idle time is reported so the caller can do
//! background work instead of busy-waiting.
//!
//! The windowing backend, the monotonic clock and the sleep primitive are
//! outside collaborators: the engine reads their answers as plain values
//! (a close flag, a drawable size, a polled input item, a nanosecond clock
//! reading) and decides from those alone, so every decision is verified.

pub mod args;
pub mod engine;
pub mod laws;

pub use args::{
    AfterRenderArgs, ConfigError, DEFAULT_MAX_FPS, DEFAULT_UPS, EventMap, IdleArgs, RenderArgs,
    UpdateArgs,
};
pub use engine::{Events, RenderStep, State, WaitCheck, WaitStep, ns_to_ms};

