//! Event argument shapes, the event-mapping capability, configuration
//! constants and the configuration error.

use vstd::prelude::*;

verus! {

/// The default updates per second.
pub const DEFAULT_UPS: u64 = 120;

/// The default maximum frames per second.
pub const DEFAULT_MAX_FPS: u64 = 60;

/// Nanoseconds in one second.
pub const BILLION: u64 = 1_000_000_000;

/// Render arguments.
#[derive(Copy, Clone, PartialEq, Eq, Structural, Debug)]
pub struct RenderArgs {
    /// Extrapolated time in nanoseconds since the last committed update,
    /// used to do smooth animation.
    pub ext_dt_ns: u64,
    /// The width of the rendered area.
    pub width: u32,
    /// The height of the rendered area.
    pub height: u32,
}

/// After render arguments.
#[derive(Copy, Clone, PartialEq, Eq, Structural, Debug)]
pub struct AfterRenderArgs;

/// Update arguments, such as the delta time between updates.
#[derive(Copy, Clone, PartialEq, Eq, Structural, Debug)]
pub struct UpdateArgs {
    /// Delta time in nanoseconds: always one whole update period.
    pub dt_ns: u64,
}

/// Idle arguments, such as the expected idle time.
#[derive(Copy, Clone, PartialEq, Eq, Structural, Debug)]
pub struct IdleArgs {
    /// Expected idle time in nanoseconds.
    pub dt_ns: u64,
}

/// A rejected rate setting.
#[derive(Copy, Clone, PartialEq, Eq, Structural, Debug)]
pub enum ConfigError {
    /// The requested rate is zero, so it has no period.
    ZeroRate,
    /// The requested rate is above one event per nanosecond, so its period
    /// truncates to nothing on the nanosecond clock.
    RateTooHigh,
}

/// Methods required to map from consumed event to emitted event.
pub trait EventMap<I>: Sized {
    /// Creates a render event.
    fn render(args: RenderArgs) -> Self;
    /// Creates an after render event.
    fn after_render(args: AfterRenderArgs) -> Self;
    /// Creates an update event.
    fn update(args: UpdateArgs) -> Self;
    /// Creates an input event.
    fn input(args: I) -> Self;
    /// Creates an idle event.
    fn idle(args: IdleArgs) -> Self;
}

} // verus!
