//! The timing scheduler: a state machine that interleaves render, update,
//! input and idle work against two independent periodic schedules.
//!
//! The engine itself performs no outside calls during a step: the caller
//! reads the clock and the window and hands the readings in as plain values,
//! performs the action a step asks for (emit an event, present a frame,
//! sleep), and pulls again.  Each step function's contract equals a spec
//! transition function, so whole-run laws can be stated and proved over the
//! transitions alone.

use vstd::prelude::*;
use crate::args::{
    AfterRenderArgs, BILLION, ConfigError, DEFAULT_MAX_FPS, DEFAULT_UPS, IdleArgs, RenderArgs,
    UpdateArgs,
};

verus! {

/// The scheduling phase the engine is in between two pulls.
#[derive(Copy, Clone, PartialEq, Eq, Structural, Debug)]
pub enum State {
    /// About to attempt a frame.
    Render,
    /// A frame was produced and awaits presentation.
    SwapBuffers,
    /// Waiting phase; the flag records whether an idle event was already
    /// reported in the current waiting interval.
    UpdateLoop {
        /// True once an idle event went out in this waiting interval.
        idle_reported: bool,
    },
    /// Draining queued input before the next fixed update.
    HandleEvents,
    /// About to commit a fixed simulation step.
    Update,
}

/// An event loop engine.
///
/// It holds the current phase, the two period lengths, and the monotonic
/// timestamps of the last committed update and the last attempted frame.
/// The simulation clock `last_update` advances only by whole multiples of
/// the update period, never to "now": the two ghost fields record the
/// anchor of that discipline, and `inv` states it.
#[derive(Copy, Clone)]
pub struct Events {
    /// Current phase.
    pub state: State,
    /// Monotonic timestamp, in nanoseconds, of the last committed update.
    pub last_update: u64,
    /// Monotonic timestamp, in nanoseconds, at which the last render
    /// attempt began.
    pub last_frame: u64,
    /// The update period in nanoseconds; strictly positive.
    pub dt_update_in_ns: u64,
    /// The frame period in nanoseconds; strictly positive.
    pub dt_frame_in_ns: u64,
    /// Whether a produced frame is presented (buffers swapped) before the
    /// loop goes on.
    pub swap_buffers: bool,
    /// Ghost: the value of `last_update` when the update rate was last set.
    pub anchor: Ghost<u64>,
    /// Ghost: how many updates were committed since the anchor.
    pub updates: Ghost<nat>,
}

impl Events {
    /// Well-formed engine: both periods are strictly positive, and the
    /// simulation clock stands a whole number of update periods past its
    /// anchor.
    pub open spec fn inv(self) -> bool {
        &&& self.dt_update_in_ns >= 1
        &&& self.dt_frame_in_ns >= 1
        &&& self.last_update == self.anchor@ + self.updates@ * self.dt_update_in_ns
    }
}

/// What a render-phase step asks of the caller.
#[derive(Copy, Clone, PartialEq, Eq, Structural, Debug)]
pub enum RenderStep {
    /// The window reported closed: the session is over; yield nothing, on
    /// this pull and on every later one.
    Stopped,
    /// Emit this render event; the frame awaits presentation next.
    Frame(RenderArgs),
    /// The surface is not ready (a zero dimension): emit nothing and go on
    /// from the waiting phase.
    NotReady,
}

/// What a waiting-phase check asks of the caller.
#[derive(Copy, Clone, PartialEq, Eq, Structural, Debug)]
pub enum WaitCheck {
    /// Work is due: the phase has moved on; pull again.
    Due,
    /// Nothing is due for this many nanoseconds: poll the window once and
    /// hand the result to the waiting step.
    Waiting {
        /// Nanoseconds until the next scheduled event.
        remaining_ns: u64,
    },
}

/// What a waiting step asks of the caller.
#[derive(Copy, Clone, PartialEq, Eq, Debug)]
pub enum WaitStep<I> {
    /// Emit this input event.
    Deliver(I),
    /// Emit this idle event.
    Report(IdleArgs),
    /// Sleep for this many milliseconds, then go on from the waiting phase.
    Sleep(u32),
}

/// The render-phase transition: the engine after the step, and what the
/// step asks of the caller.
pub open spec fn spec_step_render(
    e: Events,
    now: u64,
    should_close: bool,
    width: u32,
    height: u32,
) -> (Events, RenderStep) {
    if should_close {
        (e, RenderStep::Stopped)
    } else if width != 0 && height != 0 {
        (
            (Events { state: State::SwapBuffers, last_frame: now, ..e }),
            RenderStep::Frame(
                (RenderArgs { ext_dt_ns: (now - e.last_update) as u64, width, height }),
            ),
        )
    } else {
        (
            (Events { state: State::UpdateLoop { idle_reported: false }, last_frame: now, ..e }),
            RenderStep::NotReady,
        )
    }
}

/// The presentation-phase transition.
pub open spec fn spec_step_swap_buffers(e: Events) -> (Events, Option<AfterRenderArgs>) {
    let moved = (Events { state: State::UpdateLoop { idle_reported: false }, ..e });
    if e.swap_buffers {
        (moved, Some(AfterRenderArgs))
    } else {
        (moved, None)
    }
}

/// The waiting-phase check transition: compare the two periodic schedules
/// against the clock; render wins a tie.
pub open spec fn spec_step_update_loop(e: Events, now: u64) -> (Events, WaitCheck) {
    let next_frame = e.last_frame + e.dt_frame_in_ns;
    let next_update = e.last_update + e.dt_update_in_ns;
    let next_event = if next_frame < next_update { next_frame } else { next_update };
    if next_event > now {
        (e, WaitCheck::Waiting { remaining_ns: (next_event - now) as u64 })
    } else if next_event == next_frame {
        ((Events { state: State::Render, ..e }), WaitCheck::Due)
    } else {
        ((Events { state: State::HandleEvents, ..e }), WaitCheck::Due)
    }
}

/// The waiting-step transition: input is delivered first and clears the
/// idle-reported guard; otherwise at most one idle report goes out per
/// waiting interval; after that the caller is told to sleep the wait away.
pub open spec fn spec_step_waiting<I>(e: Events, remaining_ns: u64, input: Option<I>) -> (
    Events,
    WaitStep<I>,
) {
    match input {
        Some(x) => (
            (Events { state: State::UpdateLoop { idle_reported: false }, ..e }),
            WaitStep::Deliver(x),
        ),
        None => {
            if e.state == (State::UpdateLoop { idle_reported: false }) {
                (
                    (Events { state: State::UpdateLoop { idle_reported: true }, ..e }),
                    WaitStep::Report((IdleArgs { dt_ns: remaining_ns })),
                )
            } else {
                (
                    (Events { state: State::UpdateLoop { idle_reported: false }, ..e }),
                    WaitStep::Sleep((remaining_ns / 1_000_000) as u32),
                )
            }
        },
    }
}

/// The input-draining transition: a polled item is delivered and the phase
/// stays put; once the poll comes back empty the engine moves on to commit
/// an update.
pub open spec fn spec_step_handle_events<I>(e: Events, input: Option<I>) -> (Events, Option<I>) {
    match input {
        Some(x) => (e, Some(x)),
        None => ((Events { state: State::Update, ..e }), None),
    }
}

/// The update transition: the update event carries the fixed timestep, and
/// the simulation clock advances by exactly one update period.
pub open spec fn spec_step_update(e: Events) -> (Events, UpdateArgs) {
    (
        (Events {
            state: State::UpdateLoop { idle_reported: false },
            last_update: (e.last_update + e.dt_update_in_ns) as u64,
            updates: Ghost((e.updates@ + 1) as nat),
            ..e
        }),
        UpdateArgs { dt_ns: e.dt_update_in_ns },
    )
}

/// Nanoseconds to milliseconds, truncating as a cast to `u32` does.
pub fn ns_to_ms(ns: u64) -> (r: u32)
    ensures
        r == (ns / 1_000_000) as u32,
{
    #[verifier::truncate] ((ns / 1_000_000) as u32)
}

impl Events {
    /// Creates an engine anchored at the given clock reading, with the
    /// default rates and buffer swapping enabled.
    pub fn with_start(start_ns: u64) -> (r: Events)
        ensures
            r.inv(),
            r.state == State::Render,
            r.last_update == start_ns,
            r.last_frame == start_ns,
            r.dt_update_in_ns == BILLION / DEFAULT_UPS,
            r.dt_frame_in_ns == BILLION / DEFAULT_MAX_FPS,
            r.swap_buffers == true,
            r.anchor@ == start_ns,
            r.updates@ == 0,
    {
        Events {
            state: State::Render,
            last_update: start_ns,
            last_frame: start_ns,
            dt_update_in_ns: BILLION / DEFAULT_UPS,
            dt_frame_in_ns: BILLION / DEFAULT_MAX_FPS,
            swap_buffers: true,
            anchor: Ghost(start_ns),
            updates: Ghost(0nat),
        }
    }

    /// Creates a new event loop engine with default UPS and FPS settings,
    /// anchored at the current clock reading.
    pub fn new() -> (r: Events)
        ensures
            r.inv(),
            r.state == State::Render,
            r.last_frame == r.last_update,
            r.dt_update_in_ns == BILLION / DEFAULT_UPS,
            r.dt_frame_in_ns == BILLION / DEFAULT_MAX_FPS,
            r.swap_buffers == true,
            r.anchor@ == r.last_update,
            r.updates@ == 0,
    {
        Events::with_start(now_ns())
    }

    /// The number of updates per second.
    ///
    /// This is the fixed update rate on average over time.  If the event
    /// loop lags, it will try to catch up.  The new period applies from the
    /// next scheduling decision; the committed timestamps keep their
    /// anchoring.  A rate with no whole-nanosecond period is rejected.
    pub fn ups(self, frames: u64) -> (r: Result<Events, ConfigError>)
        requires
            self.inv(),
        ensures
            frames == 0 ==> r == Err::<Events, ConfigError>(ConfigError::ZeroRate),
            frames > BILLION ==> r == Err::<Events, ConfigError>(ConfigError::RateTooHigh),
            1 <= frames <= BILLION ==> (r matches Ok(e) && e == (Events {
                dt_update_in_ns: (BILLION / frames) as u64,
                anchor: Ghost(self.last_update),
                updates: Ghost(0nat),
                ..self
            }) && e.inv()),
    {
        if frames == 0 {
            Err(ConfigError::ZeroRate)
        } else if frames > BILLION {
            Err(ConfigError::RateTooHigh)
        } else {
            let dt: u64 = BILLION / frames;
            proof {
                vstd::arithmetic::div_mod::lemma_div_non_zero(BILLION as int, frames as int);
            }
            Ok(
                Events {
                    dt_update_in_ns: dt,
                    anchor: Ghost(self.last_update),
                    updates: Ghost(0nat),
                    ..self
                },
            )
        }
    }

    /// The maximum number of frames per second.
    ///
    /// The frame rate can be lower because the next frame is always
    /// scheduled from the previous frame.  This causes the frames to "slip"
    /// over time.  A rate with no whole-nanosecond period is rejected.
    pub fn max_fps(self, frames: u64) -> (r: Result<Events, ConfigError>)
        requires
            self.inv(),
        ensures
            frames == 0 ==> r == Err::<Events, ConfigError>(ConfigError::ZeroRate),
            frames > BILLION ==> r == Err::<Events, ConfigError>(ConfigError::RateTooHigh),
            1 <= frames <= BILLION ==> (r matches Ok(e) && e == (Events {
                dt_frame_in_ns: (BILLION / frames) as u64,
                ..self
            }) && e.inv()),
    {
        if frames == 0 {
            Err(ConfigError::ZeroRate)
        } else if frames > BILLION {
            Err(ConfigError::RateTooHigh)
        } else {
            let dt: u64 = BILLION / frames;
            proof {
                vstd::arithmetic::div_mod::lemma_div_non_zero(BILLION as int, frames as int);
            }
            Ok((Events { dt_frame_in_ns: dt, ..self }))
        }
    }

    /// Enable or disable automatic swapping of buffers.
    pub fn swap_buffers(self, enable: bool) -> (r: Events)
        ensures
            r == (Events { swap_buffers: enable, ..self }),
    {
        Events { swap_buffers: enable, ..self }
    }

    /// One step of the render phase.  `now` is the current monotonic clock
    /// reading; `should_close` and the drawable size are what the window
    /// reports.  If the window should close, the session is over and the
    /// engine does not move.  Otherwise the render attempt is stamped at
    /// `now`; a frame goes out only when both dimensions are non-zero, and
    /// carries the time elapsed since the last committed update.
    pub fn step_render(&mut self, now: u64, should_close: bool, width: u32, height: u32) -> (r:
        RenderStep)
        requires
            old(self).inv(),
            old(self).state is Render,
            old(self).last_update <= now,
        ensures
            final(self).inv(),
            (*final(self), r) == spec_step_render(*old(self), now, should_close, width, height),
    {
        if should_close {
            return RenderStep::Stopped;
        }
        self.last_frame = now;
        if width != 0 && height != 0 {
            self.state = State::SwapBuffers;
            RenderStep::Frame(RenderArgs { ext_dt_ns: now - self.last_update, width, height })
        } else {
            self.state = State::UpdateLoop { idle_reported: false };
            RenderStep::NotReady
        }
    }

    /// One step of the presentation phase.  When buffer swapping is enabled
    /// the caller must present the frame and then emit the returned
    /// after-render event; when it is disabled nothing is emitted.  Either
    /// way the engine moves on to the waiting phase.
    pub fn step_swap_buffers(&mut self) -> (r: Option<AfterRenderArgs>)
        requires
            old(self).inv(),
            old(self).state is SwapBuffers,
        ensures
            final(self).inv(),
            (*final(self), r) == spec_step_swap_buffers(*old(self)),
    {
        self.state = State::UpdateLoop { idle_reported: false };
        if self.swap_buffers {
            Some(AfterRenderArgs)
        } else {
            None
        }
    }

    /// One check of the waiting phase: compare the next scheduled frame and
    /// the next scheduled update against the clock.  If neither is due the
    /// engine stays put and reports how long the wait is, and the caller
    /// polls the window once for the waiting step.  If work is due the
    /// phase moves on; render wins a tie.
    pub fn step_update_loop(&mut self, now: u64) -> (r: WaitCheck)
        requires
            old(self).inv(),
            old(self).state is UpdateLoop,
            old(self).last_frame + old(self).dt_frame_in_ns <= u64::MAX,
            old(self).last_update + old(self).dt_update_in_ns <= u64::MAX,
        ensures
            final(self).inv(),
            (*final(self), r) == spec_step_update_loop(*old(self), now),
    {
        let next_frame: u64 = self.last_frame + self.dt_frame_in_ns;
        let next_update: u64 = self.last_update + self.dt_update_in_ns;
        let next_event: u64 = if next_frame < next_update {
            next_frame
        } else {
            next_update
        };
        if next_event > now {
            WaitCheck::Waiting { remaining_ns: next_event - now }
        } else if next_event == next_frame {
            self.state = State::Render;
            WaitCheck::Due
        } else {
            self.state = State::HandleEvents;
            WaitCheck::Due
        }
    }

    /// One waiting step, given the wait reported by the waiting-phase check
    /// and the result of one non-blocking poll.  Queued input is delivered
    /// at once and clears the idle-reported guard; otherwise one idle event
    /// goes out per waiting interval; after that the caller is told to
    /// sleep the wait away, and the next interval starts fresh.
    pub fn step_waiting<I>(&mut self, remaining_ns: u64, input: Option<I>) -> (r: WaitStep<I>)
        requires
            old(self).inv(),
            old(self).state is UpdateLoop,
        ensures
            final(self).inv(),
            (*final(self), r) == spec_step_waiting(*old(self), remaining_ns, input),
    {
        match input {
            Some(x) => {
                self.state = State::UpdateLoop { idle_reported: false };
                WaitStep::Deliver(x)
            },
            None => {
                let fresh = self.state == (State::UpdateLoop { idle_reported: false });
                if fresh {
                    self.state = State::UpdateLoop { idle_reported: true };
                    WaitStep::Report(IdleArgs { dt_ns: remaining_ns })
                } else {
                    self.state = State::UpdateLoop { idle_reported: false };
                    WaitStep::Sleep(ns_to_ms(remaining_ns))
                }
            },
        }
    }

    /// One step of the input-draining phase, given the result of one
    /// non-blocking poll.  A polled item is delivered and the phase stays
    /// put, so the next pull drains further; once the poll comes back empty
    /// the engine moves on to commit an update.
    pub fn step_handle_events<I>(&mut self, input: Option<I>) -> (r: Option<I>)
        requires
            old(self).inv(),
            old(self).state is HandleEvents,
        ensures
            final(self).inv(),
            (*final(self), r) == spec_step_handle_events(*old(self), input),
    {
        match input {
            Some(x) => Some(x),
            None => {
                self.state = State::Update;
                None
            },
        }
    }

    /// Commit one fixed simulation step.  The returned update event always
    /// carries the fixed timestep, and the simulation clock advances by
    /// exactly one update period — never to "now" — which keeps simulated
    /// time free of drift however rendering and idling interleave.
    pub fn step_update(&mut self) -> (r: UpdateArgs)
        requires
            old(self).inv(),
            old(self).state is Update,
            old(self).last_update + old(self).dt_update_in_ns <= u64::MAX,
        ensures
            final(self).inv(),
            (*final(self), r) == spec_step_update(*old(self)),
    {
        self.state = State::UpdateLoop { idle_reported: false };
        self.last_update = self.last_update + self.dt_update_in_ns;
        self.updates = Ghost((self.updates@ + 1) as nat);
        proof {
            let u: nat = old(self).updates@;
            let d: u64 = old(self).dt_update_in_ns;
            assert((u + 1) * d == u * d + d) by (nonlinear_arith);
        }
        UpdateArgs { dt_ns: self.dt_update_in_ns }
    }
}

/// Relies on `clock_ticks::precise_time_ns` for the current value of a
/// high-resolution counter, in nanoseconds since an unspecified epoch.
/// Nothing is assumed of the reading.
#[verifier::external_body]
fn now_ns() -> u64 {
    clock_ticks::precise_time_ns()
}

} // verus!
