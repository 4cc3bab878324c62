//! Laws of the scheduler, stated and proved over the spec transition
//! functions that the step functions' contracts equal.

use vstd::prelude::*;
use crate::args::{AfterRenderArgs, IdleArgs};
use crate::engine::{
    Events, State, WaitCheck, WaitStep, spec_step_handle_events, spec_step_render,
    spec_step_swap_buffers, spec_step_update, spec_step_update_loop, spec_step_waiting,
};

verus! {

/// One reading of the outside world, as the driving loop hands it to the
/// engine on one pass: the clock, the window's answers, and the result of
/// one non-blocking poll.
pub struct Reading<I> {
    /// The monotonic clock, in nanoseconds.
    pub now: u64,
    /// Whether the window reports it should close.
    pub should_close: bool,
    /// The reported drawable width.
    pub width: u32,
    /// The reported drawable height.
    pub height: u32,
    /// What one non-blocking poll of the window returned.
    pub input: Option<I>,
}

/// The engine after one pass of the driving loop, whatever the phase: the
/// phase's transition, fed the parts of the reading that the phase
/// consumes.
pub open spec fn spec_step<I>(e: Events, s: Reading<I>) -> Events {
    match e.state {
        State::Render => spec_step_render(e, s.now, s.should_close, s.width, s.height).0,
        State::SwapBuffers => spec_step_swap_buffers(e).0,
        State::UpdateLoop { .. } => {
            let (checked, chk) = spec_step_update_loop(e, s.now);
            match chk {
                WaitCheck::Due => checked,
                WaitCheck::Waiting { remaining_ns } => spec_step_waiting(
                    checked,
                    remaining_ns,
                    s.input,
                ).0,
            }
        },
        State::HandleEvents => spec_step_handle_events(e, s.input).0,
        State::Update => spec_step_update(e).0,
    }
}

/// The engine after a whole run of readings.
pub open spec fn spec_run<I>(e: Events, ss: Seq<Reading<I>>) -> Events
    decreases ss.len(),
{
    if ss.len() == 0 {
        e
    } else {
        spec_step(spec_run(e, ss.drop_last()), ss.last())
    }
}

/// How many updates a run commits: the number of passes that found the
/// engine in the update phase.
pub open spec fn updates_committed<I>(e: Events, ss: Seq<Reading<I>>) -> nat
    decreases ss.len(),
{
    if ss.len() == 0 {
        0
    } else {
        updates_committed(e, ss.drop_last()) + (if spec_run(e, ss.drop_last()).state is Update {
            1nat
        } else {
            0nat
        })
    }
}

/// No pass of the run drives a scheduled update past the end of the
/// nanosecond clock.
pub open spec fn run_stays_on_the_clock<I>(e: Events, ss: Seq<Reading<I>>) -> bool
    decreases ss.len(),
{
    ss.len() == 0 || {
        let before = spec_run(e, ss.drop_last());
        &&& run_stays_on_the_clock(e, ss.drop_last())
        &&& (before.state is Update ==> before.last_update + before.dt_update_in_ns
            <= u64::MAX)
    }
}

/// One pass keeps the engine well-formed, keeps the update period and its
/// anchor, and bumps the count of committed updates exactly when the pass
/// found the engine in the update phase.
pub proof fn lemma_step_keeps_discipline<I>(e: Events, s: Reading<I>)
    requires
        e.inv(),
        e.state is Update ==> e.last_update + e.dt_update_in_ns <= u64::MAX,
    ensures
        spec_step(e, s).inv(),
        spec_step(e, s).dt_update_in_ns == e.dt_update_in_ns,
        spec_step(e, s).anchor@ == e.anchor@,
        spec_step(e, s).updates@ == e.updates@ + (if e.state is Update {
            1nat
        } else {
            0nat
        }),
{
    if e.state is Update {
        let u: nat = e.updates@;
        let d: u64 = e.dt_update_in_ns;
        assert((u + 1) * d == u * d + d) by (nonlinear_arith);
    }
}

/// Whole-run fixed-timestep law: however a run of readings interleaves
/// rendering, presentation, waiting, input and updates, the engine stays
/// well-formed, the update period and its anchor stand, and the simulation
/// clock stands exactly as many whole update periods past the anchor as
/// the run committed updates — so after exactly n committed updates at a
/// fixed rate, committed simulation time is n periods, drift-free.
pub proof fn lemma_run_keeps_fixed_timestep<I>(e: Events, ss: Seq<Reading<I>>)
    requires
        e.inv(),
        run_stays_on_the_clock(e, ss),
    ensures
        spec_run(e, ss).inv(),
        spec_run(e, ss).dt_update_in_ns == e.dt_update_in_ns,
        spec_run(e, ss).anchor@ == e.anchor@,
        spec_run(e, ss).updates@ == e.updates@ + updates_committed(e, ss),
        spec_run(e, ss).last_update == e.anchor@ + (e.updates@ + updates_committed(e, ss))
            * e.dt_update_in_ns,
    decreases ss.len(),
{
    if ss.len() > 0 {
        lemma_run_keeps_fixed_timestep(e, ss.drop_last());
        lemma_step_keeps_discipline(spec_run(e, ss.drop_last()), ss.last());
    }
}

/// Fixed-timestep law: a well-formed engine's simulation clock stands
/// exactly `updates` update periods past the anchor laid down when the
/// update rate was last set, however rendering, idling and input
/// interleaved — so after n committed updates at a fixed rate the
/// committed simulation time is exactly n periods.
pub proof fn lemma_fixed_timestep(e: Events)
    requires
        e.inv(),
    ensures
        e.last_update - e.anchor@ == e.updates@ * e.dt_update_in_ns,
{
}

/// The simulation clock moves only when an update is committed, and then
/// by exactly one update period; every other transition leaves both the
/// clock and the count of committed updates alone.
pub proof fn lemma_clock_moves_only_on_update<I>(
    e: Events,
    now: u64,
    should_close: bool,
    width: u32,
    height: u32,
    remaining_ns: u64,
    input: Option<I>,
)
    ensures
        spec_step_render(e, now, should_close, width, height).0.last_update == e.last_update,
        spec_step_render(e, now, should_close, width, height).0.updates == e.updates,
        spec_step_swap_buffers(e).0.last_update == e.last_update,
        spec_step_swap_buffers(e).0.updates == e.updates,
        spec_step_update_loop(e, now).0.last_update == e.last_update,
        spec_step_update_loop(e, now).0.updates == e.updates,
        spec_step_waiting(e, remaining_ns, input).0.last_update == e.last_update,
        spec_step_waiting(e, remaining_ns, input).0.updates == e.updates,
        spec_step_handle_events(e, input).0.last_update == e.last_update,
        spec_step_handle_events(e, input).0.updates == e.updates,
        spec_step_update(e).0.last_update == (e.last_update + e.dt_update_in_ns) as u64,
        spec_step_update(e).0.updates@ == e.updates@ + 1,
        spec_step_update(e).1.dt_ns == e.dt_update_in_ns,
{
}

/// No render event is ever emitted while the window reports a zero width
/// or height: the render phase then skips the frame.
pub proof fn lemma_no_frame_on_empty_surface(
    e: Events,
    now: u64,
    should_close: bool,
    width: u32,
    height: u32,
)
    requires
        width == 0 || height == 0,
    ensures
        !(spec_step_render(e, now, should_close, width, height).1 is Frame),
{
}

/// An after-render event is emitted if and only if buffer swapping is
/// enabled, and the presentation phase that emits it is entered exactly
/// when a render event was just emitted — no transition but a
/// frame-emitting render step leads into it, so nothing this engine emits
/// comes between a render event and its after-render event.
pub proof fn lemma_after_render_follows_render<I>(
    e: Events,
    now: u64,
    should_close: bool,
    width: u32,
    height: u32,
    remaining_ns: u64,
    input: Option<I>,
)
    ensures
        e.state is SwapBuffers ==> (spec_step_swap_buffers(e).1 is Some <==> e.swap_buffers),
        spec_step_swap_buffers(e).0.state == (State::UpdateLoop { idle_reported: false }),
        e.state is Render ==> (spec_step_render(e, now, should_close, width, height).0.state
            is SwapBuffers <==> spec_step_render(e, now, should_close, width, height).1 is Frame),
        !(spec_step_swap_buffers(e).0.state is SwapBuffers),
        e.state is UpdateLoop ==> !(spec_step_update_loop(e, now).0.state is SwapBuffers),
        e.state is UpdateLoop ==> !(spec_step_waiting(e, remaining_ns, input).0.state
            is SwapBuffers),
        e.state is HandleEvents ==> !(spec_step_handle_events(e, input).0.state is SwapBuffers),
        !(spec_step_update(e).0.state is SwapBuffers),
{
}

/// With buffer swapping enabled, the pass right after a frame-emitting
/// render pass emits the after-render event: the engine reaches the
/// presentation phase at once and puts no other event between a render
/// event and its after-render event.
pub proof fn lemma_after_render_is_immediate<I>(e: Events, s: Reading<I>)
    requires
        e.state is Render,
        !s.should_close,
        s.width != 0,
        s.height != 0,
    ensures
        spec_step_render(e, s.now, s.should_close, s.width, s.height).1 is Frame,
        spec_step(e, s).state is SwapBuffers,
        e.swap_buffers ==> spec_step_swap_buffers(spec_step(e, s)).1 == Some(AfterRenderArgs),
        !e.swap_buffers ==> spec_step_swap_buffers(spec_step(e, s)).1 is None,
{
}

/// Within one waiting interval at most one idle event goes out: the first
/// empty poll of the interval is answered with an idle report that sets
/// the guard, and a further empty poll is answered with a sleep, never
/// with a second idle report.
pub proof fn lemma_one_idle_per_interval<I>(e: Events, rem1: u64, rem2: u64)
    requires
        e.state == (State::UpdateLoop { idle_reported: false }),
    ensures
        ({
            let (e1, r1) = spec_step_waiting::<I>(e, rem1, None);
            let (e2, r2) = spec_step_waiting::<I>(e1, rem2, None);
            &&& r1 == WaitStep::<I>::Report((IdleArgs { dt_ns: rem1 }))
            &&& r2 is Sleep
        }),
{
}

/// Queued input interrupts waiting: it is delivered at once, before any
/// idle report of the interval, and it clears the idle-reported guard, so
/// a fresh idle report may follow later in the same waiting interval.
pub proof fn lemma_input_resets_idle_guard<I>(e: Events, remaining_ns: u64, x: I)
    ensures
        spec_step_waiting(e, remaining_ns, Some(x)).1 == WaitStep::Deliver(x),
        spec_step_waiting(e, remaining_ns, Some(x)).0.state == (State::UpdateLoop {
            idle_reported: false,
        }),
{
}

/// Once the window reports closed, a render-phase step yields nothing and
/// leaves the engine exactly as it stood — still in the render phase — so
/// every later pull with the window still closed yields nothing again.
pub proof fn lemma_closed_window_stops(
    e: Events,
    now1: u64,
    width1: u32,
    height1: u32,
    now2: u64,
    width2: u32,
    height2: u32,
)
    requires
        e.state is Render,
    ensures
        ({
            let (e1, r1) = spec_step_render(e, now1, true, width1, height1);
            let (e2, r2) = spec_step_render(e1, now2, true, width2, height2);
            &&& r1 is Stopped
            &&& e1 == e
            &&& r2 is Stopped
            &&& e2 == e
        }),
{
}

/// When the next frame and the next update fall due at the same instant,
/// render takes priority over committing the update.
pub proof fn lemma_render_wins_tie(e: Events, now: u64)
    requires
        e.state is UpdateLoop,
        e.last_frame + e.dt_frame_in_ns == e.last_update + e.dt_update_in_ns,
        e.last_frame + e.dt_frame_in_ns <= now,
    ensures
        spec_step_update_loop(e, now).0.state is Render,
{
}

} // verus!
