//! Step-level and configuration tests.

use event_loop::args::{
    AfterRenderArgs, BILLION, ConfigError, DEFAULT_MAX_FPS, DEFAULT_UPS, EventMap, IdleArgs,
    RenderArgs, UpdateArgs,
};
use event_loop::engine::{Events, RenderStep, State, WaitCheck, WaitStep, ns_to_ms};

const HALF_S: u64 = 500_000_000;

#[test]
fn default_rates() {
    assert_eq!(DEFAULT_UPS, 120);
    assert_eq!(DEFAULT_MAX_FPS, 60);
    let e = Events::with_start(0);
    assert_eq!(e.dt_update_in_ns, BILLION / 120);
    assert_eq!(e.dt_update_in_ns, 8_333_333);
    assert_eq!(e.dt_frame_in_ns, BILLION / 60);
    assert_eq!(e.dt_frame_in_ns, 16_666_666);
    assert!(e.swap_buffers);
    assert_eq!(e.state, State::Render);
    assert_eq!(e.last_update, 0);
    assert_eq!(e.last_frame, 0);
}

#[test]
fn new_reads_the_clock() {
    let e = Events::new();
    assert_eq!(e.state, State::Render);
    assert_eq!(e.last_frame, e.last_update);
    assert_eq!(e.dt_update_in_ns, BILLION / DEFAULT_UPS);
    assert_eq!(e.dt_frame_in_ns, BILLION / DEFAULT_MAX_FPS);
    assert!(e.swap_buffers);
}

#[test]
fn rate_setters_recompute_periods() {
    let e = Events::with_start(10).ups(2).unwrap();
    assert_eq!(e.dt_update_in_ns, HALF_S);
    let e = e.ups(3).unwrap();
    assert_eq!(e.dt_update_in_ns, 333_333_333);
    let e = e.max_fps(1).unwrap();
    assert_eq!(e.dt_frame_in_ns, BILLION);
    let e = e.max_fps(BILLION).unwrap();
    assert_eq!(e.dt_frame_in_ns, 1);
}

#[test]
fn zero_rate_is_rejected() {
    let e = Events::with_start(0);
    assert_eq!(e.ups(0).err(), Some(ConfigError::ZeroRate));
    assert_eq!(e.max_fps(0).err(), Some(ConfigError::ZeroRate));
}

#[test]
fn rate_above_one_per_nanosecond_is_rejected() {
    let e = Events::with_start(0);
    assert_eq!(e.ups(BILLION + 1).err(), Some(ConfigError::RateTooHigh));
    assert_eq!(e.max_fps(2_000_000_000).err(), Some(ConfigError::RateTooHigh));
}

#[test]
fn swap_buffers_toggle() {
    let e = Events::with_start(0).swap_buffers(false);
    assert!(!e.swap_buffers);
    let e = e.swap_buffers(true);
    assert!(e.swap_buffers);
}

#[test]
fn no_render_while_surface_not_ready() {
    let mut e = Events::with_start(0);
    assert_eq!(e.step_render(5, false, 0, 100), RenderStep::NotReady);
    assert_eq!(e.state, State::UpdateLoop { idle_reported: false });
    assert_eq!(e.last_frame, 5);

    let mut e = Events::with_start(0);
    assert_eq!(e.step_render(5, false, 100, 0), RenderStep::NotReady);
    let mut e = Events::with_start(0);
    assert_eq!(e.step_render(5, false, 0, 0), RenderStep::NotReady);
}

#[test]
fn render_extrapolates_from_last_update() {
    let mut e = Events::with_start(100).ups(2).unwrap();
    let r = e.step_render(350, false, 10, 20);
    assert_eq!(
        r,
        RenderStep::Frame(RenderArgs { ext_dt_ns: 250, width: 10, height: 20 })
    );
    assert_eq!(e.last_frame, 350);
    assert_eq!(e.state, State::SwapBuffers);
}

#[test]
fn after_render_only_when_swapping_enabled() {
    let mut e = Events::with_start(0);
    assert!(matches!(e.step_render(0, false, 8, 8), RenderStep::Frame(_)));
    assert_eq!(e.step_swap_buffers(), Some(AfterRenderArgs));
    assert_eq!(e.state, State::UpdateLoop { idle_reported: false });

    let mut e = Events::with_start(0).swap_buffers(false);
    assert!(matches!(e.step_render(0, false, 8, 8), RenderStep::Frame(_)));
    assert_eq!(e.step_swap_buffers(), None);
    assert_eq!(e.state, State::UpdateLoop { idle_reported: false });
}

#[test]
fn handle_events_drains_queue_one_pull_each() {
    let mut e = Events::with_start(0).ups(2).unwrap().max_fps(1).unwrap();
    assert!(matches!(e.step_render(0, false, 8, 8), RenderStep::Frame(_)));
    e.step_swap_buffers();
    // The update is due before the frame: drain input first.
    assert_eq!(e.step_update_loop(HALF_S), WaitCheck::Due);
    assert_eq!(e.state, State::HandleEvents);
    assert_eq!(e.step_handle_events(Some(1u8)), Some(1u8));
    assert_eq!(e.state, State::HandleEvents);
    assert_eq!(e.step_handle_events(Some(2u8)), Some(2u8));
    assert_eq!(e.state, State::HandleEvents);
    assert_eq!(e.step_handle_events::<u8>(None), None);
    assert_eq!(e.state, State::Update);
    assert_eq!(e.step_update(), UpdateArgs { dt_ns: HALF_S });
    assert_eq!(e.last_update, HALF_S);
    assert_eq!(e.state, State::UpdateLoop { idle_reported: false });
}

#[test]
fn one_idle_then_sleep_and_input_resets_the_guard() {
    let mut e = Events::with_start(0).ups(2).unwrap().max_fps(1).unwrap();
    assert!(matches!(e.step_render(0, false, 8, 8), RenderStep::Frame(_)));
    e.step_swap_buffers();
    assert_eq!(e.step_update_loop(0), WaitCheck::Waiting { remaining_ns: HALF_S });
    // First empty poll: one idle report.
    assert_eq!(
        e.step_waiting::<u8>(HALF_S, None),
        WaitStep::Report(IdleArgs { dt_ns: HALF_S })
    );
    assert_eq!(e.state, State::UpdateLoop { idle_reported: true });
    // Input arrives: delivered at once, and the guard is cleared.
    assert_eq!(e.step_waiting(HALF_S, Some(9u8)), WaitStep::Deliver(9u8));
    assert_eq!(e.state, State::UpdateLoop { idle_reported: false });
    // So an idle report is available again, and only then a sleep.
    assert_eq!(
        e.step_waiting::<u8>(400_000_000, None),
        WaitStep::Report(IdleArgs { dt_ns: 400_000_000 })
    );
    assert_eq!(e.step_waiting::<u8>(400_000_000, None), WaitStep::Sleep(400));
    assert_eq!(e.state, State::UpdateLoop { idle_reported: false });
}

#[test]
fn render_wins_a_tie() {
    let mut e = Events::with_start(0).ups(2).unwrap().max_fps(2).unwrap();
    assert!(matches!(e.step_render(0, false, 8, 8), RenderStep::Frame(_)));
    e.step_swap_buffers();
    // Frame and update both fall due at the same instant: render first.
    assert_eq!(e.step_update_loop(HALF_S), WaitCheck::Due);
    assert_eq!(e.state, State::Render);
}

#[test]
fn frame_schedules_from_previous_frame() {
    let mut e = Events::with_start(0).ups(1_000).unwrap().max_fps(10).unwrap();
    // A late render attempt stamps the frame clock at "now", so the next
    // frame slips: it is scheduled one whole period after the attempt.
    assert!(matches!(e.step_render(250_000_000, false, 8, 8), RenderStep::Frame(_)));
    e.step_swap_buffers();
    // Updates are long overdue; catch-up updates come first.
    assert_eq!(e.step_update_loop(250_000_000), WaitCheck::Due);
    assert_eq!(e.state, State::HandleEvents);
}

#[test]
fn rate_change_mid_session_keeps_anchoring() {
    let mut e = Events::with_start(0).ups(2).unwrap().max_fps(1).unwrap();
    assert!(matches!(e.step_render(0, false, 8, 8), RenderStep::Frame(_)));
    e.step_swap_buffers();
    // Commit one update at the old rate.
    assert_eq!(e.step_update_loop(HALF_S), WaitCheck::Due);
    assert_eq!(e.step_handle_events::<u8>(None), None);
    e.step_update();
    assert_eq!(e.last_update, HALF_S);
    // Halve the update period mid-session: the committed timestamps keep
    // their anchoring, and the next update is scheduled one new period
    // after the unchanged committed timestamp.
    e = e.ups(4).unwrap();
    assert_eq!(e.last_update, HALF_S);
    assert_eq!(e.dt_update_in_ns, 250_000_000);
    assert_eq!(
        e.step_update_loop(HALF_S),
        WaitCheck::Waiting { remaining_ns: 250_000_000 }
    );
}

#[test]
fn ns_to_ms_truncates() {
    assert_eq!(ns_to_ms(0), 0);
    assert_eq!(ns_to_ms(999_999), 0);
    assert_eq!(ns_to_ms(1_000_000), 1);
    assert_eq!(ns_to_ms(1_999_999), 1);
    assert_eq!(ns_to_ms(HALF_S), 500);
}

#[derive(Debug, PartialEq)]
enum TestEvent {
    Render(u64, u32, u32),
    AfterRender,
    Update(u64),
    Input(u8),
    Idle(u64),
}

impl EventMap<u8> for TestEvent {
    fn render(args: RenderArgs) -> Self {
        TestEvent::Render(args.ext_dt_ns, args.width, args.height)
    }
    fn after_render(_args: AfterRenderArgs) -> Self {
        TestEvent::AfterRender
    }
    fn update(args: UpdateArgs) -> Self {
        TestEvent::Update(args.dt_ns)
    }
    fn input(args: u8) -> Self {
        TestEvent::Input(args)
    }
    fn idle(args: IdleArgs) -> Self {
        TestEvent::Idle(args.dt_ns)
    }
}

#[test]
fn event_map_builds_each_shape() {
    assert_eq!(
        TestEvent::render(RenderArgs { ext_dt_ns: 3, width: 4, height: 5 }),
        TestEvent::Render(3, 4, 5)
    );
    assert_eq!(TestEvent::after_render(AfterRenderArgs), TestEvent::AfterRender);
    assert_eq!(TestEvent::update(UpdateArgs { dt_ns: 7 }), TestEvent::Update(7));
    assert_eq!(TestEvent::input(11), TestEvent::Input(11));
    assert_eq!(TestEvent::idle(IdleArgs { dt_ns: 13 }), TestEvent::Idle(13));
}
