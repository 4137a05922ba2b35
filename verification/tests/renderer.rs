use muloom_gpu::caps::{pick_alpha_mode, pick_present_mode, pick_surface_format, AlphaMode,
    PresentMode, SurfaceCaps, SurfaceFormat};
use muloom_gpu::color::clear_color;
use muloom_gpu::config::SurfaceConfig;
use muloom_gpu::control::{locate_window, StartupError, WindowChoice};
use muloom_gpu::frame::{AcquireOutcome, FrameAction, FrameLoop, Phase, TickStep};
use muloom_gpu::signal::{classify_window_event, RendererSignal, SignalUpdate, WindowEvent};

fn caps_of(
    formats: Vec<SurfaceFormat>,
    present_modes: Vec<PresentMode>,
    alpha_modes: Vec<AlphaMode>,
) -> SurfaceCaps {
    SurfaceCaps { formats, present_modes, alpha_modes }
}

#[test]
fn format_prefers_srgb_bgra() {
    let formats = vec![
        SurfaceFormat::Other(7),
        SurfaceFormat::Bgra8UnormSrgb,
        SurfaceFormat::Bgra8Unorm,
    ];
    assert_eq!(pick_surface_format(&formats), SurfaceFormat::Bgra8UnormSrgb);
}

#[test]
fn format_falls_back_to_linear_bgra() {
    let formats = vec![SurfaceFormat::Other(7), SurfaceFormat::Bgra8Unorm];
    assert_eq!(pick_surface_format(&formats), SurfaceFormat::Bgra8Unorm);
}

#[test]
fn format_falls_back_to_first_advertised() {
    let formats = vec![SurfaceFormat::Other(7)];
    assert_eq!(pick_surface_format(&formats), SurfaceFormat::Other(7));
}

#[test]
fn format_default_on_empty_list() {
    let formats: Vec<SurfaceFormat> = vec![];
    assert_eq!(pick_surface_format(&formats), SurfaceFormat::Bgra8Unorm);
}

#[test]
fn present_mode_prefers_auto_no_vsync() {
    let modes = vec![PresentMode::Fifo, PresentMode::AutoNoVsync];
    assert_eq!(pick_present_mode(&modes), PresentMode::AutoNoVsync);
}

#[test]
fn present_mode_falls_back_to_mailbox() {
    let modes = vec![PresentMode::Fifo, PresentMode::Mailbox];
    assert_eq!(pick_present_mode(&modes), PresentMode::Mailbox);
}

#[test]
fn present_mode_takes_first_low_latency_mode() {
    let modes = vec![PresentMode::Fifo, PresentMode::Immediate, PresentMode::Mailbox];
    assert_eq!(pick_present_mode(&modes), PresentMode::Immediate);
}

#[test]
fn present_mode_falls_back_to_fifo() {
    let modes = vec![PresentMode::Fifo, PresentMode::Other(3)];
    assert_eq!(pick_present_mode(&modes), PresentMode::Fifo);
    let none: Vec<PresentMode> = vec![];
    assert_eq!(pick_present_mode(&none), PresentMode::Fifo);
}

#[test]
fn alpha_mode_prefers_opaque() {
    let modes = vec![AlphaMode::Auto, AlphaMode::Opaque];
    assert_eq!(pick_alpha_mode(&modes), AlphaMode::Opaque);
}

#[test]
fn alpha_mode_falls_back_to_auto() {
    let modes = vec![AlphaMode::Other(2)];
    assert_eq!(pick_alpha_mode(&modes), AlphaMode::Auto);
}

#[test]
fn negotiate_combines_the_three_selections() {
    let caps = caps_of(
        vec![SurfaceFormat::Other(1), SurfaceFormat::Bgra8UnormSrgb],
        vec![PresentMode::Fifo, PresentMode::Mailbox],
        vec![AlphaMode::Opaque, AlphaMode::Auto],
    );
    let config = SurfaceConfig::negotiate(&caps);
    assert_eq!(config.format, SurfaceFormat::Bgra8UnormSrgb);
    assert_eq!(config.present_mode, PresentMode::Mailbox);
    assert_eq!(config.alpha_mode, AlphaMode::Opaque);
    assert_eq!((config.width, config.height), (1, 1));
}

#[test]
fn reconfigure_applies_observed_size() {
    let caps = caps_of(vec![], vec![], vec![]);
    let mut config = SurfaceConfig::negotiate(&caps);
    let applied = config.reconfigure(Some((800, 600)), false);
    assert!(applied);
    assert_eq!((config.width, config.height), (800, 600));
}

#[test]
fn reconfigure_clamps_degenerate_size() {
    let caps = caps_of(vec![], vec![], vec![]);
    let mut config = SurfaceConfig::negotiate(&caps);
    let applied = config.reconfigure(Some((0, 600)), false);
    assert!(applied);
    assert_eq!((config.width, config.height), (1, 600));
}

#[test]
fn reconfigure_keeps_size_when_query_fails() {
    let caps = caps_of(vec![], vec![], vec![]);
    let mut config = SurfaceConfig::negotiate(&caps);
    config.reconfigure(Some((320, 240)), false);
    let applied = config.reconfigure(None, false);
    assert!(!applied);
    assert_eq!((config.width, config.height), (320, 240));
}

#[test]
fn reconfigure_converges_over_a_resize_sequence() {
    let caps = caps_of(vec![], vec![], vec![]);
    let mut config = SurfaceConfig::negotiate(&caps);
    for size in [(100, 100), (5, 7), (0, 9), (640, 480)] {
        config.reconfigure(Some(size), false);
    }
    assert_eq!((config.width, config.height), (640, 480));
}

#[test]
fn reconfigure_twice_is_idempotent() {
    let caps = caps_of(vec![], vec![], vec![]);
    let mut config = SurfaceConfig::negotiate(&caps);
    let first = config.reconfigure(Some((1024, 768)), false);
    let again = config.reconfigure(Some((1024, 768)), false);
    assert!(first);
    assert!(!again);
    assert_eq!((config.width, config.height), (1024, 768));
}

#[test]
fn forced_reconfigure_applies_even_when_unchanged() {
    let caps = caps_of(vec![], vec![], vec![]);
    let mut config = SurfaceConfig::negotiate(&caps);
    config.reconfigure(Some((1024, 768)), false);
    let forced = config.reconfigure(Some((1024, 768)), true);
    assert!(forced);
    assert_eq!((config.width, config.height), (1024, 768));
}

#[test]
fn clear_color_is_deterministic() {
    let a = clear_color(0, 0);
    let b = clear_color(0, 0);
    assert_eq!(a, b);
    assert_eq!((a.r, a.g, a.b, a.a), (2000, 1000, 1500, 10000));
    let c = clear_color(123, 456);
    let d = clear_color(123, 456);
    assert_eq!(c, d);
}

#[test]
fn clear_color_channels_stay_in_range() {
    for frame_index in [0u64, 1, 999, 4000, u64::MAX] {
        for elapsed in [0u64, 3, 17, 100_000] {
            let c = clear_color(frame_index, elapsed);
            assert!((2000..=10000).contains(&c.r));
            assert!((1000..=7000).contains(&c.g));
            assert!((1500..=8500).contains(&c.b));
            assert_eq!(c.a, 10000);
        }
    }
}

#[test]
fn locate_window_prefers_primary() {
    assert_eq!(locate_window(true, 3), Ok(WindowChoice::Primary));
    assert_eq!(locate_window(true, 0), Ok(WindowChoice::Primary));
}

#[test]
fn locate_window_falls_back_to_any_open() {
    assert_eq!(locate_window(false, 2), Ok(WindowChoice::AnyOpen));
}

#[test]
fn startup_fails_without_any_window() {
    assert_eq!(locate_window(false, 0), Err(StartupError::NoWindowAvailable));
}

#[test]
fn classify_routes_lifecycle_events() {
    assert_eq!(classify_window_event(WindowEvent::Destroyed), SignalUpdate::Stop);
    assert_eq!(classify_window_event(WindowEvent::CloseRequested), SignalUpdate::Stop);
    assert_eq!(classify_window_event(WindowEvent::Resized), SignalUpdate::MarkResized);
    assert_eq!(classify_window_event(WindowEvent::ScaleFactorChanged), SignalUpdate::MarkResized);
    assert_eq!(classify_window_event(WindowEvent::Other), SignalUpdate::Ignore);
}

#[test]
fn running_flag_is_one_shot() {
    let mut signal = RendererSignal::new();
    assert!(signal.running);
    signal.apply(SignalUpdate::Stop);
    assert!(!signal.running);
    signal.apply(SignalUpdate::MarkResized);
    signal.apply(SignalUpdate::Ignore);
    assert!(!signal.running);
    assert!(signal.resize_pending);
}

#[test]
fn take_resize_reads_and_clears() {
    let mut signal = RendererSignal::new();
    assert!(signal.take_resize());
    assert!(!signal.take_resize());
    signal.apply(SignalUpdate::MarkResized);
    assert!(signal.take_resize());
}

#[test]
fn start_applies_initial_forced_configure() {
    let caps = caps_of(
        vec![SurfaceFormat::Bgra8Unorm],
        vec![PresentMode::AutoNoVsync],
        vec![AlphaMode::Opaque],
    );
    let state = FrameLoop::start(&caps, Some((800, 600)));
    assert_eq!(state.phase, Phase::Running);
    assert_eq!(state.frame_index, 0);
    assert_eq!((state.config.width, state.config.height), (800, 600));
}

#[test]
fn degenerate_size_waits_instead_of_acquiring() {
    let caps = caps_of(vec![], vec![], vec![]);
    let mut state = FrameLoop::start(&caps, Some((640, 480)));
    let (step, _) = state.poll(true, Some((0, 480)));
    assert_eq!(step, TickStep::Wait);
    assert_eq!(state.phase, Phase::Paused);
    let (step, _) = state.poll(true, Some((640, 0)));
    assert_eq!(step, TickStep::Wait);
    let (step, _) = state.poll(true, Some((640, 480)));
    assert_eq!(step, TickStep::Acquire);
    assert_eq!(state.phase, Phase::Running);
}

#[test]
fn stop_flag_is_observed_within_one_tick() {
    let caps = caps_of(vec![], vec![], vec![]);
    let mut state = FrameLoop::start(&caps, Some((640, 480)));
    let (step, applied) = state.poll(false, Some((640, 480)));
    assert_eq!(step, TickStep::Stop);
    assert!(!applied);
    assert_eq!(state.phase, Phase::Stopped);
}

#[test]
fn successful_frame_presents_the_deterministic_color() {
    let caps = caps_of(vec![], vec![], vec![]);
    let mut state = FrameLoop::start(&caps, Some((640, 480)));
    state.poll(true, Some((640, 480)));
    let action = state.frame(AcquireOutcome::Success, Some((640, 480)), 16);
    match action {
        FrameAction::Present(color) => assert_eq!(color, clear_color(0, 16)),
        other => panic!("expected a present action, got {:?}", other),
    }
    assert_eq!(state.frame_index, 1);
}

#[test]
fn timeout_skips_the_tick_with_no_state_change() {
    let caps = caps_of(vec![], vec![], vec![]);
    let mut state = FrameLoop::start(&caps, Some((640, 480)));
    state.poll(true, Some((640, 480)));
    let before = state;
    let action = state.frame(AcquireOutcome::Timeout, Some((640, 480)), 16);
    assert_eq!(action, FrameAction::Skip);
    assert_eq!(state, before);
    assert_eq!(state.frame_index, 0);
}

#[test]
fn lost_surface_forces_reconfiguration() {
    let caps = caps_of(vec![], vec![], vec![]);
    let mut state = FrameLoop::start(&caps, Some((640, 480)));
    state.poll(true, Some((640, 480)));
    let action = state.frame(AcquireOutcome::Lost, Some((800, 600)), 16);
    assert_eq!(action, FrameAction::Reconfigure);
    assert_eq!((state.config.width, state.config.height), (800, 600));
    assert_eq!(state.phase, Phase::Running);
    assert_eq!(state.frame_index, 0);
    let action = state.frame(AcquireOutcome::Outdated, Some((800, 600)), 16);
    assert_eq!(action, FrameAction::Reconfigure);
    assert_eq!(state.frame_index, 0);
}

#[test]
fn out_of_memory_halts_for_good() {
    let caps = caps_of(vec![], vec![], vec![]);
    let mut state = FrameLoop::start(&caps, Some((640, 480)));
    state.poll(true, Some((640, 480)));
    let action = state.frame(AcquireOutcome::OutOfMemory, Some((640, 480)), 16);
    assert_eq!(action, FrameAction::Halt);
    assert_eq!(state.phase, Phase::Stopped);
    // Even with the stop flag still reading true, no further tick acquires.
    for _ in 0..3 {
        let (step, applied) = state.poll(true, Some((640, 480)));
        assert_eq!(step, TickStep::Stop);
        assert!(!applied);
        assert_eq!(state.phase, Phase::Stopped);
    }
}

#[test]
fn frame_counter_wraps_on_overflow() {
    let state = FrameLoop {
        config: SurfaceConfig::negotiate(&caps_of(vec![], vec![], vec![])),
        frame_index: u64::MAX,
        phase: Phase::Running,
    };
    let mut state = state;
    state.poll(true, Some((64, 64)));
    state.frame(AcquireOutcome::Success, Some((64, 64)), 4);
    assert_eq!(state.frame_index, 0);
}
