use gpu_lifecycle::app::{Action, App, FrameDecision, KeyCode, Phase, Step, WindowEvent};
use gpu_lifecycle::error::GpuError;
use gpu_lifecycle::frame_counter::FrameReport;
use gpu_lifecycle::gpu::{Gpu, SurfaceCapabilities};
use gpu_lifecycle::mipmap::ClearColor;
use gpu_lifecycle::renderer::{Acquire, Renderer};
use gpu_lifecycle::scene::DrawCall;
use wgpu::{CompositeAlphaMode, PresentMode, TextureFormat};

fn renderer(width: u32, height: u32) -> Renderer {
    let caps = SurfaceCapabilities {
        formats: vec![TextureFormat::Rgba8UnormSrgb, TextureFormat::Rgba8Unorm],
        present_modes: vec![PresentMode::Fifo],
        alpha_modes: vec![CompositeAlphaMode::Opaque],
    };
    match Gpu::new_async(Some(&caps), width, height) {
        Ok(gpu) => Renderer::new(gpu),
        Err(e) => panic!("no device context: {:?}", e),
    }
}

fn ready_app() -> App {
    let mut app = App::new();
    assert!(app.resumed(Some((800, 600))));
    assert!(app.attach_renderer(renderer(800, 600), 0));
    assert_eq!(app.current_phase(), Phase::Ready);
    app
}

fn size(app: &App) -> (u32, u32) {
    let config = app.current_config().unwrap();
    (config.width, config.height)
}

const IDLE: Step = Step { action: Action::Nothing, request_redraw: false, report: None };

#[test]
fn a_new_session_is_uninitialized() {
    let app = App::new();
    assert_eq!(app.current_phase(), Phase::Uninitialized);
    assert!(app.current_config().is_none());
    assert_eq!(app.window_size(), (0, 0));
    assert!(!app.is_terminated());
}

#[test]
fn the_first_window_asks_for_a_renderer() {
    let mut app = App::new();
    assert!(!app.resumed(None));
    assert_eq!(app.current_phase(), Phase::Uninitialized);
    assert!(app.resumed(Some((640, 480))));
    assert_eq!(app.window_size(), (640, 480));
    assert_eq!(app.current_phase(), Phase::Uninitialized);
    assert!(!app.resumed(Some((1, 1))));
    assert_eq!(app.window_size(), (640, 480));
}

#[test]
fn a_session_is_ready_with_window_and_renderer() {
    let mut app = App::new();
    assert!(app.resumed(Some((800, 600))));
    assert!(app.attach_renderer(renderer(800, 600), 42));
    assert_eq!(app.current_phase(), Phase::Ready);
    assert_eq!(size(&app), (800, 600));
    assert!(!app.attach_renderer(renderer(1, 1), 43));
    assert_eq!(size(&app), (800, 600));
}

#[test]
fn a_renderer_without_a_window_is_not_enough() {
    let mut app = App::new();
    assert!(app.attach_renderer(renderer(800, 600), 0));
    assert_eq!(app.current_phase(), Phase::Uninitialized);
    assert_eq!(app.window_event(WindowEvent::RedrawRequested, 1), IDLE);
    assert!(!app.resumed(None));
    assert_eq!(app.current_phase(), Phase::Uninitialized);
    assert!(app.resumed(Some((800, 600))));
    assert_eq!(app.current_phase(), Phase::Ready);
}

#[test]
fn an_uninitialized_session_ignores_events() {
    let mut app = App::new();
    app.resumed(Some((800, 600)));
    for event in [
        WindowEvent::CloseRequested,
        WindowEvent::RedrawRequested,
        WindowEvent::Resized { width: 10, height: 10 },
        WindowEvent::KeyboardInput { key: KeyCode::Escape },
        WindowEvent::Other,
    ] {
        assert_eq!(app.window_event(event, 5), IDLE);
        assert_eq!(app.current_phase(), Phase::Uninitialized);
    }
    assert!(matches!(app.frame_acquired(0, Acquire::Ready), FrameDecision::Discard));
}

#[test]
fn redraw_starts_a_frame_with_the_time_since_the_last() {
    let mut app = ready_app();
    assert_eq!(
        app.window_event(WindowEvent::RedrawRequested, 16_000_000),
        Step { action: Action::Render { delta_nanos: 16_000_000 }, request_redraw: true, report: None }
    );
    assert_eq!(
        app.window_event(WindowEvent::RedrawRequested, 40_000_000),
        Step { action: Action::Render { delta_nanos: 24_000_000 }, request_redraw: true, report: None }
    );
    assert_eq!(
        app.window_event(WindowEvent::RedrawRequested, 30_000_000),
        Step { action: Action::Render { delta_nanos: 0 }, request_redraw: true, report: None }
    );
}

#[test]
fn redraws_report_frame_statistics_each_second() {
    let mut app = ready_app();
    for frame in 1..=10u64 {
        let step = app.window_event(WindowEvent::RedrawRequested, frame * 100_000_000);
        assert_eq!(step.report, None);
    }
    let step = app.window_event(WindowEvent::RedrawRequested, 1_100_000_000);
    assert_eq!(
        step.report,
        Some(FrameReport { frames: 11, elapsed_nanos: 1_100_000_000, frame_time_nanos: 100_000_000 })
    );
    let step = app.window_event(WindowEvent::RedrawRequested, 1_200_000_000);
    assert_eq!(step.report, None);
}

#[test]
fn a_frame_is_presented_when_its_texture_arrives() {
    let mut app = ready_app();
    app.window_event(WindowEvent::RedrawRequested, 1);
    match app.frame_acquired(1, Acquire::Ready) {
        FrameDecision::Present(frame) => {
            assert_eq!(frame.clear, ClearColor::Black);
            assert_eq!(frame.commands.draw, DrawCall::new());
        }
        _ => panic!("expected a frame"),
    }
    assert_eq!(app.current_phase(), Phase::Ready);
}

#[test]
fn a_frame_without_texture_is_skipped_and_the_next_is_tried() {
    let mut app = ready_app();
    app.window_event(WindowEvent::RedrawRequested, 1);
    assert!(matches!(app.frame_acquired(1, Acquire::Lost), FrameDecision::Skip(GpuError::SurfaceLost)));
    assert_eq!(app.current_phase(), Phase::Ready);
    app.window_event(WindowEvent::RedrawRequested, 2);
    assert!(matches!(app.frame_acquired(1, Acquire::TimedOut), FrameDecision::Skip(GpuError::Timeout)));
    assert_eq!(app.current_phase(), Phase::Ready);
    let step = app.window_event(WindowEvent::RedrawRequested, 3);
    assert_eq!(step.action, Action::Render { delta_nanos: 1 });
    assert!(matches!(app.frame_acquired(1, Acquire::Ready), FrameDecision::Present(_)));
}

#[test]
fn resize_reconfigures_the_surface() {
    let mut app = ready_app();
    assert_eq!(
        app.window_event(WindowEvent::Resized { width: 1024, height: 768 }, 1),
        Step { action: Action::Configure { width: 1024, height: 768 }, request_redraw: true, report: None }
    );
    assert_eq!(size(&app), (1024, 768));
    assert_eq!(app.window_size(), (1024, 768));
    assert_eq!(app.current_phase(), Phase::Ready);
}

#[test]
fn resize_to_zero_is_ignored_by_the_session() {
    let mut app = ready_app();
    for (width, height) in [(0u32, 768u32), (1024, 0), (0, 0)] {
        assert_eq!(
            app.window_event(WindowEvent::Resized { width, height }, 1),
            Step { action: Action::Nothing, request_redraw: true, report: None }
        );
        assert_eq!(size(&app), (800, 600));
        assert_eq!(app.window_size(), (800, 600));
    }
    assert!(matches!(app.frame_acquired(0, Acquire::Ready), FrameDecision::Present(_)));
}

#[test]
fn close_ends_the_session() {
    let mut app = ready_app();
    assert_eq!(
        app.window_event(WindowEvent::CloseRequested, 1),
        Step { action: Action::Exit, request_redraw: false, report: None }
    );
    assert_eq!(app.current_phase(), Phase::Terminated);
    assert!(app.is_terminated());
}

#[test]
fn escape_ends_the_session_and_other_keys_do_not() {
    let mut app = ready_app();
    assert_eq!(
        app.window_event(WindowEvent::KeyboardInput { key: KeyCode::Other }, 1),
        Step { action: Action::Nothing, request_redraw: true, report: None }
    );
    assert_eq!(app.current_phase(), Phase::Ready);
    assert_eq!(
        app.window_event(WindowEvent::KeyboardInput { key: KeyCode::Escape }, 2),
        Step { action: Action::Exit, request_redraw: false, report: None }
    );
    assert_eq!(app.current_phase(), Phase::Terminated);
}

#[test]
fn other_events_only_ask_for_a_redraw() {
    let mut app = ready_app();
    assert_eq!(
        app.window_event(WindowEvent::Other, 1),
        Step { action: Action::Nothing, request_redraw: true, report: None }
    );
    assert_eq!(app.current_phase(), Phase::Ready);
}

#[test]
fn close_while_a_frame_is_under_way_presents_nothing() {
    let mut app = ready_app();
    let step = app.window_event(WindowEvent::RedrawRequested, 1);
    assert!(matches!(step.action, Action::Render { .. }));
    let step = app.window_event(WindowEvent::CloseRequested, 2);
    assert_eq!(step.action, Action::Exit);
    assert!(matches!(app.frame_acquired(1, Acquire::Ready), FrameDecision::Discard));
    assert!(matches!(app.frame_acquired(1, Acquire::Lost), FrameDecision::Discard));
    assert_eq!(app.current_phase(), Phase::Terminated);
}

#[test]
fn a_terminated_session_answers_nothing() {
    let mut app = ready_app();
    app.window_event(WindowEvent::CloseRequested, 1);
    for event in [
        WindowEvent::RedrawRequested,
        WindowEvent::Resized { width: 10, height: 10 },
        WindowEvent::CloseRequested,
        WindowEvent::KeyboardInput { key: KeyCode::Escape },
        WindowEvent::Other,
    ] {
        assert_eq!(app.window_event(event, 5), IDLE);
        assert_eq!(app.current_phase(), Phase::Terminated);
        assert!(matches!(app.frame_acquired(0, Acquire::Ready), FrameDecision::Discard));
    }
    assert_eq!(size(&app), (800, 600));
    assert!(!app.attach_renderer(renderer(1, 1), 9));
    assert!(!app.resumed(Some((5, 5))));
    assert_eq!(app.current_phase(), Phase::Terminated);
}
