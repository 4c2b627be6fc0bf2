use asn_win_wgpu::data::ClearColor;
use asn_win_wgpu::{
    custom_config, default_config, App, AppAction, AppEvent, FrameAction, Key, Negotiation,
    PassCommand, PendingReply, PipelineDescriptor, RenderPass, StateError, SurfaceCapabilities,
    SurfaceConfig,
};
use wgpu::{CompositeAlphaMode, PresentMode, TextureFormat};

const SHADER: &str = "@vertex fn vs_main() {} @fragment fn fs_main() {}";

fn capabilities() -> SurfaceCapabilities {
    SurfaceCapabilities {
        formats: vec![TextureFormat::Bgra8Unorm, TextureFormat::Bgra8UnormSrgb],
        present_modes: vec![PresentMode::Fifo],
        alpha_modes: vec![CompositeAlphaMode::Opaque],
    }
}

fn config(width: u32, height: u32) -> SurfaceConfig {
    SurfaceConfig {
        format: TextureFormat::Bgra8UnormSrgb,
        width,
        height,
        present_mode: PresentMode::Fifo,
        alpha_mode: CompositeAlphaMode::Opaque,
        max_frame_latency: 2,
    }
}

fn pipeline() -> PipelineDescriptor {
    PipelineDescriptor::build(TextureFormat::Bgra8UnormSrgb, SHADER)
}

fn quad_frame() -> Vec<FrameAction> {
    let mut pass = RenderPass::begin(ClearColor::background());
    pass.record(PassCommand::SetPipeline(pipeline()));
    pass.record(PassCommand::Draw {
        vertex_start: 0,
        vertex_end: 3,
        instance_start: 0,
        instance_end: 1,
    });
    vec![FrameAction::Submit(vec![pass]), FrameAction::Present]
}

fn started(width: u32, height: u32) -> App {
    let mut app = App::with_config(default_config());
    app.resumed();
    assert_eq!(app.window_created(width, height), AppAction::Negotiate);
    assert_eq!(
        app.negotiated(Negotiation::Ready(capabilities()), SHADER),
        AppAction::CreatePipeline(pipeline())
    );
    app
}

fn configured(width: u32, height: u32) -> App {
    let mut app = started(width, height);
    assert_eq!(
        app.window_event(AppEvent::Resized { width, height }),
        AppAction::Configure(config(width, height))
    );
    app
}

#[test]
fn new_app_does_not_run() {
    let app = App::with_config(custom_config("quad", 320, 200, false));
    assert!(!app.is_running());
    assert!(app.state().is_none());
    assert_eq!(app.pending(), PendingReply::Nothing);
    assert_eq!(app.config().window_title, "quad");
    assert_eq!(app.config().window_width, 320);
    assert_eq!(app.config().window_height, 200);
    assert!(!app.config().vsync);
}

#[test]
fn default_app_has_the_default_configuration() {
    let app = App::default();
    assert!(!app.is_running());
    assert!(app.state().is_none());
    assert_eq!(app.pending(), PendingReply::Nothing);
    assert_eq!(app.config().window_title, "ASN WGPU Application");
    assert_eq!(app.config().window_width, 800);
    assert_eq!(app.config().window_height, 600);
    assert!(app.config().vsync);
}

#[test]
fn app_that_does_not_run_ignores_window_events() {
    let mut app = App::with_config(default_config());
    for event in [
        AppEvent::CloseRequested,
        AppEvent::RedrawRequested,
        AppEvent::Resized { width: 800, height: 600 },
        AppEvent::KeyboardInput { pressed: true, key: Key::Escape },
        AppEvent::Other,
    ] {
        assert_eq!(app.window_event(event), AppAction::Nothing);
        assert!(!app.is_running());
        assert_eq!(app.pending(), PendingReply::Nothing);
    }
}

#[test]
fn resumed_asks_for_the_configured_window() {
    let mut app = App::with_config(custom_config("My Custom WGPU App", 1024, 768, true));
    assert_eq!(
        app.resumed(),
        AppAction::CreateWindow {
            title: String::from("My Custom WGPU App"),
            width: 1024,
            height: 768
        }
    );
    assert_eq!(app.pending(), PendingReply::Window);
    assert!(!app.is_running());
}

#[test]
fn start_up_builds_the_context_and_runs() {
    let mut app = App::with_config(default_config());
    assert_eq!(
        app.resumed(),
        AppAction::CreateWindow {
            title: String::from("ASN WGPU Application"),
            width: 800,
            height: 600
        }
    );
    assert_eq!(app.window_created(800, 600), AppAction::Negotiate);
    assert_eq!(app.pending(), PendingReply::Negotiation { width: 800, height: 600 });
    assert!(!app.is_running());
    assert_eq!(
        app.negotiated(Negotiation::Ready(capabilities()), SHADER),
        AppAction::CreatePipeline(pipeline())
    );
    assert!(app.is_running());
    assert_eq!(app.pending(), PendingReply::Nothing);
    let state = app.state().unwrap();
    assert!(!state.is_configured());
    assert_eq!(state.config(), config(800, 600));
}

#[test]
fn start_up_fails_for_a_window_below_the_minimum() {
    let mut app = App::with_config(default_config());
    app.resumed();
    assert_eq!(
        app.window_created(0, 600),
        AppAction::Fatal(StateError::InvalidWindowSize { width: 0, height: 600 })
    );
    assert_eq!(app.pending(), PendingReply::Nothing);
    assert!(!app.is_running());
    assert!(app.state().is_none());
}

#[test]
fn start_up_fails_with_what_the_negotiation_failed_with() {
    let cases = [
        (
            Negotiation::SurfaceFailed(String::from("no display")),
            StateError::SurfaceCreationFailed(String::from("no display")),
        ),
        (Negotiation::NoAdapter, StateError::NoAdapterFound),
        (
            Negotiation::DeviceFailed(String::from("limits")),
            StateError::DeviceCreationFailed(String::from("limits")),
        ),
    ];
    for (negotiation, error) in cases {
        let mut app = App::with_config(default_config());
        app.resumed();
        app.window_created(800, 600);
        assert_eq!(app.negotiated(negotiation, SHADER), AppAction::Fatal(error));
        assert!(!app.is_running());
        assert!(app.state().is_none());
        assert_eq!(app.pending(), PendingReply::Nothing);
    }
}

#[test]
fn start_up_fails_for_a_surface_that_names_no_format() {
    let mut app = App::with_config(default_config());
    app.resumed();
    app.window_created(800, 600);
    let caps = SurfaceCapabilities {
        formats: vec![],
        present_modes: vec![PresentMode::Fifo],
        alpha_modes: vec![CompositeAlphaMode::Opaque],
    };
    assert_eq!(
        app.negotiated(Negotiation::Ready(caps), SHADER),
        AppAction::Fatal(StateError::NoAdapterFound)
    );
    assert!(!app.is_running());
    assert!(app.state().is_none());
}

#[test]
fn answers_that_are_not_owed_are_ignored() {
    let mut app = App::with_config(default_config());
    assert_eq!(app.window_created(800, 600), AppAction::Nothing);
    assert_eq!(app.negotiated(Negotiation::Ready(capabilities()), SHADER), AppAction::Nothing);
    assert_eq!(app.frame_acquired(Ok(())), AppAction::Nothing);
    assert_eq!(app.frame_submitted(Ok(())), AppAction::Nothing);
    assert_eq!(app.window_size_read(800, 600), AppAction::Nothing);
    assert!(!app.is_running());
    assert!(app.state().is_none());
    assert_eq!(app.pending(), PendingReply::Nothing);

    let mut app = configured(800, 600);
    assert_eq!(app.frame_acquired(Ok(())), AppAction::Nothing);
    assert_eq!(app.frame_submitted(Err(String::from("late"))), AppAction::Nothing);
    assert_eq!(app.window_size_read(1, 1), AppAction::Nothing);
    assert_eq!(app.state().unwrap().config(), config(800, 600));
    assert_eq!(app.pending(), PendingReply::Nothing);
}

#[test]
fn first_redraw_finds_the_surface_unconfigured_and_restores_it() {
    let mut app = started(800, 600);
    assert_eq!(
        app.window_event(AppEvent::RedrawRequested),
        AppAction::Restore(StateError::SurfaceNotConfigured)
    );
    assert_eq!(app.pending(), PendingReply::WindowSize);
    assert_eq!(app.window_size_read(800, 600), AppAction::Configure(config(800, 600)));
    assert_eq!(app.pending(), PendingReply::Nothing);
    assert!(app.state().unwrap().is_configured());
    assert_eq!(app.window_event(AppEvent::RedrawRequested), AppAction::AcquireFrame);
}

#[test]
fn frame_is_acquired_recorded_submitted_and_presented() {
    let mut app = configured(800, 600);
    assert_eq!(app.window_event(AppEvent::RedrawRequested), AppAction::AcquireFrame);
    assert_eq!(app.pending(), PendingReply::Acquisition);
    assert_eq!(app.frame_acquired(Ok(())), AppAction::CompleteFrame(quad_frame()));
    assert_eq!(app.pending(), PendingReply::Submission);
    assert_eq!(app.frame_submitted(Ok(())), AppAction::RequestRedraw);
    assert_eq!(app.pending(), PendingReply::Nothing);
    assert!(app.is_running());
    assert!(app.state().unwrap().is_configured());
}

#[test]
fn three_frames_in_a_row() {
    let mut app = configured(800, 600);
    for _ in 0..3 {
        assert_eq!(app.window_event(AppEvent::RedrawRequested), AppAction::AcquireFrame);
        assert_eq!(app.frame_acquired(Ok(())), AppAction::CompleteFrame(quad_frame()));
        assert_eq!(app.frame_submitted(Ok(())), AppAction::RequestRedraw);
        assert!(app.state().unwrap().is_configured());
        assert_eq!(app.state().unwrap().config(), config(800, 600));
        assert_eq!(app.pending(), PendingReply::Nothing);
    }
}

#[test]
fn redraw_is_not_reentrant() {
    let mut app = configured(800, 600);
    assert_eq!(app.window_event(AppEvent::RedrawRequested), AppAction::AcquireFrame);
    assert_eq!(app.window_event(AppEvent::RedrawRequested), AppAction::Nothing);
    assert_eq!(app.pending(), PendingReply::Acquisition);
    app.frame_acquired(Ok(()));
    assert_eq!(app.window_event(AppEvent::RedrawRequested), AppAction::Nothing);
    assert_eq!(app.pending(), PendingReply::Submission);
}

#[test]
fn failed_acquisition_is_answered_with_one_restore() {
    let mut app = configured(800, 600);
    app.window_event(AppEvent::RedrawRequested);
    assert_eq!(
        app.frame_acquired(Err(String::from("Outdated"))),
        AppAction::Restore(StateError::TextureAcquisitionFailed(String::from("Outdated")))
    );
    assert_eq!(app.pending(), PendingReply::WindowSize);
    assert_eq!(app.window_size_read(1024, 768), AppAction::Configure(config(1024, 768)));
    assert_eq!(app.pending(), PendingReply::Nothing);
    assert_eq!(app.window_size_read(1024, 768), AppAction::Nothing);
    assert_eq!(app.window_event(AppEvent::RedrawRequested), AppAction::AcquireFrame);
    assert_eq!(app.frame_acquired(Ok(())), AppAction::CompleteFrame(quad_frame()));
}

#[test]
fn failed_submission_is_answered_with_one_restore() {
    let mut app = configured(800, 600);
    app.window_event(AppEvent::RedrawRequested);
    app.frame_acquired(Ok(()));
    assert_eq!(
        app.frame_submitted(Err(String::from("device lost"))),
        AppAction::Restore(StateError::SubmissionFailed(String::from("device lost")))
    );
    assert_eq!(app.pending(), PendingReply::WindowSize);
    assert_eq!(app.window_size_read(800, 600), AppAction::Configure(config(800, 600)));
    assert_eq!(app.pending(), PendingReply::Nothing);
}

#[test]
fn failed_restore_is_reported_and_the_app_goes_on() {
    let mut app = configured(800, 600);
    app.window_event(AppEvent::RedrawRequested);
    app.frame_acquired(Err(String::from("Lost")));
    assert_eq!(
        app.window_size_read(0, 0),
        AppAction::RestoreFailed(StateError::InvalidWindowSize { width: 0, height: 0 })
    );
    assert_eq!(app.pending(), PendingReply::Nothing);
    assert!(app.is_running());
    assert_eq!(app.state().unwrap().config(), config(800, 600));
    assert_eq!(app.window_event(AppEvent::RedrawRequested), AppAction::AcquireFrame);
}

#[test]
fn resize_event_configures_the_surface() {
    let mut app = started(800, 600);
    assert_eq!(
        app.window_event(AppEvent::Resized { width: 1280, height: 720 }),
        AppAction::Configure(config(1280, 720))
    );
    assert!(app.state().unwrap().is_configured());
    assert_eq!(app.state().unwrap().config(), config(1280, 720));
}

#[test]
fn resize_event_below_the_minimum_is_rejected() {
    let mut app = configured(800, 600);
    assert_eq!(
        app.window_event(AppEvent::Resized { width: 0, height: 720 }),
        AppAction::Rejected(StateError::InvalidWindowSize { width: 0, height: 720 })
    );
    assert!(app.state().unwrap().is_configured());
    assert_eq!(app.state().unwrap().config(), config(800, 600));
    assert!(app.is_running());
}

#[test]
fn close_request_stops_the_app() {
    let mut app = configured(800, 600);
    assert_eq!(app.window_event(AppEvent::CloseRequested), AppAction::Exit);
    assert!(!app.is_running());
    assert_eq!(app.window_event(AppEvent::RedrawRequested), AppAction::Nothing);
    assert_eq!(app.window_event(AppEvent::CloseRequested), AppAction::Nothing);
}

#[test]
fn pressed_escape_stops_the_app() {
    let mut app = configured(800, 600);
    assert_eq!(
        app.window_event(AppEvent::KeyboardInput { pressed: false, key: Key::Escape }),
        AppAction::Nothing
    );
    assert!(app.is_running());
    assert_eq!(
        app.window_event(AppEvent::KeyboardInput { pressed: true, key: Key::Escape }),
        AppAction::Exit
    );
    assert!(!app.is_running());
}

#[test]
fn other_keys_and_events_change_nothing() {
    let mut app = configured(800, 600);
    for event in [
        AppEvent::KeyboardInput { pressed: true, key: Key::F11 },
        AppEvent::KeyboardInput { pressed: true, key: Key::Other },
        AppEvent::KeyboardInput { pressed: false, key: Key::F11 },
        AppEvent::Other,
    ] {
        assert_eq!(app.window_event(event), AppAction::Nothing);
        assert!(app.is_running());
        assert_eq!(app.pending(), PendingReply::Nothing);
        assert_eq!(app.state().unwrap().config(), config(800, 600));
    }
}

#[test]
fn resuming_again_gives_up_the_frame_and_starts_over() {
    let mut app = configured(800, 600);
    app.window_event(AppEvent::RedrawRequested);
    assert_eq!(app.pending(), PendingReply::Acquisition);
    assert!(matches!(app.resumed(), AppAction::CreateWindow { .. }));
    assert_eq!(app.pending(), PendingReply::Window);
    assert_eq!(app.frame_acquired(Ok(())), AppAction::Nothing);
    assert_eq!(app.window_created(640, 480), AppAction::Negotiate);
    assert_eq!(
        app.negotiated(Negotiation::Ready(capabilities()), SHADER),
        AppAction::CreatePipeline(pipeline())
    );
    assert!(!app.state().unwrap().is_configured());
    assert_eq!(app.state().unwrap().config(), config(640, 480));
}
