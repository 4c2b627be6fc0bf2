use asn_win_wgpu::data::ClearColor;
use asn_win_wgpu::{
    FrameAction, FramePhase, Negotiation, PassCommand, PipelineDescriptor, RenderPass, State,
    StateError, SurfaceCapabilities,
};
use wgpu::{CompositeAlphaMode, PresentMode, TextureFormat};

const SHADER: &str = "@vertex fn vs_main() {} @fragment fn fs_main() {}";

fn capabilities() -> SurfaceCapabilities {
    SurfaceCapabilities {
        formats: vec![TextureFormat::Bgra8Unorm, TextureFormat::Bgra8UnormSrgb],
        present_modes: vec![PresentMode::Fifo, PresentMode::Immediate],
        alpha_modes: vec![CompositeAlphaMode::Auto, CompositeAlphaMode::Opaque],
    }
}

fn new_state(width: u32, height: u32) -> State {
    State::new(width, height, Negotiation::Ready(capabilities()), SHADER).unwrap()
}

fn quad_pass() -> RenderPass {
    let mut pass = RenderPass::begin(ClearColor { red: 100, green: 200, blue: 300, alpha: 1000 });
    pass.record(PassCommand::SetPipeline(PipelineDescriptor::build(
        TextureFormat::Bgra8UnormSrgb,
        SHADER,
    )));
    pass.record(PassCommand::Draw {
        vertex_start: 0,
        vertex_end: 3,
        instance_start: 0,
        instance_end: 1,
    });
    pass
}

fn full_cycle(state: &mut State) -> Vec<FrameAction> {
    let mut ctx = state.draw_start().unwrap();
    assert_eq!(ctx.phase(), FramePhase::Idle);
    ctx.acquired(Ok(())).unwrap();
    assert_eq!(ctx.phase(), FramePhase::Acquired);
    state.draw(&mut ctx).unwrap();
    assert_eq!(ctx.phase(), FramePhase::Recorded);
    state.draw_end(ctx).unwrap()
}

#[test]
fn new_context_holds_the_first_configuration() {
    let state = new_state(800, 600);
    assert!(!state.is_configured());
    let config = state.config();
    assert_eq!(config.format, TextureFormat::Bgra8UnormSrgb);
    assert_eq!(config.width, 800);
    assert_eq!(config.height, 600);
    assert_eq!(config.present_mode, PresentMode::Fifo);
    assert_eq!(config.alpha_mode, CompositeAlphaMode::Auto);
    assert_eq!(config.max_frame_latency, 2);
    assert_eq!(
        state.quad().render_pipeline(),
        &PipelineDescriptor::build(TextureFormat::Bgra8UnormSrgb, SHADER)
    );
}

#[test]
fn new_context_falls_back_to_the_first_format() {
    let caps = SurfaceCapabilities {
        formats: vec![TextureFormat::Rgba16Float, TextureFormat::Bgra8Unorm],
        present_modes: vec![PresentMode::Fifo],
        alpha_modes: vec![CompositeAlphaMode::Opaque],
    };
    let state = State::new(1, 1, Negotiation::Ready(caps), SHADER).unwrap();
    assert_eq!(state.config().format, TextureFormat::Rgba16Float);
    assert_eq!(state.quad().render_pipeline().format(), TextureFormat::Rgba16Float);
    assert_eq!(state.config().width, 1);
    assert_eq!(state.config().height, 1);
}

#[test]
fn new_rejects_a_window_below_the_minimum() {
    let result = State::new(0, 600, Negotiation::Ready(capabilities()), SHADER);
    assert_eq!(result.unwrap_err(), StateError::InvalidWindowSize { width: 0, height: 600 });
    let result = State::new(800, 0, Negotiation::Ready(capabilities()), SHADER);
    assert_eq!(result.unwrap_err(), StateError::InvalidWindowSize { width: 800, height: 0 });
}

#[test]
fn new_looks_at_the_size_before_the_negotiation() {
    let result = State::new(0, 0, Negotiation::NoAdapter, SHADER);
    assert_eq!(result.unwrap_err(), StateError::InvalidWindowSize { width: 0, height: 0 });
    let result = State::new(0, 5, Negotiation::SurfaceFailed(String::from("no display")), SHADER);
    assert_eq!(result.unwrap_err(), StateError::InvalidWindowSize { width: 0, height: 5 });
}

#[test]
fn new_reports_a_surface_that_could_not_be_created() {
    let result = State::new(800, 600, Negotiation::SurfaceFailed(String::from("no display")), SHADER);
    assert_eq!(
        result.unwrap_err(),
        StateError::SurfaceCreationFailed(String::from("no display"))
    );
}

#[test]
fn new_reports_a_missing_adapter() {
    let result = State::new(800, 600, Negotiation::NoAdapter, SHADER);
    assert_eq!(result.unwrap_err(), StateError::NoAdapterFound);
}

#[test]
fn new_reports_a_device_that_was_refused() {
    let result = State::new(800, 600, Negotiation::DeviceFailed(String::from("limits")), SHADER);
    assert_eq!(result.unwrap_err(), StateError::DeviceCreationFailed(String::from("limits")));
}

#[test]
fn new_reports_a_surface_that_the_adapter_cannot_serve() {
    let caps = SurfaceCapabilities {
        formats: vec![],
        present_modes: vec![PresentMode::Fifo],
        alpha_modes: vec![CompositeAlphaMode::Opaque],
    };
    let result = State::new(800, 600, Negotiation::Ready(caps), SHADER);
    assert_eq!(result.unwrap_err(), StateError::NoAdapterFound);
    let caps = SurfaceCapabilities {
        formats: vec![TextureFormat::Bgra8Unorm],
        present_modes: vec![],
        alpha_modes: vec![],
    };
    let result = State::new(800, 600, Negotiation::Ready(caps), SHADER);
    assert_eq!(result.unwrap_err(), StateError::NoAdapterFound);
}

#[test]
fn resize_below_the_minimum_is_rejected_and_changes_nothing() {
    let mut state = new_state(800, 600);
    for (width, height) in [(0, 600), (800, 0), (0, 0)] {
        assert_eq!(
            state.resize(width, height),
            Err(StateError::InvalidWindowSize { width, height })
        );
        assert!(!state.is_configured());
        assert_eq!(state.config().width, 800);
        assert_eq!(state.config().height, 600);
    }
    state.resize(640, 480).unwrap();
    for (width, height) in [(0, 600), (800, 0), (0, 0)] {
        assert_eq!(
            state.resize(width, height),
            Err(StateError::InvalidWindowSize { width, height })
        );
        assert!(state.is_configured());
        assert_eq!(state.config().width, 640);
        assert_eq!(state.config().height, 480);
    }
}

#[test]
fn resize_configures_the_surface() {
    let mut state = new_state(800, 600);
    let config = state.resize(1024, 768).unwrap();
    assert_eq!(config.width, 1024);
    assert_eq!(config.height, 768);
    assert_eq!(config.format, TextureFormat::Bgra8UnormSrgb);
    assert_eq!(config.present_mode, PresentMode::Fifo);
    assert_eq!(config.alpha_mode, CompositeAlphaMode::Auto);
    assert_eq!(config.max_frame_latency, 2);
    assert!(state.is_configured());
    assert_eq!(state.config(), config);
    assert!(state.draw_start().is_ok());
}

#[test]
fn resize_to_the_same_size_is_allowed() {
    let mut state = new_state(800, 600);
    let first = state.resize(800, 600).unwrap();
    let second = state.resize(800, 600).unwrap();
    assert_eq!(first, second);
    assert!(state.is_configured());
}

#[test]
fn resize_to_the_smallest_and_largest_size() {
    let mut state = new_state(800, 600);
    let config = state.resize(1, 1).unwrap();
    assert_eq!((config.width, config.height), (1, 1));
    let config = state.resize(u32::MAX, u32::MAX).unwrap();
    assert_eq!((config.width, config.height), (u32::MAX, u32::MAX));
}

#[test]
fn draw_start_before_any_resize_fails() {
    let mut state = new_state(800, 600);
    assert_eq!(state.draw_start().unwrap_err(), StateError::SurfaceNotConfigured);
    assert!(state.resize(0, 0).is_err());
    assert_eq!(state.draw_start().unwrap_err(), StateError::SurfaceNotConfigured);
    assert!(!state.is_configured());
}

#[test]
fn draw_start_opens_an_idle_session() {
    let mut state = new_state(800, 600);
    state.resize(800, 600).unwrap();
    let ctx = state.draw_start().unwrap();
    assert_eq!(ctx.phase(), FramePhase::Idle);
    assert!(ctx.passes().is_empty());
    assert!(state.is_configured());
}

#[test]
fn failed_acquisition_is_reported_with_its_detail() {
    let mut state = new_state(800, 600);
    state.resize(800, 600).unwrap();
    let mut ctx = state.draw_start().unwrap();
    assert_eq!(
        ctx.acquired(Err(String::from("Outdated"))),
        Err(StateError::TextureAcquisitionFailed(String::from("Outdated")))
    );
    assert_eq!(ctx.phase(), FramePhase::Idle);
    assert!(ctx.passes().is_empty());
}

#[test]
fn draw_records_one_pass_with_the_quad() {
    let mut state = new_state(800, 600);
    state.resize(800, 600).unwrap();
    let mut ctx = state.draw_start().unwrap();
    ctx.acquired(Ok(())).unwrap();
    assert_eq!(state.draw(&mut ctx), Ok(()));
    assert_eq!(ctx.phase(), FramePhase::Recorded);
    assert_eq!(ctx.passes(), &vec![quad_pass()]);
}

#[test]
fn draw_twice_records_two_passes_in_order() {
    let mut state = new_state(800, 600);
    state.resize(800, 600).unwrap();
    let mut ctx = state.draw_start().unwrap();
    ctx.acquired(Ok(())).unwrap();
    state.draw(&mut ctx).unwrap();
    let mut extra = RenderPass::begin(ClearColor { red: 0, green: 0, blue: 0, alpha: 1000 });
    extra.record(PassCommand::Draw {
        vertex_start: 0,
        vertex_end: 6,
        instance_start: 0,
        instance_end: 1,
    });
    ctx.end_render_pass(extra);
    state.draw(&mut ctx).unwrap();
    assert_eq!(ctx.passes().len(), 3);
    assert_eq!(ctx.passes()[0], quad_pass());
    assert_eq!(ctx.passes()[1].commands().len(), 1);
    assert_eq!(ctx.passes()[2], quad_pass());
    let actions = state.draw_end(ctx).unwrap();
    match &actions[0] {
        FrameAction::Submit(passes) => {
            assert_eq!(passes.len(), 3);
            assert_eq!(passes[0], quad_pass());
            assert_eq!(passes[1].clear_color(), ClearColor { red: 0, green: 0, blue: 0, alpha: 1000 });
            assert_eq!(passes[2], quad_pass());
        }
        FrameAction::Present => panic!("the submission comes first"),
    }
}

#[test]
fn full_cycle_submits_once_and_presents_once() {
    let mut state = new_state(800, 600);
    state.resize(800, 600).unwrap();
    let actions = full_cycle(&mut state);
    assert_eq!(actions, vec![FrameAction::Submit(vec![quad_pass()]), FrameAction::Present]);
    let submissions = actions.iter().filter(|a| matches!(a, FrameAction::Submit(_))).count();
    let presentations = actions.iter().filter(|a| matches!(a, FrameAction::Present)).count();
    assert_eq!(submissions, 1);
    assert_eq!(presentations, 1);
    assert_eq!(State::frame_submitted(Ok(())), Ok(()));
}

#[test]
fn frame_without_a_draw_can_be_ended() {
    let mut state = new_state(800, 600);
    state.resize(800, 600).unwrap();
    let mut ctx = state.draw_start().unwrap();
    ctx.acquired(Ok(())).unwrap();
    let actions = state.draw_end(ctx).unwrap();
    assert_eq!(actions, vec![FrameAction::Submit(vec![]), FrameAction::Present]);
}

#[test]
fn failed_submission_is_reported_with_its_detail() {
    assert_eq!(
        State::frame_submitted(Err(String::from("device lost"))),
        Err(StateError::SubmissionFailed(String::from("device lost")))
    );
}

#[test]
fn restore_after_a_failed_acquisition_recovers() {
    let mut state = new_state(800, 600);
    state.resize(800, 600).unwrap();
    let mut ctx = state.draw_start().unwrap();
    let failure = ctx.acquired(Err(String::from("Lost"))).unwrap_err();
    assert_eq!(failure, StateError::TextureAcquisitionFailed(String::from("Lost")));
    drop(ctx);
    let config = state.restore(1280, 720).unwrap();
    assert_eq!((config.width, config.height), (1280, 720));
    assert_eq!(state.config(), config);
    assert!(state.is_configured());
    let actions = full_cycle(&mut state);
    assert_eq!(actions.len(), 2);
}

#[test]
fn restore_configures_a_surface_that_never_was() {
    let mut state = new_state(800, 600);
    assert_eq!(state.draw_start().unwrap_err(), StateError::SurfaceNotConfigured);
    state.restore(800, 600).unwrap();
    assert!(state.draw_start().is_ok());
}

#[test]
fn restore_with_a_collapsed_window_is_rejected() {
    let mut state = new_state(800, 600);
    state.resize(800, 600).unwrap();
    assert_eq!(
        state.restore(0, 0),
        Err(StateError::InvalidWindowSize { width: 0, height: 0 })
    );
    assert!(state.is_configured());
    assert_eq!((state.config().width, state.config().height), (800, 600));
}

#[test]
fn three_frames_in_a_row_after_800_by_600() {
    let mut state = new_state(800, 600);
    let config = state.resize(800, 600).unwrap();
    assert!(state.is_configured());
    for _ in 0..3 {
        let actions = full_cycle(&mut state);
        assert_eq!(actions, vec![FrameAction::Submit(vec![quad_pass()]), FrameAction::Present]);
        assert_eq!(State::frame_submitted(Ok(())), Ok(()));
        assert!(state.is_configured());
        assert_eq!(state.config(), config);
        assert_eq!(
            state.quad().render_pipeline(),
            &PipelineDescriptor::build(TextureFormat::Bgra8UnormSrgb, SHADER)
        );
    }
}
