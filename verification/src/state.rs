use vstd::prelude::*;

use crate::data::{default_clear_color, size_is_valid, ClearColor};
use crate::frame::{
    action_views, frame_actions, FrameAction, RenderContext, RenderContextView, RenderPass,
    RenderPassView,
};
use crate::pipeline::{quad_pipeline, PipelineDescriptorView};
use crate::state_error::StateError;
use crate::surface::{
    initial_config, preferred_format, surface_error, SurfaceCapabilities, SurfaceConfig,
    SurfaceManager,
};
use crate::wgpu_quad::{quad_commands, WgpuQuad};

verus! {

/// How far the host came when it negotiated the hardware for a window: the
/// surface, then an adapter that is compatible with it, then a device and
/// its queue. The first step that fails ends the negotiation.
#[derive(Debug, Clone)]
pub enum Negotiation {
    /// No surface could be created for the window.
    SurfaceFailed(String),
    /// No adapter supports the surface.
    NoAdapter,
    /// The driver handed out no device.
    DeviceFailed(String),
    /// A device and its queue are there; the surface supports what is listed.
    Ready(SurfaceCapabilities),
}

/// Why no context comes out of a window of the given size and a negotiation
/// that ended in `negotiation`, if none does. The size is looked at first. A
/// surface that names no format, no presentation mode or no alpha mode is
/// one that the adapter cannot serve: no adapter is found for it.
pub open spec fn negotiation_error(width: u32, height: u32, negotiation: Negotiation) -> Option<
    StateError,
> {
    if !size_is_valid(width, height) {
        Some(StateError::InvalidWindowSize { width, height })
    } else {
        match negotiation {
            Negotiation::SurfaceFailed(detail) => Some(StateError::SurfaceCreationFailed(detail)),
            Negotiation::NoAdapter => Some(StateError::NoAdapterFound),
            Negotiation::DeviceFailed(detail) => Some(StateError::DeviceCreationFailed(detail)),
            Negotiation::Ready(caps) => surface_error(caps, width, height),
        }
    }
}

/// What the queue or the surface answered when a frame was submitted and
/// presented, as an error: none where both went through.
pub open spec fn submission_error(outcome: Result<(), String>) -> Option<StateError> {
    match outcome {
        Ok(_) => None,
        Err(detail) => Some(StateError::SubmissionFailed(detail)),
    }
}

/// The render pass that one call of `State::draw` records: the target is
/// cleared to the background colour and the quad is drawn with `pipeline`.
pub open spec fn quad_pass(pipeline: PipelineDescriptorView) -> RenderPassView {
    RenderPassView { clear_color: default_clear_color(), commands: quad_commands(pipeline) }
}

/// The rendering context of one window: the surface's configuration and the
/// quad that every frame draws. The host owns the GPU handles that belong to
/// it and does with them what the methods hand back.
#[derive(Debug)]
pub struct State {
    surface: SurfaceManager,
    quad: WgpuQuad,
}

/// What a [`State`] holds.
pub struct StateView {
    /// The configuration of the surface.
    pub config: SurfaceConfig,
    /// Whether the surface has been configured.
    pub configured: bool,
    /// The pipeline of the quad.
    pub pipeline: PipelineDescriptorView,
}

impl StateView {
    /// The context as it is built for a window of the given size: the
    /// surface holds its first configuration and is not configured, and the
    /// quad's pipeline renders to the surface's format.
    pub open spec fn initial(
        caps: SurfaceCapabilities,
        width: u32,
        height: u32,
        shader_source: Seq<char>,
    ) -> StateView
        recommends
            caps.is_compatible(),
            size_is_valid(width, height),
    {
        StateView {
            config: initial_config(caps, width, height),
            configured: false,
            pipeline: quad_pipeline(preferred_format(caps.formats@), shader_source),
        }
    }

    /// The surface is never smaller than the minimum.
    pub open spec fn wf(&self) -> bool {
        size_is_valid(self.config.width, self.config.height)
    }

    /// The context after a request to resize the surface: with the new size
    /// and configured where the size is valid, unchanged where it is not.
    pub open spec fn resized(self, width: u32, height: u32) -> StateView {
        if size_is_valid(width, height) {
            StateView {
                config: SurfaceConfig { width, height, ..self.config },
                configured: true,
                ..self
            }
        } else {
            self
        }
    }

    /// What a request to resize the surface returns: the configuration to
    /// apply, or the rejected size.
    pub open spec fn resize_result(self, width: u32, height: u32) -> Result<
        SurfaceConfig,
        StateError,
    > {
        if size_is_valid(width, height) {
            Ok(self.resized(width, height).config)
        } else {
            Err(StateError::InvalidWindowSize { width, height })
        }
    }

    /// What opening a frame returns: a fresh session where the surface is
    /// configured.
    pub open spec fn draw_start_result(self) -> Result<RenderContextView, StateError> {
        if self.configured {
            Ok(RenderContextView::opened())
        } else {
            Err(StateError::SurfaceNotConfigured)
        }
    }
}

impl View for State {
    type V = StateView;

    closed spec fn view(&self) -> StateView {
        StateView {
            config: self.surface.config(),
            configured: self.surface.configured(),
            pipeline: self.quad.pipeline(),
        }
    }
}

impl State {
    /// Builds the context for a window of the given size from what the
    /// negotiation of the hardware came to.
    ///
    /// A size below the minimum is rejected before anything else is looked
    /// at; then the first step of the negotiation that failed is reported.
    /// Otherwise the surface gets its first configuration (the preferred
    /// format, the first presentation mode and alpha mode that it supports)
    /// and the quad its pipeline for that format. The surface does not count
    /// as configured before the first `resize`.
    pub fn new(width: u32, height: u32, negotiation: Negotiation, shader_source: &str) -> (result:
        Result<State, StateError>)
        ensures
            match negotiation_error(width, height, negotiation) {
                Some(error) => result matches Err(e) && e == error,
                None => result matches Ok(state) && negotiation matches Negotiation::Ready(caps)
                    && state@ == StateView::initial(caps, width, height, shader_source@)
                    && !state@.configured && state@.wf(),
            },
    {
        if !crate::data::check_size(width, height) {
            return Err(StateError::InvalidWindowSize { width, height });
        }
        match negotiation {
            Negotiation::SurfaceFailed(detail) => Err(StateError::SurfaceCreationFailed(detail)),
            Negotiation::NoAdapter => Err(StateError::NoAdapterFound),
            Negotiation::DeviceFailed(detail) => Err(StateError::DeviceCreationFailed(detail)),
            Negotiation::Ready(caps) => match SurfaceManager::new(&caps, width, height) {
                Ok(surface) => {
                    let quad = WgpuQuad::new(surface.current_config().format, shader_source);
                    Ok(State { surface, quad })
                },
                Err(error) => Err(error),
            },
        }
    }

    /// Takes a new size for the surface. A size below the minimum is
    /// rejected and nothing changes. Otherwise the size is stored, the
    /// surface counts as configured, and the host gets the configuration to
    /// apply to the surface. The same size may be given again.
    pub fn resize(&mut self, width: u32, height: u32) -> (result: Result<SurfaceConfig, StateError>)
        ensures
            final(self)@ == old(self)@.resized(width, height),
            result == old(self)@.resize_result(width, height),
            !size_is_valid(width, height) ==> final(self)@ == old(self)@ && result == Err::<
                SurfaceConfig,
                StateError,
            >(StateError::InvalidWindowSize { width, height }),
            size_is_valid(width, height) ==> final(self)@.configured && result == Ok::<
                SurfaceConfig,
                StateError,
            >(final(self)@.config),
            size_is_valid(width, height) ==> final(self)@.config.width == width,
            size_is_valid(width, height) ==> final(self)@.config.height == height,
            final(self)@.wf(),
    {
        self.surface.configure(width, height)
    }

    /// Recovers after a frame has failed: configures the surface anew with
    /// the size that the window has now, which the host has just read.
    pub fn restore(&mut self, window_width: u32, window_height: u32) -> (result: Result<
        SurfaceConfig,
        StateError,
    >)
        ensures
            final(self)@ == old(self)@.resized(window_width, window_height),
            result == old(self)@.resize_result(window_width, window_height),
            size_is_valid(window_width, window_height) ==> final(self)@.configured && result
                is Ok,
            final(self)@.wf(),
    {
        self.resize(window_width, window_height)
    }

    /// Opens the session of a frame. Before the surface is configured there
    /// is nothing to draw to, and no session is opened. Otherwise the host is
    /// to ask the surface for its next image and to hand the answer to
    /// `RenderContext::acquired`.
    pub fn draw_start(&mut self) -> (result: Result<RenderContext, StateError>)
        ensures
            final(self)@ == old(self)@,
            match old(self)@.draw_start_result() {
                Ok(opened) => result matches Ok(ctx) && ctx@ == opened,
                Err(error) => result matches Err(e) && e == error,
            },
            result is Ok <==> old(self)@.configured,
    {
        if !self.surface.is_configured() {
            return Err(StateError::SurfaceNotConfigured);
        }
        Ok(RenderContext::open())
    }

    /// Records one render pass into the session: the target is cleared to
    /// the background colour and the quad is drawn. It may be called more than
    /// once for a frame; each call adds a pass.
    pub fn draw(&mut self, ctx: &mut RenderContext) -> (result: Result<(), StateError>)
        requires
            old(ctx)@.is_recordable(),
        ensures
            result == Ok::<(), StateError>(()),
            final(self)@ == old(self)@,
            final(ctx)@ == old(ctx)@.after_pass(quad_pass(old(self)@.pipeline)),
    {
        let mut render_pass = RenderPass::begin(ClearColor::background());
        self.quad.draw(&mut render_pass);
        assert(render_pass@.commands =~= quad_commands(self.quad.pipeline()));
        ctx.end_render_pass(render_pass);
        Ok(())
    }

    /// Ends the session. The host is to submit the recorded passes in one
    /// command buffer, in the order in which they were recorded, and then to
    /// present the image; it reports how that went to `frame_submitted`.
    pub fn draw_end(&mut self, ctx: RenderContext) -> (result: Result<Vec<FrameAction>, StateError>)
        requires
            ctx@.is_recordable(),
        ensures
            final(self)@ == old(self)@,
            result matches Ok(actions) && actions.len() == 2 && action_views(actions@)
                == frame_actions(ctx@.passes),
    {
        let ghost recorded = ctx@.passes;
        let mut actions: Vec<FrameAction> = Vec::new();
        actions.push(FrameAction::Submit(ctx.into_passes()));
        actions.push(FrameAction::Present);
        assert(action_views(actions@) =~= frame_actions(recorded));
        Ok(actions)
    }

    /// Takes the host's report on the submission and presentation of a
    /// frame. A failure is handed on with the words that came with it.
    pub fn frame_submitted(outcome: Result<(), String>) -> (result: Result<(), StateError>)
        ensures
            match submission_error(outcome) {
                None => result == Ok::<(), StateError>(()),
                Some(error) => result == Err::<(), StateError>(error),
            },
    {
        match outcome {
            Ok(_) => Ok(()),
            Err(detail) => Err(StateError::SubmissionFailed(detail)),
        }
    }

    /// Whether the surface has been configured.
    pub fn is_configured(&self) -> (configured: bool)
        ensures
            configured == self@.configured,
    {
        self.surface.is_configured()
    }

    /// The configuration of the surface. Its size reaches the minimum.
    pub fn config(&self) -> (config: SurfaceConfig)
        ensures
            config == self@.config,
            self@.wf(),
    {
        self.surface.current_config()
    }

    /// The quad that every frame draws.
    pub fn quad(&self) -> (quad: &WgpuQuad)
        ensures
            quad.pipeline() == self@.pipeline,
    {
        &self.quad
    }
}

} // verus!
