use vstd::prelude::*;

use crate::asn_win_config::{default_config_view, AppConfig, AppConfigView};
use crate::data::{check_size, size_is_valid};
use crate::frame::{
    acquisition_error, action_views, frame_actions, FrameAction, FrameActionView, RenderContext,
    RenderContextView,
};
use crate::pipeline::{PipelineDescriptor, PipelineDescriptorView};
use crate::state::{negotiation_error, quad_pass, submission_error, Negotiation, State, StateView};
use crate::state_error::StateError;
use crate::surface::SurfaceConfig;

verus! {

/// The keys that the application tells apart.
#[derive(Debug, Clone, Copy, PartialEq, Eq, Structural)]
pub enum Key {
    Escape,
    F11,
    Other,
}

/// What the window reports to the application.
#[derive(Debug, Clone, Copy, PartialEq, Eq, Structural)]
pub enum AppEvent {
    /// The user asked to close the window.
    CloseRequested,
    /// The window wants its content drawn.
    RedrawRequested,
    /// The window has a new size, in pixels.
    Resized { width: u32, height: u32 },
    /// A key went down (`pressed`) or up.
    KeyboardInput { pressed: bool, key: Key },
    /// Anything else.
    Other,
}

/// What the host owes the application: the answer to the action that it was
/// handed last, where that action has an answer.
#[derive(Debug, Clone, Copy, PartialEq, Eq, Structural)]
pub enum PendingReply {
    /// Nothing is owed.
    Nothing,
    /// The size of the window that is being created.
    Window,
    /// What the negotiation of the hardware came to, for a window of this
    /// size.
    Negotiation { width: u32, height: u32 },
    /// The surface's answer to the request for the next image.
    Acquisition,
    /// How the submission and presentation of the frame went.
    Submission,
    /// The size that the window has now.
    WindowSize,
}

/// What the application asks its host to do. The host does it and, where the
/// action has an answer, hands the answer to the method named with it.
#[derive(Debug, PartialEq, Eq)]
pub enum AppAction {
    /// Nothing is to be done.
    Nothing,
    /// Create the window; answer with `App::window_created`.
    CreateWindow { title: String, width: u32, height: u32 },
    /// Create the surface of the window, ask for an adapter that is
    /// compatible with it, and for a device and its queue with no more than
    /// the default features and limits, waiting for each; answer with
    /// `App::negotiated`.
    Negotiate,
    /// The rendering context is built: compile this pipeline for it.
    CreatePipeline(PipelineDescriptor),
    /// Start-up has failed. There is no context to go on with.
    Fatal(StateError),
    /// Leave the event loop.
    Exit,
    /// Configure the surface with this.
    Configure(SurfaceConfig),
    /// The size of a resize event was rejected. This is to be reported and
    /// nothing else.
    Rejected(StateError),
    /// Ask the surface for its next image; answer with `App::frame_acquired`.
    AcquireFrame,
    /// Do this with the image that was acquired, in order; answer with
    /// `App::frame_submitted`.
    CompleteFrame(Vec<FrameAction>),
    /// The frame has failed with this error. Give up what is left of it and
    /// read the window's size; answer with `App::window_size_read`.
    Restore(StateError),
    /// The surface could not be restored after a failed frame. This is to
    /// be reported and nothing else: the next redraw is another chance.
    RestoreFailed(StateError),
    /// Ask the window for another redraw.
    RequestRedraw,
}

/// What an [`AppAction`] holds.
pub enum AppActionView {
    Nothing,
    CreateWindow { title: Seq<char>, width: u32, height: u32 },
    Negotiate,
    CreatePipeline(PipelineDescriptorView),
    Fatal(StateError),
    Exit,
    Configure(SurfaceConfig),
    Rejected(StateError),
    AcquireFrame,
    CompleteFrame(Seq<FrameActionView>),
    Restore(StateError),
    RestoreFailed(StateError),
    RequestRedraw,
}

impl View for AppAction {
    type V = AppActionView;

    open spec fn view(&self) -> AppActionView {
        match self {
            AppAction::Nothing => AppActionView::Nothing,
            AppAction::CreateWindow { title, width, height } => AppActionView::CreateWindow {
                title: title@,
                width: *width,
                height: *height,
            },
            AppAction::Negotiate => AppActionView::Negotiate,
            AppAction::CreatePipeline(pipeline) => AppActionView::CreatePipeline(pipeline@),
            AppAction::Fatal(error) => AppActionView::Fatal(*error),
            AppAction::Exit => AppActionView::Exit,
            AppAction::Configure(config) => AppActionView::Configure(*config),
            AppAction::Rejected(error) => AppActionView::Rejected(*error),
            AppAction::AcquireFrame => AppActionView::AcquireFrame,
            AppAction::CompleteFrame(actions) => AppActionView::CompleteFrame(
                action_views(actions@),
            ),
            AppAction::Restore(error) => AppActionView::Restore(*error),
            AppAction::RestoreFailed(error) => AppActionView::RestoreFailed(*error),
            AppAction::RequestRedraw => AppActionView::RequestRedraw,
        }
    }
}

/// What the application holds.
pub struct AppView {
    /// The rendering context, once start-up has come through.
    pub state: Option<StateView>,
    pub config: AppConfigView,
    /// Whether window events are handled.
    pub running: bool,
    /// What the host owes.
    pub pending: PendingReply,
}

/// One step of the application: what it holds afterwards and what it asks
/// the host to do.
pub struct AppStep {
    pub next: AppView,
    pub action: AppActionView,
}

impl AppView {
    /// The step that changes nothing and asks for nothing.
    pub open spec fn ignored(self) -> AppStep {
        AppStep { next: self, action: AppActionView::Nothing }
    }

    /// The application is resumed: the window is to be created with the
    /// configured title and size. A frame that was under way is given up.
    pub open spec fn resumed(self) -> AppStep {
        AppStep {
            next: AppView { pending: PendingReply::Window, ..self },
            action: AppActionView::CreateWindow {
                title: self.config.window_title,
                width: self.config.window_width,
                height: self.config.window_height,
            },
        }
    }

    /// The window is there with the given size: the hardware is to be
    /// negotiated for it, unless the size is below the minimum.
    pub open spec fn window_created(self, width: u32, height: u32) -> AppStep {
        if self.pending != PendingReply::Window {
            self.ignored()
        } else if size_is_valid(width, height) {
            AppStep {
                next: AppView { pending: PendingReply::Negotiation { width, height }, ..self },
                action: AppActionView::Negotiate,
            }
        } else {
            AppStep {
                next: AppView { pending: PendingReply::Nothing, ..self },
                action: AppActionView::Fatal(StateError::InvalidWindowSize { width, height }),
            }
        }
    }

    /// The negotiation has ended: the context is built and the application
    /// runs, or start-up fails with the reason.
    pub open spec fn negotiated(self, negotiation: Negotiation, shader_source: Seq<char>) -> AppStep {
        match self.pending {
            PendingReply::Negotiation { width, height } => {
                match negotiation_error(width, height, negotiation) {
                    Some(error) => AppStep {
                        next: AppView { pending: PendingReply::Nothing, ..self },
                        action: AppActionView::Fatal(error),
                    },
                    None => {
                        let state = StateView::initial(
                            negotiation->Ready_0,
                            width,
                            height,
                            shader_source,
                        );
                        AppStep {
                            next: AppView {
                                state: Some(state),
                                running: true,
                                pending: PendingReply::Nothing,
                                ..self
                            },
                            action: AppActionView::CreatePipeline(state.pipeline),
                        }
                    },
                }
            },
            _ => self.ignored(),
        }
    }

    /// The window is to be closed: events are no longer handled, and the
    /// host leaves its event loop.
    pub open spec fn closed(self) -> AppStep {
        AppStep { next: AppView { running: false, ..self }, action: AppActionView::Exit }
    }

    /// The window wants to be drawn. Without a context, or while the host
    /// owes an answer, nothing happens. Otherwise a frame is opened and the
    /// next image asked for; where the surface is not configured, the frame
    /// has failed and the surface is to be restored.
    pub open spec fn redraw_requested(self) -> AppStep {
        match self.state {
            Some(state) if self.pending == PendingReply::Nothing => {
                match state.draw_start_result() {
                    Ok(_) => AppStep {
                        next: AppView { pending: PendingReply::Acquisition, ..self },
                        action: AppActionView::AcquireFrame,
                    },
                    Err(error) => AppStep {
                        next: AppView { pending: PendingReply::WindowSize, ..self },
                        action: AppActionView::Restore(error),
                    },
                }
            },
            _ => self.ignored(),
        }
    }

    /// The window has a new size: the surface is to be configured with it,
    /// unless the size is rejected.
    pub open spec fn resize_requested(self, width: u32, height: u32) -> AppStep {
        match self.state {
            Some(state) => match state.resize_result(width, height) {
                Ok(config) => AppStep {
                    next: AppView { state: Some(state.resized(width, height)), ..self },
                    action: AppActionView::Configure(config),
                },
                Err(error) => AppStep { next: self, action: AppActionView::Rejected(error) },
            },
            None => self.ignored(),
        }
    }

    /// What a window event leads to. An application that does not run
    /// ignores them all. A pressed Escape key closes the window as a request
    /// to close does.
    pub open spec fn window_event(self, event: AppEvent) -> AppStep {
        if !self.running {
            self.ignored()
        } else {
            match event {
                AppEvent::CloseRequested => self.closed(),
                AppEvent::RedrawRequested => self.redraw_requested(),
                AppEvent::Resized { width, height } => self.resize_requested(width, height),
                AppEvent::KeyboardInput { pressed, key } => if pressed && key == Key::Escape {
                    self.closed()
                } else {
                    self.ignored()
                },
                AppEvent::Other => self.ignored(),
            }
        }
    }

    /// The surface has answered the request for an image. With an image, the
    /// quad is recorded in one render pass and the frame is to be submitted
    /// and presented. Without one, the frame has failed and the surface is to
    /// be restored.
    pub open spec fn frame_acquired(self, outcome: Result<(), String>) -> AppStep {
        match self.state {
            Some(state) if self.pending == PendingReply::Acquisition => {
                match acquisition_error(outcome) {
                    None => AppStep {
                        next: AppView { pending: PendingReply::Submission, ..self },
                        action: AppActionView::CompleteFrame(
                            frame_actions(seq![quad_pass(state.pipeline)]),
                        ),
                    },
                    Some(error) => AppStep {
                        next: AppView { pending: PendingReply::WindowSize, ..self },
                        action: AppActionView::Restore(error),
                    },
                }
            },
            _ => self.ignored(),
        }
    }

    /// The host has submitted and presented the frame, or failed to. After
    /// a frame that was presented the next redraw is asked for; a frame that
    /// was not has failed, and the surface is to be restored.
    pub open spec fn frame_submitted(self, outcome: Result<(), String>) -> AppStep {
        if self.pending != PendingReply::Submission {
            self.ignored()
        } else {
            match submission_error(outcome) {
                None => AppStep {
                    next: AppView { pending: PendingReply::Nothing, ..self },
                    action: AppActionView::RequestRedraw,
                },
                Some(error) => AppStep {
                    next: AppView { pending: PendingReply::WindowSize, ..self },
                    action: AppActionView::Restore(error),
                },
            }
        }
    }

    /// The host has read the window's size after a frame failed: the
    /// surface is configured anew with it. A size that is rejected is
    /// reported; either way the failed frame is dealt with, and no second
    /// attempt is made for it.
    pub open spec fn window_size_read(self, width: u32, height: u32) -> AppStep {
        match self.state {
            Some(state) if self.pending == PendingReply::WindowSize => {
                match state.resize_result(width, height) {
                    Ok(config) => AppStep {
                        next: AppView {
                            state: Some(state.resized(width, height)),
                            pending: PendingReply::Nothing,
                            ..self
                        },
                        action: AppActionView::Configure(config),
                    },
                    Err(error) => AppStep {
                        next: AppView { pending: PendingReply::Nothing, ..self },
                        action: AppActionView::RestoreFailed(error),
                    },
                }
            },
            _ => self.ignored(),
        }
    }
}

/// What the host owes, together with the session that waits for it.
#[derive(Debug)]
enum Pending {
    Nothing,
    Window,
    Negotiation { width: u32, height: u32 },
    Acquisition(RenderContext),
    Submission,
    WindowSize,
}

impl Pending {
    spec fn reply(self) -> PendingReply {
        match self {
            Pending::Nothing => PendingReply::Nothing,
            Pending::Window => PendingReply::Window,
            Pending::Negotiation { width, height } => PendingReply::Negotiation { width, height },
            Pending::Acquisition(_) => PendingReply::Acquisition,
            Pending::Submission => PendingReply::Submission,
            Pending::WindowSize => PendingReply::WindowSize,
        }
    }
}

/// The context of `state`, if there is one, by its view.
pub open spec fn state_view(state: Option<State>) -> Option<StateView> {
    match state {
        Some(state) => Some(state@),
        None => None,
    }
}

/// Opens a frame in the context, if there is one.
fn start_frame(state: &mut Option<State>) -> (started: Option<Result<RenderContext, StateError>>)
    ensures
        state_view(*final(state)) == state_view(*old(state)),
        match state_view(*old(state)) {
            None => started is None,
            Some(view) => match view.draw_start_result() {
                Ok(opened) => started matches Some(Ok(ctx)) && ctx@ == opened,
                Err(error) => started matches Some(Err(e)) && e == error,
            },
        },
{
    match state {
        Some(state) => Some(state.draw_start()),
        None => None,
    }
}

/// Takes a new size for the surface of the context, if there is one.
fn resize_surface(state: &mut Option<State>, width: u32, height: u32) -> (resized: Option<
    Result<SurfaceConfig, StateError>,
>)
    ensures
        match state_view(*old(state)) {
            None => resized is None && state_view(*final(state)) is None,
            Some(view) => resized == Some(view.resize_result(width, height)) && state_view(
                *final(state),
            ) == Some(view.resized(width, height)) && view.resized(width, height).wf(),
        },
{
    match state {
        Some(state) => Some(state.resize(width, height)),
        None => None,
    }
}

/// Records the quad for a frame whose image has been acquired, and ends the
/// frame, in the context, if there is one.
fn record_frame(state: &mut Option<State>, ctx: RenderContext) -> (recorded: Option<
    Result<Vec<FrameAction>, StateError>,
>)
    requires
        ctx@ == RenderContextView::opened().after_acquisition(true),
    ensures
        state_view(*final(state)) == state_view(*old(state)),
        match state_view(*old(state)) {
            None => recorded is None,
            Some(view) => recorded matches Some(Ok(actions)) && action_views(actions@)
                == frame_actions(seq![quad_pass(view.pipeline)]),
        },
{
    let mut ctx = ctx;
    match state {
        Some(state) => {
            match state.draw(&mut ctx) {
                Ok(_) => {
                    assert(ctx@.passes =~= seq![quad_pass(state@.pipeline)]);
                    Some(state.draw_end(ctx))
                },
                Err(error) => Some(Err(error)),
            }
        },
        None => None,
    }
}

/// The application: it turns what the window reports, and what the host
/// answers, into what the host is to do next. It performs no input or output
/// itself.
#[derive(Debug)]
pub struct App {
    state: Option<State>,
    config: AppConfig,
    is_running: bool,
    pending: Pending,
}

impl View for App {
    type V = AppView;

    closed spec fn view(&self) -> AppView {
        AppView {
            state: state_view(self.state),
            config: self.config@,
            running: self.is_running,
            pending: self.pending.reply(),
        }
    }
}

impl Default for App {
    /// An application with the default configuration. It does not run
    /// before start-up has come through.
    fn default() -> (app: Self)
        ensures
            app@ == (AppView {
                state: None,
                config: default_config_view(),
                running: false,
                pending: PendingReply::Nothing,
            }),
    {
        App::with_config(AppConfig::default())
    }
}

impl App {
    #[verifier::type_invariant]
    spec fn inv(&self) -> bool {
        self.pending matches Pending::Acquisition(ctx) ==> ctx@ == RenderContextView::opened()
    }

    /// Creates a new App with custom configuration. It does not run before
    /// start-up has come through.
    pub fn with_config(config: AppConfig) -> (app: App)
        ensures
            app@ == (AppView {
                state: None,
                config: config@,
                running: false,
                pending: PendingReply::Nothing,
            }),
    {
        App { state: None, config, is_running: false, pending: Pending::Nothing }
    }

    /// Whether window events are handled.
    pub fn is_running(&self) -> (running: bool)
        ensures
            running == self@.running,
    {
        self.is_running
    }

    /// Returns a reference to the current configuration.
    pub fn config(&self) -> (config: &AppConfig)
        ensures
            config@ == self@.config,
    {
        &self.config
    }

    /// The rendering context, once start-up has come through.
    pub fn state(&self) -> (state: Option<&State>)
        ensures
            match state {
                Some(state) => self@.state == Some(state@),
                None => self@.state is None,
            },
    {
        self.state.as_ref()
    }

    /// What the host owes.
    pub fn pending(&self) -> (pending: PendingReply)
        ensures
            pending == self@.pending,
    {
        match &self.pending {
            Pending::Nothing => PendingReply::Nothing,
            Pending::Window => PendingReply::Window,
            Pending::Negotiation { width, height } => PendingReply::Negotiation {
                width: *width,
                height: *height,
            },
            Pending::Acquisition(_) => PendingReply::Acquisition,
            Pending::Submission => PendingReply::Submission,
            Pending::WindowSize => PendingReply::WindowSize,
        }
    }

    /// Called when the application is resumed.
    pub fn resumed(&mut self) -> (action: AppAction)
        ensures
            final(self)@ == old(self)@.resumed().next,
            action@ == old(self)@.resumed().action,
    {
        self.pending = Pending::Window;
        AppAction::CreateWindow {
            title: self.config.window_title.clone(),
            width: self.config.window_width,
            height: self.config.window_height,
        }
    }

    /// Takes the size of the window that the host has created.
    pub fn window_created(&mut self, width: u32, height: u32) -> (action: AppAction)
        ensures
            final(self)@ == old(self)@.window_created(width, height).next,
            action@ == old(self)@.window_created(width, height).action,
    {
        match &self.pending {
            Pending::Window => {},
            _ => {
                return AppAction::Nothing;
            },
        }
        if check_size(width, height) {
            self.pending = Pending::Negotiation { width, height };
            AppAction::Negotiate
        } else {
            self.pending = Pending::Nothing;
            AppAction::Fatal(StateError::InvalidWindowSize { width, height })
        }
    }

    /// Takes what the negotiation of the hardware came to, and the shader
    /// module that the quad is drawn with.
    pub fn negotiated(&mut self, negotiation: Negotiation, shader_source: &str) -> (action:
        AppAction)
        ensures
            final(self)@ == old(self)@.negotiated(negotiation, shader_source@).next,
            action@ == old(self)@.negotiated(negotiation, shader_source@).action,
    {
        let (width, height) = match &self.pending {
            Pending::Negotiation { width, height } => (*width, *height),
            _ => {
                return AppAction::Nothing;
            },
        };
        self.pending = Pending::Nothing;
        match State::new(width, height, negotiation, shader_source) {
            Ok(state) => {
                let pipeline = state.quad().render_pipeline().clone();
                self.state = Some(state);
                self.is_running = true;
                AppAction::CreatePipeline(pipeline)
            },
            Err(error) => AppAction::Fatal(error),
        }
    }

    /// Handles window events like close, redraw, resize, etc.
    pub fn window_event(&mut self, event: AppEvent) -> (action: AppAction)
        ensures
            final(self)@ == old(self)@.window_event(event).next,
            action@ == old(self)@.window_event(event).action,
    {
        if !self.is_running {
            return AppAction::Nothing;
        }
        match event {
            AppEvent::CloseRequested => self.handle_close(),
            AppEvent::RedrawRequested => self.handle_redraw(),
            AppEvent::Resized { width, height } => self.handle_resize(width, height),
            AppEvent::KeyboardInput { pressed, key } => self.handle_keyboard_input(pressed, key),
            AppEvent::Other => AppAction::Nothing,
        }
    }

    /// Handles application close.
    fn handle_close(&mut self) -> (action: AppAction)
        ensures
            final(self)@ == old(self)@.closed().next,
            action@ == old(self)@.closed().action,
    {
        proof {
            use_type_invariant(&*self);
        }
        self.is_running = false;
        AppAction::Exit
    }

    /// Handles the redraw event by opening a frame.
    fn handle_redraw(&mut self) -> (action: AppAction)
        ensures
            final(self)@ == old(self)@.redraw_requested().next,
            action@ == old(self)@.redraw_requested().action,
    {
        match &self.pending {
            Pending::Nothing => {},
            _ => {
                return AppAction::Nothing;
            },
        }
        // The context is moved out while it is worked on, and back after.
        let mut state: Option<State> = None;
        core::mem::swap(&mut self.state, &mut state);
        let started = start_frame(&mut state);
        core::mem::swap(&mut self.state, &mut state);
        match started {
            Some(Ok(ctx)) => {
                self.pending = Pending::Acquisition(ctx);
                AppAction::AcquireFrame
            },
            Some(Err(error)) => {
                self.pending = Pending::WindowSize;
                AppAction::Restore(error)
            },
            None => AppAction::Nothing,
        }
    }

    /// Handles window resize events.
    fn handle_resize(&mut self, width: u32, height: u32) -> (action: AppAction)
        ensures
            final(self)@ == old(self)@.resize_requested(width, height).next,
            action@ == old(self)@.resize_requested(width, height).action,
    {
        proof {
            use_type_invariant(&*self);
        }
        let mut state: Option<State> = None;
        core::mem::swap(&mut self.state, &mut state);
        let resized = resize_surface(&mut state, width, height);
        core::mem::swap(&mut self.state, &mut state);
        match resized {
            Some(Ok(config)) => AppAction::Configure(config),
            Some(Err(error)) => AppAction::Rejected(error),
            None => AppAction::Nothing,
        }
    }

    /// Handles keyboard input events: a pressed Escape key closes the
    /// application.
    fn handle_keyboard_input(&mut self, pressed: bool, key: Key) -> (action: AppAction)
        ensures
            pressed && key == Key::Escape ==> final(self)@ == old(self)@.closed().next && action@
                == old(self)@.closed().action,
            !(pressed && key == Key::Escape) ==> final(self)@ == old(self)@ && action@
                == AppActionView::Nothing,
    {
        if pressed {
            match key {
                Key::Escape => self.handle_close(),
                Key::F11 => AppAction::Nothing,
                Key::Other => AppAction::Nothing,
            }
        } else {
            AppAction::Nothing
        }
    }

    /// Takes the surface's answer to the request for the next image.
    pub fn frame_acquired(&mut self, outcome: Result<(), String>) -> (action: AppAction)
        ensures
            final(self)@ == old(self)@.frame_acquired(outcome).next,
            action@ == old(self)@.frame_acquired(outcome).action,
    {
        proof {
            use_type_invariant(&*self);
        }
        if self.state.is_none() {
            return AppAction::Nothing;
        }
        match &self.pending {
            Pending::Acquisition(_) => {},
            _ => {
                return AppAction::Nothing;
            },
        }
        let mut taken = Pending::Submission;
        core::mem::swap(&mut self.pending, &mut taken);
        let mut ctx = match taken {
            Pending::Acquisition(ctx) => ctx,
            _ => {
                return AppAction::Nothing;
            },
        };
        match ctx.acquired(outcome) {
            Ok(_) => {
                let mut state: Option<State> = None;
                core::mem::swap(&mut self.state, &mut state);
                let recorded = record_frame(&mut state, ctx);
                core::mem::swap(&mut self.state, &mut state);
                match recorded {
                    Some(Ok(actions)) => AppAction::CompleteFrame(actions),
                    Some(Err(error)) => {
                        self.pending = Pending::WindowSize;
                        AppAction::Restore(error)
                    },
                    None => AppAction::Nothing,
                }
            },
            Err(error) => {
                self.pending = Pending::WindowSize;
                AppAction::Restore(error)
            },
        }
    }

    /// Takes the host's report on the submission and presentation of the
    /// frame.
    pub fn frame_submitted(&mut self, outcome: Result<(), String>) -> (action: AppAction)
        ensures
            final(self)@ == old(self)@.frame_submitted(outcome).next,
            action@ == old(self)@.frame_submitted(outcome).action,
    {
        match &self.pending {
            Pending::Submission => {},
            _ => {
                return AppAction::Nothing;
            },
        }
        match State::frame_submitted(outcome) {
            Ok(_) => {
                self.pending = Pending::Nothing;
                AppAction::RequestRedraw
            },
            Err(error) => {
                self.pending = Pending::WindowSize;
                AppAction::Restore(error)
            },
        }
    }

    /// Takes the size that the window has now, which the host has read after
    /// a frame failed.
    pub fn window_size_read(&mut self, width: u32, height: u32) -> (action: AppAction)
        ensures
            final(self)@ == old(self)@.window_size_read(width, height).next,
            action@ == old(self)@.window_size_read(width, height).action,
    {
        if self.state.is_none() {
            return AppAction::Nothing;
        }
        match &self.pending {
            Pending::WindowSize => {},
            _ => {
                return AppAction::Nothing;
            },
        }
        let mut state: Option<State> = None;
        core::mem::swap(&mut self.state, &mut state);
        let restored = resize_surface(&mut state, width, height);
        core::mem::swap(&mut self.state, &mut state);
        self.pending = Pending::Nothing;
        match restored {
            Some(Ok(config)) => AppAction::Configure(config),
            Some(Err(error)) => AppAction::RestoreFailed(error),
            None => AppAction::Nothing,
        }
    }
}

} // verus!
