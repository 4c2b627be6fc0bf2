use vstd::prelude::*;

use crate::app::{AppActionView, AppEvent, AppView, PendingReply};
use crate::data::size_is_valid;
use crate::frame::{
    frame_actions, presentations, submissions, FrameActionView, FramePhase, RenderContextView,
    RenderPassView,
};
use crate::pipeline::{quad_pipeline, PipelineDescriptor};
use crate::state::{quad_pass, Negotiation, StateView};
use crate::state_error::StateError;
use crate::surface::{SurfaceCapabilities, SurfaceConfig};

verus! {

/// The context after one request to resize for each size of `sizes`, in
/// order.
pub open spec fn after_resizes(state: StateView, sizes: Seq<(u32, u32)>) -> StateView
    decreases sizes.len(),
{
    if sizes.len() == 0 {
        state
    } else {
        after_resizes(state, sizes.drop_last()).resized(sizes.last().0, sizes.last().1)
    }
}

/// A size with a dimension below the minimum is rejected with that size, and
/// the context stays exactly as it was, configured or not.
pub proof fn lemma_invalid_resize_is_rejected(state: StateView, width: u32, height: u32)
    requires
        !size_is_valid(width, height),
    ensures
        state.resize_result(width, height) == Err::<SurfaceConfig, StateError>(
            StateError::InvalidWindowSize { width, height },
        ),
        state.resized(width, height) == state,
        state.resized(width, height).configured == state.configured,
{
}

/// After a resize to a valid size the surface is configured with that size,
/// and a frame can be opened: opening one does not fail for want of a
/// configuration.
pub proof fn lemma_valid_resize_configures(state: StateView, width: u32, height: u32)
    requires
        size_is_valid(width, height),
    ensures
        state.resize_result(width, height) == Ok::<SurfaceConfig, StateError>(
            SurfaceConfig { width, height, ..state.config },
        ),
        state.resized(width, height).configured,
        state.resized(width, height).config.width == width,
        state.resized(width, height).config.height == height,
        state.resized(width, height).wf(),
        state.resized(width, height).draw_start_result() is Ok,
{
}

/// A resize to the size that the surface already has is allowed and repeats
/// the configuration: the same configuration is handed out again, and the
/// context is as after the first of the two.
pub proof fn lemma_resize_is_idempotent(state: StateView, width: u32, height: u32)
    ensures
        state.resized(width, height).resized(width, height) == state.resized(width, height),
        state.resized(width, height).resize_result(width, height) == state.resize_result(
            width,
            height,
        ),
{
}

/// Before the first resize to a valid size no frame can be opened: a
/// context as it is built, and after any number of rejected resizes, answers
/// that the surface is not configured.
pub proof fn lemma_no_frame_before_valid_resize(
    caps: SurfaceCapabilities,
    width: u32,
    height: u32,
    shader_source: Seq<char>,
    sizes: Seq<(u32, u32)>,
)
    requires
        forall|i: int| 0 <= i < sizes.len() ==> !size_is_valid(sizes[i].0, sizes[i].1),
    ensures
        after_resizes(StateView::initial(caps, width, height, shader_source), sizes)
            == StateView::initial(caps, width, height, shader_source),
        after_resizes(
            StateView::initial(caps, width, height, shader_source),
            sizes,
        ).draw_start_result() == Err::<RenderContextView, StateError>(
            StateError::SurfaceNotConfigured,
        ),
    decreases sizes.len(),
{
    if sizes.len() > 0 {
        lemma_no_frame_before_valid_resize(caps, width, height, shader_source, sizes.drop_last());
    }
}

/// A surface that is configured stays configured whatever sizes are asked
/// for afterwards, and its size never falls below the minimum.
pub proof fn lemma_configured_is_stable(state: StateView, sizes: Seq<(u32, u32)>)
    requires
        state.wf(),
    ensures
        after_resizes(state, sizes).wf(),
        state.configured ==> after_resizes(state, sizes).configured,
        after_resizes(state, sizes).pipeline == state.pipeline,
    decreases sizes.len(),
{
    if sizes.len() > 0 {
        lemma_configured_is_stable(state, sizes.drop_last());
    }
}

/// What ends a frame holds exactly one submission and one presentation, the
/// submission first, whatever was recorded.
pub proof fn lemma_one_submission_one_presentation(passes: Seq<RenderPassView>)
    ensures
        frame_actions(passes).len() == 2,
        frame_actions(passes)[0] == FrameActionView::Submit(passes),
        frame_actions(passes)[1] == FrameActionView::Present,
        submissions(frame_actions(passes)) == 1,
        presentations(frame_actions(passes)) == 1,
{
    let actions = frame_actions(passes);
    let first = actions.drop_last();
    assert(first.len() == 1);
    assert(first.last() == FrameActionView::Submit(passes));
    assert(first.drop_last().len() == 0);
    assert(submissions(first.drop_last()) == 0);
    assert(presentations(first.drop_last()) == 0);
    assert(submissions(first) == 1);
    assert(presentations(first) == 0);
}

/// A full frame after a resize to a valid size goes through: the frame is
/// opened, the image that the surface hands out is taken, the quad is
/// recorded in one pass, and the frame ends in exactly one submission, of
/// that pass, and one presentation. The context is the same afterwards.
pub proof fn lemma_full_cycle(state: StateView, width: u32, height: u32)
    requires
        size_is_valid(width, height),
    ensures
        ({
            let ready = state.resized(width, height);
            let opened = ready.draw_start_result();
            let acquired = RenderContextView::opened().after_acquisition(true);
            let recorded = acquired.after_pass(quad_pass(ready.pipeline));
            let actions = frame_actions(recorded.passes);
            &&& opened == Ok::<RenderContextView, StateError>(RenderContextView::opened())
            &&& acquired.is_recordable()
            &&& recorded.is_recordable()
            &&& recorded.phase == FramePhase::Recorded
            &&& recorded.passes == seq![quad_pass(state.pipeline)]
            &&& actions == frame_actions(seq![quad_pass(state.pipeline)])
            &&& submissions(actions) == 1
            &&& presentations(actions) == 1
        }),
{
    let ready = state.resized(width, height);
    let acquired = RenderContextView::opened().after_acquisition(true);
    let recorded = acquired.after_pass(quad_pass(ready.pipeline));
    assert(recorded.passes =~= seq![quad_pass(state.pipeline)]);
    lemma_one_submission_one_presentation(recorded.passes);
}

/// After a frame has failed, restoring with the size that the window has
/// now configures the surface with that size, whatever state the failure left
/// it in, and the next frame can be opened. This holds where the window's
/// size reaches the minimum; a smaller size is rejected as by any resize.
pub proof fn lemma_restore_recovers(state: StateView, window_width: u32, window_height: u32)
    requires
        size_is_valid(window_width, window_height),
    ensures
        state.resize_result(window_width, window_height) == Ok::<SurfaceConfig, StateError>(
            SurfaceConfig { width: window_width, height: window_height, ..state.config },
        ),
        state.resized(window_width, window_height).configured,
        state.resized(window_width, window_height).draw_start_result() == Ok::<
            RenderContextView,
            StateError,
        >(RenderContextView::opened()),
{
}

/// Two pipelines that are built for the same format from the same shader
/// source describe the same pipeline.
pub proof fn lemma_build_is_deterministic(
    format: wgpu::TextureFormat,
    shader_source: Seq<char>,
    first: PipelineDescriptor,
    second: PipelineDescriptor,
)
    requires
        first@ == quad_pipeline(format, shader_source),
        second@ == quad_pipeline(format, shader_source),
    ensures
        first@ == second@,
{
}

/// A pipeline is bound to one format and one shader source: two built
/// pipelines describe the same pipeline only where both were built for the
/// same format from the same source.
pub proof fn lemma_pipeline_is_bound_to_its_inputs(
    first_format: wgpu::TextureFormat,
    first_source: Seq<char>,
    second_format: wgpu::TextureFormat,
    second_source: Seq<char>,
)
    ensures
        quad_pipeline(first_format, first_source) == quad_pipeline(second_format, second_source)
            <==> first_format == second_format && first_source == second_source,
        quad_pipeline(first_format, first_source).format == first_format,
        quad_pipeline(first_format, first_source).shader_source == first_source,
{
}

/// A running application whose surface is configured draws a frame in three
/// steps: a redraw request asks for an image; the image leads to exactly one
/// submission and one presentation of the quad; and the report that both went
/// through asks for the next redraw. Afterwards the application is as it was
/// before the frame.
pub proof fn lemma_app_draws_a_frame(app: AppView)
    requires
        app.running,
        app.pending == PendingReply::Nothing,
        app.state matches Some(state) && state.configured,
    ensures
        ({
            let asked = app.window_event(AppEvent::RedrawRequested);
            let recorded = asked.next.frame_acquired(Ok(()));
            let done = recorded.next.frame_submitted(Ok(()));
            &&& asked.action == AppActionView::AcquireFrame
            &&& recorded.action matches AppActionView::CompleteFrame(actions) && actions
                == frame_actions(seq![quad_pass(app.state->Some_0.pipeline)]) && submissions(
                actions,
            ) == 1 && presentations(actions) == 1
            &&& done.action == AppActionView::RequestRedraw
            &&& done.next == app
        }),
{
    lemma_one_submission_one_presentation(seq![quad_pass(app.state->Some_0.pipeline)]);
}

/// A frame that fails at any step is answered with exactly one attempt to
/// restore the surface: the application asks for the window's size, and once
/// it has it, it owes nothing more for the frame, whether the size was taken
/// or rejected. Where the size is valid the surface is configured with it, and
/// the next redraw request opens a frame.
pub proof fn lemma_app_restores_once(
    app: AppView,
    detail: String,
    window_width: u32,
    window_height: u32,
)
    requires
        app.running,
        app.pending == PendingReply::Acquisition,
        app.state is Some,
    ensures
        ({
            let failed = app.frame_acquired(Err(detail));
            let restored = failed.next.window_size_read(window_width, window_height);
            let again = restored.next.window_size_read(window_width, window_height);
            &&& failed.action == AppActionView::Restore(
                StateError::TextureAcquisitionFailed(detail),
            )
            &&& failed.next.pending == PendingReply::WindowSize
            &&& failed.next.state == app.state
            &&& restored.next.pending == PendingReply::Nothing
            &&& again.action == AppActionView::Nothing
            &&& !size_is_valid(window_width, window_height) ==> restored.action
                == AppActionView::RestoreFailed(
                StateError::InvalidWindowSize { width: window_width, height: window_height },
            ) && restored.next.state == app.state
            &&& size_is_valid(window_width, window_height) ==> restored.action
                == AppActionView::Configure(
                SurfaceConfig {
                    width: window_width,
                    height: window_height,
                    ..app.state->Some_0.config
                },
            ) && restored.next.window_event(AppEvent::RedrawRequested).action
                == AppActionView::AcquireFrame
        }),
{
}

/// The application after `count` frames in a row, each of which was
/// acquired, submitted and presented.
pub open spec fn after_frames(app: AppView, count: nat) -> AppView
    decreases count,
{
    if count == 0 {
        app
    } else {
        after_frames(app, (count - 1) as nat).window_event(
            AppEvent::RedrawRequested,
        ).next.frame_acquired(Ok(())).next.frame_submitted(Ok(())).next
    }
}

/// Any number of frames in a row leave a running application as it was: the
/// surface stays configured with the same size, and the next frame can be
/// drawn.
pub proof fn lemma_frames_in_a_row(app: AppView, count: nat)
    requires
        app.running,
        app.pending == PendingReply::Nothing,
        app.state matches Some(state) && state.configured,
    ensures
        after_frames(app, count) == app,
    decreases count,
{
    if count > 0 {
        lemma_frames_in_a_row(app, (count - 1) as nat);
        lemma_app_draws_a_frame(app);
    }
}

/// Whether the application holds a context whose surface is configured.
pub open spec fn surface_is_configured(app: AppView) -> bool {
    app.state matches Some(state) && state.configured
}

/// A surface that is configured does not lose its configuration by anything
/// that the window reports or the host answers. Only a new start-up, which
/// builds a new context, begins unconfigured again.
pub proof fn lemma_configuration_is_kept(
    app: AppView,
    event: AppEvent,
    outcome: Result<(), String>,
    width: u32,
    height: u32,
)
    requires
        surface_is_configured(app),
    ensures
        surface_is_configured(app.window_event(event).next),
        surface_is_configured(app.frame_acquired(outcome).next),
        surface_is_configured(app.frame_submitted(outcome).next),
        surface_is_configured(app.window_size_read(width, height).next),
        surface_is_configured(app.resumed().next),
        surface_is_configured(app.window_created(width, height).next),
{
}

/// The application asks for an image only where the surface is configured,
/// and only where it handles window events.
pub proof fn lemma_frames_need_a_configured_surface(app: AppView, event: AppEvent)
    requires
        app.window_event(event).action == AppActionView::AcquireFrame,
    ensures
        event == AppEvent::RedrawRequested,
        app.running,
        surface_is_configured(app),
        app.pending == PendingReply::Nothing,
{
}

/// However a frame fails (the surface is not configured, it hands out no
/// image, or the frame cannot be submitted or presented), the application
/// asks for the surface to be restored, with the failure, and then owes
/// nothing but the window's size.
pub proof fn lemma_failed_frame_asks_for_restore(app: AppView, detail: String)
    requires
        app.running,
        app.state is Some,
    ensures
        app.pending == PendingReply::Nothing && !app.state->Some_0.configured ==> ({
            let step = app.window_event(AppEvent::RedrawRequested);
            step.action == AppActionView::Restore(StateError::SurfaceNotConfigured)
                && step.next.pending == PendingReply::WindowSize
        }),
        app.pending == PendingReply::Acquisition ==> ({
            let step = app.frame_acquired(Err(detail));
            step.action == AppActionView::Restore(StateError::TextureAcquisitionFailed(detail))
                && step.next.pending == PendingReply::WindowSize
        }),
        app.pending == PendingReply::Submission ==> ({
            let step = app.frame_submitted(Err(detail));
            step.action == AppActionView::Restore(StateError::SubmissionFailed(detail))
                && step.next.pending == PendingReply::WindowSize
        }),
{
}

/// The attempt to restore the surface is made once: with the window's size
/// the application either configures the surface or reports that it could
/// not, and owes nothing afterwards. It does not ask for the size again.
pub proof fn lemma_restore_is_attempted_once(app: AppView, width: u32, height: u32)
    requires
        app.pending == PendingReply::WindowSize,
        app.state is Some,
    ensures
        ({
            let step = app.window_size_read(width, height);
            &&& step.next.pending == PendingReply::Nothing
            &&& step.next.running == app.running
            &&& size_is_valid(width, height) ==> step.action is Configure && surface_is_configured(
                step.next,
            )
            &&& !size_is_valid(width, height) ==> step.action == AppActionView::RestoreFailed(
                StateError::InvalidWindowSize { width, height },
            ) && step.next.state == app.state
        }),
{
}

/// Start-up fails with a failure of start-up and with no other, and what
/// fails during a frame is a failure of a frame: the two kinds are kept
/// apart. A resize is rejected only with the size that was asked for.
pub proof fn lemma_failures_are_kept_apart(
    app: AppView,
    event: AppEvent,
    negotiation: Negotiation,
    shader_source: Seq<char>,
    outcome: Result<(), String>,
    width: u32,
    height: u32,
)
    ensures
        app.window_created(width, height).action matches AppActionView::Fatal(error)
            ==> error.is_startup_error(),
        app.negotiated(negotiation, shader_source).action matches AppActionView::Fatal(error)
            ==> error.is_startup_error(),
        app.window_event(event).action matches AppActionView::Restore(error)
            ==> error.is_frame_error(),
        app.frame_acquired(outcome).action matches AppActionView::Restore(error)
            ==> error.is_frame_error(),
        app.frame_submitted(outcome).action matches AppActionView::Restore(error)
            ==> error.is_frame_error(),
        app.window_event(event).action matches AppActionView::Rejected(error) ==> event
            matches AppEvent::Resized { width: w, height: h } && error
            == (StateError::InvalidWindowSize { width: w, height: h }),
        !(app.window_event(event).action is Fatal),
        !(app.frame_acquired(outcome).action is Fatal),
        !(app.frame_submitted(outcome).action is Fatal),
        !(app.window_size_read(width, height).action is Fatal),
{
}

/// Nothing is submitted or presented but for a frame whose image the
/// surface has just handed out: the application asks for it only in answer
/// to an acquisition that went through and that it was waiting for.
pub proof fn lemma_submission_follows_acquisition(
    app: AppView,
    event: AppEvent,
    negotiation: Negotiation,
    shader_source: Seq<char>,
    outcome: Result<(), String>,
    width: u32,
    height: u32,
)
    ensures
        app.frame_acquired(outcome).action is CompleteFrame ==> outcome is Ok && app.pending
            == PendingReply::Acquisition && app.state is Some,
        !(app.window_event(event).action is CompleteFrame),
        !(app.frame_submitted(outcome).action is CompleteFrame),
        !(app.window_size_read(width, height).action is CompleteFrame),
        !(app.resumed().action is CompleteFrame),
        !(app.window_created(width, height).action is CompleteFrame),
        !(app.negotiated(negotiation, shader_source).action is CompleteFrame),
{
}

} // verus!
