use vstd::prelude::*;

use crate::data::ClearColor;
use crate::pipeline::{PipelineDescriptor, PipelineDescriptorView};
use crate::state_error::StateError;

verus! {

/// One command inside a render pass.
#[derive(Debug, PartialEq, Eq)]
pub enum PassCommand {
    /// Binds the pipeline that the following draw calls run.
    SetPipeline(PipelineDescriptor),
    /// Draws the vertices `vertex_start..vertex_end` for each of the
    /// instances `instance_start..instance_end`, with no vertex or index
    /// buffer bound.
    Draw { vertex_start: u32, vertex_end: u32, instance_start: u32, instance_end: u32 },
}

/// What a [`PassCommand`] holds.
pub enum PassCommandView {
    SetPipeline(PipelineDescriptorView),
    Draw { vertex_start: u32, vertex_end: u32, instance_start: u32, instance_end: u32 },
}

impl View for PassCommand {
    type V = PassCommandView;

    open spec fn view(&self) -> PassCommandView {
        match self {
            PassCommand::SetPipeline(pipeline) => PassCommandView::SetPipeline(pipeline@),
            PassCommand::Draw { vertex_start, vertex_end, instance_start, instance_end } => {
                PassCommandView::Draw {
                    vertex_start: *vertex_start,
                    vertex_end: *vertex_end,
                    instance_start: *instance_start,
                    instance_end: *instance_end,
                }
            },
        }
    }
}

/// The commands of `commands`, each by its view, in the same order.
pub open spec fn command_views(commands: Seq<PassCommand>) -> Seq<PassCommandView> {
    Seq::new(commands.len(), |i: int| commands[i]@)
}

/// An open render pass: the colour that its target is cleared to when the
/// pass begins, and the commands recorded into it so far, oldest first.
#[derive(Debug, PartialEq, Eq)]
pub struct RenderPass {
    clear_color: ClearColor,
    commands: Vec<PassCommand>,
}

/// What a [`RenderPass`] holds.
pub struct RenderPassView {
    pub clear_color: ClearColor,
    pub commands: Seq<PassCommandView>,
}

impl View for RenderPass {
    type V = RenderPassView;

    closed spec fn view(&self) -> RenderPassView {
        RenderPassView { clear_color: self.clear_color, commands: command_views(self.commands@) }
    }
}

impl RenderPass {
    /// Opens a pass that clears its target to `clear_color` and holds no
    /// command yet.
    pub fn begin(clear_color: ClearColor) -> (pass: RenderPass)
        ensures
            pass@ == (RenderPassView { clear_color, commands: Seq::empty() }),
    {
        let pass = RenderPass { clear_color, commands: Vec::new() };
        assert(pass@.commands =~= Seq::empty());
        pass
    }

    /// Records `command` behind the commands that the pass already holds.
    pub fn record(&mut self, command: PassCommand)
        ensures
            final(self)@ == (RenderPassView {
                commands: old(self)@.commands.push(command@),
                ..old(self)@
            }),
    {
        self.commands.push(command);
        assert(self@.commands =~= old(self)@.commands.push(command@));
    }

    /// The colour that the target is cleared to when the pass begins.
    pub fn clear_color(&self) -> (color: ClearColor)
        ensures
            color == self@.clear_color,
    {
        self.clear_color
    }

    /// The recorded commands, oldest first.
    pub fn commands(&self) -> (commands: &Vec<PassCommand>)
        ensures
            command_views(commands@) == self@.commands,
    {
        &self.commands
    }
}

/// The passes of `passes`, each by its view, in the same order.
pub open spec fn pass_views(passes: Seq<RenderPass>) -> Seq<RenderPassView> {
    Seq::new(passes.len(), |i: int| passes[i]@)
}

/// Where a frame stands between the request for an image and the submission
/// of what was recorded for it. A session that has been submitted no longer
/// exists: `State::draw_end` consumes it.
#[derive(Debug, Clone, Copy, PartialEq, Eq, Structural)]
pub enum FramePhase {
    /// The session is open, and the surface has not handed out an image yet.
    Idle,
    /// An image is acquired and nothing is recorded.
    Acquired,
    /// At least one render pass is recorded.
    Recorded,
}

/// The session of one frame: its phase and the render passes recorded for it,
/// oldest first. The host keeps the image, its view and the command encoder
/// that belong to the session.
#[derive(Debug, PartialEq, Eq)]
pub struct RenderContext {
    phase: FramePhase,
    passes: Vec<RenderPass>,
}

/// What a [`RenderContext`] holds.
pub struct RenderContextView {
    pub phase: FramePhase,
    pub passes: Seq<RenderPassView>,
}

impl RenderContextView {
    /// A session that holds an image and has not been submitted.
    pub open spec fn is_recordable(&self) -> bool {
        self.phase == FramePhase::Acquired || self.phase == FramePhase::Recorded
    }

    /// The session as it is opened: without an image, with nothing recorded.
    pub open spec fn opened() -> RenderContextView {
        RenderContextView { phase: FramePhase::Idle, passes: Seq::empty() }
    }

    /// The session after the surface answered the request for an image:
    /// acquired where an image came, unchanged where none did.
    pub open spec fn after_acquisition(self, acquired: bool) -> RenderContextView {
        if acquired {
            RenderContextView { phase: FramePhase::Acquired, ..self }
        } else {
            self
        }
    }

    /// The session after `pass` was closed and added to it.
    pub open spec fn after_pass(self, pass: RenderPassView) -> RenderContextView {
        RenderContextView { phase: FramePhase::Recorded, passes: self.passes.push(pass) }
    }
}

impl View for RenderContext {
    type V = RenderContextView;

    closed spec fn view(&self) -> RenderContextView {
        RenderContextView { phase: self.phase, passes: pass_views(self.passes@) }
    }
}

/// What the surface answered to the request for an image, as an error: none
/// where an image came, and the failure with the surface's own words where
/// none did.
pub open spec fn acquisition_error(outcome: Result<(), String>) -> Option<StateError> {
    match outcome {
        Ok(_) => None,
        Err(detail) => Some(StateError::TextureAcquisitionFailed(detail)),
    }
}

impl RenderContext {
    /// Opens the session of a frame. Nothing is acquired or recorded yet.
    pub(crate) fn open() -> (ctx: RenderContext)
        ensures
            ctx@ == RenderContextView::opened(),
    {
        let ctx = RenderContext { phase: FramePhase::Idle, passes: Vec::new() };
        assert(ctx@.passes =~= Seq::empty());
        ctx
    }

    /// Takes the surface's answer to the request for the next image. Where an
    /// image came, the session moves on to `Acquired`. Where none did, the
    /// failure is reported with the surface's own words, and the session stays
    /// as it was: the request is never repeated here.
    pub fn acquired(&mut self, outcome: Result<(), String>) -> (result: Result<(), StateError>)
        requires
            old(self)@.phase == FramePhase::Idle,
        ensures
            final(self)@ == old(self)@.after_acquisition(outcome is Ok),
            match acquisition_error(outcome) {
                None => result == Ok::<(), StateError>(()),
                Some(error) => result == Err::<(), StateError>(error),
            },
    {
        match outcome {
            Ok(_) => {
                self.phase = FramePhase::Acquired;
                Ok(())
            },
            Err(detail) => Err(StateError::TextureAcquisitionFailed(detail)),
        }
    }

    /// Closes `pass` and adds it behind the passes that the session holds.
    pub fn end_render_pass(&mut self, pass: RenderPass)
        requires
            old(self)@.is_recordable(),
        ensures
            final(self)@ == old(self)@.after_pass(pass@),
    {
        self.passes.push(pass);
        self.phase = FramePhase::Recorded;
        assert(self@.passes =~= old(self)@.passes.push(pass@));
    }

    /// Where the frame stands.
    pub fn phase(&self) -> (phase: FramePhase)
        ensures
            phase == self@.phase,
    {
        self.phase
    }

    /// The closed render passes, oldest first.
    pub fn passes(&self) -> (passes: &Vec<RenderPass>)
        ensures
            pass_views(passes@) == self@.passes,
    {
        &self.passes
    }

    /// Ends the session and hands out its passes.
    pub(crate) fn into_passes(self) -> (passes: Vec<RenderPass>)
        ensures
            pass_views(passes@) == self@.passes,
    {
        self.passes
    }
}

/// One step of what the host does with a finished frame.
#[derive(Debug, PartialEq, Eq)]
pub enum FrameAction {
    /// Encode the passes in order into one command buffer and submit it to
    /// the queue.
    Submit(Vec<RenderPass>),
    /// Present the image that the frame was recorded for.
    Present,
}

/// What a [`FrameAction`] holds.
pub enum FrameActionView {
    Submit(Seq<RenderPassView>),
    Present,
}

impl View for FrameAction {
    type V = FrameActionView;

    open spec fn view(&self) -> FrameActionView {
        match self {
            FrameAction::Submit(passes) => FrameActionView::Submit(pass_views(passes@)),
            FrameAction::Present => FrameActionView::Present,
        }
    }
}

/// The actions of `actions`, each by its view, in the same order.
pub open spec fn action_views(actions: Seq<FrameAction>) -> Seq<FrameActionView> {
    Seq::new(actions.len(), |i: int| actions[i]@)
}

/// What ends a frame that holds `passes`: one submission of all its passes,
/// in the order in which they were recorded, and then one presentation.
pub open spec fn frame_actions(passes: Seq<RenderPassView>) -> Seq<FrameActionView> {
    seq![FrameActionView::Submit(passes), FrameActionView::Present]
}

/// How many of `actions` submit a command buffer to the queue.
pub open spec fn submissions(actions: Seq<FrameActionView>) -> nat
    decreases actions.len(),
{
    if actions.len() == 0 {
        0
    } else {
        submissions(actions.drop_last()) + if actions.last() is Submit {
            1nat
        } else {
            0nat
        }
    }
}

/// How many of `actions` present an image.
pub open spec fn presentations(actions: Seq<FrameActionView>) -> nat
    decreases actions.len(),
{
    if actions.len() == 0 {
        0
    } else {
        presentations(actions.drop_last()) + if actions.last() is Present {
            1nat
        } else {
            0nat
        }
    }
}

} // verus!
