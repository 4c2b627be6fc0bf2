use vstd::prelude::*;

verus! {

/// What can go wrong while the rendering context is set up or a frame is
/// driven through it.
#[derive(Debug, Clone, PartialEq, Eq)]
pub enum StateError {
    /// A requested surface size has a dimension below the minimum.
    InvalidWindowSize { width: u32, height: u32 },
    /// The presentation surface could not be created for the window.
    SurfaceCreationFailed(String),
    /// No adapter is compatible with the surface.
    NoAdapterFound,
    /// The driver rejected the request for a device and queue.
    DeviceCreationFailed(String),
    /// A frame was started before the surface was configured.
    SurfaceNotConfigured,
    /// The surface handed out no image for the frame.
    TextureAcquisitionFailed(String),
    /// The recorded commands could not be submitted or the image not presented.
    SubmissionFailed(String),
}

impl StateError {
    /// A failure of start-up. There is no context yet that could be
    /// recovered, so the application cannot go on.
    pub open spec fn is_startup_error(&self) -> bool {
        *self is InvalidWindowSize || *self is SurfaceCreationFailed || *self is NoAdapterFound
            || *self is DeviceCreationFailed
    }

    /// A failure of one frame. The frame is lost, and the surface is
    /// configured anew before the next one.
    pub open spec fn is_frame_error(&self) -> bool {
        *self is SurfaceNotConfigured || *self is TextureAcquisitionFailed
            || *self is SubmissionFailed
    }
}

} // verus!
