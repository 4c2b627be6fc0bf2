use vstd::prelude::*;

verus! {

/// Smallest width or height, in pixels, that a presentable surface may have.
pub const MIN_WINDOW_SIZE: u32 = 1;

/// Number of frames the presentation engine is asked to queue in advance.
pub const MAX_FRAME_LATENCY: u32 = 2;

/// Number of vertices of the fixed draw call. The shader generates them from
/// the vertex index, so no vertex or index buffer is bound.
pub const QUAD_VERTEX_COUNT: u32 = 3;

/// Number of instances of the fixed draw call.
pub const QUAD_INSTANCE_COUNT: u32 = 1;

/// Denominator of the colour channels of a [`ClearColor`].
pub const COLOR_SCALE: u16 = 1000;

/// Whether both dimensions reach the minimum surface size.
pub open spec fn size_is_valid(width: u32, height: u32) -> bool {
    width >= MIN_WINDOW_SIZE && height >= MIN_WINDOW_SIZE
}

/// A colour whose channels are thousandths of full intensity: a channel of
/// `COLOR_SCALE` is fully on. The host divides by `COLOR_SCALE` when it hands
/// the colour to the GPU.
#[derive(Clone, Copy, Debug, PartialEq, Eq, Structural)]
pub struct ClearColor {
    pub red: u16,
    pub green: u16,
    pub blue: u16,
    pub alpha: u16,
}

/// The background that every frame is cleared to.
pub open spec fn default_clear_color() -> ClearColor {
    ClearColor { red: 100, green: 200, blue: 300, alpha: 1000 }
}

impl ClearColor {
    /// No channel exceeds full intensity.
    pub open spec fn in_range(&self) -> bool {
        self.red <= COLOR_SCALE && self.green <= COLOR_SCALE && self.blue <= COLOR_SCALE
            && self.alpha <= COLOR_SCALE
    }

    /// The fixed dark blue background, opaque.
    pub fn background() -> (color: ClearColor)
        ensures
            color == default_clear_color(),
            color.in_range(),
    {
        ClearColor { red: 100, green: 200, blue: 300, alpha: 1000 }
    }
}

/// Tests a requested size against the minimum surface size.
pub fn check_size(width: u32, height: u32) -> (valid: bool)
    ensures
        valid == size_is_valid(width, height),
{
    width >= MIN_WINDOW_SIZE && height >= MIN_WINDOW_SIZE
}

} // verus!
