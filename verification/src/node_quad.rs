use vstd::prelude::*;

verus! {

/// A scene node that stands for one quad. It holds no data: what is drawn
/// for it is decided by the rendering context.
#[derive(Debug, Clone, Copy, PartialEq, Eq, Structural)]
pub struct AsnNodeQuad {}

impl AsnNodeQuad {
    pub fn new() -> (node: AsnNodeQuad)
        ensures
            node == (AsnNodeQuad {  }),
    {
        AsnNodeQuad {  }
    }

    /// Visits the node for drawing. The node has nothing of its own to
    /// record, so it is left as it was.
    pub fn draw(&mut self)
        ensures
            *final(self) == *old(self),
    {
    }
}

} // verus!
