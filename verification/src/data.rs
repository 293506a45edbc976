use vstd::prelude::*;

verus! {

/// Upper bound on the number of vertices that can be drawn at once.  The GPU
/// vertex buffer is allocated at this capacity exactly once and never resized;
/// only a prefix of it is ever drawn.
pub const MAX_POINTS: usize = 5_000_000;

/// Sample count of the multisampled render target; one means multisampling is
/// disabled and the second target is a plain copy of the first.
pub const MSAA_SAMPLE_COUNT: u32 = 1;

/// Render targets start at this width until the host reports a viewport size.
pub const DEFAULT_WIDTH: u32 = 1;

/// Render targets start at this height until the host reports a viewport size.
pub const DEFAULT_HEIGHT: u32 = 1;

/// IEEE-754 single-precision bit pattern of one.
pub const ONE_BITS: u32 = 0x3F80_0000;

/// IEEE-754 single-precision bit pattern of negative one.
pub const NEG_ONE_BITS: u32 = 0xBF80_0000;

/// One plotted sample: a position, a perpendicular direction used by the
/// vertex shader to widen a zero-width polyline into a screen-space ribbon,
/// and a premultiplied-alpha color.
///
/// Every component is carried as the bit pattern of an IEEE-754
/// single-precision number.  The renderer never does arithmetic on the
/// components; it only copies them, byte for byte, into GPU memory, so the bit
/// patterns are the exact values the shader reads.
#[derive(Clone, Copy, PartialEq, Eq, Debug)]
pub struct Vertex {
    pub position: (u32, u32),
    pub normal: (u32, u32),
    pub color: (u32, u32, u32, u32),
}

impl Vertex {
    /// The all-zero vertex: the initial content of every slot of the GPU
    /// vertex buffer.
    pub open spec fn zeroed() -> Vertex {
        Vertex { position: (0, 0), normal: (0, 0), color: (0, 0, 0, 0) }
    }
}

impl Default for Vertex {
    fn default() -> (r: Vertex)
        ensures
            r == Vertex::zeroed(),
    {
        Vertex { position: (0, 0), normal: (0, 0), color: (0, 0, 0, 0) }
    }
}

/// The visible data-space rectangle, as reported by the host's plot layout:
/// the lower-left and upper-right corner, each a pair of IEEE-754
/// single-precision bit patterns.
#[derive(Clone, Copy, PartialEq, Eq, Debug)]
pub struct PlotBounds {
    pub min: (u32, u32),
    pub max: (u32, u32),
}

/// The transform uniform handed to the vertex shader: the bounds of the
/// visible data-space rectangle on each axis, as IEEE-754 single-precision
/// bit patterns.  It maps data space to clip space and is rewritten every
/// frame.
#[derive(Clone, Copy, PartialEq, Eq, Debug)]
pub struct Uniform {
    pub x_bounds: (u32, u32),
    pub y_bounds: (u32, u32),
}

/// The uniform that shows exactly the rectangle `b`.
pub open spec fn spec_uniform_of(b: PlotBounds) -> Uniform {
    Uniform { x_bounds: (b.min.0, b.max.0), y_bounds: (b.min.1, b.max.1) }
}

impl Uniform {
    /// The transform the renderer starts with: both axes span negative one to
    /// one.
    pub open spec fn spec_initial() -> Uniform {
        Uniform {
            x_bounds: (NEG_ONE_BITS, ONE_BITS),
            y_bounds: (NEG_ONE_BITS, ONE_BITS),
        }
    }

    /// The initial transform as a value.
    pub fn initial() -> (r: Uniform)
        ensures
            r == Uniform::spec_initial(),
    {
        Uniform {
            x_bounds: (NEG_ONE_BITS, ONE_BITS),
            y_bounds: (NEG_ONE_BITS, ONE_BITS),
        }
    }

    /// The uniform that shows exactly the rectangle `b`.
    pub fn of_bounds(b: &PlotBounds) -> (r: Uniform)
        ensures
            r == spec_uniform_of(*b),
    {
        Uniform { x_bounds: (b.min.0, b.max.0), y_bounds: (b.min.1, b.max.1) }
    }
}

} // verus!
