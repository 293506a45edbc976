//! A GPU-accelerated plot renderer: an offscreen render-target and buffer
//! manager, a fixed render pipeline, a dirty-tracking vertex upload strategy,
//! and the prepare/paint protocol that bridges a per-frame paint request into
//! GPU command submission.
//!
//! The renderer keeps a vertex buffer of fixed capacity on the GPU and draws
//! only a prefix of it; vertex data is re-uploaded only on frames whose data
//! actually changed, while the transform uniform is rewritten every frame.

pub mod data;
pub mod encode;
pub mod gpu;
pub mod renderer;
pub mod state;

pub use data::{PlotBounds, Uniform, Vertex};
pub use data::{DEFAULT_HEIGHT, DEFAULT_WIDTH, MAX_POINTS, MSAA_SAMPLE_COUNT};
pub use gpu::{GpuBuffer, GpuTexture, PassCommand, PassLog};
pub use renderer::{GpuAcceleratedPlot, RenderTarget};
pub use state::PlotState;
