//! The renderer's per-frame bookkeeping, kept apart from the GPU handles so
//! that every decision the renderer takes — when to reallocate render
//! targets, when to re-upload vertices, what range a draw call spans — is a
//! function of plain values.
//!
//! `PlotState` mirrors what is resident on the GPU: the recorded render
//! target size, the transform uniform last written, the number of vertices
//! that a draw call spans, and (as a ghost sequence) the full content of the
//! fixed-capacity vertex buffer.

use crate::data::{
    spec_uniform_of, PlotBounds, Uniform, Vertex, DEFAULT_HEIGHT, DEFAULT_WIDTH, MAX_POINTS,
};
use vstd::prelude::*;

verus! {

/// What the renderer knows about the GPU-resident plot resources.
///
/// `gpu_vertices` is the renderer's model of the vertex buffer: a sequence of
/// exactly `MAX_POINTS` vertices of which only the first `vertex_count` are
/// ever drawn.
pub struct PlotState {
    /// Width in pixels of the render targets.
    pub width: u32,
    /// Height in pixels of the render targets.
    pub height: u32,
    /// The transform uniform as last uploaded.
    pub uniform: Uniform,
    /// Number of vertices a draw call spans; never more than `MAX_POINTS`.
    pub vertex_count: u32,
    /// Model of the full GPU vertex buffer content.
    pub gpu_vertices: Ghost<Seq<Vertex>>,
}

/// A viewport dimension clamped to the minimum the renderer accepts: UI
/// layout transiently reports zero-sized viewports, which must not produce
/// zero-sized textures.
pub open spec fn spec_clamped(d: u32) -> u32 {
    if d == 0 {
        1u32
    } else {
        d
    }
}

/// The number of vertices that an upload of `n` offered vertices makes
/// drawable: at most the buffer capacity.
pub open spec fn spec_upload_count(n: nat) -> nat {
    if n <= MAX_POINTS as nat {
        n
    } else {
        MAX_POINTS as nat
    }
}

impl PlotState {
    /// The state is consistent with the fixed GPU allocations: the drawn
    /// prefix lies inside the buffer, the buffer model has exactly the
    /// allocated capacity, and the render targets are never zero-sized.
    pub open spec fn wf(self) -> bool {
        &&& self.vertex_count as nat <= MAX_POINTS as nat
        &&& self.gpu_vertices@.len() == MAX_POINTS as nat
        &&& self.width >= 1
        &&& self.height >= 1
    }

    /// The vertices a draw call samples: exactly the prefix of the buffer up
    /// to `vertex_count`.  Buffer content beyond it is never part of this.
    pub open spec fn spec_drawn(self) -> Seq<Vertex> {
        self.gpu_vertices@.take(self.vertex_count as int)
    }

    /// The state at renderer construction: nothing drawable, default-sized
    /// targets, the initial transform, an all-zero vertex buffer.
    pub open spec fn spec_initial() -> PlotState {
        PlotState {
            width: DEFAULT_WIDTH,
            height: DEFAULT_HEIGHT,
            uniform: Uniform::spec_initial(),
            vertex_count: 0,
            gpu_vertices: Ghost(Seq::new(MAX_POINTS as nat, |i: int| Vertex::zeroed())),
        }
    }

    /// The state after recording a viewport of `w` by `h` pixels: both
    /// dimensions clamped to at least one, everything else untouched.
    pub open spec fn spec_resized(self, w: u32, h: u32) -> PlotState {
        PlotState { width: spec_clamped(w), height: spec_clamped(h), ..self }
    }

    /// Whether recording a viewport of `w` by `h` pixels changes the render
    /// target size — exactly then are the targets reallocated.
    pub open spec fn spec_needs_realloc(self, w: u32, h: u32) -> bool {
        spec_clamped(w) != self.width || spec_clamped(h) != self.height
    }

    /// The state after a frame supplied the visible rectangle `b`: the
    /// uniform reflects `b`, everything else is untouched.
    pub open spec fn spec_with_bounds(self, b: PlotBounds) -> PlotState {
        PlotState { uniform: spec_uniform_of(b), ..self }
    }

    /// The state after `update_vertices(points, dirty)`.
    ///
    /// A clean frame is a no-op.  A dirty frame replaces the drawn prefix
    /// with `points`, truncated to the buffer capacity; buffer content past
    /// the new count keeps its previous (stale, never drawn) value.
    pub open spec fn spec_uploaded(self, points: Seq<Vertex>, dirty: bool) -> PlotState {
        if dirty {
            let n = spec_upload_count(points.len()) as int;
            PlotState {
                vertex_count: n as u32,
                gpu_vertices: Ghost(points.take(n) + self.gpu_vertices@.skip(n)),
                ..self
            }
        } else {
            self
        }
    }

    /// The state after one whole prepare call: viewport recorded, uniform
    /// refreshed, vertices uploaded if dirty.
    pub open spec fn spec_prepared(
        self,
        w: u32,
        h: u32,
        b: PlotBounds,
        points: Seq<Vertex>,
        dirty: bool,
    ) -> PlotState {
        self.spec_resized(w, h).spec_with_bounds(b).spec_uploaded(points, dirty)
    }

    /// The initial state as a value.
    pub fn initial() -> (r: PlotState)
        ensures
            r == PlotState::spec_initial(),
            r.wf(),
    {
        PlotState {
            width: DEFAULT_WIDTH,
            height: DEFAULT_HEIGHT,
            uniform: Uniform::initial(),
            vertex_count: 0,
            gpu_vertices: Ghost(Seq::new(MAX_POINTS as nat, |i: int| Vertex::zeroed())),
        }
    }

    /// Records the viewport size for this frame and reports whether the
    /// render targets must be reallocated.  Requesting the size already
    /// recorded changes nothing, so at most the first of any run of
    /// same-sized requests reallocates.
    pub fn resize(&mut self, w: u32, h: u32) -> (realloc: bool)
        ensures
            *final(self) == old(self).spec_resized(w, h),
            realloc == old(self).spec_needs_realloc(w, h),
            !realloc ==> *final(self) == *old(self),
    {
        let cw = if w == 0 { 1u32 } else { w };
        let ch = if h == 0 { 1u32 } else { h };
        let realloc = cw != self.width || ch != self.height;
        self.width = cw;
        self.height = ch;
        realloc
    }

    /// Records the visible rectangle for this frame.  The uniform tracks the
    /// bounds of every frame, whether or not the vertex data changed.
    pub fn set_bounds(&mut self, b: &PlotBounds)
        ensures
            *final(self) == old(self).spec_with_bounds(*b),
    {
        self.uniform = Uniform::of_bounds(b);
    }

    /// Records an `update_vertices(points, dirty)` call and returns how many
    /// vertices must be copied to the GPU: `Some(count)` on a dirty frame —
    /// `count` is `points.len()` truncated to the buffer capacity — and
    /// `None` on a clean frame, which leaves everything untouched.
    pub fn set_vertices(&mut self, points: &[Vertex], dirty: bool) -> (upload: Option<usize>)
        requires
            old(self).wf(),
        ensures
            *final(self) == old(self).spec_uploaded(points@, dirty),
            final(self).wf(),
            match upload {
                Some(count) => dirty && count == spec_upload_count(points@.len())
                    && count <= points@.len(),
                None => !dirty && *final(self) == *old(self),
            },
    {
        if !dirty {
            return None;
        }
        let count = if points.len() <= MAX_POINTS {
            points.len()
        } else {
            MAX_POINTS
        };
        self.vertex_count = count as u32;
        proof {
            let n = count as int;
            let s = points@.take(n) + self.gpu_vertices@.skip(n);
            assert(s.len() == MAX_POINTS as nat);
        }
        let ghost n = count as int;
        self.gpu_vertices = Ghost(points@.take(n) + self.gpu_vertices@.skip(n));
        Some(count)
    }
}

/// Dirty-upload idempotence: a clean frame never changes the drawable count
/// or any byte of the buffer model, for all vertex data.
pub proof fn lemma_clean_upload_is_noop(s: PlotState, points: Seq<Vertex>)
    ensures
        s.spec_uploaded(points, false) == s,
{
}

/// Capacity invariant: a dirty upload of `L` vertices makes exactly `L`
/// drawable when `L` fits the buffer, and exactly the capacity otherwise; the
/// buffer model never grows past the capacity, so nothing is written past the
/// allocation.
pub proof fn lemma_upload_capacity(s: PlotState, points: Seq<Vertex>)
    requires
        s.wf(),
    ensures
        s.spec_uploaded(points, true).wf(),
        points.len() <= MAX_POINTS as nat ==> s.spec_uploaded(points, true).vertex_count
            == points.len(),
        points.len() > MAX_POINTS as nat ==> s.spec_uploaded(points, true).vertex_count
            == MAX_POINTS as u32,
{
    let t = s.spec_uploaded(points, true);
    let n = spec_upload_count(points.len()) as int;
    assert(t.gpu_vertices@.len() == points.take(n).len() + s.gpu_vertices@.skip(n).len());
}

/// Resize determinism: recording the same viewport twice reallocates at most
/// once — the second request is a no-op — and the recorded size is always the
/// requested size clamped to at least one by one.
pub proof fn lemma_resize_idempotent(s: PlotState, w: u32, h: u32)
    ensures
        s.spec_resized(w, h).spec_resized(w, h) == s.spec_resized(w, h),
        !s.spec_resized(w, h).spec_needs_realloc(w, h),
        s.spec_resized(w, h).width == spec_clamped(w),
        s.spec_resized(w, h).height == spec_clamped(h),
{
}

/// Uniform freshness: whatever a frame's dirty flag, after the frame the
/// uniform reflects exactly the bounds that frame supplied.
pub proof fn lemma_uniform_freshness(
    s: PlotState,
    w: u32,
    h: u32,
    b: PlotBounds,
    points: Seq<Vertex>,
    dirty: bool,
)
    ensures
        s.spec_prepared(w, h, b, points, dirty).uniform == spec_uniform_of(b),
{
}

/// Draw range correctness: the drawn vertices are exactly the buffer prefix
/// `[0, vertex_count)`; after a dirty upload they are exactly the offered
/// vertices (truncated to capacity), so stale content beyond the count is
/// never sampled.
pub proof fn lemma_draw_range(s: PlotState, points: Seq<Vertex>)
    requires
        s.wf(),
    ensures
        s.spec_drawn().len() == s.vertex_count,
        forall|i: int|
            0 <= i < s.spec_drawn().len() ==> s.spec_drawn()[i] == s.gpu_vertices@[i],
        s.spec_uploaded(points, true).spec_drawn() == points.take(
            spec_upload_count(points.len()) as int,
        ),
{
    let t = s.spec_uploaded(points, true);
    let n = spec_upload_count(points.len()) as int;
    assert(t.spec_drawn() =~= points.take(n));
}

} // verus!
