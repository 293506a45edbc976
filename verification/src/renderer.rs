//! The GPU-accelerated plot renderer.
//!
//! `GpuAcceleratedPlot` owns a fixed render pipeline, a uniform buffer, a
//! vertex buffer pre-allocated at `MAX_POINTS` capacity, and a pair of
//! offscreen render targets sized to the viewport.  Once per host frame,
//! `prepare` reallocates the targets if the viewport changed, rewrites the
//! transform uniform unconditionally, and re-uploads the vertex buffer only
//! on frames whose data changed; `render_onto_renderpass` then records one
//! draw call spanning exactly the drawable prefix into the host's open
//! render pass.
//!
//! Every decision is proved against the `PlotState` model, and the GPU
//! resources carry models of their own: the buffers' byte content, the
//! textures' allocated size and the pass's command log are tied to the
//! state by `wf` and by the contracts below, through the trusted wrappers
//! in `gpu`.

use crate::data::{
    spec_uniform_of, PlotBounds, Vertex, DEFAULT_HEIGHT, DEFAULT_WIDTH, MAX_POINTS,
    MSAA_SAMPLE_COUNT,
};
use crate::encode::{
    lemma_uniform_bytes_len, lemma_vertices_bytes_concat, lemma_vertices_bytes_len,
    lemma_vertices_bytes_skip, lemma_zero_vertices_bytes, spec_uniform_bytes, spec_vertices_bytes,
    uniform_bytes, vertices_bytes, UNIFORM_BYTES, VERTEX_BYTES,
};
use crate::gpu;
use crate::gpu::{GpuBuffer, GpuTexture, PassCommand, PassLog};
use crate::state::{spec_clamped, PlotState};
use egui_wgpu::wgpu;
use vstd::prelude::*;

verus! {

/// One offscreen render target: a GPU texture with its default view.  Stale
/// targets are replaced whole, never resized in place, so the size the
/// texture model records always matches the allocation.
pub struct RenderTarget {
    /// The texture itself, with the size it was allocated at.
    pub texture: GpuTexture,
    /// A view over the whole texture, made once at allocation.
    pub view: wgpu::TextureView,
}

impl RenderTarget {
    /// Pixel width the target was allocated at.
    pub open spec fn spec_width(self) -> u32 {
        self.texture.spec_width()
    }

    /// Pixel height the target was allocated at.
    pub open spec fn spec_height(self) -> u32 {
        self.texture.spec_height()
    }

    /// Allocates a fresh texture of exactly `width` by `height` pixels,
    /// together with a view over the whole of it.
    fn create(
        device: &wgpu::Device,
        format: &wgpu::TextureFormat,
        sample_count: u32,
        width: u32,
        height: u32,
    ) -> (r: RenderTarget)
        requires
            width >= 1,
            height >= 1,
        ensures
            r.spec_width() == width,
            r.spec_height() == height,
    {
        let texture = gpu::create_texture(device, format, sample_count, width, height);
        let view = gpu::texture_create_view(&texture);
        RenderTarget { texture, view }
    }
}

/// The renderer: fixed pipeline and buffers created once at construction,
/// render targets recreated on viewport changes, and the `state` model of
/// everything GPU-resident.
pub struct GpuAcceleratedPlot {
    /// The fixed graphics pipeline.
    pub pipeline: wgpu::RenderPipeline,
    /// The color format of the host's display surface and of the targets.
    pub target_format: wgpu::TextureFormat,
    /// The binding set linking the uniform buffer to the pipeline.
    pub bind_group: wgpu::BindGroup,
    /// Sixteen bytes of transform uniform, rewritten every frame.
    pub uniform_buffer: GpuBuffer,
    /// The vertex buffer, allocated once at `MAX_POINTS` capacity.
    pub vertex_buffer: GpuBuffer,
    /// The single-sample render target the host displays.
    pub texture: RenderTarget,
    /// The multisampled attachment; with a sample count of one it is simply
    /// a second single-sample target.
    pub multisampled_texture: RenderTarget,
    /// What the renderer knows about the GPU-resident resources.
    pub state: PlotState,
}

impl GpuAcceleratedPlot {
    /// The fixed allocations and the state model agree: both render targets
    /// are allocated at exactly the size the state records, the uniform
    /// buffer holds the byte image of the current transform, and the vertex
    /// buffer — allocated at exactly `MAX_POINTS` records — holds the byte
    /// image of the modeled vertex content.
    pub open spec fn wf(self) -> bool {
        &&& self.state.wf()
        &&& self.texture.spec_width() == self.state.width
        &&& self.texture.spec_height() == self.state.height
        &&& self.multisampled_texture.spec_width() == self.state.width
        &&& self.multisampled_texture.spec_height() == self.state.height
        &&& self.uniform_buffer.spec_size() == UNIFORM_BYTES as nat
        &&& self.uniform_buffer.spec_contents() == spec_uniform_bytes(self.state.uniform)
        &&& self.vertex_buffer.spec_size() == (MAX_POINTS * VERTEX_BYTES) as nat
        &&& self.vertex_buffer.spec_contents() == spec_vertices_bytes(self.state.gpu_vertices@)
    }

    /// Creates the renderer on `device`, rendering towards `target_format`:
    /// compiles the shader pair, builds the fixed pipeline and its binding
    /// set, allocates the uniform buffer at the initial transform and the
    /// vertex buffer at full capacity, and allocates stand-in render targets
    /// at the default size.  These objects live for the renderer's
    /// lifetime; later frames replace only the render targets, and only on
    /// a viewport change.
    pub fn new(device: &wgpu::Device, target_format: wgpu::TextureFormat) -> (r:
        GpuAcceleratedPlot)
        ensures
            r.wf(),
            r.state == PlotState::spec_initial(),
    {
        let shader = gpu::create_shader_module(device, gpu::LINE_SHADER_SOURCE);
        let bind_group_layout = gpu::create_bind_group_layout(device);
        let pipeline_layout = gpu::create_pipeline_layout(device, &bind_group_layout);
        let vertex_layout = gpu::vertex_buffer_layout();
        let pipeline = gpu::create_render_pipeline(
            device,
            &pipeline_layout,
            &shader,
            &target_format,
            MSAA_SAMPLE_COUNT,
            &[Some(vertex_layout)],
        );
        let state = PlotState::initial();
        let initial_uniform = uniform_bytes(&state.uniform);
        let uniform_buffer = gpu::create_uniform_buffer(device, initial_uniform.as_slice());
        let vertex_buffer = gpu::create_vertex_buffer(device, (MAX_POINTS * VERTEX_BYTES) as u64);
        proof {
            lemma_zero_vertices_bytes(MAX_POINTS as nat);
            assert(vertex_buffer.spec_contents() =~= spec_vertices_bytes(state.gpu_vertices@));
        }
        let bind_group = gpu::create_bind_group(device, &bind_group_layout, &uniform_buffer);
        let texture = RenderTarget::create(
            device,
            &target_format,
            1,
            DEFAULT_WIDTH,
            DEFAULT_HEIGHT,
        );
        let multisampled_texture = RenderTarget::create(
            device,
            &target_format,
            MSAA_SAMPLE_COUNT,
            DEFAULT_WIDTH,
            DEFAULT_HEIGHT,
        );
        GpuAcceleratedPlot {
            pipeline,
            target_format,
            bind_group,
            uniform_buffer,
            vertex_buffer,
            texture,
            multisampled_texture,
            state,
        }
    }

    /// A fresh default view over the single-sample texture, for the host to
    /// register or refresh its display-texture handle.
    pub fn create_view(&self) -> wgpu::TextureView {
        gpu::texture_create_view(&self.texture.texture)
    }

    /// The view of the single-sample target, suitable for external display
    /// or as a resolve target.
    pub fn current_view(&self) -> (r: &wgpu::TextureView)
        ensures
            *r == self.texture.view,
    {
        &self.texture.view
    }

    /// The view of the multisampled target, for use as the active
    /// render-pass attachment when multisampling is enabled.
    pub fn current_msaa_view(&self) -> (r: &wgpu::TextureView)
        ensures
            *r == self.multisampled_texture.view,
    {
        &self.multisampled_texture.view
    }

    /// Makes the render targets match a viewport of `width` by `height`
    /// pixels, both clamped to at least one.  If that size is already
    /// recorded nothing at all happens; otherwise both targets are destroyed
    /// and reallocated at the new size.  Everything else — pipeline, binding
    /// set, buffers — is untouched.
    pub fn ensure_size(&mut self, device: &wgpu::Device, width: u32, height: u32)
        requires
            old(self).wf(),
        ensures
            final(self).wf(),
            *final(self) == (GpuAcceleratedPlot {
                texture: final(self).texture,
                multisampled_texture: final(self).multisampled_texture,
                state: old(self).state.spec_resized(width, height),
                ..*old(self)
            }),
            final(self).texture.spec_width() == spec_clamped(width),
            final(self).texture.spec_height() == spec_clamped(height),
            final(self).multisampled_texture.spec_width() == spec_clamped(width),
            final(self).multisampled_texture.spec_height() == spec_clamped(height),
            !old(self).state.spec_needs_realloc(width, height) ==> *final(self) == *old(self),
    {
        let realloc = self.state.resize(width, height);
        if realloc {
            let texture = RenderTarget::create(
                device,
                &self.target_format,
                1,
                self.state.width,
                self.state.height,
            );
            self.texture = texture;
            let multisampled_texture = RenderTarget::create(
                device,
                &self.target_format,
                MSAA_SAMPLE_COUNT,
                self.state.width,
                self.state.height,
            );
            self.multisampled_texture = multisampled_texture;
        }
    }

    /// Rewrites the transform uniform to show exactly the rectangle
    /// `bounds`: the byte image of the new transform is uploaded into the
    /// uniform buffer, which itself stays the allocation made at
    /// construction.  This happens every frame, whatever the dirty flag:
    /// the uniform is sixteen bytes, and the bounds change whenever the
    /// viewer pans or zooms.
    pub fn update_uniform(&mut self, queue: &wgpu::Queue, bounds: &PlotBounds)
        requires
            old(self).wf(),
        ensures
            final(self).wf(),
            *final(self) == (GpuAcceleratedPlot {
                state: old(self).state.spec_with_bounds(*bounds),
                uniform_buffer: final(self).uniform_buffer,
                ..*old(self)
            }),
            final(self).uniform_buffer.spec_same_allocation(old(self).uniform_buffer),
            final(self).uniform_buffer.spec_contents() == spec_uniform_bytes(
                spec_uniform_of(*bounds),
            ),
            final(self).state.uniform == spec_uniform_of(*bounds),
    {
        self.state.set_bounds(bounds);
        let bytes = uniform_bytes(&self.state.uniform);
        proof {
            lemma_uniform_bytes_len(old(self).state.uniform);
        }
        gpu::queue_write_buffer(queue, &mut self.uniform_buffer, bytes.as_slice());
        proof {
            assert(bytes@ + spec_uniform_bytes(old(self).state.uniform).skip(UNIFORM_BYTES as int)
                =~= bytes@);
        }
    }

    /// On a dirty frame, uploads the byte image of `points` — truncated to
    /// the buffer capacity — into the vertex buffer at offset zero and
    /// records the new drawable count; on a clean frame, touches nothing,
    /// preserving the previously uploaded content and count.  The vertex
    /// buffer itself stays the allocation made at construction.  Returns
    /// whether data was truncated, so the caller can surface a diagnostic
    /// instead of dropping vertices silently.
    pub fn update_vertices(&mut self, queue: &wgpu::Queue, points: &[Vertex], dirty: bool) -> (
        truncated: bool)
        requires
            old(self).wf(),
        ensures
            final(self).wf(),
            *final(self) == (GpuAcceleratedPlot {
                state: old(self).state.spec_uploaded(points@, dirty),
                vertex_buffer: final(self).vertex_buffer,
                ..*old(self)
            }),
            final(self).vertex_buffer.spec_same_allocation(old(self).vertex_buffer),
            !dirty ==> *final(self) == *old(self),
            truncated == (dirty && points@.len() > MAX_POINTS as nat),
    {
        let upload = self.state.set_vertices(points, dirty);
        match upload {
            Some(count) => {
                let bytes = vertices_bytes(points, count);
                proof {
                    let n = count as int;
                    let model_old = old(self).state.gpu_vertices@;
                    lemma_vertices_bytes_len(model_old);
                    assert((VERTEX_BYTES * count) as int % 4 == 0) by (nonlinear_arith);
                    lemma_vertices_bytes_concat(points@.take(n), model_old.skip(n));
                    lemma_vertices_bytes_skip(model_old, n);
                }
                gpu::queue_write_buffer(queue, &mut self.vertex_buffer, bytes.as_slice());
                proof {
                    gpu::lemma_same_allocation_refl(old(self).vertex_buffer);
                }
                count < points.len()
            },
            None => {
                proof {
                    gpu::lemma_same_allocation_refl(old(self).vertex_buffer);
                }
                false
            },
        }
    }

    /// One whole prepare phase: resize the render targets to `dimensions` if
    /// needed, rewrite the transform uniform to `bounds` unconditionally,
    /// and re-upload the vertex data exactly when `dirty`.  The pipeline,
    /// the binding set and both buffer allocations are never replaced; the
    /// render targets are replaced only on a dimension change.  Returns
    /// whether vertex data was truncated to the buffer capacity.
    pub fn prepare(
        &mut self,
        device: &wgpu::Device,
        queue: &wgpu::Queue,
        dimensions: [u32; 2],
        bounds: &PlotBounds,
        points: &[Vertex],
        dirty: bool,
    ) -> (truncated: bool)
        requires
            old(self).wf(),
        ensures
            final(self).wf(),
            final(self).state == old(self).state.spec_prepared(
                dimensions[0],
                dimensions[1],
                *bounds,
                points@,
                dirty,
            ),
            final(self).state.uniform == spec_uniform_of(*bounds),
            !dirty ==> final(self).state.vertex_count == old(self).state.vertex_count
                && final(self).state.gpu_vertices == old(self).state.gpu_vertices,
            truncated == (dirty && points@.len() > MAX_POINTS as nat),
            final(self).pipeline == old(self).pipeline,
            final(self).bind_group == old(self).bind_group,
            final(self).target_format == old(self).target_format,
            final(self).uniform_buffer.spec_same_allocation(old(self).uniform_buffer),
            final(self).vertex_buffer.spec_same_allocation(old(self).vertex_buffer),
            !old(self).state.spec_needs_realloc(dimensions[0], dimensions[1])
                ==> final(self).texture == old(self).texture
                && final(self).multisampled_texture == old(self).multisampled_texture,
    {
        self.ensure_size(device, dimensions[0], dimensions[1]);
        self.update_uniform(queue, bounds);
        self.update_vertices(queue, points, dirty)
    }

    /// Binds the pipeline, the vertex buffer and the binding set into the
    /// host's open render pass and issues a single draw of one instance
    /// spanning exactly the vertex range from zero up to the drawable count
    /// — content of the buffer beyond that count is never sampled.  `log`
    /// models the pass: exactly these four commands are recorded, in this
    /// order.
    pub fn render_onto_renderpass(
        &self,
        rpass: &mut wgpu::RenderPass<'static>,
        log: &mut PassLog,
    )
        requires
            self.wf(),
        ensures
            final(log).spec_commands() == old(log).spec_commands() + seq![
                PassCommand::SetPipeline(self.pipeline),
                PassCommand::SetVertexBuffer(0, self.vertex_buffer),
                PassCommand::SetBindGroup(0, self.bind_group),
                PassCommand::Draw(0, self.state.vertex_count),
            ],
    {
        gpu::pass_set_pipeline(rpass, log, &self.pipeline);
        gpu::pass_set_vertex_buffer(rpass, log, &self.vertex_buffer);
        gpu::pass_set_bind_group(rpass, log, &self.bind_group);
        gpu::pass_draw(rpass, log, self.state.vertex_count);
        proof {
            assert(log.spec_commands() =~= old(log).spec_commands() + seq![
                PassCommand::SetPipeline(self.pipeline),
                PassCommand::SetVertexBuffer(0, self.vertex_buffer),
                PassCommand::SetBindGroup(0, self.bind_group),
                PassCommand::Draw(0, self.state.vertex_count),
            ]);
        }
    }
}

} // verus!
