//! The trusted boundary to the GPU API.
//!
//! Everything the renderer asks of the GPU goes through this module: each
//! wrapper holds exactly one `wgpu` call, and the type declarations make the
//! `wgpu` handle types known to the verifier as opaque values.  No renderer
//! decision is taken here; the callers decide what to create, upload and
//! draw, and are verified against the state model in `state`.
//!
//! Three wrapper types carry the library's model of GPU-resident effects:
//! `GpuBuffer` pairs a buffer with its allocated size and current byte
//! content, `GpuTexture` pairs a texture with the size it was allocated at,
//! and `PassLog` mirrors the commands recorded into a render pass.  Their
//! model fields are private to this module, so verified code can change
//! them only through the trusted wrappers whose `ensures` state what the
//! wrapped call does; the wgpu documentation relied on is named at each
//! wrapper.

use crate::data::MAX_POINTS;
use egui_wgpu::wgpu;
use egui_wgpu::wgpu::util::DeviceExt;
use vstd::prelude::*;

verus! {

#[verifier::external_type_specification]
#[verifier::external_body]
pub struct ExDevice(wgpu::Device);

#[verifier::external_type_specification]
#[verifier::external_body]
pub struct ExQueue(wgpu::Queue);

#[verifier::external_type_specification]
#[verifier::external_body]
pub struct ExBuffer(wgpu::Buffer);

#[verifier::external_type_specification]
#[verifier::external_body]
pub struct ExTexture(wgpu::Texture);

#[verifier::external_type_specification]
#[verifier::external_body]
pub struct ExTextureView(wgpu::TextureView);

#[verifier::external_type_specification]
#[verifier::external_body]
pub struct ExTextureFormat(wgpu::TextureFormat);

#[verifier::external_type_specification]
#[verifier::external_body]
pub struct ExShaderModule(wgpu::ShaderModule);

#[verifier::external_type_specification]
#[verifier::external_body]
pub struct ExBindGroupLayout(wgpu::BindGroupLayout);

#[verifier::external_type_specification]
#[verifier::external_body]
pub struct ExPipelineLayout(wgpu::PipelineLayout);

#[verifier::external_type_specification]
#[verifier::external_body]
pub struct ExRenderPipeline(wgpu::RenderPipeline);

#[verifier::external_type_specification]
#[verifier::external_body]
pub struct ExBindGroup(wgpu::BindGroup);

#[verifier::external_type_specification]
#[verifier::external_body]
pub struct ExRenderPass<'a>(wgpu::RenderPass<'a>);

#[verifier::external_type_specification]
#[verifier::external_body]
pub struct ExVertexBufferLayout<'a>(wgpu::VertexBufferLayout<'a>);

/// A GPU buffer together with the library's model of it: the size it was
/// allocated at (fixed for its lifetime) and the bytes currently resident in
/// it.  The fields are private: only the buffer wrappers in this module ever
/// set them, so a contract over the model can be met only by making the
/// corresponding GPU call.
pub struct GpuBuffer {
    raw: wgpu::Buffer,
    size: Ghost<nat>,
    contents: Ghost<Seq<u8>>,
}

impl GpuBuffer {
    /// Allocated size in bytes, fixed at creation.
    pub closed spec fn spec_size(self) -> nat {
        self.size@
    }

    /// The bytes currently resident in the buffer.
    pub closed spec fn spec_contents(self) -> Seq<u8> {
        self.contents@
    }

    /// Whether `other` is the same allocation: the same underlying buffer
    /// object, of the same size — only the resident bytes may differ.
    pub closed spec fn spec_same_allocation(self, other: GpuBuffer) -> bool {
        self.raw == other.raw && self.size == other.size
    }
}

/// A buffer is its own allocation.
pub proof fn lemma_same_allocation_refl(b: GpuBuffer)
    ensures
        b.spec_same_allocation(b),
{
}

/// A GPU texture together with the pixel size it was allocated at.  The
/// fields are private: only `create_texture` ever builds one, so a contract
/// over the recorded size can be met only by a fresh allocation.
pub struct GpuTexture {
    raw: wgpu::Texture,
    dims: Ghost<(u32, u32)>,
}

impl GpuTexture {
    /// Pixel width the texture was allocated at.
    pub closed spec fn spec_width(self) -> u32 {
        self.dims@.0
    }

    /// Pixel height the texture was allocated at.
    pub closed spec fn spec_height(self) -> u32 {
        self.dims@.1
    }
}

/// One command recorded into a render pass, as the library models it.
pub enum PassCommand {
    /// The pipeline was made the active pipeline of the pass.
    SetPipeline(wgpu::RenderPipeline),
    /// The whole of the buffer was bound to the given vertex buffer slot.
    SetVertexBuffer(u32, GpuBuffer),
    /// The bind group was bound at the given group index, with no dynamic
    /// offsets.
    SetBindGroup(u32, wgpu::BindGroup),
    /// One draw of the vertex range from the first number up to the second,
    /// as a single instance.
    Draw(u32, u32),
}

/// The library's model of the commands recorded into one render pass.  A
/// caller that opens or receives a pass starts an empty log and hands both
/// to the pass wrappers, which alone extend it — the log's field is private
/// to this module.
pub struct PassLog {
    commands: Ghost<Seq<PassCommand>>,
}

impl PassLog {
    /// The commands recorded so far, in order.
    pub closed spec fn spec_commands(self) -> Seq<PassCommand> {
        self.commands@
    }

    /// An empty log, for a pass into which nothing has been recorded yet.
    pub fn new() -> (r: PassLog)
        ensures
            r.spec_commands() == Seq::<PassCommand>::empty(),
    {
        PassLog { commands: Ghost(Seq::empty()) }
    }
}

/// The shader pair of the fixed pipeline.  The vertex stage maps a position
/// from the data-space rectangle of the transform uniform to clip space and
/// nudges it along the per-vertex normal to give the ribbon its width; the
/// fragment stage outputs the interpolated premultiplied color unchanged.
pub const LINE_SHADER_SOURCE: &'static str = "struct Transform {
    x_bounds: vec2f,
    y_bounds: vec2f,
};

@group(0) @binding(0) var<uniform> transform: Transform;

struct VertexOutput {
    @builtin(position) clip_position: vec4f,
    @location(0) color: vec4f,
};

@vertex
fn vs_main(
    @location(0) position: vec2f,
    @location(1) normal: vec2f,
    @location(2) color: vec4f,
) -> VertexOutput {
    let half_width = f32(15) / f32(10000);
    let x_span = transform.x_bounds.y - transform.x_bounds.x;
    let y_span = transform.y_bounds.y - transform.y_bounds.x;
    let unit = vec2f(
        (position.x - transform.x_bounds.x) / x_span,
        (position.y - transform.y_bounds.x) / y_span,
    );
    let clip = unit * f32(2) - vec2f(f32(1), f32(1));
    var out: VertexOutput;
    out.clip_position = vec4f(clip + normal * half_width, f32(0), f32(1));
    out.color = color;
    return out;
}

@fragment
fn fs_main(in: VertexOutput) -> @location(0) vec4f {
    return in.color;
}
";

/// Relies on `wgpu::Device::create_shader_module`: compiles the WGSL
/// `source` into a shader module of `device`.  A string that is not valid
/// WGSL is a validation error, so only the library's own shader text is
/// admitted.
#[verifier::external_body]
pub(crate) fn create_shader_module(device: &wgpu::Device, source: &str) -> wgpu::ShaderModule
    requires
        source@ == LINE_SHADER_SOURCE@,
{
    device.create_shader_module(wgpu::ShaderModuleDescriptor {
        label: Some("egui_plot_line_shader"),
        source: wgpu::ShaderSource::Wgsl(source.into()),
    })
}

/// Relies on `wgpu::Device::create_bind_group_layout`: a layout with one
/// uniform-buffer binding at index zero, visible to the vertex stage.
#[verifier::external_body]
pub(crate) fn create_bind_group_layout(device: &wgpu::Device) -> wgpu::BindGroupLayout {
    device.create_bind_group_layout(&wgpu::BindGroupLayoutDescriptor {
        label: Some("egui_plot_bind_group_layout"),
        entries: &[wgpu::BindGroupLayoutEntry {
            binding: 0,
            visibility: wgpu::ShaderStages::VERTEX,
            ty: wgpu::BindingType::Buffer { ty: wgpu::BufferBindingType::Uniform, has_dynamic_offset: false, min_binding_size: None },
            count: None,
        }],
    })
}

/// Relies on `wgpu::Device::create_pipeline_layout`: a pipeline layout over
/// exactly the given bind group layout, with no immediate data.
#[verifier::external_body]
pub(crate) fn create_pipeline_layout(
    device: &wgpu::Device,
    layout: &wgpu::BindGroupLayout,
) -> wgpu::PipelineLayout {
    device.create_pipeline_layout(&wgpu::PipelineLayoutDescriptor {
        label: Some("egui_plot_pipeline_layout"),
        bind_group_layouts: &[Some(layout)],
        immediate_size: 0,
    })
}

/// The fixed vertex buffer layout: one 32-byte record per vertex, stepped
/// per vertex, holding two two-component and one four-component
/// single-precision attributes at shader locations zero to two — exactly the
/// byte layout that `encode::spec_vertex_bytes` writes.
#[verifier::external_body]
pub(crate) fn vertex_buffer_layout() -> wgpu::VertexBufferLayout<'static> {
    wgpu::VertexBufferLayout {
        array_stride: 32,
        step_mode: wgpu::VertexStepMode::Vertex,
        attributes: &[
            wgpu::VertexAttribute { format: wgpu::VertexFormat::Float32x2, offset: 0, shader_location: 0 },
            wgpu::VertexAttribute { format: wgpu::VertexFormat::Float32x2, offset: 8, shader_location: 1 },
            wgpu::VertexAttribute { format: wgpu::VertexFormat::Float32x4, offset: 16, shader_location: 2 },
        ],
    }
}

/// Relies on `wgpu::Device::create_render_pipeline`: the fixed pipeline —
/// the given shader pair, triangle-strip topology, standard alpha blending
/// onto `format`, no depth or stencil, `sample_count` samples.  Sample
/// counts other than the powers of two wgpu knows are a validation error
/// for every format, so they are excluded here; whether a higher power of
/// two is supported for `format` is a property of the adapter, whose
/// failure is the fatal class.
#[verifier::external_body]
pub(crate) fn create_render_pipeline(
    device: &wgpu::Device,
    layout: &wgpu::PipelineLayout,
    shader: &wgpu::ShaderModule,
    format: &wgpu::TextureFormat,
    sample_count: u32,
    buffers: &[Option<wgpu::VertexBufferLayout<'_>>],
) -> wgpu::RenderPipeline
    requires
        sample_count == 1 || sample_count == 2 || sample_count == 4 || sample_count == 8
            || sample_count == 16,
{
    device.create_render_pipeline(&wgpu::RenderPipelineDescriptor {
        label: Some("egui_plot_pipeline"),
        layout: Some(layout),
        vertex: wgpu::VertexState { module: shader, entry_point: Some("vs_main"), compilation_options: Default::default(), buffers },
        fragment: Some(wgpu::FragmentState { module: shader, entry_point: Some("fs_main"), compilation_options: Default::default(), targets: &[Some(wgpu::ColorTargetState { format: *format, blend: Some(wgpu::BlendState::ALPHA_BLENDING), write_mask: wgpu::ColorWrites::ALL })] }),
        primitive: wgpu::PrimitiveState { topology: wgpu::PrimitiveTopology::TriangleStrip, ..Default::default() },
        depth_stencil: None,
        multisample: wgpu::MultisampleState { count: sample_count, ..Default::default() },
        multiview_mask: None,
        cache: None,
    })
}

/// Relies on `wgpu::util::DeviceExt::create_buffer_init`: a uniform buffer
/// holding exactly `contents`, writable from the queue.
#[verifier::external_body]
pub(crate) fn create_uniform_buffer(device: &wgpu::Device, contents: &[u8]) -> (r: GpuBuffer)
    ensures
        r.spec_size() == contents@.len(),
        r.spec_contents() == contents@,
{
    let raw = device.create_buffer_init(&wgpu::util::BufferInitDescriptor {
        label: Some("egui_plot_uniforms"),
        contents,
        usage: wgpu::BufferUsages::COPY_DST | wgpu::BufferUsages::UNIFORM,
    });
    GpuBuffer { raw, size: Ghost(arbitrary()), contents: Ghost(arbitrary()) }
}

/// Relies on `wgpu::Device::create_buffer`: a vertex buffer of `size`
/// bytes, writable from the queue.  wgpu documents that every buffer starts
/// with all bytes zeroed.
#[verifier::external_body]
pub(crate) fn create_vertex_buffer(device: &wgpu::Device, size: u64) -> (r: GpuBuffer)
    ensures
        r.spec_size() == size as nat,
        r.spec_contents() == Seq::new(size as nat, |i: int| 0u8),
{
    let raw = device.create_buffer(&wgpu::BufferDescriptor {
        label: Some("egui_plot_vertices"),
        size,
        usage: wgpu::BufferUsages::COPY_DST | wgpu::BufferUsages::VERTEX,
        mapped_at_creation: false,
    });
    GpuBuffer { raw, size: Ghost(arbitrary()), contents: Ghost(arbitrary()) }
}

/// Relies on `wgpu::Device::create_bind_group`: binds the whole of `buffer`
/// as the uniform at binding index zero of `layout`.
#[verifier::external_body]
pub(crate) fn create_bind_group(
    device: &wgpu::Device,
    layout: &wgpu::BindGroupLayout,
    buffer: &GpuBuffer,
) -> wgpu::BindGroup {
    device.create_bind_group(&wgpu::BindGroupDescriptor {
        label: Some("egui_plot_bind_group"),
        layout,
        entries: &[wgpu::BindGroupEntry { binding: 0, resource: buffer.raw.as_entire_binding() }],
    })
}

/// Relies on `wgpu::Device::create_texture`: a two-dimensional texture of
/// the given size, format and sample count, usable as a render attachment
/// and for sampling.  The graphics API refuses zero-sized textures, so the
/// caller keeps both dimensions at least one.
#[verifier::external_body]
pub(crate) fn create_texture(
    device: &wgpu::Device,
    format: &wgpu::TextureFormat,
    sample_count: u32,
    width: u32,
    height: u32,
) -> (r: GpuTexture)
    requires
        width >= 1,
        height >= 1,
    ensures
        r.spec_width() == width,
        r.spec_height() == height,
{
    let raw = device.create_texture(&wgpu::TextureDescriptor {
        label: Some("egui_plot_texture"),
        size: wgpu::Extent3d { width, height, depth_or_array_layers: 1 },
        mip_level_count: 1,
        sample_count,
        dimension: wgpu::TextureDimension::D2,
        format: *format,
        usage: wgpu::TextureUsages::TEXTURE_BINDING | wgpu::TextureUsages::RENDER_ATTACHMENT,
        view_formats: &[],
    });
    GpuTexture { raw, dims: Ghost(arbitrary()) }
}

/// Relies on `wgpu::Texture::create_view`: a default view over the whole of
/// `texture`.
#[verifier::external_body]
pub(crate) fn texture_create_view(texture: &GpuTexture) -> wgpu::TextureView {
    texture.raw.create_view(&wgpu::TextureViewDescriptor::default())
}

/// Relies on `wgpu::Queue::write_buffer`: schedules a copy of `data` into
/// `buffer` starting at byte offset zero, leaving the rest of the buffer as
/// it was.  wgpu refuses data past the buffer's end and copy sizes that are
/// not a multiple of four bytes, so both are excluded here.
#[verifier::external_body]
pub(crate) fn queue_write_buffer(queue: &wgpu::Queue, buffer: &mut GpuBuffer, data: &[u8])
    requires
        data@.len() <= old(buffer).spec_size(),
        data@.len() % 4 == 0,
    ensures
        final(buffer).spec_same_allocation(*old(buffer)),
        final(buffer).spec_size() == old(buffer).spec_size(),
        final(buffer).spec_contents() == data@ + old(buffer).spec_contents().skip(
            data@.len() as int,
        ),
{
    queue.write_buffer(&buffer.raw, 0, data);
}

/// Relies on `wgpu::RenderPass::set_pipeline`: makes `pipeline` the active
/// pipeline of the pass that `log` models.
#[verifier::external_body]
#[allow(unused_variables)]
pub(crate) fn pass_set_pipeline(
    pass: &mut wgpu::RenderPass<'static>,
    log: &mut PassLog,
    pipeline: &wgpu::RenderPipeline,
)
    ensures
        final(log).spec_commands() == old(log).spec_commands().push(
            PassCommand::SetPipeline(*pipeline),
        ),
{
    pass.set_pipeline(pipeline);
}

/// Relies on `wgpu::RenderPass::set_vertex_buffer` and
/// `wgpu::Buffer::slice`: binds the whole of `buffer` to vertex buffer slot
/// zero of the pass that `log` models.  Slicing an empty buffer is refused,
/// so a zero-size buffer is excluded here.
#[verifier::external_body]
#[allow(unused_variables)]
pub(crate) fn pass_set_vertex_buffer(
    pass: &mut wgpu::RenderPass<'static>,
    log: &mut PassLog,
    buffer: &GpuBuffer,
)
    requires
        buffer.spec_size() > 0,
    ensures
        final(log).spec_commands() == old(log).spec_commands().push(
            PassCommand::SetVertexBuffer(0, *buffer),
        ),
{
    pass.set_vertex_buffer(0, buffer.raw.slice(..));
}

/// Relies on `wgpu::RenderPass::set_bind_group`: binds `bind_group` at
/// group index zero of the pass that `log` models, with no dynamic offsets.
#[verifier::external_body]
#[allow(unused_variables)]
pub(crate) fn pass_set_bind_group(
    pass: &mut wgpu::RenderPass<'static>,
    log: &mut PassLog,
    bind_group: &wgpu::BindGroup,
)
    ensures
        final(log).spec_commands() == old(log).spec_commands().push(
            PassCommand::SetBindGroup(0, *bind_group),
        ),
{
    pass.set_bind_group(0, bind_group, &[]);
}

/// Relies on `wgpu::RenderPass::draw`: records one draw of the vertex range
/// up to `count` as a single instance into the pass that `log` models.  The
/// range must lie inside the bound vertex buffer, which always holds
/// `MAX_POINTS` records, so `count` stays within that capacity.
#[verifier::external_body]
#[allow(unused_variables)]
pub(crate) fn pass_draw(pass: &mut wgpu::RenderPass<'static>, log: &mut PassLog, count: u32)
    requires
        count as nat <= MAX_POINTS as nat,
    ensures
        final(log).spec_commands() == old(log).spec_commands().push(PassCommand::Draw(0, count)),
{
    pass.draw(0..count, 0..1);
}

} // verus!
