//! The recording device context.
//!
//! A [`Context`] holds what the device knows of each resource (the size and
//! format of a texture, the attachments of a render pass, the declarations of
//! a shader, the layout of a pipeline, the length of a buffer) and the stream
//! of commands recorded so far. Resources are named by handles: a handle's
//! `id` is the index of its entry in the table of its kind.
//!
//! The drawing commands follow a protocol. A pass is begun, a pipeline is
//! applied, bindings are applied, uniforms are applied, draw calls are issued,
//! the pass is ended. The preconditions of the commands state that protocol;
//! a caller that verifies against them records only streams that a device
//! accepts.

use vstd::prelude::*;
use crate::formats::{Comparison, PassAction, TextureFormat, UniformType, VertexFormat};
use crate::shader::{
    Attribute, FragmentShader, ShaderMeta, ShaderMetaView, VertexShader, member_types,
};

verus! {

/// Handle of a texture.
#[derive(Clone, Copy, Debug, PartialEq, Eq, Structural)]
pub struct Texture {
    pub id: usize,
}

/// Handle of a render pass: a colour attachment with an optional depth attachment.
#[derive(Clone, Copy, Debug, PartialEq, Eq, Structural)]
pub struct RenderPass {
    pub id: usize,
}

/// Handle of a shader program.
#[derive(Clone, Copy, Debug, PartialEq, Eq, Structural)]
pub struct Shader {
    pub id: usize,
}

/// Handle of a pipeline.
#[derive(Clone, Copy, Debug, PartialEq, Eq, Structural)]
pub struct Pipeline {
    pub id: usize,
}

/// Handle of a vertex or index buffer.
#[derive(Clone, Copy, Debug, PartialEq, Eq, Structural)]
pub struct Buffer {
    pub id: usize,
}

/// Size and format of a texture.
#[derive(Clone, Copy, Debug, PartialEq, Eq, Structural)]
pub struct TextureParams {
    pub width: u32,
    pub height: u32,
    pub format: TextureFormat,
}

/// What the context knows of a texture.
#[derive(Clone, Copy, Debug, PartialEq, Eq, Structural)]
pub struct TextureInfo {
    pub params: TextureParams,
    /// False once the texture has been released.
    pub live: bool,
    /// True from the end of a pass that rendered into the texture until the
    /// frame is committed.
    pub written: bool,
}

/// What the context knows of a render pass.
#[derive(Clone, Copy, Debug, PartialEq, Eq)]
pub struct PassInfo {
    pub color: Texture,
    pub depth: Option<Texture>,
    /// False once the pass has been deleted.
    pub live: bool,
}

/// What the context knows of a shader program.
#[derive(Debug)]
pub struct ShaderInfo {
    pub vertex: VertexShader,
    pub fragment: FragmentShader,
    pub meta: ShaderMeta,
}

/// A [`ShaderInfo`] as plain values.
pub struct ShaderInfoView {
    pub vertex: VertexShader,
    pub fragment: FragmentShader,
    pub meta: ShaderMetaView,
}

impl View for ShaderInfo {
    type V = ShaderInfoView;

    open spec fn view(&self) -> ShaderInfoView {
        ShaderInfoView { vertex: self.vertex, fragment: self.fragment, meta: self.meta@ }
    }
}

/// Layout of one vertex buffer: the distance in bytes from one vertex to the
/// next. A stride of zero stands for tightly packed attributes.
#[derive(Clone, Copy, Debug, PartialEq, Eq, Structural)]
pub struct BufferLayout {
    pub stride: i32,
}

impl Default for BufferLayout {
    fn default() -> (layout: BufferLayout)
        ensures
            layout == (BufferLayout { stride: 0 }),
    {
        BufferLayout { stride: 0 }
    }
}

/// One attribute of a vertex: its semantic, its format and the vertex buffer
/// that holds it.
#[derive(Clone, Copy, Debug, PartialEq, Eq, Structural)]
pub struct VertexAttribute {
    pub name: Attribute,
    pub format: VertexFormat,
    pub buffer_index: usize,
}

impl VertexAttribute {
    /// An attribute of the first vertex buffer.
    pub fn new(name: Attribute, format: VertexFormat) -> (a: VertexAttribute)
        ensures
            a == (VertexAttribute { name, format, buffer_index: 0 }),
    {
        VertexAttribute { name, format, buffer_index: 0 }
    }
}

/// The fixed-function state of a pipeline.
#[derive(Clone, Copy, Debug, PartialEq, Eq, Structural)]
pub struct PipelineParams {
    pub depth_test: Comparison,
    pub depth_write: bool,
}

impl Default for PipelineParams {
    /// No depth test and no depth write.
    fn default() -> (params: PipelineParams)
        ensures
            params == (PipelineParams { depth_test: Comparison::Always, depth_write: false }),
    {
        PipelineParams { depth_test: Comparison::Always, depth_write: false }
    }
}

/// What the context knows of a pipeline. It does not change after construction.
#[derive(Debug)]
pub struct PipelineInfo {
    pub buffer_layout: Vec<BufferLayout>,
    pub attributes: Vec<VertexAttribute>,
    pub shader: Shader,
    pub params: PipelineParams,
}

/// A [`PipelineInfo`] as plain values.
pub struct PipelineInfoView {
    pub buffer_layout: Seq<BufferLayout>,
    pub attributes: Seq<VertexAttribute>,
    pub shader: Shader,
    pub params: PipelineParams,
}

impl View for PipelineInfo {
    type V = PipelineInfoView;

    open spec fn view(&self) -> PipelineInfoView {
        PipelineInfoView {
            buffer_layout: self.buffer_layout@,
            attributes: self.attributes@,
            shader: self.shader,
            params: self.params,
        }
    }
}

/// What a buffer holds.
#[derive(Clone, Copy, Debug, PartialEq, Eq, Structural)]
pub enum BufferType {
    VertexBuffer,
    IndexBuffer,
}

/// The geometry that a buffer was filled from.
#[derive(Clone, Copy, Debug, PartialEq, Eq, Structural)]
pub enum Mesh {
    /// The cube of 24 vertices and 36 indices.
    Cube,
    /// The quad of 4 vertices and 6 indices that covers the clip space.
    Quad,
}

/// What the context knows of a buffer.
#[derive(Clone, Copy, Debug, PartialEq, Eq, Structural)]
pub struct BufferInfo {
    pub kind: BufferType,
    pub mesh: Mesh,
    /// Number of elements: scalars of a vertex buffer, indices of an index buffer.
    pub len: usize,
}

/// The geometry and the textures of a draw call.
#[derive(Debug)]
pub struct Bindings {
    pub vertex_buffers: Vec<Buffer>,
    pub index_buffer: Buffer,
    pub images: Vec<Texture>,
}

/// A [`Bindings`] as plain values.
pub struct BindingsView {
    pub vertex_buffers: Seq<Buffer>,
    pub index_buffer: Buffer,
    pub images: Seq<Texture>,
}

impl View for Bindings {
    type V = BindingsView;

    open spec fn view(&self) -> BindingsView {
        BindingsView {
            vertex_buffers: self.vertex_buffers@,
            index_buffer: self.index_buffer,
            images: self.images@,
        }
    }
}

impl Clone for Bindings {
    fn clone(&self) -> (b: Bindings)
        ensures
            b@ == self@,
    {
        let mut vertex_buffers: Vec<Buffer> = Vec::new();
        let mut i: usize = 0;
        while i < self.vertex_buffers.len()
            invariant
                i <= self.vertex_buffers@.len(),
                vertex_buffers@ == self.vertex_buffers@.subrange(0, i as int),
            decreases self.vertex_buffers@.len() - i,
        {
            vertex_buffers.push(self.vertex_buffers[i]);
            i = i + 1;
            assert(vertex_buffers@ =~= self.vertex_buffers@.subrange(0, i as int));
        }
        assert(vertex_buffers@ =~= self.vertex_buffers@);
        let mut images: Vec<Texture> = Vec::new();
        let mut k: usize = 0;
        while k < self.images.len()
            invariant
                k <= self.images@.len(),
                images@ == self.images@.subrange(0, k as int),
            decreases self.images@.len() - k,
        {
            images.push(self.images[k]);
            k = k + 1;
            assert(images@ =~= self.images@.subrange(0, k as int));
        }
        assert(images@ =~= self.images@);
        Bindings { vertex_buffers, index_buffer: self.index_buffer, images }
    }
}

/// The values of a uniform block: one record per program.
#[derive(Clone, Copy, Debug, PartialEq, Eq)]
pub enum UniformValues {
    Blur(crate::blur_pipe::Uniforms),
    BlurShadow(crate::blur_shadow_pipe::Uniforms),
    Shadow(crate::shadow_pipe::Uniforms),
    Glow(crate::glow_pipe::Uniforms),
    Main(crate::main_pipe::Uniforms),
    Coloured(crate::main_pipe::ColouredUniforms),
}

impl UniformValues {
    /// The types of the members of the record, in order.
    pub open spec fn layout(self) -> Seq<UniformType> {
        match self {
            UniformValues::Blur(_) => crate::blur_pipe::Uniforms::layout(),
            UniformValues::BlurShadow(_) => crate::blur_shadow_pipe::Uniforms::layout(),
            UniformValues::Shadow(_) => crate::shadow_pipe::Uniforms::layout(),
            UniformValues::Glow(_) => crate::glow_pipe::Uniforms::layout(),
            UniformValues::Main(_) => crate::main_pipe::Uniforms::layout(),
            UniformValues::Coloured(_) => crate::main_pipe::ColouredUniforms::layout(),
        }
    }
}

/// One command of the recorded stream.
#[derive(Clone, Copy, Debug, PartialEq, Eq)]
pub enum Command {
    /// Allocate the texture; its parameters are in the table of textures.
    NewTexture(Texture),
    /// Create the render pass; its attachments are in the table of passes.
    NewRenderPass(RenderPass),
    /// Delete the render pass and release its attachments.
    DeleteRenderPass(RenderPass),
    /// Build the program; its stages and declarations are in the table of shaders.
    NewShader(Shader),
    /// Build the pipeline; its layout and state are in the table of pipelines.
    NewPipeline(Pipeline),
    /// Allocate and fill the buffer; its kind and geometry are in the table of buffers.
    NewBuffer(Buffer),
    /// Begin a pass into the attachments of `pass`, or into the screen.
    BeginPass { pass: Option<RenderPass>, action: PassAction },
    ApplyPipeline(Pipeline),
    /// Put the buffer into the slot of the bindings under construction.
    BindVertexBuffer { slot: usize, buffer: Buffer },
    /// Make the buffer the index buffer of the bindings under construction.
    BindIndexBuffer(Buffer),
    /// Put the texture into the slot of the bindings under construction.
    BindImage { slot: usize, texture: Texture },
    /// Apply the bindings under construction.
    ApplyBindings,
    ApplyUniforms(UniformValues),
    Draw { base_element: i32, num_elements: i32, num_instances: i32 },
    EndRenderPass,
    CommitFrame,
}

/// Where the recording of a pass stands.
#[derive(Clone, Copy, Debug, PartialEq, Eq)]
pub struct DrawState {
    /// True between the begin and the end of a pass.
    pub recording: bool,
    /// The render pass that is recorded; `None` for the screen.
    pub target: Option<RenderPass>,
    /// The pipeline that was applied last in this pass.
    pub pipeline: Option<Pipeline>,
    /// The length of the index buffer of the bindings that were applied last
    /// under the current pipeline.
    pub index_len: Option<usize>,
    /// True once uniforms were applied under the current pipeline.
    pub uniforms: bool,
}

/// One command per vertex buffer of `bindings`, in slot order.
pub open spec fn bind_vertex_commands(bindings: BindingsView) -> Seq<Command> {
    Seq::new(
        bindings.vertex_buffers.len(),
        |i: int| Command::BindVertexBuffer { slot: i as usize, buffer: bindings.vertex_buffers[i] },
    )
}

/// One command per image of `bindings`, in slot order.
pub open spec fn bind_image_commands(bindings: BindingsView) -> Seq<Command> {
    Seq::new(
        bindings.images.len(),
        |i: int| Command::BindImage { slot: i as usize, texture: bindings.images[i] },
    )
}

/// The commands that apply `bindings`: one per vertex buffer, one for the
/// index buffer, one per image, then the application itself.
pub open spec fn bind_commands(bindings: BindingsView) -> Seq<Command> {
    bind_vertex_commands(bindings) + seq![Command::BindIndexBuffer(bindings.index_buffer)]
        + bind_image_commands(bindings) + seq![Command::ApplyBindings]
}

/// The table of textures after `texture` has been released.
pub open spec fn release(textures: Seq<TextureInfo>, texture: Texture) -> Seq<TextureInfo> {
    if texture.id < textures.len() {
        textures.update(
            texture.id as int,
            TextureInfo { live: false, written: false, ..textures[texture.id as int] },
        )
    } else {
        textures
    }
}

/// The table of textures after the attachments of `pass` have been released.
pub open spec fn release_attachments(textures: Seq<TextureInfo>, pass: PassInfo) -> Seq<TextureInfo> {
    match pass.depth {
        Some(depth) => release(release(textures, pass.color), depth),
        None => release(textures, pass.color),
    }
}

/// The table of textures after a pass into `target` has ended: the colour
/// attachment of the target counts as written.
pub open spec fn mark_written(
    textures: Seq<TextureInfo>,
    passes: Seq<PassInfo>,
    target: Option<RenderPass>,
) -> Seq<TextureInfo> {
    match target {
        Some(pass) => {
            let color = passes[pass.id as int].color;
            textures.update(
                color.id as int,
                TextureInfo { written: true, ..textures[color.id as int] },
            )
        },
        None => textures,
    }
}

/// The table of textures at the start of a frame: nothing is written yet.
pub open spec fn none_written(textures: Seq<TextureInfo>) -> Seq<TextureInfo> {
    Seq::new(textures.len(), |i: int| TextureInfo { written: false, ..textures[i] })
}

/// Number of bytes that the attributes of vertex buffer `buffer` take in a vertex.
pub open spec fn attributes_len(attributes: Seq<VertexAttribute>, buffer: int) -> int
    decreases attributes.len(),
{
    if attributes.len() == 0 {
        0
    } else {
        attributes_len(attributes.drop_last(), buffer) + if attributes.last().buffer_index
            == buffer {
            attributes.last().format.spec_byte_len()
        } else {
            0
        }
    }
}

/// The distance in bytes between two vertices of vertex buffer `buffer`: the
/// stride of its layout, or, where that is zero, the bytes of its attributes.
pub open spec fn vertex_stride(
    buffer_layout: Seq<BufferLayout>,
    attributes: Seq<VertexAttribute>,
    buffer: int,
) -> int {
    if buffer_layout[buffer].stride == 0 {
        attributes_len(attributes, buffer)
    } else {
        buffer_layout[buffer].stride as int
    }
}

/// The vertex layout is one that a device builds a pipeline for: every
/// attribute lies in a vertex buffer of the layout, the attributes of a buffer
/// fit into its stride, and no stride exceeds 255 bytes.
pub open spec fn supported_layout(
    buffer_layout: Seq<BufferLayout>,
    attributes: Seq<VertexAttribute>,
) -> bool {
    &&& forall|a: int|
        0 <= a < attributes.len() ==> (#[trigger] attributes[a]).buffer_index < buffer_layout.len()
    &&& forall|b: int|
        0 <= b < buffer_layout.len() ==> {
            &&& 0 <= (#[trigger] buffer_layout[b]).stride
            &&& attributes_len(attributes, b) <= vertex_stride(buffer_layout, attributes, b) <= 255
        }
}

/// The entry of a texture that was just allocated.
pub open spec fn fresh_texture(width: u32, height: u32, format: TextureFormat) -> TextureInfo {
    TextureInfo { params: TextureParams { width, height, format }, live: true, written: false }
}

/// `new` continues `old`: it holds every entry of `old` at its old index.
pub open spec fn continues<T>(old: Seq<T>, new: Seq<T>) -> bool {
    &&& old.len() <= new.len()
    &&& forall|i: int| 0 <= i < old.len() ==> #[trigger] new[i] == old[i]
}

/// `new` is `old` but for the marks of what was written in the frame.
pub open spec fn same_storage(old: Seq<TextureInfo>, new: Seq<TextureInfo>) -> bool {
    &&& old.len() == new.len()
    &&& forall|i: int|
        0 <= i < old.len() ==> (#[trigger] new[i]).params == old[i].params && new[i].live
            == old[i].live
}

/// Every attribute lies in the first vertex buffer.
pub open spec fn single_buffer(attributes: Seq<VertexAttribute>) -> bool {
    forall|a: int| 0 <= a < attributes.len() ==> (#[trigger] attributes[a]).buffer_index == 0
}

/// The five tables of a context as plain sequences.
pub struct Tables {
    pub textures: Seq<TextureInfo>,
    pub passes: Seq<PassInfo>,
    pub shaders: Seq<ShaderInfoView>,
    pub pipelines: Seq<PipelineInfoView>,
    pub buffers: Seq<BufferInfo>,
}

/// The sizes of the five tables: the ids that the next resources get.
pub struct Ids {
    pub textures: int,
    pub passes: int,
    pub shaders: int,
    pub pipelines: int,
    pub buffers: int,
}

impl Tables {
    /// No entry in any table.
    pub open spec fn empty() -> Tables {
        Tables {
            textures: Seq::empty(),
            passes: Seq::empty(),
            shaders: Seq::empty(),
            pipelines: Seq::empty(),
            buffers: Seq::empty(),
        }
    }

    /// The tables with the entries of `more` after their own, table by table.
    pub open spec fn plus(self, more: Tables) -> Tables {
        Tables {
            textures: self.textures + more.textures,
            passes: self.passes + more.passes,
            shaders: self.shaders + more.shaders,
            pipelines: self.pipelines + more.pipelines,
            buffers: self.buffers + more.buffers,
        }
    }
}

impl Ids {
    /// The ids after the entries of `tables` have been added.
    pub open spec fn after(self, tables: Tables) -> Ids {
        Ids {
            textures: self.textures + tables.textures.len(),
            passes: self.passes + tables.passes.len(),
            shaders: self.shaders + tables.shaders.len(),
            pipelines: self.pipelines + tables.pipelines.len(),
            buffers: self.buffers + tables.buffers.len(),
        }
    }
}

/// The recording device context.
#[derive(Debug)]
pub struct Context {
    pub screen: (u32, u32),
    pub textures: Vec<TextureInfo>,
    pub passes: Vec<PassInfo>,
    pub shaders: Vec<ShaderInfo>,
    pub pipelines: Vec<PipelineInfo>,
    pub buffers: Vec<BufferInfo>,
    pub state: DrawState,
    pub commands: Vec<Command>,
}

/// The state between two passes.
pub open spec fn idle() -> DrawState {
    DrawState { recording: false, target: None, pipeline: None, index_len: None, uniforms: false }
}

impl Context {
    /// The tables are consistent: a pass names textures of the table, a
    /// pipeline names a shader of the table, and the recording state names a
    /// pass and a pipeline of the tables.
    pub open spec fn wf(&self) -> bool {
        &&& forall|p: int|
            0 <= p < self.passes@.len() ==> {
                &&& (#[trigger] self.passes@[p]).color.id < self.textures@.len()
                &&& (self.passes@[p].depth matches Some(d) ==> d.id < self.textures@.len())
            }
        &&& forall|p: int|
            0 <= p < self.pipelines@.len() ==> (#[trigger] self.pipelines@[p]).shader.id
                < self.shaders@.len()
        &&& (self.state.target matches Some(pass) ==> pass.id < self.passes@.len())
        &&& (self.state.pipeline matches Some(pipeline) ==> pipeline.id < self.pipelines@.len())
        &&& (!self.state.recording ==> self.state == idle())
    }

    /// The texture is in the table and has not been released.
    pub open spec fn live_texture(&self, texture: Texture) -> bool {
        &&& texture.id < self.textures@.len()
        &&& self.textures@[texture.id as int].live
    }

    /// The pass is in the table, has not been deleted, and its attachments are live.
    pub open spec fn live_pass(&self, pass: RenderPass) -> bool {
        &&& pass.id < self.passes@.len()
        &&& self.passes@[pass.id as int].live
        &&& self.live_texture(self.passes@[pass.id as int].color)
        &&& (self.passes@[pass.id as int].depth matches Some(d) ==> self.live_texture(d))
    }

    /// The texture can be sampled in the pass that is recorded: it is a live
    /// colour texture, a pass of this frame has written it, and it is not the
    /// colour attachment of the pass's own target.
    pub open spec fn readable(&self, texture: Texture) -> bool {
        &&& self.live_texture(texture)
        &&& self.textures@[texture.id as int].params.format == TextureFormat::RGBA8
        &&& self.textures@[texture.id as int].written
        &&& (self.state.target matches Some(pass) ==> self.passes@[pass.id as int].color != texture)
    }

    /// The declarations of the shader of the pipeline.
    pub open spec fn pipeline_meta(&self, pipeline: Pipeline) -> ShaderMetaView {
        self.shaders@[self.pipelines@[pipeline.id as int].shader.id as int]@.meta
    }

    /// The shaders, pipelines and buffers of `self` are those of `other`, and
    /// the screen has the same size.
    pub open spec fn same_programs(&self, other: &Context) -> bool {
        &&& self.screen == other.screen
        &&& self.shaders == other.shaders
        &&& self.pipelines == other.pipelines
        &&& self.buffers == other.buffers
    }

    /// `self` holds every shader, pipeline and buffer of `other` unchanged.
    pub open spec fn keeps_programs(&self, other: &Context) -> bool {
        &&& continues(other.shaders@, self.shaders@)
        &&& continues(other.pipelines@, self.pipelines@)
        &&& continues(other.buffers@, self.buffers@)
    }

    /// All tables of `self` are those of `other`.
    pub open spec fn same_resources(&self, other: &Context) -> bool {
        &&& self.same_programs(other)
        &&& self.textures == other.textures
        &&& self.passes == other.passes
    }

    /// The table of shaders as plain values.
    pub open spec fn shader_views(&self) -> Seq<ShaderInfoView> {
        Seq::new(self.shaders@.len(), |i: int| self.shaders@[i]@)
    }

    /// The table of pipelines as plain values.
    pub open spec fn pipeline_views(&self) -> Seq<PipelineInfoView> {
        Seq::new(self.pipelines@.len(), |i: int| self.pipelines@[i]@)
    }

    /// The five tables as plain sequences.
    pub open spec fn tables(&self) -> Tables {
        Tables {
            textures: self.textures@,
            passes: self.passes@,
            shaders: self.shader_views(),
            pipelines: self.pipeline_views(),
            buffers: self.buffers@,
        }
    }

    /// The ids that the next resources get.
    pub open spec fn ids(&self) -> Ids {
        Ids {
            textures: self.textures@.len() as int,
            passes: self.passes@.len() as int,
            shaders: self.shaders@.len() as int,
            pipelines: self.pipelines@.len() as int,
            buffers: self.buffers@.len() as int,
        }
    }

    /// `self` has every resource of `old` unchanged, and possibly more.
    pub open spec fn extends(&self, old: &Context) -> bool {
        &&& self.screen == old.screen
        &&& continues(old.textures@, self.textures@)
        &&& continues(old.passes@, self.passes@)
        &&& continues(old.shaders@, self.shaders@)
        &&& continues(old.pipelines@, self.pipelines@)
        &&& continues(old.buffers@, self.buffers@)
    }

    /// The bindings name one vertex buffer and one index buffer of the table,
    /// the latter with `indices` indices.
    pub open spec fn valid_geometry(&self, bindings: BindingsView, indices: int) -> bool {
        &&& bindings.vertex_buffers.len() == 1
        &&& bindings.vertex_buffers[0].id < self.buffers@.len()
        &&& self.buffers@[bindings.vertex_buffers[0].id as int].kind == BufferType::VertexBuffer
        &&& bindings.index_buffer.id < self.buffers@.len()
        &&& self.buffers@[bindings.index_buffer.id as int].kind == BufferType::IndexBuffer
        &&& self.buffers@[bindings.index_buffer.id as int].len == indices
    }

    /// The texture is a live colour texture.
    pub open spec fn colour_texture(&self, texture: Texture) -> bool {
        &&& self.live_texture(texture)
        &&& self.textures@[texture.id as int].params.format == TextureFormat::RGBA8
    }

    /// The texture is the colour or the depth attachment of the pass.
    pub open spec fn attachment(&self, pass: RenderPass, texture: Texture) -> bool {
        &&& pass.id < self.passes@.len()
        &&& (self.passes@[pass.id as int].color == texture || self.passes@[pass.id as int].depth
            == Some(texture))
    }

    /// `self` holds the texture with the size, the format and the liveness
    /// that it has in `other`.
    pub open spec fn keeps_texture(&self, other: &Context, texture: Texture) -> bool {
        texture.id < other.textures@.len() ==> {
            &&& texture.id < self.textures@.len()
            &&& self.textures@[texture.id as int].params == other.textures@[texture.id as int].params
            &&& self.textures@[texture.id as int].live == other.textures@[texture.id as int].live
        }
    }

    /// `self` holds the pass and its attachments as `other` does.
    pub open spec fn keeps_pass(&self, other: &Context, pass: RenderPass) -> bool {
        pass.id < other.passes@.len() ==> {
            &&& pass.id < self.passes@.len()
            &&& self.passes@[pass.id as int] == other.passes@[pass.id as int]
            &&& self.keeps_texture(other, other.passes@[pass.id as int].color)
            &&& (other.passes@[pass.id as int].depth matches Some(d) ==> self.keeps_texture(
                other,
                d,
            ))
        }
    }

    /// `self` is `other` but for the marks of what was written in the frame
    /// and for the stream.
    pub open spec fn same_but_written(&self, other: &Context) -> bool {
        &&& self.same_programs(other)
        &&& self.passes == other.passes
        &&& same_storage(other.textures@, self.textures@)
    }

    /// A context for a screen of the given size, with empty tables and an empty stream.
    pub fn new(width: u32, height: u32) -> (ctx: Context)
        ensures
            ctx.wf(),
            ctx.screen == (width, height),
            ctx.textures@.len() == 0,
            ctx.passes@.len() == 0,
            ctx.shaders@.len() == 0,
            ctx.pipelines@.len() == 0,
            ctx.buffers@.len() == 0,
            ctx.commands@.len() == 0,
            ctx.state == idle(),
    {
        Context {
            screen: (width, height),
            textures: Vec::new(),
            passes: Vec::new(),
            shaders: Vec::new(),
            pipelines: Vec::new(),
            buffers: Vec::new(),
            state: DrawState {
                recording: false,
                target: None,
                pipeline: None,
                index_len: None,
                uniforms: false,
            },
            commands: Vec::new(),
        }
    }

    /// The size of the screen in pixels.
    pub fn screen_size(&self) -> (size: (u32, u32))
        ensures
            size == self.screen,
    {
        self.screen
    }

    /// Tests whether the tables are consistent.
    pub fn check(&self) -> (ok: bool)
        ensures
            ok == self.wf(),
    {
        let mut p: usize = 0;
        while p < self.passes.len()
            invariant
                p <= self.passes@.len(),
                forall|k: int|
                    0 <= k < p ==> {
                        &&& (#[trigger] self.passes@[k]).color.id < self.textures@.len()
                        &&& (self.passes@[k].depth matches Some(d) ==> d.id < self.textures@.len())
                    },
            decreases self.passes@.len() - p,
        {
            let info = self.passes[p];
            if info.color.id >= self.textures.len() {
                return false;
            }
            match info.depth {
                Some(d) => {
                    if d.id >= self.textures.len() {
                        return false;
                    }
                },
                None => {},
            }
            p = p + 1;
        }
        let mut q: usize = 0;
        while q < self.pipelines.len()
            invariant
                q <= self.pipelines@.len(),
                forall|k: int|
                    0 <= k < q ==> (#[trigger] self.pipelines@[k]).shader.id < self.shaders@.len(),
            decreases self.pipelines@.len() - q,
        {
            if self.pipelines[q].shader.id >= self.shaders.len() {
                return false;
            }
            q = q + 1;
        }
        let target_ok = match self.state.target {
            Some(pass) => pass.id < self.passes.len(),
            None => true,
        };
        let pipeline_ok = match self.state.pipeline {
            Some(pipeline) => pipeline.id < self.pipelines.len(),
            None => true,
        };
        let idle_ok = self.state.recording || (self.state.target.is_none()
            && self.state.pipeline.is_none() && self.state.index_len.is_none()
            && !self.state.uniforms);
        target_ok && pipeline_ok && idle_ok
    }

    /// Hands the recorded stream out and starts an empty one. The tables and
    /// the recording state stay as they are.
    pub fn take_commands(&mut self) -> (commands: Vec<Command>)
        ensures
            commands@ == old(self).commands@,
            final(self).commands@.len() == 0,
            final(self).same_resources(old(self)),
            final(self).state == old(self).state,
            old(self).wf() ==> final(self).wf(),
    {
        let mut commands: Vec<Command> = Vec::new();
        std::mem::swap(&mut commands, &mut self.commands);
        commands
    }

    /// Records that the screen has a new size.
    pub fn set_screen_size(&mut self, width: u32, height: u32)
        ensures
            final(self).screen == (width, height),
            final(self).textures == old(self).textures,
            final(self).passes == old(self).passes,
            final(self).shaders == old(self).shaders,
            final(self).pipelines == old(self).pipelines,
            final(self).buffers == old(self).buffers,
            final(self).state == old(self).state,
            final(self).commands == old(self).commands,
    {
        self.screen = (width, height);
    }
}

fn copy_of<T: Copy>(items: &[T]) -> (copy: Vec<T>)
    ensures
        copy@ == items@,
{
    let mut copy: Vec<T> = Vec::new();
    let mut i: usize = 0;
    while i < items.len()
        invariant
            i <= items@.len(),
            copy@ == items@.subrange(0, i as int),
        decreases items@.len() - i,
    {
        copy.push(items[i]);
        i = i + 1;
        assert(copy@ =~= items@.subrange(0, i as int));
    }
    assert(copy@ =~= items@);
    copy
}

impl Texture {
    /// Allocates a texture that a pass can render into.
    pub fn new_render_texture(ctx: &mut Context, params: TextureParams) -> (texture: Texture)
        requires
            old(ctx).wf(),
        ensures
            final(ctx).wf(),
            texture.id == old(ctx).textures@.len(),
            final(ctx).textures@ == old(ctx).textures@.push(
                TextureInfo { params, live: true, written: false },
            ),
            final(ctx).passes == old(ctx).passes,
            final(ctx).same_programs(old(ctx)),
            final(ctx).state == old(ctx).state,
            final(ctx).commands@ == old(ctx).commands@.push(Command::NewTexture(texture)),
    {
        let texture = Texture { id: ctx.textures.len() };
        ctx.textures.push(TextureInfo { params, live: true, written: false });
        ctx.commands.push(Command::NewTexture(texture));
        texture
    }
}

impl RenderPass {
    /// Creates a render pass from a colour texture and an optional depth texture.
    pub fn new(ctx: &mut Context, color_img: Texture, depth_img: Option<Texture>) -> (pass:
        RenderPass)
        requires
            old(ctx).wf(),
            !old(ctx).state.recording,
            old(ctx).live_texture(color_img),
            old(ctx).textures@[color_img.id as int].params.format == TextureFormat::RGBA8,
            depth_img matches Some(d) ==> {
                &&& old(ctx).live_texture(d)
                &&& old(ctx).textures@[d.id as int].params.format == TextureFormat::Depth
            },
        ensures
            final(ctx).wf(),
            pass.id == old(ctx).passes@.len(),
            final(ctx).passes@ == old(ctx).passes@.push(
                PassInfo { color: color_img, depth: depth_img, live: true },
            ),
            final(ctx).live_pass(pass),
            final(ctx).textures == old(ctx).textures,
            final(ctx).same_programs(old(ctx)),
            final(ctx).state == old(ctx).state,
            final(ctx).commands@ == old(ctx).commands@.push(Command::NewRenderPass(pass)),
    {
        let pass = RenderPass { id: ctx.passes.len() };
        ctx.passes.push(PassInfo { color: color_img, depth: depth_img, live: true });
        ctx.commands.push(Command::NewRenderPass(pass));
        pass
    }

    /// Deletes the pass and releases its attachments.
    pub fn delete(&self, ctx: &mut Context)
        requires
            old(ctx).wf(),
            !old(ctx).state.recording,
            self.id < old(ctx).passes@.len(),
            old(ctx).passes@[self.id as int].live,
        ensures
            final(ctx).wf(),
            final(ctx).passes@ == old(ctx).passes@.update(
                self.id as int,
                PassInfo { live: false, ..old(ctx).passes@[self.id as int] },
            ),
            final(ctx).textures@ == release_attachments(
                old(ctx).textures@,
                old(ctx).passes@[self.id as int],
            ),
            final(ctx).same_programs(old(ctx)),
            final(ctx).state == old(ctx).state,
            final(ctx).commands@ == old(ctx).commands@.push(Command::DeleteRenderPass(*self)),
    {
        let info = ctx.passes[self.id];
        ctx.passes.set(self.id, PassInfo { color: info.color, depth: info.depth, live: false });
        let color = ctx.textures[info.color.id];
        ctx.textures.set(
            info.color.id,
            TextureInfo { params: color.params, live: false, written: false },
        );
        match info.depth {
            Some(d) => {
                let depth = ctx.textures[d.id];
                ctx.textures.set(
                    d.id,
                    TextureInfo { params: depth.params, live: false, written: false },
                );
            },
            None => {},
        }
        ctx.commands.push(Command::DeleteRenderPass(*self));
    }
}

impl Shader {
    /// Builds a program from a vertex stage, a fragment stage and what the two declare.
    pub fn new(
        ctx: &mut Context,
        vertex_shader: VertexShader,
        fragment_shader: FragmentShader,
        meta: ShaderMeta,
    ) -> (shader: Shader)
        requires
            old(ctx).wf(),
        ensures
            final(ctx).wf(),
            shader.id == old(ctx).shaders@.len(),
            final(ctx).shaders@ == old(ctx).shaders@.push(
                ShaderInfo { vertex: vertex_shader, fragment: fragment_shader, meta },
            ),
            final(ctx).shader_views() == old(ctx).shader_views().push(
                ShaderInfoView { vertex: vertex_shader, fragment: fragment_shader, meta: meta@ },
            ),
            final(ctx).screen == old(ctx).screen,
            final(ctx).textures == old(ctx).textures,
            final(ctx).passes == old(ctx).passes,
            final(ctx).pipelines == old(ctx).pipelines,
            final(ctx).buffers == old(ctx).buffers,
            final(ctx).state == old(ctx).state,
            final(ctx).commands@ == old(ctx).commands@.push(Command::NewShader(shader)),
    {
        let shader = Shader { id: ctx.shaders.len() };
        let ghost view = ShaderInfoView {
            vertex: vertex_shader,
            fragment: fragment_shader,
            meta: meta@,
        };
        ctx.shaders.push(ShaderInfo { vertex: vertex_shader, fragment: fragment_shader, meta });
        ctx.commands.push(Command::NewShader(shader));
        assert(ctx.shader_views() =~= old(ctx).shader_views().push(view));
        shader
    }
}

impl Pipeline {
    /// Builds a pipeline without depth test and depth write.
    pub fn new(
        ctx: &mut Context,
        buffer_layout: &[BufferLayout],
        attributes: &[VertexAttribute],
        shader: Shader,
    ) -> (pipeline: Pipeline)
        requires
            old(ctx).wf(),
            shader.id < old(ctx).shaders@.len(),
            supported_layout(buffer_layout@, attributes@),
        ensures
            final(ctx).wf(),
            pipeline.id == old(ctx).pipelines@.len(),
            final(ctx).pipelines@.len() == old(ctx).pipelines@.len() + 1,
            final(ctx).pipelines@.drop_last() == old(ctx).pipelines@,
            final(ctx).pipelines@.last()@ == (PipelineInfoView {
                buffer_layout: buffer_layout@,
                attributes: attributes@,
                shader,
                params: PipelineParams { depth_test: Comparison::Always, depth_write: false },
            }),
            final(ctx).pipeline_views() == old(ctx).pipeline_views().push(
                PipelineInfoView {
                    buffer_layout: buffer_layout@,
                    attributes: attributes@,
                    shader,
                    params: PipelineParams { depth_test: Comparison::Always, depth_write: false },
                },
            ),
            final(ctx).screen == old(ctx).screen,
            final(ctx).textures == old(ctx).textures,
            final(ctx).passes == old(ctx).passes,
            final(ctx).shaders == old(ctx).shaders,
            final(ctx).buffers == old(ctx).buffers,
            final(ctx).state == old(ctx).state,
            final(ctx).commands@ == old(ctx).commands@.push(Command::NewPipeline(pipeline)),
    {
        Pipeline::with_params(ctx, buffer_layout, attributes, shader, PipelineParams::default())
    }

    /// Builds a pipeline.
    pub fn with_params(
        ctx: &mut Context,
        buffer_layout: &[BufferLayout],
        attributes: &[VertexAttribute],
        shader: Shader,
        params: PipelineParams,
    ) -> (pipeline: Pipeline)
        requires
            old(ctx).wf(),
            shader.id < old(ctx).shaders@.len(),
            supported_layout(buffer_layout@, attributes@),
        ensures
            final(ctx).wf(),
            pipeline.id == old(ctx).pipelines@.len(),
            final(ctx).pipelines@.len() == old(ctx).pipelines@.len() + 1,
            final(ctx).pipelines@.drop_last() == old(ctx).pipelines@,
            final(ctx).pipelines@.last()@ == (PipelineInfoView {
                buffer_layout: buffer_layout@,
                attributes: attributes@,
                shader,
                params,
            }),
            final(ctx).pipeline_views() == old(ctx).pipeline_views().push(
                PipelineInfoView { buffer_layout: buffer_layout@, attributes: attributes@, shader, params },
            ),
            final(ctx).screen == old(ctx).screen,
            final(ctx).textures == old(ctx).textures,
            final(ctx).passes == old(ctx).passes,
            final(ctx).shaders == old(ctx).shaders,
            final(ctx).buffers == old(ctx).buffers,
            final(ctx).state == old(ctx).state,
            final(ctx).commands@ == old(ctx).commands@.push(Command::NewPipeline(pipeline)),
    {
        let pipeline = Pipeline { id: ctx.pipelines.len() };
        let info = PipelineInfo {
            buffer_layout: copy_of(buffer_layout),
            attributes: copy_of(attributes),
            shader,
            params,
        };
        ctx.pipelines.push(info);
        ctx.commands.push(Command::NewPipeline(pipeline));
        assert(ctx.pipelines@.drop_last() =~= old(ctx).pipelines@);
        assert(ctx.pipeline_views() =~= old(ctx).pipeline_views().push(
            PipelineInfoView { buffer_layout: buffer_layout@, attributes: attributes@, shader, params },
        ));
        pipeline
    }
}

impl Buffer {
    /// Allocates a buffer of `len` elements and fills it from `mesh`.
    pub fn immutable(ctx: &mut Context, buffer_type: BufferType, mesh: Mesh, len: usize) -> (buffer:
        Buffer)
        requires
            old(ctx).wf(),
        ensures
            final(ctx).wf(),
            buffer.id == old(ctx).buffers@.len(),
            final(ctx).buffers@ == old(ctx).buffers@.push(
                BufferInfo { kind: buffer_type, mesh, len },
            ),
            final(ctx).screen == old(ctx).screen,
            final(ctx).textures == old(ctx).textures,
            final(ctx).passes == old(ctx).passes,
            final(ctx).shaders == old(ctx).shaders,
            final(ctx).pipelines == old(ctx).pipelines,
            final(ctx).state == old(ctx).state,
            final(ctx).commands@ == old(ctx).commands@.push(Command::NewBuffer(buffer)),
    {
        let buffer = Buffer { id: ctx.buffers.len() };
        ctx.buffers.push(BufferInfo { kind: buffer_type, mesh, len });
        ctx.commands.push(Command::NewBuffer(buffer));
        buffer
    }
}

impl Context {
    /// The bindings can be applied under the pipeline that was applied last:
    /// they hold a texture for every sampler of its shader, each of them
    /// readable, a vertex buffer for every attribute, and an index buffer.
    pub open spec fn accepts_bindings(&self, bindings: BindingsView) -> bool {
        &&& self.state.recording
        &&& self.state.pipeline is Some
        &&& {
            let pipeline = self.state.pipeline->0;
            let attributes = self.pipelines@[pipeline.id as int]@.attributes;
            let samplers = self.pipeline_meta(pipeline).images;
            &&& samplers.len() <= bindings.images.len()
            &&& forall|i: int|
                0 <= i < samplers.len() ==> self.readable(#[trigger] bindings.images[i])
            &&& forall|a: int|
                0 <= a < attributes.len() ==> (#[trigger] attributes[a]).buffer_index
                    < bindings.vertex_buffers.len()
        }
        &&& forall|v: int|
            0 <= v < bindings.vertex_buffers.len() ==> {
                &&& (#[trigger] bindings.vertex_buffers[v]).id < self.buffers@.len()
                &&& self.buffers@[bindings.vertex_buffers[v].id as int].kind
                    == BufferType::VertexBuffer
            }
        &&& bindings.index_buffer.id < self.buffers@.len()
        &&& self.buffers@[bindings.index_buffer.id as int].kind == BufferType::IndexBuffer
    }

    /// The values fill the uniform block of the pipeline that was applied
    /// last: member by member they have the types that its shader declares.
    pub open spec fn accepts_uniforms(&self, values: UniformValues) -> bool {
        &&& self.state.recording
        &&& self.state.pipeline is Some
        &&& values.layout() == member_types(self.pipeline_meta(self.state.pipeline->0).uniforms)
    }

    /// A draw call of `num_elements` indices from `base_element` on can be
    /// issued: a pipeline and bindings are applied, the uniform block is
    /// filled, and the indices lie in the bound index buffer.
    pub open spec fn accepts_draw(&self, base_element: i32, num_elements: i32) -> bool {
        &&& self.state.recording
        &&& self.state.pipeline is Some
        &&& self.state.index_len is Some
        &&& (self.pipeline_meta(self.state.pipeline->0).uniforms.len() > 0 ==> self.state.uniforms)
        &&& 0 <= base_element
        &&& 0 <= num_elements
        &&& base_element + num_elements <= self.state.index_len->0
    }

    /// Begins a pass into the screen.
    pub fn begin_default_pass(&mut self, action: PassAction)
        requires
            old(self).wf(),
            !old(self).state.recording,
        ensures
            final(self).wf(),
            final(self).same_resources(old(self)),
            final(self).state == (DrawState { recording: true, ..idle() }),
            final(self).commands@ == old(self).commands@.push(
                Command::BeginPass { pass: None, action },
            ),
    {
        self.begin_pass(None, action)
    }

    /// Begins a pass into the attachments of `pass`, or into the screen.
    pub fn begin_pass(&mut self, pass: Option<RenderPass>, action: PassAction)
        requires
            old(self).wf(),
            !old(self).state.recording,
            pass matches Some(p) ==> old(self).live_pass(p),
        ensures
            final(self).wf(),
            final(self).same_resources(old(self)),
            final(self).state == (DrawState { recording: true, target: pass, ..idle() }),
            final(self).commands@ == old(self).commands@.push(Command::BeginPass { pass, action }),
    {
        self.state = DrawState {
            recording: true,
            target: pass,
            pipeline: None,
            index_len: None,
            uniforms: false,
        };
        self.commands.push(Command::BeginPass { pass, action });
    }

    /// Applies a pipeline. Bindings and uniforms that were applied before do
    /// not carry over.
    pub fn apply_pipeline(&mut self, pipeline: &Pipeline)
        requires
            old(self).wf(),
            old(self).state.recording,
            pipeline.id < old(self).pipelines@.len(),
        ensures
            final(self).wf(),
            final(self).same_resources(old(self)),
            final(self).state == (DrawState {
                pipeline: Some(*pipeline),
                index_len: None,
                uniforms: false,
                ..old(self).state
            }),
            final(self).commands@ == old(self).commands@.push(Command::ApplyPipeline(*pipeline)),
    {
        self.state = DrawState {
            recording: self.state.recording,
            target: self.state.target,
            pipeline: Some(*pipeline),
            index_len: None,
            uniforms: false,
        };
        self.commands.push(Command::ApplyPipeline(*pipeline));
    }

    /// Applies the bindings.
    pub fn apply_bindings(&mut self, bindings: &Bindings)
        requires
            old(self).wf(),
            old(self).accepts_bindings(bindings@),
        ensures
            final(self).wf(),
            final(self).same_resources(old(self)),
            final(self).state == (DrawState {
                index_len: Some(old(self).buffers@[bindings.index_buffer.id as int].len),
                ..old(self).state
            }),
            final(self).commands@ == old(self).commands@ + bind_commands(bindings@),
    {
        let ghost before = self.commands@;
        let mut v: usize = 0;
        while v < bindings.vertex_buffers.len()
            invariant
                v <= bindings.vertex_buffers@.len(),
                self.commands@ == before + bind_vertex_commands(bindings@).subrange(0, v as int),
                self.same_resources(old(self)),
                self.state == old(self).state,
            decreases bindings.vertex_buffers@.len() - v,
        {
            self.commands.push(
                Command::BindVertexBuffer { slot: v, buffer: bindings.vertex_buffers[v] },
            );
            v = v + 1;
            assert(self.commands@ =~= before + bind_vertex_commands(bindings@).subrange(0, v as int));
        }
        assert(bind_vertex_commands(bindings@).subrange(0, v as int) =~= bind_vertex_commands(bindings@));
        self.commands.push(Command::BindIndexBuffer(bindings.index_buffer));
        let ghost middle = before + bind_vertex_commands(bindings@) + seq![
            Command::BindIndexBuffer(bindings.index_buffer),
        ];
        assert(self.commands@ =~= middle);
        let mut i: usize = 0;
        while i < bindings.images.len()
            invariant
                i <= bindings.images@.len(),
                self.commands@ == middle + bind_image_commands(bindings@).subrange(0, i as int),
                self.same_resources(old(self)),
                self.state == old(self).state,
            decreases bindings.images@.len() - i,
        {
            self.commands.push(Command::BindImage { slot: i, texture: bindings.images[i] });
            i = i + 1;
            assert(self.commands@ =~= middle + bind_image_commands(bindings@).subrange(0, i as int));
        }
        assert(bind_image_commands(bindings@).subrange(0, i as int) =~= bind_image_commands(bindings@));
        self.commands.push(Command::ApplyBindings);
        assert(self.commands@ =~= before + bind_commands(bindings@));
        self.state = DrawState {
            recording: self.state.recording,
            target: self.state.target,
            pipeline: self.state.pipeline,
            index_len: Some(self.buffers[bindings.index_buffer.id].len),
            uniforms: self.state.uniforms,
        };
    }

    /// Fills the uniform block of the pipeline that was applied last.
    pub fn apply_uniforms(&mut self, values: UniformValues)
        requires
            old(self).wf(),
            old(self).accepts_uniforms(values),
        ensures
            final(self).wf(),
            final(self).same_resources(old(self)),
            final(self).state == (DrawState { uniforms: true, ..old(self).state }),
            final(self).commands@ == old(self).commands@.push(Command::ApplyUniforms(values)),
    {
        self.state = DrawState {
            recording: self.state.recording,
            target: self.state.target,
            pipeline: self.state.pipeline,
            index_len: self.state.index_len,
            uniforms: true,
        };
        self.commands.push(Command::ApplyUniforms(values));
    }

    /// Draws `num_elements` indices of the bound index buffer, from
    /// `base_element` on, `num_instances` times.
    pub fn draw(&mut self, base_element: i32, num_elements: i32, num_instances: i32)
        requires
            old(self).wf(),
            old(self).accepts_draw(base_element, num_elements),
            1 <= num_instances,
        ensures
            final(self).wf(),
            final(self).same_resources(old(self)),
            final(self).state == old(self).state,
            final(self).commands@ == old(self).commands@.push(
                Command::Draw { base_element, num_elements, num_instances },
            ),
    {
        self.commands.push(Command::Draw { base_element, num_elements, num_instances });
    }

    /// Ends the pass. The colour attachment of its target counts as written
    /// until the frame is committed.
    pub fn end_render_pass(&mut self)
        requires
            old(self).wf(),
            old(self).state.recording,
        ensures
            final(self).wf(),
            final(self).same_programs(old(self)),
            final(self).passes == old(self).passes,
            final(self).textures@ == mark_written(
                old(self).textures@,
                old(self).passes@,
                old(self).state.target,
            ),
            final(self).state == idle(),
            final(self).commands@ == old(self).commands@.push(Command::EndRenderPass),
    {
        match self.state.target {
            Some(pass) => {
                let color = self.passes[pass.id].color;
                let info = self.textures[color.id];
                self.textures.set(
                    color.id,
                    TextureInfo { params: info.params, live: info.live, written: true },
                );
            },
            None => {},
        }
        self.state = DrawState {
            recording: false,
            target: None,
            pipeline: None,
            index_len: None,
            uniforms: false,
        };
        self.commands.push(Command::EndRenderPass);
    }

    /// Ends the frame. No texture counts as written any more.
    pub fn commit_frame(&mut self)
        requires
            old(self).wf(),
            !old(self).state.recording,
        ensures
            final(self).wf(),
            final(self).same_programs(old(self)),
            final(self).passes == old(self).passes,
            final(self).textures@ == none_written(old(self).textures@),
            final(self).state == idle(),
            final(self).commands@ == old(self).commands@.push(Command::CommitFrame),
    {
        let mut i: usize = 0;
        while i < self.textures.len()
            invariant
                i <= self.textures@.len(),
                self.textures@.len() == old(self).textures@.len(),
                forall|k: int|
                    0 <= k < i ==> self.textures@[k] == (TextureInfo {
                        written: false,
                        ..old(self).textures@[k]
                    }),
                forall|k: int|
                    i <= k < self.textures@.len() ==> self.textures@[k] == old(self).textures@[k],
                self.same_programs(old(self)),
                self.passes == old(self).passes,
                self.state == old(self).state,
                self.commands == old(self).commands,
            decreases self.textures@.len() - i,
        {
            let info = self.textures[i];
            self.textures.set(
                i,
                TextureInfo { params: info.params, live: info.live, written: false },
            );
            i = i + 1;
        }
        assert(self.textures@ =~= none_written(old(self).textures@));
        self.commands.push(Command::CommitFrame);
    }
}

/// When a pass is replaced (it is deleted with its attachments, and a new
/// pass over new textures is added), every other pass that shares no
/// attachment with it is kept.
pub proof fn lemma_replaced_keeps(
    a: &Context,
    b: &Context,
    replaced: RenderPass,
    added: Seq<TextureInfo>,
    new_pass: PassInfo,
    pass: RenderPass,
)
    requires
        a.wf(),
        replaced.id < a.passes@.len(),
        b.passes@ == a.passes@.update(
            replaced.id as int,
            PassInfo { live: false, ..a.passes@[replaced.id as int] },
        ).push(new_pass),
        b.textures@ == release_attachments(a.textures@ + added, a.passes@[replaced.id as int]),
        pass != replaced,
        !a.attachment(pass, a.passes@[replaced.id as int].color),
        a.passes@[replaced.id as int].depth matches Some(d) ==> !a.attachment(pass, d),
    ensures
        b.keeps_pass(a, pass),
{
}

/// Number of textures that have not been released.
pub open spec fn live_count(textures: Seq<TextureInfo>) -> nat
    decreases textures.len(),
{
    if textures.len() == 0 {
        0
    } else {
        live_count(textures.drop_last()) + if textures.last().live {
            1nat
        } else {
            0nat
        }
    }
}

/// A new texture adds one to the live textures if it is live.
pub proof fn lemma_live_count_push(textures: Seq<TextureInfo>, texture: TextureInfo)
    ensures
        live_count(textures.push(texture)) == live_count(textures) + if texture.live {
            1nat
        } else {
            0nat
        },
{
    assert(textures.push(texture).drop_last() =~= textures);
}

/// Replacing an entry changes the number of live textures by the change of
/// that entry.
pub proof fn lemma_live_count_update(textures: Seq<TextureInfo>, i: int, texture: TextureInfo)
    requires
        0 <= i < textures.len(),
    ensures
        live_count(textures.update(i, texture)) + (if textures[i].live {
            1nat
        } else {
            0nat
        }) == live_count(textures) + if texture.live {
            1nat
        } else {
            0nat
        },
    decreases textures.len(),
{
    if i == textures.len() - 1 {
        assert(textures.update(i, texture).drop_last() =~= textures.drop_last());
    } else {
        lemma_live_count_update(textures.drop_last(), i, texture);
        assert(textures.update(i, texture).drop_last() =~= textures.drop_last().update(
            i,
            texture,
        ));
    }
}

/// Replacing a pass by a pass over two new textures keeps the number of live
/// textures: the two attachments of the old pass are released.
pub proof fn lemma_replacing_keeps_live_count(
    textures: Seq<TextureInfo>,
    pass: PassInfo,
    color: TextureInfo,
    depth: TextureInfo,
)
    requires
        pass.color.id < textures.len(),
        textures[pass.color.id as int].live,
        pass.depth is Some,
        pass.depth->0.id < textures.len(),
        textures[pass.depth->0.id as int].live,
        pass.depth->0 != pass.color,
        color.live,
        depth.live,
    ensures
        live_count(release_attachments(textures + seq![color, depth], pass)) == live_count(
            textures,
        ),
{
    let grown = textures.push(color).push(depth);
    assert(textures + seq![color, depth] =~= grown);
    lemma_live_count_push(textures, color);
    lemma_live_count_push(textures.push(color), depth);
    let first = release(grown, pass.color);
    lemma_live_count_update(
        grown,
        pass.color.id as int,
        TextureInfo { live: false, written: false, ..grown[pass.color.id as int] },
    );
    lemma_live_count_update(
        first,
        pass.depth->0.id as int,
        TextureInfo { live: false, written: false, ..first[pass.depth->0.id as int] },
    );
}

/// Adding entries in two steps is adding them in one.
pub proof fn lemma_plus_twice(a: Tables, b: Tables, c: Tables)
    ensures
        a.plus(b).plus(c) == a.plus(b.plus(c)),
{
    let left = a.plus(b).plus(c);
    let right = a.plus(b.plus(c));
    assert(left.textures =~= right.textures);
    assert(left.passes =~= right.passes);
    assert(left.shaders =~= right.shaders);
    assert(left.pipelines =~= right.pipelines);
    assert(left.buffers =~= right.buffers);
}

/// A context that has gained the entries `more` gives its next resources the
/// ids after `more`.
pub proof fn lemma_ids_after(a: &Context, b: &Context, more: Tables)
    requires
        b.tables() == a.tables().plus(more),
    ensures
        b.ids() == a.ids().after(more),
{
    assert(b.shader_views().len() == b.shaders@.len());
    assert(b.pipeline_views().len() == b.pipelines@.len());
    assert(a.shader_views().len() == a.shaders@.len());
    assert(a.pipeline_views().len() == a.pipelines@.len());
}

} // verus!
