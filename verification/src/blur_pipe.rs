//! Box blur of a 256x256 colour target as two chained passes: a horizontal
//! kernel, then a vertical kernel that reads what the horizontal pass wrote.

use vstd::prelude::*;
use crate::context::{
    Bindings, Buffer, BufferLayout, BufferType, Command, Context, Ids, Mesh, PassInfo, Pipeline,
    PipelineInfoView, PipelineParams, RenderPass, Shader, ShaderInfoView, Tables, Texture,
    TextureInfo, TextureParams, UniformValues, VertexAttribute, attributes_len, bind_commands,
    fresh_texture, idle, single_buffer,
};
use crate::formats::{
    Comparison, PassAction, Resolution, Rgba8, TextureFormat, UniformType, VertexFormat,
};
use crate::quad::{quad_attributes, quad_buffers, quad_verts};
use crate::shader::{
    Attribute, FragmentShader, Sampler, ShaderMeta, ShaderMetaView, UniformBlockLayout,
    UniformDesc, UniformName, VertexShader, member_types,
};

verus! {

/// The uniform block of the box blur.
#[derive(Clone, Copy, Debug, PartialEq, Eq, Structural)]
pub struct Uniforms {
    pub resolution: Resolution,
}

impl Uniforms {
    /// The types of the block's members, in order.
    pub open spec fn layout() -> Seq<UniformType> {
        seq![UniformType::Float2]
    }
}

/// What the two blur programs declare, as plain values.
pub open spec fn meta_view() -> ShaderMetaView {
    ShaderMetaView {
        images: seq![Sampler::Tex],
        uniforms: seq![
            UniformDesc { name: UniformName::Resolution, uniform_type: UniformType::Float2 },
        ],
    }
}

/// What the two blur programs declare: one sampler and the resolution.
pub fn meta() -> (m: ShaderMeta)
    ensures
        m@ == meta_view(),
        member_types(m@.uniforms) == Uniforms::layout(),
{
    let m = ShaderMeta {
        images: vec![Sampler::Tex],
        uniforms: UniformBlockLayout {
            uniforms: vec![UniformDesc::new(UniformName::Resolution, UniformType::Float2)],
        },
    };
    assert(member_types(m@.uniforms) =~= Uniforms::layout());
    assert(m@.images =~= meta_view().images);
    assert(m@.uniforms =~= meta_view().uniforms);
    m
}

/// One pass of the blur: a pipeline over the quad that reads one texture and
/// renders into a 256x256 colour target of its own.
#[derive(Debug)]
pub struct Node {
    pub pass: RenderPass,
    pub pipe: Pipeline,
    pub bind: Bindings,
    pub output: Texture,
}

/// The commands of one blur pass.
pub open spec fn node_commands(node: &Node) -> Seq<Command> {
    seq![
        Command::BeginPass {
            pass: Some(node.pass),
            action: PassAction::Clear { color: Rgba8 { r: 0, g: 0, b: 0, a: 255 } },
        },
        Command::ApplyPipeline(node.pipe),
    ] + bind_commands(node.bind@) + seq![
        Command::ApplyUniforms(
            UniformValues::Blur(Uniforms { resolution: Resolution { width: 256, height: 256 } }),
        ),
        Command::Draw { base_element: 0, num_elements: 6, num_instances: 1 },
        Command::EndRenderPass,
    ]
}

/// The entries that one pass adds to the tables of a context whose next ids
/// are `at`: its target, its pass, its program, its pipeline over the quad,
/// and the two buffers of the quad.
pub open spec fn node_tables(at: Ids, vertex_shader: VertexShader, fragment_shader: FragmentShader) -> Tables {
    Tables {
        textures: seq![fresh_texture(256, 256, TextureFormat::RGBA8)],
        passes: seq![
            PassInfo { color: Texture { id: at.textures as usize }, depth: None, live: true },
        ],
        shaders: seq![
            ShaderInfoView { vertex: vertex_shader, fragment: fragment_shader, meta: meta_view() },
        ],
        pipelines: seq![
            PipelineInfoView {
                buffer_layout: seq![BufferLayout { stride: 0 }],
                attributes: quad_attributes(),
                shader: Shader { id: at.shaders as usize },
                params: PipelineParams { depth_test: Comparison::Always, depth_write: false },
            },
        ],
        buffers: quad_buffers(),
    }
}

/// The commands that create the resources of one blur pass, whose program is `shader`.
pub open spec fn node_resources(node: &Node, shader: Shader) -> Seq<Command> {
    seq![
        Command::NewTexture(node.output),
        Command::NewRenderPass(node.pass),
        Command::NewShader(shader),
        Command::NewPipeline(node.pipe),
        Command::NewBuffer(node.bind@.vertex_buffers[0]),
        Command::NewBuffer(node.bind@.index_buffer),
    ]
}

impl Node {
    /// The texture that the pass reads.
    pub open spec fn input(&self) -> Texture {
        self.bind@.images[0]
    }

    /// The node holds the handles of the resources that a context creates
    /// for it when its next ids are `at`, and it reads `input`.
    pub open spec fn placed(&self, at: Ids, input: Texture) -> bool {
        &&& self.output.id == at.textures
        &&& self.pass.id == at.passes
        &&& self.pipe.id == at.pipelines
        &&& self.bind@.vertex_buffers == seq![Buffer { id: at.buffers as usize }]
        &&& self.bind@.index_buffer == (Buffer { id: (at.buffers + 1) as usize })
        &&& self.bind@.images == seq![input]
    }

    /// The node's resources are in the context as the node built them: its
    /// pass is live and renders into its output alone, its pipeline draws the quad
    /// with a blur program, and its bindings hold the quad and one live
    /// colour texture other than the output.
    pub open spec fn wf(&self, ctx: &Context) -> bool {
        &&& ctx.live_pass(self.pass)
        &&& ctx.passes@[self.pass.id as int].color == self.output
        &&& ctx.passes@[self.pass.id as int].depth is None
        &&& ctx.colour_texture(self.output)
        &&& self.pipe.id < ctx.pipelines@.len()
        &&& single_buffer(ctx.pipelines@[self.pipe.id as int]@.attributes)
        &&& ctx.pipeline_meta(self.pipe).images.len() == 1
        &&& member_types(ctx.pipeline_meta(self.pipe).uniforms) == Uniforms::layout()
        &&& ctx.valid_geometry(self.bind@, 6)
        &&& self.bind@.images.len() == 1
        &&& ctx.colour_texture(self.input())
        &&& self.input() != self.output
    }

    /// Builds the pass: a 256x256 colour target, the program of the two
    /// stages, a pipeline over position and texture coordinate, and the quad.
    pub fn new(
        ctx: &mut Context,
        vertex_shader: VertexShader,
        fragment_shader: FragmentShader,
        input: Texture,
    ) -> (node: Node)
        requires
            old(ctx).wf(),
            !old(ctx).state.recording,
            old(ctx).colour_texture(input),
        ensures
            final(ctx).wf(),
            node.wf(final(ctx)),
            node.placed(old(ctx).ids(), input),
            final(ctx).tables() == old(ctx).tables().plus(
                node_tables(old(ctx).ids(), vertex_shader, fragment_shader),
            ),
            final(ctx).extends(old(ctx)),
            final(ctx).state == old(ctx).state,
            final(ctx).commands@ == old(ctx).commands@ + node_resources(
                &node,
                Shader { id: old(ctx).shaders@.len() as usize },
            ),
    {
        let color_img = Texture::new_render_texture(
            ctx,
            TextureParams { width: 256, height: 256, format: TextureFormat::RGBA8 },
        );
        let pass = RenderPass::new(ctx, color_img, None);
        let shader = Shader::new(ctx, vertex_shader, fragment_shader, meta());
        let layout = [BufferLayout::default()];
        let attributes = [
            VertexAttribute::new(Attribute::Pos, VertexFormat::Float2),
            VertexAttribute::new(Attribute::Uv, VertexFormat::Float2),
        ];
        proof {
            reveal_with_fuel(attributes_len, 3);
        }
        let pipe = Pipeline::new(ctx, layout.as_slice(), attributes.as_slice(), shader);
        let (vertices, indices) = quad_verts();
        let vertex_buffer = Buffer::immutable(
            ctx,
            BufferType::VertexBuffer,
            Mesh::Quad,
            vertices.len(),
        );
        let index_buffer = Buffer::immutable(ctx, BufferType::IndexBuffer, Mesh::Quad, indices.len());
        let bind = Bindings {
            vertex_buffers: vec![vertex_buffer],
            index_buffer,
            images: vec![input],
        };
        assert(ctx.commands@ =~= old(ctx).commands@ + seq![
            Command::NewTexture(color_img),
            Command::NewRenderPass(pass),
            Command::NewShader(shader),
            Command::NewPipeline(pipe),
            Command::NewBuffer(vertex_buffer),
            Command::NewBuffer(index_buffer),
        ]);
        proof {
            assert(layout@ =~= seq![BufferLayout { stride: 0 }]);
            assert(attributes@ =~= quad_attributes());
            assert(bind@.vertex_buffers =~= seq![vertex_buffer]);
            assert(bind@.images =~= seq![input]);
            let more = node_tables(old(ctx).ids(), vertex_shader, fragment_shader);
            assert(ctx.textures@ =~= old(ctx).textures@ + more.textures);
            assert(ctx.passes@ =~= old(ctx).passes@ + more.passes);
            assert(ctx.shader_views() =~= old(ctx).shader_views() + more.shaders);
            assert(ctx.pipeline_views() =~= old(ctx).pipeline_views() + more.pipelines);
            assert(ctx.buffers@ =~= old(ctx).buffers@ + more.buffers);
        }
        Node { pass, pipe, bind, output: color_img }
    }

    /// Records the pass: clear to opaque black, draw the quad once.
    pub fn draw(&self, ctx: &mut Context)
        requires
            old(ctx).wf(),
            self.wf(old(ctx)),
            !old(ctx).state.recording,
            old(ctx).textures@[self.input().id as int].written,
        ensures
            final(ctx).wf(),
            final(ctx).same_programs(old(ctx)),
            final(ctx).passes == old(ctx).passes,
            final(ctx).textures@ == old(ctx).textures@.update(
                self.output.id as int,
                TextureInfo { written: true, ..old(ctx).textures@[self.output.id as int] },
            ),
            final(ctx).state == idle(),
            final(ctx).commands@ == old(ctx).commands@ + node_commands(self),
    {
        ctx.begin_pass(Some(self.pass), PassAction::clear_color(0, 0, 0, 255));
        ctx.apply_pipeline(&self.pipe);
        ctx.apply_bindings(&self.bind);
        ctx.apply_uniforms(
            UniformValues::Blur(Uniforms { resolution: Resolution { width: 256, height: 256 } }),
        );
        ctx.draw(0, 6, 1);
        ctx.end_render_pass();
        assert(ctx.commands@ =~= old(ctx).commands@ + node_commands(self));
    }

    /// The texture that the pass renders into.
    pub fn get_output(&self) -> (texture: Texture)
        ensures
            texture == self.output,
    {
        self.output
    }
}

/// The box blur: a horizontal pass, then a vertical pass over its output.
#[derive(Debug)]
pub struct BlurPipe {
    pub horiz: Node,
    pub vert: Node,
    pub output: Texture,
}

/// The entries that the two passes of the blur add to the tables of a
/// context whose next ids are `at`: those of the horizontal pass, then those
/// of the vertical pass.
pub open spec fn blur_tables(at: Ids) -> Tables {
    let horizontal = node_tables(at, VertexShader::Quad, FragmentShader::BlurHorizontal);
    horizontal.plus(
        node_tables(at.after(horizontal), VertexShader::Quad, FragmentShader::BlurVertical),
    )
}

impl BlurPipe {
    /// The texture that the blur reads.
    pub open spec fn input(&self) -> Texture {
        self.horiz.input()
    }

    /// The blur holds the handles of the resources that a context creates
    /// for it when its next ids are `at`, and it reads `input`.
    pub open spec fn placed(&self, at: Ids, input: Texture) -> bool {
        &&& self.horiz.placed(at, input)
        &&& self.vert.placed(
            at.after(node_tables(at, VertexShader::Quad, FragmentShader::BlurHorizontal)),
            self.horiz.output,
        )
        &&& self.output == self.vert.output
    }

    /// Both passes are well formed, the vertical pass reads what the
    /// horizontal pass writes, and the blur's output is that of the vertical
    /// pass.
    pub open spec fn wf(&self, ctx: &Context) -> bool {
        &&& self.horiz.wf(ctx)
        &&& self.vert.wf(ctx)
        &&& self.vert.input() == self.horiz.output
        &&& self.output == self.vert.output
    }

    /// Builds the two passes of a blur of `input`.
    pub fn new(ctx: &mut Context, input: Texture) -> (pipe: BlurPipe)
        requires
            old(ctx).wf(),
            !old(ctx).state.recording,
            old(ctx).colour_texture(input),
        ensures
            final(ctx).wf(),
            pipe.wf(final(ctx)),
            pipe.placed(old(ctx).ids(), input),
            final(ctx).tables() == old(ctx).tables().plus(blur_tables(old(ctx).ids())),
            final(ctx).extends(old(ctx)),
            final(ctx).state == old(ctx).state,
            final(ctx).commands@ == old(ctx).commands@ + node_resources(
                &pipe.horiz,
                Shader { id: old(ctx).shaders@.len() as usize },
            ) + node_resources(&pipe.vert, Shader { id: (old(ctx).shaders@.len() + 1) as usize }),
    {
        let horiz = Node::new(ctx, VertexShader::Quad, FragmentShader::BlurHorizontal, input);
        let vert = Node::new(
            ctx,
            VertexShader::Quad,
            FragmentShader::BlurVertical,
            horiz.get_output(),
        );
        let output = vert.get_output();
        proof {
            let more = blur_tables(old(ctx).ids());
            assert(ctx.textures@ =~= old(ctx).textures@ + more.textures);
            assert(ctx.passes@ =~= old(ctx).passes@ + more.passes);
            assert(ctx.shader_views() =~= old(ctx).shader_views() + more.shaders);
            assert(ctx.pipeline_views() =~= old(ctx).pipeline_views() + more.pipelines);
            assert(ctx.buffers@ =~= old(ctx).buffers@ + more.buffers);
        }
        BlurPipe { horiz, vert, output }
    }

    /// Records the horizontal pass, then the vertical pass.
    pub fn draw(&self, ctx: &mut Context)
        requires
            old(ctx).wf(),
            self.wf(old(ctx)),
            !old(ctx).state.recording,
            old(ctx).textures@[self.input().id as int].written,
        ensures
            final(ctx).wf(),
            final(ctx).same_programs(old(ctx)),
            final(ctx).passes == old(ctx).passes,
            final(ctx).textures@ == old(ctx).textures@.update(
                self.horiz.output.id as int,
                TextureInfo { written: true, ..old(ctx).textures@[self.horiz.output.id as int] },
            ).update(
                self.output.id as int,
                TextureInfo { written: true, ..old(ctx).textures@[self.output.id as int] },
            ),
            final(ctx).state == idle(),
            final(ctx).commands@ == old(ctx).commands@ + node_commands(&self.horiz)
                + node_commands(&self.vert),
    {
        self.horiz.draw(ctx);
        self.vert.draw(ctx);
    }

    /// The texture that holds the blurred image.
    pub fn get_output(&self) -> (texture: Texture)
        ensures
            texture == self.output,
    {
        self.output
    }
}

} // verus!
