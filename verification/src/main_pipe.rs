//! The main pass: the lit scene, attenuated by the shadow map, and the flat
//! tinted objects, drawn into one screen-sized target.

use vstd::prelude::*;
use crate::context::{
    Bindings, BindingsView, BufferLayout, Command, Context, Ids, PassInfo, Pipeline,
    PipelineInfoView, PipelineParams, RenderPass, Shader, ShaderInfoView, Tables, Texture,
    TextureInfo, TextureParams, UniformValues, VertexAttribute, attributes_len, bind_commands,
    fresh_texture, idle, lemma_replacing_keeps_live_count, live_count, release_attachments,
    single_buffer,
};
use crate::formats::{Comparison, PassAction, Rgba8, TextureFormat, UniformType, VertexFormat};
use crate::matrix::{Matrix, MatrixRef, VectorRef};
use crate::objects::{ColouredObject, Object, all_coloured_fit, all_fit};
use crate::shader::{
    Attribute, FragmentShader, Sampler, ShaderMeta, ShaderMetaView, UniformBlockLayout,
    UniformDesc, UniformName, VertexShader, member_types,
};

verus! {

/// The matrix that takes a normal from local to view space, for an object
/// whose positions `scene_model * object` takes there: the inverse transpose
/// of the upper 3x3.
pub fn normal_matrix(scene_model: MatrixRef, object: MatrixRef) -> (m: Matrix)
    ensures
        m == Matrix::Normal(scene_model, object),
{
    Matrix::Normal(scene_model, object)
}

/// The uniform block of the lit pipeline.
#[derive(Clone, Copy, Debug, PartialEq, Eq, Structural)]
pub struct Uniforms {
    pub model: Matrix,
    pub proj: Matrix,
    pub normal_matrix: Matrix,
    pub light_pos: VectorRef,
    pub light_mv: Matrix,
    pub light_proj: Matrix,
}

impl Uniforms {
    /// The types of the block's members, in order.
    pub open spec fn layout() -> Seq<UniformType> {
        seq![
            UniformType::Mat4,
            UniformType::Mat4,
            UniformType::Mat4,
            UniformType::Float4,
            UniformType::Mat4,
            UniformType::Mat4,
        ]
    }
}

/// What the lit program declares, as plain values.
pub open spec fn meta_view() -> ShaderMetaView {
    ShaderMetaView {
        images: seq![Sampler::ShadowMap],
        uniforms: seq![
            UniformDesc { name: UniformName::Model, uniform_type: UniformType::Mat4 },
            UniformDesc { name: UniformName::Proj, uniform_type: UniformType::Mat4 },
            UniformDesc { name: UniformName::NormalMatrix, uniform_type: UniformType::Mat4 },
            UniformDesc { name: UniformName::LightPos, uniform_type: UniformType::Float4 },
            UniformDesc { name: UniformName::LightMv, uniform_type: UniformType::Mat4 },
            UniformDesc { name: UniformName::LightProj, uniform_type: UniformType::Mat4 },
        ],
    }
}

/// What the lit program declares: the shadow map and the block of [`Uniforms`].
pub fn meta() -> (m: ShaderMeta)
    ensures
        m@ == meta_view(),
        member_types(m@.uniforms) == Uniforms::layout(),
{
    let m = ShaderMeta {
        images: vec![Sampler::ShadowMap],
        uniforms: UniformBlockLayout {
            uniforms: vec![
                UniformDesc::new(UniformName::Model, UniformType::Mat4),
                UniformDesc::new(UniformName::Proj, UniformType::Mat4),
                UniformDesc::new(UniformName::NormalMatrix, UniformType::Mat4),
                UniformDesc::new(UniformName::LightPos, UniformType::Float4),
                UniformDesc::new(UniformName::LightMv, UniformType::Mat4),
                UniformDesc::new(UniformName::LightProj, UniformType::Mat4),
            ],
        },
    };
    assert(member_types(m@.uniforms) =~= Uniforms::layout());
    assert(m@.images =~= meta_view().images);
    assert(m@.uniforms =~= meta_view().uniforms);
    m
}

/// The uniform block of the flat tinted pipeline.
#[derive(Clone, Copy, Debug, PartialEq, Eq, Structural)]
pub struct ColouredUniforms {
    pub mvp: Matrix,
    pub colour: Rgba8,
}

impl ColouredUniforms {
    /// The types of the block's members, in order.
    pub open spec fn layout() -> Seq<UniformType> {
        seq![UniformType::Mat4, UniformType::Float4]
    }
}

/// What the flat tinted program declares, as plain values.
pub open spec fn coloured_meta_view() -> ShaderMetaView {
    ShaderMetaView {
        images: Seq::empty(),
        uniforms: seq![
            UniformDesc { name: UniformName::Mvp, uniform_type: UniformType::Mat4 },
            UniformDesc { name: UniformName::Colour, uniform_type: UniformType::Float4 },
        ],
    }
}

/// What the flat tinted program declares: no sampler, a matrix and a colour.
pub fn coloured_meta() -> (m: ShaderMeta)
    ensures
        m@ == coloured_meta_view(),
        member_types(m@.uniforms) == ColouredUniforms::layout(),
{
    let m = ShaderMeta {
        images: vec![],
        uniforms: UniformBlockLayout {
            uniforms: vec![
                UniformDesc::new(UniformName::Mvp, UniformType::Mat4),
                UniformDesc::new(UniformName::Colour, UniformType::Float4),
            ],
        },
    };
    assert(member_types(m@.uniforms) =~= ColouredUniforms::layout());
    assert(m@.images =~= coloured_meta_view().images);
    assert(m@.uniforms =~= coloured_meta_view().uniforms);
    m
}

/// The main pass: one screen-sized target with a depth attachment, a lit
/// pipeline and a flat tinted pipeline.
#[derive(Debug)]
pub struct MainPipe {
    pub pass: RenderPass,
    pub pipe: Pipeline,
    pub coloured_pipe: Pipeline,
    pub output: Texture,
}

/// The matrices and the light of a frame, as the main pass takes them.
#[derive(Clone, Copy, Debug, PartialEq, Eq, Structural)]
pub struct Lighting {
    pub scene_model: MatrixRef,
    pub light_pos: VectorRef,
    pub view_proj: MatrixRef,
    pub light_view: MatrixRef,
    pub light_proj: MatrixRef,
}

/// The uniform block of one lit object.
pub open spec fn object_uniforms(object: Object, frame: Lighting) -> UniformValues {
    UniformValues::Main(
        Uniforms {
            model: Matrix::Product2(frame.scene_model, object.model),
            proj: Matrix::Slot(frame.view_proj),
            normal_matrix: Matrix::Normal(frame.scene_model, object.model),
            light_pos: frame.light_pos,
            light_mv: Matrix::Product3(frame.light_view, frame.scene_model, object.model),
            light_proj: Matrix::Slot(frame.light_proj),
        },
    )
}

/// The uniform block of one flat tinted object.
pub open spec fn coloured_uniforms(object: ColouredObject, frame: Lighting) -> UniformValues {
    UniformValues::Coloured(
        ColouredUniforms {
            mvp: Matrix::Product3(frame.view_proj, frame.scene_model, object.object.model),
            colour: object.colour,
        },
    )
}

/// Two commands per lit object, in list order: its uniform block, then its draw call.
pub open spec fn object_commands(objects: Seq<Object>, frame: Lighting) -> Seq<Command> {
    Seq::new(
        2 * objects.len(),
        |i: int|
            if i % 2 == 0 {
                Command::ApplyUniforms(object_uniforms(objects[i / 2], frame))
            } else {
                Command::Draw {
                    base_element: objects[i / 2].start,
                    num_elements: objects[i / 2].end,
                    num_instances: 1,
                }
            },
    )
}

/// Two commands per flat tinted object, in list order: its uniform block, then
/// its draw call.
pub open spec fn coloured_commands(objects: Seq<ColouredObject>, frame: Lighting) -> Seq<Command> {
    Seq::new(
        2 * objects.len(),
        |i: int|
            if i % 2 == 0 {
                Command::ApplyUniforms(coloured_uniforms(objects[i / 2], frame))
            } else {
                Command::Draw {
                    base_element: objects[i / 2].object.start,
                    num_elements: objects[i / 2].object.end,
                    num_instances: 1,
                }
            },
    )
}

/// The commands of the main pass: the lit objects under the lit pipeline, then
/// the tinted objects under the flat pipeline, into the same target and
/// without a second clear.
pub open spec fn main_commands(
    pipe: &MainPipe,
    bind: BindingsView,
    objects: Seq<Object>,
    coloured_objects: Seq<ColouredObject>,
    frame: Lighting,
) -> Seq<Command> {
    seq![
        Command::BeginPass {
            pass: Some(pipe.pass),
            action: PassAction::Clear { color: Rgba8 { r: 0, g: 0, b: 0, a: 0 } },
        },
        Command::ApplyPipeline(pipe.pipe),
    ] + bind_commands(bind) + object_commands(objects, frame) + seq![
        Command::ApplyPipeline(pipe.coloured_pipe),
    ] + bind_commands(bind) + coloured_commands(coloured_objects, frame) + seq![
        Command::EndRenderPass,
    ]
}

/// The attributes that the lit pipeline reads of a vertex: position, colour
/// and normal.
pub open spec fn lit_attributes() -> Seq<VertexAttribute> {
    seq![
        VertexAttribute { name: Attribute::Pos, format: VertexFormat::Float3, buffer_index: 0 },
        VertexAttribute { name: Attribute::Color0, format: VertexFormat::Float4, buffer_index: 0 },
        VertexAttribute { name: Attribute::Normal, format: VertexFormat::Float3, buffer_index: 0 },
    ]
}

/// The entries that the pipe adds to the tables of a context whose next ids
/// are `at`: a colour target of the size `screen` with its depth attachment,
/// the pass over the two, the lit program with a pipeline over position,
/// colour and normal of a 48-byte vertex, and the flat program with a pipeline
/// over the position of the same vertex; both pipelines test and write depth.
pub open spec fn pipe_tables(at: Ids, screen: (u32, u32)) -> Tables {
    Tables {
        textures: seq![
            fresh_texture(screen.0, screen.1, TextureFormat::RGBA8),
            fresh_texture(screen.0, screen.1, TextureFormat::Depth),
        ],
        passes: seq![
            PassInfo {
                color: Texture { id: at.textures as usize },
                depth: Some(Texture { id: (at.textures + 1) as usize }),
                live: true,
            },
        ],
        shaders: seq![
            ShaderInfoView {
                vertex: VertexShader::Lit,
                fragment: FragmentShader::Lit,
                meta: meta_view(),
            },
            ShaderInfoView {
                vertex: VertexShader::Flat,
                fragment: FragmentShader::Flat,
                meta: coloured_meta_view(),
            },
        ],
        pipelines: seq![
            PipelineInfoView {
                buffer_layout: seq![BufferLayout { stride: 48 }],
                attributes: lit_attributes(),
                shader: Shader { id: at.shaders as usize },
                params: PipelineParams { depth_test: Comparison::LessOrEqual, depth_write: true },
            },
            PipelineInfoView {
                buffer_layout: seq![BufferLayout { stride: 48 }],
                attributes: seq![
                    VertexAttribute {
                        name: Attribute::Pos,
                        format: VertexFormat::Float3,
                        buffer_index: 0,
                    },
                ],
                shader: Shader { id: (at.shaders + 1) as usize },
                params: PipelineParams { depth_test: Comparison::LessOrEqual, depth_write: true },
            },
        ],
        buffers: Seq::empty(),
    }
}

/// The commands that create the resources of the pipe: the target with its
/// depth attachment `depth`, the lit program `shader` with its pipeline, and
/// the flat program, which follows `shader`, with its pipeline.
pub open spec fn resources(pipe: &MainPipe, depth: Texture, shader: Shader) -> Seq<Command> {
    seq![
        Command::NewTexture(pipe.output),
        Command::NewTexture(depth),
        Command::NewRenderPass(pipe.pass),
        Command::NewShader(shader),
        Command::NewPipeline(pipe.pipe),
        Command::NewShader(Shader { id: (shader.id + 1) as usize }),
        Command::NewPipeline(pipe.coloured_pipe),
    ]
}

impl MainPipe {
    /// The depth attachment of the target.
    pub open spec fn depth(&self, ctx: &Context) -> Texture {
        ctx.passes@[self.pass.id as int].depth->0
    }

    /// Width and height of the target.
    pub open spec fn size(&self, ctx: &Context) -> (u32, u32) {
        (
            ctx.textures@[self.output.id as int].params.width,
            ctx.textures@[self.output.id as int].params.height,
        )
    }

    /// The pipe holds the handles of the resources that a context creates
    /// for it when its next ids are `at`.
    pub open spec fn placed(&self, at: Ids) -> bool {
        &&& self.output.id == at.textures
        &&& self.pass.id == at.passes
        &&& self.pipe.id == at.pipelines
        &&& self.coloured_pipe.id == at.pipelines + 1
    }

    /// The pass is live and renders into the output and a depth attachment of
    /// the same size, the lit pipeline samples one texture and takes the
    /// block of [`Uniforms`], the flat pipeline samples none and takes the
    /// block of [`ColouredUniforms`].
    #[verifier::opaque]
    pub open spec fn wf(&self, ctx: &Context) -> bool {
        &&& ctx.live_pass(self.pass)
        &&& ctx.passes@[self.pass.id as int].color == self.output
        &&& ctx.colour_texture(self.output)
        &&& ctx.passes@[self.pass.id as int].depth is Some
        &&& self.depth(ctx) != self.output
        &&& ctx.textures@[self.depth(ctx).id as int].params == (TextureParams {
            format: TextureFormat::Depth,
            ..ctx.textures@[self.output.id as int].params
        })
        &&& self.pipe.id < ctx.pipelines@.len()
        &&& single_buffer(ctx.pipelines@[self.pipe.id as int]@.attributes)
        &&& ctx.pipeline_meta(self.pipe).images.len() == 1
        &&& member_types(ctx.pipeline_meta(self.pipe).uniforms) == Uniforms::layout()
        &&& self.coloured_pipe.id < ctx.pipelines@.len()
        &&& single_buffer(ctx.pipelines@[self.coloured_pipe.id as int]@.attributes)
        &&& ctx.pipeline_meta(self.coloured_pipe).images.len() == 0
        &&& member_types(ctx.pipeline_meta(self.coloured_pipe).uniforms)
            == ColouredUniforms::layout()
    }

    /// A well-formed pipe stays well formed in a context that has the same
    /// programs and keeps the pass.
    pub proof fn lemma_wf_kept(&self, a: &Context, b: &Context)
        requires
            a.wf(),
            self.wf(a),
            b.keeps_programs(a),
            b.keeps_pass(a, self.pass),
        ensures
            self.wf(b),
            self.size(b) == self.size(a),
            self.depth(b) == self.depth(a),
    {
        reveal(MainPipe::wf);
    }

    /// The pass of a well-formed pipe is live and renders into the output, a
    /// live colour texture, and into a depth attachment.
    pub proof fn lemma_wf_output(&self, ctx: &Context)
        requires
            self.wf(ctx),
        ensures
            ctx.live_pass(self.pass),
            ctx.passes@[self.pass.id as int].color == self.output,
            ctx.passes@[self.pass.id as int].depth is Some,
            ctx.colour_texture(self.output),
    {
        reveal(MainPipe::wf);
    }

    /// Builds the pass: a colour target of the size of the screen with a
    /// depth attachment, the lit program with a pipeline over position,
    /// colour and normal of a 48-byte vertex, and the flat program with a
    /// pipeline over the position of the same vertex; both pipelines test and
    /// write depth.
    pub fn new(ctx: &mut Context) -> (pipe: MainPipe)
        requires
            old(ctx).wf(),
            !old(ctx).state.recording,
        ensures
            final(ctx).wf(),
            pipe.wf(final(ctx)),
            pipe.placed(old(ctx).ids()),
            pipe.size(final(ctx)) == old(ctx).screen,
            pipe.depth(final(ctx)).id == old(ctx).textures@.len() + 1,
            final(ctx).tables() == old(ctx).tables().plus(
                pipe_tables(old(ctx).ids(), old(ctx).screen),
            ),
            final(ctx).extends(old(ctx)),
            final(ctx).state == old(ctx).state,
            final(ctx).commands@ == old(ctx).commands@ + resources(
                &pipe,
                pipe.depth(final(ctx)),
                Shader { id: old(ctx).shaders@.len() as usize },
            ),
    {
        proof {
            reveal(MainPipe::wf);
        }
        let (w, h) = ctx.screen_size();
        let color_img = Texture::new_render_texture(
            ctx,
            TextureParams { width: w, height: h, format: TextureFormat::RGBA8 },
        );
        let depth_img = Texture::new_render_texture(
            ctx,
            TextureParams { width: w, height: h, format: TextureFormat::Depth },
        );
        let pass = RenderPass::new(ctx, color_img, Some(depth_img));
        let shader = Shader::new(ctx, VertexShader::Lit, FragmentShader::Lit, meta());
        let layout = [BufferLayout { stride: 48 }];
        let attributes = [
            VertexAttribute::new(Attribute::Pos, VertexFormat::Float3),
            VertexAttribute::new(Attribute::Color0, VertexFormat::Float4),
            VertexAttribute::new(Attribute::Normal, VertexFormat::Float3),
        ];
        proof {
            reveal_with_fuel(attributes_len, 4);
        }
        let pipe = Pipeline::with_params(
            ctx,
            layout.as_slice(),
            attributes.as_slice(),
            shader,
            PipelineParams { depth_test: Comparison::LessOrEqual, depth_write: true },
        );
        let shader = Shader::new(ctx, VertexShader::Flat, FragmentShader::Flat, coloured_meta());
        let coloured_attributes = [VertexAttribute::new(Attribute::Pos, VertexFormat::Float3)];
        let coloured_pipe = Pipeline::with_params(
            ctx,
            layout.as_slice(),
            coloured_attributes.as_slice(),
            shader,
            PipelineParams { depth_test: Comparison::LessOrEqual, depth_write: true },
        );
        proof {
            let more = pipe_tables(old(ctx).ids(), old(ctx).screen);
            assert(layout@ =~= seq![BufferLayout { stride: 48 }]);
            assert(attributes@ =~= lit_attributes());
            assert(coloured_attributes@ =~= more.pipelines[1].attributes);
            assert(ctx.textures@ =~= old(ctx).textures@ + more.textures);
            assert(ctx.passes@ =~= old(ctx).passes@ + more.passes);
            assert(ctx.shader_views() =~= old(ctx).shader_views() + more.shaders);
            assert(ctx.pipeline_views() =~= old(ctx).pipeline_views() + more.pipelines);
            assert(ctx.buffers@ =~= old(ctx).buffers@ + more.buffers);
        }
        assert(ctx.commands@ =~= old(ctx).commands@ + seq![
            Command::NewTexture(color_img),
            Command::NewTexture(depth_img),
            Command::NewRenderPass(pass),
            Command::NewShader(Shader { id: old(ctx).shaders@.len() as usize }),
            Command::NewPipeline(pipe),
            Command::NewShader(Shader { id: (old(ctx).shaders@.len() + 1) as usize }),
            Command::NewPipeline(coloured_pipe),
        ]);
        MainPipe { pass, pipe, coloured_pipe, output: color_img }
    }

    /// Replaces the target by one of the new size. The old pass is deleted and
    /// its attachments are released, so a binding of the old output dangles:
    /// who holds one must bind [`MainPipe::get_output`] anew.
    pub fn resize(&mut self, ctx: &mut Context, width: u32, height: u32)
        requires
            old(ctx).wf(),
            old(self).wf(old(ctx)),
            !old(ctx).state.recording,
        ensures
            final(ctx).wf(),
            final(self).wf(final(ctx)),
            final(self).size(final(ctx)) == (width, height),
            final(self).pipe == old(self).pipe,
            final(self).coloured_pipe == old(self).coloured_pipe,
            final(self).output.id == old(ctx).textures@.len(),
            final(self).depth(final(ctx)).id == old(ctx).textures@.len() + 1,
            final(self).pass.id == old(ctx).passes@.len(),
            !final(ctx).live_texture(old(self).output),
            !final(ctx).live_texture(old(self).depth(old(ctx))),
            live_count(final(ctx).textures@) == live_count(old(ctx).textures@),
            final(ctx).same_programs(old(ctx)),
            final(ctx).textures@ == release_attachments(
                old(ctx).textures@ + seq![
                    fresh_texture(width, height, TextureFormat::RGBA8),
                    fresh_texture(width, height, TextureFormat::Depth),
                ],
                old(ctx).passes@[old(self).pass.id as int],
            ),
            final(ctx).passes@ == old(ctx).passes@.update(
                old(self).pass.id as int,
                PassInfo { live: false, ..old(ctx).passes@[old(self).pass.id as int] },
            ).push(
                PassInfo {
                    color: final(self).output,
                    depth: Some(final(self).depth(final(ctx))),
                    live: true,
                },
            ),
            final(ctx).state == old(ctx).state,
            final(ctx).commands@ == old(ctx).commands@ + seq![
                Command::NewTexture(final(self).output),
                Command::NewTexture(final(self).depth(final(ctx))),
                Command::NewRenderPass(final(self).pass),
                Command::DeleteRenderPass(old(self).pass),
            ],
    {
        proof {
            reveal(MainPipe::wf);
        }
        proof {
            lemma_replacing_keeps_live_count(
                ctx.textures@,
                ctx.passes@[self.pass.id as int],
                fresh_texture(width, height, TextureFormat::RGBA8),
                fresh_texture(width, height, TextureFormat::Depth),
            );
        }
        let color_img = Texture::new_render_texture(
            ctx,
            TextureParams { width, height, format: TextureFormat::RGBA8 },
        );
        let depth_img = Texture::new_render_texture(
            ctx,
            TextureParams { width, height, format: TextureFormat::Depth },
        );
        let pass = RenderPass::new(ctx, color_img, Some(depth_img));
        self.pass.delete(ctx);
        self.pass = pass;
        self.output = color_img;
        assert(ctx.textures@ =~= release_attachments(
            old(ctx).textures@ + seq![
                fresh_texture(width, height, TextureFormat::RGBA8),
                fresh_texture(width, height, TextureFormat::Depth),
            ],
            old(ctx).passes@[old(self).pass.id as int],
        ));
        assert(ctx.passes@ =~= old(ctx).passes@.update(
            old(self).pass.id as int,
            PassInfo { live: false, ..old(ctx).passes@[old(self).pass.id as int] },
        ).push(PassInfo { color: color_img, depth: Some(depth_img), live: true }));
        assert(ctx.commands@ =~= old(ctx).commands@ + seq![
            Command::NewTexture(color_img),
            Command::NewTexture(depth_img),
            Command::NewRenderPass(pass),
            Command::DeleteRenderPass(old(self).pass),
        ]);
    }

    /// Records the main pass. The pass clears to transparent black, draws
    /// every object lit, with the shadow map in the first image of `bind`,
    /// then every coloured object flat, and ends.
    pub fn draw(
        &self,
        ctx: &mut Context,
        bind: &Bindings,
        objects: &Vec<Object>,
        coloured_objects: &Vec<ColouredObject>,
        scene_model: MatrixRef,
        light_pos: VectorRef,
        view_proj: MatrixRef,
        light_view: MatrixRef,
        light_proj: MatrixRef,
    )
        requires
            old(ctx).wf(),
            self.wf(old(ctx)),
            !old(ctx).state.recording,
            old(ctx).valid_geometry(
                bind@,
                old(ctx).buffers@[bind@.index_buffer.id as int].len as int,
            ),
            bind@.images.len() >= 1,
            old(ctx).colour_texture(bind@.images[0]),
            old(ctx).textures@[bind@.images[0].id as int].written,
            bind@.images[0] != self.output,
            all_fit(objects@, old(ctx).buffers@[bind@.index_buffer.id as int].len as int),
            all_coloured_fit(
                coloured_objects@,
                old(ctx).buffers@[bind@.index_buffer.id as int].len as int,
            ),
        ensures
            final(ctx).wf(),
            final(ctx).same_programs(old(ctx)),
            final(ctx).passes == old(ctx).passes,
            final(ctx).textures@ == old(ctx).textures@.update(
                self.output.id as int,
                TextureInfo { written: true, ..old(ctx).textures@[self.output.id as int] },
            ),
            final(ctx).state == idle(),
            final(ctx).commands@ == old(ctx).commands@ + main_commands(
                self,
                bind@,
                objects@,
                coloured_objects@,
                (Lighting { scene_model, light_pos, view_proj, light_view, light_proj }),
            ),
    {
        proof {
            reveal(MainPipe::wf);
        }
        let frame = Lighting { scene_model, light_pos, view_proj, light_view, light_proj };
        ctx.begin_pass(Some(self.pass), PassAction::clear_color(0, 0, 0, 0));
        ctx.apply_pipeline(&self.pipe);
        ctx.apply_bindings(bind);
        let ghost head = ctx.commands@;
        let mut k: usize = 0;
        while k < objects.len()
            invariant
                k <= objects@.len(),
                ctx.wf(),
                ctx.same_resources(old(ctx)),
                ctx.state.recording,
                ctx.state.target == Some(self.pass),
                ctx.state.pipeline == Some(self.pipe),
                ctx.state.index_len == Some(old(ctx).buffers@[bind@.index_buffer.id as int].len),
                self.wf(old(ctx)),
                all_fit(objects@, old(ctx).buffers@[bind@.index_buffer.id as int].len as int),
                ctx.commands@ == head + object_commands(objects@.take(k as int), frame),
            decreases objects@.len() - k,
        {
            proof {
                reveal(MainPipe::wf);
            }
            let obj = objects[k];
            ctx.apply_uniforms(
                UniformValues::Main(
                    Uniforms {
                        model: Matrix::Product2(frame.scene_model, obj.model),
                        proj: Matrix::Slot(frame.view_proj),
                        normal_matrix: normal_matrix(frame.scene_model, obj.model),
                        light_pos: frame.light_pos,
                        light_mv: Matrix::Product3(frame.light_view, frame.scene_model, obj.model),
                        light_proj: Matrix::Slot(frame.light_proj),
                    },
                ),
            );
            ctx.draw(obj.start, obj.end, 1);
            k = k + 1;
            assert(ctx.commands@ =~= head + object_commands(objects@.take(k as int), frame));
        }
        assert(objects@.take(k as int) =~= objects@);
        ctx.apply_pipeline(&self.coloured_pipe);
        ctx.apply_bindings(bind);
        let ghost middle = ctx.commands@;
        let mut c: usize = 0;
        while c < coloured_objects.len()
            invariant
                c <= coloured_objects@.len(),
                ctx.wf(),
                ctx.same_resources(old(ctx)),
                ctx.state.recording,
                ctx.state.target == Some(self.pass),
                ctx.state.pipeline == Some(self.coloured_pipe),
                ctx.state.index_len == Some(old(ctx).buffers@[bind@.index_buffer.id as int].len),
                self.wf(old(ctx)),
                all_coloured_fit(
                    coloured_objects@,
                    old(ctx).buffers@[bind@.index_buffer.id as int].len as int,
                ),
                ctx.commands@ == middle + coloured_commands(
                    coloured_objects@.take(c as int),
                    frame,
                ),
            decreases coloured_objects@.len() - c,
        {
            proof {
                reveal(MainPipe::wf);
            }
            let obj = coloured_objects[c];
            ctx.apply_uniforms(
                UniformValues::Coloured(
                    ColouredUniforms {
                        mvp: Matrix::Product3(frame.view_proj, frame.scene_model, obj.object.model),
                        colour: obj.colour,
                    },
                ),
            );
            ctx.draw(obj.object.start, obj.object.end, 1);
            c = c + 1;
            assert(ctx.commands@ =~= middle + coloured_commands(
                coloured_objects@.take(c as int),
                frame,
            ));
        }
        assert(coloured_objects@.take(c as int) =~= coloured_objects@);
        ctx.end_render_pass();
        assert(ctx.commands@ =~= old(ctx).commands@ + main_commands(
            self,
            bind@,
            objects@,
            coloured_objects@,
            frame,
        ));
    }

    /// The texture that holds the rendered scene.
    pub fn get_output(&self) -> (texture: Texture)
        ensures
            texture == self.output,
    {
        self.output
    }
}

} // verus!
