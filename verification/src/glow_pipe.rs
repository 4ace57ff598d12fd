//! The glow pass: the scene as flat silhouettes on black in a 256x256 target,
//! bloomed by a box blur and composited over the main scene later.

use vstd::prelude::*;
use crate::blur_pipe::{BlurPipe, blur_tables, node_commands, node_resources};
use crate::context::{
    Bindings, BindingsView, BufferLayout, Command, Context, Ids, PassInfo, Pipeline,
    PipelineInfoView, PipelineParams, RenderPass, Shader, ShaderInfoView, Tables, Texture,
    TextureParams, UniformValues, VertexAttribute, attributes_len, bind_commands, fresh_texture,
    idle, same_storage, single_buffer,
};
use crate::formats::{Comparison, PassAction, Rgba8, TextureFormat, UniformType, VertexFormat};
use crate::matrix::{Matrix, MatrixRef};
use crate::objects::{ColouredObject, Object, all_coloured_fit, all_fit};
use crate::shader::{
    Attribute, FragmentShader, ShaderMeta, ShaderMetaView, UniformBlockLayout, UniformDesc,
    UniformName, VertexShader, member_types,
};

verus! {

/// The uniform block of the glow pass.
#[derive(Clone, Copy, Debug, PartialEq, Eq, Structural)]
pub struct Uniforms {
    /// Takes a local position to the camera's clip space.
    pub mvp: Matrix,
    /// The fill colour of the silhouette.
    pub colour: Rgba8,
}

impl Uniforms {
    /// The types of the block's members, in order.
    pub open spec fn layout() -> Seq<UniformType> {
        seq![UniformType::Mat4, UniformType::Float4]
    }
}

/// What the glow program declares, as plain values.
pub open spec fn meta_view() -> ShaderMetaView {
    ShaderMetaView {
        images: Seq::<crate::shader::Sampler>::empty(),
        uniforms: seq![
                UniformDesc { name: UniformName::Mvp, uniform_type: UniformType::Mat4 },
                UniformDesc { name: UniformName::Colour, uniform_type: UniformType::Float4 },
            ],
    }
}

/// What the glow program declares: no sampler, a matrix and a colour.
pub fn meta() -> (m: ShaderMeta)
    ensures
        m@ == meta_view(),
        member_types(m@.uniforms) == Uniforms::layout(),
{
    let m = ShaderMeta {
        images: vec![],
        uniforms: UniformBlockLayout {
            uniforms: vec![
                UniformDesc::new(UniformName::Mvp, UniformType::Mat4),
                UniformDesc::new(UniformName::Colour, UniformType::Float4),
            ],
        },
    };
    assert(member_types(m@.uniforms) =~= Uniforms::layout());
    assert(m@.images =~= meta_view().images);
    assert(m@.uniforms =~= meta_view().uniforms);
    m
}

/// The glow pass with its blur.
#[derive(Debug)]
pub struct GlowPipe {
    pub pass: RenderPass,
    pub pipe: Pipeline,
    pub blur_pipe: BlurPipe,
    pub output: Texture,
}

/// The uniform block of an object that does not glow: a black silhouette.
pub open spec fn object_uniforms(object: Object, model: MatrixRef, view_proj: MatrixRef) -> UniformValues {
    UniformValues::Glow(
        Uniforms {
            mvp: Matrix::Product3(view_proj, model, object.model),
            colour: Rgba8 { r: 0, g: 0, b: 0, a: 255 },
        },
    )
}

/// The uniform block of a coloured object: a silhouette in its colour.
pub open spec fn coloured_uniforms(
    object: ColouredObject,
    model: MatrixRef,
    view_proj: MatrixRef,
) -> UniformValues {
    UniformValues::Glow(
        Uniforms {
            mvp: Matrix::Product3(view_proj, model, object.object.model),
            colour: object.colour,
        },
    )
}

/// Two commands per object, in list order: its uniform block, then its draw call.
pub open spec fn object_commands(objects: Seq<Object>, model: MatrixRef, view_proj: MatrixRef) -> Seq<
    Command,
> {
    Seq::new(
        2 * objects.len(),
        |i: int|
            if i % 2 == 0 {
                Command::ApplyUniforms(object_uniforms(objects[i / 2], model, view_proj))
            } else {
                Command::Draw {
                    base_element: objects[i / 2].start,
                    num_elements: objects[i / 2].end,
                    num_instances: 1,
                }
            },
    )
}

/// Two commands per coloured object, in list order: its uniform block, then
/// its draw call.
pub open spec fn coloured_commands(
    objects: Seq<ColouredObject>,
    model: MatrixRef,
    view_proj: MatrixRef,
) -> Seq<Command> {
    Seq::new(
        2 * objects.len(),
        |i: int|
            if i % 2 == 0 {
                Command::ApplyUniforms(coloured_uniforms(objects[i / 2], model, view_proj))
            } else {
                Command::Draw {
                    base_element: objects[i / 2].object.start,
                    num_elements: objects[i / 2].object.end,
                    num_instances: 1,
                }
            },
    )
}

/// The commands of the pass that renders the silhouettes, before the blur.
pub open spec fn silhouette_commands(
    pipe: &GlowPipe,
    bind: BindingsView,
    objects: Seq<Object>,
    coloured_objects: Seq<ColouredObject>,
    model: MatrixRef,
    view_proj: MatrixRef,
) -> Seq<Command> {
    seq![
        Command::BeginPass {
            pass: Some(pipe.pass),
            action: PassAction::Clear { color: Rgba8 { r: 0, g: 0, b: 0, a: 255 } },
        },
        Command::ApplyPipeline(pipe.pipe),
    ] + bind_commands(bind) + object_commands(objects, model, view_proj) + coloured_commands(
        coloured_objects,
        model,
        view_proj,
    ) + seq![Command::EndRenderPass]
}

/// The entries that the glow pass itself adds to the tables of a context
/// whose next ids are `at`: a 256x256 colour target with its depth
/// attachment, the pass over the two, the glow program, and a pipeline over
/// the position of a 36-byte vertex that tests and writes depth.
pub open spec fn target_tables(at: Ids) -> Tables {
    Tables {
        textures: seq![
            fresh_texture(256, 256, TextureFormat::RGBA8),
            fresh_texture(256, 256, TextureFormat::Depth),
        ],
        passes: seq![
            PassInfo {
                color: Texture { id: at.textures as usize },
                depth: Some(Texture { id: (at.textures + 1) as usize }),
                live: true,
            },
        ],
        shaders: seq![
            ShaderInfoView {
                vertex: VertexShader::Flat,
                fragment: FragmentShader::Flat,
                meta: meta_view(),
            },
        ],
        pipelines: seq![
            PipelineInfoView {
                buffer_layout: seq![BufferLayout { stride: 36 }],
                attributes: seq![
                    VertexAttribute {
                        name: Attribute::Pos,
                        format: VertexFormat::Float3,
                        buffer_index: 0,
                    },
                ],
                shader: Shader { id: at.shaders as usize },
                params: PipelineParams { depth_test: Comparison::LessOrEqual, depth_write: true },
            },
        ],
        buffers: Seq::empty(),
    }
}

/// The entries that the pipe adds to the tables of a context whose next ids
/// are `at`: those of the glow pass, then those of its blur.
pub open spec fn pipe_tables(at: Ids) -> Tables {
    target_tables(at).plus(blur_tables(at.after(target_tables(at))))
}

/// The commands that create the resources of the pipe: the target with its
/// depth attachment `depth`, the program `shader` and the pipeline, then the
/// resources of the two passes of the blur, whose programs follow `shader`.
pub open spec fn resources(pipe: &GlowPipe, depth: Texture, shader: Shader) -> Seq<Command> {
    seq![
        Command::NewTexture(pipe.target()),
        Command::NewTexture(depth),
        Command::NewRenderPass(pipe.pass),
        Command::NewShader(shader),
        Command::NewPipeline(pipe.pipe),
    ] + node_resources(&pipe.blur_pipe.horiz, Shader { id: (shader.id + 1) as usize })
        + node_resources(&pipe.blur_pipe.vert, Shader { id: (shader.id + 2) as usize })
}

impl GlowPipe {
    /// The texture that the pass renders the silhouettes into.
    pub open spec fn target(&self) -> Texture {
        self.blur_pipe.input()
    }

    /// The depth attachment of the target: the texture created right after it.
    pub open spec fn depth(&self) -> Texture {
        Texture { id: (self.target().id + 1) as usize }
    }

    /// The pipe holds the handles of the resources that a context creates
    /// for it when its next ids are `at`.
    pub open spec fn placed(&self, at: Ids) -> bool {
        &&& self.pass.id == at.passes
        &&& self.pipe.id == at.pipelines
        &&& self.blur_pipe.placed(
            at.after(target_tables(at)),
            Texture { id: at.textures as usize },
        )
        &&& self.output == self.blur_pipe.output
    }

    /// The texture is an attachment of one of the three passes of the pipe.
    pub open spec fn owns_texture(&self, ctx: &Context, texture: Texture) -> bool {
        ||| ctx.attachment(self.pass, texture)
        ||| ctx.attachment(self.blur_pipe.horiz.pass, texture)
        ||| ctx.attachment(self.blur_pipe.vert.pass, texture)
    }

    /// The pass is one of the three passes of the pipe.
    pub open spec fn owns_pass(&self, pass: RenderPass) -> bool {
        ||| pass == self.pass
        ||| pass == self.blur_pipe.horiz.pass
        ||| pass == self.blur_pipe.vert.pass
    }

    /// The pass is live and renders into the texture that the blur reads and
    /// into its depth attachment, the
    /// pipeline runs the flat program over positions, the blur is well
    /// formed, and the output is the blur's output.
    #[verifier::opaque]
    pub open spec fn wf(&self, ctx: &Context) -> bool {
        &&& ctx.live_pass(self.pass)
        &&& ctx.passes@[self.pass.id as int].color == self.target()
        &&& ctx.passes@[self.pass.id as int].depth == Some(self.depth())
        &&& self.pipe.id < ctx.pipelines@.len()
        &&& single_buffer(ctx.pipelines@[self.pipe.id as int]@.attributes)
        &&& ctx.pipeline_meta(self.pipe).images.len() == 0
        &&& member_types(ctx.pipeline_meta(self.pipe).uniforms) == Uniforms::layout()
        &&& self.blur_pipe.wf(ctx)
        &&& self.output == self.blur_pipe.output
    }

    /// A well-formed pipe stays well formed in a context that has the same
    /// programs and keeps the three passes of the pipe.
    pub proof fn lemma_wf_kept(&self, a: &Context, b: &Context)
        requires
            a.wf(),
            self.wf(a),
            b.keeps_programs(a),
            b.keeps_pass(a, self.pass),
            b.keeps_pass(a, self.blur_pipe.horiz.pass),
            b.keeps_pass(a, self.blur_pipe.vert.pass),
        ensures
            self.wf(b),
    {
        reveal(GlowPipe::wf);
    }

    /// The three passes of a well-formed pipe are live, the two of the blur
    /// have no depth attachment, the last of them renders into the output,
    /// and the output is a live colour texture.
    pub proof fn lemma_wf_output(&self, ctx: &Context)
        requires
            self.wf(ctx),
        ensures
            ctx.live_pass(self.pass),
            ctx.live_pass(self.blur_pipe.horiz.pass),
            ctx.live_pass(self.blur_pipe.vert.pass),
            ctx.passes@[self.pass.id as int].color == self.target(),
            ctx.passes@[self.pass.id as int].depth == Some(self.depth()),
            ctx.passes@[self.blur_pipe.horiz.pass.id as int].color == self.blur_pipe.horiz.output,
            ctx.passes@[self.blur_pipe.vert.pass.id as int].color == self.output,
            ctx.passes@[self.blur_pipe.horiz.pass.id as int].depth is None,
            ctx.passes@[self.blur_pipe.vert.pass.id as int].depth is None,
            ctx.colour_texture(self.output),
    {
        reveal(GlowPipe::wf);
    }

    /// Builds the pass: a 256x256 colour target with a depth attachment, the
    /// flat program, a pipeline over the position of a 36-byte vertex with
    /// depth test and depth write, and a box blur over the target.
    pub fn new(ctx: &mut Context) -> (pipe: GlowPipe)
        requires
            old(ctx).wf(),
            !old(ctx).state.recording,
        ensures
            final(ctx).wf(),
            pipe.wf(final(ctx)),
            pipe.placed(old(ctx).ids()),
            final(ctx).tables() == old(ctx).tables().plus(pipe_tables(old(ctx).ids())),
            final(ctx).extends(old(ctx)),
            final(ctx).state == old(ctx).state,
            final(ctx).commands@ == old(ctx).commands@ + resources(
                &pipe,
                Texture { id: (old(ctx).textures@.len() + 1) as usize },
                Shader { id: old(ctx).shaders@.len() as usize },
            ),
    {
        proof {
            reveal(GlowPipe::wf);
        }
        let color_img = Texture::new_render_texture(
            ctx,
            TextureParams { width: 256, height: 256, format: TextureFormat::RGBA8 },
        );
        let depth_img = Texture::new_render_texture(
            ctx,
            TextureParams { width: 256, height: 256, format: TextureFormat::Depth },
        );
        let pass = RenderPass::new(ctx, color_img, Some(depth_img));
        let shader = Shader::new(ctx, VertexShader::Flat, FragmentShader::Flat, meta());
        let layout = [BufferLayout { stride: 36 }];
        let attributes = [VertexAttribute::new(Attribute::Pos, VertexFormat::Float3)];
        proof {
            reveal_with_fuel(attributes_len, 2);
        }
        let pipe = Pipeline::with_params(
            ctx,
            layout.as_slice(),
            attributes.as_slice(),
            shader,
            PipelineParams { depth_test: Comparison::LessOrEqual, depth_write: true },
        );
        let ghost own = target_tables(old(ctx).ids());
        proof {
            assert(layout@ =~= own.pipelines[0].buffer_layout);
            assert(attributes@ =~= own.pipelines[0].attributes);
            assert(ctx.textures@ =~= old(ctx).textures@ + own.textures);
            assert(ctx.passes@ =~= old(ctx).passes@ + own.passes);
            assert(ctx.shader_views() =~= old(ctx).shader_views() + own.shaders);
            assert(ctx.pipeline_views() =~= old(ctx).pipeline_views() + own.pipelines);
            assert(ctx.buffers@ =~= old(ctx).buffers@ + own.buffers);
        }
        assert(ctx.commands@ =~= old(ctx).commands@ + seq![
            Command::NewTexture(color_img),
            Command::NewTexture(depth_img),
            Command::NewRenderPass(pass),
            Command::NewShader(shader),
            Command::NewPipeline(pipe),
        ]);
        let blur_pipe = BlurPipe::new(ctx, color_img);
        let output = blur_pipe.get_output();
        proof {
            let more = pipe_tables(old(ctx).ids());
            assert(ctx.textures@ =~= old(ctx).textures@ + more.textures);
            assert(ctx.passes@ =~= old(ctx).passes@ + more.passes);
            assert(ctx.shader_views() =~= old(ctx).shader_views() + more.shaders);
            assert(ctx.pipeline_views() =~= old(ctx).pipeline_views() + more.pipelines);
            assert(ctx.buffers@ =~= old(ctx).buffers@ + more.buffers);
        }
        GlowPipe { pass, pipe, blur_pipe, output }
    }

    /// Records the glow pass and its blur. The pass clears to opaque black,
    /// draws every object in black and every coloured object in its colour,
    /// each with the transform `view_proj * model * object.model`, and ends;
    /// the blur follows.
    pub fn draw(
        &self,
        ctx: &mut Context,
        bind: &Bindings,
        objects: &Vec<Object>,
        coloured_objects: &Vec<ColouredObject>,
        model: MatrixRef,
        view_proj: MatrixRef,
    )
        requires
            old(ctx).wf(),
            self.wf(old(ctx)),
            !old(ctx).state.recording,
            old(ctx).valid_geometry(
                bind@,
                old(ctx).buffers@[bind@.index_buffer.id as int].len as int,
            ),
            all_fit(objects@, old(ctx).buffers@[bind@.index_buffer.id as int].len as int),
            all_coloured_fit(
                coloured_objects@,
                old(ctx).buffers@[bind@.index_buffer.id as int].len as int,
            ),
        ensures
            final(ctx).wf(),
            final(ctx).same_programs(old(ctx)),
            final(ctx).passes == old(ctx).passes,
            same_storage(old(ctx).textures@, final(ctx).textures@),
            forall|t: int|
                0 <= t < old(ctx).textures@.len() ==> (#[trigger] final(ctx).textures@[t]).written
                    == (old(ctx).textures@[t].written || t == self.target().id || t
                    == self.blur_pipe.horiz.output.id || t == self.output.id),
            final(ctx).state == idle(),
            final(ctx).commands@ == old(ctx).commands@ + silhouette_commands(
                self,
                bind@,
                objects@,
                coloured_objects@,
                model,
                view_proj,
            ) + node_commands(&self.blur_pipe.horiz) + node_commands(&self.blur_pipe.vert),
    {
        proof {
            reveal(GlowPipe::wf);
        }
        ctx.begin_pass(Some(self.pass), PassAction::clear_color(0, 0, 0, 255));
        ctx.apply_pipeline(&self.pipe);
        ctx.apply_bindings(bind);
        let ghost head = ctx.commands@;
        let mut k: usize = 0;
        while k < objects.len()
            invariant
                k <= objects@.len(),
                ctx.wf(),
                ctx.same_resources(old(ctx)),
                ctx.state.recording,
                ctx.state.target == Some(self.pass),
                ctx.state.pipeline == Some(self.pipe),
                ctx.state.index_len == Some(old(ctx).buffers@[bind@.index_buffer.id as int].len),
                self.wf(old(ctx)),
                all_fit(objects@, old(ctx).buffers@[bind@.index_buffer.id as int].len as int),
                ctx.commands@ == head + object_commands(objects@.take(k as int), model, view_proj),
            decreases objects@.len() - k,
        {
            proof {
                reveal(GlowPipe::wf);
            }
            let obj = objects[k];
            ctx.apply_uniforms(
                UniformValues::Glow(
                    Uniforms {
                        mvp: Matrix::Product3(view_proj, model, obj.model),
                        colour: Rgba8::new(0, 0, 0, 255),
                    },
                ),
            );
            ctx.draw(obj.start, obj.end, 1);
            k = k + 1;
            assert(ctx.commands@ =~= head + object_commands(
                objects@.take(k as int),
                model,
                view_proj,
            ));
        }
        assert(objects@.take(k as int) =~= objects@);
        let ghost middle = ctx.commands@;
        let mut c: usize = 0;
        while c < coloured_objects.len()
            invariant
                c <= coloured_objects@.len(),
                ctx.wf(),
                ctx.same_resources(old(ctx)),
                ctx.state.recording,
                ctx.state.target == Some(self.pass),
                ctx.state.pipeline == Some(self.pipe),
                ctx.state.index_len == Some(old(ctx).buffers@[bind@.index_buffer.id as int].len),
                self.wf(old(ctx)),
                all_coloured_fit(
                    coloured_objects@,
                    old(ctx).buffers@[bind@.index_buffer.id as int].len as int,
                ),
                ctx.commands@ == middle + coloured_commands(
                    coloured_objects@.take(c as int),
                    model,
                    view_proj,
                ),
            decreases coloured_objects@.len() - c,
        {
            proof {
                reveal(GlowPipe::wf);
            }
            let obj = coloured_objects[c];
            ctx.apply_uniforms(
                UniformValues::Glow(
                    Uniforms {
                        mvp: Matrix::Product3(view_proj, model, obj.object.model),
                        colour: obj.colour,
                    },
                ),
            );
            ctx.draw(obj.object.start, obj.object.end, 1);
            c = c + 1;
            assert(ctx.commands@ =~= middle + coloured_commands(
                coloured_objects@.take(c as int),
                model,
                view_proj,
            ));
        }
        assert(coloured_objects@.take(c as int) =~= coloured_objects@);
        ctx.end_render_pass();
        assert(ctx.commands@ =~= old(ctx).commands@ + silhouette_commands(
            self,
            bind@,
            objects@,
            coloured_objects@,
            model,
            view_proj,
        ));
        self.blur_pipe.draw(ctx);
    }

    /// The texture that holds the blurred silhouettes.
    pub fn get_output(&self) -> (texture: Texture)
        ensures
            texture == self.output,
    {
        self.output
    }
}

} // verus!
