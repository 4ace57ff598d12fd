//! The frame: the passes in dependency order, and what a resize does to them.
//!
//! A frame renders the shadow map and blurs it, renders the main scene with
//! the shadow map bound, renders the glow and blurs it, and composites to the
//! screen. Every pass reads only textures that an earlier pass of the same
//! frame has written; the contracts of the context hold each pass to that.

use vstd::prelude::*;
use crate::context::{
    Bindings, BindingsView, Buffer, BufferLayout, BufferType, Command, Context, Ids, Mesh,
    Pipeline, PipelineInfoView, PipelineParams, Shader, ShaderInfoView, Tables, Texture,
    VertexAttribute, attributes_len, bind_commands, fresh_texture, idle, lemma_ids_after,
    lemma_plus_twice, lemma_replaced_keeps, none_written, single_buffer,
};
use crate::formats::{Comparison, PassAction, TextureFormat, VertexFormat};
use crate::glow_pipe::GlowPipe;
use crate::main_pipe::{Lighting, MainPipe};
use crate::matrix::{MatrixRef, VectorRef};
use crate::objects::{
    CUBE_INDICES, CUBOIDS, ColouredObject, Object, all_coloured_fit, all_fit, bindings_at,
    coloured_cubes, cube_bindings, cube_tables, cubes, scene_coloured, scene_objects,
};
use crate::quad::{quad_attributes, quad_buffers, quad_verts};
use crate::shader::{Attribute, FragmentShader, ShaderMeta, ShaderMetaView, VertexShader};
use crate::shadow_pipe::ShadowPipe;

verus! {

/// A pipeline over the quad with the bindings that it is drawn with.
#[derive(Debug)]
pub struct PipeBind {
    pub pipe: Pipeline,
    pub bind: Bindings,
}

impl PipeBind {
    /// The pipeline and its bindings hold the handles of the resources that
    /// a context creates for them when its next ids are `at`, and the
    /// bindings hold `images`.
    pub open spec fn placed(&self, at: Ids, images: Seq<Texture>) -> bool {
        &&& self.pipe.id == at.pipelines
        &&& self.bind@ == bindings_at(at, images)
    }

    /// The pipeline draws the quad, samples one texture per image of the
    /// bindings and takes no uniform; the images are live colour textures.
    pub open spec fn wf(&self, ctx: &Context) -> bool {
        &&& self.pipe.id < ctx.pipelines@.len()
        &&& single_buffer(ctx.pipelines@[self.pipe.id as int]@.attributes)
        &&& ctx.pipeline_meta(self.pipe).images.len() == self.bind@.images.len()
        &&& ctx.pipeline_meta(self.pipe).uniforms.len() == 0
        &&& ctx.valid_geometry(self.bind@, 6)
        &&& forall|i: int|
            0 <= i < self.bind@.images.len() ==> ctx.colour_texture(#[trigger] self.bind@.images[i])
    }
}

/// The commands that create a pipeline over the quad, whose program is `shader`.
pub open spec fn quad_resources(pipe: &PipeBind, shader: Shader) -> Seq<Command> {
    seq![
        Command::NewBuffer(pipe.bind@.vertex_buffers[0]),
        Command::NewBuffer(pipe.bind@.index_buffer),
        Command::NewShader(shader),
        Command::NewPipeline(pipe.pipe),
    ]
}

/// The commands of a pass that draws the quad to the screen.
pub open spec fn composite_commands(pipe: &PipeBind) -> Seq<Command> {
    seq![
        Command::BeginPass { pass: None, action: PassAction::Nothing },
        Command::ApplyPipeline(pipe.pipe),
    ] + bind_commands(pipe.bind@) + seq![
        Command::Draw { base_element: 0, num_elements: 6, num_instances: 1 },
        Command::EndRenderPass,
    ]
}

/// The entries that a pipeline over the quad adds to the tables of a context
/// whose next ids are `at`: the two buffers of the quad, the program of the
/// quad's vertex stage and `fragment_shader`, which declares `meta`, and a
/// pipeline over position and texture coordinate without depth test.
pub open spec fn quad_tables(at: Ids, fragment_shader: FragmentShader, meta: ShaderMetaView) -> Tables {
    Tables {
        shaders: seq![ShaderInfoView { vertex: VertexShader::Quad, fragment: fragment_shader, meta }],
        pipelines: seq![
            PipelineInfoView {
                buffer_layout: seq![BufferLayout { stride: 0 }],
                attributes: quad_attributes(),
                shader: Shader { id: at.shaders as usize },
                params: PipelineParams { depth_test: Comparison::Always, depth_write: false },
            },
        ],
        buffers: quad_buffers(),
        ..Tables::empty()
    }
}

fn quad_pipe(
    ctx: &mut Context,
    fragment_shader: FragmentShader,
    meta: ShaderMeta,
    images: Vec<Texture>,
) -> (pipe: PipeBind)
    requires
        old(ctx).wf(),
        meta@.images.len() == images@.len(),
        meta@.uniforms.len() == 0,
        forall|i: int| 0 <= i < images@.len() ==> old(ctx).colour_texture(#[trigger] images@[i]),
    ensures
        final(ctx).wf(),
        pipe.wf(final(ctx)),
        pipe.placed(old(ctx).ids(), images@),
        final(ctx).tables() == old(ctx).tables().plus(
            quad_tables(old(ctx).ids(), fragment_shader, meta@),
        ),
        final(ctx).extends(old(ctx)),
        final(ctx).state == old(ctx).state,
        final(ctx).commands@ == old(ctx).commands@ + quad_resources(
            &pipe,
            Shader { id: old(ctx).shaders@.len() as usize },
        ),
{
    let ghost more = quad_tables(ctx.ids(), fragment_shader, meta@);
    let (vertices, indices) = quad_verts();
    let vertex_buffer = Buffer::immutable(ctx, BufferType::VertexBuffer, Mesh::Quad, vertices.len());
    let index_buffer = Buffer::immutable(ctx, BufferType::IndexBuffer, Mesh::Quad, indices.len());
    let bind = Bindings { vertex_buffers: vec![vertex_buffer], index_buffer, images };
    let shader = Shader::new(ctx, VertexShader::Quad, fragment_shader, meta);
    let layout = [BufferLayout::default()];
    let attributes = [
        VertexAttribute::new(Attribute::Pos, VertexFormat::Float2),
        VertexAttribute::new(Attribute::Uv, VertexFormat::Float2),
    ];
    proof {
        reveal_with_fuel(attributes_len, 3);
    }
    let pipe = Pipeline::new(ctx, layout.as_slice(), attributes.as_slice(), shader);
    proof {
        assert(layout@ =~= seq![BufferLayout { stride: 0 }]);
        assert(attributes@ =~= quad_attributes());
        assert(bind@.vertex_buffers =~= seq![vertex_buffer]);
        assert(ctx.textures@ =~= old(ctx).textures@ + more.textures);
        assert(ctx.passes@ =~= old(ctx).passes@ + more.passes);
        assert(ctx.shader_views() =~= old(ctx).shader_views() + more.shaders);
        assert(ctx.pipeline_views() =~= old(ctx).pipeline_views() + more.pipelines);
        assert(ctx.buffers@ =~= old(ctx).buffers@ + more.buffers);
        assert(ctx.commands@ =~= old(ctx).commands@ + seq![
            Command::NewBuffer(vertex_buffer),
            Command::NewBuffer(index_buffer),
            Command::NewShader(shader),
            Command::NewPipeline(pipe),
        ]);
    }
    PipeBind { pipe, bind }
}

/// The pipeline that copies `tex` to the screen, gamma corrected.
pub fn copy_pipe(ctx: &mut Context, tex: Texture) -> (pipe: PipeBind)
    requires
        old(ctx).wf(),
        old(ctx).colour_texture(tex),
    ensures
        final(ctx).wf(),
        pipe.wf(final(ctx)),
        pipe.placed(old(ctx).ids(), seq![tex]),
        final(ctx).tables() == old(ctx).tables().plus(
            quad_tables(old(ctx).ids(), FragmentShader::CopyToScreen, crate::copy_to_screen_shader::meta_view()),
        ),
        final(ctx).extends(old(ctx)),
        final(ctx).state == old(ctx).state,
        final(ctx).commands@ == old(ctx).commands@ + quad_resources(
            &pipe,
            Shader { id: old(ctx).shaders@.len() as usize },
        ),
{
    let images = vec![tex];
    assert(images@ =~= seq![tex]);
    quad_pipe(ctx, FragmentShader::CopyToScreen, crate::copy_to_screen_shader::meta(), images)
}

/// The pipeline that composites `glow` over `main` by a screen blend, gamma corrected.
pub fn glow_blend_pipe(ctx: &mut Context, main: Texture, glow: Texture) -> (pipe: PipeBind)
    requires
        old(ctx).wf(),
        old(ctx).colour_texture(main),
        old(ctx).colour_texture(glow),
    ensures
        final(ctx).wf(),
        pipe.wf(final(ctx)),
        pipe.placed(old(ctx).ids(), seq![main, glow]),
        final(ctx).tables() == old(ctx).tables().plus(
            quad_tables(old(ctx).ids(), FragmentShader::GlowBlend, crate::glow_blend_shader::meta_view()),
        ),
        final(ctx).extends(old(ctx)),
        final(ctx).state == old(ctx).state,
        final(ctx).commands@ == old(ctx).commands@ + quad_resources(
            &pipe,
            Shader { id: old(ctx).shaders@.len() as usize },
        ),
{
    let images = vec![main, glow];
    assert(images@ =~= seq![main, glow]);
    quad_pipe(ctx, FragmentShader::GlowBlend, crate::glow_blend_shader::meta(), images)
}

/// The pipeline that shows the packed depth in `tex` as grey.
pub fn depth_view_pipe(ctx: &mut Context, tex: Texture) -> (pipe: PipeBind)
    requires
        old(ctx).wf(),
        old(ctx).colour_texture(tex),
    ensures
        final(ctx).wf(),
        pipe.wf(final(ctx)),
        pipe.placed(old(ctx).ids(), seq![tex]),
        final(ctx).tables() == old(ctx).tables().plus(
            quad_tables(old(ctx).ids(), FragmentShader::DepthView, crate::depth_view_shader::meta_view()),
        ),
        final(ctx).extends(old(ctx)),
        final(ctx).state == old(ctx).state,
        final(ctx).commands@ == old(ctx).commands@ + quad_resources(
            &pipe,
            Shader { id: old(ctx).shaders@.len() as usize },
        ),
{
    let images = vec![tex];
    assert(images@ =~= seq![tex]);
    quad_pipe(ctx, FragmentShader::DepthView, crate::depth_view_shader::meta(), images)
}

/// The ids at which the shadow pipe of a stage is built, in a context whose
/// next ids were `at` before the stage: after the geometry of the scene.
pub open spec fn shadow_at(at: Ids) -> Ids {
    at.after(cube_tables())
}

/// The ids at which the main pipe of a stage is built: after the shadow pipe.
pub open spec fn main_at(at: Ids) -> Ids {
    shadow_at(at).after(crate::shadow_pipe::pipe_tables(shadow_at(at)))
}

/// The ids at which the glow pipe of a stage is built: after the main pipe.
pub open spec fn glow_at(at: Ids) -> Ids {
    main_at(at).after(crate::main_pipe::pipe_tables(main_at(at), (0, 0)))
}

/// The ids at which the first pipeline of the composite is built: after the glow pipe.
pub open spec fn copy_at(at: Ids) -> Ids {
    glow_at(at).after(crate::glow_pipe::pipe_tables(glow_at(at)))
}

/// The ids at which the pipes of a stage are built, counted out: the
/// geometry takes two buffers; the shadow pipe and the glow pipe take four
/// textures, three passes, three shaders, three pipelines and four buffers
/// each; the main pipe takes two textures, one pass, two shaders and two
/// pipelines.
pub proof fn lemma_stage_ids(at: Ids)
    ensures
        shadow_at(at) == (Ids { buffers: at.buffers + 2, ..at }),
        main_at(at) == (Ids {
            textures: at.textures + 4,
            passes: at.passes + 3,
            shaders: at.shaders + 3,
            pipelines: at.pipelines + 3,
            buffers: at.buffers + 6,
        }),
        glow_at(at) == (Ids {
            textures: at.textures + 6,
            passes: at.passes + 4,
            shaders: at.shaders + 5,
            pipelines: at.pipelines + 5,
            buffers: at.buffers + 6,
        }),
        copy_at(at) == (Ids {
            textures: at.textures + 10,
            passes: at.passes + 7,
            shaders: at.shaders + 8,
            pipelines: at.pipelines + 8,
            buffers: at.buffers + 10,
        }),
{
}

/// The entries that the passes that render into textures add to the tables
/// of a context whose next ids are `at`, for a screen of the size `screen`:
/// the geometry of the scene, the shadow pipe, the main pipe and the glow pipe.
pub open spec fn offscreen_tables(at: Ids, screen: (u32, u32)) -> Tables {
    cube_tables().plus(crate::shadow_pipe::pipe_tables(shadow_at(at))).plus(
        crate::main_pipe::pipe_tables(main_at(at), screen),
    ).plus(crate::glow_pipe::pipe_tables(glow_at(at)))
}

/// The entries that the three pipelines of the composite add to the tables
/// of a context whose next ids are `at`: the copy, the glow blend and the
/// depth view, each over a quad of its own.
pub open spec fn composite_tables(at: Ids) -> Tables {
    let copy = quad_tables(
        at,
        FragmentShader::CopyToScreen,
        crate::copy_to_screen_shader::meta_view(),
    );
    let blend = quad_tables(
        at.after(copy),
        FragmentShader::GlowBlend,
        crate::glow_blend_shader::meta_view(),
    );
    let view = quad_tables(
        at.after(copy).after(blend),
        FragmentShader::DepthView,
        crate::depth_view_shader::meta_view(),
    );
    copy.plus(blend).plus(view)
}

/// The entries that a stage adds to the tables of a context whose next ids
/// are `at`, for a screen of the size `screen`: every resource of the frame,
/// in the order of its creation.
pub open spec fn stage_tables(at: Ids, screen: (u32, u32)) -> Tables {
    offscreen_tables(at, screen).plus(composite_tables(copy_at(at)))
}

/// The commands that create the geometry of the scene and the three pipes
/// that render into textures, in a context that holds `textures` textures
/// and `shaders` shaders before.
pub open spec fn offscreen_resources(
    geometry: BindingsView,
    shadow_map: &ShadowPipe,
    main: &MainPipe,
    glow: &GlowPipe,
    textures: int,
    shaders: int,
) -> Seq<Command> {
    seq![
        Command::NewBuffer(geometry.vertex_buffers[0]),
        Command::NewBuffer(geometry.index_buffer),
    ] + crate::shadow_pipe::resources(
        shadow_map,
        Texture { id: (textures + 1) as usize },
        Shader { id: shaders as usize },
    ) + crate::main_pipe::resources(
        main,
        Texture { id: (textures + 5) as usize },
        Shader { id: (shaders + 3) as usize },
    ) + crate::glow_pipe::resources(
        glow,
        Texture { id: (textures + 7) as usize },
        Shader { id: (shaders + 5) as usize },
    )
}

/// The commands that create the three pipelines of the composite, in a
/// context that holds `shaders` shaders before.
pub open spec fn composite_resources(
    copy: &PipeBind,
    glow_blend: &PipeBind,
    depth_view: &PipeBind,
    shaders: int,
) -> Seq<Command> {
    quad_resources(copy, Shader { id: shaders as usize }) + quad_resources(
        glow_blend,
        Shader { id: (shaders + 1) as usize },
    ) + quad_resources(depth_view, Shader { id: (shaders + 2) as usize })
}

/// What the last pass of a frame puts on the screen.
#[derive(Clone, Copy, Debug, PartialEq, Eq, Structural)]
pub enum Composite {
    /// The main scene with the glow blended over it.
    GlowBlend,
    /// The main scene alone.
    Copy,
    /// The shadow map, as grey.
    DepthView,
}

/// The matrices and the light of one frame, by their slots in the caller's tables.
#[derive(Clone, Copy, Debug, PartialEq, Eq, Structural)]
pub struct Frame {
    /// Places the scene in the world.
    pub model: MatrixRef,
    /// Takes the world to the camera's clip space.
    pub view_proj: MatrixRef,
    /// Takes the world to the light's view space.
    pub light_view: MatrixRef,
    /// Takes the light's view space to its clip space.
    pub light_proj: MatrixRef,
    /// The light's position in the camera's view space.
    pub light_pos: VectorRef,
}

/// The passes of the frame with their bindings, and the scene.
#[derive(Debug)]
pub struct Stage {
    pub shadow_map: ShadowPipe,
    pub shadow_map_bind: Bindings,
    pub main: MainPipe,
    pub main_bind: Bindings,
    pub glow: GlowPipe,
    pub glow_bind: Bindings,
    pub copy: PipeBind,
    pub depth_view: PipeBind,
    pub glow_blend: PipeBind,
    pub objects: Vec<Object>,
    pub coloured_objects: Vec<ColouredObject>,
    pub output: Composite,
}

impl Stage {
    /// The pipeline of the last pass.
    pub open spec fn composite(&self) -> &PipeBind {
        match self.output {
            Composite::GlowBlend => &self.glow_blend,
            Composite::Copy => &self.copy,
            Composite::DepthView => &self.depth_view,
        }
    }

    /// The stage holds the handles of the resources that a context creates
    /// for it when its next ids are `at`: every pipe those of its own
    /// resources, and every binding those of the buffers and of the outputs
    /// that its pass reads.
    pub open spec fn placed(&self, at: Ids) -> bool {
        let copy = quad_tables(
            copy_at(at),
            FragmentShader::CopyToScreen,
            crate::copy_to_screen_shader::meta_view(),
        );
        let blend = quad_tables(
            copy_at(at).after(copy),
            FragmentShader::GlowBlend,
            crate::glow_blend_shader::meta_view(),
        );
        &&& self.shadow_map.placed(shadow_at(at))
        &&& self.main.placed(main_at(at))
        &&& self.glow.placed(glow_at(at))
        &&& self.shadow_map_bind@ == bindings_at(at, Seq::empty())
        &&& self.main_bind@ == bindings_at(at, seq![self.shadow_map.output])
        &&& self.glow_bind@ == bindings_at(at, Seq::empty())
        &&& self.copy.placed(copy_at(at), seq![self.main.output])
        &&& self.glow_blend.placed(
            copy_at(at).after(copy),
            seq![self.main.output, self.glow.output],
        )
        &&& self.depth_view.placed(
            copy_at(at).after(copy).after(blend),
            seq![self.shadow_map.output],
        )
    }

    /// The main pass shares neither its pass nor its attachments with the
    /// shadow pipe or the glow pipe.
    pub open spec fn exclusive(&self, ctx: &Context) -> bool {
        &&& !self.shadow_map.owns_texture(ctx, self.main.output)
        &&& !self.shadow_map.owns_texture(ctx, self.main.depth(ctx))
        &&& !self.shadow_map.owns_pass(self.main.pass)
        &&& !self.glow.owns_texture(ctx, self.main.output)
        &&& !self.glow.owns_texture(ctx, self.main.depth(ctx))
        &&& !self.glow.owns_pass(self.main.pass)
    }

    /// The textures that the bindings of the stage name, binding by binding.
    pub open spec fn bound_images(&self) -> Seq<Texture> {
        self.shadow_map_bind@.images + self.main_bind@.images + self.glow_bind@.images
            + self.copy.bind@.images + self.depth_view.bind@.images + self.glow_blend.bind@.images
    }

    /// The passes are well formed, the bindings name the outputs of the
    /// passes that they read, the objects lie in the cube's index buffer, and
    /// the main target has the size of the screen.
    #[verifier::opaque]
    pub open spec fn wf(&self, ctx: &Context) -> bool {
        &&& self.shadow_map.wf(ctx)
        &&& self.main.wf(ctx)
        &&& self.glow.wf(ctx)
        &&& self.copy.wf(ctx)
        &&& self.depth_view.wf(ctx)
        &&& self.glow_blend.wf(ctx)
        &&& ctx.valid_geometry(self.shadow_map_bind@, CUBE_INDICES as int)
        &&& ctx.valid_geometry(self.main_bind@, CUBE_INDICES as int)
        &&& ctx.valid_geometry(self.glow_bind@, CUBE_INDICES as int)
        &&& self.shadow_map_bind@.images.len() == 0
        &&& self.main_bind@.images == seq![self.shadow_map.output]
        &&& self.glow_bind@.images.len() == 0
        &&& self.copy.bind@.images == seq![self.main.output]
        &&& self.depth_view.bind@.images == seq![self.shadow_map.output]
        &&& self.glow_blend.bind@.images == seq![self.main.output, self.glow.output]
        &&& all_fit(self.objects@, CUBE_INDICES as int)
        &&& all_coloured_fit(self.coloured_objects@, CUBE_INDICES as int)
        &&& self.main.size(ctx) == ctx.screen
        &&& self.exclusive(ctx)
    }

    /// The commands that create the resources of the stage, in a context
    /// that holds `textures` textures and `shaders` shaders before: the
    /// geometry of the scene, the shadow pipe, the main pipe, the glow pipe,
    /// and the three pipelines of the composite.
    pub open spec fn resources(&self, textures: int, shaders: int) -> Seq<Command> {
        offscreen_resources(
            self.shadow_map_bind@,
            &self.shadow_map,
            &self.main,
            &self.glow,
            textures,
            shaders,
        ) + composite_resources(&self.copy, &self.glow_blend, &self.depth_view, shaders + 8)
    }

    /// The commands of the passes that render into textures: the shadow pass
    /// and its blur, the main pass, the glow pass and its blur.
    pub open spec fn offscreen_commands(&self, frame: Frame) -> Seq<Command> {
        crate::shadow_pipe::depth_commands(
            &self.shadow_map,
            self.shadow_map_bind@,
            self.objects@,
            frame.model,
            frame.light_view,
            frame.light_proj,
        ) + crate::blur_shadow_pipe::node_commands(&self.shadow_map.blur_pipe.horiz)
            + crate::blur_shadow_pipe::node_commands(&self.shadow_map.blur_pipe.vert)
            + crate::main_pipe::main_commands(
            &self.main,
            self.main_bind@,
            self.objects@,
            self.coloured_objects@,
            Lighting {
                scene_model: frame.model,
                light_pos: frame.light_pos,
                view_proj: frame.view_proj,
                light_view: frame.light_view,
                light_proj: frame.light_proj,
            },
        ) + crate::glow_pipe::silhouette_commands(
            &self.glow,
            self.glow_bind@,
            self.objects@,
            self.coloured_objects@,
            frame.model,
            frame.view_proj,
        ) + crate::blur_pipe::node_commands(&self.glow.blur_pipe.horiz)
            + crate::blur_pipe::node_commands(&self.glow.blur_pipe.vert)
    }

    /// The commands of one frame: the passes that render into textures, the
    /// composite to the screen, and the commit.
    pub open spec fn frame_commands(&self, frame: Frame) -> Seq<Command> {
        self.offscreen_commands(frame) + composite_commands(self.composite()) + seq![
            Command::CommitFrame,
        ]
    }

    /// A stage whose parts are well formed and hold the handles of their own
    /// resources is well formed: no part shares a pass or an attachment with
    /// the main pipe.
    proof fn lemma_built_wf(&self, ctx: &Context, at: Ids)
        requires
            ctx.wf(),
            self.shadow_map.wf(ctx),
            self.main.wf(ctx),
            self.glow.wf(ctx),
            self.copy.wf(ctx),
            self.depth_view.wf(ctx),
            self.glow_blend.wf(ctx),
            self.placed(at),
            0 <= at.textures,
            0 <= at.passes,
            ctx.valid_geometry(bindings_at(at, Seq::empty()), CUBE_INDICES as int),
            all_fit(self.objects@, CUBE_INDICES as int),
            all_coloured_fit(self.coloured_objects@, CUBE_INDICES as int),
            self.main.size(ctx) == ctx.screen,
            self.main.depth(ctx).id == main_at(at).textures + 1,
        ensures
            self.wf(ctx),
    {
        reveal(Stage::wf);
        lemma_stage_ids(at);
        self.shadow_map.lemma_wf_output(ctx);
        self.main.lemma_wf_output(ctx);
        self.glow.lemma_wf_output(ctx);
        let shadow = self.shadow_map;
        let glow = self.glow;
        assert(shadow.target().id == at.textures);
        assert(shadow.blur_pipe.horiz.output.id == at.textures + 2);
        assert(shadow.output.id == at.textures + 3);
        assert(glow.target().id == at.textures + 6);
        assert(glow.blur_pipe.horiz.output.id == at.textures + 8);
        assert(glow.output.id == at.textures + 9);
        assert(self.main.output.id == at.textures + 4);
        assert(self.exclusive(ctx));
    }

    /// Builds the geometry of the scene and the three pipes that render into
    /// textures.
    fn build_offscreen(ctx: &mut Context) -> (built: (Bindings, ShadowPipe, MainPipe, GlowPipe))
        requires
            old(ctx).wf(),
            !old(ctx).state.recording,
        ensures
            final(ctx).wf(),
            built.0@ == bindings_at(old(ctx).ids(), Seq::empty()),
            final(ctx).valid_geometry(built.0@, CUBE_INDICES as int),
            built.1.wf(final(ctx)),
            built.1.placed(shadow_at(old(ctx).ids())),
            built.2.wf(final(ctx)),
            built.2.placed(main_at(old(ctx).ids())),
            built.2.size(final(ctx)) == old(ctx).screen,
            built.2.depth(final(ctx)).id == main_at(old(ctx).ids()).textures + 1,
            built.3.wf(final(ctx)),
            built.3.placed(glow_at(old(ctx).ids())),
            final(ctx).ids() == copy_at(old(ctx).ids()),
            final(ctx).tables() == old(ctx).tables().plus(
                offscreen_tables(old(ctx).ids(), old(ctx).screen),
            ),
            final(ctx).extends(old(ctx)),
            final(ctx).state == old(ctx).state,
            final(ctx).commands@ == old(ctx).commands@ + offscreen_resources(
                built.0@,
                &built.1,
                &built.2,
                &built.3,
                old(ctx).textures@.len() as int,
                old(ctx).shaders@.len() as int,
            ),
    {
        let ghost at = ctx.ids();
        let ghost screen = ctx.screen;
        let ghost start = ctx.tables();
        let bind = cube_bindings(ctx);
        let ghost with_geometry = *ctx;
        proof {
            lemma_ids_after(old(ctx), &with_geometry, cube_tables());
        }
        let shadow_map = ShadowPipe::new(ctx);
        let ghost with_shadow = *ctx;
        proof {
            lemma_ids_after(
                &with_geometry,
                &with_shadow,
                crate::shadow_pipe::pipe_tables(shadow_at(at)),
            );
        }
        let main = MainPipe::new(ctx);
        let ghost with_main = *ctx;
        proof {
            lemma_ids_after(
                &with_shadow,
                &with_main,
                crate::main_pipe::pipe_tables(main_at(at), screen),
            );
            assert(main_at(at).after(crate::main_pipe::pipe_tables(main_at(at), screen))
                == glow_at(at));
        }
        let glow = GlowPipe::new(ctx);
        proof {
            lemma_ids_after(&with_main, ctx, crate::glow_pipe::pipe_tables(glow_at(at)));
            shadow_map.lemma_wf_kept(&with_shadow, ctx);
            main.lemma_wf_kept(&with_main, ctx);
            let shadow = crate::shadow_pipe::pipe_tables(shadow_at(at));
            let lit = crate::main_pipe::pipe_tables(main_at(at), screen);
            let glowing = crate::glow_pipe::pipe_tables(glow_at(at));
            lemma_plus_twice(start, cube_tables(), shadow);
            lemma_plus_twice(start, cube_tables().plus(shadow), lit);
            lemma_plus_twice(start, cube_tables().plus(shadow).plus(lit), glowing);
        }
        assert(ctx.commands@ =~= old(ctx).commands@ + offscreen_resources(
            bind@,
            &shadow_map,
            &main,
            &glow,
            at.textures,
            at.shaders,
        ));
        (bind, shadow_map, main, glow)
    }

    /// Builds the three pipelines of the composite: the copy of `main`, the
    /// blend of `glow` over `main`, and the view of `shadow`.
    fn build_composite(ctx: &mut Context, main: Texture, glow: Texture, shadow: Texture) -> (built:
        (PipeBind, PipeBind, PipeBind))
        requires
            old(ctx).wf(),
            old(ctx).colour_texture(main),
            old(ctx).colour_texture(glow),
            old(ctx).colour_texture(shadow),
        ensures
            final(ctx).wf(),
            built.0.wf(final(ctx)),
            built.1.wf(final(ctx)),
            built.2.wf(final(ctx)),
            built.0.placed(old(ctx).ids(), seq![main]),
            built.1.placed(
                old(ctx).ids().after(
                    quad_tables(
                        old(ctx).ids(),
                        FragmentShader::CopyToScreen,
                        crate::copy_to_screen_shader::meta_view(),
                    ),
                ),
                seq![main, glow],
            ),
            built.2.placed(
                old(ctx).ids().after(
                    quad_tables(
                        old(ctx).ids(),
                        FragmentShader::CopyToScreen,
                        crate::copy_to_screen_shader::meta_view(),
                    ),
                ).after(
                    quad_tables(
                        old(ctx).ids().after(
                            quad_tables(
                                old(ctx).ids(),
                                FragmentShader::CopyToScreen,
                                crate::copy_to_screen_shader::meta_view(),
                            ),
                        ),
                        FragmentShader::GlowBlend,
                        crate::glow_blend_shader::meta_view(),
                    ),
                ),
                seq![shadow],
            ),
            final(ctx).tables() == old(ctx).tables().plus(composite_tables(old(ctx).ids())),
            final(ctx).extends(old(ctx)),
            final(ctx).state == old(ctx).state,
            final(ctx).commands@ == old(ctx).commands@ + composite_resources(
                &built.0,
                &built.1,
                &built.2,
                old(ctx).shaders@.len() as int,
            ),
    {
        let ghost at = ctx.ids();
        let ghost start = ctx.tables();
        let ghost first = quad_tables(
            at,
            FragmentShader::CopyToScreen,
            crate::copy_to_screen_shader::meta_view(),
        );
        let ghost second = quad_tables(
            at.after(first),
            FragmentShader::GlowBlend,
            crate::glow_blend_shader::meta_view(),
        );
        let ghost third = quad_tables(
            at.after(first).after(second),
            FragmentShader::DepthView,
            crate::depth_view_shader::meta_view(),
        );
        let copy = copy_pipe(ctx, main);
        let ghost copied = *ctx;
        proof {
            lemma_ids_after(old(ctx), &copied, first);
        }
        let glow_blend = glow_blend_pipe(ctx, main, glow);
        let ghost blended = *ctx;
        proof {
            lemma_ids_after(&copied, &blended, second);
        }
        let depth_view = depth_view_pipe(ctx, shadow);
        proof {
            lemma_plus_twice(start, first, second);
            lemma_plus_twice(start, first.plus(second), third);
        }
        assert(ctx.commands@ =~= old(ctx).commands@ + composite_resources(
            &copy,
            &glow_blend,
            &depth_view,
            at.shaders,
        ));
        (copy, glow_blend, depth_view)
    }

    /// Builds the scene and every pass of the frame. The transforms of the
    /// objects take the slots from 0 on: the cuboids first, then the ground
    /// plane, then the coloured cubes.
    #[verifier::rlimit(30)]
    pub fn new(ctx: &mut Context) -> (stage: Stage)
        requires
            old(ctx).wf(),
            !old(ctx).state.recording,
        ensures
            final(ctx).wf(),
            stage.wf(final(ctx)),
            stage.placed(old(ctx).ids()),
            stage.output == Composite::GlowBlend,
            stage.objects@ == scene_objects(MatrixRef { slot: 0 }),
            stage.coloured_objects@ == scene_coloured(MatrixRef { slot: (CUBOIDS + 1) as usize }),
            final(ctx).tables() == old(ctx).tables().plus(
                stage_tables(old(ctx).ids(), old(ctx).screen),
            ),
            final(ctx).extends(old(ctx)),
            final(ctx).state == idle(),
            final(ctx).commands@ == old(ctx).commands@ + stage.resources(
                old(ctx).textures@.len() as int,
                old(ctx).shaders@.len() as int,
            ),
    {
        let ghost at = ctx.ids();
        let ghost start = ctx.tables();
        let objects = cubes(MatrixRef { slot: 0 });
        let coloured_objects = coloured_cubes(MatrixRef { slot: CUBOIDS + 1 });
        let (bind, shadow_map, main, glow) = Stage::build_offscreen(ctx);
        let shadow_map_bind = bind.clone();
        let mut main_bind = bind.clone();
        main_bind.images.push(shadow_map.get_output());
        assert(main_bind@.images =~= seq![shadow_map.output]);
        let glow_bind = bind;
        let ghost offscreen = *ctx;
        proof {
            shadow_map.lemma_wf_output(&offscreen);
            main.lemma_wf_output(&offscreen);
            glow.lemma_wf_output(&offscreen);
        }
        let (copy, glow_blend, depth_view) = Stage::build_composite(
            ctx,
            main.get_output(),
            glow.get_output(),
            shadow_map.get_output(),
        );
        proof {
            shadow_map.lemma_wf_kept(&offscreen, ctx);
            main.lemma_wf_kept(&offscreen, ctx);
            glow.lemma_wf_kept(&offscreen, ctx);
            lemma_plus_twice(
                start,
                offscreen_tables(at, old(ctx).screen),
                composite_tables(copy_at(at)),
            );
        }
        let stage = Stage {
            shadow_map,
            shadow_map_bind,
            main,
            main_bind,
            glow,
            glow_bind,
            copy,
            depth_view,
            glow_blend,
            objects,
            coloured_objects,
            output: Composite::GlowBlend,
        };
        proof {
            stage.lemma_built_wf(ctx, at);
            lemma_stage_ids(at);
            let first = offscreen_resources(
                stage.shadow_map_bind@,
                &stage.shadow_map,
                &stage.main,
                &stage.glow,
                at.textures,
                at.shaders,
            );
            let second = composite_resources(
                &stage.copy,
                &stage.glow_blend,
                &stage.depth_view,
                at.shaders + 8,
            );
            assert(ctx.commands@ == old(ctx).commands@ + first + second);
            assert(old(ctx).commands@ + first + second =~= old(ctx).commands@ + (first + second));
        }
        stage
    }

    /// Chooses what the last pass of a frame puts on the screen.
    pub fn set_output(&mut self, output: Composite)
        ensures
            *final(self) == (Stage { output, ..*old(self) }),
            forall|ctx: Context| #[trigger] old(self).wf(&ctx) ==> final(self).wf(&ctx),
    {
        proof {
            reveal(Stage::wf);
        }
        self.output = output;
    }

    /// A well-formed stage stays well formed when passes are recorded: what
    /// changes is only which textures count as written.
    pub proof fn lemma_wf_after_writes(&self, a: &Context, b: &Context)
        requires
            a.wf(),
            self.wf(a),
            b.same_but_written(a),
        ensures
            self.wf(b),
    {
        reveal(Stage::wf);
        self.shadow_map.lemma_wf_kept(a, b);
        self.main.lemma_wf_kept(a, b);
        self.glow.lemma_wf_kept(a, b);
    }

    /// The screen has a new size: the main target is replaced by one of that
    /// size, and the two bindings that read it are bound to the new target.
    /// Afterwards no binding of the stage names a released texture, and as
    /// many textures are live as before.
    pub fn resize_event(&mut self, ctx: &mut Context, width: u32, height: u32)
        requires
            old(ctx).wf(),
            old(self).wf(old(ctx)),
            !old(ctx).state.recording,
        ensures
            final(ctx).wf(),
            final(self).wf(final(ctx)),
            final(ctx).screen == (width, height),
            final(self).main.size(final(ctx)) == (width, height),
            final(self).main.output.id == old(ctx).textures@.len(),
            final(ctx).colour_texture(final(self).main.output),
            !final(ctx).live_texture(old(self).main.output),
            !final(ctx).live_texture(old(self).main.depth(old(ctx))),
            crate::context::live_count(final(ctx).textures@) == crate::context::live_count(
                old(ctx).textures@,
            ),
            forall|i: int|
                0 <= i < final(self).bound_images().len() ==> final(ctx).live_texture(
                    #[trigger] final(self).bound_images()[i],
                ),
            final(self).shadow_map == old(self).shadow_map,
            final(self).glow == old(self).glow,
            final(self).objects == old(self).objects,
            final(self).coloured_objects == old(self).coloured_objects,
            final(self).output == old(self).output,
            final(ctx).shaders == old(ctx).shaders,
            final(ctx).pipelines == old(ctx).pipelines,
            final(ctx).buffers == old(ctx).buffers,
            final(ctx).textures@ == crate::context::release_attachments(
                old(ctx).textures@ + seq![
                    fresh_texture(width, height, TextureFormat::RGBA8),
                    fresh_texture(width, height, TextureFormat::Depth),
                ],
                old(ctx).passes@[old(self).main.pass.id as int],
            ),
            final(ctx).state == old(ctx).state,
            final(ctx).commands@ == old(ctx).commands@ + seq![
                Command::NewTexture(final(self).main.output),
                Command::NewTexture(final(self).main.depth(final(ctx))),
                Command::NewRenderPass(final(self).main.pass),
                Command::DeleteRenderPass(old(self).main.pass),
            ],
    {
        proof {
            reveal(Stage::wf);
        }
        proof {
            self.main.lemma_wf_output(ctx);
            self.shadow_map.lemma_wf_output(ctx);
            self.glow.lemma_wf_output(ctx);
        }
        ctx.set_screen_size(width, height);
        let ghost a = *ctx;
        proof {
            self.main.lemma_wf_kept(old(ctx), &a);
        }
        self.main.resize(ctx, width, height);
        self.copy.bind.images.set(0, self.main.get_output());
        self.glow_blend.bind.images.set(0, self.main.get_output());
        assert(self.copy.bind@.images =~= seq![self.main.output]);
        assert(self.glow_blend.bind@.images =~= seq![self.main.output, self.glow.output]);
        proof {
            let replaced = old(self).main.pass;
            let added = seq![
                fresh_texture(width, height, TextureFormat::RGBA8),
                fresh_texture(width, height, TextureFormat::Depth),
            ];
            let new_pass = ctx.passes@.last();
            lemma_replaced_keeps(&a, ctx, replaced, added, new_pass, self.shadow_map.pass);
            lemma_replaced_keeps(
                &a,
                ctx,
                replaced,
                added,
                new_pass,
                self.shadow_map.blur_pipe.horiz.pass,
            );
            lemma_replaced_keeps(
                &a,
                ctx,
                replaced,
                added,
                new_pass,
                self.shadow_map.blur_pipe.vert.pass,
            );
            lemma_replaced_keeps(&a, ctx, replaced, added, new_pass, self.glow.pass);
            lemma_replaced_keeps(&a, ctx, replaced, added, new_pass, self.glow.blur_pipe.horiz.pass);
            lemma_replaced_keeps(&a, ctx, replaced, added, new_pass, self.glow.blur_pipe.vert.pass);
            self.shadow_map.lemma_wf_kept(old(ctx), ctx);
            self.glow.lemma_wf_kept(old(ctx), ctx);
            self.shadow_map.lemma_wf_output(ctx);
            self.glow.lemma_wf_output(ctx);
            self.main.lemma_wf_output(ctx);
        }
    }

    /// Records the passes that render into textures, each after the passes
    /// whose output it reads.
    fn draw_offscreen(&self, ctx: &mut Context, frame: Frame)
        requires
            old(ctx).wf(),
            self.wf(old(ctx)),
            !old(ctx).state.recording,
        ensures
            final(ctx).wf(),
            self.wf(final(ctx)),
            final(ctx).same_but_written(old(ctx)),
            final(ctx).textures@[self.shadow_map.output.id as int].written,
            final(ctx).textures@[self.main.output.id as int].written,
            final(ctx).textures@[self.glow.output.id as int].written,
            final(ctx).state == idle(),
            final(ctx).commands@ == old(ctx).commands@ + self.offscreen_commands(frame),
    {
        proof {
            reveal(Stage::wf);
        }
        let ghost start = *ctx;
        proof {
            self.shadow_map.lemma_wf_output(ctx);
        }
        self.shadow_map.draw(
            ctx,
            &self.shadow_map_bind,
            &self.objects,
            frame.model,
            frame.light_view,
            frame.light_proj,
        );
        let ghost shadowed = *ctx;
        proof {
            self.lemma_wf_after_writes(&start, &shadowed);
            self.shadow_map.lemma_wf_output(&shadowed);
            self.main.lemma_wf_output(&shadowed);
        }
        self.main.draw(
            ctx,
            &self.main_bind,
            &self.objects,
            &self.coloured_objects,
            frame.model,
            frame.light_pos,
            frame.view_proj,
            frame.light_view,
            frame.light_proj,
        );
        let ghost lit = *ctx;
        proof {
            self.lemma_wf_after_writes(&shadowed, &lit);
            self.glow.lemma_wf_output(&lit);
        }
        self.glow.draw(
            ctx,
            &self.glow_bind,
            &self.objects,
            &self.coloured_objects,
            frame.model,
            frame.view_proj,
        );
        proof {
            self.lemma_wf_after_writes(&lit, ctx);
            self.shadow_map.lemma_wf_output(ctx);
            self.main.lemma_wf_output(ctx);
            self.glow.lemma_wf_output(ctx);
        }
    }

    /// Records the composite to the screen and the commit of the frame.
    fn present(&self, ctx: &mut Context)
        requires
            old(ctx).wf(),
            self.wf(old(ctx)),
            !old(ctx).state.recording,
            old(ctx).textures@[self.shadow_map.output.id as int].written,
            old(ctx).textures@[self.main.output.id as int].written,
            old(ctx).textures@[self.glow.output.id as int].written,
        ensures
            final(ctx).wf(),
            self.wf(final(ctx)),
            final(ctx).same_programs(old(ctx)),
            final(ctx).passes == old(ctx).passes,
            final(ctx).textures@ == none_written(old(ctx).textures@),
            final(ctx).state == idle(),
            final(ctx).commands@ == old(ctx).commands@ + composite_commands(self.composite())
                + seq![Command::CommitFrame],
    {
        proof {
            reveal(Stage::wf);
        }
        let output = match self.output {
            Composite::GlowBlend => &self.glow_blend,
            Composite::Copy => &self.copy,
            Composite::DepthView => &self.depth_view,
        };
        ctx.begin_default_pass(PassAction::Nothing);
        ctx.apply_pipeline(&output.pipe);
        ctx.apply_bindings(&output.bind);
        ctx.draw(0, 6, 1);
        ctx.end_render_pass();
        assert(ctx.commands@ =~= old(ctx).commands@ + composite_commands(self.composite()));
        ctx.commit_frame();
        proof {
            self.lemma_wf_after_writes(old(ctx), ctx);
        }
    }

    /// Records one frame: the shadow pass and its blur, the main pass, the
    /// glow pass and its blur, the composite to the screen, and the commit.
    /// After the commit no texture counts as written.
    pub fn draw(&mut self, ctx: &mut Context, frame: Frame)
        requires
            old(ctx).wf(),
            old(self).wf(old(ctx)),
            !old(ctx).state.recording,
        ensures
            final(ctx).wf(),
            final(self).wf(final(ctx)),
            *final(self) == *old(self),
            final(ctx).same_programs(old(ctx)),
            final(ctx).passes == old(ctx).passes,
            final(ctx).textures@ == none_written(old(ctx).textures@),
            final(ctx).state == idle(),
            final(ctx).commands@ == old(ctx).commands@ + old(self).frame_commands(frame),
    {
        self.draw_offscreen(ctx, frame);
        let ghost middle = ctx.textures@;
        self.present(ctx);
        assert(none_written(middle) =~= none_written(old(ctx).textures@));
        assert(ctx.commands@ =~= old(ctx).commands@ + self.frame_commands(frame));
    }
}

} // verus!
