use render_passes::blur_pipe::BlurPipe;
use render_passes::blur_shadow_pipe::{BlurShadowPipe, Radius};
use render_passes::context::{
    Bindings, Buffer, BufferLayout, BufferType, Command, Context, Mesh, Pipeline, PipelineParams,
    RenderPass, Shader, Texture, TextureParams, UniformValues, VertexAttribute,
};
use render_passes::formats::{
    Comparison, PassAction, Resolution, Rgba8, TextureFormat, VertexFormat,
};
use render_passes::glow_pipe::GlowPipe;
use render_passes::main_pipe::MainPipe;
use render_passes::matrix::{Matrix, MatrixRef, VectorRef};
use render_passes::objects::{cube_bindings, cubes, Object};
use render_passes::shader::{Attribute, FragmentShader, VertexShader};
use render_passes::shadow_pipe::ShadowPipe;
use render_passes::stage::{
    copy_pipe, depth_view_pipe, glow_blend_pipe, Composite, Frame, Stage,
};

fn frame() -> Frame {
    Frame {
        model: MatrixRef { slot: 100 },
        view_proj: MatrixRef { slot: 101 },
        light_view: MatrixRef { slot: 102 },
        light_proj: MatrixRef { slot: 103 },
        light_pos: VectorRef { slot: 0 },
    }
}

/// Replays a stream against the tables and holds it to the protocol of the
/// device: passes do not nest, a draw call has a pipeline and bindings, its
/// indices lie in the index buffer, and a sampled texture is live, was written
/// by an earlier pass of the same frame and is not the target of the pass.
/// Returns the number of draw calls.
fn replay(ctx: &Context, commands: &[Command]) -> usize {
    let mut live_textures: Vec<bool> = vec![false; ctx.textures.len()];
    let mut live_passes: Vec<bool> = vec![false; ctx.passes.len()];
    let mut written: Vec<bool> = vec![false; ctx.textures.len()];
    let mut recording = false;
    let mut target: Option<RenderPass> = None;
    let mut pipeline: Option<Pipeline> = None;
    let mut index_len: Option<usize> = None;
    let mut pending_images: Vec<Texture> = Vec::new();
    let mut pending_vertex: Vec<Buffer> = Vec::new();
    let mut pending_index: Option<Buffer> = None;
    let mut created_buffers = 0usize;
    let mut created_shaders = 0usize;
    let mut created_pipelines = 0usize;
    let mut draws = 0usize;
    for command in commands {
        match *command {
            Command::NewTexture(t) => live_textures[t.id] = true,
            Command::NewRenderPass(p) => {
                assert!(!recording);
                let info = ctx.passes[p.id];
                assert!(live_textures[info.color.id]);
                if let Some(d) = info.depth {
                    assert!(live_textures[d.id]);
                }
                live_passes[p.id] = true;
            }
            Command::DeleteRenderPass(p) => {
                assert!(!recording);
                assert!(live_passes[p.id]);
                live_passes[p.id] = false;
                let info = ctx.passes[p.id];
                live_textures[info.color.id] = false;
                if let Some(d) = info.depth {
                    live_textures[d.id] = false;
                }
            }
            Command::NewShader(s) => {
                assert_eq!(s.id, created_shaders);
                created_shaders += 1;
            }
            Command::NewPipeline(p) => {
                assert_eq!(p.id, created_pipelines);
                assert!(ctx.pipelines[p.id].shader.id < created_shaders);
                created_pipelines += 1;
            }
            Command::NewBuffer(b) => {
                assert_eq!(b.id, created_buffers);
                created_buffers += 1;
            }
            Command::BeginPass { pass, .. } => {
                assert!(!recording);
                if let Some(p) = pass {
                    assert!(live_passes[p.id]);
                    assert!(live_textures[ctx.passes[p.id].color.id]);
                }
                recording = true;
                target = pass;
                pipeline = None;
                index_len = None;
            }
            Command::ApplyPipeline(p) => {
                assert!(recording);
                assert!(p.id < created_pipelines);
                pipeline = Some(p);
                index_len = None;
            }
            Command::BindVertexBuffer { slot, buffer } => {
                assert_eq!(slot, pending_vertex.len());
                assert!(buffer.id < created_buffers);
                assert_eq!(ctx.buffers[buffer.id].kind, BufferType::VertexBuffer);
                pending_vertex.push(buffer);
            }
            Command::BindIndexBuffer(buffer) => {
                assert!(buffer.id < created_buffers);
                assert_eq!(ctx.buffers[buffer.id].kind, BufferType::IndexBuffer);
                pending_index = Some(buffer);
            }
            Command::BindImage { slot, texture } => {
                assert_eq!(slot, pending_images.len());
                pending_images.push(texture);
            }
            Command::ApplyBindings => {
                assert!(recording);
                let p = pipeline.expect("bindings without a pipeline");
                let info = &ctx.pipelines[p.id];
                let samplers = ctx.shaders[info.shader.id].meta.images.len();
                assert!(samplers <= pending_images.len());
                for t in &pending_images[..samplers] {
                    assert!(live_textures[t.id], "a released texture is bound");
                    assert!(written[t.id], "a texture is read before it is written");
                    assert_eq!(ctx.textures[t.id].params.format, TextureFormat::RGBA8);
                    if let Some(pass) = target {
                        assert!(ctx.passes[pass.id].color != *t);
                    }
                }
                for a in &info.attributes {
                    assert!(a.buffer_index < pending_vertex.len());
                }
                index_len = Some(ctx.buffers[pending_index.expect("no index buffer").id].len);
                pending_images.clear();
                pending_vertex.clear();
                pending_index = None;
            }
            Command::ApplyUniforms(_) => {
                assert!(recording);
                assert!(pipeline.is_some());
            }
            Command::Draw { base_element, num_elements, num_instances } => {
                assert!(recording);
                assert!(pipeline.is_some());
                let n = index_len.expect("draw without bindings");
                assert!(base_element >= 0 && num_elements >= 0);
                assert!((base_element + num_elements) as usize <= n);
                assert_eq!(num_instances, 1);
                draws += 1;
            }
            Command::EndRenderPass => {
                assert!(recording);
                if let Some(p) = target {
                    written[ctx.passes[p.id].color.id] = true;
                }
                recording = false;
                target = None;
            }
            Command::CommitFrame => {
                assert!(!recording);
                for w in written.iter_mut() {
                    *w = false;
                }
            }
        }
    }
    assert!(!recording);
    draws
}

fn live_textures_of(ctx: &Context, width: u32, height: u32, format: TextureFormat) -> usize {
    ctx.textures
        .iter()
        .filter(|t| t.live && t.params == TextureParams { width, height, format })
        .count()
}

#[test]
fn new_context_is_empty() {
    let ctx = Context::new(640, 480);
    assert_eq!(ctx.screen_size(), (640, 480));
    assert!(ctx.textures.is_empty() && ctx.passes.is_empty() && ctx.commands.is_empty());
    assert!(!ctx.state.recording);
}

#[test]
fn resources_get_the_next_handle() {
    let mut ctx = Context::new(1, 1);
    let params = TextureParams { width: 4, height: 2, format: TextureFormat::RGBA8 };
    let a = Texture::new_render_texture(&mut ctx, params);
    let b = Texture::new_render_texture(
        &mut ctx,
        TextureParams { width: 4, height: 2, format: TextureFormat::Depth },
    );
    assert_eq!((a.id, b.id), (0, 1));
    assert!(ctx.textures[0].live && !ctx.textures[0].written);
    assert_eq!(ctx.textures[0].params, params);
    let pass = RenderPass::new(&mut ctx, a, Some(b));
    assert_eq!(pass.id, 0);
    assert_eq!(ctx.passes[0].color, a);
    assert_eq!(ctx.passes[0].depth, Some(b));
    assert_eq!(
        ctx.commands,
        vec![Command::NewTexture(a), Command::NewTexture(b), Command::NewRenderPass(pass)]
    );
}

#[test]
fn delete_releases_the_attachments() {
    let mut ctx = Context::new(1, 1);
    let a = Texture::new_render_texture(
        &mut ctx,
        TextureParams { width: 4, height: 2, format: TextureFormat::RGBA8 },
    );
    let b = Texture::new_render_texture(
        &mut ctx,
        TextureParams { width: 4, height: 2, format: TextureFormat::Depth },
    );
    let pass = RenderPass::new(&mut ctx, a, Some(b));
    pass.delete(&mut ctx);
    assert!(!ctx.passes[0].live);
    assert!(!ctx.textures[0].live && !ctx.textures[1].live);
    assert_eq!(ctx.commands.last(), Some(&Command::DeleteRenderPass(pass)));
}

#[test]
fn a_pass_marks_its_target_written_until_the_commit() {
    let mut ctx = Context::new(1, 1);
    let a = Texture::new_render_texture(
        &mut ctx,
        TextureParams { width: 4, height: 2, format: TextureFormat::RGBA8 },
    );
    let pass = RenderPass::new(&mut ctx, a, None);
    ctx.begin_pass(Some(pass), PassAction::clear_color(1, 2, 3, 4));
    assert!(ctx.state.recording);
    assert_eq!(ctx.state.target, Some(pass));
    ctx.end_render_pass();
    assert!(!ctx.state.recording);
    assert!(ctx.textures[a.id].written);
    ctx.commit_frame();
    assert!(!ctx.textures[a.id].written);
    assert_eq!(
        &ctx.commands[2..],
        &[
            Command::BeginPass {
                pass: Some(pass),
                action: PassAction::Clear { color: Rgba8 { r: 1, g: 2, b: 3, a: 4 } },
            },
            Command::EndRenderPass,
            Command::CommitFrame,
        ]
    );
}

#[test]
fn bindings_are_recorded_slot_by_slot() {
    let mut ctx = Context::new(8, 8);
    let source = Texture::new_render_texture(
        &mut ctx,
        TextureParams { width: 8, height: 8, format: TextureFormat::RGBA8 },
    );
    let source_pass = RenderPass::new(&mut ctx, source, None);
    let pipe = copy_pipe(&mut ctx, source);
    ctx.begin_pass(Some(source_pass), PassAction::Nothing);
    ctx.end_render_pass();
    let before = ctx.commands.len();
    ctx.begin_default_pass(PassAction::Nothing);
    ctx.apply_pipeline(&pipe.pipe);
    ctx.apply_bindings(&pipe.bind);
    ctx.draw(0, 6, 1);
    ctx.end_render_pass();
    assert_eq!(
        &ctx.commands[before..],
        &[
            Command::BeginPass { pass: None, action: PassAction::Nothing },
            Command::ApplyPipeline(pipe.pipe),
            Command::BindVertexBuffer { slot: 0, buffer: pipe.bind.vertex_buffers[0] },
            Command::BindIndexBuffer(pipe.bind.index_buffer),
            Command::BindImage { slot: 0, texture: source },
            Command::ApplyBindings,
            Command::Draw { base_element: 0, num_elements: 6, num_instances: 1 },
            Command::EndRenderPass,
        ]
    );
    assert_eq!(replay(&ctx, &ctx.commands), 1);
}

#[test]
fn pipeline_keeps_its_layout_and_state() {
    let mut ctx = Context::new(8, 8);
    let shader = Shader::new(
        &mut ctx,
        VertexShader::Flat,
        FragmentShader::Flat,
        render_passes::glow_pipe::meta(),
    );
    let attributes = [VertexAttribute::new(Attribute::Pos, VertexFormat::Float3)];
    let params = PipelineParams { depth_test: Comparison::Equal, depth_write: false };
    let pipe = Pipeline::with_params(
        &mut ctx,
        &[BufferLayout { stride: 12 }],
        &attributes,
        shader,
        params,
    );
    let info = &ctx.pipelines[pipe.id];
    assert_eq!(info.buffer_layout, vec![BufferLayout { stride: 12 }]);
    assert_eq!(info.attributes, attributes.to_vec());
    assert_eq!(info.shader, shader);
    assert_eq!(info.params, params);
    let plain = Pipeline::new(&mut ctx, &[BufferLayout::default()], &attributes, shader);
    assert_eq!(ctx.pipelines[plain.id].params, PipelineParams::default());
    assert_eq!(
        PipelineParams::default(),
        PipelineParams { depth_test: Comparison::Always, depth_write: false }
    );
    assert_eq!(BufferLayout::default().stride, 0);
}

#[test]
fn blur_pipe_chains_two_passes() {
    let mut ctx = Context::new(8, 8);
    let source = Texture::new_render_texture(
        &mut ctx,
        TextureParams { width: 256, height: 256, format: TextureFormat::RGBA8 },
    );
    let source_pass = RenderPass::new(&mut ctx, source, None);
    let blur = BlurPipe::new(&mut ctx, source);
    assert_eq!(blur.horiz.bind.images, vec![source]);
    assert_eq!(blur.vert.bind.images, vec![blur.horiz.get_output()]);
    assert_eq!(blur.get_output(), blur.vert.get_output());
    assert_eq!(ctx.shaders[0].fragment, FragmentShader::BlurHorizontal);
    assert_eq!(ctx.shaders[1].fragment, FragmentShader::BlurVertical);
    assert_eq!(ctx.shaders[0].vertex, VertexShader::Quad);
    for t in [blur.horiz.get_output(), blur.get_output()] {
        assert_eq!(
            ctx.textures[t.id].params,
            TextureParams { width: 256, height: 256, format: TextureFormat::RGBA8 }
        );
    }
    ctx.begin_pass(Some(source_pass), PassAction::Nothing);
    ctx.end_render_pass();
    let before = ctx.commands.len();
    blur.draw(&mut ctx);
    let recorded = &ctx.commands[before..];
    assert_eq!(recorded.len(), 18);
    assert_eq!(
        recorded[0],
        Command::BeginPass {
            pass: Some(blur.horiz.pass),
            action: PassAction::Clear { color: Rgba8 { r: 0, g: 0, b: 0, a: 255 } },
        }
    );
    assert_eq!(
        recorded[6],
        Command::ApplyUniforms(UniformValues::Blur(render_passes::blur_pipe::Uniforms {
            resolution: Resolution { width: 256, height: 256 },
        }))
    );
    assert_eq!(
        recorded[9],
        Command::BeginPass {
            pass: Some(blur.vert.pass),
            action: PassAction::Clear { color: Rgba8 { r: 0, g: 0, b: 0, a: 255 } },
        }
    );
    assert!(ctx.textures[blur.get_output().id].written);
    assert_eq!(replay(&ctx, &ctx.commands), 2);
}

#[test]
fn depth_blur_pipe_carries_its_radius() {
    let mut ctx = Context::new(8, 8);
    let source = Texture::new_render_texture(
        &mut ctx,
        TextureParams { width: 256, height: 256, format: TextureFormat::RGBA8 },
    );
    let source_pass = RenderPass::new(&mut ctx, source, None);
    let radius = Radius { raw: 3 * 256 };
    let blur = BlurShadowPipe::new(&mut ctx, radius, source);
    assert_eq!(ctx.shaders[0].fragment, FragmentShader::DepthBlurHorizontal);
    assert_eq!(ctx.shaders[1].fragment, FragmentShader::DepthBlurVertical);
    ctx.begin_pass(Some(source_pass), PassAction::Nothing);
    ctx.end_render_pass();
    let before = ctx.commands.len();
    blur.draw(&mut ctx);
    let uniforms: Vec<&Command> = ctx.commands[before..]
        .iter()
        .filter(|c| matches!(c, Command::ApplyUniforms(_)))
        .collect();
    let expected = Command::ApplyUniforms(UniformValues::BlurShadow(
        render_passes::blur_shadow_pipe::Uniforms {
            resolution: Resolution { width: 256, height: 256 },
            radius,
        },
    ));
    assert_eq!(uniforms, vec![&expected, &expected]);
    assert_eq!(replay(&ctx, &ctx.commands), 2);
}

#[test]
fn shadow_pipe_exposes_the_blurred_map() {
    let mut ctx = Context::new(8, 8);
    let shadow = ShadowPipe::new(&mut ctx);
    assert_eq!(shadow.get_output(), shadow.blur_pipe.get_output());
    assert_eq!(shadow.blur_pipe.horiz.radius, Radius { raw: 512 });
    let info = &ctx.pipelines[shadow.pipe.id];
    assert_eq!(info.buffer_layout, vec![BufferLayout { stride: 48 }]);
    assert_eq!(
        info.attributes,
        vec![VertexAttribute { name: Attribute::Pos, format: VertexFormat::Float3, buffer_index: 0 }]
    );
    assert_eq!(
        info.params,
        PipelineParams { depth_test: Comparison::LessOrEqual, depth_write: true }
    );
    assert_eq!(live_textures_of(&ctx, 256, 256, TextureFormat::RGBA8), 3);
    assert_eq!(live_textures_of(&ctx, 256, 256, TextureFormat::Depth), 1);
}

#[test]
fn shadow_pipe_draws_every_object_from_the_light() {
    let mut ctx = Context::new(8, 8);
    let bind = cube_bindings(&mut ctx);
    let shadow = ShadowPipe::new(&mut ctx);
    let objects = vec![
        Object { model: MatrixRef { slot: 7 }, start: 0, end: 36 },
        Object { model: MatrixRef { slot: 9 }, start: 6, end: 6 },
    ];
    let (model, view, proj) =
        (MatrixRef { slot: 1 }, MatrixRef { slot: 2 }, MatrixRef { slot: 3 });
    let before = ctx.commands.len();
    shadow.draw(&mut ctx, &bind, &objects, model, view, proj);
    let recorded = &ctx.commands[before..];
    assert_eq!(
        recorded[0],
        Command::BeginPass {
            pass: Some(shadow.pass),
            action: PassAction::Clear { color: Rgba8 { r: 255, g: 255, b: 255, a: 255 } },
        }
    );
    assert_eq!(recorded[1], Command::ApplyPipeline(shadow.pipe));
    assert_eq!(
        &recorded[5..10],
        &[
            Command::ApplyUniforms(UniformValues::Shadow(render_passes::shadow_pipe::Uniforms {
                mvp: Matrix::Product4(proj, view, model, MatrixRef { slot: 7 }),
            })),
            Command::Draw { base_element: 0, num_elements: 36, num_instances: 1 },
            Command::ApplyUniforms(UniformValues::Shadow(render_passes::shadow_pipe::Uniforms {
                mvp: Matrix::Product4(proj, view, model, MatrixRef { slot: 9 }),
            })),
            Command::Draw { base_element: 6, num_elements: 6, num_instances: 1 },
            Command::EndRenderPass,
        ]
    );
    assert!(ctx.textures[shadow.get_output().id].written);
    assert_eq!(replay(&ctx, &ctx.commands), 4);
}

#[test]
fn glow_pipe_draws_plain_objects_black() {
    let mut ctx = Context::new(8, 8);
    let bind = cube_bindings(&mut ctx);
    let glow = GlowPipe::new(&mut ctx);
    assert_eq!(ctx.pipelines[glow.pipe.id].buffer_layout, vec![BufferLayout { stride: 36 }]);
    let objects = vec![Object { model: MatrixRef { slot: 7 }, start: 0, end: 36 }];
    let coloured = vec![render_passes::objects::ColouredObject {
        object: Object { model: MatrixRef { slot: 8 }, start: 0, end: 36 },
        colour: Rgba8 { r: 255, g: 128, b: 0, a: 255 },
    }];
    let (model, view_proj) = (MatrixRef { slot: 1 }, MatrixRef { slot: 2 });
    let before = ctx.commands.len();
    glow.draw(&mut ctx, &bind, &objects, &coloured, model, view_proj);
    let recorded = &ctx.commands[before..];
    assert_eq!(
        recorded[0],
        Command::BeginPass {
            pass: Some(glow.pass),
            action: PassAction::Clear { color: Rgba8 { r: 0, g: 0, b: 0, a: 255 } },
        }
    );
    assert_eq!(
        &recorded[5..10],
        &[
            Command::ApplyUniforms(UniformValues::Glow(render_passes::glow_pipe::Uniforms {
                mvp: Matrix::Product3(view_proj, model, MatrixRef { slot: 7 }),
                colour: Rgba8 { r: 0, g: 0, b: 0, a: 255 },
            })),
            Command::Draw { base_element: 0, num_elements: 36, num_instances: 1 },
            Command::ApplyUniforms(UniformValues::Glow(render_passes::glow_pipe::Uniforms {
                mvp: Matrix::Product3(view_proj, model, MatrixRef { slot: 8 }),
                colour: Rgba8 { r: 255, g: 128, b: 0, a: 255 },
            })),
            Command::Draw { base_element: 0, num_elements: 36, num_instances: 1 },
            Command::EndRenderPass,
        ]
    );
    assert_eq!(replay(&ctx, &ctx.commands), 4);
}

#[test]
fn main_pipe_has_the_size_of_the_screen() {
    let mut ctx = Context::new(640, 480);
    let main = MainPipe::new(&mut ctx);
    assert_eq!(
        ctx.textures[main.get_output().id].params,
        TextureParams { width: 640, height: 480, format: TextureFormat::RGBA8 }
    );
    assert_eq!(live_textures_of(&ctx, 640, 480, TextureFormat::Depth), 1);
    let lit = &ctx.pipelines[main.pipe.id];
    assert_eq!(lit.buffer_layout, vec![BufferLayout { stride: 48 }]);
    assert_eq!(
        lit.attributes,
        vec![
            VertexAttribute::new(Attribute::Pos, VertexFormat::Float3),
            VertexAttribute::new(Attribute::Color0, VertexFormat::Float4),
            VertexAttribute::new(Attribute::Normal, VertexFormat::Float3),
        ]
    );
    let flat = &ctx.pipelines[main.coloured_pipe.id];
    assert_eq!(flat.attributes, vec![VertexAttribute::new(Attribute::Pos, VertexFormat::Float3)]);
    for info in [lit, flat] {
        assert_eq!(
            info.params,
            PipelineParams { depth_test: Comparison::LessOrEqual, depth_write: true }
        );
    }
    assert_eq!(ctx.shaders[lit.shader.id].fragment, FragmentShader::Lit);
    assert_eq!(ctx.shaders[flat.shader.id].fragment, FragmentShader::Flat);
}

#[test]
fn main_pipe_resize_replaces_the_target() {
    let mut ctx = Context::new(640, 480);
    let mut main = MainPipe::new(&mut ctx);
    let (old_pass, old_output) = (main.pass, main.get_output());
    let before = ctx.commands.len();
    main.resize(&mut ctx, 320, 200);
    assert!(main.get_output() != old_output);
    assert!(!ctx.textures[old_output.id].live);
    assert!(!ctx.passes[old_pass.id].live);
    assert!(ctx.passes[main.pass.id].live);
    assert_eq!(
        ctx.textures[main.get_output().id].params,
        TextureParams { width: 320, height: 200, format: TextureFormat::RGBA8 }
    );
    assert_eq!(live_textures_of(&ctx, 640, 480, TextureFormat::RGBA8), 0);
    assert_eq!(live_textures_of(&ctx, 640, 480, TextureFormat::Depth), 0);
    assert_eq!(live_textures_of(&ctx, 320, 200, TextureFormat::RGBA8), 1);
    assert_eq!(live_textures_of(&ctx, 320, 200, TextureFormat::Depth), 1);
    assert_eq!(
        &ctx.commands[before..],
        &[
            Command::NewTexture(main.get_output()),
            Command::NewTexture(ctx.passes[main.pass.id].depth.unwrap()),
            Command::NewRenderPass(main.pass),
            Command::DeleteRenderPass(old_pass),
        ]
    );
}

#[test]
fn main_pipe_draws_lit_then_tinted_objects() {
    let mut ctx = Context::new(64, 64);
    let mut bind = cube_bindings(&mut ctx);
    let shadow = ShadowPipe::new(&mut ctx);
    let main = MainPipe::new(&mut ctx);
    bind.images.push(shadow.get_output());
    let objects = vec![Object { model: MatrixRef { slot: 7 }, start: 0, end: 36 }];
    let coloured = vec![render_passes::objects::ColouredObject {
        object: Object { model: MatrixRef { slot: 8 }, start: 0, end: 36 },
        colour: Rgba8 { r: 0, g: 0, b: 255, a: 255 },
    }];
    let f = frame();
    let geometry = Bindings {
        vertex_buffers: bind.vertex_buffers.clone(),
        index_buffer: bind.index_buffer,
        images: vec![],
    };
    shadow.draw(&mut ctx, &geometry, &objects, f.model, f.light_view, f.light_proj);
    let before = ctx.commands.len();
    main.draw(
        &mut ctx,
        &bind,
        &objects,
        &coloured,
        f.model,
        f.light_pos,
        f.view_proj,
        f.light_view,
        f.light_proj,
    );
    let recorded = &ctx.commands[before..];
    assert_eq!(
        recorded[0],
        Command::BeginPass {
            pass: Some(main.pass),
            action: PassAction::Clear { color: Rgba8 { r: 0, g: 0, b: 0, a: 0 } },
        }
    );
    assert_eq!(recorded[1], Command::ApplyPipeline(main.pipe));
    assert_eq!(recorded[4], Command::BindImage { slot: 0, texture: shadow.get_output() });
    let object = MatrixRef { slot: 7 };
    assert_eq!(
        recorded[6],
        Command::ApplyUniforms(UniformValues::Main(render_passes::main_pipe::Uniforms {
            model: Matrix::Product2(f.model, object),
            proj: Matrix::Slot(f.view_proj),
            normal_matrix: Matrix::Normal(f.model, object),
            light_pos: f.light_pos,
            light_mv: Matrix::Product3(f.light_view, f.model, object),
            light_proj: Matrix::Slot(f.light_proj),
        }))
    );
    assert_eq!(recorded[8], Command::ApplyPipeline(main.coloured_pipe));
    assert_eq!(
        recorded[13],
        Command::ApplyUniforms(UniformValues::Coloured(
            render_passes::main_pipe::ColouredUniforms {
                mvp: Matrix::Product3(f.view_proj, f.model, MatrixRef { slot: 8 }),
                colour: Rgba8 { r: 0, g: 0, b: 255, a: 255 },
            }
        ))
    );
    assert_eq!(recorded.last(), Some(&Command::EndRenderPass));
    assert_eq!(
        recorded.iter().filter(|c| matches!(c, Command::BeginPass { .. })).count(),
        1
    );
    assert_eq!(replay(&ctx, &ctx.commands), 5);
}

#[test]
fn normal_matrix_names_the_object_transform() {
    let m = render_passes::main_pipe::normal_matrix(MatrixRef { slot: 1 }, MatrixRef { slot: 2 });
    assert_eq!(m, Matrix::Normal(MatrixRef { slot: 1 }, MatrixRef { slot: 2 }));
}

#[test]
fn screen_pipelines_bind_what_they_read() {
    let mut ctx = Context::new(8, 8);
    let a = Texture::new_render_texture(
        &mut ctx,
        TextureParams { width: 8, height: 8, format: TextureFormat::RGBA8 },
    );
    let b = Texture::new_render_texture(
        &mut ctx,
        TextureParams { width: 8, height: 8, format: TextureFormat::RGBA8 },
    );
    let copy = copy_pipe(&mut ctx, a);
    let blend = glow_blend_pipe(&mut ctx, a, b);
    let view = depth_view_pipe(&mut ctx, b);
    assert_eq!(copy.bind.images, vec![a]);
    assert_eq!(blend.bind.images, vec![a, b]);
    assert_eq!(view.bind.images, vec![b]);
    let fragment = |p: Pipeline| ctx.shaders[ctx.pipelines[p.id].shader.id].fragment;
    assert_eq!(fragment(copy.pipe), FragmentShader::CopyToScreen);
    assert_eq!(fragment(blend.pipe), FragmentShader::GlowBlend);
    assert_eq!(fragment(view.pipe), FragmentShader::DepthView);
    assert_eq!(ctx.buffers[copy.bind.index_buffer.id].len, 6);
    assert_eq!(ctx.buffers[copy.bind.vertex_buffers[0].id].mesh, Mesh::Quad);
}

#[test]
fn stage_builds_every_pass_once() {
    let mut ctx = Context::new(640, 480);
    let stage = Stage::new(&mut ctx);
    assert_eq!(ctx.textures.len(), 10);
    assert_eq!(ctx.passes.len(), 7);
    assert_eq!(ctx.shaders.len(), 11);
    assert_eq!(ctx.pipelines.len(), 11);
    assert_eq!(ctx.buffers.len(), 16);
    assert_eq!(stage.objects.len(), 55);
    assert_eq!(stage.coloured_objects.len(), 7);
    assert_eq!(stage.output, Composite::GlowBlend);
    assert_eq!(stage.main_bind.images, vec![stage.shadow_map.get_output()]);
    assert_eq!(stage.copy.bind.images, vec![stage.main.get_output()]);
    assert_eq!(
        stage.glow_blend.bind.images,
        vec![stage.main.get_output(), stage.glow.get_output()]
    );
    assert_eq!(stage.depth_view.bind.images, vec![stage.shadow_map.get_output()]);
    assert_eq!(live_textures_of(&ctx, 640, 480, TextureFormat::RGBA8), 1);
    assert_eq!(live_textures_of(&ctx, 256, 256, TextureFormat::RGBA8), 6);
    assert_eq!(ctx.commands.len(), 2 + 17 + 7 + 17 + 12);
    assert_eq!(replay(&ctx, &ctx.commands), 0);
}

#[test]
fn frame_runs_the_passes_in_dependency_order() {
    let mut ctx = Context::new(640, 480);
    let mut stage = Stage::new(&mut ctx);
    let before = ctx.commands.len();
    stage.draw(&mut ctx, frame());
    let recorded: Vec<Command> = ctx.commands[before..].to_vec();
    let targets: Vec<Option<RenderPass>> = recorded
        .iter()
        .filter_map(|c| match c {
            Command::BeginPass { pass, .. } => Some(*pass),
            _ => None,
        })
        .collect();
    assert_eq!(
        targets,
        vec![
            Some(stage.shadow_map.pass),
            Some(stage.shadow_map.blur_pipe.horiz.pass),
            Some(stage.shadow_map.blur_pipe.vert.pass),
            Some(stage.main.pass),
            Some(stage.glow.pass),
            Some(stage.glow.blur_pipe.horiz.pass),
            Some(stage.glow.blur_pipe.vert.pass),
            None,
        ]
    );
    assert_eq!(recorded.last(), Some(&Command::CommitFrame));
    // 55 objects into the shadow map, 55 lit and 7 tinted into the main target,
    // 62 silhouettes, four blur quads and the composite
    assert_eq!(replay(&ctx, &ctx.commands), 55 + 2 + 62 + 62 + 2 + 1);
    assert!(ctx.textures.iter().all(|t| !t.written));
}

#[test]
fn frames_repeat() {
    let mut ctx = Context::new(640, 480);
    let mut stage = Stage::new(&mut ctx);
    let start = ctx.commands.len();
    stage.draw(&mut ctx, frame());
    let middle = ctx.commands.len();
    stage.draw(&mut ctx, frame());
    assert_eq!(ctx.commands[start..middle], ctx.commands[middle..]);
    replay(&ctx, &ctx.commands);
}

#[test]
fn composite_is_selectable() {
    let mut ctx = Context::new(640, 480);
    let mut stage = Stage::new(&mut ctx);
    for (mode, fragment, images) in [
        (Composite::GlowBlend, FragmentShader::GlowBlend, 2),
        (Composite::Copy, FragmentShader::CopyToScreen, 1),
        (Composite::DepthView, FragmentShader::DepthView, 1),
    ] {
        stage.set_output(mode);
        let before = ctx.commands.len();
        stage.draw(&mut ctx, frame());
        let recorded = &ctx.commands[before..];
        let screen = recorded
            .iter()
            .position(|c| matches!(c, Command::BeginPass { pass: None, .. }))
            .unwrap();
        let pipe = match recorded[screen + 1] {
            Command::ApplyPipeline(p) => p,
            _ => panic!("the composite applies no pipeline"),
        };
        assert_eq!(ctx.shaders[ctx.pipelines[pipe.id].shader.id].fragment, fragment);
        let bound = recorded[screen..]
            .iter()
            .filter(|c| matches!(c, Command::BindImage { .. }))
            .count();
        assert_eq!(bound, images);
    }
    replay(&ctx, &ctx.commands);
}

#[test]
fn resize_leaves_one_live_target_and_no_dangling_binding() {
    let mut ctx = Context::new(640, 480);
    let mut stage = Stage::new(&mut ctx);
    let initial = stage.main.get_output();
    stage.resize_event(&mut ctx, 512, 384);
    let second = stage.main.get_output();
    stage.resize_event(&mut ctx, 800, 600);
    assert_eq!(ctx.screen_size(), (800, 600));
    assert_eq!(live_textures_of(&ctx, 800, 600, TextureFormat::RGBA8), 1);
    assert_eq!(live_textures_of(&ctx, 800, 600, TextureFormat::Depth), 1);
    assert_eq!(live_textures_of(&ctx, 512, 384, TextureFormat::RGBA8), 0);
    assert_eq!(live_textures_of(&ctx, 512, 384, TextureFormat::Depth), 0);
    assert_eq!(live_textures_of(&ctx, 640, 480, TextureFormat::RGBA8), 0);
    assert_eq!(live_textures_of(&ctx, 640, 480, TextureFormat::Depth), 0);
    assert_eq!(ctx.textures.iter().filter(|t| t.live).count(), 10);
    assert_eq!(ctx.passes.iter().filter(|p| p.live).count(), 7);
    assert!(!ctx.textures[initial.id].live);
    assert!(!ctx.textures[second.id].live);
    let output = stage.main.get_output();
    assert_eq!(stage.copy.bind.images, vec![output]);
    assert_eq!(stage.glow_blend.bind.images, vec![output, stage.glow.get_output()]);
    let bindings = [
        &stage.shadow_map_bind,
        &stage.main_bind,
        &stage.glow_bind,
        &stage.copy.bind,
        &stage.depth_view.bind,
        &stage.glow_blend.bind,
    ];
    for bind in bindings {
        for t in &bind.images {
            assert!(ctx.textures[t.id].live);
            assert!(*t != initial && *t != second);
        }
    }
    stage.draw(&mut ctx, frame());
    assert_eq!(replay(&ctx, &ctx.commands), 55 + 2 + 62 + 62 + 2 + 1);
}

#[test]
fn cubes_get_consecutive_slots() {
    let objects = cubes(MatrixRef { slot: 10 });
    assert_eq!(objects.len(), 55);
    assert_eq!(objects[0], Object { model: MatrixRef { slot: 10 }, start: 0, end: 36 });
    assert_eq!(objects[53], Object { model: MatrixRef { slot: 63 }, start: 0, end: 36 });
    assert_eq!(objects[54], Object { model: MatrixRef { slot: 64 }, start: 0, end: 6 });
}

#[test]
fn take_commands_empties_the_stream_and_keeps_the_tables() {
    let mut ctx = Context::new(64, 64);
    let mut stage = Stage::new(&mut ctx);
    let created = ctx.commands.len();
    let taken = ctx.take_commands();
    assert_eq!(taken.len(), created);
    assert!(ctx.commands.is_empty());
    assert_eq!(ctx.textures.len(), 10);
    stage.draw(&mut ctx, frame());
    let first_frame = ctx.take_commands();
    stage.draw(&mut ctx, frame());
    assert_eq!(ctx.take_commands(), first_frame);
    let mut whole = taken;
    whole.extend(first_frame);
    assert_eq!(replay(&ctx, &whole), 55 + 2 + 62 + 62 + 2 + 1);
}

#[test]
fn stage_lists_its_programs_in_order_of_creation() {
    let mut ctx = Context::new(64, 64);
    Stage::new(&mut ctx);
    let stages: Vec<(VertexShader, FragmentShader)> =
        ctx.shaders.iter().map(|s| (s.vertex, s.fragment)).collect();
    assert_eq!(
        stages,
        vec![
            (VertexShader::ShadowDepth, FragmentShader::ShadowDepth),
            (VertexShader::Quad, FragmentShader::DepthBlurHorizontal),
            (VertexShader::Quad, FragmentShader::DepthBlurVertical),
            (VertexShader::Lit, FragmentShader::Lit),
            (VertexShader::Flat, FragmentShader::Flat),
            (VertexShader::Flat, FragmentShader::Flat),
            (VertexShader::Quad, FragmentShader::BlurHorizontal),
            (VertexShader::Quad, FragmentShader::BlurVertical),
            (VertexShader::Quad, FragmentShader::CopyToScreen),
            (VertexShader::Quad, FragmentShader::GlowBlend),
            (VertexShader::Quad, FragmentShader::DepthView),
        ]
    );
    let strides: Vec<i32> = ctx.pipelines.iter().map(|p| p.buffer_layout[0].stride).collect();
    assert_eq!(strides, vec![48, 0, 0, 48, 48, 36, 0, 0, 0, 0, 0]);
    let sizes: Vec<(u32, u32, TextureFormat)> = ctx
        .textures
        .iter()
        .map(|t| (t.params.width, t.params.height, t.params.format))
        .collect();
    assert_eq!(
        sizes,
        vec![
            (256, 256, TextureFormat::RGBA8),
            (256, 256, TextureFormat::Depth),
            (256, 256, TextureFormat::RGBA8),
            (256, 256, TextureFormat::RGBA8),
            (64, 64, TextureFormat::RGBA8),
            (64, 64, TextureFormat::Depth),
            (256, 256, TextureFormat::RGBA8),
            (256, 256, TextureFormat::Depth),
            (256, 256, TextureFormat::RGBA8),
            (256, 256, TextureFormat::RGBA8),
        ]
    );
}

#[test]
fn check_tells_consistent_tables_apart() {
    let mut ctx = Context::new(64, 64);
    assert!(ctx.check());
    let mut stage = Stage::new(&mut ctx);
    assert!(ctx.check());
    stage.resize_event(&mut ctx, 32, 32);
    stage.draw(&mut ctx, frame());
    assert!(ctx.check());
    let pass = ctx.passes[0];
    ctx.passes[0].color = Texture { id: 1000 };
    assert!(!ctx.check());
    ctx.passes[0] = pass;
    assert!(ctx.check());
    ctx.state.uniforms = true;
    assert!(!ctx.check());
    ctx.state.uniforms = false;
    ctx.pipelines[0].shader = Shader { id: 11 };
    assert!(!ctx.check());
}
