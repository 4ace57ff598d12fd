use render_passes::formats::{UniformType, VertexFormat};
use render_passes::objects::{coloured_cubes, cube_verts, ColouredObject, Object};
use render_passes::formats::Rgba8;
use render_passes::matrix::MatrixRef;
use render_passes::quad::quad_verts;
use render_passes::shader::{Attribute, Sampler, UniformDesc, UniformName};

#[test]
fn vertex_formats_take_four_bytes_per_component() {
    assert_eq!(VertexFormat::Float1.byte_len(), 4);
    assert_eq!(VertexFormat::Float2.byte_len(), 8);
    assert_eq!(VertexFormat::Float3.byte_len(), 12);
    assert_eq!(VertexFormat::Float4.byte_len(), 16);
    assert_eq!(VertexFormat::Float3.size(), 3);
    // position and texture coordinate of the quad
    assert_eq!(VertexFormat::Float2.byte_len() + VertexFormat::Float2.byte_len(), 16);
    // position, colour, normal and texture coordinate of the cube
    assert_eq!(
        VertexFormat::Float3.byte_len()
            + VertexFormat::Float4.byte_len()
            + VertexFormat::Float3.byte_len()
            + VertexFormat::Float2.byte_len(),
        48
    );
}

#[test]
fn uniform_types_have_their_sizes() {
    assert_eq!(UniformType::Float1.size(), 4);
    assert_eq!(UniformType::Float2.size(), 8);
    assert_eq!(UniformType::Float3.size(), 12);
    assert_eq!(UniformType::Float4.size(), 16);
    assert_eq!(UniformType::Mat4.size(), 64);
}

#[test]
fn uniform_blocks_have_the_size_of_their_members() {
    assert_eq!(render_passes::blur_pipe::meta().uniforms.size(), 8);
    assert_eq!(render_passes::blur_shadow_pipe::meta().uniforms.size(), 12);
    assert_eq!(render_passes::shadow_pipe::meta().uniforms.size(), 64);
    assert_eq!(render_passes::glow_pipe::meta().uniforms.size(), 80);
    assert_eq!(render_passes::main_pipe::meta().uniforms.size(), 5 * 64 + 16);
    assert_eq!(render_passes::main_pipe::coloured_meta().uniforms.size(), 80);
    assert_eq!(render_passes::copy_to_screen_shader::meta().uniforms.size(), 0);
}

#[test]
fn programs_declare_their_samplers() {
    assert_eq!(render_passes::blur_pipe::meta().images, vec![Sampler::Tex]);
    assert_eq!(render_passes::blur_shadow_pipe::meta().images, vec![Sampler::Tex]);
    assert_eq!(render_passes::shadow_pipe::meta().images, vec![]);
    assert_eq!(render_passes::glow_pipe::meta().images, vec![]);
    assert_eq!(render_passes::main_pipe::meta().images, vec![Sampler::ShadowMap]);
    assert_eq!(render_passes::main_pipe::coloured_meta().images, vec![]);
    assert_eq!(render_passes::copy_to_screen_shader::meta().images, vec![Sampler::Tex]);
    assert_eq!(
        render_passes::glow_blend_shader::meta().images,
        vec![Sampler::Scene, Sampler::Glow]
    );
    assert_eq!(render_passes::depth_view_shader::meta().images, vec![Sampler::Tex]);
    assert!(render_passes::glow_blend_shader::meta().uniforms.uniforms.is_empty());
    assert!(render_passes::depth_view_shader::meta().uniforms.uniforms.is_empty());
}

#[test]
fn programs_declare_their_uniforms_in_order() {
    let names: Vec<&str> = render_passes::main_pipe::meta()
        .uniforms
        .uniforms
        .iter()
        .map(|u| u.name.name())
        .collect();
    assert_eq!(
        names,
        vec!["model", "proj", "normal_matrix", "light_pos", "light_mv", "light_proj"]
    );
    assert_eq!(
        render_passes::blur_shadow_pipe::meta().uniforms.uniforms,
        vec![
            UniformDesc::new(UniformName::Resolution, UniformType::Float2),
            UniformDesc::new(UniformName::Radius, UniformType::Float1),
        ]
    );
    assert_eq!(
        render_passes::glow_pipe::meta().uniforms.uniforms,
        vec![
            UniformDesc::new(UniformName::Mvp, UniformType::Mat4),
            UniformDesc::new(UniformName::Colour, UniformType::Float4),
        ]
    );
}

#[test]
fn names_are_those_of_the_programs() {
    assert_eq!(Sampler::Tex.name(), "tex");
    assert_eq!(Sampler::Scene.name(), "scene");
    assert_eq!(Sampler::Glow.name(), "glow");
    assert_eq!(Sampler::ShadowMap.name(), "shadow_map");
    assert_eq!(Attribute::Pos.name(), "pos");
    assert_eq!(Attribute::Uv.name(), "uv");
    assert_eq!(Attribute::Color0.name(), "color0");
    assert_eq!(Attribute::Normal.name(), "normal");
    assert_eq!(UniformName::Resolution.name(), "resolution");
    assert_eq!(UniformName::Radius.name(), "radius");
    assert_eq!(UniformName::Mvp.name(), "mvp");
    assert_eq!(UniformName::Colour.name(), "colour");
}

#[test]
fn cube_has_four_vertices_and_two_triangles_per_face() {
    let (vertices, indices) = cube_verts();
    assert_eq!(vertices.len(), 24 * 12);
    assert_eq!(indices.len(), 36);
    assert!(indices.iter().all(|i| *i < 24));
    // first vertex: position (-1, -1, -1), colour (1, 0.5, 0.5, 1), normal (0, 0, -1), uv (0, 0)
    assert_eq!(&vertices[..12], &[-2, -2, -2, 2, 1, 1, 2, 0, 0, -2, 0, 0]);
    assert_eq!(&indices[..6], &[0, 1, 2, 0, 2, 3]);
    assert_eq!(&indices[30..], &[22, 21, 20, 23, 22, 20]);
    for triangle in indices.chunks(3) {
        let normal = |v: u16| {
            let at = v as usize * 12 + 7;
            [vertices[at], vertices[at + 1], vertices[at + 2]]
        };
        assert_eq!(normal(triangle[0]), normal(triangle[1]));
        assert_eq!(normal(triangle[0]), normal(triangle[2]));
    }
}

#[test]
fn quad_covers_the_clip_space() {
    let (vertices, indices) = quad_verts();
    assert_eq!(vertices, vec![-2, -2, 0, 0, 2, -2, 2, 0, 2, 2, 2, 2, -2, 2, 0, 2]);
    assert_eq!(indices, vec![0, 1, 2, 0, 2, 3]);
}

#[test]
fn coloured_cubes_take_the_palette() {
    let cubes = coloured_cubes(MatrixRef { slot: 55 });
    assert_eq!(cubes.len(), 7);
    assert_eq!(
        cubes[0],
        ColouredObject {
            object: Object { model: MatrixRef { slot: 55 }, start: 0, end: 36 },
            colour: Rgba8 { r: 255, g: 0, b: 0, a: 255 },
        }
    );
    assert_eq!(cubes[1].colour, Rgba8 { r: 255, g: 128, b: 0, a: 255 });
    assert_eq!(cubes[5].colour, Rgba8 { r: 77, g: 0, b: 128, a: 255 });
    assert_eq!(
        cubes[6],
        ColouredObject {
            object: Object { model: MatrixRef { slot: 61 }, start: 0, end: 36 },
            colour: Rgba8 { r: 128, g: 0, b: 128, a: 255 },
        }
    );
}
