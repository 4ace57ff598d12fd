//! The drawable objects of the scene. All of them share one vertex buffer and
//! one index buffer; an object is a range of the indices and a transform.

use vstd::prelude::*;
use crate::context::{
    Bindings, BindingsView, Buffer, BufferInfo, BufferType, Command, Context, Ids, Mesh, Tables,
    Texture,
};
use crate::formats::Rgba8;
use crate::matrix::MatrixRef;
use crate::xoroshiro::{from_seed, jump, jumped, next_u64, output, reseed, rng_state, stepped};
use xorshift::Xoroshiro128;

verus! {

/// A drawable range of the shared index buffer: `end` indices from `start` on,
/// placed by `model`.
#[derive(Clone, Copy, Debug, PartialEq, Eq, Structural)]
pub struct Object {
    pub model: MatrixRef,
    pub start: i32,
    pub end: i32,
}

/// An object that is drawn unlit in one colour.
#[derive(Clone, Copy, Debug, PartialEq, Eq, Structural)]
pub struct ColouredObject {
    pub object: Object,
    pub colour: Rgba8,
}

impl Object {
    /// The object's range lies in an index buffer of `indices` indices.
    pub open spec fn fits(self, indices: int) -> bool {
        &&& 0 <= self.start
        &&& 0 <= self.end
        &&& self.start + self.end <= indices
    }
}

/// Every object's range lies in an index buffer of `indices` indices.
pub open spec fn all_fit(objects: Seq<Object>, indices: int) -> bool {
    forall|k: int| 0 <= k < objects.len() ==> (#[trigger] objects[k]).fits(indices)
}

/// Every coloured object's range lies in an index buffer of `indices` indices.
pub open spec fn all_coloured_fit(objects: Seq<ColouredObject>, indices: int) -> bool {
    forall|k: int| 0 <= k < objects.len() ==> (#[trigger] objects[k]).object.fits(indices)
}

/// Number of scalars per vertex of the cube: position, colour, normal and
/// texture coordinate.
pub const VERTEX_SCALARS: usize = 12;

/// Number of vertices of the cube.
pub const CUBE_VERTICES: usize = 24;

/// Number of indices of the cube.
pub const CUBE_INDICES: usize = 36;

/// The vertices of the cube, four per face. A vertex holds twelve scalars in
/// halves (`2` stands for `1.0`): the position `x y z`, the colour `r g b a`,
/// the normal `x y z` and the texture coordinate `u v`.
pub open spec fn cube_vertices() -> Seq<i8> {
    seq![
        -2i8, -2i8, -2i8, 2, 1, 1, 2, 0, 0, -2i8, 0, 0,
        2, -2i8, -2i8, 2, 1, 1, 2, 0, 0, -2i8, 2, 0,
        2, 2, -2i8, 2, 1, 1, 2, 0, 0, -2i8, 2, 2,
        -2i8, 2, -2i8, 2, 1, 1, 2, 0, 0, -2i8, 0, 2,
        -2i8, -2i8, 2, 1, 2, 1, 2, 0, 0, 2, 0, 0,
        2, -2i8, 2, 1, 2, 1, 2, 0, 0, 2, 2, 0,
        2, 2, 2, 1, 2, 1, 2, 0, 0, 2, 2, 2,
        -2i8, 2, 2, 1, 2, 1, 2, 0, 0, 2, 0, 2,
        -2i8, -2i8, -2i8, 1, 1, 2, 2, -2i8, 0, 0, 0, 0,
        -2i8, 2, -2i8, 1, 1, 2, 2, -2i8, 0, 0, 2, 0,
        -2i8, 2, 2, 1, 1, 2, 2, -2i8, 0, 0, 2, 2,
        -2i8, -2i8, 2, 1, 1, 2, 2, -2i8, 0, 0, 0, 2,
        2, -2i8, -2i8, 2, 1, 0, 2, 2, 0, 0, 0, 0,
        2, 2, -2i8, 2, 1, 0, 2, 2, 0, 0, 2, 0,
        2, 2, 2, 2, 1, 0, 2, 2, 0, 0, 2, 2,
        2, -2i8, 2, 2, 1, 0, 2, 2, 0, 0, 0, 2,
        -2i8, -2i8, -2i8, 0, 1, 2, 2, 0, -2i8, 0, 0, 0,
        -2i8, -2i8, 2, 0, 1, 2, 2, 0, -2i8, 0, 2, 0,
        2, -2i8, 2, 0, 1, 2, 2, 0, -2i8, 0, 2, 2,
        2, -2i8, -2i8, 0, 1, 2, 2, 0, -2i8, 0, 0, 2,
        -2i8, 2, -2i8, 2, 0, 1, 2, 0, 2, 0, 0, 0,
        -2i8, 2, 2, 2, 0, 1, 2, 0, 2, 0, 2, 0,
        2, 2, 2, 2, 0, 1, 2, 0, 2, 0, 2, 2,
        2, 2, -2i8, 2, 0, 1, 2, 0, 2, 0, 0, 2,
    ]
}

/// The indices of the cube: two triangles per face.
pub open spec fn cube_indices() -> Seq<u16> {
    seq![
        0u16, 1, 2, 0, 2, 3,
        6, 5, 4, 7, 6, 4,
        8, 9, 10, 8, 10, 11,
        14, 13, 12, 15, 14, 12,
        16, 17, 18, 16, 18, 19,
        22, 21, 20, 23, 22, 20,
    ]
}

/// Scalar `c` of vertex `v` of the cube.
pub open spec fn scalar(vertices: Seq<i8>, v: int, c: int) -> int {
    vertices[12 * v + c] as int
}

/// The vertex lies on the face of the cube that its normal names: the normal
/// is a unit vector along one axis, and on that axis the position has the
/// normal's coordinate.
pub open spec fn on_its_face(vertices: Seq<i8>, v: int) -> bool {
    let (x, y, z) = (scalar(vertices, v, 0), scalar(vertices, v, 1), scalar(vertices, v, 2));
    let (nx, ny, nz) = (scalar(vertices, v, 7), scalar(vertices, v, 8), scalar(vertices, v, 9));
    ||| (nx == x && (x == 2 || x == -2) && ny == 0 && nz == 0)
    ||| (ny == y && (y == 2 || y == -2) && nx == 0 && nz == 0)
    ||| (nz == z && (z == 2 || z == -2) && nx == 0 && ny == 0)
}

/// The three corners of triangle `t` have the same normal.
pub open spec fn flat_triangle(vertices: Seq<i8>, indices: Seq<u16>, t: int) -> bool {
    let (a, b, c) = (indices[3 * t] as int, indices[3 * t + 1] as int, indices[3 * t + 2] as int);
    forall|k: int|
        7 <= k <= 9 ==> #[trigger] scalar(vertices, a, k) == scalar(vertices, b, k) && scalar(
            vertices,
            a,
            k,
        ) == scalar(vertices, c, k)
}

/// Every vertex of the cube lies on the face that its normal names.
pub proof fn lemma_cube_faces()
    ensures
        forall|v: int| 0 <= v < CUBE_VERTICES ==> on_its_face(cube_vertices(), v),
{
    assert(on_its_face(cube_vertices(), 0));
    assert(on_its_face(cube_vertices(), 1));
    assert(on_its_face(cube_vertices(), 2));
    assert(on_its_face(cube_vertices(), 3));
    assert(on_its_face(cube_vertices(), 4));
    assert(on_its_face(cube_vertices(), 5));
    assert(on_its_face(cube_vertices(), 6));
    assert(on_its_face(cube_vertices(), 7));
    assert(on_its_face(cube_vertices(), 8));
    assert(on_its_face(cube_vertices(), 9));
    assert(on_its_face(cube_vertices(), 10));
    assert(on_its_face(cube_vertices(), 11));
    assert(on_its_face(cube_vertices(), 12));
    assert(on_its_face(cube_vertices(), 13));
    assert(on_its_face(cube_vertices(), 14));
    assert(on_its_face(cube_vertices(), 15));
    assert(on_its_face(cube_vertices(), 16));
    assert(on_its_face(cube_vertices(), 17));
    assert(on_its_face(cube_vertices(), 18));
    assert(on_its_face(cube_vertices(), 19));
    assert(on_its_face(cube_vertices(), 20));
    assert(on_its_face(cube_vertices(), 21));
    assert(on_its_face(cube_vertices(), 22));
    assert(on_its_face(cube_vertices(), 23));
}

/// The vertices and the indices of the cube. Every index names a vertex, every
/// vertex lies on the face that its normal names, and every triangle is flat.
pub fn cube_verts() -> (cube: (Vec<i8>, Vec<u16>))
    ensures
        cube.0@ == cube_vertices(),
        cube.1@ == cube_indices(),
        cube.0@.len() == VERTEX_SCALARS * CUBE_VERTICES,
        cube.1@.len() == CUBE_INDICES,
        forall|i: int| 0 <= i < CUBE_INDICES ==> (#[trigger] cube.1@[i]) < CUBE_VERTICES,
        forall|v: int| 0 <= v < CUBE_VERTICES ==> on_its_face(cube.0@, v),
        forall|t: int| 0 <= t < 12 ==> flat_triangle(cube.0@, cube.1@, t),
{
    let vertices: Vec<i8> = vec![
        -2, -2, -2, 2, 1, 1, 2, 0, 0, -2, 0, 0,
        2, -2, -2, 2, 1, 1, 2, 0, 0, -2, 2, 0,
        2, 2, -2, 2, 1, 1, 2, 0, 0, -2, 2, 2,
        -2, 2, -2, 2, 1, 1, 2, 0, 0, -2, 0, 2,
        -2, -2, 2, 1, 2, 1, 2, 0, 0, 2, 0, 0,
        2, -2, 2, 1, 2, 1, 2, 0, 0, 2, 2, 0,
        2, 2, 2, 1, 2, 1, 2, 0, 0, 2, 2, 2,
        -2, 2, 2, 1, 2, 1, 2, 0, 0, 2, 0, 2,
        -2, -2, -2, 1, 1, 2, 2, -2, 0, 0, 0, 0,
        -2, 2, -2, 1, 1, 2, 2, -2, 0, 0, 2, 0,
        -2, 2, 2, 1, 1, 2, 2, -2, 0, 0, 2, 2,
        -2, -2, 2, 1, 1, 2, 2, -2, 0, 0, 0, 2,
        2, -2, -2, 2, 1, 0, 2, 2, 0, 0, 0, 0,
        2, 2, -2, 2, 1, 0, 2, 2, 0, 0, 2, 0,
        2, 2, 2, 2, 1, 0, 2, 2, 0, 0, 2, 2,
        2, -2, 2, 2, 1, 0, 2, 2, 0, 0, 0, 2,
        -2, -2, -2, 0, 1, 2, 2, 0, -2, 0, 0, 0,
        -2, -2, 2, 0, 1, 2, 2, 0, -2, 0, 2, 0,
        2, -2, 2, 0, 1, 2, 2, 0, -2, 0, 2, 2,
        2, -2, -2, 0, 1, 2, 2, 0, -2, 0, 0, 2,
        -2, 2, -2, 2, 0, 1, 2, 0, 2, 0, 0, 0,
        -2, 2, 2, 2, 0, 1, 2, 0, 2, 0, 2, 0,
        2, 2, 2, 2, 0, 1, 2, 0, 2, 0, 2, 2,
        2, 2, -2, 2, 0, 1, 2, 0, 2, 0, 0, 2,
    ];
    let indices: Vec<u16> = vec![
        0, 1, 2, 0, 2, 3,
        6, 5, 4, 7, 6, 4,
        8, 9, 10, 8, 10, 11,
        14, 13, 12, 15, 14, 12,
        16, 17, 18, 16, 18, 19,
        22, 21, 20, 23, 22, 20,
    ];
    proof {
        lemma_cube_faces();
    }
    (vertices, indices)
}

/// The entries that the geometry of the scene adds to the tables of a
/// context: the buffer of the cube's vertices, then the buffer of its indices.
pub open spec fn cube_tables() -> Tables {
    Tables {
        buffers: seq![
            BufferInfo {
                kind: BufferType::VertexBuffer,
                mesh: Mesh::Cube,
                len: (VERTEX_SCALARS * CUBE_VERTICES) as usize,
            },
            BufferInfo { kind: BufferType::IndexBuffer, mesh: Mesh::Cube, len: CUBE_INDICES },
        ],
        ..Tables::empty()
    }
}

/// Bindings of one vertex buffer and one index buffer, the two that a context
/// creates when its next ids are `at`, and of `images`.
pub open spec fn bindings_at(at: Ids, images: Seq<Texture>) -> BindingsView {
    BindingsView {
        vertex_buffers: seq![Buffer { id: at.buffers as usize }],
        index_buffer: Buffer { id: (at.buffers + 1) as usize },
        images,
    }
}

/// The bindings of the scene's geometry: the cube's vertex buffer, its index
/// buffer, and no texture.
pub fn cube_bindings(ctx: &mut Context) -> (bind: Bindings)
    requires
        old(ctx).wf(),
    ensures
        final(ctx).wf(),
        final(ctx).valid_geometry(bind@, CUBE_INDICES as int),
        bind@ == bindings_at(old(ctx).ids(), Seq::empty()),
        final(ctx).tables() == old(ctx).tables().plus(cube_tables()),
        final(ctx).extends(old(ctx)),
        final(ctx).state == old(ctx).state,
        final(ctx).commands@ == old(ctx).commands@ + seq![
            Command::NewBuffer(bind@.vertex_buffers[0]),
            Command::NewBuffer(bind@.index_buffer),
        ],
{
    let (vertices, indices) = cube_verts();
    let vertex_buffer = Buffer::immutable(ctx, BufferType::VertexBuffer, Mesh::Cube, vertices.len());
    let index_buffer = Buffer::immutable(ctx, BufferType::IndexBuffer, Mesh::Cube, indices.len());
    let bind = Bindings { vertex_buffers: vec![vertex_buffer], index_buffer, images: vec![] };
    proof {
        let more = cube_tables();
        assert(bind@.vertex_buffers =~= seq![vertex_buffer]);
        assert(bind@.images =~= Seq::empty());
        assert(ctx.textures@ =~= old(ctx).textures@ + more.textures);
        assert(ctx.passes@ =~= old(ctx).passes@ + more.passes);
        assert(ctx.shader_views() =~= old(ctx).shader_views() + more.shaders);
        assert(ctx.pipeline_views() =~= old(ctx).pipeline_views() + more.pipelines);
        assert(ctx.buffers@ =~= old(ctx).buffers@ + more.buffers);
        assert(ctx.commands@ =~= old(ctx).commands@ + seq![
            Command::NewBuffer(vertex_buffer),
            Command::NewBuffer(index_buffer),
        ]);
    }
    bind
}

/// A point of the integer grid on which the cuboids of the scene stand.
#[derive(Clone, Copy, Debug, PartialEq, Eq, Structural)]
pub struct Site {
    pub x: i32,
    pub y: i32,
    pub z: i32,
}

/// Number of cuboids of the scene: a grid of six columns and nine rows.
pub const CUBOIDS: usize = 54;

/// `v`, or the nearest 32-bit integer.
pub open spec fn saturated(v: int) -> int {
    if v < i32::MIN {
        i32::MIN as int
    } else if v > i32::MAX {
        i32::MAX as int
    } else {
        v
    }
}

/// The site of cuboid `k` of the grid around `pos`: column `k % 6` and row
/// `k / 6` of a grid whose corner lies three columns and three rows before
/// the mirror image of `pos`.
pub open spec fn site_at(pos: Site, k: int) -> Site {
    Site {
        x: saturated(-pos.x + k % 6 - 3) as i32,
        y: saturated(-(pos.y as int)) as i32,
        z: saturated(-pos.z + k / 6 - 3) as i32,
    }
}

fn saturate(v: i64) -> (r: i32)
    ensures
        r == saturated(v as int),
{
    if v < -2147483648 {
        -2147483648
    } else if v > 2147483647 {
        2147483647
    } else {
        v as i32
    }
}

/// The sites of the cuboids around `pos`, row by row.
pub fn cube_sites(pos: Site) -> (sites: Vec<Site>)
    ensures
        sites@.len() == CUBOIDS,
        forall|k: int| 0 <= k < CUBOIDS ==> #[trigger] sites@[k] == site_at(pos, k),
{
    let mut sites: Vec<Site> = Vec::new();
    let mut z: i64 = -3;
    while z < 6
        invariant
            -3 <= z <= 6,
            sites@.len() == 6 * (z + 3),
            forall|k: int| 0 <= k < sites@.len() ==> #[trigger] sites@[k] == site_at(pos, k),
        decreases 6 - z,
    {
        let mut x: i64 = -3;
        while x < 3
            invariant
                -3 <= x <= 3,
                -3 <= z < 6,
                sites@.len() == 6 * (z + 3) + (x + 3),
                forall|k: int| 0 <= k < sites@.len() ==> #[trigger] sites@[k] == site_at(pos, k),
            decreases 3 - x,
        {
            let ghost k = sites@.len() as int;
            assert(k % 6 == x + 3 && k / 6 == z + 3);
            let site = Site {
                x: saturate(-(pos.x as i64) + x),
                y: saturate(-(pos.y as i64)),
                z: saturate(-(pos.z as i64) + z),
            };
            sites.push(site);
            x = x + 1;
        }
        z = z + 1;
    }
    sites
}

/// The objects of the scene with their transforms in the slots from `first`
/// on: the cuboids, each the 36 indices of the cube, then the ground plane,
/// the first 6 indices.
pub open spec fn scene_objects(first: MatrixRef) -> Seq<Object> {
    Seq::new(
        (CUBOIDS + 1) as nat,
        |k: int|
            Object {
                model: MatrixRef { slot: (first.slot + k) as usize },
                start: 0,
                end: if k < CUBOIDS {
                    36
                } else {
                    6
                },
            },
    )
}

/// The objects of the scene: the cuboids, each a whole cube, then the ground
/// plane, one face of the cube. Object `k` has its transform in slot
/// `first.slot + k`.
pub fn cubes(first: MatrixRef) -> (objects: Vec<Object>)
    requires
        first.slot + CUBOIDS <= usize::MAX,
    ensures
        objects@ == scene_objects(first),
        objects@.len() == CUBOIDS + 1,
        all_fit(objects@, CUBE_INDICES as int),
{
    let mut objects: Vec<Object> = Vec::new();
    let mut k: usize = 0;
    while k < CUBOIDS
        invariant
            k <= CUBOIDS,
            first.slot + CUBOIDS <= usize::MAX,
            objects@.len() == k,
            forall|j: int|
                0 <= j < k ==> #[trigger] objects@[j] == (Object {
                    model: MatrixRef { slot: (first.slot + j) as usize },
                    start: 0,
                    end: 36,
                }),
        decreases CUBOIDS - k,
    {
        objects.push(Object { model: MatrixRef { slot: first.slot + k }, start: 0, end: 36 });
        k = k + 1;
    }
    objects.push(Object { model: MatrixRef { slot: first.slot + CUBOIDS }, start: 0, end: 6 });
    assert(objects@ =~= scene_objects(first));
    objects
}

/// The colours of the coloured cubes.
pub open spec fn palette() -> Seq<Rgba8> {
    seq![
        Rgba8 { r: 255, g: 0, b: 0, a: 255 },
        Rgba8 { r: 255, g: 128, b: 0, a: 255 },
        Rgba8 { r: 255, g: 255, b: 0, a: 255 },
        Rgba8 { r: 0, g: 255, b: 0, a: 255 },
        Rgba8 { r: 0, g: 0, b: 255, a: 255 },
        Rgba8 { r: 77, g: 0, b: 128, a: 255 },
        Rgba8 { r: 128, g: 0, b: 128, a: 255 },
    ]
}

/// The coloured cubes with their transforms in the slots from `first` on:
/// one per colour of the palette, each the 36 indices of the cube.
pub open spec fn scene_coloured(first: MatrixRef) -> Seq<ColouredObject> {
    Seq::new(
        palette().len(),
        |k: int|
            ColouredObject {
                object: Object {
                    model: MatrixRef { slot: (first.slot + k) as usize },
                    start: 0,
                    end: 36,
                },
                colour: palette()[k],
            },
    )
}

/// The coloured cubes of the scene, one per colour of the palette, each a
/// whole cube. Cube `k` has its transform in slot `first.slot + k`.
pub fn coloured_cubes(first: MatrixRef) -> (cubes: Vec<ColouredObject>)
    requires
        first.slot + 7 <= usize::MAX,
    ensures
        cubes@ == scene_coloured(first),
        cubes@.len() == 7,
        all_coloured_fit(cubes@, CUBE_INDICES as int),
{
    let colours: Vec<Rgba8> = vec![
        Rgba8::new(255, 0, 0, 255),
        Rgba8::new(255, 128, 0, 255),
        Rgba8::new(255, 255, 0, 255),
        Rgba8::new(0, 255, 0, 255),
        Rgba8::new(0, 0, 255, 255),
        Rgba8::new(77, 0, 128, 255),
        Rgba8::new(128, 0, 128, 255),
    ];
    assert(colours@ =~= palette());
    let mut cubes: Vec<ColouredObject> = Vec::new();
    let mut k: usize = 0;
    while k < colours.len()
        invariant
            k <= colours@.len(),
            colours@ == palette(),
            first.slot + 7 <= usize::MAX,
            cubes@.len() == k,
            forall|j: int|
                0 <= j < k ==> #[trigger] cubes@[j] == (ColouredObject {
                    object: Object {
                        model: MatrixRef { slot: (first.slot + j) as usize },
                        start: 0,
                        end: 36,
                    },
                    colour: palette()[j],
                }),
        decreases colours@.len() - k,
    {
        cubes.push(
            ColouredObject {
                object: Object { model: MatrixRef { slot: first.slot + k }, start: 0, end: 36 },
                colour: colours[k],
            },
        );
        k = k + 1;
    }
    assert(cubes@ =~= scene_coloured(first));
    cubes
}

/// What a coordinate adds to the seed: the coordinate shifted by `i32::MAX`,
/// as a 64-bit word in two's complement.
pub open spec fn coordinate_word(d: i32) -> u64 {
    if d == i32::MIN {
        u64::MAX
    } else {
        (d + i32::MAX) as u64
    }
}

/// The seed that a coordinate `d` makes of two numbers drawn from a
/// generator: the first number, and the second plus the coordinate's word,
/// modulo 2^64.
pub open spec fn coordinate_seed_of(first: u64, second: u64, d: i32) -> (u64, u64) {
    (first, ((second + coordinate_word(d)) % 0x1_0000_0000_0000_0000) as u64)
}

/// The seed that a coordinate `d` makes of two numbers drawn from a generator.
pub fn coordinate_seed(first: u64, second: u64, d: i32) -> (seed: (u64, u64))
    ensures
        seed == coordinate_seed_of(first, second, d),
{
    let shifted: i64 = d as i64 + 2147483647;
    let word: u64 = if shifted < 0 {
        u64::MAX
    } else {
        shifted as u64
    };
    (first, second.wrapping_add(word))
}

/// The state of a generator after a coordinate `d` has been mixed into the
/// state `state`: two numbers are drawn, the seed that `d` makes of them
/// replaces the state, and the generator jumps once.
pub open spec fn mixed(state: (u64, u64), d: i32) -> (u64, u64) {
    let seed = coordinate_seed_of(output(state), output(stepped(state)), d);
    jumped(seed.0, seed.1, 1)
}

/// The state of the generator of stream `i` at the site `pos`: seeded with
/// `(1, i)`, jumped once, then mixed with `x`, `y` and `z` in turn.
pub open spec fn site_state(pos: Site, i: u64) -> (u64, u64) {
    mixed(mixed(mixed(jumped(1, i, 1), pos.x), pos.y), pos.z)
}

/// A generator for the site `pos`. Equal sites and streams give equal
/// generators; the stream `i` tells apart the generators of one site.
pub fn rng_from_pos(pos: Site, i: u64) -> (rng: Xoroshiro128)
    ensures
        rng_state(rng) == site_state(pos, i),
{
    let mut rng = from_seed(1, i);
    jump(&mut rng, 1);
    let coordinates = [pos.x, pos.y, pos.z];
    let mut k: usize = 0;
    while k < 3
        invariant
            k <= 3,
            coordinates@ == seq![pos.x, pos.y, pos.z],
            k == 0 ==> rng_state(rng) == jumped(1, i, 1),
            k == 1 ==> rng_state(rng) == mixed(jumped(1, i, 1), pos.x),
            k == 2 ==> rng_state(rng) == mixed(mixed(jumped(1, i, 1), pos.x), pos.y),
            k == 3 ==> rng_state(rng) == site_state(pos, i),
        decreases 3 - k,
    {
        let first = next_u64(&mut rng);
        let second = next_u64(&mut rng);
        let seed = coordinate_seed(first, second, coordinates[k]);
        reseed(&mut rng, seed.0, seed.1);
        jump(&mut rng, 1);
        k = k + 1;
    }
    rng
}

} // verus!
