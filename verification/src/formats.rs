//! Plain descriptions of the data formats that the passes hand to the device:
//! texture formats, vertex attribute formats, uniform types and colours.

use vstd::prelude::*;

verus! {

/// Storage format of a texture.
#[derive(Clone, Copy, Debug, PartialEq, Eq, Structural)]
pub enum TextureFormat {
    /// Four 8-bit channels; the only colour format of a render target.
    RGBA8,
    /// The platform's depth format. It serves the depth test and is never sampled.
    Depth,
}

/// Depth test of a pipeline.
#[derive(Clone, Copy, Debug, PartialEq, Eq, Structural)]
pub enum Comparison {
    Always,
    LessOrEqual,
    Equal,
}

/// Format of one vertex attribute: one to four 32-bit floats.
#[derive(Clone, Copy, Debug, PartialEq, Eq, Structural)]
pub enum VertexFormat {
    Float1,
    Float2,
    Float3,
    Float4,
}

impl VertexFormat {
    /// Number of components of the attribute.
    pub open spec fn spec_size(self) -> int {
        match self {
            VertexFormat::Float1 => 1,
            VertexFormat::Float2 => 2,
            VertexFormat::Float3 => 3,
            VertexFormat::Float4 => 4,
        }
    }

    /// Number of bytes that the attribute takes in a vertex: four per component.
    pub open spec fn spec_byte_len(self) -> int {
        4 * self.spec_size()
    }

    pub fn size(self) -> (n: i32)
        ensures
            n == self.spec_size(),
            1 <= n <= 4,
    {
        match self {
            VertexFormat::Float1 => 1,
            VertexFormat::Float2 => 2,
            VertexFormat::Float3 => 3,
            VertexFormat::Float4 => 4,
        }
    }

    pub fn byte_len(self) -> (n: i32)
        ensures
            n == self.spec_byte_len(),
            n == 4 * self.spec_size(),
    {
        4 * self.size()
    }
}

/// Type of one member of a uniform block.
#[derive(Clone, Copy, Debug, PartialEq, Eq, Structural)]
pub enum UniformType {
    Float1,
    Float2,
    Float3,
    Float4,
    Mat4,
}

impl UniformType {
    /// Number of bytes of a member of this type.
    pub open spec fn spec_size(self) -> int {
        match self {
            UniformType::Float1 => 4,
            UniformType::Float2 => 8,
            UniformType::Float3 => 12,
            UniformType::Float4 => 16,
            UniformType::Mat4 => 64,
        }
    }

    pub fn size(self) -> (n: usize)
        ensures
            n == self.spec_size(),
    {
        match self {
            UniformType::Float1 => 4,
            UniformType::Float2 => 8,
            UniformType::Float3 => 12,
            UniformType::Float4 => 16,
            UniformType::Mat4 => 64,
        }
    }
}

/// A colour of four 8-bit channels. A channel `c` stands for the intensity `c / 255`.
#[derive(Clone, Copy, Debug, PartialEq, Eq, Structural)]
pub struct Rgba8 {
    pub r: u8,
    pub g: u8,
    pub b: u8,
    pub a: u8,
}

impl Rgba8 {
    pub fn new(r: u8, g: u8, b: u8, a: u8) -> (c: Rgba8)
        ensures
            c == (Rgba8 { r, g, b, a }),
    {
        Rgba8 { r, g, b, a }
    }
}

/// Size of a texture in texels. A blur steps by `1 / width` along U and by
/// `1 / height` along V.
#[derive(Clone, Copy, Debug, PartialEq, Eq, Structural)]
pub struct Resolution {
    pub width: u32,
    pub height: u32,
}

/// What a pass does to its target before the first draw call.
#[derive(Clone, Copy, Debug, PartialEq, Eq, Structural)]
pub enum PassAction {
    /// Keep what the target holds.
    Nothing,
    /// Fill the colour attachment with `color` and reset the depth attachment to the far plane.
    Clear { color: Rgba8 },
}

impl PassAction {
    pub fn clear_color(r: u8, g: u8, b: u8, a: u8) -> (action: PassAction)
        ensures
            action == (PassAction::Clear { color: Rgba8 { r, g, b, a } }),
    {
        PassAction::Clear { color: Rgba8 { r, g, b, a } }
    }
}

} // verus!
