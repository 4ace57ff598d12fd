//! Shader programs as the passes name them: the stages, the names that a
//! program declares, and the layout of its uniform block.

use vstd::prelude::*;
use crate::formats::UniformType;

verus! {

/// The vertex stages of the pipeline.
#[derive(Clone, Copy, Debug, PartialEq, Eq, Structural)]
pub enum VertexShader {
    /// Passes the corners of a clip-space quad through.
    Quad,
    /// Transforms a position by one matrix and hands the clip-space position on.
    ShadowDepth,
    /// Transforms a position by one matrix.
    Flat,
    /// Transforms position and normal and projects the position into light space.
    Lit,
}

/// The fragment stages of the pipeline.
#[derive(Clone, Copy, Debug, PartialEq, Eq, Structural)]
pub enum FragmentShader {
    /// Box blur along U.
    BlurHorizontal,
    /// Box blur along V.
    BlurVertical,
    /// Blur of packed depth along U.
    DepthBlurHorizontal,
    /// Blur of packed depth along V.
    DepthBlurVertical,
    /// Packs the light-space depth of the fragment.
    ShadowDepth,
    /// Writes one colour.
    Flat,
    /// Lambert term attenuated by the shadow map.
    Lit,
    /// Gamma-corrected copy of one texture.
    CopyToScreen,
    /// Gamma-corrected screen blend of two textures.
    GlowBlend,
    /// Inverted depth of a packed depth texture, in grey.
    DepthView,
}

/// The samplers that the programs declare.
#[derive(Clone, Copy, Debug, PartialEq, Eq, Structural)]
pub enum Sampler {
    Tex,
    Scene,
    Glow,
    ShadowMap,
}

impl Sampler {
    pub open spec fn spec_name(self) -> Seq<char> {
        match self {
            Sampler::Tex => "tex"@,
            Sampler::Scene => "scene"@,
            Sampler::Glow => "glow"@,
            Sampler::ShadowMap => "shadow_map"@,
        }
    }

    /// The sampler's name in the program's source.
    pub fn name(self) -> (s: &'static str)
        ensures
            s@ == self.spec_name(),
    {
        match self {
            Sampler::Tex => "tex",
            Sampler::Scene => "scene",
            Sampler::Glow => "glow",
            Sampler::ShadowMap => "shadow_map",
        }
    }
}

/// The vertex attributes that the programs declare.
#[derive(Clone, Copy, Debug, PartialEq, Eq, Structural)]
pub enum Attribute {
    Pos,
    Uv,
    Color0,
    Normal,
}

impl Attribute {
    pub open spec fn spec_name(self) -> Seq<char> {
        match self {
            Attribute::Pos => "pos"@,
            Attribute::Uv => "uv"@,
            Attribute::Color0 => "color0"@,
            Attribute::Normal => "normal"@,
        }
    }

    /// The attribute's name in the program's source.
    pub fn name(self) -> (s: &'static str)
        ensures
            s@ == self.spec_name(),
    {
        match self {
            Attribute::Pos => "pos",
            Attribute::Uv => "uv",
            Attribute::Color0 => "color0",
            Attribute::Normal => "normal",
        }
    }
}

/// The members of the uniform blocks.
#[derive(Clone, Copy, Debug, PartialEq, Eq, Structural)]
pub enum UniformName {
    Resolution,
    Radius,
    Mvp,
    Colour,
    Model,
    Proj,
    NormalMatrix,
    LightPos,
    LightMv,
    LightProj,
}

impl UniformName {
    pub open spec fn spec_name(self) -> Seq<char> {
        match self {
            UniformName::Resolution => "resolution"@,
            UniformName::Radius => "radius"@,
            UniformName::Mvp => "mvp"@,
            UniformName::Colour => "colour"@,
            UniformName::Model => "model"@,
            UniformName::Proj => "proj"@,
            UniformName::NormalMatrix => "normal_matrix"@,
            UniformName::LightPos => "light_pos"@,
            UniformName::LightMv => "light_mv"@,
            UniformName::LightProj => "light_proj"@,
        }
    }

    /// The member's name in the program's source.
    pub fn name(self) -> (s: &'static str)
        ensures
            s@ == self.spec_name(),
    {
        match self {
            UniformName::Resolution => "resolution",
            UniformName::Radius => "radius",
            UniformName::Mvp => "mvp",
            UniformName::Colour => "colour",
            UniformName::Model => "model",
            UniformName::Proj => "proj",
            UniformName::NormalMatrix => "normal_matrix",
            UniformName::LightPos => "light_pos",
            UniformName::LightMv => "light_mv",
            UniformName::LightProj => "light_proj",
        }
    }
}

/// One member of a uniform block.
#[derive(Clone, Copy, Debug, PartialEq, Eq, Structural)]
pub struct UniformDesc {
    pub name: UniformName,
    pub uniform_type: UniformType,
}

impl UniformDesc {
    pub fn new(name: UniformName, uniform_type: UniformType) -> (d: UniformDesc)
        ensures
            d == (UniformDesc { name, uniform_type }),
    {
        UniformDesc { name, uniform_type }
    }
}

/// The types of the members of a block, in order.
pub open spec fn member_types(uniforms: Seq<UniformDesc>) -> Seq<UniformType> {
    Seq::new(uniforms.len(), |i: int| uniforms[i].uniform_type)
}

/// Number of bytes of a block whose members have these types: the members are
/// laid out one after the other without padding.
pub open spec fn block_size(types: Seq<UniformType>) -> int
    decreases types.len(),
{
    if types.len() == 0 {
        0
    } else {
        block_size(types.drop_last()) + types.last().spec_size()
    }
}

/// The uniform block of a program: its members in declaration order.
#[derive(Debug)]
pub struct UniformBlockLayout {
    pub uniforms: Vec<UniformDesc>,
}

impl UniformBlockLayout {
    /// Number of bytes of the block.
    pub fn size(&self) -> (n: usize)
        requires
            64 * self.uniforms@.len() <= usize::MAX,
        ensures
            n == block_size(member_types(self.uniforms@)),
    {
        let mut n: usize = 0;
        let mut i: usize = 0;
        while i < self.uniforms.len()
            invariant
                i <= self.uniforms@.len(),
                64 * self.uniforms@.len() <= usize::MAX,
                n == block_size(member_types(self.uniforms@).subrange(0, i as int)),
                n <= 64 * i,
            decreases self.uniforms@.len() - i,
        {
            proof {
                let types = member_types(self.uniforms@);
                assert(types.subrange(0, i + 1).drop_last() =~= types.subrange(0, i as int));
            }
            n = n + self.uniforms[i].uniform_type.size();
            i = i + 1;
        }
        proof {
            let types = member_types(self.uniforms@);
            assert(types.subrange(0, i as int) =~= types);
        }
        n
    }
}

/// What a program declares: its samplers, in binding order, and its uniform block.
#[derive(Debug)]
pub struct ShaderMeta {
    pub images: Vec<Sampler>,
    pub uniforms: UniformBlockLayout,
}

/// A [`ShaderMeta`] as plain sequences.
pub struct ShaderMetaView {
    pub images: Seq<Sampler>,
    pub uniforms: Seq<UniformDesc>,
}

impl View for ShaderMeta {
    type V = ShaderMetaView;

    open spec fn view(&self) -> ShaderMetaView {
        ShaderMetaView { images: self.images@, uniforms: self.uniforms.uniforms@ }
    }
}

} // verus!
