//! The program that composites the glow over the scene. The fragment stage
//! combines the two colours by [`crate::blend::screen_blend`], channel by
//! channel, writes an alpha of one, and applies gamma correction with the
//! exponent `1 / 2.2` to the colour channels.

use vstd::prelude::*;
use crate::shader::{Sampler, ShaderMeta, ShaderMetaView, UniformBlockLayout};

verus! {

/// What the program declares, as plain values.
pub open spec fn meta_view() -> ShaderMetaView {
    ShaderMetaView { images: seq![Sampler::Scene, Sampler::Glow], uniforms: Seq::empty() }
}

/// What the program declares: the scene and the glow, and no uniform.
pub fn meta() -> (m: ShaderMeta)
    ensures
        m@ == meta_view(),
{
    let m = ShaderMeta {
        images: vec![Sampler::Scene, Sampler::Glow],
        uniforms: UniformBlockLayout { uniforms: vec![] },
    };
    assert(m@.images =~= meta_view().images);
    assert(m@.uniforms =~= meta_view().uniforms);
    m
}

} // verus!
