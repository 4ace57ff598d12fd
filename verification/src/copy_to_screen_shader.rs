//! The program that copies one texture to the screen. The fragment stage applies
//! gamma correction with the exponent `1 / 2.2` to the colour channels and
//! leaves alpha as it is.

use vstd::prelude::*;
use crate::shader::{Sampler, ShaderMeta, ShaderMetaView, UniformBlockLayout};

verus! {

/// What the program declares, as plain values.
pub open spec fn meta_view() -> ShaderMetaView {
    ShaderMetaView { images: seq![Sampler::Tex], uniforms: Seq::empty() }
}

/// What the program declares: one sampler and no uniform.
pub fn meta() -> (m: ShaderMeta)
    ensures
        m@ == meta_view(),
{
    let m = ShaderMeta {
        images: vec![Sampler::Tex],
        uniforms: UniformBlockLayout { uniforms: vec![] },
    };
    assert(m@.images =~= meta_view().images);
    assert(m@.uniforms =~= meta_view().uniforms);
    m
}

} // verus!
