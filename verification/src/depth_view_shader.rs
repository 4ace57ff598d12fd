//! The program that shows a packed depth texture. The fragment stage unpacks
//! the depth `d` of a texel and writes the grey `1 - d`.

use vstd::prelude::*;
use crate::shader::{Sampler, ShaderMeta, ShaderMetaView, UniformBlockLayout};

verus! {

/// What the program declares, as plain values.
pub open spec fn meta_view() -> ShaderMetaView {
    ShaderMetaView { images: seq![Sampler::Tex], uniforms: Seq::empty() }
}

/// What the program declares: one sampler and no uniform.
pub fn meta() -> (m: ShaderMeta)
    ensures
        m@ == meta_view(),
{
    let m = ShaderMeta {
        images: vec![Sampler::Tex],
        uniforms: UniformBlockLayout { uniforms: vec![] },
    };
    assert(m@.images =~= meta_view().images);
    assert(m@.uniforms =~= meta_view().uniforms);
    m
}

} // verus!
