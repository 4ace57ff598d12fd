//! A multi-pass render graph for a shadowed, glow-blended scene.
//!
//! The passes record their work on a [`context::Context`]: a model of the
//! device's resource tables together with the command stream of a frame. The
//! contracts state exactly which resources each pass creates and which
//! commands it emits, and the context's protocol rules out streams that a
//! device would reject: a draw call without pipeline or bindings, a binding
//! of a released or not yet written texture, a uniform block that does not
//! match its shader.
//!
//! What the shader programs compute is stated on integers: the depth codec in
//! [`depth`], the two blurs in [`filter`], the blend of the composite in
//! [`blend`].

pub mod formats;
pub mod matrix;
pub mod shader;
pub mod context;

pub mod quad;
pub mod objects;
pub mod xoroshiro;

pub mod blur_pipe;
pub mod blur_shadow_pipe;
pub mod shadow_pipe;
pub mod main_pipe;
pub mod glow_pipe;
pub mod copy_to_screen_shader;
pub mod glow_blend_shader;
pub mod depth_view_shader;
pub mod stage;
pub mod order;

pub mod depth;
pub mod filter;
pub mod blend;
