//! The order of the passes of a frame.
//!
//! The passes of a frame run one after the other: the shadow pass and the two
//! passes of its blur, the main pass, the glow pass and the two passes of its
//! blur, and the composite to the screen. This module reads that order off
//! the recorded commands.

use vstd::prelude::*;
use crate::context::{BindingsView, Command, RenderPass};
use crate::glow_pipe::GlowPipe;
use crate::main_pipe::{Lighting, MainPipe};
use crate::matrix::MatrixRef;
use crate::objects::{ColouredObject, Object};
use crate::shadow_pipe::ShadowPipe;
use crate::stage::{Frame, PipeBind, Stage, composite_commands};

verus! {

/// The targets of the passes that `commands` begin, in order; `None` is the screen.
pub open spec fn pass_targets(commands: Seq<Command>) -> Seq<Option<RenderPass>>
    decreases commands.len(),
{
    if commands.len() == 0 {
        Seq::empty()
    } else {
        pass_targets(commands.drop_last()) + if commands.last() is BeginPass {
            seq![commands.last()->pass]
        } else {
            Seq::empty()
        }
    }
}

/// No command of `commands` begins a pass.
pub open spec fn begins_none(commands: Seq<Command>) -> bool {
    forall|i: int| 0 <= i < commands.len() ==> !(#[trigger] commands[i] is BeginPass)
}

/// The passes of two streams, one after the other, are the passes of the
/// first, then those of the second.
pub proof fn lemma_targets_concat(a: Seq<Command>, b: Seq<Command>)
    ensures
        pass_targets(a + b) == pass_targets(a) + pass_targets(b),
    decreases b.len(),
{
    if b.len() == 0 {
        assert(a + b =~= a);
        assert(pass_targets(a) + pass_targets(b) =~= pass_targets(a));
    } else {
        lemma_targets_concat(a, b.drop_last());
        assert((a + b).drop_last() =~= a + b.drop_last());
        assert((a + b).last() == b.last());
        let tail = if b.last() is BeginPass {
            seq![b.last()->pass]
        } else {
            Seq::empty()
        };
        assert(pass_targets(a) + pass_targets(b.drop_last()) + tail =~= pass_targets(a) + (
        pass_targets(b.drop_last()) + tail));
    }
}

/// A stream without a begin has no pass.
pub proof fn lemma_targets_none(commands: Seq<Command>)
    requires
        begins_none(commands),
    ensures
        pass_targets(commands) == Seq::<Option<RenderPass>>::empty(),
    decreases commands.len(),
{
    if commands.len() > 0 {
        assert(commands.last() == commands[commands.len() - 1]);
        assert forall|i: int| 0 <= i < commands.drop_last().len() implies !(
        #[trigger] commands.drop_last()[i] is BeginPass) by {
            assert(commands.drop_last()[i] == commands[i]);
        }
        lemma_targets_none(commands.drop_last());
    }
}

/// A stream that begins one pass with its first command, and none after, has
/// that pass alone.
pub proof fn lemma_targets_one(commands: Seq<Command>)
    requires
        commands.len() >= 1,
        commands[0] is BeginPass,
        begins_none(commands.subrange(1, commands.len() as int)),
    ensures
        pass_targets(commands) == seq![commands[0]->pass],
{
    let head = seq![commands[0]];
    let rest = commands.subrange(1, commands.len() as int);
    assert(commands =~= head + rest);
    lemma_targets_concat(head, rest);
    lemma_targets_none(rest);
    assert(head.drop_last() =~= Seq::<Command>::empty());
    assert(pass_targets(head) =~= seq![commands[0]->pass]) by {
        reveal_with_fuel(pass_targets, 2);
    }
    assert(pass_targets(head) + pass_targets(rest) =~= pass_targets(head));
}

/// A pass of the box blur is one pass into its own target.
pub proof fn lemma_blur_pass(node: &crate::blur_pipe::Node)
    ensures
        pass_targets(crate::blur_pipe::node_commands(node)) == seq![Some(node.pass)],
{
    lemma_targets_one(crate::blur_pipe::node_commands(node));
}

/// A pass of the depth blur is one pass into its own target.
pub proof fn lemma_depth_blur_pass(node: &crate::blur_shadow_pipe::Node)
    ensures
        pass_targets(crate::blur_shadow_pipe::node_commands(node)) == seq![Some(node.pass)],
{
    lemma_targets_one(crate::blur_shadow_pipe::node_commands(node));
}

/// The shadow pass is one pass into its own target, however many objects it draws.
pub proof fn lemma_shadow_pass(
    pipe: &ShadowPipe,
    bind: BindingsView,
    objects: Seq<Object>,
    model: MatrixRef,
    view: MatrixRef,
    proj: MatrixRef,
)
    ensures
        pass_targets(crate::shadow_pipe::depth_commands(pipe, bind, objects, model, view, proj))
            == seq![Some(pipe.pass)],
{
    lemma_targets_one(crate::shadow_pipe::depth_commands(pipe, bind, objects, model, view, proj));
}

/// The main pass is one pass into its own target: the lit and the tinted
/// objects are drawn between one begin and one end.
pub proof fn lemma_main_pass(
    pipe: &MainPipe,
    bind: BindingsView,
    objects: Seq<Object>,
    coloured_objects: Seq<ColouredObject>,
    frame: Lighting,
)
    ensures
        pass_targets(crate::main_pipe::main_commands(pipe, bind, objects, coloured_objects, frame))
            == seq![Some(pipe.pass)],
{
    lemma_targets_one(
        crate::main_pipe::main_commands(pipe, bind, objects, coloured_objects, frame),
    );
}

/// The glow pass is one pass into its own target, however many objects it draws.
pub proof fn lemma_glow_pass(
    pipe: &GlowPipe,
    bind: BindingsView,
    objects: Seq<Object>,
    coloured_objects: Seq<ColouredObject>,
    model: MatrixRef,
    view_proj: MatrixRef,
)
    ensures
        pass_targets(
            crate::glow_pipe::silhouette_commands(
                pipe,
                bind,
                objects,
                coloured_objects,
                model,
                view_proj,
            ),
        ) == seq![Some(pipe.pass)],
{
    lemma_targets_one(
        crate::glow_pipe::silhouette_commands(
            pipe,
            bind,
            objects,
            coloured_objects,
            model,
            view_proj,
        ),
    );
}

/// The composite is one pass into the screen.
pub proof fn lemma_screen_pass(pipe: &PipeBind)
    ensures
        pass_targets(composite_commands(pipe)) == seq![None::<RenderPass>],
{
    lemma_targets_one(composite_commands(pipe));
}

impl Stage {
    /// The passes of a frame, in order: the shadow pass and the horizontal
    /// and vertical pass of its blur, the main pass, the glow pass and the
    /// horizontal and vertical pass of its blur, and the pass to the screen.
    pub open spec fn frame_passes(&self) -> Seq<Option<RenderPass>> {
        seq![
            Some(self.shadow_map.pass),
            Some(self.shadow_map.blur_pipe.horiz.pass),
            Some(self.shadow_map.blur_pipe.vert.pass),
            Some(self.main.pass),
            Some(self.glow.pass),
            Some(self.glow.blur_pipe.horiz.pass),
            Some(self.glow.blur_pipe.vert.pass),
            None,
        ]
    }

    /// A frame begins its passes in dependency order, each once, whatever the
    /// scene holds: every pass comes after the passes whose output it reads.
    pub proof fn lemma_frame_order(&self, frame: Frame)
        ensures
            pass_targets(self.frame_commands(frame)) == self.frame_passes(),
    {
        let shadow = crate::shadow_pipe::depth_commands(
            &self.shadow_map,
            self.shadow_map_bind@,
            self.objects@,
            frame.model,
            frame.light_view,
            frame.light_proj,
        );
        let shadow_h = crate::blur_shadow_pipe::node_commands(&self.shadow_map.blur_pipe.horiz);
        let shadow_v = crate::blur_shadow_pipe::node_commands(&self.shadow_map.blur_pipe.vert);
        let main = crate::main_pipe::main_commands(
            &self.main,
            self.main_bind@,
            self.objects@,
            self.coloured_objects@,
            Lighting {
                scene_model: frame.model,
                light_pos: frame.light_pos,
                view_proj: frame.view_proj,
                light_view: frame.light_view,
                light_proj: frame.light_proj,
            },
        );
        let glow = crate::glow_pipe::silhouette_commands(
            &self.glow,
            self.glow_bind@,
            self.objects@,
            self.coloured_objects@,
            frame.model,
            frame.view_proj,
        );
        let glow_h = crate::blur_pipe::node_commands(&self.glow.blur_pipe.horiz);
        let glow_v = crate::blur_pipe::node_commands(&self.glow.blur_pipe.vert);
        let screen = composite_commands(self.composite());
        let commit = seq![Command::CommitFrame];
        lemma_shadow_pass(
            &self.shadow_map,
            self.shadow_map_bind@,
            self.objects@,
            frame.model,
            frame.light_view,
            frame.light_proj,
        );
        lemma_depth_blur_pass(&self.shadow_map.blur_pipe.horiz);
        lemma_depth_blur_pass(&self.shadow_map.blur_pipe.vert);
        lemma_main_pass(
            &self.main,
            self.main_bind@,
            self.objects@,
            self.coloured_objects@,
            Lighting {
                scene_model: frame.model,
                light_pos: frame.light_pos,
                view_proj: frame.view_proj,
                light_view: frame.light_view,
                light_proj: frame.light_proj,
            },
        );
        lemma_glow_pass(
            &self.glow,
            self.glow_bind@,
            self.objects@,
            self.coloured_objects@,
            frame.model,
            frame.view_proj,
        );
        lemma_blur_pass(&self.glow.blur_pipe.horiz);
        lemma_blur_pass(&self.glow.blur_pipe.vert);
        lemma_screen_pass(self.composite());
        lemma_targets_none(commit);
        lemma_targets_concat(shadow, shadow_h);
        lemma_targets_concat(shadow + shadow_h, shadow_v);
        lemma_targets_concat(shadow + shadow_h + shadow_v, main);
        lemma_targets_concat(shadow + shadow_h + shadow_v + main, glow);
        lemma_targets_concat(shadow + shadow_h + shadow_v + main + glow, glow_h);
        lemma_targets_concat(shadow + shadow_h + shadow_v + main + glow + glow_h, glow_v);
        let offscreen = shadow + shadow_h + shadow_v + main + glow + glow_h + glow_v;
        assert(offscreen == self.offscreen_commands(frame));
        lemma_targets_concat(offscreen, screen);
        lemma_targets_concat(offscreen + screen, commit);
        assert(pass_targets(self.frame_commands(frame)) =~= self.frame_passes());
    }
}

} // verus!
