//! What holds of a frame, whichever showcase is selected.

use crate::bytes::is_layout_u32;
use crate::demo_type::DemoType;
use crate::manager::{
    demo_commands, draws_only, frame_commands, owner_of, paint_commands, presentation_of,
    screen_commands, DemoManager, Presentation,
};
use crate::mandelbrot::{mandelbrot_commands, quad_indices, Mandelbrot, QUAD_INDEX_COUNT};
use crate::model_3d::{interleaved, model_commands, MeshProperty};
use crate::pipeline::{pipeline_of, Bindings, ColorTarget};
use crate::render_pass::{draw_calls, lemma_draw_calls_add, DrawCommand, Owner};
use crate::triangle::{triangle_commands, Triangle, UNIFORM_SIZE};
use crate::workspace::Workspace;
use vstd::prelude::*;

verus! {

/// A selection with no showcase behind it draws nothing: neither the
/// offscreen pass nor the pass to the screen records a command.
pub proof fn lemma_unimplemented_draws_nothing(kind: DemoType)
    requires
        !kind.is_implemented(),
    ensures
        demo_commands(kind).len() == 0,
        paint_commands(kind).len() == 0,
        presentation_of(kind) == Presentation::Nothing,
        draw_calls(frame_commands(kind)) == 0,
{
    assert(frame_commands(kind) =~= Seq::<DrawCommand>::empty());
}

/// A recording of state changes that ends in a draw holds one draw call.
proof fn lemma_one_draw_at_the_end(commands: Seq<DrawCommand>)
    requires
        commands.len() > 0,
        commands.last().is_draw_call(),
        forall|i: int| 0 <= i < commands.len() - 1 ==> !(#[trigger] commands[i]).is_draw_call(),
    ensures
        draw_calls(commands) == 1,
{
    lemma_no_draw(commands.drop_last());
}

/// A recording of state changes alone holds no draw call.
proof fn lemma_no_draw(commands: Seq<DrawCommand>)
    requires
        forall|i: int| 0 <= i < commands.len() ==> !(#[trigger] commands[i]).is_draw_call(),
    ensures
        draw_calls(commands) == 0,
    decreases commands.len(),
{
    if commands.len() > 0 {
        lemma_no_draw(commands.drop_last());
    }
}

/// A showcase is drawn into the offscreen pass with exactly one draw call,
/// its last command. The pass to the screen holds one more, the screen
/// quad, where the manager presents the picture, and none where the host
/// does: a frame of the fractal holds one draw call, a frame of the
/// triangle or of the model two.
pub proof fn lemma_implemented_draws_once(kind: DemoType)
    requires
        kind.is_implemented(),
    ensures
        draw_calls(demo_commands(kind)) == 1,
        demo_commands(kind).last().is_draw_call(),
        draw_calls(paint_commands(kind)) == if presentation_of(kind) == Presentation::ScreenQuad {
            1nat
        } else {
            0nat
        },
        draw_calls(frame_commands(kind)) == if kind == DemoType::Mandelbrot {
            1nat
        } else {
            2nat
        },
{
    lemma_one_draw_at_the_end(triangle_commands());
    lemma_one_draw_at_the_end(mandelbrot_commands());
    lemma_one_draw_at_the_end(model_commands());
    lemma_one_draw_at_the_end(screen_commands());
    lemma_draw_calls_add(demo_commands(kind), paint_commands(kind));
}

/// With the fractal selected, the offscreen pass and the pass to the
/// screen together hold exactly one draw call: the indexed draw of the
/// fractal's quad, in the offscreen pass. Nothing in the frame binds what
/// belongs to the triangle, the model or the screen quad.
pub proof fn lemma_fractal_frame_draws_one_quad()
    ensures
        frame_commands(DemoType::Mandelbrot) == mandelbrot_commands(),
        paint_commands(DemoType::Mandelbrot).len() == 0,
        draw_calls(frame_commands(DemoType::Mandelbrot)) == 1,
        forall|i: int|
            0 <= i < frame_commands(DemoType::Mandelbrot).len() && (
            #[trigger] frame_commands(DemoType::Mandelbrot)[i]).is_draw_call() ==> frame_commands(
                DemoType::Mandelbrot,
            )[i] == (DrawCommand::DrawIndexed {
                first_index: 0,
                end_index: QUAD_INDEX_COUNT,
                base_vertex: 0,
                first_instance: 0,
                end_instance: 1,
            }),
        draws_only(frame_commands(DemoType::Mandelbrot), DemoType::Mandelbrot),
{
    assert(frame_commands(DemoType::Mandelbrot) =~= mandelbrot_commands());
    lemma_implemented_draws_once(DemoType::Mandelbrot);
}

/// The offscreen pass binds nothing but what belongs to the selected
/// showcase, so no other showcase's geometry can appear in it.
pub proof fn lemma_draws_only_selected(kind: DemoType)
    ensures
        draws_only(demo_commands(kind), kind),
        forall|other: DemoType|
            other != kind && other.is_implemented() ==> !draws_only(demo_commands(other), kind),
{
    assert forall|other: DemoType| other != kind && other.is_implemented() implies !draws_only(
        demo_commands(other),
        kind,
    ) by {
        assert(demo_commands(other)[0].binds(owner_of(other).unwrap()));
    }
}

/// After two selections in a row, a frame drawn after each shows the
/// showcase selected at that time and nothing of the other: what is
/// recorded depends on the current selection alone, and binds only what
/// belongs to it.
pub proof fn lemma_switch_draws_current(workspace: Workspace, first: DemoType, second: DemoType)
    ensures
        demo_commands(workspace.with_kind(first).kind()) == demo_commands(first),
        draws_only(demo_commands(workspace.with_kind(first).kind()), first),
        demo_commands(workspace.with_kind(first).with_kind(second).kind()) == demo_commands(second),
        draws_only(demo_commands(workspace.with_kind(first).with_kind(second).kind()), second),
        first != second && second.is_implemented() ==> !draws_only(
            demo_commands(workspace.with_kind(first).with_kind(second).kind()),
            first,
        ),
{
    workspace.lemma_select_then_read(first);
    workspace.with_kind(first).lemma_select_then_read(second);
    lemma_draws_only_selected(first);
    lemma_draws_only_selected(second);
}

/// No draw reaches past the buffers it reads: the triangle's three
/// vertices and the quad's four are all in their vertex buffers, the quad's
/// six indices are all in its index buffer, and each of them names one of
/// the four vertices.
pub proof fn lemma_draws_stay_within_buffers(
    triangle: Triangle,
    mandelbrot: Mandelbrot,
    manager: DemoManager,
    properties: Seq<MeshProperty>,
)
    requires
        triangle.wf(),
        mandelbrot.wf(),
        manager.wf(properties),
    ensures
        triangle.vertex_bytes().len() == 3 * pipeline_of(Owner::Triangle).array_stride,
        mandelbrot.vertex_bytes().len() == 4 * pipeline_of(Owner::Mandelbrot).array_stride,
        mandelbrot.index_bytes().len() == 2 * QUAD_INDEX_COUNT,
        manager.vertex_bytes().len() == 4 * pipeline_of(Owner::Screen).array_stride,
        manager.index_bytes().len() == 2 * QUAD_INDEX_COUNT,
        forall|i: int| 0 <= i < quad_indices().len() ==> #[trigger] quad_indices()[i] < 4,
{
}

/// The vertex data of a mesh is a whole number of vertices of the model's
/// pipeline: one per position.
pub proof fn lemma_mesh_is_whole_vertices(points: Seq<[u32; 3]>, normals: Seq<[u32; 3]>)
    ensures
        4 * interleaved(points, normals).len() == points.len() * pipeline_of(
            Owner::Model3d,
        ).array_stride,
{
}

/// Every pipeline is well formed, and the offscreen pass of a showcase
/// provides for depth exactly where the pipeline of that showcase tests
/// it. The showcases draw offscreen; only the screen quad draws into the
/// pass of the host, and without depth.
pub proof fn lemma_pass_suits_pipeline(kind: DemoType, owner: Owner)
    ensures
        pipeline_of(owner).wf(),
        pipeline_of(owner).owner == owner,
        owner_of(kind) == Some(owner) ==> pipeline_of(owner).depth == kind.needs_depth()
            && pipeline_of(owner).target == ColorTarget::Offscreen,
        pipeline_of(Owner::Screen).target == ColorTarget::Screen,
        !pipeline_of(Owner::Screen).depth,
{
}

/// What is recorded for an owner sets the bind group at index 0 exactly
/// where the pipeline of that owner has one, the screen quad included, and
/// the colour staged for the triangle fits the uniform buffer that its
/// pipeline binds.
pub proof fn lemma_commands_suit_bindings(kind: DemoType, color: Seq<u32>, bytes: Seq<u8>)
    requires
        color.len() == 3,
        is_layout_u32(bytes, color),
    ensures
        owner_of(kind) matches Some(owner) ==> ((exists|i: int|
            0 <= i < demo_commands(kind).len() && #[trigger] demo_commands(kind)[i]
                == (DrawCommand::SetBindGroup { index: 0, owner })) <==> pipeline_of(owner).bindings
            != Bindings::Nothing),
        screen_commands()[1] == (DrawCommand::SetBindGroup { index: 0, owner: Owner::Screen }),
        pipeline_of(Owner::Screen).bindings == Bindings::ColorTexture,
        pipeline_of(Owner::Triangle).bindings matches Bindings::Uniform { size, .. } && bytes.len()
            <= size && size == UNIFORM_SIZE,
{
    if let Some(owner) = owner_of(kind) {
        if pipeline_of(owner).bindings != Bindings::Nothing {
            assert(demo_commands(kind)[1] == (DrawCommand::SetBindGroup { index: 0, owner }));
        }
    }
}

} // verus!
