//! Routes each frame to the showcase that is active.

use crate::bytes::{is_layout_u16, is_layout_u32, BufferWrite};
use crate::demo_type::DemoType;
use crate::mandelbrot::{
    mandelbrot_commands, quad_index_data, quad_indices, quad_vertex_data, quad_vertices, Mandelbrot,
    QUAD_INDEX_COUNT,
};
use crate::model_3d::{mesh_of, model_commands, MeshProperty, Model3d};
use crate::render_pass::{DrawCommand, IndexFormat, Owner, RenderPass};
use crate::triangle::{triangle_commands, Triangle};
use crate::workspace::Workspace;
use vstd::prelude::*;

verus! {

/// Width and height of the offscreen targets, in texels.
pub const TARGET_SIZE: u32 = 700;

/// What a draw of the showcase behind `kind` records: nothing where no
/// showcase stands behind it.
pub open spec fn demo_commands(kind: DemoType) -> Seq<DrawCommand> {
    match kind {
        DemoType::Triangle => triangle_commands(),
        DemoType::Mandelbrot => mandelbrot_commands(),
        DemoType::Model3d => model_commands(),
        _ => Seq::empty(),
    }
}

/// The owner of what the showcase behind `kind` binds, if one stands
/// behind it.
pub open spec fn owner_of(kind: DemoType) -> Option<Owner> {
    match kind {
        DemoType::Triangle => Some(Owner::Triangle),
        DemoType::Mandelbrot => Some(Owner::Mandelbrot),
        DemoType::Model3d => Some(Owner::Model3d),
        _ => None,
    }
}

/// Whether `commands` bind nothing but what belongs to the showcase behind
/// `kind`: nothing at all where no showcase stands behind it.
pub open spec fn draws_only(commands: Seq<DrawCommand>, kind: DemoType) -> bool {
    forall|i: int, owner: Owner|
        0 <= i < commands.len() && #[trigger] commands[i].binds(owner) ==> owner_of(kind) == Some(
            owner,
        )
}

/// What bringing the offscreen colour target to the screen records.
pub open spec fn screen_commands() -> Seq<DrawCommand> {
    seq![
        DrawCommand::SetPipeline { owner: Owner::Screen },
        DrawCommand::SetBindGroup { index: 0, owner: Owner::Screen },
        DrawCommand::SetVertexBuffer { slot: 0, owner: Owner::Screen },
        DrawCommand::SetIndexBuffer { owner: Owner::Screen, format: IndexFormat::Uint16 },
        DrawCommand::DrawIndexed {
            first_index: 0,
            end_index: QUAD_INDEX_COUNT,
            base_vertex: 0,
            first_instance: 0,
            end_instance: 1,
        },
    ]
}

/// How the picture of a showcase gets from the offscreen colour target to
/// the screen.
#[derive(PartialEq, Eq, Structural, Clone, Copy, Debug)]
pub enum Presentation {
    /// There is no picture.
    Nothing,
    /// The manager draws the colour target into the pass to the screen, as
    /// a quad that covers it.
    ScreenQuad,
    /// The host shows the colour target as an image of its own; the
    /// manager draws nothing more in this frame.
    HostImage,
}

/// How the picture of the showcase behind `kind` gets to the screen. The
/// fractal's frame is its one quad over the whole target and no other, so
/// its picture is left to the host.
pub open spec fn presentation_of(kind: DemoType) -> Presentation {
    match kind {
        DemoType::Triangle => Presentation::ScreenQuad,
        DemoType::Mandelbrot => Presentation::HostImage,
        DemoType::Model3d => Presentation::ScreenQuad,
        _ => Presentation::Nothing,
    }
}

impl Presentation {
    /// How the picture of the showcase behind `kind` gets to the screen.
    pub fn of(kind: DemoType) -> (presentation: Presentation)
        ensures
            presentation == presentation_of(kind),
    {
        match kind {
            DemoType::Triangle => Presentation::ScreenQuad,
            DemoType::Mandelbrot => Presentation::HostImage,
            DemoType::Model3d => Presentation::ScreenQuad,
            _ => Presentation::Nothing,
        }
    }
}

/// What the pass to the screen records while `kind` is active: the screen
/// quad where the manager presents the picture, nothing otherwise.
pub open spec fn paint_commands(kind: DemoType) -> Seq<DrawCommand> {
    if presentation_of(kind) == Presentation::ScreenQuad {
        screen_commands()
    } else {
        Seq::empty()
    }
}

/// Everything that one frame records while `kind` is active: the offscreen
/// pass, then the pass to the screen.
pub open spec fn frame_commands(kind: DemoType) -> Seq<DrawCommand> {
    demo_commands(kind) + paint_commands(kind)
}

/// The pass that draws the active showcase into the offscreen targets.
pub struct OffscreenPass {
    /// Whether the depth target is attached, and cleared to the far plane.
    pub depth: bool,
    /// What the pass records.
    pub pass: RenderPass,
}

/// Owns one instance of every showcase, and the quad that brings their
/// picture to the screen.
pub struct DemoManager {
    triangle: Triangle,
    mandelbrot: Mandelbrot,
    model_3d: Model3d,
    vertex_data: Vec<u8>,
    index_data: Vec<u8>,
}

impl DemoManager {
    /// The contents of the vertex buffer of the screen quad.
    pub closed spec fn vertex_bytes(&self) -> Seq<u8> {
        self.vertex_data@
    }

    /// The contents of the index buffer of the screen quad.
    pub closed spec fn index_bytes(&self) -> Seq<u8> {
        self.index_data@
    }

    /// The triangle showcase.
    pub closed spec fn triangle_spec(&self) -> Triangle {
        self.triangle
    }

    /// The fractal showcase.
    pub closed spec fn mandelbrot_spec(&self) -> Mandelbrot {
        self.mandelbrot
    }

    /// The model showcase.
    pub closed spec fn model_3d_spec(&self) -> Model3d {
        self.model_3d
    }

    /// Every buffer holds what its showcase draws; the model is the mesh
    /// that `properties` give.
    pub open spec fn wf(&self, properties: Seq<MeshProperty>) -> bool {
        &&& self.triangle_spec().wf()
        &&& self.mandelbrot_spec().wf()
        &&& self.model_3d_spec().holds_mesh_of(properties)
        &&& is_layout_u32(self.vertex_bytes(), quad_vertices())
        &&& is_layout_u16(self.index_bytes(), quad_indices())
    }

    /// Builds every showcase; `properties` describe the mesh of the model
    /// and have to give one, which `check_mesh` tells.
    pub fn new(properties: &Vec<MeshProperty>) -> (manager: DemoManager)
        requires
            mesh_of(properties@) is Ok,
        ensures
            manager.wf(properties@),
    {
        DemoManager {
            triangle: Triangle::new(),
            mandelbrot: Mandelbrot::new(),
            model_3d: Model3d::new(properties),
            vertex_data: quad_vertex_data(),
            index_data: quad_index_data(),
        }
    }

    /// The triangle showcase.
    pub fn triangle(&self) -> (triangle: &Triangle)
        ensures
            *triangle == self.triangle_spec(),
    {
        &self.triangle
    }

    /// The fractal showcase.
    pub fn mandelbrot(&self) -> (mandelbrot: &Mandelbrot)
        ensures
            *mandelbrot == self.mandelbrot_spec(),
    {
        &self.mandelbrot
    }

    /// The model showcase.
    pub fn model_3d(&self) -> (model_3d: &Model3d)
        ensures
            *model_3d == self.model_3d_spec(),
    {
        &self.model_3d
    }

    /// The contents of the vertex buffer of the screen quad.
    pub fn vertex_data(&self) -> (bytes: &Vec<u8>)
        ensures
            bytes@ == self.vertex_bytes(),
    {
        &self.vertex_data
    }

    /// The contents of the index buffer of the screen quad.
    pub fn index_data(&self) -> (bytes: &Vec<u8>)
        ensures
            bytes@ == self.index_bytes(),
    {
        &self.index_data
    }

    /// Stages what the active showcase needs before it is drawn: the
    /// colour for the triangle, nothing for the others.
    pub fn update(&self, workspace: &Workspace) -> (write: Option<BufferWrite>)
        ensures
            write is Some <==> workspace.kind() == DemoType::Triangle,
            write matches Some(w) ==> {
                &&& w.owner == Owner::Triangle
                &&& w.offset == 0
                &&& is_layout_u32(w.data@, workspace.params().color@)
            },
    {
        match workspace.get_current_demo_type() {
            DemoType::Triangle => Some(self.triangle.update(workspace.get_triangle_params())),
            _ => None,
        }
    }

    /// Does nothing yet.
    pub fn do_something(&mut self)
        ensures
            *final(self) == *old(self),
    {
    }

    /// Records the pass that draws the active showcase into the offscreen
    /// targets. Only the model needs the depth target.
    pub fn draw_pre(&self, workspace: &Workspace) -> (offscreen: OffscreenPass)
        ensures
            offscreen.depth == workspace.kind().needs_depth(),
            offscreen.pass@ == demo_commands(workspace.kind()),
    {
        let is_depth_required = match workspace.get_current_demo_type() {
            DemoType::Triangle => false,
            DemoType::Mandelbrot => false,
            DemoType::Model3d => true,
            _ => false,
        };
        let mut render_pass = RenderPass::new();
        match workspace.get_current_demo_type() {
            DemoType::Triangle => self.triangle.draw(&mut render_pass),
            DemoType::Mandelbrot => self.mandelbrot.draw(&mut render_pass),
            DemoType::Model3d => self.model_3d.draw(&mut render_pass),
            _ => {},
        }
        assert(render_pass@ =~= demo_commands(workspace.kind()));
        OffscreenPass { depth: is_depth_required, pass: render_pass }
    }

    /// Records what brings the picture of the active showcase to the
    /// screen: the quad that covers the pass with the offscreen colour
    /// target where the manager presents it, nothing otherwise.
    pub fn draw(&self, workspace: &Workspace, render_pass: &mut RenderPass)
        ensures
            final(render_pass)@ == old(render_pass)@ + paint_commands(workspace.kind()),
    {
        match Presentation::of(workspace.get_current_demo_type()) {
            Presentation::ScreenQuad => {
                render_pass.set_pipeline(Owner::Screen);
                render_pass.set_bind_group(0, Owner::Screen);
                render_pass.set_vertex_buffer(0, Owner::Screen);
                render_pass.set_index_buffer(Owner::Screen, IndexFormat::Uint16);
                render_pass.draw_indexed(0, QUAD_INDEX_COUNT, 0, 0, 1);
            },
            _ => {},
        }
        assert(render_pass@ =~= old(render_pass)@ + paint_commands(workspace.kind()));
    }
}

} // verus!
