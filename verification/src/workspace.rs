//! The state that the user interface changes and the renderer reads.

use crate::demo_type::DemoType;
use crate::render_pass::RenderPass;
use crate::triangle::TriangleParams;
use vstd::prelude::*;

verus! {

/// The colour the triangle starts with, red first, as bit patterns of the
/// single-precision numbers nearest to 0.1, 0.2 and 0.3.
pub open spec fn initial_color() -> Seq<u32> {
    seq![0x3DCC_CCCDu32, 0x3E4C_CCCDu32, 0x3E99_999Au32]
}

/// The showcases in the order in which they are offered, each with its
/// label.
pub open spec fn demo_labels() -> Seq<(DemoType, Seq<char>)> {
    seq![
        (DemoType::Triangle, "Triangle"@),
        (DemoType::Mandelbrot, "Mandelbrot"@),
        (DemoType::Model3d, "Model3d"@),
        (DemoType::Tetris, "Tetris"@),
        (DemoType::Physics, "Physics"@),
    ]
}

/// The active showcase and the parameters of those that have any.
pub struct Workspace {
    demo_type: DemoType,
    triangle_params: TriangleParams,
}

impl Workspace {
    /// The active showcase.
    pub closed spec fn kind(&self) -> DemoType {
        self.demo_type
    }

    /// The parameters of the triangle.
    pub closed spec fn params(&self) -> TriangleParams {
        self.triangle_params
    }

    /// This workspace with `params` in place of the triangle's parameters.
    pub closed spec fn with_params(self, params: TriangleParams) -> Workspace {
        Workspace { demo_type: self.demo_type, triangle_params: params }
    }

    /// This workspace with `demo_type` active.
    pub closed spec fn with_kind(self, demo_type: DemoType) -> Workspace {
        Workspace { demo_type, triangle_params: self.triangle_params }
    }

    /// Selecting a showcase makes it the active one, whichever it is, and
    /// leaves the triangle's parameters alone.
    pub proof fn lemma_select_then_read(self, demo_type: DemoType)
        ensures
            self.with_kind(demo_type).kind() == demo_type,
            self.with_kind(demo_type).params() == self.params(),
    {
    }

    /// Parameters that are written are read back unchanged, channel for
    /// channel, and the selection stays as it was.
    pub proof fn lemma_write_then_read(self, params: TriangleParams)
        ensures
            self.with_params(params).params() == params,
            self.with_params(params).params().color@ == params.color@,
            self.with_params(params).kind() == self.kind(),
    {
    }

    /// Of two selections in a row only the second counts.
    pub proof fn lemma_select_twice(self, first: DemoType, second: DemoType)
        ensures
            self.with_kind(first).with_kind(second) == self.with_kind(second),
    {
    }

    /// Starts with the triangle active.
    pub fn new() -> (workspace: Workspace)
        ensures
            workspace.kind() == DemoType::Triangle,
            workspace.params().color@ == initial_color(),
    {
        let color: [u32; 3] = [0x3DCC_CCCDu32, 0x3E4C_CCCDu32, 0x3E99_999Au32];
        assert(color@ =~= initial_color());
        Workspace { demo_type: DemoType::Triangle, triangle_params: TriangleParams { color } }
    }

    /// Nothing in the workspace changes from frame to frame by itself.
    pub fn update(&mut self)
        ensures
            *final(self) == *old(self),
    {
    }

    /// The workspace draws nothing of its own.
    pub fn draw(&self, render_pass: &mut RenderPass)
        ensures
            final(render_pass)@ == old(render_pass)@,
    {
    }

    /// The showcases in the order in which they are offered, each with its
    /// label.
    pub fn get_demo_types() -> (types: Vec<(DemoType, &'static str)>)
        ensures
            types@.len() == demo_labels().len(),
            forall|i: int|
                0 <= i < types@.len() ==> (#[trigger] types@[i]).0 == demo_labels()[i].0
                    && types@[i].1@ == demo_labels()[i].1,
    {
        vec![
            (DemoType::Triangle, "Triangle"),
            (DemoType::Mandelbrot, "Mandelbrot"),
            (DemoType::Model3d, "Model3d"),
            (DemoType::Tetris, "Tetris"),
            (DemoType::Physics, "Physics"),
        ]
    }

    /// The active showcase.
    pub fn get_current_demo_type(&self) -> (demo_type: DemoType)
        ensures
            demo_type == self.kind(),
    {
        self.demo_type
    }

    /// Makes `demo_type` the active showcase. Every value is accepted.
    pub fn set_demo_type(&mut self, demo_type: DemoType)
        ensures
            *final(self) == old(self).with_kind(demo_type),
            final(self).kind() == demo_type,
            final(self).params() == old(self).params(),
    {
        self.demo_type = demo_type;
    }

    /// The parameters of the triangle.
    pub fn get_triangle_params(&self) -> (params: &TriangleParams)
        ensures
            *params == self.params(),
    {
        &self.triangle_params
    }

    /// Lends the triangle's parameters for change: what the borrower leaves
    /// in them is what the workspace holds afterwards.
    pub fn get_triangle_params_mut(&mut self) -> (params: &mut TriangleParams)
        ensures
            *params == old(self).params(),
            *final(self) == old(self).with_params(*final(params)),
            final(self).params() == *final(params),
            final(self).kind() == old(self).kind(),
    {
        &mut self.triangle_params
    }
}

} // verus!
