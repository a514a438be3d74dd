//! A render pass as a recording: the commands issued into it, in order.
//!
//! The showcases never touch a GPU handle. They record what has to be bound
//! and drawn; whoever owns the device replays the recording.

use vstd::prelude::*;

verus! {

/// Names the owner of a pipeline, bind group or buffer.
#[derive(PartialEq, Eq, Structural, Clone, Copy, Debug)]
pub enum Owner {
    Triangle,
    Mandelbrot,
    Model3d,
    /// The quad that brings the offscreen colour target to the screen.
    Screen,
}

/// Width of the entries of an index buffer.
#[derive(PartialEq, Eq, Structural, Clone, Copy, Debug)]
pub enum IndexFormat {
    Uint16,
    Uint32,
}

/// One command recorded into a render pass. Ranges are half open.
#[derive(PartialEq, Eq, Structural, Clone, Copy, Debug)]
pub enum DrawCommand {
    SetPipeline { owner: Owner },
    SetBindGroup { index: u32, owner: Owner },
    SetVertexBuffer { slot: u32, owner: Owner },
    SetIndexBuffer { owner: Owner, format: IndexFormat },
    Draw { first_vertex: u32, end_vertex: u32, first_instance: u32, end_instance: u32 },
    DrawIndexed {
        first_index: u32,
        end_index: u32,
        base_vertex: i32,
        first_instance: u32,
        end_instance: u32,
    },
}

impl DrawCommand {
    /// Whether the command draws, as opposed to binding state.
    pub open spec fn is_draw_call(self) -> bool {
        self is Draw || self is DrawIndexed
    }

    /// Whether the command binds a resource of `owner`.
    pub open spec fn binds(self, owner: Owner) -> bool {
        match self {
            DrawCommand::SetPipeline { owner: o } => o == owner,
            DrawCommand::SetBindGroup { owner: o, .. } => o == owner,
            DrawCommand::SetVertexBuffer { owner: o, .. } => o == owner,
            DrawCommand::SetIndexBuffer { owner: o, .. } => o == owner,
            _ => false,
        }
    }

    /// Whether the command draws, as opposed to binding state.
    pub fn draws(&self) -> (r: bool)
        ensures
            r == self.is_draw_call(),
    {
        match self {
            DrawCommand::Draw { .. } => true,
            DrawCommand::DrawIndexed { .. } => true,
            _ => false,
        }
    }
}

/// Number of draw calls among `commands`.
pub open spec fn draw_calls(commands: Seq<DrawCommand>) -> nat
    decreases commands.len(),
{
    if commands.len() == 0 {
        0
    } else {
        let rest = draw_calls(commands.drop_last());
        if commands.last().is_draw_call() {
            rest + 1
        } else {
            rest
        }
    }
}

/// The draw calls of two recordings, one after the other, add up.
pub proof fn lemma_draw_calls_add(first: Seq<DrawCommand>, second: Seq<DrawCommand>)
    ensures
        draw_calls(first + second) == draw_calls(first) + draw_calls(second),
    decreases second.len(),
{
    if second.len() == 0 {
        assert(first + second =~= first);
    } else {
        lemma_draw_calls_add(first, second.drop_last());
        assert((first + second).drop_last() =~= first + second.drop_last());
    }
}

/// The commands recorded so far into one pass.
pub struct RenderPass {
    commands: Vec<DrawCommand>,
}

impl View for RenderPass {
    type V = Seq<DrawCommand>;

    closed spec fn view(&self) -> Seq<DrawCommand> {
        self.commands@
    }
}

impl RenderPass {
    /// A pass with nothing recorded.
    pub fn new() -> (pass: RenderPass)
        ensures
            pass@ == Seq::<DrawCommand>::empty(),
    {
        RenderPass { commands: Vec::new() }
    }

    /// Records that the pipeline of `owner` is used from here on.
    pub fn set_pipeline(&mut self, owner: Owner)
        ensures
            final(self)@ == old(self)@.push(DrawCommand::SetPipeline { owner }),
    {
        self.commands.push(DrawCommand::SetPipeline { owner });
    }

    /// Records that the bind group of `owner` is bound at `index`.
    pub fn set_bind_group(&mut self, index: u32, owner: Owner)
        ensures
            final(self)@ == old(self)@.push(DrawCommand::SetBindGroup { index, owner }),
    {
        self.commands.push(DrawCommand::SetBindGroup { index, owner });
    }

    /// Records that the vertex buffer of `owner` is bound to `slot`.
    pub fn set_vertex_buffer(&mut self, slot: u32, owner: Owner)
        ensures
            final(self)@ == old(self)@.push(DrawCommand::SetVertexBuffer { slot, owner }),
    {
        self.commands.push(DrawCommand::SetVertexBuffer { slot, owner });
    }

    /// Records that the index buffer of `owner` is bound, read as `format`.
    pub fn set_index_buffer(&mut self, owner: Owner, format: IndexFormat)
        ensures
            final(self)@ == old(self)@.push(DrawCommand::SetIndexBuffer { owner, format }),
    {
        self.commands.push(DrawCommand::SetIndexBuffer { owner, format });
    }

    /// Records a draw of the vertices `first_vertex..end_vertex` for the
    /// instances `first_instance..end_instance`.
    pub fn draw(&mut self, first_vertex: u32, end_vertex: u32, first_instance: u32, end_instance: u32)
        ensures
            final(self)@ == old(self)@.push(
                DrawCommand::Draw { first_vertex, end_vertex, first_instance, end_instance },
            ),
    {
        self.commands.push(
            DrawCommand::Draw { first_vertex, end_vertex, first_instance, end_instance },
        );
    }

    /// Records an indexed draw of the indices `first_index..end_index`, each
    /// offset by `base_vertex`, for the instances
    /// `first_instance..end_instance`.
    pub fn draw_indexed(
        &mut self,
        first_index: u32,
        end_index: u32,
        base_vertex: i32,
        first_instance: u32,
        end_instance: u32,
    )
        ensures
            final(self)@ == old(self)@.push(
                DrawCommand::DrawIndexed {
                    first_index,
                    end_index,
                    base_vertex,
                    first_instance,
                    end_instance,
                },
            ),
    {
        self.commands.push(
            DrawCommand::DrawIndexed {
                first_index,
                end_index,
                base_vertex,
                first_instance,
                end_instance,
            },
        );
    }

    /// The recording, oldest command first.
    pub fn commands(&self) -> (commands: &Vec<DrawCommand>)
        ensures
            commands@ == self@,
    {
        &self.commands
    }

    /// Number of draw calls recorded.
    pub fn draw_call_count(&self) -> (count: usize)
        ensures
            count == draw_calls(self@),
    {
        let mut count: usize = 0;
        let mut i: usize = 0;
        while i < self.commands.len()
            invariant
                i <= self.commands.len(),
                count <= i,
                count == draw_calls(self.commands@.take(i as int)),
            decreases self.commands.len() - i,
        {
            proof {
                assert(self.commands@.take(i + 1).drop_last() =~= self.commands@.take(i as int));
            }
            if self.commands[i].draws() {
                count = count + 1;
            }
            i = i + 1;
        }
        proof {
            assert(self.commands@.take(i as int) == self.commands@);
        }
        count
    }
}

} // verus!
