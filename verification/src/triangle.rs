//! The flat-coloured triangle.

use crate::bytes::{bytes_of_u32, is_layout_u32, BufferWrite};
use crate::render_pass::{DrawCommand, Owner, RenderPass};
use vstd::prelude::*;

verus! {

/// What can be changed about the triangle: its colour.
///
/// Each channel is held as the bit pattern of a single-precision number,
/// red first.
#[derive(Clone, Copy, Debug)]
pub struct TriangleParams {
    pub color: [u32; 3],
}

/// Size in bytes of the uniform buffer that holds the colour.
pub const UNIFORM_SIZE: u64 = 16;

/// The corners of the triangle, x then y, as bit patterns of
/// single-precision numbers: (-0.5, -0.5), (0.5, -0.5), (0, 0.5).
pub open spec fn triangle_vertices() -> Seq<u32> {
    seq![0xBF00_0000u32, 0xBF00_0000u32, 0x3F00_0000u32, 0xBF00_0000u32, 0u32, 0x3F00_0000u32]
}

/// What one draw of the triangle records.
pub open spec fn triangle_commands() -> Seq<DrawCommand> {
    seq![
        DrawCommand::SetPipeline { owner: Owner::Triangle },
        DrawCommand::SetBindGroup { index: 0, owner: Owner::Triangle },
        DrawCommand::SetVertexBuffer { slot: 0, owner: Owner::Triangle },
        DrawCommand::Draw { first_vertex: 0, end_vertex: 3, first_instance: 0, end_instance: 1 },
    ]
}

/// The triangle showcase: the contents of its vertex buffer.
pub struct Triangle {
    vertex_data: Vec<u8>,
}

impl Triangle {
    /// The contents of the vertex buffer.
    pub closed spec fn vertex_bytes(&self) -> Seq<u8> {
        self.vertex_data@
    }

    /// The vertex buffer holds the three corners.
    pub open spec fn wf(&self) -> bool {
        is_layout_u32(self.vertex_bytes(), triangle_vertices())
    }

    /// Lays out the vertex buffer.
    pub fn new() -> (triangle: Triangle)
        ensures
            triangle.wf(),
    {
        let vertices: Vec<u32> = vec![
            0xBF00_0000u32,
            0xBF00_0000u32,
            0x3F00_0000u32,
            0xBF00_0000u32,
            0u32,
            0x3F00_0000u32,
        ];
        assert(vertices@ =~= triangle_vertices());
        Triangle { vertex_data: bytes_of_u32(&vertices) }
    }

    /// The contents of the vertex buffer.
    pub fn vertex_data(&self) -> (bytes: &Vec<u8>)
        ensures
            bytes@ == self.vertex_bytes(),
    {
        &self.vertex_data
    }

    /// Stages `params` for the uniform buffer: the three channels, from
    /// the start of the buffer.
    pub fn update(&self, params: &TriangleParams) -> (write: BufferWrite)
        ensures
            write.owner == Owner::Triangle,
            write.offset == 0,
            is_layout_u32(write.data@, params.color@),
            write.offset + write.data@.len() <= UNIFORM_SIZE,
    {
        let channels: Vec<u32> = vec![params.color[0], params.color[1], params.color[2]];
        assert(channels@ =~= params.color@);
        BufferWrite { owner: Owner::Triangle, offset: 0, data: bytes_of_u32(&channels) }
    }

    /// Records one draw of the triangle.
    pub fn draw(&self, render_pass: &mut RenderPass)
        ensures
            final(render_pass)@ == old(render_pass)@ + triangle_commands(),
    {
        render_pass.set_pipeline(Owner::Triangle);
        render_pass.set_bind_group(0, Owner::Triangle);
        render_pass.set_vertex_buffer(0, Owner::Triangle);
        render_pass.draw(0, 3, 0, 1);
        assert(render_pass@ =~= old(render_pass)@ + triangle_commands());
    }
}

} // verus!
