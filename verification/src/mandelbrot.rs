//! The Mandelbrot fractal, drawn as one quad that covers the target.

use crate::bytes::{bytes_of_u16, bytes_of_u32, is_layout_u16, is_layout_u32};
use crate::render_pass::{DrawCommand, IndexFormat, Owner, RenderPass};
use vstd::prelude::*;

verus! {

/// Number of indices that make up the quad: two triangles.
pub const QUAD_INDEX_COUNT: u32 = 6;

/// The corners of a quad that covers the whole target, x then y, as bit
/// patterns of single-precision numbers: (-1, 1), (-1, -1), (1, -1), (1, 1).
pub open spec fn quad_vertices() -> Seq<u32> {
    seq![
        0xBF80_0000u32,
        0x3F80_0000u32,
        0xBF80_0000u32,
        0xBF80_0000u32,
        0x3F80_0000u32,
        0xBF80_0000u32,
        0x3F80_0000u32,
        0x3F80_0000u32,
    ]
}

/// The two triangles of the quad, by corner.
pub open spec fn quad_indices() -> Seq<u16> {
    seq![0u16, 1u16, 2u16, 0u16, 2u16, 3u16]
}

/// What one draw of the fractal records.
pub open spec fn mandelbrot_commands() -> Seq<DrawCommand> {
    seq![
        DrawCommand::SetPipeline { owner: Owner::Mandelbrot },
        DrawCommand::SetVertexBuffer { slot: 0, owner: Owner::Mandelbrot },
        DrawCommand::SetIndexBuffer { owner: Owner::Mandelbrot, format: IndexFormat::Uint16 },
        DrawCommand::DrawIndexed {
            first_index: 0,
            end_index: QUAD_INDEX_COUNT,
            base_vertex: 0,
            first_instance: 0,
            end_instance: 1,
        },
    ]
}

/// The contents of the vertex buffer of a full-target quad.
pub fn quad_vertex_data() -> (bytes: Vec<u8>)
    ensures
        is_layout_u32(bytes@, quad_vertices()),
{
    let vertices: Vec<u32> = vec![
        0xBF80_0000u32,
        0x3F80_0000u32,
        0xBF80_0000u32,
        0xBF80_0000u32,
        0x3F80_0000u32,
        0xBF80_0000u32,
        0x3F80_0000u32,
        0x3F80_0000u32,
    ];
    assert(vertices@ =~= quad_vertices());
    bytes_of_u32(&vertices)
}

/// The contents of the index buffer of a full-target quad.
pub fn quad_index_data() -> (bytes: Vec<u8>)
    ensures
        is_layout_u16(bytes@, quad_indices()),
{
    let indices: Vec<u16> = vec![0u16, 1u16, 2u16, 0u16, 2u16, 3u16];
    assert(indices@ =~= quad_indices());
    bytes_of_u16(&indices)
}

/// The fractal showcase: the contents of its vertex and index buffers.
pub struct Mandelbrot {
    vertex_data: Vec<u8>,
    index_data: Vec<u8>,
}

impl Mandelbrot {
    /// The contents of the vertex buffer.
    pub closed spec fn vertex_bytes(&self) -> Seq<u8> {
        self.vertex_data@
    }

    /// The contents of the index buffer.
    pub closed spec fn index_bytes(&self) -> Seq<u8> {
        self.index_data@
    }

    /// The buffers hold the quad.
    pub open spec fn wf(&self) -> bool {
        &&& is_layout_u32(self.vertex_bytes(), quad_vertices())
        &&& is_layout_u16(self.index_bytes(), quad_indices())
    }

    /// Lays out the vertex and index buffers.
    pub fn new() -> (mandelbrot: Mandelbrot)
        ensures
            mandelbrot.wf(),
    {
        Mandelbrot { vertex_data: quad_vertex_data(), index_data: quad_index_data() }
    }

    /// The contents of the vertex buffer.
    pub fn vertex_data(&self) -> (bytes: &Vec<u8>)
        ensures
            bytes@ == self.vertex_bytes(),
    {
        &self.vertex_data
    }

    /// The contents of the index buffer.
    pub fn index_data(&self) -> (bytes: &Vec<u8>)
        ensures
            bytes@ == self.index_bytes(),
    {
        &self.index_data
    }

    /// Records one draw of the fractal.
    pub fn draw(&self, render_pass: &mut RenderPass)
        ensures
            final(render_pass)@ == old(render_pass)@ + mandelbrot_commands(),
    {
        render_pass.set_pipeline(Owner::Mandelbrot);
        render_pass.set_vertex_buffer(0, Owner::Mandelbrot);
        render_pass.set_index_buffer(Owner::Mandelbrot, IndexFormat::Uint16);
        render_pass.draw_indexed(0, QUAD_INDEX_COUNT, 0, 0, 1);
        assert(render_pass@ =~= old(render_pass)@ + mandelbrot_commands());
    }
}

} // verus!
