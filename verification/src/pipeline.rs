//! What the pipeline of each owner looks like: how its vertices are laid
//! out, what it binds, and where it draws to.

use crate::render_pass::Owner;
use vstd::prelude::*;

verus! {

/// The type of one vertex attribute.
#[derive(PartialEq, Eq, Structural, Clone, Copy, Debug)]
pub enum VertexFormat {
    /// Two single-precision numbers.
    Float32x2,
    /// Three single-precision numbers.
    Float32x3,
}

impl VertexFormat {
    /// Bytes that an attribute of this format occupies.
    pub open spec fn size(self) -> int {
        match self {
            VertexFormat::Float32x2 => 8,
            VertexFormat::Float32x3 => 12,
        }
    }

    /// Bytes that an attribute of this format occupies.
    pub fn byte_size(&self) -> (bytes: u64)
        ensures
            bytes == self.size(),
    {
        match self {
            VertexFormat::Float32x2 => 8,
            VertexFormat::Float32x3 => 12,
        }
    }
}

/// One input of the vertex stage.
#[derive(PartialEq, Eq, Structural, Clone, Copy, Debug)]
pub struct VertexAttribute {
    pub format: VertexFormat,
    /// Where the attribute starts within a vertex, in bytes.
    pub offset: u64,
    pub shader_location: u32,
}

/// A stage of the pipeline.
#[derive(PartialEq, Eq, Structural, Clone, Copy, Debug)]
pub enum ShaderStage {
    Vertex,
    Fragment,
}

/// What the bind group at index 0 holds.
#[derive(PartialEq, Eq, Structural, Clone, Copy, Debug)]
pub enum Bindings {
    /// The pipeline has no bind group.
    Nothing,
    /// A uniform buffer of `size` bytes at binding 0, seen by `visibility`.
    Uniform { visibility: ShaderStage, size: u64 },
    /// The offscreen colour target at binding 0 and a filtering sampler at
    /// binding 1, both seen by the fragment stage.
    ColorTexture,
}

/// Where a pipeline draws to.
#[derive(PartialEq, Eq, Structural, Clone, Copy, Debug)]
pub enum ColorTarget {
    /// The offscreen colour target.
    Offscreen,
    /// The pass that the host hands in.
    Screen,
}

/// The description from which the pipeline of one owner is built.
#[derive(Debug)]
pub struct PipelineDescriptor {
    pub owner: Owner,
    /// Bytes between two vertices.
    pub array_stride: u64,
    pub attributes: Vec<VertexAttribute>,
    pub bindings: Bindings,
    pub target: ColorTarget,
    /// Whether the pipeline tests and writes depth, which a pass has to
    /// provide for.
    pub depth: bool,
}

/// A pipeline description with its attributes as a sequence.
pub struct PipelineView {
    pub owner: Owner,
    pub array_stride: u64,
    pub attributes: Seq<VertexAttribute>,
    pub bindings: Bindings,
    pub target: ColorTarget,
    pub depth: bool,
}

impl View for PipelineDescriptor {
    type V = PipelineView;

    open spec fn view(&self) -> PipelineView {
        PipelineView {
            owner: self.owner,
            array_stride: self.array_stride,
            attributes: self.attributes@,
            bindings: self.bindings,
            target: self.target,
            depth: self.depth,
        }
    }
}

impl PipelineView {
    /// Every attribute lies within one vertex, no two overlap, and no two
    /// share a location.
    pub open spec fn wf(self) -> bool {
        &&& forall|i: int|
            0 <= i < self.attributes.len() ==> (#[trigger] self.attributes[i]).offset
                + self.attributes[i].format.size() <= self.array_stride
        &&& forall|i: int, j: int|
            0 <= i < j < self.attributes.len() ==> {
                &&& (#[trigger] self.attributes[i]).offset + self.attributes[i].format.size() <= (
                #[trigger] self.attributes[j]).offset
                &&& self.attributes[i].shader_location != self.attributes[j].shader_location
            }
    }
}

/// A position of two coordinates at the start of the vertex.
pub open spec fn position_2d() -> VertexAttribute {
    VertexAttribute { format: VertexFormat::Float32x2, offset: 0, shader_location: 0 }
}

/// A position of three coordinates at the start of the vertex.
pub open spec fn position_3d() -> VertexAttribute {
    VertexAttribute { format: VertexFormat::Float32x3, offset: 0, shader_location: 0 }
}

/// A normal that follows a position of three coordinates.
pub open spec fn normal_3d() -> VertexAttribute {
    VertexAttribute { format: VertexFormat::Float32x3, offset: 12, shader_location: 1 }
}

/// The pipeline of `owner`.
pub open spec fn pipeline_of(owner: Owner) -> PipelineView {
    match owner {
        Owner::Triangle => PipelineView {
            owner,
            array_stride: 8,
            attributes: seq![position_2d()],
            bindings: Bindings::Uniform { visibility: ShaderStage::Fragment, size: 16 },
            target: ColorTarget::Offscreen,
            depth: false,
        },
        Owner::Mandelbrot => PipelineView {
            owner,
            array_stride: 8,
            attributes: seq![position_2d()],
            bindings: Bindings::Nothing,
            target: ColorTarget::Offscreen,
            depth: false,
        },
        Owner::Model3d => PipelineView {
            owner,
            array_stride: 24,
            attributes: seq![position_3d(), normal_3d()],
            bindings: Bindings::Uniform { visibility: ShaderStage::Vertex, size: 64 },
            target: ColorTarget::Offscreen,
            depth: true,
        },
        Owner::Screen => PipelineView {
            owner,
            array_stride: 8,
            attributes: seq![position_2d()],
            bindings: Bindings::ColorTexture,
            target: ColorTarget::Screen,
            depth: false,
        },
    }
}

/// Describes the pipeline of `owner`.
pub fn describe_pipeline(owner: Owner) -> (descriptor: PipelineDescriptor)
    ensures
        descriptor@ == pipeline_of(owner),
        descriptor@.wf(),
{
    let position_2d = VertexAttribute {
        format: VertexFormat::Float32x2,
        offset: 0,
        shader_location: 0,
    };
    let descriptor = match owner {
        Owner::Triangle => PipelineDescriptor {
            owner,
            array_stride: 8,
            attributes: vec![position_2d],
            bindings: Bindings::Uniform { visibility: ShaderStage::Fragment, size: 16 },
            target: ColorTarget::Offscreen,
            depth: false,
        },
        Owner::Mandelbrot => PipelineDescriptor {
            owner,
            array_stride: 8,
            attributes: vec![position_2d],
            bindings: Bindings::Nothing,
            target: ColorTarget::Offscreen,
            depth: false,
        },
        Owner::Model3d => PipelineDescriptor {
            owner,
            array_stride: 24,
            attributes: vec![
                VertexAttribute { format: VertexFormat::Float32x3, offset: 0, shader_location: 0 },
                VertexAttribute { format: VertexFormat::Float32x3, offset: 12, shader_location: 1 },
            ],
            bindings: Bindings::Uniform { visibility: ShaderStage::Vertex, size: 64 },
            target: ColorTarget::Offscreen,
            depth: true,
        },
        Owner::Screen => PipelineDescriptor {
            owner,
            array_stride: 8,
            attributes: vec![position_2d],
            bindings: Bindings::ColorTexture,
            target: ColorTarget::Screen,
            depth: false,
        },
    };
    assert(descriptor@.attributes =~= pipeline_of(owner).attributes);
    descriptor
}

} // verus!
