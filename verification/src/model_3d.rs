//! The 3D model: a mesh taken from the properties of a scene description.

use crate::bytes::{bytes_of_u32, is_layout_u32};
use crate::render_pass::{DrawCommand, IndexFormat, Owner, RenderPass};
use vstd::pervasive::unreached;
use vstd::prelude::*;

verus! {

/// Number of indices that one draw of the model covers.
pub const MODEL_INDEX_COUNT: u32 = 3456;

/// The transform handed to the vertex stage, as bit patterns of
/// single-precision numbers.
#[derive(Clone, Copy, Debug)]
pub struct Model3dParams {
    mvp: [u32; 16],
}

/// One property of a mesh definition. Coordinates are bit patterns of
/// single-precision numbers.
#[derive(Debug)]
pub enum MeshProperty {
    /// One position per vertex.
    Points(Vec<[u32; 3]>),
    /// One normal per face corner.
    Normals(Vec<[u32; 3]>),
    /// The corners of the faces, by vertex.
    FaceVertexIndices(Vec<u32>),
    /// Anything the model does not read.
    Other,
}

/// Why a list of properties gives no mesh.
#[derive(PartialEq, Eq, Structural, Clone, Copy, Debug)]
pub enum MeshError {
    /// The first two properties that hold positions or normals are not one
    /// of each.
    AttributesMissing,
    /// Some vertex `i` has no normal at place `3 * i`.
    NormalsMissing,
    /// No property holds face indices.
    IndicesMissing,
}

impl MeshProperty {
    /// Whether the property holds positions or normals.
    pub open spec fn is_attribute(self) -> bool {
        self is Points || self is Normals
    }
}

/// The place of the first property at or after `start` that holds positions
/// or normals; `properties.len()` if there is none.
pub open spec fn first_attribute_from(properties: Seq<MeshProperty>, start: int) -> int
    decreases properties.len() - start,
{
    if start < 0 || start >= properties.len() {
        properties.len() as int
    } else if properties[start].is_attribute() {
        start
    } else {
        first_attribute_from(properties, start + 1)
    }
}

/// The place of the first property at or after `start` that holds face
/// indices; `properties.len()` if there is none.
pub open spec fn first_indices_from(properties: Seq<MeshProperty>, start: int) -> int
    decreases properties.len() - start,
{
    if start < 0 || start >= properties.len() {
        properties.len() as int
    } else if properties[start] is FaceVertexIndices {
        start
    } else {
        first_indices_from(properties, start + 1)
    }
}

/// Vertex data: for each vertex `i` its position, then the normal at place
/// `3 * i` (the three corners that share a vertex repeat its normal).
pub open spec fn interleaved(points: Seq<[u32; 3]>, normals: Seq<[u32; 3]>) -> Seq<u32> {
    Seq::new(
        6 * points.len(),
        |k: int|
            if k % 6 < 3 {
                points[k / 6]@[k % 6]
            } else {
                normals[3 * (k / 6)]@[k % 6 - 3]
            },
    )
}

/// Whether every vertex `i` of `points` has a normal at place `3 * i`.
pub open spec fn normals_cover(points: Seq<[u32; 3]>, normals: Seq<[u32; 3]>) -> bool {
    points.len() == 0 || 3 * (points.len() - 1) < normals.len()
}

/// The vertex data and the index data that `properties` give, or why they
/// give none.
pub open spec fn mesh_of(properties: Seq<MeshProperty>) -> Result<(Seq<u32>, Seq<u32>), MeshError> {
    let a = first_attribute_from(properties, 0);
    let b = first_attribute_from(properties, a + 1);
    let f = first_indices_from(properties, 0);
    if b >= properties.len() {
        Err(MeshError::AttributesMissing)
    } else if (properties[a] is Points) == (properties[b] is Points) {
        Err(MeshError::AttributesMissing)
    } else {
        let p = if properties[a] is Points { a } else { b };
        let n = if properties[a] is Points { b } else { a };
        let points = properties[p]->Points_0@;
        let normals = properties[n]->Normals_0@;
        if !normals_cover(points, normals) {
            Err(MeshError::NormalsMissing)
        } else if f >= properties.len() {
            Err(MeshError::IndicesMissing)
        } else {
            Ok((interleaved(points, normals), properties[f]->FaceVertexIndices_0@))
        }
    }
}

/// What one draw of the model records.
pub open spec fn model_commands() -> Seq<DrawCommand> {
    seq![
        DrawCommand::SetPipeline { owner: Owner::Model3d },
        DrawCommand::SetBindGroup { index: 0, owner: Owner::Model3d },
        DrawCommand::SetVertexBuffer { slot: 0, owner: Owner::Model3d },
        DrawCommand::SetIndexBuffer { owner: Owner::Model3d, format: IndexFormat::Uint32 },
        DrawCommand::DrawIndexed {
            first_index: 0,
            end_index: MODEL_INDEX_COUNT,
            base_vertex: 0,
            first_instance: 0,
            end_instance: 1,
        },
    ]
}

/// Finds the first property at or after `start` that holds positions or
/// normals.
pub fn find_attribute(properties: &Vec<MeshProperty>, start: usize) -> (place: usize)
    ensures
        place == first_attribute_from(properties@, start as int),
        place <= properties.len(),
        place < properties.len() ==> start <= place && properties@[place as int].is_attribute(),
{
    let mut i: usize = start;
    while i < properties.len()
        invariant
            start <= i,
            first_attribute_from(properties@, start as int) == first_attribute_from(
                properties@,
                i as int,
            ),
        decreases properties.len() - i,
    {
        match &properties[i] {
            MeshProperty::Points(_) => {
                return i;
            },
            MeshProperty::Normals(_) => {
                return i;
            },
            _ => {},
        }
        i = i + 1;
    }
    properties.len()
}

/// Finds the first property that holds face indices.
pub fn find_indices(properties: &Vec<MeshProperty>) -> (place: usize)
    ensures
        place == first_indices_from(properties@, 0),
        place <= properties.len(),
        place < properties.len() ==> properties@[place as int] is FaceVertexIndices,
{
    let mut i: usize = 0;
    while i < properties.len()
        invariant
            first_indices_from(properties@, 0) == first_indices_from(properties@, i as int),
        decreases properties.len() - i,
    {
        match &properties[i] {
            MeshProperty::FaceVertexIndices(_) => {
                return i;
            },
            _ => {},
        }
        i = i + 1;
    }
    properties.len()
}

/// Lays out positions and normals vertex by vertex.
pub fn interleave(points: &Vec<[u32; 3]>, normals: &Vec<[u32; 3]>) -> (vertex_data: Vec<u32>)
    requires
        normals_cover(points@, normals@),
    ensures
        vertex_data@ == interleaved(points@, normals@),
{
    let mut vertex_data: Vec<u32> = Vec::new();
    let mut index: usize = 0;
    while index < points.len()
        invariant
            index <= points.len(),
            normals_cover(points@, normals@),
            vertex_data@.len() == 6 * index,
            forall|k: int|
                0 <= k < 6 * index ==> #[trigger] vertex_data@[k] == interleaved(
                    points@,
                    normals@,
                )[k],
        decreases points.len() - index,
    {
        assert(3 * index < normals.len());
        let point = &points[index];
        let normal = &normals[3 * index];
        vertex_data.push(point[0]);
        vertex_data.push(point[1]);
        vertex_data.push(point[2]);
        vertex_data.push(normal[0]);
        vertex_data.push(normal[1]);
        vertex_data.push(normal[2]);
        index = index + 1;
    }
    assert(vertex_data@ =~= interleaved(points@, normals@));
    vertex_data
}

/// Where the parts of a mesh stand among its properties.
struct MeshPlaces {
    points: usize,
    normals: usize,
    indices: usize,
}

impl MeshPlaces {
    /// Whether these are the places from which `properties` give their
    /// mesh.
    spec fn locates(self, properties: Seq<MeshProperty>) -> bool {
        &&& self.points < properties.len()
        &&& self.normals < properties.len()
        &&& self.indices < properties.len()
        &&& properties[self.points as int] is Points
        &&& properties[self.normals as int] is Normals
        &&& properties[self.indices as int] is FaceVertexIndices
        &&& normals_cover(
            properties[self.points as int]->Points_0@,
            properties[self.normals as int]->Normals_0@,
        )
        &&& mesh_of(properties) == Ok::<(Seq<u32>, Seq<u32>), MeshError>(
            (
                interleaved(
                    properties[self.points as int]->Points_0@,
                    properties[self.normals as int]->Normals_0@,
                ),
                properties[self.indices as int]->FaceVertexIndices_0@,
            ),
        )
    }
}

/// Finds positions, normals and face indices among `properties`, or says
/// why they give no mesh.
fn locate(properties: &Vec<MeshProperty>) -> (result: Result<MeshPlaces, MeshError>)
    ensures
        match result {
            Ok(places) => places.locates(properties@),
            Err(error) => mesh_of(properties@) == Err::<(Seq<u32>, Seq<u32>), MeshError>(error),
        },
{
    let a = find_attribute(properties, 0);
    if a >= properties.len() {
        return Err(MeshError::AttributesMissing);
    }
    let b = find_attribute(properties, a + 1);
    if b >= properties.len() {
        return Err(MeshError::AttributesMissing);
    }
    let (p, n) = match &properties[a] {
        MeshProperty::Points(_) => (a, b),
        _ => (b, a),
    };
    let (points, normals) = match &properties[p] {
        MeshProperty::Points(points) => match &properties[n] {
            MeshProperty::Normals(normals) => (points, normals),
            _ => {
                return Err(MeshError::AttributesMissing);
            },
        },
        _ => {
            return Err(MeshError::AttributesMissing);
        },
    };
    if points.len() > 0 && (normals.len() == 0 || (normals.len() - 1) / 3 < points.len() - 1) {
        return Err(MeshError::NormalsMissing);
    }
    let f = find_indices(properties);
    if f >= properties.len() {
        return Err(MeshError::IndicesMissing);
    }
    Ok(MeshPlaces { points: p, normals: n, indices: f })
}

/// Tells whether `properties` give a mesh, and if not, why not. A model
/// can be built from exactly the lists that pass.
pub fn check_mesh(properties: &Vec<MeshProperty>) -> (result: Result<(), MeshError>)
    ensures
        match result {
            Ok(_) => mesh_of(properties@) is Ok,
            Err(error) => mesh_of(properties@) == Err::<(Seq<u32>, Seq<u32>), MeshError>(error),
        },
{
    match locate(properties) {
        Ok(_) => Ok(()),
        Err(error) => Err(error),
    }
}

/// The model showcase: the contents of its vertex and index buffers.
pub struct Model3d {
    vertex_data: Vec<u8>,
    index_data: Vec<u8>,
}

impl Model3d {
    /// The contents of the vertex buffer.
    pub closed spec fn vertex_bytes(&self) -> Seq<u8> {
        self.vertex_data@
    }

    /// The contents of the index buffer.
    pub closed spec fn index_bytes(&self) -> Seq<u8> {
        self.index_data@
    }

    /// The buffers hold the mesh that `properties` give.
    pub open spec fn holds_mesh_of(&self, properties: Seq<MeshProperty>) -> bool {
        match mesh_of(properties) {
            Ok((vertices, indices)) => {
                &&& is_layout_u32(self.vertex_bytes(), vertices)
                &&& is_layout_u32(self.index_bytes(), indices)
            },
            Err(_) => false,
        }
    }

    /// Builds the model from the properties of a mesh definition, which
    /// have to give a mesh: [`check_mesh`] tells whether they do.
    ///
    /// Positions and normals are the first two properties that hold either,
    /// in any order; the indices are those of the first property that holds
    /// face indices.
    pub fn new(properties: &Vec<MeshProperty>) -> (model: Model3d)
        requires
            mesh_of(properties@) is Ok,
        ensures
            model.holds_mesh_of(properties@),
    {
        match locate(properties) {
            Ok(places) => match &properties[places.points] {
                MeshProperty::Points(points) => match &properties[places.normals] {
                    MeshProperty::Normals(normals) => match &properties[places.indices] {
                        MeshProperty::FaceVertexIndices(indices) => {
                            let vertices = interleave(points, normals);
                            Model3d {
                                vertex_data: bytes_of_u32(&vertices),
                                index_data: bytes_of_u32(indices),
                            }
                        },
                        _ => unreached(),
                    },
                    _ => unreached(),
                },
                _ => unreached(),
            },
            Err(_) => unreached(),
        }
    }

    /// The contents of the vertex buffer.
    pub fn vertex_data(&self) -> (bytes: &Vec<u8>)
        ensures
            bytes@ == self.vertex_bytes(),
    {
        &self.vertex_data
    }

    /// The contents of the index buffer.
    pub fn index_data(&self) -> (bytes: &Vec<u8>)
        ensures
            bytes@ == self.index_bytes(),
    {
        &self.index_data
    }

    /// Records one draw of the model.
    pub fn draw(&self, render_pass: &mut RenderPass)
        ensures
            final(render_pass)@ == old(render_pass)@ + model_commands(),
    {
        render_pass.set_pipeline(Owner::Model3d);
        render_pass.set_bind_group(0, Owner::Model3d);
        render_pass.set_vertex_buffer(0, Owner::Model3d);
        render_pass.set_index_buffer(Owner::Model3d, IndexFormat::Uint32);
        render_pass.draw_indexed(0, MODEL_INDEX_COUNT, 0, 0, 1);
        assert(render_pass@ =~= old(render_pass)@ + model_commands());
    }
}

} // verus!
