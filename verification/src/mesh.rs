//! Meshes: geometry as a loader hands it over, checked and interleaved into
//! one vertex buffer and one index buffer.
//!
//! A vertex is eight words: three of position, three of normal, two of
//! texture coordinates.

use vstd::prelude::*;
use crate::binding::{label_text, suffixed, Buffer, BufferUsage};
use crate::words::{le_image, pack_words};

verus! {

/// The number of words in one vertex.
pub const VERTEX_WORDS: usize = 8;

/// The geometry of one mesh as a loader returns it.  Coordinates are
/// single-precision bit patterns.
#[derive(Clone, Debug, PartialEq, Eq)]
pub struct MeshData {
    /// Three values for each vertex.
    pub positions: Vec<u32>,
    /// Three values for each vertex.
    pub normals: Vec<u32>,
    /// Two values for each vertex.
    pub texcoords: Vec<u32>,
    /// Three vertex numbers for each triangle.
    pub indices: Vec<u32>,
    /// The number of the material among those loaded with the mesh.
    pub material_id: Option<usize>,
}

/// A named mesh as a loader returns it.
#[derive(Clone, Debug, PartialEq, Eq)]
pub struct ModelData {
    pub name: String,
    pub mesh: MeshData,
}

/// Why a mesh was refused.
#[derive(Clone, Copy, Debug, PartialEq, Eq, Structural)]
pub enum MeshError {
    /// The positions are not three for each vertex.
    RaggedPositions,
    /// There are not as many normals as positions.
    NormalCount,
    /// There are not two texture coordinates for each vertex.
    TexcoordCount,
    /// The indices are not three for each triangle.
    IndexCount,
    /// There are more indices than one draw call can cover.
    TooManyIndices,
    /// An index names a vertex that does not exist.
    IndexRange,
}

/// A mesh on the device.
#[derive(Clone, Debug, PartialEq, Eq)]
pub struct Mesh {
    /// The vertices, eight words each.
    pub vertices: Vec<u32>,
    pub indices: Vec<u32>,
    pub vertex_buffer: Buffer,
    pub index_buffer: Buffer,
    /// The number of indices to draw.
    pub num_indices: u32,
    /// The number of the material the mesh is drawn with.
    pub material: usize,
}

/// A named mesh on the device.
#[derive(Clone, Debug, PartialEq, Eq)]
pub struct Model {
    pub name: String,
    pub mesh: Mesh,
}

/// The usage of a vertex buffer.
pub open spec fn vertex_usage() -> BufferUsage {
    BufferUsage { uniform: false, copy_dst: false, vertex: true, index: false }
}

/// The usage of an index buffer.
pub open spec fn index_usage() -> BufferUsage {
    BufferUsage { uniform: false, copy_dst: false, vertex: false, index: true }
}

/// Every index names one of `count` vertices.
pub open spec fn indices_in_range(indices: Seq<u32>, count: int) -> bool {
    forall|i: int| 0 <= i < indices.len() ==> #[trigger] indices[i] < count
}

/// What is wrong with the geometry, if anything.
pub open spec fn mesh_fault(
    positions: Seq<u32>,
    normals: Seq<u32>,
    texcoords: Seq<u32>,
    indices: Seq<u32>,
) -> Option<MeshError> {
    if positions.len() % 3 != 0 {
        Some(MeshError::RaggedPositions)
    } else if normals.len() != positions.len() {
        Some(MeshError::NormalCount)
    } else if texcoords.len() != 2 * (positions.len() / 3) {
        Some(MeshError::TexcoordCount)
    } else if indices.len() % 3 != 0 {
        Some(MeshError::IndexCount)
    } else if indices.len() > u32::MAX {
        Some(MeshError::TooManyIndices)
    } else if !indices_in_range(indices, positions.len() as int / 3) {
        Some(MeshError::IndexRange)
    } else {
        None
    }
}

/// Word `k` of vertex `v`.
pub open spec fn vertex_word(
    positions: Seq<u32>,
    normals: Seq<u32>,
    texcoords: Seq<u32>,
    v: int,
    k: int,
) -> u32 {
    if k < 3 {
        positions[3 * v + k]
    } else if k < 6 {
        normals[3 * v + k - 3]
    } else {
        texcoords[2 * v + k - 6]
    }
}

/// The vertices one after another, each as position, normal and texture
/// coordinates.
pub open spec fn interleaved(positions: Seq<u32>, normals: Seq<u32>, texcoords: Seq<u32>) -> Seq<
    u32,
> {
    Seq::new(
        8 * (positions.len() / 3),
        |i: int| vertex_word(positions, normals, texcoords, i / 8, i % 8),
    )
}

/// Interleaves the three attribute streams.
pub fn interleave(positions: &[u32], normals: &[u32], texcoords: &[u32]) -> (out: Vec<u32>)
    requires
        positions@.len() % 3 == 0,
        normals@.len() == positions@.len(),
        texcoords@.len() == 2 * (positions@.len() / 3),
    ensures
        out@ == interleaved(positions@, normals@, texcoords@),
{
    let count: usize = positions.len() / 3;
    let ghost whole = interleaved(positions@, normals@, texcoords@);
    let mut out: Vec<u32> = Vec::new();
    let mut v: usize = 0;
    while v < count
        invariant
            v <= count,
            count == positions@.len() / 3,
            positions@.len() % 3 == 0,
            positions@.len() == positions.len(),
            normals@.len() == positions@.len(),
            texcoords@.len() == 2 * count,
            whole == interleaved(positions@, normals@, texcoords@),
            out@.len() == 8 * v,
            forall|j: int| 0 <= j < 8 * v ==> out@[j] == #[trigger] whole[j],
        decreases count - v,
    {
        out.push(positions[3 * v]);
        out.push(positions[3 * v + 1]);
        out.push(positions[3 * v + 2]);
        out.push(normals[3 * v]);
        out.push(normals[3 * v + 1]);
        out.push(normals[3 * v + 2]);
        out.push(texcoords[2 * v]);
        out.push(texcoords[2 * v + 1]);
        proof {
            assert forall|j: int| 0 <= j < 8 * (v + 1) implies out@[j] == #[trigger] whole[j] by {
                if j >= 8 * v {
                    assert(j / 8 == v);
                    assert(j % 8 == j - 8 * v);
                }
            }
        }
        v += 1;
    }
    assert(out@ =~= whole);
    out
}

/// Whether every index names one of `count` vertices.
pub fn all_in_range(indices: &[u32], count: usize) -> (ok: bool)
    ensures
        ok == indices_in_range(indices@, count as int),
{
    let mut i: usize = 0;
    while i < indices.len()
        invariant
            i <= indices.len(),
            forall|j: int| 0 <= j < i ==> #[trigger] indices@[j] < count,
        decreases indices.len() - i,
    {
        if indices[i] as usize >= count {
            return false;
        }
        i += 1;
    }
    true
}

impl MeshData {
    /// What is wrong with the geometry, if anything.
    pub open spec fn spec_fault(&self) -> Option<MeshError> {
        mesh_fault(self.positions@, self.normals@, self.texcoords@, self.indices@)
    }

    /// Decides what is wrong with the geometry, if anything.
    #[verifier::when_used_as_spec(spec_fault)]
    pub fn fault(&self) -> (fault: Option<MeshError>)
        ensures
            fault == self.spec_fault(),
    {
        let positions: usize = self.positions.len();
        let texcoords: usize = self.texcoords.len();
        let indices: usize = self.indices.len();
        if positions % 3 != 0 {
            Some(MeshError::RaggedPositions)
        } else if self.normals.len() != positions {
            Some(MeshError::NormalCount)
        } else if texcoords % 2 != 0 || texcoords / 2 != positions / 3 {
            assert(texcoords != 2 * (positions / 3));
            Some(MeshError::TexcoordCount)
        } else if indices % 3 != 0 {
            assert(texcoords == 2 * (positions / 3));
            Some(MeshError::IndexCount)
        } else if indices > 0xffff_ffff {
            assert(texcoords == 2 * (positions / 3));
            Some(MeshError::TooManyIndices)
        } else if !all_in_range(self.indices.as_slice(), positions / 3) {
            assert(texcoords == 2 * (positions / 3));
            Some(MeshError::IndexRange)
        } else {
            assert(texcoords == 2 * (positions / 3));
            None
        }
    }
}

impl Mesh {
    /// The number of vertices.
    pub open spec fn vertex_count(&self) -> int {
        self.vertices@.len() as int / 8
    }

    /// The vertices are whole, the indices form triangles of existing
    /// vertices, and the two buffers hold the images of both.
    pub open spec fn wf(&self) -> bool {
        &&& self.vertices@.len() % 8 == 0
        &&& self.indices@.len() % 3 == 0
        &&& self.num_indices == self.indices@.len()
        &&& indices_in_range(self.indices@, self.vertex_count())
        &&& self.vertex_buffer.contents@ == le_image(self.vertices@)
        &&& self.vertex_buffer.usage == vertex_usage()
        &&& self.index_buffer.contents@ == le_image(self.indices@)
        &&& self.index_buffer.usage == index_usage()
    }
}

impl ModelData {
    /// The number of the material the mesh is drawn with: its own, or 0 if
    /// it names none.
    pub open spec fn spec_material(&self) -> usize {
        match self.mesh.material_id {
            Some(id) => id,
            None => 0,
        }
    }

    #[verifier::when_used_as_spec(spec_material)]
    pub fn material(&self) -> (material: usize)
        ensures
            material == self.spec_material(),
    {
        match self.mesh.material_id {
            Some(id) => id,
            None => 0,
        }
    }
}

impl Model {
    /// The model is the one made from this geometry.
    pub open spec fn made_from(&self, data: &ModelData) -> bool {
        &&& self.mesh.wf()
        &&& self.name@ == data.name@
        &&& self.mesh.vertices@ == interleaved(
            data.mesh.positions@,
            data.mesh.normals@,
            data.mesh.texcoords@,
        )
        &&& self.mesh.indices@ == data.mesh.indices@
        &&& self.mesh.material == data.material()
        &&& label_text(self.mesh.vertex_buffer.label) == Some(data.name@ + " vertex buffer"@)
        &&& label_text(self.mesh.index_buffer.label) == Some(data.name@ + " index buffer"@)
    }

    /// The mesh on the device for the geometry of a loader: one vertex
    /// buffer of interleaved vertices and one index buffer, each exactly as
    /// long as its source.  A mesh without a material number is drawn with
    /// material 0.
    pub fn new(data: &ModelData) -> (r: Result<Model, MeshError>)
        ensures
            r is Ok <==> data.mesh.fault() is None,
            r matches Err(e) ==> data.mesh.fault() == Some(e),
            r matches Ok(m) ==> m.made_from(data),
    {
        let mesh = &data.mesh;
        match mesh.fault() {
            Some(e) => { return Err(e); },
            None => {},
        }
        let vertices = interleave(
            mesh.positions.as_slice(),
            mesh.normals.as_slice(),
            mesh.texcoords.as_slice(),
        );
        let indices = mesh.indices.clone();
        let vertex_bytes = pack_words(vertices.as_slice());
        let index_bytes = pack_words(indices.as_slice());
        let material: usize = data.material();
        let num_indices: u32 = indices.len() as u32;
        Ok(
            Model {
                name: data.name.clone(),
                mesh: Mesh {
                    vertices,
                    indices,
                    vertex_buffer: Buffer {
                        label: Some(suffixed(data.name.as_str(), " vertex buffer")),
                        contents: vertex_bytes,
                        usage: BufferUsage {
                            uniform: false,
                            copy_dst: false,
                            vertex: true,
                            index: false,
                        },
                    },
                    index_buffer: Buffer {
                        label: Some(suffixed(data.name.as_str(), " index buffer")),
                        contents: index_bytes,
                        usage: BufferUsage {
                            uniform: false,
                            copy_dst: false,
                            vertex: false,
                            index: true,
                        },
                    },
                    num_indices,
                    material,
                },
            },
        )
    }
}

} // verus!
