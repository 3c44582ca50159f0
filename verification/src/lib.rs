//! Tangent-space generation support for triangulated meshes.
//!
//! The crate models a mesh as flat attribute buffers (positions, normals,
//! texture coordinates, three vertex instances per triangular face) and
//! provides the verified plumbing around tangent generation: buffer-layout
//! validation, face/vertex indexing, fan triangulation of polygonal faces,
//! and the write-back buffer that collects one packed tangent per vertex
//! instance.

use vstd::prelude::*;

pub mod indexer;
pub mod mesh;
pub mod triangulate;

verus! {

/// Why a tangent-generation run was refused.
#[derive(Clone, Copy, Debug, PartialEq, Eq, Structural)]
pub enum TangentError {
    /// A face has fewer than three vertices.
    InvalidFace,
    /// The flat attribute buffers do not describe the same vertex instances.
    BufferLengthMismatch,
}

/// The flat attribute buffers describe a whole number of triangular faces:
/// three vertex instances per face, three words of position and of normal
/// and two words of texture coordinate per vertex instance.
pub open spec fn valid_layout(position_len: int, normal_len: int, texcoord_len: int) -> bool {
    &&& position_len % 9 == 0
    &&& normal_len == position_len
    &&& 3 * texcoord_len == 2 * position_len
}

/// Checks the three buffer lengths against the layout the generator expects.
pub fn layout_is_valid(position_len: usize, normal_len: usize, texcoord_len: usize) -> (r: bool)
    ensures
        r == valid_layout(position_len as int, normal_len as int, texcoord_len as int),
{
    if position_len % 9 != 0 || normal_len != position_len {
        false
    } else {
        let faces: usize = position_len / 9;
        proof {
            assert(position_len == 9 * (position_len as int / 9));
            assert(3 * (6 * (position_len as int / 9)) == 2 * position_len as int);
        }
        texcoord_len == faces * 6
    }
}

/// Resolves a finished generation pass.  `generated` says whether the
/// tangent generator accepted the geometry; the mesh carries whatever the
/// generator wrote back.  The pass succeeds, handing out the tangent
/// buffer, exactly when the generator wrote the four tangent words of
/// every vertex instance and either reported success or had no vertex
/// instances to work on (an empty mesh yields an empty buffer and no
/// error).  Otherwise the whole run fails with `InvalidFace` and no
/// partial output is returned.
pub fn finish_generation(mesh: mesh::Mesh, generated: bool) -> (r: Result<Vec<u32>, TangentError>)
    requires
        mesh.well_formed(),
    ensures
        match r {
            Ok(t) => {
                &&& generated || mesh.instance_count() == 0
                &&& t@ == mesh.tangent@
                &&& t@.len() == 4 * mesh.instance_count()
            },
            Err(e) => {
                &&& e == TangentError::InvalidFace
                &&& ((!generated && mesh.instance_count() != 0)
                    || mesh.tangent@.len() != 4 * mesh.instance_count())
            },
        },
{
    if !generated && mesh.num_vertex_instances() != 0 {
        return Err(TangentError::InvalidFace);
    }
    match mesh.take_tangents() {
        Some(t) => Ok(t),
        None => Err(TangentError::InvalidFace),
    }
}

} // verus!
