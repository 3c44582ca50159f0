//! The flat-buffer mesh: positions, normals and texture coordinates for a
//! list of triangular faces, plus the tangent buffer that generation fills.
//!
//! Scalar components are carried as opaque 32-bit words; the mesh logic only
//! moves them between buffers, it never interprets them numerically.  Each
//! face holds three vertex instances; a vertex instance owns three position
//! words, three normal words and two texture-coordinate words, and receives
//! exactly four tangent words on a successful run.

use vstd::prelude::*;

use crate::TangentError;
use crate::valid_layout;

verus! {

/// The word that encodes a handedness sign of +1 (the bit pattern of the
/// unit scalar): the bitangent preserves orientation.
pub const SIGN_POSITIVE_WORD: u32 = 0x3F80_0000;

/// The word that encodes a handedness sign of -1 (the bit pattern of the
/// negated unit scalar): the bitangent must be flipped.
pub const SIGN_NEGATIVE_WORD: u32 = 0xBF80_0000;

/// The sign word that the packed tangent form carries in its fourth slot.
pub open spec fn sign_word(bitangent_preserves_orientation: bool) -> u32 {
    if bitangent_preserves_orientation {
        SIGN_POSITIVE_WORD
    } else {
        SIGN_NEGATIVE_WORD
    }
}

/// A mesh given as flat attribute buffers, three consecutive vertex
/// instances per triangular face.
pub struct Mesh {
    /// Three words per vertex instance.
    pub position: Vec<u32>,
    /// Three words per vertex instance.
    pub normal: Vec<u32>,
    /// Two words per vertex instance.
    pub texcoord: Vec<u32>,
    /// Four words per vertex instance once generation has run; written
    /// back one vertex instance at a time.
    pub tangent: Vec<u32>,
}

impl Mesh {
    /// The attribute buffers agree on one set of vertex instances.
    pub open spec fn well_formed(&self) -> bool {
        valid_layout(
            self.position@.len() as int,
            self.normal@.len() as int,
            self.texcoord@.len() as int,
        )
    }

    /// How many triangular faces the buffers describe.
    pub open spec fn face_count(&self) -> int {
        self.position@.len() as int / 9
    }

    /// How many vertex instances the buffers describe.
    pub open spec fn instance_count(&self) -> int {
        self.position@.len() as int / 3
    }

    /// Builds a mesh from the three attribute buffers, with an empty tangent
    /// buffer; rejects buffers whose lengths do not describe one common list
    /// of triangular faces.
    pub fn new(position: Vec<u32>, normal: Vec<u32>, texcoord: Vec<u32>) -> (r: Result<Mesh, TangentError>)
        ensures
            match r {
                Ok(m) => {
                    &&& valid_layout(position@.len() as int, normal@.len() as int, texcoord@.len() as int)
                    &&& m.well_formed()
                    &&& m.position@ == position@
                    &&& m.normal@ == normal@
                    &&& m.texcoord@ == texcoord@
                    &&& m.tangent@.len() == 0
                },
                Err(e) => {
                    &&& e == TangentError::BufferLengthMismatch
                    &&& !valid_layout(position@.len() as int, normal@.len() as int, texcoord@.len() as int)
                },
            },
    {
        if crate::layout_is_valid(position.len(), normal.len(), texcoord.len()) {
            Ok(Mesh { position, normal, texcoord, tangent: Vec::new() })
        } else {
            Err(TangentError::BufferLengthMismatch)
        }
    }

    /// The number of faces.
    pub fn num_faces(&self) -> (n: usize)
        ensures
            n == self.face_count(),
    {
        self.position.len() / 9
    }

    /// The number of vertex instances.
    pub fn num_vertex_instances(&self) -> (n: usize)
        ensures
            n == self.instance_count(),
    {
        self.position.len() / 3
    }

    /// The number of vertices of a face: every face of the flat layout is a
    /// triangle.
    pub fn num_vertices_of_face(&self, _face: usize) -> (n: usize)
        ensures
            n == 3,
    {
        3
    }

    /// The per-face vertex counts of the flat layout, for the polygonal
    /// indexer and triangulator: one entry of three per face.
    pub fn face_sizes(&self) -> (sizes: Vec<usize>)
        ensures
            sizes@.len() == self.face_count(),
            forall|i: int| 0 <= i < sizes@.len() ==> #[trigger] sizes@[i] == 3,
    {
        let count: usize = self.position.len() / 9;
        let mut sizes: Vec<usize> = Vec::new();
        let mut f: usize = 0;
        while f < count
            invariant
                f <= count,
                sizes@.len() == f,
                forall|i: int| 0 <= i < f ==> #[trigger] sizes@[i] == 3,
            decreases count - f,
        {
            sizes.push(3);
            f = f + 1;
        }
        sizes
    }

    /// The position of a vertex instance, as three words.
    pub fn position(&self, face: usize, vert: usize) -> (p: [u32; 3])
        requires
            self.well_formed(),
            face < self.face_count(),
            vert < 3,
        ensures
            p@ == self.position@.subrange(9 * face + 3 * vert, 9 * face + 3 * vert + 3),
    {
        let n: usize = self.position.len();
        proof {
            lemma_attribute_index_bound(n as int, face as int, vert as int);
        }
        let base: usize = face * 9 + vert * 3;
        let p = [self.position[base], self.position[base + 1], self.position[base + 2]];
        proof {
            assert(p@ =~= self.position@.subrange(9 * face + 3 * vert, 9 * face + 3 * vert + 3));
        }
        p
    }

    /// The normal of a vertex instance, as three words.
    pub fn normal(&self, face: usize, vert: usize) -> (p: [u32; 3])
        requires
            self.well_formed(),
            face < self.face_count(),
            vert < 3,
        ensures
            p@ == self.normal@.subrange(9 * face + 3 * vert, 9 * face + 3 * vert + 3),
    {
        let n: usize = self.normal.len();
        proof {
            lemma_attribute_index_bound(n as int, face as int, vert as int);
        }
        let base: usize = face * 9 + vert * 3;
        let p = [self.normal[base], self.normal[base + 1], self.normal[base + 2]];
        proof {
            assert(p@ =~= self.normal@.subrange(9 * face + 3 * vert, 9 * face + 3 * vert + 3));
        }
        p
    }

    /// The texture coordinate of a vertex instance, as two words.
    pub fn tex_coord(&self, face: usize, vert: usize) -> (p: [u32; 2])
        requires
            self.well_formed(),
            face < self.face_count(),
            vert < 3,
        ensures
            p@ == self.texcoord@.subrange(6 * face + 2 * vert, 6 * face + 2 * vert + 2),
    {
        let n: usize = self.texcoord.len();
        proof {
            lemma_attribute_index_bound(self.position@.len() as int, face as int, vert as int);
            assert(3 * (6 * face + 2 * vert + 2) == 2 * (9 * face + 3 * vert + 3));
            assert(6 * face + 2 * vert + 2 <= n);
        }
        let base: usize = face * 6 + vert * 2;
        let p = [self.texcoord[base], self.texcoord[base + 1]];
        proof {
            assert(p@ =~= self.texcoord@.subrange(6 * face + 2 * vert, 6 * face + 2 * vert + 2));
        }
        p
    }

    /// Appends the packed four-word tangent of one vertex instance to the
    /// tangent buffer; the attribute buffers are left untouched.
    pub fn set_tangent_encoded(&mut self, tangent: [u32; 4], _face: usize, _vert: usize)
        ensures
            final(self).position@ == old(self).position@,
            final(self).normal@ == old(self).normal@,
            final(self).texcoord@ == old(self).texcoord@,
            final(self).tangent@ == old(self).tangent@ + tangent@,
    {
        self.tangent.push(tangent[0]);
        self.tangent.push(tangent[1]);
        self.tangent.push(tangent[2]);
        self.tangent.push(tangent[3]);
        proof {
            assert(self.tangent@ =~= old(self).tangent@ + tangent@);
        }
    }

    /// Hands the tangent buffer out, but only when it is complete: four
    /// words for every vertex instance.  An incomplete run yields no
    /// partial output.
    pub fn take_tangents(self) -> (r: Option<Vec<u32>>)
        requires
            self.well_formed(),
        ensures
            match r {
                Some(t) => {
                    &&& t@ == self.tangent@
                    &&& t@.len() == 4 * self.instance_count()
                },
                None => self.tangent@.len() != 4 * self.instance_count(),
            },
    {
        let instances: usize = self.position.len() / 3;
        if self.tangent.len() % 4 == 0 && self.tangent.len() / 4 == instances {
            proof {
                assert(self.tangent@.len() == 4 * (self.tangent@.len() as int / 4));
            }
            Some(self.tangent)
        } else {
            None
        }
    }
}

/// The adapter from the unpacked write-back form (separate tangent and
/// bitangent with magnitudes and an orientation flag) to the packed
/// four-word form: the three tangent words followed by the sign word.  The
/// bitangent and the magnitudes do not enter the packed form.
pub fn set_tangent(
    mesh: &mut Mesh,
    tangent: [u32; 3],
    _bitangent: [u32; 3],
    _mag_s: u32,
    _mag_t: u32,
    bitangent_preserves_orientation: bool,
    face: usize,
    vert: usize,
)
    ensures
        final(mesh).position@ == old(mesh).position@,
        final(mesh).normal@ == old(mesh).normal@,
        final(mesh).texcoord@ == old(mesh).texcoord@,
        final(mesh).tangent@ == old(mesh).tangent@ + tangent@
            + seq![sign_word(bitangent_preserves_orientation)],
{
    let sign: u32 = if bitangent_preserves_orientation {
        SIGN_POSITIVE_WORD
    } else {
        SIGN_NEGATIVE_WORD
    };
    let packed = [tangent[0], tangent[1], tangent[2], sign];
    mesh.set_tangent_encoded(packed, face, vert);
    proof {
        assert(mesh.tangent@ =~= old(mesh).tangent@ + tangent@
            + seq![sign_word(bitangent_preserves_orientation)]);
    }
}

/// An attribute index formed from a face and a local vertex stays inside a
/// buffer that holds nine words per face.
proof fn lemma_attribute_index_bound(len: int, face: int, vert: int)
    requires
        len % 9 == 0,
        0 <= face < len / 9,
        0 <= vert < 3,
    ensures
        9 * face + 3 * vert + 3 <= len,
{
    assert(len == 9 * (len / 9));
    assert(9 * face <= 9 * (len / 9) - 9);
}

} // verus!
