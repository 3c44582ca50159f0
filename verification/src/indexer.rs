//! The face/vertex indexer: maps a global linear vertex-instance index to a
//! (face, local vertex) pair and back.
//!
//! Two forms are provided.  The packed form reserves two bits per face for
//! the local vertex, which caps the supported polygon degree at four; the
//! offset-table form keeps a prefix sum of per-face vertex counts and
//! supports faces of any degree.

use vstd::prelude::*;

verus! {

/// The sum of all per-face vertex counts: how many vertex instances a list
/// of face sizes describes.
pub open spec fn total_vertices(sizes: Seq<usize>) -> int
    decreases sizes.len(),
{
    if sizes.len() == 0 {
        0
    } else {
        total_vertices(sizes.drop_last()) + sizes.last()
    }
}

/// Extending a size list by one face adds that face's vertex count.
pub proof fn lemma_total_vertices_push(sizes: Seq<usize>, k: int)
    requires
        0 <= k < sizes.len(),
    ensures
        total_vertices(sizes.subrange(0, k + 1)) == total_vertices(sizes.subrange(0, k)) + sizes[k],
{
    let longer = sizes.subrange(0, k + 1);
    assert(longer.drop_last() =~= sizes.subrange(0, k));
}

/// Every prefix of a size list accounts for at most the whole list's
/// vertex instances.
pub proof fn lemma_total_vertices_prefix(sizes: Seq<usize>, k: int)
    requires
        0 <= k <= sizes.len(),
    ensures
        total_vertices(sizes.subrange(0, k)) <= total_vertices(sizes),
    decreases sizes.len() - k,
{
    if k == sizes.len() {
        assert(sizes.subrange(0, k) =~= sizes);
    } else {
        lemma_total_vertices_push(sizes, k);
        lemma_total_vertices_prefix(sizes, k + 1);
    }
}

/// A list of triangular faces accounts for exactly three vertex instances
/// per face.
pub proof fn lemma_total_vertices_triangles(sizes: Seq<usize>)
    requires
        forall|i: int| 0 <= i < sizes.len() ==> #[trigger] sizes[i] == 3,
    ensures
        total_vertices(sizes) == 3 * sizes.len(),
    decreases sizes.len(),
{
    if sizes.len() > 0 {
        lemma_total_vertices_triangles(sizes.drop_last());
    }
}

/// Packs a face index and a local vertex index into one global index,
/// reserving two bits per face for the local vertex.
pub fn face_vert_to_index_packed(face: usize, vert: usize) -> (index: usize)
    requires
        vert < 4,
        4 * face + vert <= usize::MAX,
    ensures
        index == 4 * face + vert,
{
    face * 4 + vert
}

/// Recovers the face and local vertex from a packed global index.
pub fn index_to_face_vert_packed(index: usize) -> (r: (usize, usize))
    ensures
        r.0 == index as int / 4,
        r.1 == index as int % 4,
        r.1 < 4,
        index == 4 * r.0 + r.1,
{
    (index / 4, index % 4)
}

/// Packing a (face, local vertex) pair and unpacking the result gives the
/// pair back; unpacking any index and packing the result gives the index
/// back.  The two packed maps are mutually inverse.
pub proof fn lemma_packed_round_trip(face: int, vert: int)
    requires
        0 <= face,
        0 <= vert < 4,
    ensures
        (4 * face + vert) / 4 == face,
        (4 * face + vert) % 4 == vert,
{
}

/// The offset-table indexer: entry `f` holds the global index of face
/// `f`'s first vertex instance, and a final entry holds the total count.
pub struct FaceTable {
    /// Prefix sums of the per-face vertex counts, starting at zero.
    pub offsets: Vec<usize>,
}

impl FaceTable {
    /// The table is a monotone prefix-sum table anchored at zero.
    pub open spec fn well_formed(&self) -> bool {
        &&& self.offsets@.len() >= 1
        &&& self.offsets@[0] == 0
        &&& forall|i: int, j: int|
            0 <= i <= j < self.offsets@.len() ==> #[trigger] self.offsets@[i] <= #[trigger] self.offsets@[j]
    }

    /// How many faces the table indexes.
    pub open spec fn face_count(&self) -> int {
        self.offsets@.len() - 1
    }

    /// How many vertex instances face `f` owns.
    pub open spec fn size_of_face(&self, f: int) -> int {
        self.offsets@[f + 1] - self.offsets@[f]
    }

    /// How many vertex instances the whole table indexes.
    pub open spec fn total(&self) -> int {
        self.offsets@[self.offsets@.len() - 1] as int
    }

    /// Builds the offset table for a list of per-face vertex counts.
    pub fn new(sizes: &Vec<usize>) -> (t: FaceTable)
        requires
            total_vertices(sizes@) <= usize::MAX,
        ensures
            t.well_formed(),
            t.face_count() == sizes@.len(),
            t.total() == total_vertices(sizes@),
            forall|f: int| 0 <= f < sizes@.len() ==> t.size_of_face(f) == sizes@[f],
    {
        let face_count: usize = sizes.len();
        let mut offsets: Vec<usize> = Vec::new();
        offsets.push(0);
        let mut f: usize = 0;
        let mut acc: usize = 0;
        while f < face_count
            invariant
                face_count == sizes@.len(),
                total_vertices(sizes@) <= usize::MAX,
                f <= face_count,
                offsets@.len() == f + 1,
                offsets@[0] == 0,
                offsets@[f as int] == acc,
                acc == total_vertices(sizes@.subrange(0, f as int)),
                forall|i: int| 0 <= i < f ==> offsets@[i + 1] == offsets@[i] + sizes@[i],
                forall|i: int, j: int|
                    0 <= i <= j <= f ==> #[trigger] offsets@[i] <= #[trigger] offsets@[j],
            decreases face_count - f,
        {
            proof {
                lemma_total_vertices_push(sizes@, f as int);
                lemma_total_vertices_prefix(sizes@, f as int + 1);
            }
            acc = acc + sizes[f];
            offsets.push(acc);
            f = f + 1;
        }
        proof {
            assert(sizes@.subrange(0, face_count as int) =~= sizes@);
        }
        FaceTable { offsets }
    }

    /// The number of faces the table indexes.
    pub fn num_faces(&self) -> (n: usize)
        requires
            self.well_formed(),
        ensures
            n == self.face_count(),
    {
        self.offsets.len() - 1
    }

    /// The number of vertex instances the table indexes.
    pub fn num_vertex_instances(&self) -> (n: usize)
        requires
            self.well_formed(),
        ensures
            n == self.total(),
    {
        self.offsets[self.offsets.len() - 1]
    }

    /// The global index of a face's first vertex instance.
    pub fn face_offset(&self, face: usize) -> (o: usize)
        requires
            self.well_formed(),
            face < self.face_count(),
        ensures
            o == self.offsets@[face as int],
    {
        self.offsets[face]
    }

    /// Maps a (face, local vertex) pair to its global vertex-instance
    /// index.
    pub fn face_vert_to_index(&self, face: usize, vert: usize) -> (index: usize)
        requires
            self.well_formed(),
            face < self.face_count(),
            vert < self.size_of_face(face as int),
        ensures
            index == self.offsets@[face as int] + vert,
            index < self.offsets@[face as int + 1],
            index < self.total(),
    {
        proof {
            assert(self.offsets@[face as int + 1] <= self.offsets@[self.offsets@.len() - 1]);
        }
        self.offsets[face] + vert
    }

    /// Maps a global vertex-instance index to its (face, local vertex)
    /// pair by scanning the offset table in face order.
    pub fn index_to_face_vert(&self, index: usize) -> (r: (usize, usize))
        requires
            self.well_formed(),
            index < self.total(),
        ensures
            r.0 < self.face_count(),
            r.1 < self.size_of_face(r.0 as int),
            index == self.offsets@[r.0 as int] + r.1,
    {
        let n: usize = self.offsets.len();
        let mut face: usize = 0;
        while self.offsets[face + 1] <= index
            invariant
                self.well_formed(),
                n == self.offsets@.len(),
                index < self.total(),
                face < self.face_count(),
                self.offsets@[face as int] <= index,
            decreases self.face_count() - face,
        {
            proof {
                if face as int + 1 == self.face_count() {
                    assert(self.offsets@[face as int + 1] == self.total());
                }
            }
            face = face + 1;
        }
        (face, index - self.offsets[face])
    }

    /// Within a well-formed table, a global index belongs to exactly one
    /// (face, local vertex) pair: the lookup of a packed pair's index gives
    /// that pair back.
    pub proof fn lemma_lookup_unique(&self, f1: int, v1: int, f2: int, v2: int)
        requires
            self.well_formed(),
            0 <= f1 < self.face_count(),
            0 <= v1 < self.size_of_face(f1),
            0 <= f2 < self.face_count(),
            0 <= v2 < self.size_of_face(f2),
            self.offsets@[f1] + v1 == self.offsets@[f2] + v2,
        ensures
            f1 == f2,
            v1 == v2,
    {
        if f1 < f2 {
            assert(self.offsets@[f1 + 1] <= self.offsets@[f2]);
        }
        if f2 < f1 {
            assert(self.offsets@[f2 + 1] <= self.offsets@[f1]);
        }
    }
}

} // verus!
