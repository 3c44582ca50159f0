//! The triangulator: decomposes each polygonal face into a fan of
//! triangles sharing the face's first vertex, for basis computation only;
//! the face/vertex topology the caller sees is not altered.
//!
//! A face with fewer than three vertices is invalid and fails the whole
//! run: silently dropping it would leave its vertex instances without an
//! output tangent.

use vstd::prelude::*;

use crate::TangentError;
use crate::indexer::total_vertices;

verus! {

/// One triangle of a face's fan, as the face index and the three local
/// vertex indices of its corners.
#[derive(Clone, Copy, Debug, PartialEq, Eq, Structural)]
pub struct Triangle {
    /// The face the triangle was cut from.
    pub face: usize,
    /// First corner: always the face's first vertex.
    pub a: usize,
    /// Second corner.
    pub b: usize,
    /// Third corner.
    pub c: usize,
}

/// The fan of a single face with `size` vertices: triangle `k` joins the
/// face's first vertex to vertices `k + 1` and `k + 2`.
pub open spec fn face_fan(face: usize, size: usize) -> Seq<Triangle> {
    Seq::new((size - 2) as nat, |k: int| Triangle {
        face,
        a: 0,
        b: (k + 1) as usize,
        c: (k + 2) as usize,
    })
}

/// The fan triangulation of a whole list of faces, in face order.
pub open spec fn fan_triangles(sizes: Seq<usize>) -> Seq<Triangle>
    decreases sizes.len(),
{
    if sizes.len() == 0 {
        Seq::empty()
    } else {
        fan_triangles(sizes.drop_last()) + face_fan((sizes.len() - 1) as usize, sizes.last())
    }
}

/// Extending a size list by one face appends that face's fan.
pub proof fn lemma_fan_triangles_push(sizes: Seq<usize>, k: int)
    requires
        0 <= k < sizes.len(),
    ensures
        fan_triangles(sizes.subrange(0, k + 1))
            == fan_triangles(sizes.subrange(0, k)) + face_fan(k as usize, sizes[k]),
{
    let longer = sizes.subrange(0, k + 1);
    assert(longer.drop_last() =~= sizes.subrange(0, k));
}

/// A face of `size` vertices contributes `size - 2` fan triangles, so a
/// list of faces that all have at least three vertices yields exactly
/// `total vertex instances - 2 * face count` triangles.
pub proof fn lemma_fan_triangle_count(sizes: Seq<usize>)
    requires
        forall|i: int| 0 <= i < sizes.len() ==> #[trigger] sizes[i] >= 3,
    ensures
        fan_triangles(sizes).len() == total_vertices(sizes) - 2 * sizes.len(),
    decreases sizes.len(),
{
    if sizes.len() > 0 {
        lemma_fan_triangle_count(sizes.drop_last());
    }
}

/// Every triangle of a fan triangulation names a real face and real local
/// vertices of that face: the first corner is the face's first vertex and
/// the other two are consecutive later vertices.  The triangulation never
/// reaches outside the topology it was given.
pub proof fn lemma_fan_corners_valid(sizes: Seq<usize>, t: int)
    requires
        sizes.len() <= usize::MAX,
        forall|i: int| 0 <= i < sizes.len() ==> #[trigger] sizes[i] >= 3,
        0 <= t < fan_triangles(sizes).len(),
    ensures
        fan_triangles(sizes)[t].face < sizes.len(),
        fan_triangles(sizes)[t].a == 0,
        fan_triangles(sizes)[t].b + 1 == fan_triangles(sizes)[t].c,
        fan_triangles(sizes)[t].c < sizes[fan_triangles(sizes)[t].face as int],
    decreases sizes.len(),
{
    let prefix = fan_triangles(sizes.drop_last());
    if t < prefix.len() {
        lemma_fan_corners_valid(sizes.drop_last(), t);
    } else {
        let face = (sizes.len() - 1) as usize;
        let k = t - prefix.len();
        assert(sizes[face as int] >= 3);
        assert(fan_triangles(sizes)[t] == face_fan(face, sizes.last())[k]);
    }
}

/// Fan-triangulates every face.  Fails with `InvalidFace`, producing no
/// triangles at all, exactly when some face has fewer than three
/// vertices; otherwise returns the full fan triangulation in face order.
pub fn triangulate(sizes: &Vec<usize>) -> (r: Result<Vec<Triangle>, TangentError>)
    ensures
        match r {
            Ok(ts) => {
                &&& forall|i: int| 0 <= i < sizes@.len() ==> #[trigger] sizes@[i] >= 3
                &&& ts@ == fan_triangles(sizes@)
            },
            Err(e) => {
                &&& e == TangentError::InvalidFace
                &&& exists|i: int| 0 <= i < sizes@.len() && #[trigger] sizes@[i] < 3
            },
        },
{
    let face_count: usize = sizes.len();
    let mut triangles: Vec<Triangle> = Vec::new();
    let mut f: usize = 0;
    while f < face_count
        invariant
            face_count == sizes@.len(),
            f <= face_count,
            forall|i: int| 0 <= i < f ==> #[trigger] sizes@[i] >= 3,
            triangles@ == fan_triangles(sizes@.subrange(0, f as int)),
        decreases face_count - f,
    {
        let size: usize = sizes[f];
        if size < 3 {
            return Err(TangentError::InvalidFace);
        }
        let mut k: usize = 0;
        while k < size - 2
            invariant
                face_count == sizes@.len(),
                f < face_count,
                size == sizes@[f as int],
                size >= 3,
                k <= size - 2,
                triangles@ == fan_triangles(sizes@.subrange(0, f as int))
                    + face_fan(f, size).subrange(0, k as int),
            decreases size - 2 - k,
        {
            triangles.push(Triangle { face: f, a: 0, b: k + 1, c: k + 2 });
            proof {
                assert(face_fan(f, size).subrange(0, k as int + 1)
                    =~= face_fan(f, size).subrange(0, k as int)
                        .push(Triangle { face: f, a: 0, b: (k + 1) as usize, c: (k + 2) as usize }));
                assert(triangles@ =~= fan_triangles(sizes@.subrange(0, f as int))
                    + face_fan(f, size).subrange(0, k as int + 1));
            }
            k = k + 1;
        }
        proof {
            lemma_fan_triangles_push(sizes@, f as int);
            assert(face_fan(f, size).subrange(0, size - 2) =~= face_fan(f, size));
        }
        f = f + 1;
    }
    proof {
        assert(sizes@.subrange(0, face_count as int) =~= sizes@);
    }
    Ok(triangles)
}

} // verus!
