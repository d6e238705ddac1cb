//! The packed vertex format shared by both subpasses.
//!
//! Scalar components are carried as the bit patterns of IEEE-754
//! single-precision numbers (`u32`). The library never does arithmetic on
//! them; it only moves them, hands them to the math library behind a narrow
//! trusted boundary, and reasons about where each one ends up.

use vstd::prelude::*;

verus! {

/// Three packed scalar components (a position or a direction), each stored
/// as the bit pattern of an IEEE-754 single-precision number.
pub type CompactVec3 = [u32; 3];

/// Index into a vertex list, as consumed by an indexed draw.
pub type Index = u32;

/// One vertex: a position and a normal, tightly packed, plain value type.
#[derive(Debug, Default, Copy, Clone, PartialEq)]
pub struct Vertex {
    pub position: CompactVec3,
    pub normal: CompactVec3,
}

impl Vertex {
    pub fn new(position: CompactVec3, normal: CompactVec3) -> (v: Vertex)
        ensures
            v.position == position,
            v.normal == normal,
    {
        Vertex { position, normal }
    }
}

/// The six indices that draw quad `q` as two triangles: the four corners in
/// order, then the second and first corner again to close the second
/// triangle.
pub open spec fn quad_indices(q: int) -> Seq<u32> {
    seq![
        (4 * q) as u32,
        (4 * q + 1) as u32,
        (4 * q + 2) as u32,
        (4 * q + 3) as u32,
        (4 * q + 1) as u32,
        (4 * q) as u32,
    ]
}

/// The index list for `quads` consecutive quads.
pub open spec fn square_indices(quads: int) -> Seq<u32>
    decreases quads,
{
    if quads <= 0 {
        Seq::empty()
    } else {
        square_indices(quads - 1) + quad_indices(quads - 1)
    }
}

/// Every index produced for `quads` quads addresses one of their `4 * quads`
/// vertices, and there are six indices per quad.
pub proof fn lemma_square_indices_in_range(quads: int)
    requires
        0 <= 4 * quads <= u32::MAX,
    ensures
        square_indices(quads).len() == 6 * quads,
        forall|i: int|
            0 <= i < square_indices(quads).len() ==> (square_indices(quads)[i] as int) < 4
                * quads,
    decreases quads,
{
    if quads > 0 {
        lemma_square_indices_in_range(quads - 1);
        assert forall|i: int| 0 <= i < square_indices(quads).len() implies (square_indices(
            quads,
        )[i] as int) < 4 * quads by {
            if i < square_indices(quads - 1).len() {
                assert(square_indices(quads)[i] == square_indices(quads - 1)[i]);
            } else {
                assert(square_indices(quads)[i] == quad_indices(quads - 1)[i - 6 * (quads - 1)]);
            }
        }
    }
}

/// Builds the index list that draws every group of four vertices as a quad
/// (two triangles), in the order the vertices appear.
pub fn make_square_indices(vertices: &Vec<Vertex>) -> (indices: Vec<Index>)
    requires
        vertices@.len() % 4 == 0,
        vertices@.len() <= u32::MAX,
    ensures
        indices@ == square_indices((vertices@.len() / 4) as int),
{
    let quads: usize = vertices.len() / 4;
    let mut indices: Vec<Index> = Vec::new();

    for q in 0..quads
        invariant
            4 * quads <= u32::MAX,
            indices@ == square_indices(q as int),
    {
        let base: u32 = (q as u32) * 4;
        indices.push(base);
        indices.push(base + 1);
        indices.push(base + 2);
        indices.push(base + 3);
        indices.push(base + 1);
        indices.push(base);
        assert(indices@ =~= square_indices(q + 1 as int));
    }
    indices
}

} // verus!
