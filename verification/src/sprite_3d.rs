//! The layout of a 3D sprite's quad mesh: its eight vertices (the four corners, once for the
//! front face and once for the back face) and the triangles that index them.

use vstd::prelude::*;

verus! {

/// The triangles of the front face: two triangles over the corners
/// (bottom-left, bottom-right, top-left, top-right), counter-clockwise seen from `+z`.
pub open spec fn front_indices() -> Seq<u32> {
    seq![0, 1, 2, 1, 3, 2]
}

/// The triangles of the back face, over the second copy of the corners.
pub open spec fn back_indices() -> Seq<u32> {
    seq![5, 4, 6, 7, 5, 6]
}

/// The index buffer of a quad: the front triangles, followed, when the sprite is
/// double-sided, by the back triangles.
pub open spec fn spec_quad_indices(double_sided: bool) -> Seq<u32> {
    if double_sided {
        front_indices() + back_indices()
    } else {
        front_indices()
    }
}

/// The index buffer of a sprite's quad.
pub fn quad_indices(double_sided: bool) -> (indices: Vec<u32>)
    ensures
        indices@ == spec_quad_indices(double_sided),
{
    let indices = if double_sided {
        vec![0, 1, 2, 1, 3, 2, 5, 4, 6, 7, 5, 6]
    } else {
        vec![0, 1, 2, 1, 3, 2]
    };
    assert(indices@ =~= spec_quad_indices(double_sided));
    indices
}

/// The `t`-th triangle of an index buffer.
pub open spec fn triangle(indices: Seq<u32>, t: int) -> (u32, u32, u32) {
    (indices[3 * t], indices[3 * t + 1], indices[3 * t + 2])
}

/// The same triangle on the back copy of the corners (index + 4), with the opposite winding.
pub open spec fn flipped_to_back(tri: (u32, u32, u32)) -> (u32, u32, u32) {
    ((tri.1 + 4) as u32, (tri.0 + 4) as u32, (tri.2 + 4) as u32)
}

/// A double-sided quad adds a second set of indices describing the same triangles in
/// reverse order: each back triangle is the matching front triangle, on the back copy of
/// the corners, with its winding reversed. A single-sided quad is the front half of a
/// double-sided one, and every index points at one of the quad's eight vertices (one of the
/// front four when single-sided).
pub proof fn back_face_reverses_front_face(double_sided: bool)
    ensures
        forall|t: int| 0 <= t < 2 ==> #[trigger] triangle(back_indices(), t) == flipped_to_back(triangle(front_indices(), t)),
        forall|i: int| 0 <= i < spec_quad_indices(double_sided).len() ==>
            (#[trigger] spec_quad_indices(double_sided)[i]) < (if double_sided { 8u32 } else { 4u32 }),
        spec_quad_indices(double_sided).len() == (if double_sided { 12int } else { 6int }),
        spec_quad_indices(true).subrange(0, 6) == spec_quad_indices(false),
{
    assert(spec_quad_indices(true).subrange(0, 6) =~= spec_quad_indices(false));
    assert(triangle(back_indices(), 0) == flipped_to_back(triangle(front_indices(), 0)));
    assert(triangle(back_indices(), 1) == flipped_to_back(triangle(front_indices(), 1)));
}

/// The eight vertex values of a quad: the four corner values for the front face, then the
/// same four again for the back face.
pub fn quad_vertices<T: Copy>(corners: [T; 4]) -> (vertices: Vec<T>)
    ensures
        vertices@ == corners@ + corners@,
{
    let mut vertices: Vec<T> = Vec::new();
    let mut round: usize = 0;
    while round < 2
        invariant
            round <= 2,
            vertices@ == (if round == 0 { Seq::<T>::empty() } else if round == 1 { corners@ } else { corners@ + corners@ }),
        decreases 2 - round,
    {
        let ghost before = vertices@;
        vertices.push(corners[0]);
        vertices.push(corners[1]);
        vertices.push(corners[2]);
        vertices.push(corners[3]);
        assert(vertices@ =~= before + corners@);
        round += 1;
    }
    vertices
}

/// The eight values of a per-face vertex attribute (such as the normal): `front` for the
/// four front vertices, then `back` for the four back vertices.
pub fn quad_face_attribute<T: Copy>(front: T, back: T) -> (values: Vec<T>)
    ensures
        values@ == seq![front, front, front, front, back, back, back, back],
{
    let mut values: Vec<T> = Vec::new();
    values.push(front);
    values.push(front);
    values.push(front);
    values.push(front);
    values.push(back);
    values.push(back);
    values.push(back);
    values.push(back);
    assert(values@ =~= seq![front, front, front, front, back, back, back, back]);
    values
}

} // verus!
