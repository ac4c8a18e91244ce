//! The screen quad: two triangles that cover the whole viewport.

use vstd::prelude::*;

verus! {

/// The number of vertices of the quad: two triangles of three.
pub const QUAD_VERTICES: u32 = 6;

/// The depth at which the quad lies in the sampling volume before the
/// transform is applied.
pub const SAMPLE_DEPTH: i32 = 2;

/// A corner of a triangle: where it lies on the screen, in normalized device
/// coordinates, and where the noise volume is sampled for it.
#[derive(Clone, Copy, Debug, PartialEq, Eq)]
pub struct Vertex {
    pub position: (i32, i32),
    pub sample_coord: (i32, i32, i32),
}

/// The vertex at the screen position `(x, y)`, each of them -1 or 1. The
/// sampling coordinate runs from 0 at the left to 1 at the right and from 0
/// at the top to 1 at the bottom.
pub open spec fn corner(x: int, y: int) -> Vertex {
    Vertex {
        position: (x as i32, y as i32),
        sample_coord: (((x + 1) / 2) as i32, ((1 - y) / 2) as i32, SAMPLE_DEPTH),
    }
}

/// The six vertices of the quad: the triangle below the diagonal that runs
/// from the bottom left to the top right, then the triangle above it, both
/// counter-clockwise.
pub open spec fn quad_vertices() -> Seq<Vertex> {
    seq![
        corner(-1, -1),
        corner(1, -1),
        corner(1, 1),
        corner(-1, -1),
        corner(1, 1),
        corner(-1, 1),
    ]
}

/// The screen quad.
pub fn quad() -> (vertices: [Vertex; 6])
    ensures
        vertices@ == quad_vertices(),
{
    let vertices = [
        Vertex { position: (-1, -1), sample_coord: (0, 1, 2) },
        Vertex { position: (1, -1), sample_coord: (1, 1, 2) },
        Vertex { position: (1, 1), sample_coord: (1, 0, 2) },
        Vertex { position: (-1, -1), sample_coord: (0, 1, 2) },
        Vertex { position: (1, 1), sample_coord: (1, 0, 2) },
        Vertex { position: (-1, 1), sample_coord: (0, 0, 2) },
    ];
    assert(vertices@ =~= quad_vertices());
    vertices
}

/// The quad has as many vertices as a frame draws, its two triangles share
/// the diagonal, and together they reach all four corners of the screen.
pub proof fn lemma_quad_covers_screen()
    ensures
        quad_vertices().len() == QUAD_VERTICES,
        quad_vertices()[3] == quad_vertices()[0],
        quad_vertices()[4] == quad_vertices()[2],
        forall|x: int, y: int|
            (x == -1 || x == 1) && (y == -1 || y == 1) ==> quad_vertices().contains(
                #[trigger] corner(x, y),
            ),
{
    let q = quad_vertices();
    assert(q[0] == corner(-1, -1));
    assert(q[1] == corner(1, -1));
    assert(q[2] == corner(1, 1));
    assert(q[5] == corner(-1, 1));
}

/// Every vertex lies on a corner of the screen and at the same depth of the
/// sampling volume, and its sampling coordinate follows from its position.
pub proof fn lemma_quad_vertices(i: int)
    requires
        0 <= i < 6,
    ensures
        ({
            let v = quad_vertices()[i];
            &&& v.position.0 == -1 || v.position.0 == 1
            &&& v.position.1 == -1 || v.position.1 == 1
            &&& 2 * v.sample_coord.0 == v.position.0 + 1
            &&& 2 * v.sample_coord.1 == 1 - v.position.1
            &&& v.sample_coord.2 == SAMPLE_DEPTH
        }),
{
}

} // verus!
