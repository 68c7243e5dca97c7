//! The fixed quad mesh: four corner vertices, six indices forming two
//! triangles, and the assembly of indexed triangles from them.
//!
//! Coordinates are kept in half-units of normalized device coordinates:
//! the stored integer is the coordinate multiplied by two, so the quad
//! corner at (-0.5, -0.5) is the vertex (-1, -1). Every coordinate this
//! program uses is a whole number of half-units, so the representation
//! is exact.

use vstd::prelude::*;

verus! {

/// A two-dimensional position in half-units of normalized device
/// coordinates.
#[derive(Clone, Copy, PartialEq, Eq, Structural, Debug)]
pub struct Vertex {
    pub x: i32,
    pub y: i32,
}

/// A triangle given by its three corners.
#[derive(Clone, Copy, PartialEq, Eq, Structural, Debug)]
pub struct Triangle {
    pub a: Vertex,
    pub b: Vertex,
    pub c: Vertex,
}

/// The four corners of the quad: bottom left, bottom right, top left,
/// top right, each half a unit from the origin on both axes.
pub open spec fn quad_positions_spec() -> Seq<Vertex> {
    seq![
        (Vertex { x: -1i32, y: -1i32 }),
        (Vertex { x: 1i32, y: -1i32 }),
        (Vertex { x: -1i32, y: 1i32 }),
        (Vertex { x: 1i32, y: 1i32 }),
    ]
}

/// The six indices into the corner array: the left (lower) triangle and
/// the right (upper) triangle of the quad.
pub open spec fn quad_indices_spec() -> Seq<u32> {
    seq![1u32, 0u32, 2u32, 1u32, 3u32, 2u32]
}

/// The vertex array that is uploaded to the vertex buffer.
pub fn quad_positions() -> (v: Vec<Vertex>)
    ensures
        v@ == quad_positions_spec(),
{
    let mut v: Vec<Vertex> = Vec::new();
    v.push(Vertex { x: -1i32, y: -1i32 });
    v.push(Vertex { x: 1i32, y: -1i32 });
    v.push(Vertex { x: -1i32, y: 1i32 });
    v.push(Vertex { x: 1i32, y: 1i32 });
    proof {
        assert(v@ =~= quad_positions_spec());
    }
    v
}

/// The index array that is uploaded to the element buffer.
pub fn quad_indices() -> (v: Vec<u32>)
    ensures
        v@ == quad_indices_spec(),
{
    let mut v: Vec<u32> = Vec::new();
    v.push(1u32);
    v.push(0u32);
    v.push(2u32);
    v.push(1u32);
    v.push(3u32);
    v.push(2u32);
    proof {
        assert(v@ =~= quad_indices_spec());
    }
    v
}

/// Whether every index falls inside the vertex array.
pub open spec fn indices_in_bounds(positions: Seq<Vertex>, indices: Seq<u32>) -> bool {
    forall|i: int| 0 <= i < indices.len() ==> (indices[i] as int) < positions.len()
}

/// The triangle described by the `t`-th consecutive index triple.
pub open spec fn triangle_of(positions: Seq<Vertex>, indices: Seq<u32>, t: int) -> Triangle {
    Triangle {
        a: positions[indices[3 * t] as int],
        b: positions[indices[3 * t + 1] as int],
        c: positions[indices[3 * t + 2] as int],
    }
}

/// Resolve consecutive index triples into triangles, exactly as an
/// indexed draw call walks them. Fails precisely when the index count is
/// not a multiple of three or some index falls outside the vertex array.
pub fn assemble_triangles(positions: &Vec<Vertex>, indices: &Vec<u32>) -> (r: Option<
    Vec<Triangle>,
>)
    ensures
        r is Some <==> (indices@.len() % 3 == 0 && indices_in_bounds(positions@, indices@)),
        r matches Some(tris) ==> {
            &&& tris@.len() == indices@.len() / 3
            &&& forall|t: int|
                0 <= t < tris@.len() ==> tris@[t] == triangle_of(positions@, indices@, t)
        },
{
    let n = indices.len();
    if n % 3 != 0 {
        return None;
    }
    let mut i: usize = 0;
    while i < n
        invariant
            n == indices@.len(),
            i <= n,
            forall|j: int| 0 <= j < i ==> (indices@[j] as int) < positions@.len(),
        decreases n - i,
    {
        if indices[i] as usize >= positions.len() {
            return None;
        }
        i = i + 1;
    }
    let count = n / 3;
    let mut tris: Vec<Triangle> = Vec::new();
    let mut t: usize = 0;
    while t < count
        invariant
            n == indices@.len(),
            n % 3 == 0,
            count == n / 3,
            t <= count,
            indices_in_bounds(positions@, indices@),
            tris@.len() == t,
            forall|k: int| 0 <= k < t ==> tris@[k] == triangle_of(positions@, indices@, k),
        decreases count - t,
    {
        let base = 3 * t;
        let tri = Triangle {
            a: positions[indices[base] as usize],
            b: positions[indices[base + 1] as usize],
            c: positions[indices[base + 2] as usize],
        };
        tris.push(tri);
        t = t + 1;
    }
    Some(tris)
}

/// The left half of the quad: bottom right, bottom left, top left.
pub open spec fn quad_lower_triangle() -> Triangle {
    Triangle { a: (Vertex { x: 1i32, y: -1i32 }), b: (Vertex { x: -1i32, y: -1i32 }), c: (Vertex { x: -1i32, y: 1i32 }) }
}

/// The right half of the quad: bottom right, top right, top left.
pub open spec fn quad_upper_triangle() -> Triangle {
    Triangle { a: (Vertex { x: 1i32, y: -1i32 }), b: (Vertex { x: 1i32, y: 1i32 }), c: (Vertex { x: -1i32, y: 1i32 }) }
}

/// The quad mesh resolves to exactly its two halves.
pub proof fn lemma_quad_mesh_triangles()
    ensures
        quad_indices_spec().len() % 3 == 0,
        indices_in_bounds(quad_positions_spec(), quad_indices_spec()),
        triangle_of(quad_positions_spec(), quad_indices_spec(), 0) == quad_lower_triangle(),
        triangle_of(quad_positions_spec(), quad_indices_spec(), 1) == quad_upper_triangle(),
{
}

/// Twice the signed area contribution of the directed edge from `a` to
/// `b`, evaluated at the point (px / d, py / d), all in half-units. The
/// point is on the left of the edge when the value is positive.
pub open spec fn edge_side(a: Vertex, b: Vertex, px: int, py: int, d: int) -> int {
    (b.x - a.x) * (py - a.y * d) - (b.y - a.y) * (px - a.x * d)
}

/// Rewriting of `edge_side` as a linear form in the point and the
/// denominator: once the corner coordinates are known constants, the
/// coefficients `dx`, `dy` and `c` are numerals and every later step is
/// linear arithmetic.
pub proof fn lemma_edge_side_linear(
    a: Vertex,
    b: Vertex,
    px: int,
    py: int,
    d: int,
    dx: int,
    dy: int,
    c: int,
)
    requires
        dx == b.x - a.x,
        dy == b.y - a.y,
        c == dy * (a.x as int) - dx * (a.y as int),
    ensures
        edge_side(a, b, px, py, d) == dx * py - dy * px + c * d,
{
    assert((b.x - a.x) * (py - a.y * d) - (b.y - a.y) * (px - a.x * d) == dx * py - dy * px + (dy
        * (a.x as int) - dx * (a.y as int)) * d) by (nonlinear_arith)
        requires
            dx == b.x - a.x,
            dy == b.y - a.y,
    ;
}

/// The point (px / d, py / d) lies in the triangle: it is on one side
/// (or on the boundary) of all three directed edges at once.
pub open spec fn point_in_triangle(t: Triangle, px: int, py: int, d: int) -> bool {
    ||| (edge_side(t.a, t.b, px, py, d) >= 0 && edge_side(t.b, t.c, px, py, d) >= 0
        && edge_side(t.c, t.a, px, py, d) >= 0)
    ||| (edge_side(t.a, t.b, px, py, d) <= 0 && edge_side(t.b, t.c, px, py, d) <= 0
        && edge_side(t.c, t.a, px, py, d) <= 0)
}

/// The point (px / d, py / d) lies in the quad: both coordinates are at
/// most one half-unit from the origin.
pub open spec fn point_in_quad(px: int, py: int, d: int) -> bool {
    -d <= px <= d && -d <= py <= d
}

/// The two triangles of the quad mesh together cover exactly the quad:
/// a point lies in the quad if and only if it lies in at least one of
/// them. Points are rational, written as (px / d, py / d) in half-units.
pub proof fn lemma_quad_triangles_cover_quad(px: int, py: int, d: int)
    requires
        d > 0,
    ensures
        point_in_quad(px, py, d) <==> (point_in_triangle(quad_lower_triangle(), px, py, d)
            || point_in_triangle(quad_upper_triangle(), px, py, d)),
{
    let lo = quad_lower_triangle();
    let up = quad_upper_triangle();
    lemma_edge_side_linear(lo.a, lo.b, px, py, d, -2, 0, -2);
    lemma_edge_side_linear(lo.b, lo.c, px, py, d, 0, 2, -2);
    lemma_edge_side_linear(lo.c, lo.a, px, py, d, 2, -2, 0);
    lemma_edge_side_linear(up.a, up.b, px, py, d, 0, 2, 2);
    lemma_edge_side_linear(up.b, up.c, px, py, d, -2, 0, 2);
    lemma_edge_side_linear(up.c, up.a, px, py, d, 2, -2, 0);
}

/// The two triangles overlap only on the shared diagonal: no point lies
/// strictly inside both.
pub proof fn lemma_quad_triangles_interiors_disjoint(px: int, py: int, d: int)
    requires
        d > 0,
        edge_side(quad_lower_triangle().c, quad_lower_triangle().a, px, py, d) != 0,
    ensures
        !(point_in_triangle(quad_lower_triangle(), px, py, d) && point_in_triangle(
            quad_upper_triangle(),
            px,
            py,
            d,
        )),
{
    let lo = quad_lower_triangle();
    let up = quad_upper_triangle();
    lemma_edge_side_linear(lo.a, lo.b, px, py, d, -2, 0, -2);
    lemma_edge_side_linear(lo.b, lo.c, px, py, d, 0, 2, -2);
    lemma_edge_side_linear(lo.c, lo.a, px, py, d, 2, -2, 0);
    lemma_edge_side_linear(up.a, up.b, px, py, d, 0, 2, 2);
    lemma_edge_side_linear(up.b, up.c, px, py, d, -2, 0, 2);
    lemma_edge_side_linear(up.c, up.a, px, py, d, 2, -2, 0);
}

} // verus!
