//! Tessellation of a ring (annular sector) into a triangle list.
//!
//! A ring with `n` subdivisions has `n + 1` angular steps. Each step
//! contributes one vertex on the inner rim and one on the outer rim, so the
//! vertex at position `k` lies on step `k / 2`, on the outer rim when `k` is
//! odd. Positions themselves (sines and cosines of the step angle) are left
//! to the renderer: a vertex records its step, its rim and its colour.

use vstd::prelude::*;

verus! {

/// An RGBA colour, one normalized byte per channel.
#[derive(Clone, Copy, Debug, PartialEq, Eq, Structural)]
pub struct Rgba {
    pub r: u8,
    pub g: u8,
    pub b: u8,
    pub a: u8,
}

/// One tessellated mesh point.
#[derive(Clone, Copy, Debug, PartialEq, Eq, Structural)]
pub struct Vertex {
    /// Angular step, from `0` to the subdivision count.
    pub step: u32,
    /// `true` on the outer rim, `false` on the inner rim.
    pub outer: bool,
    pub color: Rgba,
}

/// Largest subdivision count accepted: every index and every buffer length
/// then fits a 32-bit index and a 32-bit `usize`.
pub const MAX_SUBDIVISIONS: usize = 0x2000_0000;

pub open spec fn spec_inner_color() -> Rgba {
    Rgba { r: 255, g: 255, b: 255, a: 255 }
}

pub open spec fn spec_outer_color() -> Rgba {
    Rgba { r: 25, g: 25, b: 25, a: 255 }
}

/// Colour of the vertices on the inner rim.
pub fn inner_color() -> (c: Rgba)
    ensures
        c == spec_inner_color(),
{
    Rgba { r: 255, g: 255, b: 255, a: 255 }
}

/// Colour of the vertices on the outer rim.
pub fn outer_color() -> (c: Rgba)
    ensures
        c == spec_outer_color(),
{
    Rgba { r: 25, g: 25, b: 25, a: 255 }
}

/// The vertex at position `k` of a ring mesh.
pub open spec fn ring_vertex(k: int) -> Vertex {
    Vertex {
        step: (k / 2) as u32,
        outer: k % 2 == 1,
        color: if k % 2 == 1 { spec_outer_color() } else { spec_inner_color() },
    }
}

/// Corner `j` (0..6) of a quad, relative to the quad's first vertex: the
/// triangles `(0, 1, 2)` and `(2, 1, 3)`.
pub open spec fn quad_corner(j: int) -> int {
    if j == 0 {
        0
    } else if j == 1 || j == 4 {
        1
    } else if j == 2 || j == 3 {
        2
    } else {
        3
    }
}

/// The index at position `k` of a ring mesh: quad `k / 6` joins steps
/// `k / 6` and `k / 6 + 1`.
pub open spec fn ring_index(k: int) -> int {
    2 * (k / 6) + quad_corner(k % 6)
}

/// The three indices of triangle `t` in `indices` are pairwise distinct.
pub open spec fn triangle_distinct(indices: Seq<u32>, t: int) -> bool {
    &&& indices[3 * t] != indices[3 * t + 1]
    &&& indices[3 * t] != indices[3 * t + 2]
    &&& indices[3 * t + 1] != indices[3 * t + 2]
}

pub open spec fn ring_vertex_count(n: int) -> int {
    2 * (n + 1)
}

pub open spec fn ring_index_count(n: int) -> int {
    6 * n
}

/// Builds the vertices and triangle indices of a ring with `num_subdivision`
/// angular subdivisions.
pub fn create_circle_vertices(num_subdivision: usize) -> (r: (Vec<Vertex>, Vec<u32>))
    requires
        1 <= num_subdivision <= MAX_SUBDIVISIONS,
    ensures
        r.0@.len() == ring_vertex_count(num_subdivision as int),
        r.1@.len() == ring_index_count(num_subdivision as int),
        forall|k: int| 0 <= k < r.0@.len() ==> #[trigger] r.0@[k] == ring_vertex(k),
        forall|k: int| 0 <= k < r.1@.len() ==> #[trigger] r.1@[k] == ring_index(k),
        forall|k: int| 0 <= k < r.1@.len() ==> #[trigger] r.1@[k] < r.0@.len(),
        forall|t: int| 0 <= t < 2 * num_subdivision ==> #[trigger] triangle_distinct(r.1@, t),
{
    let n = num_subdivision;
    let mut vertices: Vec<Vertex> = Vec::new();
    let mut i: usize = 0;
    while i <= n
        invariant
            n <= MAX_SUBDIVISIONS,
            i <= n + 1,
            vertices@.len() == 2 * i,
            forall|k: int| 0 <= k < vertices@.len() ==> #[trigger] vertices@[k] == ring_vertex(k),
        decreases n + 1 - i,
    {
        vertices.push(Vertex { step: i as u32, outer: false, color: inner_color() });
        vertices.push(Vertex { step: i as u32, outer: true, color: outer_color() });
        i = i + 1;
    }
    let mut indices: Vec<u32> = Vec::new();
    let mut q: usize = 0;
    while q < n
        invariant
            n <= MAX_SUBDIVISIONS,
            q <= n,
            indices@.len() == 6 * q,
            forall|k: int| 0 <= k < indices@.len() ==> #[trigger] indices@[k] == ring_index(k),
        decreases n - q,
    {
        let offset: u32 = (2 * q) as u32;
        indices.push(offset);
        indices.push(offset + 1);
        indices.push(offset + 2);
        indices.push(offset + 2);
        indices.push(offset + 1);
        indices.push(offset + 3);
        q = q + 1;
    }
    proof {
        assert forall|k: int| 0 <= k < indices@.len() implies indices@[k] < vertices@.len() by {
            lemma_indices_in_bounds(n as int, k);
        }
        assert forall|t: int| 0 <= t < 2 * n implies #[trigger] triangle_distinct(indices@, t) by {
            lemma_triangle_not_degenerate(t);
        }
    }
    (vertices, indices)
}

/// Every index of a ring mesh with `n` subdivisions names one of its
/// `2 * (n + 1)` vertices.
pub proof fn lemma_indices_in_bounds(n: int, k: int)
    requires
        1 <= n,
        0 <= k < ring_index_count(n),
    ensures
        0 <= ring_index(k) < ring_vertex_count(n),
{
}

/// No triangle of a ring mesh repeats a vertex: the three indices of
/// triangle `t` are pairwise distinct.
pub proof fn lemma_triangle_not_degenerate(t: int)
    requires
        0 <= t,
    ensures
        ring_index(3 * t) != ring_index(3 * t + 1),
        ring_index(3 * t) != ring_index(3 * t + 2),
        ring_index(3 * t + 1) != ring_index(3 * t + 2),
{
    assert((3 * t) / 6 == (3 * t + 1) / 6 && (3 * t) / 6 == (3 * t + 2) / 6);
}

} // verus!
