use vstd::prelude::*;

verus! {

use crate::fx::SCALE;
use vstd::arithmetic::div_mod::lemma_div_is_ordered;
use vstd::arithmetic::div_mod::lemma_fundamental_div_mod_converse;
use vstd::arithmetic::div_mod::lemma_mod_bound;

/// The four parameters of a torus surface: the major radius (in fixed-point
/// ticks, see `fx::SCALE`), the tube radius (ticks), and the tessellation
/// density along the two parametric axes.
pub struct TorusDescriptor {
    /// Major radius, in ticks; must be positive.
    pub radius: i64,
    /// Tube (ring) radius, in ticks; must be positive.
    pub ring_radius: i64,
    /// Number of subdivisions around the major circle; at least 3.
    pub segments: usize,
    /// Number of subdivisions around the tube cross-section; at least 3.
    pub sides: usize,
}

impl TorusDescriptor {
    /// A descriptor is valid when both radii are positive and both densities
    /// are at least 3; tessellation refuses anything else.
    pub open spec fn valid(self) -> bool {
        &&& self.radius > 0
        &&& self.ring_radius > 0
        &&& self.segments >= 3
        &&& self.sides >= 3
    }
}

impl Default for TorusDescriptor {
    /// The default torus: unit major radius, half-unit tube radius,
    /// 32 segments and 24 sides.
    fn default() -> (d: Self)
        ensures
            d.radius == SCALE,
            d.ring_radius == 500_000,
            d.segments == 32,
            d.sides == 24,
            d.valid(),
    {
        TorusDescriptor { radius: SCALE, ring_radius: 500_000, segments: 32, sides: 24 }
    }
}

/// The grid coordinates of one tessellated vertex.  The vertex at
/// `(segment, side)` has parametric angles `theta = segment / segments` and
/// `phi = side / sides` turns, and texture coordinates
/// `uv = (segment / segments, side / sides)`; its position and normal follow
/// from the descriptor by the standard torus parametrization.
#[derive(Clone, Copy, Debug, PartialEq, Eq, Structural)]
pub struct GridVertex {
    /// Position around the major circle, in `[0, segments]`; the last value
    /// duplicates the first to close the seam with correct texture
    /// coordinates.
    pub segment: usize,
    /// Position around the tube cross-section, in `[0, sides]`.
    pub side: usize,
}

/// The error returned when tessellation is refused.
#[derive(Clone, Copy, Debug, PartialEq, Eq, Structural)]
pub enum TessellationError {
    /// A radius was non-positive or a density was below 3.
    InvalidDescriptor,
}

/// Vertex and triangle storage produced by tessellation: an ordered vertex
/// sequence and an index sequence grouped in triples, each triple one
/// counter-clockwise-wound triangle of valid vertex indices.
#[derive(Debug)]
pub struct GeometryBuffer {
    /// The tessellated vertices, in row-major grid order.
    pub vertices: Vec<GridVertex>,
    /// The triangle indices, six per grid cell.
    pub indices: Vec<u32>,
}

/// Whether `v` is the vertex that belongs at position `k` of the vertex
/// sequence of a torus with the given number of sides: the grid is laid out
/// row-major with a stride of `sides + 1`.
pub open spec fn vertex_params_ok(sides: int, k: int, v: GridVertex) -> bool {
    &&& v.segment as int == k / (sides + 1)
    &&& v.side as int == k % (sides + 1)
}

/// The value that belongs at position `j` of the index sequence of a torus
/// with the given number of sides.  Each grid cell `(seg, side)` emits six
/// indices: its two triangles `(lt, rt, lb)` and `(rt, rb, lb)`, in exactly
/// that order — the winding that makes the outside of the torus front-facing.
pub open spec fn index_entry(sides: int, j: int) -> int {
    let cell = j / 6;
    let corner = j % 6;
    let seg = cell / sides;
    let side = cell % sides;
    let stride = sides + 1;
    let lt = side + seg * stride;
    let rt = lt + 1;
    let lb = lt + stride;
    let rb = lb + 1;
    if corner == 0 {
        lt
    } else if corner == 1 {
        rt
    } else if corner == 2 {
        lb
    } else if corner == 3 {
        rt
    } else if corner == 4 {
        rb
    } else {
        lb
    }
}

/// The full functional specification of tessellation: `g` is the one
/// geometry buffer that the descriptor `d` maps to.  Every vertex and every
/// index is pinned down pointwise.
pub open spec fn is_tessellation_of(d: TorusDescriptor, g: GeometryBuffer) -> bool {
    let s = d.segments as int;
    let t = d.sides as int;
    &&& g.vertices@.len() == (s + 1) * (t + 1)
    &&& forall|k: int|
        0 <= k < g.vertices@.len() ==> vertex_params_ok(t, k, #[trigger] g.vertices@[k])
    &&& g.indices@.len() == 6 * s * t
    &&& forall|j: int|
        0 <= j < g.indices@.len() ==> #[trigger] g.indices@[j] as int == index_entry(t, j)
}

/// Build the triangle mesh of a torus: a `(segments + 1) x (sides + 1)`
/// vertex grid (the last row and column duplicate the first to close the
/// seam) and two triangles per grid cell with fixed winding.  Returns
/// `InvalidDescriptor` exactly when the descriptor is not valid.
#[verifier::loop_isolation(false)]
pub fn tessellate(d: &TorusDescriptor) -> (r: Result<GeometryBuffer, TessellationError>)
    requires
        (d.segments as int + 1) * (d.sides as int + 1) <= u32::MAX as int,
    ensures
        r is Ok <==> d.valid(),
        r is Err ==> r->Err_0 == TessellationError::InvalidDescriptor,
        r is Ok ==> is_tessellation_of(*d, r->Ok_0),
{
    if !(d.radius > 0 && d.ring_radius > 0 && d.segments >= 3 && d.sides >= 3) {
        return Err(TessellationError::InvalidDescriptor);
    }
    let segments = d.segments;
    let sides = d.sides;
    proof {
        assert((sides as int + 1) <= (segments as int + 1) * (sides as int + 1)
            && (segments as int + 1) <= (segments as int + 1) * (sides as int + 1)
            && (segments as int) * (sides as int + 1) + (sides as int)
                < (segments as int + 1) * (sides as int + 1)
            && 6 * (segments as int) * (sides as int)
                <= 6 * (segments as int + 1) * (sides as int + 1)) by (nonlinear_arith)
            requires
                segments >= 3,
                sides >= 3,
        ;
    }
    let stride = sides + 1;

    let mut vertices: Vec<GridVertex> = Vec::new();
    let mut seg: usize = 0;
    while seg <= segments
        invariant
            seg <= segments + 1,
            vertices@.len() == (seg as int) * (stride as int),
            forall|k: int|
                0 <= k < vertices@.len() ==> vertex_params_ok(
                    sides as int,
                    k,
                    #[trigger] vertices@[k],
                ),
        decreases segments + 1 - seg,
    {
        proof {
            assert((seg as int + 1) * (stride as int) <= (segments as int + 1) * (stride as int))
                by (nonlinear_arith)
                requires
                    seg <= segments,
                    stride >= 1,
            ;
        }
        let mut side: usize = 0;
        while side <= sides
            invariant
                side <= sides + 1,
                vertices@.len() == (seg as int) * (stride as int) + side as int,
                forall|k: int|
                    0 <= k < vertices@.len() ==> vertex_params_ok(
                        sides as int,
                        k,
                        #[trigger] vertices@[k],
                    ),
            decreases sides + 1 - side,
        {
            vertices.push(GridVertex { segment: seg, side });
            proof {
                lemma_fundamental_div_mod_converse(
                    (seg as int) * (stride as int) + side as int,
                    stride as int,
                    seg as int,
                    side as int,
                );
            }
            side += 1;
        }
        proof {
            assert((seg as int) * (stride as int) + stride as int
                == (seg as int + 1) * stride as int) by (nonlinear_arith);
        }
        seg += 1;
    }

    let mut indices: Vec<u32> = Vec::new();
    let mut seg: usize = 0;
    while seg < segments
        invariant
            seg <= segments,
            indices@.len() == 6 * ((seg as int) * (sides as int)),
            forall|j: int|
                0 <= j < indices@.len() ==> #[trigger] indices@[j] as int == index_entry(
                    sides as int,
                    j,
                ),
        decreases segments - seg,
    {
        let mut side: usize = 0;
        while side < sides
            invariant
                side <= sides,
                indices@.len() == 6 * ((seg as int) * (sides as int) + side as int),
                forall|j: int|
                    0 <= j < indices@.len() ==> #[trigger] indices@[j] as int == index_entry(
                        sides as int,
                        j,
                    ),
            decreases sides - side,
        {
            proof {
                assert((seg as int) * (sides as int) + (side as int)
                    < (segments as int) * (sides as int)
                    && (side as int) + (seg as int) * (stride as int) + (stride as int) + 1
                        <= u32::MAX as int
                    && (seg as int) * (stride as int) >= 0
                    && (seg as int) * (sides as int) <= (segments as int) * (sides as int))
                    by (nonlinear_arith)
                    requires
                        seg < segments,
                        side < sides,
                        stride == sides + 1,
                        (segments as int + 1) * (sides as int + 1) <= u32::MAX as int,
                ;
            }
            let lt = side + seg * stride;
            let rt = lt + 1;
            let lb = lt + stride;
            let rb = lb + 1;
            indices.push(lt as u32);
            indices.push(rt as u32);
            indices.push(lb as u32);
            indices.push(rt as u32);
            indices.push(rb as u32);
            indices.push(lb as u32);
            proof {
                let cell = (seg as int) * (sides as int) + side as int;
                lemma_fundamental_div_mod_converse(cell, sides as int, seg as int, side as int);
                let base = 6 * cell;
                assert forall|c: int| 0 <= c < 6 implies #[trigger] ((base + c) / 6) == cell
                    && (base + c) % 6 == c by {
                    lemma_fundamental_div_mod_converse(base + c, 6, cell, c);
                }
                assert(indices@.len() == base + 6);
                assert forall|j: int| 0 <= j < indices@.len() implies #[trigger] indices@[j] as int
                    == index_entry(sides as int, j) by {
                    if j >= base {
                        assert((j / 6) == cell && (j % 6) == j - base);
                    }
                }
            }
            side += 1;
        }
        proof {
            assert(6 * ((seg as int) * (sides as int) + sides as int)
                == 6 * ((seg as int + 1) * sides as int)) by (nonlinear_arith);
        }
        seg += 1;
    }
    proof {
        assert(vertices@.len() == (segments as int + 1) * (sides as int + 1));
        assert(indices@.len() == 6 * ((segments as int) * (sides as int)));
        assert(6 * ((segments as int) * (sides as int))
            == 6 * (segments as int) * (sides as int)) by (nonlinear_arith);
    }
    Ok(GeometryBuffer { vertices, indices })
}

/// The exact size of every tessellation: `(segments + 1) * (sides + 1)`
/// vertices, `2 * segments * sides` triangles, and three indices per
/// triangle.
pub proof fn lemma_tessellation_counts(d: TorusDescriptor, g: GeometryBuffer)
    requires
        is_tessellation_of(d, g),
    ensures
        g.vertices@.len() == (d.segments as int + 1) * (d.sides as int + 1),
        g.indices@.len() == 6 * (d.segments as int) * (d.sides as int),
        g.indices@.len() % 3 == 0,
        g.indices@.len() / 3 == 2 * (d.segments as int) * (d.sides as int),
{
    let s = d.segments as int;
    let t = d.sides as int;
    let tris = 2 * (s * t);
    assert(6 * s * t == 3 * (2 * (s * t)) && 2 * s * t == 2 * (s * t)) by (nonlinear_arith);
    lemma_fundamental_div_mod_converse(3 * tris, 3, tris, 0);
}

/// Every vertex of a tessellation has `segment <= segments` and
/// `side <= sides`, so both texture coordinates `segment / segments` and
/// `side / sides` lie in `[0, 1]`.
pub proof fn lemma_vertex_params_in_range(d: TorusDescriptor, g: GeometryBuffer, k: int)
    requires
        d.valid(),
        is_tessellation_of(d, g),
        0 <= k < g.vertices@.len(),
    ensures
        g.vertices@[k].segment <= d.segments,
        g.vertices@[k].side <= d.sides,
{
    let s = d.segments as int;
    let t = d.sides as int;
    assert((s + 1) * (t + 1) - 1 == s * (t + 1) + t) by (nonlinear_arith);
    lemma_fundamental_div_mod_converse((s + 1) * (t + 1) - 1, t + 1, s, t);
    lemma_div_is_ordered(k, (s + 1) * (t + 1) - 1, t + 1);
    lemma_mod_bound(k, t + 1);
}

/// Every index of a tessellation points at an existing vertex: the buffer's
/// structural invariant `index < vertices.len()`.
pub proof fn lemma_indices_in_range(d: TorusDescriptor, g: GeometryBuffer, j: int)
    requires
        d.valid(),
        is_tessellation_of(d, g),
        0 <= j < g.indices@.len(),
    ensures
        0 <= (g.indices@[j] as int) < g.vertices@.len(),
{
    let s = d.segments as int;
    let t = d.sides as int;
    let cell = j / 6;
    let seg = cell / t;
    let side = cell % t;
    lemma_fundamental_div_mod_converse(6 * (s * t) - 1, 6, s * t - 1, 5);
    assert(6 * s * t == 6 * (s * t)) by (nonlinear_arith);
    lemma_div_is_ordered(j, 6 * (s * t) - 1, 6);
    assert(cell <= s * t - 1);
    assert(s * t - 1 == (s - 1) * t + (t - 1)) by (nonlinear_arith);
    lemma_fundamental_div_mod_converse(s * t - 1, t, s - 1, t - 1);
    lemma_div_is_ordered(cell, s * t - 1, t);
    assert(seg <= s - 1);
    lemma_mod_bound(cell, t);
    assert(side + seg * (t + 1) + (t + 1) + 1 < (s + 1) * (t + 1)) by (nonlinear_arith)
        requires
            side <= t - 1,
            seg <= s - 1,
            t >= 3,
            s >= 3,
    ;
    assert(seg * (t + 1) >= 0) by (nonlinear_arith)
        requires
            seg >= 0,
            t >= 3,
    ;
}

/// The winding invariant: triangle `tri` of a tessellation is, in source
/// order, `(lt, rt, lb)` when `tri` is even and `(rt, rb, lb)` when `tri` is
/// odd, where the four corners come from the grid cell `tri / 2`.
pub proof fn lemma_triangle_winding(d: TorusDescriptor, g: GeometryBuffer, tri: int)
    requires
        d.valid(),
        is_tessellation_of(d, g),
        0 <= tri,
        3 * tri + 2 < g.indices@.len(),
    ensures
        ({
            let t = d.sides as int;
            let cell = tri / 2;
            let seg = cell / t;
            let side = cell % t;
            let stride = t + 1;
            let lt = side + seg * stride;
            let rt = lt + 1;
            let lb = lt + stride;
            let rb = lb + 1;
            if tri % 2 == 0 {
                g.indices@[3 * tri] as int == lt
                    && g.indices@[3 * tri + 1] as int == rt
                    && g.indices@[3 * tri + 2] as int == lb
            } else {
                g.indices@[3 * tri] as int == rt
                    && g.indices@[3 * tri + 1] as int == rb
                    && g.indices@[3 * tri + 2] as int == lb
            }
        }),
{
    let cell = tri / 2;
    let par = tri % 2;
    vstd::arithmetic::div_mod::lemma_fundamental_div_mod(tri, 2);
    lemma_mod_bound(tri, 2);
    assert forall|c: int| 0 <= c < 3 implies #[trigger] ((3 * tri + c) / 6) == cell
        && (3 * tri + c) % 6 == 3 * par + c by {
        assert(3 * tri + c == 6 * cell + (3 * par + c)) by (nonlinear_arith)
            requires
                tri == 2 * cell + par,
        ;
        lemma_fundamental_div_mod_converse(3 * tri + c, 6, cell, 3 * par + c);
    }
}

/// Tessellation is a pure function of the descriptor: two buffers that both
/// satisfy its specification hold identical vertex and index sequences.
pub proof fn lemma_tessellation_deterministic(
    d: TorusDescriptor,
    g1: GeometryBuffer,
    g2: GeometryBuffer,
)
    requires
        is_tessellation_of(d, g1),
        is_tessellation_of(d, g2),
    ensures
        g1.vertices@ == g2.vertices@,
        g1.indices@ == g2.indices@,
{
    let t = d.sides as int;
    assert forall|k: int| 0 <= k < g1.vertices@.len() implies g1.vertices@[k]
        == g2.vertices@[k] by {
        assert(vertex_params_ok(t, k, g1.vertices@[k]));
        assert(vertex_params_ok(t, k, g2.vertices@[k]));
    }
    assert(g1.vertices@ =~= g2.vertices@);
    assert forall|j: int| 0 <= j < g1.indices@.len() implies g1.indices@[j]
        == g2.indices@[j] by {
        assert(g1.indices@[j] as int == index_entry(t, j));
        assert(g2.indices@[j] as int == index_entry(t, j));
    }
    assert(g1.indices@ =~= g2.indices@);
}

} // verus!
