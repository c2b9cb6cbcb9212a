//! The cube-mesh builder: eight corner vertices, a fixed list of thirty-six
//! triangle indices, vertex duplication, and flat normals.

use vstd::prelude::*;

use crate::geometry::COORD_LIMIT;
use crate::geometry::Vec3i;
use crate::geometry::axis_aligned;
use crate::geometry::dist_sq;
use crate::geometry::lemma_cross_eval;
use crate::geometry::lemma_double_products;
use crate::geometry::lemma_mul_bound;
use crate::geometry::signum;
use crate::geometry::tri_cross_x;
use crate::geometry::tri_cross_y;
use crate::geometry::tri_cross_z;

verus! {

/// Centers and side lengths stay within this bound; corner coordinates
/// `center +- length` then stay within `COORD_LIMIT`.
pub const CUBE_LIMIT: i64 = 500_000_000;

/// The sign, -1 or 1, of corner `i`'s offset from the center along x.
///
/// Corners 0..4 are the front face (positive z) and 4..8 the back face,
/// each wound counterclockwise seen from the front: low-x low-y first,
/// then positive x, then positive y.
pub open spec fn corner_sign_x(i: int) -> int {
    if i % 4 == 1 || i % 4 == 2 {
        1
    } else {
        -1
    }
}

/// The sign, -1 or 1, of corner `i`'s offset from the center along y.
pub open spec fn corner_sign_y(i: int) -> int {
    if i % 4 == 2 || i % 4 == 3 {
        1
    } else {
        -1
    }
}

/// The sign, -1 or 1, of corner `i`'s offset from the center along z.
pub open spec fn corner_sign_z(i: int) -> int {
    if i < 4 {
        1
    } else {
        -1
    }
}

/// Corner `i` of the cube with center `c` and side length `l`: the center
/// offset by `l` half units along each axis, with the signs above.
pub open spec fn corner(c: Vec3i, l: i64, i: int) -> (int, int, int) {
    (c.x + corner_sign_x(i) * l, c.y + corner_sign_y(i) * l, c.z + corner_sign_z(i) * l)
}

/// `v` holds exactly the integer point `p`.
pub open spec fn at_point(v: Vec3i, p: (int, int, int)) -> bool {
    v.x == p.0 && v.y == p.1 && v.z == p.2
}

/// The center and side length are small enough that every corner coordinate
/// fits within `COORD_LIMIT`.
pub open spec fn cube_in_range(c: Vec3i, l: i64) -> bool {
    &&& -CUBE_LIMIT <= c.x <= CUBE_LIMIT
    &&& -CUBE_LIMIT <= c.y <= CUBE_LIMIT
    &&& -CUBE_LIMIT <= c.z <= CUBE_LIMIT
    &&& 0 <= l <= CUBE_LIMIT
}

/// The eight corner vertices of an axis-aligned cube, in the fixed order
/// `corner` describes: front face first, then back face.
pub fn cube_vertices(c: Vec3i, l: i64) -> (r: Vec<Vec3i>)
    requires
        cube_in_range(c, l),
    ensures
        r@.len() == 8,
        forall|i: int| 0 <= i < 8 ==> at_point(#[trigger] r@[i], corner(c, l, i)),
{
    let mut r: Vec<Vec3i> = Vec::new();
    // front face, positive z
    r.push(Vec3i { x: c.x - l, y: c.y - l, z: c.z + l });
    r.push(Vec3i { x: c.x + l, y: c.y - l, z: c.z + l });
    r.push(Vec3i { x: c.x + l, y: c.y + l, z: c.z + l });
    r.push(Vec3i { x: c.x - l, y: c.y + l, z: c.z + l });
    // back face, negative z
    r.push(Vec3i { x: c.x - l, y: c.y - l, z: c.z - l });
    r.push(Vec3i { x: c.x + l, y: c.y - l, z: c.z - l });
    r.push(Vec3i { x: c.x + l, y: c.y + l, z: c.z - l });
    r.push(Vec3i { x: c.x - l, y: c.y + l, z: c.z - l });
    proof {
        assert forall|i: int| 0 <= i < 8 implies at_point(r@[i], corner(c, l, i)) by {
            if i == 0 {
                assert(at_point(r@[0], corner(c, l, 0)));
            } else if i == 1 {
                assert(at_point(r@[1], corner(c, l, 1)));
            } else if i == 2 {
                assert(at_point(r@[2], corner(c, l, 2)));
            } else if i == 3 {
                assert(at_point(r@[3], corner(c, l, 3)));
            } else if i == 4 {
                assert(at_point(r@[4], corner(c, l, 4)));
            } else if i == 5 {
                assert(at_point(r@[5], corner(c, l, 5)));
            } else if i == 6 {
                assert(at_point(r@[6], corner(c, l, 6)));
            } else {
                assert(at_point(r@[7], corner(c, l, 7)));
            }
        }
    }
    r
}

/// Triangle index `i` of the fixed cube index list: twelve triangles, two per
/// face, each wound counterclockwise seen from outside the cube. The faces
/// come in the order front, right, back, left, bottom, top.
pub open spec fn cube_index(i: int) -> u32 {
    if i == 0 {
        0
    } else if i == 1 {
        1
    } else if i == 2 {
        2
    } else if i == 3 {
        2
    } else if i == 4 {
        3
    } else if i == 5 {
        0  // front
    } else if i == 6 {
        1
    } else if i == 7 {
        5
    } else if i == 8 {
        6
    } else if i == 9 {
        6
    } else if i == 10 {
        2
    } else if i == 11 {
        1  // right
    } else if i == 12 {
        7
    } else if i == 13 {
        6
    } else if i == 14 {
        5
    } else if i == 15 {
        5
    } else if i == 16 {
        4
    } else if i == 17 {
        7  // back
    } else if i == 18 {
        4
    } else if i == 19 {
        0
    } else if i == 20 {
        3
    } else if i == 21 {
        3
    } else if i == 22 {
        7
    } else if i == 23 {
        4  // left
    } else if i == 24 {
        4
    } else if i == 25 {
        5
    } else if i == 26 {
        1
    } else if i == 27 {
        1
    } else if i == 28 {
        0
    } else if i == 29 {
        4  // bottom
    } else if i == 30 {
        3
    } else if i == 31 {
        2
    } else if i == 32 {
        6
    } else if i == 33 {
        6
    } else if i == 34 {
        7
    } else {
        3  // top
    }
}

/// The fixed 36-entry index list: two counterclockwise triangles for each of
/// the six cube faces, referencing the eight corners `cube_vertices` emits.
pub fn cube_indices() -> (r: Vec<u32>)
    ensures
        r@.len() == 36,
        forall|i: int| 0 <= i < 36 ==> #[trigger] r@[i] == cube_index(i),
{
    let mut r: Vec<u32> = Vec::new();
    r.push(0);
    r.push(1);
    r.push(2);
    r.push(2);
    r.push(3);
    r.push(0);  // front
    r.push(1);
    r.push(5);
    r.push(6);
    r.push(6);
    r.push(2);
    r.push(1);  // right
    r.push(7);
    r.push(6);
    r.push(5);
    r.push(5);
    r.push(4);
    r.push(7);  // back
    r.push(4);
    r.push(0);
    r.push(3);
    r.push(3);
    r.push(7);
    r.push(4);  // left
    r.push(4);
    r.push(5);
    r.push(1);
    r.push(1);
    r.push(0);
    r.push(4);  // bottom
    r.push(3);
    r.push(2);
    r.push(6);
    r.push(6);
    r.push(7);
    r.push(3);  // top
    r
}

/// Every entry of the index list names one of the eight corner slots.
pub proof fn lemma_cube_indices_in_range()
    ensures
        forall|i: int| 0 <= i < 36 ==> 0 <= #[trigger] cube_index(i) < 8,
{
}

/// One vertex entry per index entry: entry `i` of the result is the vertex
/// the `i`-th index names, so each triangle owns three private vertex slots.
pub fn duplicate_vertices(positions: &Vec<Vec3i>, indices: &Vec<u32>) -> (r: Vec<Vec3i>)
    requires
        forall|i: int| 0 <= i < indices@.len() ==> (#[trigger] indices@[i]) < positions@.len(),
    ensures
        r@.len() == indices@.len(),
        forall|i: int|
            0 <= i < indices@.len() ==> #[trigger] r@[i] == positions@[indices@[i] as int],
{
    let mut r: Vec<Vec3i> = Vec::new();
    let mut k: usize = 0;
    while k < indices.len()
        invariant
            k <= indices@.len(),
            r@.len() == k,
            forall|i: int| 0 <= i < indices@.len() ==> (#[trigger] indices@[i]) < positions@.len(),
            forall|i: int| 0 <= i < k ==> #[trigger] r@[i] == positions@[indices@[i] as int],
        decreases indices@.len() - k,
    {
        let idx = indices[k];
        r.push(positions[idx as usize]);
        k = k + 1;
    }
    r
}

/// The cross product of triangle `t` of a duplicated vertex list (vertices
/// `3t`, `3t + 1`, `3t + 2`) points along a coordinate axis, as it does for
/// every face of an axis-aligned cube.
pub open spec fn tri_aligned(ps: Seq<Vec3i>, t: int) -> bool {
    axis_aligned(
        tri_cross_x(ps[3 * t], ps[3 * t + 1], ps[3 * t + 2]),
        tri_cross_y(ps[3 * t], ps[3 * t + 1], ps[3 * t + 2]),
        tri_cross_z(ps[3 * t], ps[3 * t + 1], ps[3 * t + 2]),
    )
}

/// The flat normal of triangle `t`: the componentwise sign of its cross
/// product. For an axis-aligned cross product this is the normalized
/// direction; for the zero cross product of a degenerate triangle it is zero.
pub open spec fn flat_normal(ps: Seq<Vec3i>, t: int) -> (int, int, int) {
    (
        signum(tri_cross_x(ps[3 * t], ps[3 * t + 1], ps[3 * t + 2])),
        signum(tri_cross_y(ps[3 * t], ps[3 * t + 1], ps[3 * t + 2])),
        signum(tri_cross_z(ps[3 * t], ps[3 * t + 1], ps[3 * t + 2])),
    )
}

/// The sign of `v`: -1, 0 or 1.
fn sgn(v: i64) -> (r: i64)
    ensures
        r as int == signum(v as int),
{
    if v > 0 {
        1
    } else if v < 0 {
        -1
    } else {
        0
    }
}

/// Per-vertex flat normals for a duplicated vertex list: each triangle's
/// three vertices all receive the componentwise sign of the triangle's cross
/// product. Succeeds exactly when every triangle's cross product points along
/// a coordinate axis (so the sign vector is its true unit normal); on any
/// other triangle there is no exact integer unit normal and `None` is
/// returned.
pub fn flat_normals(positions: &Vec<Vec3i>) -> (r: Option<Vec<Vec3i>>)
    requires
        positions@.len() % 3 == 0,
        forall|i: int| 0 <= i < positions@.len() ==> (#[trigger] positions@[i]).bounded(),
    ensures
        (r is Some) <==> (forall|t: int|
            0 <= t < positions@.len() / 3 ==> tri_aligned(positions@, t)),
        r matches Some(ns) ==> {
            &&& ns@.len() == positions@.len()
            &&& forall|i: int|
                0 <= i < ns@.len() ==> at_point(#[trigger] ns@[i], flat_normal(positions@, i / 3))
        },
{
    let count = positions.len() / 3;
    let mut ns: Vec<Vec3i> = Vec::new();
    let mut t: usize = 0;
    while t < count
        invariant
            count == positions@.len() / 3,
            positions@.len() % 3 == 0,
            positions@.len() <= usize::MAX,
            forall|i: int| 0 <= i < positions@.len() ==> (#[trigger] positions@[i]).bounded(),
            t <= count,
            ns@.len() == 3 * t,
            forall|tt: int| 0 <= tt < t ==> tri_aligned(positions@, tt),
            forall|i: int|
                0 <= i < 3 * t ==> at_point(#[trigger] ns@[i], flat_normal(positions@, i / 3)),
        decreases count - t,
    {
        proof {
            assert(positions@.len() == 3 * count as int);
        }
        let a = positions[3 * t];
        let b = positions[3 * t + 1];
        let c = positions[3 * t + 2];
        proof {
            lemma_mul_bound(b.y - a.y, c.z - a.z, 2_000_000_000, 2_000_000_000);
            lemma_mul_bound(b.z - a.z, c.y - a.y, 2_000_000_000, 2_000_000_000);
            lemma_mul_bound(b.z - a.z, c.x - a.x, 2_000_000_000, 2_000_000_000);
            lemma_mul_bound(b.x - a.x, c.z - a.z, 2_000_000_000, 2_000_000_000);
            lemma_mul_bound(b.x - a.x, c.y - a.y, 2_000_000_000, 2_000_000_000);
            lemma_mul_bound(b.y - a.y, c.x - a.x, 2_000_000_000, 2_000_000_000);
        }
        let cx = (b.y - a.y) * (c.z - a.z) - (b.z - a.z) * (c.y - a.y);
        let cy = (b.z - a.z) * (c.x - a.x) - (b.x - a.x) * (c.z - a.z);
        let cz = (b.x - a.x) * (c.y - a.y) - (b.y - a.y) * (c.x - a.x);
        if !((cx == 0 && cy == 0) || (cy == 0 && cz == 0) || (cz == 0 && cx == 0)) {
            proof {
                assert(!tri_aligned(positions@, t as int));
            }
            return None;
        }
        let normal = Vec3i { x: sgn(cx), y: sgn(cy), z: sgn(cz) };
        ns.push(normal);
        ns.push(normal);
        ns.push(normal);
        proof {
            assert((3 * t as int) / 3 == t as int);
            assert((3 * t as int + 1) / 3 == t as int);
            assert((3 * t as int + 2) / 3 == t as int);
        }
        t = t + 1;
    }
    Some(ns)
}

/// The outward unit normal of face `f`, in the face order of `cube_index`:
/// front, right, back, left, bottom, top.
pub open spec fn face_axis(f: int) -> (int, int, int) {
    if f == 0 {
        (0, 0, 1)
    } else if f == 1 {
        (1, 0, 0)
    } else if f == 2 {
        (0, 0, -1)
    } else if f == 3 {
        (-1, 0, 0)
    } else if f == 4 {
        (0, -1, 0)
    } else {
        (0, 1, 0)
    }
}

/// The cross product every triangle of face `f` has when the cube's side
/// length is `l`: `4 l^2` along the face's outward axis.
pub open spec fn face_cross(l: i64, f: int) -> (int, int, int) {
    if f == 0 {
        (0, 0, 4 * (l * l))
    } else if f == 1 {
        (4 * (l * l), 0, 0)
    } else if f == 2 {
        (0, 0, -4 * (l * l))
    } else if f == 3 {
        (-4 * (l * l), 0, 0)
    } else if f == 4 {
        (0, -4 * (l * l), 0)
    } else {
        (0, 4 * (l * l), 0)
    }
}

/// The cross product of triangle `t` of the cube index list, taken over the
/// corner positions it references, is `4 l^2` times the outward unit normal
/// of the face the triangle belongs to: every triangle is wound
/// counterclockwise seen from outside.
#[verifier::rlimit(60)]
#[verifier::spinoff_prover]
pub proof fn lemma_cube_tri_cross(c: Vec3i, l: i64, t: int, a: Vec3i, b: Vec3i, d: Vec3i)
    requires
        cube_in_range(c, l),
        0 <= t < 12,
        at_point(a, corner(c, l, cube_index(3 * t) as int)),
        at_point(b, corner(c, l, cube_index(3 * t + 1) as int)),
        at_point(d, corner(c, l, cube_index(3 * t + 2) as int)),
    ensures
        (tri_cross_x(a, b, d), tri_cross_y(a, b, d), tri_cross_z(a, b, d)) == face_cross(
            l,
            t / 2,
        ),
{
    lemma_double_products(l as int);
    if t == 0 {
        lemma_cross_eval(a, b, d, (2 * (l as int), 0, 0), (2 * (l as int), 2 * (l as int), 0));
        assert(tri_cross_x(a, b, d) == 0);
        assert(tri_cross_y(a, b, d) == 0);
        assert(tri_cross_z(a, b, d) == 4 * ((l as int) * (l as int)));
    } else if t == 1 {
        lemma_cross_eval(a, b, d, (-2 * (l as int), 0, 0), (-2 * (l as int), -2 * (l as int), 0));
        assert(tri_cross_x(a, b, d) == 0);
        assert(tri_cross_y(a, b, d) == 0);
        assert(tri_cross_z(a, b, d) == 4 * ((l as int) * (l as int)));
    } else if t == 2 {
        lemma_cross_eval(a, b, d, (0, 0, -2 * (l as int)), (0, 2 * (l as int), -2 * (l as int)));
        assert(tri_cross_x(a, b, d) == 4 * ((l as int) * (l as int)));
        assert(tri_cross_y(a, b, d) == 0);
        assert(tri_cross_z(a, b, d) == 0);
    } else if t == 3 {
        lemma_cross_eval(a, b, d, (0, 0, 2 * (l as int)), (0, -2 * (l as int), 2 * (l as int)));
        assert(tri_cross_x(a, b, d) == 4 * ((l as int) * (l as int)));
        assert(tri_cross_y(a, b, d) == 0);
        assert(tri_cross_z(a, b, d) == 0);
    } else if t == 4 {
        lemma_cross_eval(a, b, d, (2 * (l as int), 0, 0), (2 * (l as int), -2 * (l as int), 0));
        assert(tri_cross_x(a, b, d) == 0);
        assert(tri_cross_y(a, b, d) == 0);
        assert(tri_cross_z(a, b, d) == -4 * ((l as int) * (l as int)));
    } else if t == 5 {
        lemma_cross_eval(a, b, d, (-2 * (l as int), 0, 0), (-2 * (l as int), 2 * (l as int), 0));
        assert(tri_cross_x(a, b, d) == 0);
        assert(tri_cross_y(a, b, d) == 0);
        assert(tri_cross_z(a, b, d) == -4 * ((l as int) * (l as int)));
    } else if t == 6 {
        lemma_cross_eval(a, b, d, (0, 0, 2 * (l as int)), (0, 2 * (l as int), 2 * (l as int)));
        assert(tri_cross_x(a, b, d) == -4 * ((l as int) * (l as int)));
        assert(tri_cross_y(a, b, d) == 0);
        assert(tri_cross_z(a, b, d) == 0);
    } else if t == 7 {
        lemma_cross_eval(a, b, d, (0, 0, -2 * (l as int)), (0, -2 * (l as int), -2 * (l as int)));
        assert(tri_cross_x(a, b, d) == -4 * ((l as int) * (l as int)));
        assert(tri_cross_y(a, b, d) == 0);
        assert(tri_cross_z(a, b, d) == 0);
    } else if t == 8 {
        lemma_cross_eval(a, b, d, (2 * (l as int), 0, 0), (2 * (l as int), 0, 2 * (l as int)));
        assert(tri_cross_x(a, b, d) == 0);
        assert(tri_cross_y(a, b, d) == -4 * ((l as int) * (l as int)));
        assert(tri_cross_z(a, b, d) == 0);
    } else if t == 9 {
        lemma_cross_eval(a, b, d, (-2 * (l as int), 0, 0), (-2 * (l as int), 0, -2 * (l as int)));
        assert(tri_cross_x(a, b, d) == 0);
        assert(tri_cross_y(a, b, d) == -4 * ((l as int) * (l as int)));
        assert(tri_cross_z(a, b, d) == 0);
    } else if t == 10 {
        lemma_cross_eval(a, b, d, (2 * (l as int), 0, 0), (2 * (l as int), 0, -2 * (l as int)));
        assert(tri_cross_x(a, b, d) == 0);
        assert(tri_cross_y(a, b, d) == 4 * ((l as int) * (l as int)));
        assert(tri_cross_z(a, b, d) == 0);
    } else {
        lemma_cross_eval(a, b, d, (-2 * (l as int), 0, 0), (-2 * (l as int), 0, 2 * (l as int)));
        assert(tri_cross_x(a, b, d) == 0);
        assert(tri_cross_y(a, b, d) == 4 * ((l as int) * (l as int)));
        assert(tri_cross_z(a, b, d) == 0);
    }
}

/// A renderable cube mesh: thirty-six duplicated vertex positions, three per
/// triangle in index order, and one flat normal per vertex.
pub struct CubeMesh {
    pub positions: Vec<Vec3i>,
    pub normals: Vec<Vec3i>,
}

/// The flat normal every vertex of triangle `i / 3` carries: the outward unit
/// normal of face `i / 6` for a cube of positive side length, and zero for
/// the degenerate cube of side length zero.
pub open spec fn cube_normal(l: i64, i: int) -> (int, int, int) {
    if l > 0 {
        face_axis(i / 6)
    } else {
        (0, 0, 0)
    }
}

/// Build the mesh of an axis-aligned cube with center `c` (in half units) and
/// side length `l`: the eight corners, the fixed triangle list, vertex
/// duplication so that each triangle owns its three vertex slots, and one
/// flat normal per vertex, so that lighting shows sharp edges.
pub fn generate_cube(c: Vec3i, l: i64) -> (m: CubeMesh)
    requires
        cube_in_range(c, l),
    ensures
        m.positions@.len() == 36,
        m.normals@.len() == 36,
        forall|i: int|
            0 <= i < 36 ==> at_point(
                #[trigger] m.positions@[i],
                corner(c, l, cube_index(i) as int),
            ),
        forall|i: int| 0 <= i < 36 ==> at_point(#[trigger] m.normals@[i], cube_normal(l, i)),
{
    let vertices = cube_vertices(c, l);
    let indices = cube_indices();
    proof {
        lemma_cube_indices_in_range();
    }
    let positions = duplicate_vertices(&vertices, &indices);
    proof {
        assert forall|i: int| 0 <= i < 36 implies (#[trigger] positions@[i]).bounded() by {
            assert(at_point(positions@[i], corner(c, l, cube_index(i) as int)));
        }
        assert forall|t: int| 0 <= t < 12 implies tri_aligned(positions@, t) by {
            lemma_cube_tri_cross(c, l, t, positions@[3 * t], positions@[3 * t + 1], positions@[3 * t + 2]);
            lemma_double_products(l as int);
        }
    }
    let normals_opt = flat_normals(&positions);
    let normals = normals_opt.unwrap();
    proof {
        assert forall|i: int| 0 <= i < 36 implies at_point(
            #[trigger] normals@[i],
            cube_normal(l, i),
        ) by {
            let t = i / 3;
            lemma_cube_tri_cross(c, l, t, positions@[3 * t], positions@[3 * t + 1], positions@[3 * t + 2]);
            lemma_double_products(l as int);
            assert(i / 6 == t / 2);
            assert(at_point(normals@[i], flat_normal(positions@, t)));
            let f = t / 2;
            if f == 0 {
                assert(flat_normal(positions@, t) == cube_normal(l, i));
            } else if f == 1 {
                assert(flat_normal(positions@, t) == cube_normal(l, i));
            } else if f == 2 {
                assert(flat_normal(positions@, t) == cube_normal(l, i));
            } else if f == 3 {
                assert(flat_normal(positions@, t) == cube_normal(l, i));
            } else if f == 4 {
                assert(flat_normal(positions@, t) == cube_normal(l, i));
            } else {
                assert(flat_normal(positions@, t) == cube_normal(l, i));
            }
        }
    }
    CubeMesh { positions, normals }
}


/// A corner of the cube lies `l` half units from the center along each axis,
/// and so at squared distance `3 l^2`: in world units, where a half unit is
/// one half, that is the distance `l * sqrt(3) / 2` for side length `l`. The
/// eight corners therefore form an axis-aligned cube on a common sphere
/// around the center.
pub proof fn lemma_corner_distance(c: Vec3i, l: i64, i: int, v: Vec3i)
    requires
        cube_in_range(c, l),
        0 <= i < 8,
        at_point(v, corner(c, l, i)),
    ensures
        dist_sq(v, c) == 3 * (l * l),
        v.x - c.x == l || v.x - c.x == -l,
        v.y - c.y == l || v.y - c.y == -l,
        v.z - c.z == l || v.z - c.z == -l,
{
    lemma_double_products(l as int);
}

/// For a cube of positive side length, the cross product of each face's
/// triangles points strictly outward: its componentwise sign is exactly the
/// face's outward unit axis. Together with `lemma_cube_tri_cross` this says
/// the whole index list is wound consistently, two triangles per face.
pub proof fn lemma_face_cross_outward(l: i64, f: int)
    requires
        0 < l,
        0 <= f < 6,
    ensures
        (
            signum(face_cross(l, f).0),
            signum(face_cross(l, f).1),
            signum(face_cross(l, f).2),
        ) == face_axis(f),
{
    lemma_double_products(l as int);
}

/// Flat shading after duplication: for a cube of positive side length, each
/// triangle's three vertex slots hold three pairwise distinct corners, and
/// all three carry one and the same normal, the outward axis of the
/// triangle's face.
pub proof fn lemma_flat_shading(c: Vec3i, l: i64, t: int)
    requires
        cube_in_range(c, l),
        0 < l,
        0 <= t < 12,
    ensures
        corner(c, l, cube_index(3 * t) as int) != corner(c, l, cube_index(3 * t + 1) as int),
        corner(c, l, cube_index(3 * t + 1) as int) != corner(c, l, cube_index(3 * t + 2) as int),
        corner(c, l, cube_index(3 * t) as int) != corner(c, l, cube_index(3 * t + 2) as int),
        cube_normal(l, 3 * t) == cube_normal(l, 3 * t + 1),
        cube_normal(l, 3 * t) == cube_normal(l, 3 * t + 2),
        cube_normal(l, 3 * t) == face_axis(t / 2),
{
    // settle each triangle separately, so that its three corner indices and
    // positions evaluate to concrete values
    if t == 0 {
    } else if t == 1 {
    } else if t == 2 {
    } else if t == 3 {
    } else if t == 4 {
    } else if t == 5 {
    } else if t == 6 {
    } else if t == 7 {
    } else if t == 8 {
    } else if t == 9 {
    } else if t == 10 {
    } else {
    }
}

} // verus!
