//! Integer 3-vectors and the spec-level vector algebra the mesh and camera
//! contracts are written in.

use vstd::prelude::*;

verus! {

/// Every coordinate this library works with stays within this bound, so that
/// cross products of coordinate differences fit in `i64`.
pub const COORD_LIMIT: i64 = 1_000_000_000;

/// A 3-vector of integer coordinates on a fixed-point grid the caller
/// chooses; the mesh builder uses half units, twice the world coordinate.
#[derive(Clone, Copy, Debug, PartialEq, Eq, Structural)]
pub struct Vec3i {
    pub x: i64,
    pub y: i64,
    pub z: i64,
}

impl Vec3i {
    /// All three coordinates lie within `COORD_LIMIT`.
    pub open spec fn bounded(self) -> bool {
        &&& -COORD_LIMIT <= self.x <= COORD_LIMIT
        &&& -COORD_LIMIT <= self.y <= COORD_LIMIT
        &&& -COORD_LIMIT <= self.z <= COORD_LIMIT
    }
}

/// The squared distance between two points.
pub open spec fn dist_sq(a: Vec3i, b: Vec3i) -> int {
    (a.x - b.x) * (a.x - b.x) + (a.y - b.y) * (a.y - b.y) + (a.z - b.z) * (a.z - b.z)
}

/// The x component of the cross product `(b - a) x (c - a)`.
pub open spec fn tri_cross_x(a: Vec3i, b: Vec3i, c: Vec3i) -> int {
    (b.y - a.y) * (c.z - a.z) - (b.z - a.z) * (c.y - a.y)
}

/// The y component of the cross product `(b - a) x (c - a)`.
pub open spec fn tri_cross_y(a: Vec3i, b: Vec3i, c: Vec3i) -> int {
    (b.z - a.z) * (c.x - a.x) - (b.x - a.x) * (c.z - a.z)
}

/// The z component of the cross product `(b - a) x (c - a)`.
pub open spec fn tri_cross_z(a: Vec3i, b: Vec3i, c: Vec3i) -> int {
    (b.x - a.x) * (c.y - a.y) - (b.y - a.y) * (c.x - a.x)
}

/// The sign of an integer: -1, 0 or 1.
pub open spec fn signum(n: int) -> int {
    if n > 0 {
        1
    } else if n < 0 {
        -1
    } else {
        0
    }
}

/// At most one of the three components is nonzero, i.e. the vector points
/// along a coordinate axis (or is zero).
pub open spec fn axis_aligned(x: int, y: int, z: int) -> bool {
    ||| x == 0 && y == 0
    ||| y == 0 && z == 0
    ||| z == 0 && x == 0
}

/// Products of `2l` and `-2l` with each other, spelled out so that cross
/// products of cube edges reduce to multiples of `l * l`.
pub proof fn lemma_double_products(l: int)
    by (nonlinear_arith)
    ensures
        (2 * l) * (2 * l) == 4 * (l * l),
        (-2 * l) * (-2 * l) == 4 * (l * l),
        (2 * l) * (-2 * l) == -4 * (l * l),
        (-2 * l) * (2 * l) == -4 * (l * l),
        (-l) * (-l) == l * l,
        (2 * l) * 0 == 0,
        (-2 * l) * 0 == 0,
        0 * (2 * l) == 0,
        0 * (-2 * l) == 0,
        l > 0 ==> l * l > 0,
        l * l >= 0,
{
}

/// The cross product `(q - p) x (r - p)`, written out over the edge vectors
/// `e1 == q - p` and `e2 == r - p`: substituting the edges into the products
/// needs the nonlinear solver once, here, so that callers can reason about
/// cross products of concrete edges linearly.
pub proof fn lemma_cross_eval(p: Vec3i, q: Vec3i, r: Vec3i, e1: (int, int, int), e2: (int, int, int))
    by (nonlinear_arith)
    requires
        q.x - p.x == e1.0,
        q.y - p.y == e1.1,
        q.z - p.z == e1.2,
        r.x - p.x == e2.0,
        r.y - p.y == e2.1,
        r.z - p.z == e2.2,
    ensures
        (q.y - p.y) * (r.z - p.z) - (q.z - p.z) * (r.y - p.y) == e1.1 * e2.2 - e1.2 * e2.1,
        (q.z - p.z) * (r.x - p.x) - (q.x - p.x) * (r.z - p.z) == e1.2 * e2.0 - e1.0 * e2.2,
        (q.x - p.x) * (r.y - p.y) - (q.y - p.y) * (r.x - p.x) == e1.0 * e2.1 - e1.1 * e2.0,
{
}

/// Products of `k` with the unit factors 0, 1 and -1, spelled out so that
/// scaling a unit axis vector by `k` evaluates componentwise.
pub proof fn lemma_scale_units(k: int)
    by (nonlinear_arith)
    ensures
        k * 0 == 0,
        0 * k == 0,
        k * 1 == k,
        1 * k == k,
        k * -1 == -k,
        -1 * k == -k,
{
}

/// Multiplication respects replacing a factor by an equal term.
pub proof fn lemma_mul_congruence(a: int, b: int, c: int)
    by (nonlinear_arith)
    requires
        b == c,
    ensures
        a * b == a * c,
{
}

/// A product of two bounded factors is bounded by the product of the bounds.
pub proof fn lemma_mul_bound(a: int, b: int, m1: int, m2: int)
    by (nonlinear_arith)
    requires
        -m1 <= a <= m1,
        -m2 <= b <= m2,
        0 <= m1,
        0 <= m2,
    ensures
        -(m1 * m2) <= a * b <= m1 * m2,
{
}

} // verus!
