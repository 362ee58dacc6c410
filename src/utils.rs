use vstd::prelude::*;

verus! {

/// Every angle in this library is an `i64` count of micro-radians.
/// Half a turn, π radians, rounded to the unit.
pub const HALF_TURN: i64 = 3_141_593;

/// Length that a unit vector is scaled to before it is resolved into
/// Cartesian components.
pub const RESOLUTION: i64 = 1_000_000;

/// Trigonometry on the library's units. Each method returns a value that
/// depends on the geometry and its arguments alone, which its spec function
/// names; the library assumes nothing more of it and holds each result to the
/// range that the true function has.
pub trait Geometry {
    /// What `angle_of` returns.
    spec fn angle_spec(&self, x: i128, y: i128) -> i64;

    /// What `sin_times` returns.
    spec fn sin_spec(&self, angle: i64, len: i64) -> i64;

    /// What `cos_times` returns.
    spec fn cos_spec(&self, angle: i64, len: i64) -> i64;

    /// The angle of the vector `(x, y)`, as `atan2(y, x)`.
    fn angle_of(&self, x: i128, y: i128) -> (r: i64)
        ensures
            r == self.angle_spec(x, y),
    ;

    /// `len * sin(angle)`, truncated toward zero.
    fn sin_times(&self, angle: i64, len: i64) -> (r: i64)
        ensures
            r == self.sin_spec(angle, len),
    ;

    /// `len * cos(angle)`, truncated toward zero.
    fn cos_times(&self, angle: i64, len: i64) -> (r: i64)
        ensures
            r == self.cos_spec(angle, len),
    ;
}

/// `v` held to `[lo, hi]`.
pub open spec fn clamp_spec(v: int, lo: int, hi: int) -> int {
    if v < lo {
        lo
    } else if v > hi {
        hi
    } else {
        v
    }
}

/// `v` held to `[lo, hi]`.
pub fn clamp(v: i64, lo: i64, hi: i64) -> (r: i64)
    requires
        lo <= hi,
    ensures
        r == clamp_spec(v as int, lo as int, hi as int),
        lo <= r <= hi,
{
    if v < lo {
        lo
    } else if v > hi {
        hi
    } else {
        v
    }
}

/// The heading, in `[-π, π]`, of the screen offset `(x, y)`: the
/// geometry's `atan2(x, -y)`, held to that range.
pub open spec fn heading_of<G: Geometry>(geometry: &G, x: i128, y: i128) -> int {
    clamp_spec(geometry.angle_spec((-y) as i128, x) as int, -HALF_TURN as int, HALF_TURN as int)
}

/// The heading, in `[-π, π]`, of the screen offset `(x, y)` (y grows
/// downward): 0 points up, and angles grow clockwise, as for the agents'
/// headings. It is `atan2(x, -y)`.
pub fn point_to_angle<G: Geometry>(geometry: &G, x: i128, y: i128) -> (r: i64)
    requires
        -COMPONENT_BOUND <= y <= COMPONENT_BOUND,
    ensures
        r == heading_of(geometry, x, y),
        -HALF_TURN <= r <= HALF_TURN,
{
    let a = geometry.angle_of(-y, x);
    clamp(a, -HALF_TURN, HALF_TURN)
}

/// Screen components of `v` as `resolve` computes them.
pub open spec fn resolve_spec<G: Geometry>(v: PolarVector, geometry: &G) -> Cartesian {
    let len = (v.r * RESOLUTION) as i64;
    Cartesian {
        x: clamp_spec(geometry.sin_spec(v.theta, len) as int, -len, len as int) as i128,
        y: (-clamp_spec(geometry.cos_spec(v.theta, len) as int, -len, len as int)) as i128,
    }
}

/// A vector given by its magnitude `r` and its angle `theta`.
#[derive(Clone, Copy, Debug, PartialEq, Eq, Structural)]
pub struct PolarVector {
    pub r: u32,
    pub theta: i64,
}

impl PolarVector {
    /// This vector with magnitude `r`.
    pub fn set_r(self, r: u32) -> (v: Self)
        ensures
            v.r == r,
            v.theta == self.theta,
    {
        PolarVector { r, theta: self.theta }
    }

    /// This vector with angle `theta`.
    pub fn set_theta(self, theta: i64) -> (v: Self)
        ensures
            v.r == self.r,
            v.theta == theta,
    {
        PolarVector { r: self.r, theta }
    }

    /// Screen components of this vector, `(r sin θ, -r cos θ)`, with the
    /// magnitude scaled by `RESOLUTION`; each lies within the scaled
    /// magnitude. `point_to_angle` turns them back into `theta`.
    pub fn resolve<G: Geometry>(&self, geometry: &G) -> (c: Cartesian)
        ensures
            c == resolve_spec(*self, geometry),
            c.within(self.r as int * RESOLUTION),
    {
        let len: i64 = self.r as i64 * RESOLUTION;
        let x = clamp(geometry.sin_times(self.theta, len), -len, len);
        let y = clamp(geometry.cos_times(self.theta, len), -len, len);
        Cartesian { x: x as i128, y: -(y as i128) }
    }
}

impl From<(u32, i64)> for PolarVector {
    fn from(t: (u32, i64)) -> (v: Self) {
        PolarVector { r: t.0, theta: t.1 }
    }
}

impl vstd::std_specs::convert::FromSpecImpl<(u32, i64)> for PolarVector {
    open spec fn obeys_from_spec() -> bool {
        true
    }

    open spec fn from_spec(t: (u32, i64)) -> Self {
        PolarVector { r: t.0, theta: t.1 }
    }
}

/// Largest component magnitude that `combine` takes: the sum of two such
/// components fits in an `i128`.
pub const COMPONENT_BOUND: i128 = 0x2000_0000_0000_0000_0000_0000_0000_0000;

/// A vector by its components.
#[derive(Clone, Copy, Debug, PartialEq, Eq, Structural)]
pub struct Cartesian {
    pub x: i128,
    pub y: i128,
}

impl Cartesian {
    /// Both components lie within `bound` of zero.
    pub open spec fn within(self, bound: int) -> bool {
        -bound <= self.x <= bound && -bound <= self.y <= bound
    }

    /// Componentwise sum.
    pub open spec fn plus(self, o: Cartesian) -> Cartesian {
        Cartesian { x: (self.x + o.x) as i128, y: (self.y + o.y) as i128 }
    }
}

/// Adds two vectors component by component: the blending law of steering
/// directions. Rule directions are resolved into components, added, and the
/// angle of the sum is read back, which is true vector addition for any two
/// polar vectors.
pub fn combine(a: Cartesian, b: Cartesian) -> (c: Cartesian)
    requires
        a.within(COMPONENT_BOUND as int),
        b.within(COMPONENT_BOUND as int),
    ensures
        c == a.plus(b),
        c.x == a.x + b.x,
        c.y == a.y + b.y,
{
    Cartesian { x: a.x + b.x, y: a.y + b.y }
}

/// Sum of the x components in `v`.
pub open spec fn sum_x(v: Seq<Cartesian>) -> int
    decreases v.len(),
{
    if v.len() == 0 {
        0
    } else {
        sum_x(v.drop_last()) + v.last().x
    }
}

/// Sum of the y components in `v`.
pub open spec fn sum_y(v: Seq<Cartesian>) -> int
    decreases v.len(),
{
    if v.len() == 0 {
        0
    } else {
        sum_y(v.drop_last()) + v.last().y
    }
}

/// Sum of the vectors in `v`.
pub open spec fn sum_vectors(v: Seq<Cartesian>) -> Cartesian {
    Cartesian { x: sum_x(v) as i128, y: sum_y(v) as i128 }
}

/// `v` with the entries at `i` and `i + 1` exchanged.
pub open spec fn swap_adjacent<T>(v: Seq<T>, i: int) -> Seq<T> {
    v.update(i, v[i + 1]).update(i + 1, v[i])
}

proof fn lemma_sum_update(v: Seq<Cartesian>, k: int, c: Cartesian)
    requires
        0 <= k < v.len(),
    ensures
        sum_x(v.update(k, c)) == sum_x(v) - v[k].x + c.x,
        sum_y(v.update(k, c)) == sum_y(v) - v[k].y + c.y,
    decreases v.len(),
{
    let u = v.update(k, c);
    if k == v.len() - 1 {
        assert(u.drop_last() == v.drop_last());
    } else {
        assert(u.drop_last() == v.drop_last().update(k, c));
        lemma_sum_update(v.drop_last(), k, c);
    }
}

/// Blending ignores order: exchanging two neighbouring directions leaves
/// their sum as it was, so any reordering does.
pub proof fn blend_ignores_order(v: Seq<Cartesian>, i: int)
    requires
        0 <= i && i + 1 < v.len(),
    ensures
        sum_vectors(swap_adjacent(v, i)) == sum_vectors(v),
{
    lemma_sum_update(v, i, v[i + 1]);
    lemma_sum_update(v.update(i, v[i + 1]), i + 1, v[i]);
}

/// Largest component magnitude of a resolved rule direction: a weight of
/// `u32::MAX` times `RESOLUTION` stays below it.
pub const DIRECTION_BOUND: i128 = 0x20_0000_0000_0000;

/// The sum of the resolved directions in `v`: the blended direction whose
/// angle is the target heading.
pub fn resultant(v: &Vec<Cartesian>) -> (c: Cartesian)
    requires
        forall|i: int| 0 <= i < v@.len() ==> (#[trigger] v@[i]).within(DIRECTION_BOUND as int),
    ensures
        c == sum_vectors(v@),
        c.within(v@.len() * DIRECTION_BOUND),
{
    let mut sum = Cartesian { x: 0, y: 0 };
    let mut j: usize = 0;
    while j < v.len()
        invariant
            j <= v@.len(),
            forall|i: int| 0 <= i < v@.len() ==> (#[trigger] v@[i]).within(DIRECTION_BOUND as int),
            sum.x == sum_x(v@.take(j as int)),
            sum.y == sum_y(v@.take(j as int)),
            sum.within(j as int * DIRECTION_BOUND),
        decreases v@.len() - j,
    {
        assert(v@.take(j + 1).drop_last() == v@.take(j as int));
        assert(j as int * DIRECTION_BOUND <= COMPONENT_BOUND) by (nonlinear_arith)
            requires
                0 <= j <= usize::MAX,
        ;
        sum = combine(sum, v[j]);
        j = j + 1;
    }
    assert(v@.take(j as int) == v@);
    sum
}

/// Blending is order-independent: adding `a` to `b` gives what adding `b`
/// to `a` gives.
pub proof fn combine_commutes(a: Cartesian, b: Cartesian)
    ensures
        a.plus(b) == b.plus(a),
{
}

} // verus!
