use vstd::prelude::*;

use crate::rule::{direction_spec, Rule, RuleContext};
use crate::utils::{
    blend_ignores_order, clamp, clamp_spec, heading_of, point_to_angle, resolve_spec, resultant,
    sum_vectors, swap_adjacent, Cartesian, Geometry, PolarVector, COMPONENT_BOUND, DIRECTION_BOUND,
};

verus! {

/// Largest magnitude of a heading, in micro-radians (about a million
/// radians): a bound that keeps every sum of headings in range.
pub const MAX_HEADING: i64 = 0x100_0000_0000;

/// One agent: its position and its heading (0 points up the screen, angles
/// grow clockwise).
#[derive(Clone, Copy, Debug, PartialEq, Eq, Structural)]
pub struct Boid {
    pub x: i32,
    pub y: i32,
    pub angle: i64,
}

/// Every heading in `s` lies within `MAX_HEADING` of zero.
pub open spec fn headings_bounded(s: Seq<Boid>) -> bool {
    forall|i: int| 0 <= i < s.len() ==> -MAX_HEADING <= #[trigger] s[i].angle <= MAX_HEADING
}

/// `b` lies within `range` of `a` (squared Euclidean distance, boundary
/// included).
pub open spec fn nearby(a: Boid, b: Boid, range: int) -> bool {
    (b.x - a.x) * (b.x - a.x) + (b.y - a.y) * (b.y - a.y) <= range * range
}

/// The agents among the first `n` of `s`, other than the one at `i`, that lie
/// within `range` of it, in their order in `s`.
pub open spec fn neighbors_prefix(s: Seq<Boid>, i: int, range: int, n: nat) -> Seq<Boid>
    decreases n,
{
    if n == 0 {
        seq![]
    } else {
        let rest = neighbors_prefix(s, i, range, (n - 1) as nat);
        if n - 1 != i && nearby(s[i], s[n - 1], range) {
            rest.push(s[n - 1])
        } else {
            rest
        }
    }
}

/// The neighbours of the agent at `i` in `s`.
pub open spec fn neighbors(s: Seq<Boid>, i: int, range: int) -> Seq<Boid> {
    neighbors_prefix(s, i, range, s.len())
}

/// Nearness is symmetric: `b` is near `a` exactly when `a` is near `b`.
pub proof fn neighbor_symmetry(a: Boid, b: Boid, range: int)
    ensures
        nearby(a, b, range) == nearby(b, a, range),
{
    assert((b.x - a.x) * (b.x - a.x) == (a.x - b.x) * (a.x - b.x)) by (nonlinear_arith);
    assert((b.y - a.y) * (b.y - a.y) == (a.y - b.y) * (a.y - b.y)) by (nonlinear_arith);
}

/// The heading after one damped turn from `current` toward `target`: the
/// difference divided by the resistance, rounded down.
pub open spec fn damp_spec(current: int, target: int, resistance: int) -> int {
    current + (target - current) / resistance
}

/// Coordinate `v` moved by `d` on a circle of `size` cells.
pub open spec fn wrap_spec(v: int, d: int, size: int) -> int {
    (v + d) % size
}

/// `nb` is `b` moved by at most `speed` along each axis, on a torus of
/// `w` by `h`.
pub open spec fn moved_within(b: Boid, nb: Boid, speed: int, w: int, h: int) -> bool {
    exists|dx: int, dy: int|
        -speed <= dx <= speed && -speed <= dy <= speed && nb.x == #[trigger] wrap_spec(b.x as int, dx, w)
            && nb.y == #[trigger] wrap_spec(b.y as int, dy, h)
}

/// At a turn resistance of one, a damped turn reaches its target.
pub proof fn unit_resistance_snaps(current: int, target: int)
    ensures
        damp_spec(current, target, 1) == target,
{
}

/// One damped turn of `current` toward `target`; the result lies between the
/// two. The difference is taken as it stands, with no correction for the
/// shorter way round the circle.
pub fn damp(current: i64, target: i64, resistance: u32) -> (r: i64)
    requires
        resistance >= 1,
        -MAX_HEADING <= current <= MAX_HEADING,
        -MAX_HEADING <= target <= MAX_HEADING,
    ensures
        r == damp_spec(current as int, target as int, resistance as int),
        current <= target ==> current <= r <= target,
        target <= current ==> target <= r <= current,
{
    let diff: i128 = target as i128 - current as i128;
    let k = resistance as i128;
    let q = match diff.checked_div_euclid(k) {
        Some(q) => q,
        None => 0,
    };
    proof {
        let m = diff as int / k as int;
        assert(k * m <= diff < k * m + k) by {
            vstd::arithmetic::div_mod::lemma_fundamental_div_mod(diff as int, k as int);
        }
        assert(diff >= 0 ==> 0 <= m <= diff) by (nonlinear_arith)
            requires
                k * m <= diff < k * m + k,
                k >= 1,
        ;
        assert(diff < 0 ==> diff <= m < 0) by (nonlinear_arith)
            requires
                k * m <= diff < k * m + k,
                k >= 1,
        ;
    }
    (current as i128 + q) as i64
}

/// Coordinate `v` moved by `d`, wrapped into `[0, size)`.
pub fn wrap_coordinate(v: i32, d: i64, size: i32) -> (r: i32)
    requires
        size > 0,
    ensures
        r == wrap_spec(v as int, d as int, size as int),
        0 <= r < size,
{
    let s: i128 = v as i128 + d as i128;
    match s.checked_rem_euclid(size as i128) {
        Some(m) => m as i32,
        None => 0,
    }
}

/// `b` given heading `angle` and moved right by `sin_len` and up by
/// `cos_len` (each held to `speed`), with wraparound on a world of `w` by `h`.
pub open spec fn integrate_spec(b: Boid, angle: i64, sin_len: i64, cos_len: i64, speed: i64, w: int, h: int) -> Boid {
    Boid {
        x: wrap_spec(b.x as int, clamp_spec(sin_len as int, -speed, speed as int), w) as i32,
        y: wrap_spec(b.y as int, -clamp_spec(cos_len as int, -speed, speed as int), h) as i32,
        angle,
    }
}

/// Moves `b` along its new heading `angle`, where `sin_len` is
/// `speed * sin(angle)` and `cos_len` is `speed * cos(angle)`, each held to
/// `speed`: right by the first, up (toward smaller y) by the second. The new
/// position wraps around the world.
pub fn integrate(b: Boid, angle: i64, sin_len: i64, cos_len: i64, speed: i64, w: i32, h: i32) -> (nb: Boid)
    requires
        0 <= speed,
        w > 0,
        h > 0,
    ensures
        nb == integrate_spec(b, angle, sin_len, cos_len, speed, w as int, h as int),
        0 <= nb.x < w,
        0 <= nb.y < h,
        nb.angle == angle,
        moved_within(b, nb, speed as int, w as int, h as int),
{
    let dx = clamp(sin_len, -speed, speed);
    let dy = -clamp(cos_len, -speed, speed);
    let x = wrap_coordinate(b.x, dx, w);
    let y = wrap_coordinate(b.y, dy, h);
    let nb = Boid { x, y, angle };
    assert(nb.x == wrap_spec(b.x as int, dx as int, w as int) && nb.y == wrap_spec(
        b.y as int,
        dy as int,
        h as int,
    ));
    nb
}

/// The flock and its configuration. `geometry` supplies the trigonometry.
pub struct BoidController<G: Geometry> {
    pub boids: Vec<Boid>,
    pub geometry: G,
    pub rules: Vec<Rule>,
    pub boid_speed: u32,
    pub boid_turn_resistance: u32,
    pub nearby_range: i32,
}

impl<G: Geometry> BoidController<G> {
    /// The turn resistance is at least one and every heading is bounded.
    pub open spec fn wf(&self) -> bool {
        &&& self.boid_turn_resistance >= 1
        &&& headings_bounded(self.boids@)
    }

    /// The resolved, weighted direction of each rule for agent `b` with
    /// neighbours `near`, in rule order.
    pub open spec fn rule_vectors(&self, near: Seq<Boid>, b: Boid) -> Seq<Cartesian> {
        self.rules@.map_values(
            |rule: Rule|
                resolve_spec(
                    PolarVector {
                        r: rule.weight,
                        theta: direction_spec(rule, near, b, &self.geometry) as i64,
                    },
                    &self.geometry,
                ),
        )
    }

    /// The heading that the rules together ask for: one rule's own answer,
    /// or the heading of the sum of every rule's weighted direction.
    pub open spec fn target_spec(&self, near: Seq<Boid>, b: Boid) -> int {
        if self.rules@.len() == 1 {
            direction_spec(self.rules@[0], near, b, &self.geometry)
        } else {
            let v = sum_vectors(self.rule_vectors(near, b));
            heading_of(&self.geometry, v.x, v.y)
        }
    }

    /// The heading of `b` after one tick: kept when there are no rules, else
    /// one damped turn toward the target.
    pub open spec fn heading_after(&self, near: Seq<Boid>, b: Boid) -> int {
        if self.rules@.len() == 0 {
            b.angle as int
        } else {
            damp_spec(b.angle as int, self.target_spec(near, b), self.boid_turn_resistance as int)
        }
    }

    /// `b` after one tick, given its neighbours `near`, on a world of `w`
    /// by `h`: turned, then moved `boid_speed` along the new heading.
    pub open spec fn step_spec(&self, b: Boid, near: Seq<Boid>, w: int, h: int) -> Boid {
        let a = self.heading_after(near, b) as i64;
        let speed = self.boid_speed as i64;
        integrate_spec(
            b,
            a,
            self.geometry.sin_spec(a, speed),
            self.geometry.cos_spec(a, speed),
            speed,
            w,
            h,
        )
    }

    /// What one tick makes of agent `b`, whose neighbours were `near`, on a
    /// world of `w` by `h`.
    pub open spec fn advanced(&self, b: Boid, near: Seq<Boid>, nb: Boid, w: int, h: int) -> bool {
        &&& nb == self.step_spec(b, near, w, h)
        &&& 0 <= nb.x < w
        &&& 0 <= nb.y < h
        &&& -MAX_HEADING <= nb.angle <= MAX_HEADING
        &&& self.rules@.len() == 0 ==> nb.angle == b.angle
        &&& self.rules@.len() > 0 && b.angle <= self.target_spec(near, b) ==> b.angle <= nb.angle
            <= self.target_spec(near, b)
        &&& self.rules@.len() > 0 && self.target_spec(near, b) <= b.angle ==> self.target_spec(near, b)
            <= nb.angle <= b.angle
        &&& self.rules@.len() == 1 && near.len() == 0 ==> nb.angle == b.angle
    }

    /// Appends a new agent at `(x, y)` with heading `angle`; to be called
    /// between ticks.
    pub fn spawn_agent(&mut self, x: i32, y: i32, angle: i64)
        requires
            old(self).wf(),
            -MAX_HEADING <= angle <= MAX_HEADING,
        ensures
            final(self).wf(),
            final(self).boids@ == old(self).boids@.push(Boid { x, y, angle }),
            final(self).rules@ == old(self).rules@,
            final(self).boid_speed == old(self).boid_speed,
            final(self).boid_turn_resistance == old(self).boid_turn_resistance,
            final(self).nearby_range == old(self).nearby_range,
    {
        self.boids.push(Boid { x, y, angle });
        assert(headings_bounded(self.boids@)) by {
            assert forall|i: int| 0 <= i < self.boids@.len() implies -MAX_HEADING
                <= #[trigger] self.boids@[i].angle <= MAX_HEADING by {
                if i < old(self).boids@.len() {
                    assert(self.boids@[i] == old(self).boids@[i]);
                }
            }
        }
    }

    /// Whether `other_point` lies within `nearby_range` of `point`.
    pub fn points_nearby(&self, point: (i32, i32), other_point: (i32, i32)) -> (r: bool)
        ensures
            r == nearby(
                Boid { x: point.0, y: point.1, angle: 0 },
                Boid { x: other_point.0, y: other_point.1, angle: 0 },
                self.nearby_range as int,
            ),
    {
        let dx: i128 = other_point.0 as i128 - point.0 as i128;
        let dy: i128 = other_point.1 as i128 - point.1 as i128;
        let range = self.nearby_range as i128;
        assert(0 <= dx * dx <= 0x1_0000_0000 * 0x1_0000_0000) by (nonlinear_arith)
            requires
                -0x1_0000_0000 <= dx <= 0x1_0000_0000,
        ;
        assert(0 <= dy * dy <= 0x1_0000_0000 * 0x1_0000_0000) by (nonlinear_arith)
            requires
                -0x1_0000_0000 <= dy <= 0x1_0000_0000,
        ;
        assert(0 <= range * range <= 0x1_0000_0000 * 0x1_0000_0000) by (nonlinear_arith)
            requires
                -0x1_0000_0000 <= range <= 0x1_0000_0000,
        ;
        dx * dx + dy * dy <= range * range
    }

    /// The agents other than the one at `i` that lie within `nearby_range`
    /// of it, in population order.
    pub fn nearby_boids(&self, i: usize) -> (r: Vec<Boid>)
        requires
            i < self.boids@.len(),
        ensures
            r@ == neighbors(self.boids@, i as int, self.nearby_range as int),
    {
        let s = &self.boids;
        let b = s[i];
        let mut r: Vec<Boid> = Vec::new();
        let mut j: usize = 0;
        while j < s.len()
            invariant
                i < s@.len(),
                j <= s@.len(),
                s@ == self.boids@,
                b == s@[i as int],
                r@ == neighbors_prefix(s@, i as int, self.nearby_range as int, j as nat),
            decreases s@.len() - j,
        {
            let o = s[j];
            if i != j && self.points_nearby((b.x, b.y), (o.x, o.y)) {
                r.push(o);
            }
            j = j + 1;
        }
        r
    }

    /// The heading that the rules together ask for: one rule's own answer,
    /// or the angle of the sum of every rule's weighted direction.
    fn target_heading(&self, ctx: &RuleContext) -> (r: i64)
        requires
            self.rules@.len() > 0,
            ctx.wf(),
        ensures
            r == self.target_spec(ctx.nearby_boids@, ctx.boid),
            -MAX_HEADING <= r <= MAX_HEADING,
            self.rules@.len() == 1 && ctx.nearby_boids@.len() == 0 ==> r == ctx.boid.angle,
    {
        if self.rules.len() == 1 {
            return self.rules[0].direction(ctx, &self.geometry);
        }
        let ghost vs = self.rule_vectors(ctx.nearby_boids@, ctx.boid);
        let mut directions: Vec<Cartesian> = Vec::new();
        let mut j: usize = 0;
        while j < self.rules.len()
            invariant
                j <= self.rules@.len(),
                ctx.wf(),
                vs == self.rule_vectors(ctx.nearby_boids@, ctx.boid),
                directions@ == vs.take(j as int),
                forall|i: int|
                    0 <= i < directions@.len() ==> (#[trigger] directions@[i]).within(
                        DIRECTION_BOUND as int,
                    ),
            decreases self.rules@.len() - j,
        {
            let rule = self.rules[j];
            let v = PolarVector { r: rule.weight, theta: rule.direction(ctx, &self.geometry) };
            directions.push(v.resolve(&self.geometry));
            assert(directions@ == vs.take(j + 1));
            j = j + 1;
        }
        assert(vs.take(j as int) == vs);
        let sum = resultant(&directions);
        assert(directions@.len() * DIRECTION_BOUND <= COMPONENT_BOUND) by (nonlinear_arith)
            requires
                0 <= directions@.len() <= usize::MAX,
        ;
        point_to_angle(&self.geometry, sum.x, sum.y)
    }

    /// The agent of `ctx` after one tick: turned toward the rules' target
    /// heading and moved `boid_speed` along the new heading, with wraparound.
    fn update_boid(&self, ctx: RuleContext) -> (nb: Boid)
        requires
            self.wf(),
            ctx.wf(),
            ctx.canvas_w > 0,
            ctx.canvas_h > 0,
        ensures
            self.advanced(ctx.boid, ctx.nearby_boids@, nb, ctx.canvas_w as int, ctx.canvas_h as int),
    {
        let boid = ctx.boid;
        let new_angle = if self.rules.len() == 0 {
            boid.angle
        } else {
            let target = self.target_heading(&ctx);
            damp(boid.angle, target, self.boid_turn_resistance)
        };
        proof {
            if self.rules@.len() == 0 {
                assert(damp_spec(boid.angle as int, boid.angle as int, self.boid_turn_resistance as int)
                    == boid.angle);
            }
        }
        let speed = self.boid_speed as i64;
        let sin_len = self.geometry.sin_times(new_angle, speed);
        let cos_len = self.geometry.cos_times(new_angle, speed);
        integrate(boid, new_angle, sin_len, cos_len, speed, ctx.canvas_w, ctx.canvas_h)
    }

    /// One tick: every agent is updated from the same snapshot of the
    /// population, which is then replaced as a whole.
    pub fn update(&mut self, canvas_size: (u32, u32))
        requires
            old(self).wf(),
            0 < canvas_size.0 <= i32::MAX,
            0 < canvas_size.1 <= i32::MAX,
        ensures
            final(self).wf(),
            final(self).boids@.len() == old(self).boids@.len(),
            final(self).rules@ == old(self).rules@,
            final(self).boid_speed == old(self).boid_speed,
            final(self).boid_turn_resistance == old(self).boid_turn_resistance,
            final(self).nearby_range == old(self).nearby_range,
            forall|i: int|
                0 <= i < old(self).boids@.len() ==> old(self).advanced(
                    #[trigger] old(self).boids@[i],
                    neighbors(old(self).boids@, i, old(self).nearby_range as int),
                    final(self).boids@[i],
                    canvas_size.0 as int,
                    canvas_size.1 as int,
                ),
    {
        let w = canvas_size.0 as i32;
        let h = canvas_size.1 as i32;
        let mut new_boids: Vec<Boid> = Vec::new();
        let mut i: usize = 0;
        while i < self.boids.len()
            invariant
                self.wf(),
                i <= self.boids@.len(),
                w == canvas_size.0,
                h == canvas_size.1,
                w > 0,
                h > 0,
                new_boids@.len() == i,
                headings_bounded(new_boids@),
                forall|k: int|
                    0 <= k < i ==> self.advanced(
                        #[trigger] self.boids@[k],
                        neighbors(self.boids@, k, self.nearby_range as int),
                        new_boids@[k],
                        w as int,
                        h as int,
                    ),
            decreases self.boids@.len() - i,
        {
            let near = self.nearby_boids(i);
            let ctx = RuleContext { nearby_boids: near, boid: self.boids[i], canvas_w: w, canvas_h: h };
            proof {
                assert forall|k: int| 0 <= k < ctx.nearby_boids@.len() implies
                    -MAX_HEADING <= #[trigger] ctx.nearby_boids@[k].angle <= MAX_HEADING by {
                    lemma_neighbors_in(self.boids@, i as int, self.nearby_range as int, self.boids@.len(), k);
                }
            }
            let nb = self.update_boid(ctx);
            new_boids.push(nb);
            i = i + 1;
        }
        self.boids = new_boids;
    }
}

/// The order of the rules does not change the target heading: exchanging two
/// neighbouring rules leaves it as it was, so any reordering does.
pub proof fn rule_order_ignored<G: Geometry>(
    c: &BoidController<G>,
    d: &BoidController<G>,
    near: Seq<Boid>,
    b: Boid,
    i: int,
)
    requires
        0 <= i && i + 1 < c.rules@.len(),
        d.rules@ == swap_adjacent(c.rules@, i),
        d.geometry == c.geometry,
    ensures
        d.target_spec(near, b) == c.target_spec(near, b),
{
    let v = c.rule_vectors(near, b);
    assert(d.rule_vectors(near, b) == swap_adjacent(v, i));
    blend_ignores_order(v, i);
}

/// Every neighbour is an agent of the population.
proof fn lemma_neighbors_in(s: Seq<Boid>, i: int, range: int, n: nat, k: int)
    requires
        n <= s.len(),
        0 <= k < neighbors_prefix(s, i, range, n).len(),
    ensures
        exists|m: int| 0 <= m < s.len() && #[trigger] s[m] == neighbors_prefix(s, i, range, n)[k],
    decreases n,
{
    let rest = neighbors_prefix(s, i, range, (n - 1) as nat);
    if k < rest.len() {
        lemma_neighbors_in(s, i, range, (n - 1) as nat, k);
    } else {
        assert(s[n - 1] == neighbors_prefix(s, i, range, n)[k]);
    }
}

} // verus!
