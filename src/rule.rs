use vstd::prelude::*;

use crate::boids::{headings_bounded, Boid, MAX_HEADING};
use crate::utils::{heading_of, point_to_angle, Cartesian, Geometry, COMPONENT_BOUND, HALF_TURN};

verus! {

/// What one rule sees of the world while one agent is updated: owned copies,
/// built fresh for that agent and dropped after it.
pub struct RuleContext {
    pub nearby_boids: Vec<Boid>,
    pub boid: Boid,
    pub canvas_w: i32,
    pub canvas_h: i32,
}

impl RuleContext {
    /// Every heading in the context lies within `MAX_HEADING` of zero.
    pub open spec fn wf(&self) -> bool {
        &&& headings_bounded(self.nearby_boids@)
        &&& -MAX_HEADING <= self.boid.angle <= MAX_HEADING
    }
}

/// The steering behaviours that a rule can name.
#[derive(Clone, Copy, Debug, PartialEq, Eq, Structural)]
pub enum Steering {
    Separation,
    Alignment,
    Cohesion,
}

/// A steering behaviour with its weight, relative to the other rules.
#[derive(Clone, Copy, Debug, PartialEq, Eq, Structural)]
pub struct Rule {
    pub dir_fn: Steering,
    pub weight: u32,
}

/// Sum over `s` of the x offsets from `x0` to each agent.
pub open spec fn sum_dx(s: Seq<Boid>, x0: int) -> int
    decreases s.len(),
{
    if s.len() == 0 {
        0
    } else {
        sum_dx(s.drop_last(), x0) + (s.last().x - x0)
    }
}

/// Sum over `s` of the y offsets from `y0` to each agent.
pub open spec fn sum_dy(s: Seq<Boid>, y0: int) -> int
    decreases s.len(),
{
    if s.len() == 0 {
        0
    } else {
        sum_dy(s.drop_last(), y0) + (s.last().y - y0)
    }
}

/// Sum of the headings in `s`.
pub open spec fn sum_angles(s: Seq<Boid>) -> int
    decreases s.len(),
{
    if s.len() == 0 {
        0
    } else {
        sum_angles(s.drop_last()) + s.last().angle
    }
}

/// Mean heading of the agents in `s` (floor of the plain scalar mean), or
/// `own` when there are none.
pub open spec fn mean_heading(s: Seq<Boid>, own: int) -> int {
    if s.len() == 0 {
        own
    } else {
        sum_angles(s) / (s.len() as int)
    }
}

/// What separation asks for of an agent `b` with neighbours `s`: the heading
/// opposite to the summed offsets toward them, or `b`'s own heading.
pub open spec fn separation_spec<G: Geometry>(s: Seq<Boid>, b: Boid, geometry: &G) -> int {
    if s.len() == 0 {
        b.angle as int
    } else {
        heading_of(geometry, sum_dx(s, b.x as int) as i128, sum_dy(s, b.y as int) as i128) + HALF_TURN
    }
}

/// What cohesion asks for of an agent `b` with neighbours `s`: the heading
/// of the summed offsets toward them, which points at their centroid, or
/// `b`'s own heading.
pub open spec fn cohesion_spec<G: Geometry>(s: Seq<Boid>, b: Boid, geometry: &G) -> int {
    if s.len() == 0 {
        b.angle as int
    } else {
        heading_of(geometry, sum_dx(s, b.x as int) as i128, sum_dy(s, b.y as int) as i128)
    }
}

/// What `rule` asks for of an agent `b` with neighbours `s`.
pub open spec fn direction_spec<G: Geometry>(rule: Rule, s: Seq<Boid>, b: Boid, geometry: &G) -> int {
    match rule.dir_fn {
        Steering::Separation => separation_spec(s, b, geometry),
        Steering::Alignment => mean_heading(s, b.angle as int),
        Steering::Cohesion => cohesion_spec(s, b, geometry),
    }
}

/// What alignment asks for in `ctx`.
pub open spec fn alignment_spec(ctx: RuleContext) -> int {
    mean_heading(ctx.nearby_boids@, ctx.boid.angle as int)
}

/// The sum of the offsets from the agent to each neighbour. It points from
/// the agent toward the neighbours' centroid: it is the centroid's offset
/// times the number of neighbours.
pub fn neighbor_offset(ctx: &RuleContext) -> (c: Cartesian)
    ensures
        c.x == sum_dx(ctx.nearby_boids@, ctx.boid.x as int),
        c.y == sum_dy(ctx.nearby_boids@, ctx.boid.y as int),
        c.within(ctx.nearby_boids@.len() as int * 0x1_0000_0000),
{
    let s = &ctx.nearby_boids;
    let x0 = ctx.boid.x as i128;
    let y0 = ctx.boid.y as i128;
    let mut sx: i128 = 0;
    let mut sy: i128 = 0;
    let mut j: usize = 0;
    while j < s.len()
        invariant
            j <= s@.len(),
            x0 == ctx.boid.x,
            y0 == ctx.boid.y,
            s@ == ctx.nearby_boids@,
            sx == sum_dx(s@.take(j as int), x0 as int),
            sy == sum_dy(s@.take(j as int), y0 as int),
            -(j as int) * 0x1_0000_0000 <= sx <= (j as int) * 0x1_0000_0000,
            -(j as int) * 0x1_0000_0000 <= sy <= (j as int) * 0x1_0000_0000,
        decreases s@.len() - j,
    {
        assert(s@.take(j + 1).drop_last() == s@.take(j as int));
        sx = sx + (s[j].x as i128 - x0);
        sy = sy + (s[j].y as i128 - y0);
        j = j + 1;
    }
    assert(s@.take(j as int) == s@);
    assert(j as int * 0x1_0000_0000 <= COMPONENT_BOUND) by (nonlinear_arith)
        requires
            0 <= j <= usize::MAX,
    ;
    Cartesian { x: sx, y: sy }
}

/// Steer away from crowding: the direction opposite to the sum of the
/// offsets toward the neighbours, or the current heading when there are none.
pub fn separation<G: Geometry>(ctx: &RuleContext, geometry: &G) -> (r: i64)
    ensures
        r == separation_spec(ctx.nearby_boids@, ctx.boid, geometry),
        ctx.nearby_boids@.len() == 0 ==> r == ctx.boid.angle,
        ctx.nearby_boids@.len() > 0 ==> 0 <= r <= 2 * HALF_TURN,
{
    if ctx.nearby_boids.len() == 0 {
        ctx.boid.angle
    } else {
        let d = neighbor_offset(ctx);
        point_to_angle(geometry, d.x, d.y) + HALF_TURN
    }
}

/// Steer toward the neighbours' average heading, or keep the current heading
/// when there are none. The average is the plain mean of the angles, rounded
/// down, with no circular correction.
pub fn alignment(ctx: &RuleContext) -> (r: i64)
    requires
        ctx.wf(),
    ensures
        r == alignment_spec(*ctx),
        -MAX_HEADING <= r <= MAX_HEADING,
{
    let s = &ctx.nearby_boids;
    if s.len() == 0 {
        return ctx.boid.angle;
    }
    let mut sum: i128 = 0;
    let mut j: usize = 0;
    while j < s.len()
        invariant
            j <= s@.len(),
            s@ == ctx.nearby_boids@,
            headings_bounded(s@),
            sum == sum_angles(s@.take(j as int)),
            -(j as int) * MAX_HEADING <= sum <= (j as int) * MAX_HEADING,
        decreases s@.len() - j,
    {
        assert(s@.take(j + 1).drop_last() == s@.take(j as int));
        sum = sum + s[j].angle as i128;
        j = j + 1;
    }
    assert(s@.take(j as int) == s@);
    let n = s.len() as i128;
    let mean = match sum.checked_div_euclid(n) {
        Some(q) => q,
        None => 0,
    };
    proof {
        let m = sum as int / n as int;
        assert(n * m <= sum < n * m + n) by {
            vstd::arithmetic::div_mod::lemma_fundamental_div_mod(sum as int, n as int);
        }
        assert(-MAX_HEADING <= m <= MAX_HEADING) by (nonlinear_arith)
            requires
                n * m <= sum < n * m + n,
                -n * MAX_HEADING <= sum <= n * MAX_HEADING,
                n > 0,
        ;
    }
    mean as i64
}

/// Steer toward the neighbours' centroid, or keep the current heading when
/// there are none (rather than turn toward the origin).
pub fn cohesion<G: Geometry>(ctx: &RuleContext, geometry: &G) -> (r: i64)
    ensures
        r == cohesion_spec(ctx.nearby_boids@, ctx.boid, geometry),
        ctx.nearby_boids@.len() == 0 ==> r == ctx.boid.angle,
        ctx.nearby_boids@.len() > 0 ==> -HALF_TURN <= r <= HALF_TURN,
{
    if ctx.nearby_boids.len() == 0 {
        ctx.boid.angle
    } else {
        let d = neighbor_offset(ctx);
        point_to_angle(geometry, d.x, d.y)
    }
}

impl Rule {
    /// The heading that this rule asks for.
    pub fn direction<G: Geometry>(&self, ctx: &RuleContext, geometry: &G) -> (r: i64)
        requires
            ctx.wf(),
        ensures
            -MAX_HEADING <= r <= MAX_HEADING,
            ctx.nearby_boids@.len() == 0 ==> r == ctx.boid.angle,
            r == direction_spec(*self, ctx.nearby_boids@, ctx.boid, geometry),
    {
        match self.dir_fn {
            Steering::Separation => separation(ctx, geometry),
            Steering::Alignment => alignment(ctx),
            Steering::Cohesion => cohesion(ctx, geometry),
        }
    }
}

} // verus!
