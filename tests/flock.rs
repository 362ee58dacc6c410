use boids::boids::{damp, integrate, wrap_coordinate, Boid, BoidController, MAX_HEADING};
use boids::rule::{alignment, cohesion, neighbor_offset, separation, Rule, RuleContext, Steering};
use boids::utils::{clamp, combine, point_to_angle, resultant, Cartesian, Geometry, PolarVector, HALF_TURN};

const MICRO: f64 = 1_000_000.0;

struct FloatGeometry;

impl Geometry for FloatGeometry {
    fn angle_spec(&self, x: i128, y: i128) -> i64 {
        self.angle_of(x, y)
    }

    fn sin_spec(&self, angle: i64, len: i64) -> i64 {
        self.sin_times(angle, len)
    }

    fn cos_spec(&self, angle: i64, len: i64) -> i64 {
        self.cos_times(angle, len)
    }

    fn angle_of(&self, x: i128, y: i128) -> i64 {
        ((y as f64).atan2(x as f64) * MICRO).round() as i64
    }

    fn sin_times(&self, angle: i64, len: i64) -> i64 {
        ((angle as f64 / MICRO).sin() * len as f64) as i64
    }

    fn cos_times(&self, angle: i64, len: i64) -> i64 {
        ((angle as f64 / MICRO).cos() * len as f64) as i64
    }
}

fn boid(x: i32, y: i32, angle: i64) -> Boid {
    Boid { x, y, angle }
}

fn rule(dir_fn: Steering, weight: u32) -> Rule {
    Rule { dir_fn, weight }
}

fn controller(boids: Vec<Boid>, rules: Vec<Rule>, resistance: u32) -> BoidController<FloatGeometry> {
    BoidController {
        boids,
        geometry: FloatGeometry,
        rules,
        boid_speed: 10,
        boid_turn_resistance: resistance,
        nearby_range: 32,
    }
}

fn context(near: Vec<Boid>, me: Boid) -> RuleContext {
    RuleContext { nearby_boids: near, boid: me, canvas_w: 600, canvas_h: 400 }
}

fn all_rules() -> Vec<Rule> {
    vec![
        rule(Steering::Separation, 1),
        rule(Steering::Alignment, 1),
        rule(Steering::Cohesion, 1),
    ]
}

#[test]
fn population_size_kept() {
    let mut c = controller(
        vec![boid(10, 10, 0), boid(20, 15, 1_000_000), boid(300, 200, -2_000_000), boid(25, 5, 4_000_000)],
        all_rules(),
        5,
    );
    for _ in 0..10 {
        c.update((600, 400));
        assert_eq!(c.boids.len(), 4);
    }
    c.spawn_agent(1, 2, 3);
    c.update((600, 400));
    assert_eq!(c.boids.len(), 5);
}

#[test]
fn neighbor_relation_is_symmetric() {
    let c = controller(vec![], vec![], 1);
    let points = [(0, 0), (32, 0), (0, -32), (20, 25), (23, 23), (-5, 40), (100, 100)];
    for a in points.iter() {
        for b in points.iter() {
            assert_eq!(c.points_nearby(*a, *b), c.points_nearby(*b, *a));
        }
    }
    assert!(c.points_nearby((0, 0), (20, 24)));
    assert!(!c.points_nearby((0, 0), (23, 23)));
}

#[test]
fn empty_rules_keep_headings() {
    let mut c = controller(vec![boid(100, 100, 0), boid(110, 100, 2_500_000), boid(105, 90, -7_000_000)], vec![], 5);
    c.update((600, 400));
    assert_eq!(c.boids[0].angle, 0);
    assert_eq!(c.boids[1].angle, 2_500_000);
    assert_eq!(c.boids[2].angle, -7_000_000);
    // heading 0 moves straight up by the speed
    assert_eq!((c.boids[0].x, c.boids[0].y), (100, 90));
}

#[test]
fn isolated_agent_keeps_heading() {
    let me = boid(50, 60, 1_234_567);
    let ctx = context(vec![], me);
    assert_eq!(separation(&ctx, &FloatGeometry), 1_234_567);
    assert_eq!(alignment(&ctx), 1_234_567);
    assert_eq!(cohesion(&ctx, &FloatGeometry), 1_234_567);
}

#[test]
fn wraparound_stays_in_bounds() {
    assert_eq!(wrap_coordinate(5, -10, 400), 395);
    assert_eq!(wrap_coordinate(595, 10, 600), 5);
    assert_eq!(wrap_coordinate(-7, -100, 50), 43);
    assert_eq!(wrap_coordinate(i32::MAX, i64::MAX, 7), ((i32::MAX as i128 + i64::MAX as i128) % 7) as i32);
    for v in [-1000, -1, 0, 1, 399, 400, 1000] {
        for d in [-450, -10, 0, 10, 450] {
            let r = wrap_coordinate(v, d, 400);
            assert!(0 <= r && r < 400);
        }
    }
    let mut c = controller(vec![boid(3, 2, 0), boid(599, 399, 1_570_796)], vec![], 1);
    c.update((600, 400));
    assert_eq!((c.boids[0].x, c.boids[0].y), (3, 392));
    assert!(c.boids[1].x >= 0 && c.boids[1].x < 600);
    assert!(c.boids[1].y >= 0 && c.boids[1].y < 400);
}

#[test]
fn combining_commutes() {
    let a = PolarVector { r: 3, theta: 500_000 }.resolve(&FloatGeometry);
    let b = PolarVector { r: 1, theta: -2_000_000 }.resolve(&FloatGeometry);
    assert_eq!(combine(a, b), combine(b, a));
    let s = combine(Cartesian { x: 1, y: -2 }, Cartesian { x: 10, y: 20 });
    assert_eq!(s, Cartesian { x: 11, y: 18 });
}

#[test]
fn agents_exactly_at_range_are_neighbors() {
    let c = controller(vec![boid(0, 0, 0), boid(32, 0, 0)], vec![], 1);
    assert!(c.points_nearby((0, 0), (32, 0)));
    assert!(c.points_nearby((32, 0), (0, 0)));
    assert_eq!(c.nearby_boids(0), vec![boid(32, 0, 0)]);
    assert_eq!(c.nearby_boids(1), vec![boid(0, 0, 0)]);
    let far = controller(vec![boid(0, 0, 0), boid(33, 0, 0)], vec![], 1);
    assert!(far.nearby_boids(0).is_empty());
}

#[test]
fn lone_agent_with_separation_goes_straight() {
    let mut c = controller(vec![boid(100, 100, 0)], vec![rule(Steering::Separation, 1)], 5);
    c.update((600, 400));
    assert_eq!(c.boids[0], boid(100, 90, 0));
    let mut top = controller(vec![boid(100, 5, 0)], vec![rule(Steering::Separation, 1)], 5);
    top.update((600, 400));
    assert_eq!(top.boids[0], boid(100, 395, 0));
}

fn screen_heading(dx: f64, dy: f64) -> i64 {
    (dx.atan2(-dy) * MICRO).round() as i64
}

#[test]
fn cohesion_turns_toward_centroid() {
    let start = vec![boid(100, 100, 0), boid(110, 104, 2_000_000), boid(103, 112, -1_000_000)];
    let mut c = controller(start.clone(), vec![rule(Steering::Cohesion, 1)], 1);
    c.update((600, 400));
    for i in 0..3 {
        let others: Vec<&Boid> = start.iter().enumerate().filter(|(j, _)| *j != i).map(|(_, b)| b).collect();
        let cx = others.iter().map(|b| b.x as f64).sum::<f64>() / 2.0;
        let cy = others.iter().map(|b| b.y as f64).sum::<f64>() / 2.0;
        let expected = screen_heading(cx - start[i].x as f64, cy - start[i].y as f64);
        assert!((c.boids[i].angle - expected).abs() <= 1, "agent {}: {} vs {}", i, c.boids[i].angle, expected);
    }
}

#[test]
fn point_to_angle_uses_screen_headings() {
    let g = FloatGeometry;
    assert_eq!(point_to_angle(&g, 0, -5), 0);
    assert_eq!(point_to_angle(&g, 5, 0), 1_570_796);
    assert_eq!(point_to_angle(&g, 0, 5), HALF_TURN);
    assert_eq!(point_to_angle(&g, -5, 0), -1_570_796);
}

#[test]
fn separation_points_away() {
    let me = boid(0, 0, 0);
    let ctx = context(vec![boid(10, 0, 0), boid(6, 0, 0)], me);
    assert_eq!(neighbor_offset(&ctx), Cartesian { x: 16, y: 0 });
    assert_eq!(separation(&ctx, &FloatGeometry), 1_570_796 + HALF_TURN);
    assert_eq!(cohesion(&ctx, &FloatGeometry), 1_570_796);
}

#[test]
fn alignment_is_floor_of_mean() {
    let me = boid(0, 0, 7);
    assert_eq!(alignment(&context(vec![boid(1, 1, 100), boid(2, 2, 201)], me)), 150);
    assert_eq!(alignment(&context(vec![boid(1, 1, -1), boid(2, 2, -2)], me)), -2);
    assert_eq!(alignment(&context(vec![boid(1, 1, MAX_HEADING), boid(2, 2, MAX_HEADING)], me)), MAX_HEADING);
}

#[test]
fn damping_moves_a_fraction_of_the_way() {
    assert_eq!(damp(0, 100, 5), 20);
    assert_eq!(damp(0, -101, 5), -21);
    assert_eq!(damp(10, 10, 3), 10);
    assert_eq!(damp(-50, 50, 1), 50);
    assert_eq!(damp(1_000, 0, 4), 750);
}

#[test]
fn two_rules_blend_between_their_headings() {
    let mut c = controller(
        vec![boid(0, 0, 0), boid(10, 0, 1_000_000)],
        vec![rule(Steering::Alignment, 1), rule(Steering::Cohesion, 1)],
        1,
    );
    c.update((600, 400));
    let (a, b) = (1.0f64, 1.570796f64);
    let expected = ((a.sin() + b.sin()).atan2(a.cos() + b.cos()) * MICRO).round() as i64;
    assert!((c.boids[0].angle - expected).abs() <= 2, "{} vs {}", c.boids[0].angle, expected);
}

#[test]
fn polar_vector_builders() {
    let v = PolarVector::from((4, 9)).set_r(2).set_theta(-3);
    assert_eq!(v, PolarVector { r: 2, theta: -3 });
    assert_eq!(PolarVector { r: 1, theta: 0 }.resolve(&FloatGeometry), Cartesian { x: 0, y: -1_000_000 });
    assert_eq!(PolarVector { r: 2, theta: HALF_TURN }.resolve(&FloatGeometry).y, 1_999_999);
}

#[test]
fn clamp_holds_to_range() {
    assert_eq!(clamp(5, 0, 3), 3);
    assert_eq!(clamp(-5, 0, 3), 0);
    assert_eq!(clamp(2, 0, 3), 2);
}

#[test]
fn rule_direction_dispatches() {
    let ctx = context(vec![boid(1, 1, 300)], boid(0, 0, 0));
    assert_eq!(rule(Steering::Alignment, 1).direction(&ctx, &FloatGeometry), 300);
    let offset = point_to_angle(&FloatGeometry, 1, 1);
    assert_eq!(rule(Steering::Cohesion, 1).direction(&ctx, &FloatGeometry), offset);
    assert_eq!(rule(Steering::Separation, 1).direction(&ctx, &FloatGeometry), offset + HALF_TURN);
}

#[test]
fn integrate_moves_and_wraps() {
    assert_eq!(integrate(boid(100, 5, 3), 0, 0, 10, 10, 600, 400), boid(100, 395, 0));
    assert_eq!(integrate(boid(0, 0, 0), 7, 50, -50, 10, 600, 400), boid(10, 10, 7));
    assert_eq!(integrate(boid(598, 200, 0), 1, 6, 0, 10, 600, 400), boid(4, 200, 1));
}

#[test]
fn resultant_adds_every_direction() {
    let v = vec![Cartesian { x: 3, y: -4 }, Cartesian { x: -10, y: 1 }, Cartesian { x: 2, y: 2 }];
    assert_eq!(resultant(&v), Cartesian { x: -5, y: -1 });
    assert_eq!(resultant(&vec![]), Cartesian { x: 0, y: 0 });
}

#[test]
fn alignment_only_tick_is_exact() {
    let mut c = controller(vec![boid(0, 0, 0), boid(10, 0, 1_000)], vec![rule(Steering::Alignment, 1)], 2);
    c.update((600, 400));
    assert_eq!(c.boids[0].angle, 500);
    assert_eq!(c.boids[1].angle, 500);
}

#[test]
fn point_to_angle_worked_examples() {
    assert_eq!(point_to_angle(&FloatGeometry, 0, 1), HALF_TURN);
    assert_eq!(point_to_angle(&FloatGeometry, 0, 0), 0);
}

#[test]
fn separation_and_cohesion_with_neighbours() {
    let me = boid(50, 50, 123);
    let one = context(vec![boid(50, 40, 0)], me);
    assert_eq!(cohesion(&one, &FloatGeometry), 0);
    assert_eq!(separation(&one, &FloatGeometry), HALF_TURN);
    let two = context(vec![boid(60, 50, 0), boid(50, 60, 0)], me);
    let toward = screen_heading(5.0, 5.0);
    assert_eq!(cohesion(&two, &FloatGeometry), toward);
    assert_eq!(separation(&two, &FloatGeometry), toward + HALF_TURN);
    let stacked = context(vec![boid(60, 50, 0), boid(60, 50, 0), boid(60, 50, 0)], me);
    assert_eq!(cohesion(&stacked, &FloatGeometry), 1_570_796);
}

#[test]
fn three_close_agents_turn_to_centroid() {
    let mut c = controller(vec![boid(8, 16, 0), boid(10, 16, 0), boid(8, 18, 0)], vec![rule(Steering::Cohesion, 1)], 1);
    c.update((600, 400));
    assert_eq!(c.boids[0].angle, screen_heading(1.0, 1.0));
    assert_eq!(c.boids[1].angle, screen_heading(-2.0, 1.0));
    assert_eq!(c.boids[2].angle, screen_heading(1.0, -2.0));
}

#[test]
fn rule_order_does_not_change_the_blend() {
    let start = vec![boid(0, 0, 0), boid(10, 3, 1_000_000), boid(4, 12, -500_000)];
    let mut a = controller(start.clone(), all_rules(), 3);
    let mut reversed = all_rules();
    reversed.reverse();
    let mut b = controller(start, reversed, 3);
    a.update((600, 400));
    b.update((600, 400));
    assert_eq!(a.boids, b.boids);
}
