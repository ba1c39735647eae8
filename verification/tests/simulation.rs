use gravisim::body::Body;
use gravisim::simulation::{accumulate_gravity, integrate, step};
use nalgebra::Vector2;

type Vec2 = Vector2<f32>;

const G: f32 = 0.0005;

fn mass_of(density: f32, radius: f32) -> f32 {
    density * radius * radius
}

fn pull(this: &Body<Vec2, f32>, other: &Body<Vec2, f32>) -> Option<Vec2> {
    let dir = other.pos - this.pos;
    let dist_sq = dir.norm_squared();
    if dist_sq < 1.0 {
        return None;
    }
    let force_mag = G * this.mass * other.mass / dist_sq;
    let force = dir.normalize() * force_mag;
    Some(this.vel + force / this.mass)
}

fn body_at(x: f32, y: f32) -> Body<Vec2, f32> {
    Body::new(Vec2::new(x, y), Vec2::new(0.0, 0.0), 1.0, 50.0, mass_of)
}

// A body whose mass is a tag and whose velocity records, digit by digit, the
// tags of the bodies that pulled it.
fn tagged(tag: u64) -> Body<u64, u64> {
    Body::new(0, 0, tag, 0, |density: u64, _size: u64| density)
}

fn record(this: &Body<u64, u64>, other: &Body<u64, u64>) -> Option<u64> {
    Some(this.vel * 10 + other.mass)
}

#[test]
fn each_body_is_pulled_by_the_bodies_after_it_in_order() {
    let mut bodies = vec![tagged(1), tagged(2), tagged(3), tagged(4)];
    accumulate_gravity(&mut bodies, record);
    let pulled_by: Vec<u64> = bodies.iter().map(|b| b.vel).collect();
    assert_eq!(pulled_by, vec![234, 34, 4, 0]);
    let tags: Vec<u64> = bodies.iter().map(|b| b.mass).collect();
    assert_eq!(tags, vec![1, 2, 3, 4]);
}

#[test]
fn skipped_pairs_leave_no_trace() {
    let mut bodies = vec![tagged(1), tagged(2), tagged(3), tagged(4)];
    accumulate_gravity(&mut bodies, |this: &Body<u64, u64>, other: &Body<u64, u64>| {
        if (this.mass + other.mass) % 2 == 0 {
            None
        } else {
            record(this, other)
        }
    });
    let pulled_by: Vec<u64> = bodies.iter().map(|b| b.vel).collect();
    assert_eq!(pulled_by, vec![24, 3, 4, 0]);
}

#[test]
fn gravity_pass_over_no_body_or_one_body_changes_nothing() {
    let mut none: Vec<Body<Vec2, f32>> = Vec::new();
    accumulate_gravity(&mut none, pull);
    assert!(none.is_empty());
    let mut one = vec![body_at(3.0, 4.0)];
    accumulate_gravity(&mut one, pull);
    assert_eq!(one, vec![body_at(3.0, 4.0)]);
}

#[test]
fn gravity_pulls_only_the_first_body_of_a_pair() {
    let mut bodies = vec![body_at(0.0, 0.0), body_at(10.0, 0.0)];
    accumulate_gravity(&mut bodies, pull);
    assert!((bodies[0].vel.x - 0.0125).abs() < 1e-7);
    assert_eq!(bodies[0].vel.y, 0.0);
    assert_eq!(bodies[0].pos, Vec2::new(0.0, 0.0));
    assert_eq!(bodies[1], body_at(10.0, 0.0));
}

#[test]
fn gravity_adds_up_the_pulls_of_all_later_bodies() {
    let mut bodies = vec![body_at(0.0, 0.0), body_at(10.0, 0.0), body_at(0.0, 20.0)];
    accumulate_gravity(&mut bodies, pull);
    // G * 2500 / 100 along x, then G * 2500 / 400 along y
    assert!((bodies[0].vel.x - 0.0125).abs() < 1e-7);
    assert!((bodies[0].vel.y - 0.003125).abs() < 1e-7);
    // the second body is pulled by the third alone, at distance sqrt(500)
    let toward_third = Vec2::new(-10.0, 20.0).normalize() * (G * 2500.0 / 500.0);
    assert!((bodies[1].vel - toward_third).norm() < 1e-7);
    assert_eq!(bodies[2], body_at(0.0, 20.0));
}

#[test]
fn bodies_closer_than_one_unit_do_not_pull() {
    let mut bodies = vec![body_at(0.0, 0.0), body_at(0.5, 0.5), body_at(0.0, 0.9)];
    let before = bodies.clone();
    accumulate_gravity(&mut bodies, pull);
    assert_eq!(bodies, before);
}

#[test]
fn integrator_moves_every_body_once() {
    let dt = 0.5f32;
    let mut bodies = vec![
        Body::new(Vec2::new(0.0, 0.0), Vec2::new(10.0, 0.0), 1.0, 50.0, mass_of),
        Body::new(Vec2::new(1.0, 1.0), Vec2::new(-2.0, 4.0), 1.0, 50.0, mass_of),
        Body::new(Vec2::new(7.0, 7.0), Vec2::new(0.0, 0.0), 1.0, 50.0, mass_of),
    ];
    integrate(&mut bodies, |b: &Body<Vec2, f32>| b.pos + b.vel * dt);
    assert_eq!(bodies[0].pos, Vec2::new(5.0, 0.0));
    assert_eq!(bodies[0].vel, Vec2::new(10.0, 0.0));
    assert_eq!(bodies[1].pos, Vec2::new(0.0, 3.0));
    assert_eq!(bodies[1].vel, Vec2::new(-2.0, 4.0));
    assert_eq!(bodies[2].pos, Vec2::new(7.0, 7.0));
}

#[test]
fn integrator_with_zero_dt_moves_nothing() {
    let mut bodies = vec![Body::new(Vec2::new(1.0, 2.0), Vec2::new(3.0, 4.0), 1.0, 5.0, mass_of)];
    let before = bodies.clone();
    integrate(&mut bodies, |b: &Body<Vec2, f32>| b.pos + b.vel * 0.0);
    assert_eq!(bodies, before);
}

#[test]
fn step_pulls_first_and_moves_with_the_new_velocity() {
    let mut bodies = vec![tagged(1), tagged(2), tagged(3)];
    step(&mut bodies, record, |b: &Body<u64, u64>| b.pos + b.vel);
    let velocities: Vec<u64> = bodies.iter().map(|b| b.vel).collect();
    let positions: Vec<u64> = bodies.iter().map(|b| b.pos).collect();
    assert_eq!(velocities, vec![23, 3, 0]);
    assert_eq!(positions, vec![23, 3, 0]);
}

#[test]
fn step_keeps_count_mass_radius_and_color() {
    let mut bodies = vec![body_at(0.0, 0.0), body_at(10.0, 0.0), body_at(0.0, 20.0)];
    let before = bodies.clone();
    step(&mut bodies, pull, |b: &Body<Vec2, f32>| b.pos + b.vel * 0.016);
    assert_eq!(bodies.len(), 3);
    for (now, then) in bodies.iter().zip(before.iter()) {
        assert_eq!(now.mass, then.mass);
        assert_eq!(now.radius, then.radius);
        assert_eq!(now.color, then.color);
    }
    assert!(bodies[0].pos != before[0].pos);
    assert_eq!(bodies[2], before[2]);
}
