use covid::motion::advance;
use covid::{Health, Person, Simulation, Vec2};
use std::time::Duration;

const LO: Vec2 = Vec2 { x: -1_000, y: -1_000 };
const HI: Vec2 = Vec2 { x: 1_000, y: 1_000 };

fn body(px: i64, py: i64, vx: i64, vy: i64) -> Person {
    Person { pos: Vec2::new(px, py), vel: Vec2::new(vx, vy), health: Health::Sick }
}

#[test]
fn displacement_rounds_toward_zero_on_either_side() {
    let half_second: u128 = 500_000_000;
    let q = advance(body(0, 0, 3, -3), LO, HI, half_second);
    assert_eq!(q.pos, Vec2::new(1, -1));
    assert_eq!(q.vel, Vec2::new(3, -3));
    let r = advance(body(0, 0, 1, -1), LO, HI, half_second);
    assert_eq!(r.pos, Vec2::new(0, 0));
    let s = advance(body(0, 0, 1, -1), LO, HI, 999_999_999);
    assert_eq!(s.pos, Vec2::new(0, 0));
    let t = advance(body(0, 0, 1, -1), LO, HI, 1_000_000_000);
    assert_eq!(t.pos, Vec2::new(1, -1));
}

#[test]
fn displacement_is_velocity_times_seconds() {
    let q = advance(body(7, -7, 20, -30), LO, HI, 2_500_000_000);
    assert_eq!(q.pos, Vec2::new(57, -82));
    assert_eq!(q.vel, Vec2::new(20, -30));
    assert_eq!(q.health, Health::Sick);
}

#[test]
fn damping_leaves_nineteen_twentieths_to_the_nearest_step() {
    let rounded_down = advance(body(1_000, 0, 13, 0), LO, HI, 1);
    assert_eq!(rounded_down.vel, Vec2::new(-12, 0));
    let rounded_up = advance(body(-1_000, 0, -25, 0), LO, HI, 1);
    assert_eq!(rounded_up.vel, Vec2::new(24, 0));
    let halfway = advance(body(1_000, 0, 30, -50), LO, HI, 1);
    assert_eq!(halfway.vel, Vec2::new(-29, -48));
    let bystander = advance(body(1_000, 0, 11, -11), LO, HI, 1);
    assert_eq!(bystander.vel, Vec2::new(-10, -10));
    let exact = advance(body(1_000, 0, 20, 40), LO, HI, 1);
    assert_eq!(exact.vel, Vec2::new(-19, 38));
    let twice = advance(body(1_000, -1_000, 13, -25), LO, HI, 1);
    assert_eq!(twice.vel, Vec2::new(-11, 23));
}

#[test]
fn the_smallest_speeds_are_turned_round_too() {
    assert_eq!(advance(body(1_000, 0, 1, 0), LO, HI, 1).vel, Vec2::new(-1, 0));
    assert_eq!(advance(body(1_000, 0, 1, 1), LO, HI, 1).vel, Vec2::new(-1, 1));
    assert_eq!(advance(body(1_000, 0, 1, -1), LO, HI, 1).vel, Vec2::new(-1, -1));
    assert_eq!(advance(body(-1_000, 0, -2, 0), LO, HI, 1).vel, Vec2::new(2, 0));
    assert_eq!(advance(body(1_000, 1_000, 1, 1), LO, HI, 1).vel, Vec2::new(-1, -1));
    assert_eq!(advance(body(1_000, 1_000, 2, 2), LO, HI, 1).vel, Vec2::new(-2, -2));
    assert_eq!(advance(body(-1_000, -1_000, -3, -3), LO, HI, 1).vel, Vec2::new(3, 3));
    assert_eq!(advance(body(1_000, 0, 10, 0), LO, HI, 1).vel, Vec2::new(-10, 0));
    assert_eq!(advance(body(1_000, 0, 11, 0), LO, HI, 1).vel, Vec2::new(-10, 0));
}

#[test]
fn a_slow_walker_is_turned_round_after_a_long_walk() {
    let walker = Person { pos: Vec2::from_units(95, 0), vel: Vec2::new(1, 0), health: Health::Healthy };
    let mut sim = Simulation::with_population(vec![walker])
        .with_bounds(Vec2::from_units(-100, -100), Vec2::from_units(100, 100))
        .unwrap();
    sim.tick_nanos(10_000_000_000_000_000);
    assert_eq!(sim.people()[0].pos, Vec2::from_units(100, 0));
    assert_eq!(sim.people()[0].vel, Vec2::new(-1, 0));
}

#[test]
fn a_wall_turns_round_whatever_comes() {
    let pushed_in = advance(body(1_000, 0, -100, 0), LO, HI, 1);
    assert_eq!(pushed_in.pos, Vec2::new(1_000, 0));
    assert_eq!(pushed_in.vel, Vec2::new(95, 0));
    let at_rest = advance(body(-1_000, 0, 0, 0), LO, HI, 1);
    assert_eq!(at_rest.pos, Vec2::new(-1_000, 0));
    assert_eq!(at_rest.vel, Vec2::new(0, 0));
}

#[test]
fn no_time_changes_nothing_even_on_a_wall() {
    let on_wall = body(1_000, -1_000, 100, -100);
    assert_eq!(advance(on_wall, LO, HI, 0), on_wall);
    let outside = body(5_000, -5_000, 100, -100);
    assert_eq!(advance(outside, LO, HI, 0), outside);
    let inside = body(12, 34, 56, 78);
    assert_eq!(advance(inside, LO, HI, 0), inside);
}

#[test]
fn the_lower_wall_wins_where_both_are_met() {
    let flat_lo = Vec2::new(5, 5);
    let flat_hi = Vec2::new(5, 5);
    let q = advance(body(5, 5, 100, 100), flat_lo, flat_hi, 1_000_000_000);
    assert_eq!(q.pos, Vec2::new(5, 5));
    assert_eq!(q.vel, Vec2::new(-90, -90));
    let turned_lo = Vec2::new(10, 10);
    let turned_hi = Vec2::new(-10, -10);
    let r = advance(body(0, 0, 0, 0), turned_lo, turned_hi, 1);
    assert_eq!(r.pos, Vec2::new(10, 10));
}

#[test]
fn the_fastest_and_the_longest_still_end_at_a_wall() {
    let whole_lo = Vec2::new(i64::MIN, i64::MIN);
    let whole_hi = Vec2::new(i64::MAX, i64::MAX);
    let q = advance(body(0, 0, i64::MIN, i64::MAX), whole_lo, whole_hi, u128::MAX);
    assert_eq!(q.pos, Vec2::new(i64::MIN, i64::MAX));
    assert_eq!(q.vel, Vec2::new(8_324_093_263_261_435_167, -8_324_093_263_261_435_166));
    let r = advance(body(i64::MAX, i64::MIN, i64::MAX, i64::MIN), LO, HI, 18_446_744_073_709_551_615_999_999_999);
    assert_eq!(r.pos, Vec2::new(1_000, -1_000));
    assert_eq!(r.vel, Vec2::new(-8_324_093_263_261_435_166, 8_324_093_263_261_435_167));
}

#[test]
fn a_single_wall_takes_a_twentieth_of_the_fastest() {
    let whole_lo = Vec2::new(i64::MIN, i64::MIN);
    let whole_hi = Vec2::new(i64::MAX, i64::MAX);
    let q = advance(body(0, 0, i64::MIN, 0), whole_lo, whole_hi, u128::MAX);
    assert_eq!(q.pos, Vec2::new(i64::MIN, 0));
    assert_eq!(q.vel, Vec2::new(8_762_203_435_012_037_018, 0));
}

#[test]
fn long_flights_are_exact_where_they_fit() {
    let whole_lo = Vec2::new(i64::MIN, i64::MIN);
    let whole_hi = Vec2::new(i64::MAX, i64::MAX);
    let century: u128 = 3_155_760_000 * 1_000_000_000 + 1;
    let q = advance(body(0, 0, 1_000_000, -2_000_000), whole_lo, whole_hi, century);
    assert_eq!(q.pos, Vec2::new(3_155_760_000_000_000, -6_311_520_000_000_000));
    assert_eq!(q.vel, Vec2::new(1_000_000, -2_000_000));
}

#[test]
fn the_edge_of_the_plane_is_a_wall() {
    let mut sim = Simulation::with_population(vec![body(i64::MAX - 5, 0, 40, 0)]);
    sim.tick(Duration::from_secs(1));
    assert_eq!(sim.people()[0].pos, Vec2::new(i64::MAX, 0));
    assert_eq!(sim.people()[0].vel, Vec2::new(-38, 0));
}
