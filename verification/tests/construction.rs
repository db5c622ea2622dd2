use covid::{BoundsError, Health, Person, Simulation, Vec2, UNIT};
use std::time::Duration;

#[test]
fn default_health_is_healthy() {
    assert_eq!(Health::default(), Health::Healthy);
}

#[test]
fn default_person_rests_healthy_at_the_origin() {
    let p = Person::default();
    assert_eq!(p.pos, Vec2::new(0, 0));
    assert_eq!(p.vel, Vec2::new(0, 0));
    assert_eq!(p.health, Health::Healthy);
}

#[test]
fn a_world_unit_is_a_million_grid_steps() {
    assert_eq!(UNIT, 1_000_000);
    assert_eq!(Vec2::from_units(3, -7), Vec2::new(3_000_000, -7_000_000));
    assert_eq!(
        Vec2::from_units(i32::MAX, i32::MIN),
        Vec2::new(2_147_483_647_000_000, -2_147_483_648_000_000)
    );
    assert_eq!(Vec2::new(5, -6).x, 5);
    assert_eq!(Vec2::new(5, -6).y, -6);
}

#[test]
fn with_population_keeps_people_and_spans_the_whole_plane() {
    let a = Person { pos: Vec2::new(1, 2), vel: Vec2::new(3, 4), health: Health::Sick };
    let b = Person { pos: Vec2::new(-1, -2), vel: Vec2::new(-3, -4), health: Health::Recovered };
    let sim = Simulation::with_population(vec![a, b]);
    assert_eq!(sim.people().len(), 2);
    assert_eq!(sim.people()[0], a);
    assert_eq!(sim.people()[1], b);
    assert_eq!(sim.lower(), Vec2::new(i64::MIN, i64::MIN));
    assert_eq!(sim.upper(), Vec2::new(i64::MAX, i64::MAX));
}

#[test]
fn with_bounds_sets_the_box_and_keeps_the_people() {
    let a = Person { pos: Vec2::new(1, 2), vel: Vec2::new(3, 4), health: Health::Sick };
    let sim = Simulation::with_population(vec![a])
        .with_bounds(Vec2::new(-5, -6), Vec2::new(7, 8))
        .unwrap();
    assert_eq!(sim.lower(), Vec2::new(-5, -6));
    assert_eq!(sim.upper(), Vec2::new(7, 8));
    assert_eq!(sim.people().len(), 1);
    assert_eq!(sim.people()[0], a);
}

#[test]
fn with_bounds_accepts_the_narrowest_box() {
    let sim = Simulation::with_population(Vec::new()).with_bounds(Vec2::new(0, 0), Vec2::new(1, 1));
    assert!(sim.is_ok());
}

#[test]
fn inverted_bounds_are_refused() {
    let on_x = Simulation::with_population(Vec::new()).with_bounds(Vec2::new(1, 0), Vec2::new(0, 5));
    assert_eq!(on_x.err(), Some(BoundsError::Inverted));
    let on_y = Simulation::with_population(Vec::new()).with_bounds(Vec2::new(0, 5), Vec2::new(5, 4));
    assert_eq!(on_y.err(), Some(BoundsError::Inverted));
    let on_both = Simulation::sample_set().with_bounds(Vec2::from_units(100, 100), Vec2::from_units(-100, -100));
    assert_eq!(on_both.err(), Some(BoundsError::Inverted));
}

#[test]
fn inverted_wins_over_degenerate() {
    let r = Simulation::with_population(Vec::new()).with_bounds(Vec2::new(3, 9), Vec2::new(3, 8));
    assert_eq!(r.err(), Some(BoundsError::Inverted));
}

#[test]
fn degenerate_bounds_are_refused() {
    let flat_x = Simulation::with_population(Vec::new()).with_bounds(Vec2::new(3, 0), Vec2::new(3, 8));
    assert_eq!(flat_x.err(), Some(BoundsError::Degenerate));
    let flat_y = Simulation::with_population(Vec::new()).with_bounds(Vec2::new(0, 8), Vec2::new(3, 8));
    assert_eq!(flat_y.err(), Some(BoundsError::Degenerate));
    let point = Simulation::sample_set().with_bounds(Vec2::new(0, 0), Vec2::new(0, 0));
    assert_eq!(point.err(), Some(BoundsError::Degenerate));
}

#[test]
fn a_clone_is_a_world_of_its_own() {
    let mut first = Simulation::sample_set();
    let copy = first.clone();
    first.tick(Duration::from_secs(1));
    assert_eq!(copy.lower(), first.lower());
    assert_eq!(copy.upper(), first.upper());
    assert_eq!(copy.people().len(), 1);
    assert_eq!(copy.people()[0].pos, Vec2::new(0, 0));
    assert_eq!(first.people()[0].pos, Vec2::from_units(10, 10));
}

#[test]
fn people_outside_a_new_box_are_brought_in_by_the_next_tick() {
    let far = Person { pos: Vec2::from_units(500, -500), vel: Vec2::new(0, 0), health: Health::Healthy };
    let mut sim = Simulation::with_population(vec![far])
        .with_bounds(Vec2::from_units(-100, -100), Vec2::from_units(100, 100))
        .unwrap();
    assert_eq!(sim.people()[0].pos, Vec2::from_units(500, -500));
    sim.tick_nanos(1);
    assert_eq!(sim.people()[0].pos, Vec2::from_units(100, -100));
    assert_eq!(sim.people()[0].vel, Vec2::new(0, 0));
}
