//! One simulated individual.

use vstd::prelude::*;
use crate::health::Health;
use crate::vector::{Point, Vec2};

verus! {

/// A person of the simulated population: a plain value without behaviour of
/// its own.
#[derive(Copy, Clone, Debug, PartialEq, Eq, Structural)]
pub struct Person {
    /// Location in the simulated world.
    pub pos: Vec2,
    /// Combined speed and direction, per second.
    pub vel: Vec2,
    /// Standing with respect to the virus.
    pub health: Health,
}

/// What a [`Person`] stands for in contracts.
pub struct PersonView {
    pub pos: Point,
    pub vel: Point,
    pub health: Health,
}

impl View for Person {
    type V = PersonView;

    open spec fn view(&self) -> PersonView {
        PersonView { pos: self.pos@, vel: self.vel@, health: self.health }
    }
}

impl Default for Person {
    /// A healthy person at rest at the origin.
    fn default() -> (p: Person)
        ensures
            p.pos == (Vec2 { x: 0, y: 0 }),
            p.vel == (Vec2 { x: 0, y: 0 }),
            p.health == Health::Healthy,
    {
        Person { pos: Vec2::new(0, 0), vel: Vec2::new(0, 0), health: Health::Healthy }
    }
}

} // verus!
