//! The simulated world: a box and the people who move in it.

use std::time::Duration;
use vstd::prelude::*;
use crate::clock::{length_in_nanoseconds, nanoseconds};
use crate::health::Health;
use crate::motion::{advance, step};
use crate::person::{Person, PersonView};
use crate::vector::{Point, Vec2, UNIT};

verus! {

/// Why a pair of corners does not span a box.
#[derive(Copy, Clone, Debug, PartialEq, Eq, Structural)]
pub enum BoundsError {
    /// On some axis the lower corner lies beyond the upper one.
    Inverted,
    /// No axis is inverted, but on some axis the two corners coincide.
    Degenerate,
}

/// What a [`Simulation`] stands for in contracts.
pub struct SimulationView {
    /// Lower left-hand corner of the world.
    pub lower: Point,
    /// Upper right-hand corner of the world.
    pub upper: Point,
    /// The people, in the order in which they were given.
    pub people: Seq<PersonView>,
}

/// What each of `people` stands for, in the same order.
pub open spec fn views(people: Seq<Person>) -> Seq<PersonView> {
    people.map_values(|p: Person| p@)
}

/// Whether `lower` and `upper` span a box with an inside on both axes.
pub open spec fn spans_box(lower: Point, upper: Point) -> bool {
    lower.x < upper.x && lower.y < upper.y
}

impl SimulationView {
    /// The corners span a box.
    pub open spec fn well_formed(self) -> bool {
        spans_box(self.lower, self.upper)
    }

    /// The world after `dt` nanoseconds: the same box, and each person moved
    /// by [`step`] on its own.
    pub open spec fn after(self, dt: nat) -> SimulationView {
        SimulationView {
            lower: self.lower,
            upper: self.upper,
            people: self.people.map_values(|p: PersonView| step(p, self.lower, self.upper, dt)),
        }
    }
}

/// A box in the plane and the people who move in it.
#[derive(Debug)]
pub struct Simulation {
    /// Lower left-hand corner of the simulated world.
    lower: Vec2,
    /// Upper right-hand corner of the simulated world.
    upper: Vec2,
    /// All persons in the simulation.
    people: Vec<Person>,
}

impl View for Simulation {
    type V = SimulationView;

    closed spec fn view(&self) -> SimulationView {
        SimulationView { lower: self.lower@, upper: self.upper@, people: views(self.people@) }
    }
}

impl Clone for Simulation {
    /// A world of its own with the same box and the same people.
    fn clone(&self) -> (s: Simulation)
        ensures
            s@ == self@,
            s@.well_formed(),
    {
        proof {
            use_type_invariant(self);
        }
        let people: Vec<Person> = self.people.clone();
        assert(people@ =~= self.people@);
        Simulation { lower: self.lower, upper: self.upper, people }
    }
}

impl Simulation {
    #[verifier::type_invariant]
    spec fn bounded(&self) -> bool {
        spans_box(self.lower@, self.upper@)
    }

    /// A world that holds `people` and whose box is the whole plane that
    /// coordinates can name.
    pub fn with_population(people: Vec<Person>) -> (s: Simulation)
        ensures
            s@.people == views(people@),
            s@.lower == (Point { x: i64::MIN as int, y: i64::MIN as int }),
            s@.upper == (Point { x: i64::MAX as int, y: i64::MAX as int }),
            s@.well_formed(),
    {
        Simulation {
            lower: Vec2 { x: i64::MIN, y: i64::MIN },
            upper: Vec2 { x: i64::MAX, y: i64::MAX },
            people,
        }
    }

    /// The same people in the box from `lower` to `upper`, or the reason why
    /// these corners span no box.
    pub fn with_bounds(self, lower: Vec2, upper: Vec2) -> (r: Result<Simulation, BoundsError>)
        ensures
            spans_box(lower@, upper@) ==> r is Ok && r->Ok_0@ == (SimulationView {
                lower: lower@,
                upper: upper@,
                people: self@.people,
            }),
            lower.x > upper.x || lower.y > upper.y ==> r == Err::<Simulation, BoundsError>(
                BoundsError::Inverted,
            ),
            !spans_box(lower@, upper@) && lower.x <= upper.x && lower.y <= upper.y ==> r == Err::<
                Simulation,
                BoundsError,
            >(BoundsError::Degenerate),
    {
        if lower.x > upper.x || lower.y > upper.y {
            Err(BoundsError::Inverted)
        } else if lower.x == upper.x || lower.y == upper.y {
            Err(BoundsError::Degenerate)
        } else {
            Ok(Simulation { lower, upper, people: self.people })
        }
    }

    /// A small world for trying things out: the box of a hundred units either
    /// way round the origin, and one healthy person at the origin who moves ten
    /// units a second along both axes.
    pub fn sample_set() -> (s: Simulation)
        ensures
            s@.lower == (Point { x: -100 * UNIT, y: -100 * UNIT }),
            s@.upper == (Point { x: 100 * UNIT, y: 100 * UNIT }),
            s@.people == seq![
                PersonView {
                    pos: Point { x: 0, y: 0 },
                    vel: Point { x: 10 * UNIT, y: 10 * UNIT },
                    health: Health::Healthy,
                },
            ],
            s@.well_formed(),
    {
        let mut people: Vec<Person> = Vec::new();
        people.push(
            Person {
                pos: Vec2::from_units(0, 0),
                vel: Vec2::from_units(10, 10),
                health: Health::Healthy,
            },
        );
        let s = Simulation {
            lower: Vec2::from_units(-100, -100),
            upper: Vec2::from_units(100, 100),
            people,
        };
        assert(s@.people =~= seq![
            PersonView {
                pos: Point { x: 0, y: 0 },
                vel: Point { x: 10 * UNIT, y: 10 * UNIT },
                health: Health::Healthy,
            },
        ]);
        s
    }

    /// Advances the world by `dt`, taken in whole nanoseconds, as
    /// [`Simulation::tick_nanos`] does.
    pub fn tick(&mut self, dt: Duration)
        ensures
            final(self)@ == old(self)@.after(nanoseconds(dt) as nat),
            final(self)@.well_formed(),
    {
        let nanos: u128 = length_in_nanoseconds(&dt);
        self.tick_nanos(nanos);
    }

    /// Advances the world by `dt` nanoseconds: every person moves on its own,
    /// as [`step`] says; the box and the number of people stay.
    pub fn tick_nanos(&mut self, dt: u128)
        ensures
            final(self)@ == old(self)@.after(dt as nat),
            final(self)@.well_formed(),
    {
        proof {
            use_type_invariant(&*self);
        }
        let n: usize = self.people.len();
        let mut i: usize = 0;
        while i < n
            invariant
                spans_box(self.lower@, self.upper@),
                i <= n,
                n == self.people.len(),
                n == old(self).people.len(),
                self.lower == old(self).lower,
                self.upper == old(self).upper,
                forall|j: int|
                    0 <= j < i ==> (#[trigger] self.people@[j])@ == step(
                        old(self).people@[j]@,
                        self.lower@,
                        self.upper@,
                        dt as nat,
                    ),
                forall|j: int| i <= j < n ==> #[trigger] self.people@[j] == old(self).people@[j],
            decreases n - i,
        {
            let p: Person = self.people[i];
            let q: Person = advance(p, self.lower, self.upper, dt);
            self.people[i] = q;
            i += 1;
        }
        assert(self@.people =~= old(self)@.after(dt as nat).people);
    }

    /// Lower left-hand corner of the world.
    pub fn lower(&self) -> (corner: Vec2)
        ensures
            corner@ == self@.lower,
            self@.well_formed(),
    {
        proof {
            use_type_invariant(self);
        }
        self.lower
    }

    /// Upper right-hand corner of the world.
    pub fn upper(&self) -> (corner: Vec2)
        ensures
            corner@ == self@.upper,
            self@.well_formed(),
    {
        proof {
            use_type_invariant(self);
        }
        self.upper
    }

    /// The people, in the order in which they were given.
    pub fn people(&self) -> (people: &Vec<Person>)
        ensures
            views(people@) == self@.people,
            people@.len() == self@.people.len(),
            forall|i: int| 0 <= i < people@.len() ==> (#[trigger] people@[i])@ == self@.people[i],
            self@.well_formed(),
    {
        proof {
            use_type_invariant(self);
        }
        &self.people
    }
}

} // verus!
