//! A bounded two-dimensional population of point agents moving under simple
//! kinematics, stated over exact fixed-point arithmetic and verified with Verus.
//!
//! [`Simulation`] owns a box and the people in it, and [`Simulation::tick`]
//! advances all of them by a span of time. What one person does in one step is
//! defined in [`motion`]; what follows for every step and every run of steps
//! is proved in [`laws`].

pub mod clock;
pub mod health;
pub mod laws;
pub mod motion;
pub mod person;
pub mod simulation;
pub mod vector;

pub use health::Health;
pub use person::{Person, PersonView};
pub use simulation::{BoundsError, Simulation, SimulationView};
pub use vector::{Point, Vec2, UNIT};
