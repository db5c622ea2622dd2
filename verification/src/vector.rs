//! Fixed-point vectors of the simulated plane.
//!
//! Coordinates and velocities are whole numbers of millionths of a world unit,
//! so every step of the simulation is exact integer arithmetic.

use vstd::prelude::*;

verus! {

/// How many steps of the coordinate grid make up one world unit.
pub const UNIT: i64 = 1_000_000;

/// A pair of mathematical integers: what a [`Vec2`] stands for in contracts.
pub struct Point {
    pub x: int,
    pub y: int,
}

/// A position, or a velocity per second, counted in millionths of a world unit.
#[derive(Copy, Clone, Debug, PartialEq, Eq, Structural)]
pub struct Vec2 {
    pub x: i64,
    pub y: i64,
}

impl View for Vec2 {
    type V = Point;

    open spec fn view(&self) -> Point {
        Point { x: self.x as int, y: self.y as int }
    }
}

impl Vec2 {
    /// The vector with the given components, taken as grid steps.
    pub fn new(x: i64, y: i64) -> (v: Vec2)
        ensures
            v.x == x,
            v.y == y,
    {
        Vec2 { x, y }
    }

    /// The vector that lies `x` and `y` whole world units along the axes.
    pub fn from_units(x: i32, y: i32) -> (v: Vec2)
        ensures
            v.x == x * UNIT,
            v.y == y * UNIT,
    {
        let wide_x: i64 = x as i64;
        let wide_y: i64 = y as i64;
        Vec2 { x: wide_x * UNIT, y: wide_y * UNIT }
    }
}

} // verus!
