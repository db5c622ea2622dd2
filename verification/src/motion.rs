//! The kinetic step of one person: free flight, then reflection at the walls
//! of the world with a loss of speed.

use vstd::prelude::*;
use crate::person::{Person, PersonView};
use crate::vector::{Point, Vec2};

verus! {

/// Durations are counted in nanoseconds; velocities are per second.
pub const NANOS_PER_SECOND: u128 = 1_000_000_000;

/// Each contact with a wall leaves 19 parts in 20 of the velocity, to the
/// nearest step of the grid.
pub const DECAY_NUMERATOR: u128 = 19;

/// See [`DECAY_NUMERATOR`].
pub const DECAY_DENOMINATOR: u128 = 20;

/// What one axis of a move ran into.
#[derive(Copy, Clone, Debug, PartialEq, Eq, Structural)]
pub enum Contact {
    /// The move ended strictly between the two walls.
    Free,
    /// The move reached or passed the lower wall.
    Lower,
    /// The move reached or passed the upper wall, and not the lower one.
    Upper,
}

/// The size of `v` without its sign.
pub open spec fn magnitude(v: int) -> nat {
    if v < 0 {
        (-v) as nat
    } else {
        v as nat
    }
}

/// The quotient of `n` by a positive `d`, rounded toward zero.
pub open spec fn toward_zero(n: int, d: int) -> int {
    if n < 0 {
        -((-n) / d)
    } else {
        n / d
    }
}

/// The quotient of `n` by a positive `d`, rounded to the nearest integer, and
/// away from zero where `n` lies halfway between two.
pub open spec fn to_nearest(n: int, d: int) -> int {
    if n < 0 {
        -((-n + d / 2) / d)
    } else {
        (n + d / 2) / d
    }
}

/// How far a velocity of `v` per second carries in `dt` nanoseconds.
pub open spec fn displacement(v: int, dt: nat) -> int {
    toward_zero(v * dt, NANOS_PER_SECOND as int)
}

/// The velocity `v` after one contact with a wall has taken its toll. What
/// moves keeps moving: no velocity but zero is damped to zero.
pub open spec fn damped(v: int) -> int {
    to_nearest(v * DECAY_NUMERATOR, DECAY_DENOMINATOR as int)
}

/// The velocity `v` after `contacts` contacts.
pub open spec fn damped_by(v: int, contacts: nat) -> int
    decreases contacts,
{
    if contacts == 0 {
        v
    } else {
        damped(damped_by(v, (contacts - 1) as nat))
    }
}

/// What a move along one axis to `target` runs into. A target that meets both
/// walls is taken to meet the lower one.
pub open spec fn contact(target: int, lower: int, upper: int) -> Contact {
    if target <= lower {
        Contact::Lower
    } else if target >= upper {
        Contact::Upper
    } else {
        Contact::Free
    }
}

/// Where a move along one axis to `target` comes to rest.
pub open spec fn resting(target: int, lower: int, upper: int) -> int {
    match contact(target, lower, upper) {
        Contact::Lower => lower,
        Contact::Upper => upper,
        Contact::Free => target,
    }
}

/// The number of contacts that `c` stands for: one, or none.
pub open spec fn hits(c: Contact) -> nat {
    if c == Contact::Free {
        0
    } else {
        1
    }
}

/// The component `v` of a velocity, turned round where its axis met a wall.
pub open spec fn turned(v: int, c: Contact) -> int {
    if c == Contact::Free {
        v
    } else {
        -v
    }
}

/// What the horizontal axis of `p` runs into when it moves for `dt` nanoseconds.
pub open spec fn contact_x(p: PersonView, lower: Point, upper: Point, dt: nat) -> Contact {
    contact(p.pos.x + displacement(p.vel.x, dt), lower.x, upper.x)
}

/// What the vertical axis of `p` runs into when it moves for `dt` nanoseconds.
pub open spec fn contact_y(p: PersonView, lower: Point, upper: Point, dt: nat) -> Contact {
    contact(p.pos.y + displacement(p.vel.y, dt), lower.y, upper.y)
}

/// The number of walls that `p` meets in a step of `dt` nanoseconds. A step of
/// no time at all meets none.
pub open spec fn bounces(p: PersonView, lower: Point, upper: Point, dt: nat) -> nat {
    if dt == 0 {
        0
    } else {
        hits(contact_x(p, lower, upper, dt)) + hits(contact_y(p, lower, upper, dt))
    }
}

/// The person `p` after `dt` nanoseconds in the box from `lower` to `upper`.
///
/// A step of no time at all changes nothing. Otherwise each axis moves by the
/// displacement of its velocity and comes to rest at the wall that it reached
/// or passed; a velocity component whose axis met a wall is turned round, and
/// the whole velocity is damped once for every wall met. The health is kept.
pub open spec fn step(p: PersonView, lower: Point, upper: Point, dt: nat) -> PersonView {
    if dt == 0 {
        p
    } else {
        let cx = contact_x(p, lower, upper, dt);
        let cy = contact_y(p, lower, upper, dt);
        PersonView {
            pos: Point {
                x: resting(p.pos.x + displacement(p.vel.x, dt), lower.x, upper.x),
                y: resting(p.pos.y + displacement(p.vel.y, dt), lower.y, upper.y),
            },
            vel: Point {
                x: damped_by(turned(p.vel.x, cx), hits(cx) + hits(cy)),
                y: damped_by(turned(p.vel.y, cy), hits(cx) + hits(cy)),
            },
            health: p.health,
        }
    }
}

/// Beyond this distance from any representable coordinate every wall has been
/// passed.
const FAR: u128 = 0x2_0000_0000_0000_0000;

/// The displacement `d`, cut off at [`FAR`] on either side.
spec fn within_reach(d: int) -> int {
    if d > FAR {
        FAR as int
    } else if d < -FAR {
        -FAR
    } else {
        d
    }
}

/// A distance over a time is the distance over its whole seconds and the
/// distance over what is left of a second, with nothing lost between them.
proof fn lemma_split_seconds(m: int, dt: int)
    requires
        0 <= m,
        0 <= dt,
    ensures
        0 <= m * dt,
        0 <= m * (dt / 1_000_000_000),
        0 <= m * (dt % 1_000_000_000) <= m * 1_000_000_000,
        (m * dt) / 1_000_000_000 == m * (dt / 1_000_000_000) + (m * (dt % 1_000_000_000))
            / 1_000_000_000,
{
    let q = dt / 1_000_000_000;
    let r = dt % 1_000_000_000;
    assert(0 <= m * dt && 0 <= m * q && 0 <= m * r <= m * 1_000_000_000 && m * dt == (m * q)
        * 1_000_000_000 + m * r) by (nonlinear_arith)
        requires
            0 <= m,
            0 <= q,
            0 <= r < 1_000_000_000,
            dt == q * 1_000_000_000 + r,
    ;
}

/// A displacement is that of the speed, carried to the side of the velocity.
proof fn lemma_displacement_by_magnitude(v: int, dt: nat)
    ensures
        0 <= magnitude(v) * dt,
        v >= 0 ==> displacement(v, dt) == (magnitude(v) * dt) / 1_000_000_000,
        v < 0 ==> displacement(v, dt) == -((magnitude(v) * dt) / 1_000_000_000),
{
    let m = magnitude(v) as int;
    assert(0 <= m * dt && (v >= 0 ==> v * dt == m * dt) && (v < 0 ==> v * dt == -(m * dt)))
        by (nonlinear_arith)
        requires
            0 <= m,
            0 <= dt,
            v >= 0 ==> m == v,
            v < 0 ==> m == -v,
    ;
}

/// The size of `v` without its sign.
fn magnitude_of(v: i64) -> (m: u128)
    ensures
        m == magnitude(v as int),
        m <= 0x8000_0000_0000_0000,
{
    let wide: i128 = v as i128;
    if wide < 0 {
        (-wide) as u128
    } else {
        wide as u128
    }
}

/// Where a move from `pos` at velocity `vel` for `dt` nanoseconds leads, with
/// the displacement cut off where it has passed every wall.
fn reach(pos: i64, vel: i64, dt: u128) -> (target: i128)
    ensures
        target == pos + within_reach(displacement(vel as int, dt as nat)),
{
    let m: u128 = magnitude_of(vel);
    let whole: u128 = dt / NANOS_PER_SECOND;
    let part: u128 = dt % NANOS_PER_SECOND;
    proof {
        lemma_split_seconds(m as int, dt as int);
        lemma_displacement_by_magnitude(vel as int, dt as nat);
    }
    let travelled: u128 = match m.checked_mul(whole) {
        None => FAR,
        Some(seconds) => {
            if seconds >= FAR {
                FAR
            } else {
                let rest: u128 = m * part / NANOS_PER_SECOND;
                let sum: u128 = seconds + rest;
                if sum > FAR {
                    FAR
                } else {
                    sum
                }
            }
        },
    };
    if vel < 0 {
        pos as i128 - travelled as i128
    } else {
        pos as i128 + travelled as i128
    }
}

/// What one axis of a move runs into, and where it comes to rest.
fn settle(pos: i64, vel: i64, dt: u128, lower: i64, upper: i64) -> (r: (Contact, i64))
    ensures
        r.0 == contact(pos + displacement(vel as int, dt as nat), lower as int, upper as int),
        r.1 == resting(pos + displacement(vel as int, dt as nat), lower as int, upper as int),
{
    let target: i128 = reach(pos, vel, dt);
    if target <= lower as i128 {
        (Contact::Lower, lower)
    } else if target >= upper as i128 {
        (Contact::Upper, upper)
    } else {
        (Contact::Free, target as i64)
    }
}

/// The velocity component `v` after one contact on the other axis.
fn damp(v: i64) -> (w: i64)
    ensures
        w == damped(v as int),
{
    let m: u128 = magnitude_of(v);
    let left: u128 = (m * DECAY_NUMERATOR + DECAY_DENOMINATOR / 2) / DECAY_DENOMINATOR;
    if v < 0 {
        -(left as i64)
    } else {
        left as i64
    }
}

/// The velocity component `v` after one contact on its own axis.
fn rebound(v: i64) -> (w: i64)
    ensures
        w == damped(-v),
{
    let m: u128 = magnitude_of(v);
    let left: u128 = (m * DECAY_NUMERATOR + DECAY_DENOMINATOR / 2) / DECAY_DENOMINATOR;
    if v < 0 {
        left as i64
    } else {
        -(left as i64)
    }
}

/// The person `p` after `dt` nanoseconds in the box from `lower` to `upper`.
pub fn advance(p: Person, lower: Vec2, upper: Vec2, dt: u128) -> (q: Person)
    ensures
        q@ == step(p@, lower@, upper@, dt as nat),
{
    if dt == 0 {
        return p;
    }
    let (cx, x) = settle(p.pos.x, p.vel.x, dt, lower.x, upper.x);
    let (cy, y) = settle(p.pos.y, p.vel.y, dt, lower.y, upper.y);
    let mut vx: i64 = p.vel.x;
    let mut vy: i64 = p.vel.y;
    match cx {
        Contact::Free => {},
        _ => {
            vx = rebound(vx);
            vy = damp(vy);
        },
    }
    match cy {
        Contact::Free => {},
        _ => {
            vx = damp(vx);
            vy = rebound(vy);
        },
    }
    proof {
        reveal_with_fuel(damped_by, 3);
    }
    Person { pos: Vec2 { x, y }, vel: Vec2 { x: vx, y: vy }, health: p.health }
}

} // verus!
