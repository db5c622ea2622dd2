//! What holds of every step and of every run of steps, proved from the
//! definitions that the contracts of the simulation are stated in.

use vstd::arithmetic::power::{lemma_pow0, lemma_pow_positive, pow};
use vstd::prelude::*;
use crate::motion::{bounces, contact_x, contact_y, damped, damped_by, magnitude, step, Contact};
use crate::person::PersonView;
use crate::simulation::{spans_box, SimulationView};
use crate::vector::Point;

verus! {

/// Whether `pos` lies in the box from `lower` to `upper`, walls included.
pub open spec fn in_box(pos: Point, lower: Point, upper: Point) -> bool {
    lower.x <= pos.x <= upper.x && lower.y <= pos.y <= upper.y
}

/// The person `p` after one step for each of `dts`, in their order.
pub open spec fn journey(p: PersonView, lower: Point, upper: Point, dts: Seq<nat>) -> PersonView
    decreases dts.len(),
{
    if dts.len() == 0 {
        p
    } else {
        step(journey(p, lower, upper, dts.drop_last()), lower, upper, dts.last())
    }
}

/// The number of walls that `p` meets on its [`journey`].
pub open spec fn journey_bounces(p: PersonView, lower: Point, upper: Point, dts: Seq<nat>) -> nat
    decreases dts.len(),
{
    if dts.len() == 0 {
        0
    } else {
        journey_bounces(p, lower, upper, dts.drop_last()) + bounces(
            journey(p, lower, upper, dts.drop_last()),
            lower,
            upper,
            dts.last(),
        )
    }
}

/// The world `w` after one tick for each of `dts`, in their order.
pub open spec fn after_all(w: SimulationView, dts: Seq<nat>) -> SimulationView
    decreases dts.len(),
{
    if dts.len() == 0 {
        w
    } else {
        after_all(w, dts.drop_last()).after(dts.last())
    }
}

/// A tick moves each person by [`step`] on its own, and keeps the box and the
/// number of people: the others have no say in where one of them goes.
pub proof fn law_people_move_alone(w: SimulationView, dt: nat)
    ensures
        w.after(dt).lower == w.lower,
        w.after(dt).upper == w.upper,
        w.after(dt).people.len() == w.people.len(),
        forall|i: int|
            0 <= i < w.people.len() ==> #[trigger] w.after(dt).people[i] == step(
                w.people[i],
                w.lower,
                w.upper,
                dt,
            ),
{
}

/// A run of ticks moves each person along its own [`journey`], and keeps the
/// box and the number of people.
pub proof fn law_runs_move_alone(w: SimulationView, dts: Seq<nat>)
    ensures
        after_all(w, dts).lower == w.lower,
        after_all(w, dts).upper == w.upper,
        after_all(w, dts).people.len() == w.people.len(),
        forall|i: int|
            0 <= i < w.people.len() ==> #[trigger] after_all(w, dts).people[i] == journey(
                w.people[i],
                w.lower,
                w.upper,
                dts,
            ),
    decreases dts.len(),
{
    if dts.len() > 0 {
        law_runs_move_alone(w, dts.drop_last());
    }
}

/// A tick of no time at all leaves the whole world as it was.
pub proof fn law_zero_tick_changes_nothing(w: SimulationView)
    ensures
        w.after(0) == w,
{
    assert(w.after(0).people =~= w.people);
}

/// A world without people stays without people, whatever the time.
pub proof fn law_empty_world_stays_empty(w: SimulationView, dt: nat)
    requires
        w.people.len() == 0,
    ensures
        w.after(dt) == w,
{
    assert(w.after(dt).people =~= w.people);
}

/// After a step that takes time, a person lies in the box, walls included,
/// wherever it started; after a step of no time at all it lies in the box if
/// it did before.
pub proof fn law_step_ends_in_box(p: PersonView, lower: Point, upper: Point, dt: nat)
    requires
        spans_box(lower, upper),
        dt > 0 || in_box(p.pos, lower, upper),
    ensures
        in_box(step(p, lower, upper, dt).pos, lower, upper),
{
}

/// After a tick that takes time, everybody lies in the box of the world.
pub proof fn law_tick_ends_in_box(w: SimulationView, dt: nat)
    requires
        w.well_formed(),
        dt > 0,
    ensures
        forall|i: int|
            0 <= i < w.people.len() ==> in_box(
                #[trigger] w.after(dt).people[i].pos,
                w.lower,
                w.upper,
            ),
{
    assert forall|i: int| 0 <= i < w.people.len() implies in_box(
        #[trigger] w.after(dt).people[i].pos,
        w.lower,
        w.upper,
    ) by {
        law_step_ends_in_box(w.people[i], w.lower, w.upper, dt);
    }
}

/// Whoever lies in the box stays in it, through any run of ticks.
pub proof fn law_box_is_never_left(w: SimulationView, dts: Seq<nat>, i: int)
    requires
        w.well_formed(),
        0 <= i < w.people.len(),
        in_box(w.people[i].pos, w.lower, w.upper),
    ensures
        in_box(after_all(w, dts).people[i].pos, w.lower, w.upper),
{
    law_runs_move_alone(w, dts);
    lemma_journey_stays_in_box(w.people[i], w.lower, w.upper, dts);
}

proof fn lemma_journey_stays_in_box(p: PersonView, lower: Point, upper: Point, dts: Seq<nat>)
    requires
        spans_box(lower, upper),
        in_box(p.pos, lower, upper),
    ensures
        in_box(journey(p, lower, upper, dts).pos, lower, upper),
    decreases dts.len(),
{
    if dts.len() > 0 {
        lemma_journey_stays_in_box(p, lower, upper, dts.drop_last());
        law_step_ends_in_box(journey(p, lower, upper, dts.drop_last()), lower, upper, dts.last());
    }
}

/// One contact leaves nineteen twentieths of a velocity component, rounded to
/// the nearest step of the grid: its direction is kept, what moved still
/// moves, and twenty times what is left lies within ten grid steps of nineteen
/// times what was. Nothing is lost to rounding exactly where the speed is a
/// multiple of twenty grid steps a second.
pub proof fn law_contact_takes_a_twentieth(v: int)
    ensures
        v > 0 ==> damped(v) > 0,
        v < 0 ==> damped(v) < 0,
        v == 0 ==> damped(v) == 0,
        damped(-v) == -damped(v),
        magnitude(damped(v)) <= magnitude(v),
        19 * magnitude(v) - 10 < 20 * magnitude(damped(v)) <= 19 * magnitude(v) + 10,
        20 * magnitude(damped(v)) == 19 * magnitude(v) <==> magnitude(v) % 20 == 0,
{
}

/// Damping is the same on either side of zero, however often it is applied,
/// and never brings to rest what moved.
pub proof fn law_damping_is_symmetric(v: int, contacts: nat)
    ensures
        damped_by(-v, contacts) == -damped_by(v, contacts),
        v > 0 ==> damped_by(v, contacts) > 0,
        v < 0 ==> damped_by(v, contacts) < 0,
        v == 0 ==> damped_by(v, contacts) == 0,
        magnitude(damped_by(v, contacts)) == damped_by(magnitude(v) as int, contacts),
    decreases contacts,
{
    if contacts > 0 {
        let fewer = (contacts - 1) as nat;
        law_damping_is_symmetric(v, fewer);
        law_contact_takes_a_twentieth(damped_by(v, fewer));
    }
}

/// Contacts add up: damping `first` times and then `then` times is damping
/// `first + then` times.
pub proof fn law_damping_adds_up(v: int, first: nat, then_: nat)
    ensures
        damped_by(damped_by(v, first), then_) == damped_by(v, first + then_),
    decreases then_,
{
    if then_ > 0 {
        law_damping_adds_up(v, first, (then_ - 1) as nat);
    }
}

/// Speed never grows: every further contact leaves a component no larger.
pub proof fn law_damping_never_speeds_up(v: int, contacts: nat)
    ensures
        magnitude(damped_by(v, contacts + 1)) <= magnitude(damped_by(v, contacts)),
        magnitude(damped_by(v, contacts)) <= magnitude(v),
    decreases contacts,
{
    law_contact_takes_a_twentieth(damped_by(v, contacts));
    if contacts > 0 {
        law_damping_never_speeds_up(v, (contacts - 1) as nat);
    }
}

/// After `contacts` contacts a speed of `m` has been scaled by nineteen
/// twentieths to the power of `contacts`, up to the rounding to the grid: what
/// is left lies within ten grid steps of that.
pub proof fn law_decay_is_geometric(m: nat, contacts: nat)
    ensures
        pow(20, contacts) * (damped_by(m as int, contacts) - 10) < pow(19, contacts) * m,
        pow(19, contacts) * m < pow(20, contacts) * (damped_by(m as int, contacts) + 10),
{
    lemma_decay_brackets(m, contacts);
    lemma_pow_positive(19, contacts);
    lemma_pow_positive(20, contacts);
    let left = damped_by(m as int, contacts);
    let p19 = pow(19, contacts);
    let p20 = pow(20, contacts);
    assert(p20 * (left - 10) < p19 * m && p19 * m < p20 * (left + 10)) by (nonlinear_arith)
        requires
            p19 > 0,
            p20 > 0,
            p20 * (left - 10) <= p19 * (m - 10),
            p19 * (m + 9) <= p20 * (left + 9),
    ;
}

/// The brackets that every further contact keeps: ten grid steps above and
/// nine below are scaled along with the speed.
proof fn lemma_decay_brackets(m: nat, contacts: nat)
    ensures
        pow(20, contacts) * (damped_by(m as int, contacts) - 10) <= pow(19, contacts) * (m - 10),
        pow(19, contacts) * (m + 9) <= pow(20, contacts) * (damped_by(m as int, contacts) + 9),
    decreases contacts,
{
    reveal(pow);
    if contacts == 0 {
        lemma_pow0(20);
        lemma_pow0(19);
    } else {
        let fewer = (contacts - 1) as nat;
        lemma_decay_brackets(m, fewer);
        law_damping_is_symmetric(m as int, fewer);
        let before = damped_by(m as int, fewer);
        let left = damped_by(m as int, contacts);
        let p19 = pow(19, fewer);
        let p20 = pow(20, fewer);
        lemma_pow_positive(20, fewer);
        assert(pow(19, contacts) == 19 * p19);
        assert(pow(20, contacts) == 20 * p20);
        law_contact_takes_a_twentieth(before);
        assert(19 * before - 10 < 20 * left <= 19 * before + 10);
        assert((20 * p20) * (left - 10) <= (19 * p19) * (m - 10) && (19 * p19) * (m + 9) <= (20
            * p20) * (left + 9)) by (nonlinear_arith)
            requires
                p20 > 0,
                19 * before - 10 < 20 * left <= 19 * before + 10,
                p20 * (before - 10) <= p19 * (m - 10),
                p19 * (m + 9) <= p20 * (before + 9),
        ;
    }
}

/// In one step each wall met turns the component of its own axis round, and
/// the speed along both axes is damped once for every wall met.
pub proof fn law_step_damps_once_per_wall(p: PersonView, lower: Point, upper: Point, dt: nat)
    ensures
        bounces(p, lower, upper, dt) <= 2,
        magnitude(step(p, lower, upper, dt).vel.x) == damped_by(
            magnitude(p.vel.x) as int,
            bounces(p, lower, upper, dt),
        ),
        magnitude(step(p, lower, upper, dt).vel.y) == damped_by(
            magnitude(p.vel.y) as int,
            bounces(p, lower, upper, dt),
        ),
        magnitude(step(p, lower, upper, dt).vel.x) <= magnitude(p.vel.x),
        magnitude(step(p, lower, upper, dt).vel.y) <= magnitude(p.vel.y),
{
    let k = bounces(p, lower, upper, dt);
    law_damping_is_symmetric(p.vel.x, k);
    law_damping_is_symmetric(-p.vel.x, k);
    law_damping_is_symmetric(p.vel.y, k);
    law_damping_is_symmetric(-p.vel.y, k);
    law_damping_never_speeds_up(p.vel.x, k);
    law_damping_never_speeds_up(p.vel.y, k);
}

/// Over a whole journey the speed along each axis is damped once for every
/// wall met on the way, so that after `k` bounces it has been scaled by
/// nineteen twentieths to the power of `k`, as [`law_decay_is_geometric`] says.
pub proof fn law_journey_damps_once_per_wall(
    p: PersonView,
    lower: Point,
    upper: Point,
    dts: Seq<nat>,
)
    ensures
        magnitude(journey(p, lower, upper, dts).vel.x) == damped_by(
            magnitude(p.vel.x) as int,
            journey_bounces(p, lower, upper, dts),
        ),
        magnitude(journey(p, lower, upper, dts).vel.y) == damped_by(
            magnitude(p.vel.y) as int,
            journey_bounces(p, lower, upper, dts),
        ),
    decreases dts.len(),
{
    if dts.len() > 0 {
        let so_far = journey(p, lower, upper, dts.drop_last());
        let met = journey_bounces(p, lower, upper, dts.drop_last());
        law_journey_damps_once_per_wall(p, lower, upper, dts.drop_last());
        law_step_damps_once_per_wall(so_far, lower, upper, dts.last());
        law_damping_adds_up(magnitude(p.vel.x) as int, met, bounces(so_far, lower, upper, dts.last()));
        law_damping_adds_up(magnitude(p.vel.y) as int, met, bounces(so_far, lower, upper, dts.last()));
    }
}

/// A step that meets a wall on the horizontal axis turns the horizontal
/// velocity round before it is damped: what was positive is negative
/// afterwards, and what was negative is positive.
pub proof fn law_wall_turns_x(p: PersonView, lower: Point, upper: Point, dt: nat)
    requires
        dt > 0,
        contact_x(p, lower, upper, dt) != Contact::Free,
    ensures
        step(p, lower, upper, dt).vel.x == damped_by(-p.vel.x, bounces(p, lower, upper, dt)),
        p.vel.x > 0 ==> step(p, lower, upper, dt).vel.x < 0,
        p.vel.x < 0 ==> step(p, lower, upper, dt).vel.x > 0,
        p.vel.x == 0 ==> step(p, lower, upper, dt).vel.x == 0,
{
    law_damping_is_symmetric(-p.vel.x, bounces(p, lower, upper, dt));
}

/// A step that meets a wall on the vertical axis turns the vertical velocity
/// round before it is damped, as [`law_wall_turns_x`] says of the other axis.
pub proof fn law_wall_turns_y(p: PersonView, lower: Point, upper: Point, dt: nat)
    requires
        dt > 0,
        contact_y(p, lower, upper, dt) != Contact::Free,
    ensures
        step(p, lower, upper, dt).vel.y == damped_by(-p.vel.y, bounces(p, lower, upper, dt)),
        p.vel.y > 0 ==> step(p, lower, upper, dt).vel.y < 0,
        p.vel.y < 0 ==> step(p, lower, upper, dt).vel.y > 0,
        p.vel.y == 0 ==> step(p, lower, upper, dt).vel.y == 0,
{
    law_damping_is_symmetric(-p.vel.y, bounces(p, lower, upper, dt));
}

/// An axis that meets no wall keeps the direction of its velocity, whatever
/// the other axis meets.
pub proof fn law_free_axis_keeps_direction(p: PersonView, lower: Point, upper: Point, dt: nat)
    ensures
        dt == 0 || contact_x(p, lower, upper, dt) == Contact::Free ==> {
            &&& p.vel.x > 0 ==> step(p, lower, upper, dt).vel.x > 0
            &&& p.vel.x < 0 ==> step(p, lower, upper, dt).vel.x < 0
            &&& p.vel.x == 0 ==> step(p, lower, upper, dt).vel.x == 0
        },
        dt == 0 || contact_y(p, lower, upper, dt) == Contact::Free ==> {
            &&& p.vel.y > 0 ==> step(p, lower, upper, dt).vel.y > 0
            &&& p.vel.y < 0 ==> step(p, lower, upper, dt).vel.y < 0
            &&& p.vel.y == 0 ==> step(p, lower, upper, dt).vel.y == 0
        },
{
    law_damping_is_symmetric(p.vel.x, bounces(p, lower, upper, dt));
    law_damping_is_symmetric(p.vel.y, bounces(p, lower, upper, dt));
}

/// In a tick that takes time, everybody who moves along an axis is turned
/// round on it where that axis meets a wall, and keeps its direction on it
/// where it meets none; who rests along an axis goes on resting along it.
pub proof fn law_tick_turns_at_walls_only(w: SimulationView, dt: nat, i: int)
    requires
        dt > 0,
        0 <= i < w.people.len(),
    ensures
        contact_x(w.people[i], w.lower, w.upper, dt) != Contact::Free ==> {
            &&& w.people[i].vel.x > 0 ==> w.after(dt).people[i].vel.x < 0
            &&& w.people[i].vel.x < 0 ==> w.after(dt).people[i].vel.x > 0
        },
        contact_x(w.people[i], w.lower, w.upper, dt) == Contact::Free ==> {
            &&& w.people[i].vel.x > 0 ==> w.after(dt).people[i].vel.x > 0
            &&& w.people[i].vel.x < 0 ==> w.after(dt).people[i].vel.x < 0
        },
        contact_y(w.people[i], w.lower, w.upper, dt) != Contact::Free ==> {
            &&& w.people[i].vel.y > 0 ==> w.after(dt).people[i].vel.y < 0
            &&& w.people[i].vel.y < 0 ==> w.after(dt).people[i].vel.y > 0
        },
        contact_y(w.people[i], w.lower, w.upper, dt) == Contact::Free ==> {
            &&& w.people[i].vel.y > 0 ==> w.after(dt).people[i].vel.y > 0
            &&& w.people[i].vel.y < 0 ==> w.after(dt).people[i].vel.y < 0
        },
        w.people[i].vel.x == 0 ==> w.after(dt).people[i].vel.x == 0,
        w.people[i].vel.y == 0 ==> w.after(dt).people[i].vel.y == 0,
{
    let p = w.people[i];
    law_people_move_alone(w, dt);
    law_free_axis_keeps_direction(p, w.lower, w.upper, dt);
    if contact_x(p, w.lower, w.upper, dt) != Contact::Free {
        law_wall_turns_x(p, w.lower, w.upper, dt);
    }
    if contact_y(p, w.lower, w.upper, dt) != Contact::Free {
        law_wall_turns_y(p, w.lower, w.upper, dt);
    }
}

/// No step changes anybody's health.
pub proof fn law_step_keeps_health(p: PersonView, lower: Point, upper: Point, dt: nat)
    ensures
        step(p, lower, upper, dt).health == p.health,
{
}

/// No run of ticks, however long, changes anybody's health.
pub proof fn law_health_is_never_changed(w: SimulationView, dts: Seq<nat>, i: int)
    requires
        0 <= i < w.people.len(),
    ensures
        after_all(w, dts).people.len() == w.people.len(),
        after_all(w, dts).people[i].health == w.people[i].health,
{
    law_runs_move_alone(w, dts);
    lemma_journey_keeps_health(w.people[i], w.lower, w.upper, dts);
}

proof fn lemma_journey_keeps_health(p: PersonView, lower: Point, upper: Point, dts: Seq<nat>)
    ensures
        journey(p, lower, upper, dts).health == p.health,
    decreases dts.len(),
{
    if dts.len() > 0 {
        lemma_journey_keeps_health(p, lower, upper, dts.drop_last());
    }
}

} // verus!
