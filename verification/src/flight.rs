//! How an agent moves while its mission is under way: on each axis by a
//! fixed step towards the target, never past it.

use vstd::prelude::*;
use crate::coordinates::Coordinates;
use crate::mission::{MissionState, MissionView};

verus! {

/// Distance that an agent covers per microsecond, in position units: a
/// thousandth of a degree per second.
pub const DRONE_SPEED: u64 = 1;

/// The distance between two values on one axis.
pub open spec fn axis_distance(a: int, b: int) -> int {
    if a <= b {
        b - a
    } else {
        a - b
    }
}

/// Where an agent at `current` on one axis stands after one move of at most
/// `step` towards `target`: nearer by `step`, or on the target when that is
/// no farther than `step`.
pub open spec fn axis_after(current: int, target: int, step: int) -> int {
    if target - current > step {
        current + step
    } else if current - target > step {
        current - step
    } else {
        target
    }
}

/// Where an agent stands on one axis after `moves` moves.
pub open spec fn axis_after_moves(current: int, target: int, step: int, moves: nat) -> int
    decreases moves,
{
    if moves == 0 {
        current
    } else {
        axis_after_moves(axis_after(current, target, step), target, step, (moves - 1) as nat)
    }
}

/// The position after one move of at most `step` on each axis.
pub open spec fn position_after(position: Coordinates, target: Coordinates, step: int)
    -> Coordinates {
    Coordinates {
        latitude: axis_after(position.latitude as int, target.latitude as int, step) as i64,
        longitude: axis_after(position.longitude as int, target.longitude as int, step) as i64,
    }
}

/// Whether a position counts as arrived: on both axes it is nearer to the
/// target than one step.
pub open spec fn within_step(position: Coordinates, target: Coordinates, step: int) -> bool {
    axis_distance(position.latitude as int, target.latitude as int) < step && axis_distance(
        position.longitude as int,
        target.longitude as int,
    ) < step
}

/// The step of an agent over `elapsed_micros` microseconds, which is as
/// large as a step can be where the product is larger.
pub open spec fn step_over(elapsed_micros: int) -> int {
    if DRONE_SPEED * elapsed_micros > u64::MAX {
        u64::MAX as int
    } else {
        DRONE_SPEED * elapsed_micros
    }
}

/// Computes [`step_over`].
pub fn step_for(elapsed_micros: u64) -> (step: u64)
    ensures
        step == step_over(elapsed_micros as int),
{
    match DRONE_SPEED.checked_mul(elapsed_micros) {
        Some(step) => step,
        None => u64::MAX,
    }
}

/// Computes [`axis_after`].
pub fn advance_axis(current: i64, target: i64, step: u64) -> (next: i64)
    ensures
        next == axis_after(current as int, target as int, step as int),
{
    let delta: i128 = target as i128 - current as i128;
    let reach: i128 = step as i128;
    if delta > reach {
        (current as i128 + reach) as i64
    } else if -delta > reach {
        (current as i128 - reach) as i64
    } else {
        target
    }
}

/// Computes [`within_step`].
pub fn is_within_step(position: &Coordinates, target: &Coordinates, step: u64) -> (within: bool)
    ensures
        within == within_step(*position, *target, step as int),
{
    let latitude_left: i128 = position.latitude as i128 - target.latitude as i128;
    let longitude_left: i128 = position.longitude as i128 - target.longitude as i128;
    let reach: i128 = step as i128;
    -reach < latitude_left && latitude_left < reach && -reach < longitude_left && longitude_left
        < reach
}

/// A move leaves the agent between where it was and the target, takes the
/// step off the distance, and ends on the target where the distance was no
/// more than the step. So no move takes the agent farther away, and every
/// move with a positive step brings it nearer until it is there.
pub proof fn lemma_move_nearer(current: int, target: int, step: int)
    requires
        step >= 0,
    ensures
        axis_distance(axis_after(current, target, step), target) == if axis_distance(
            current,
            target,
        ) > step {
            axis_distance(current, target) - step
        } else {
            0
        },
        axis_distance(axis_after(current, target, step), target) <= axis_distance(current, target),
        step > 0 && current != target ==> axis_distance(axis_after(current, target, step), target)
            < axis_distance(current, target),
        current <= target ==> current <= axis_after(current, target, step) <= target,
        target <= current ==> target <= axis_after(current, target, step) <= current,
{
}

/// With a positive step an agent is on the target after as many moves as
/// cover the distance, and stays there.
pub proof fn lemma_axis_reaches_target(current: int, target: int, step: int, moves: nat)
    requires
        step > 0,
        moves * step >= axis_distance(current, target),
    ensures
        axis_after_moves(current, target, step, moves) == target,
    decreases moves,
{
    if moves == 0 {
        assert(moves * step == 0) by (nonlinear_arith)
            requires
                moves == 0,
        ;
    } else {
        let next = axis_after(current, target, step);
        let rest = (moves - 1) as nat;
        lemma_move_nearer(current, target, step);
        assert(rest * step == moves * step - step) by (nonlinear_arith)
            requires
                rest == moves - 1,
        ;
        lemma_axis_reaches_target(next, target, step, rest);
    }
}

/// Where an agent stands after `moves` moves.
pub open spec fn position_after_moves(
    position: Coordinates,
    target: Coordinates,
    step: int,
    moves: nat,
) -> Coordinates
    decreases moves,
{
    if moves == 0 {
        position
    } else {
        position_after_moves(
            position_after(position, target, step),
            target,
            step,
            (moves - 1) as nat,
        )
    }
}

/// A move takes an agent on neither axis farther from its target; with a
/// positive step it brings an agent that is not there nearer on every axis
/// on which it has a way to go.
pub proof fn lemma_position_nearer(position: Coordinates, target: Coordinates, step: int)
    requires
        step >= 0,
    ensures
        ({
            let next = position_after(position, target, step);
            &&& next.latitude == axis_after(position.latitude as int, target.latitude as int, step)
            &&& next.longitude == axis_after(
                position.longitude as int,
                target.longitude as int,
                step,
            )
            &&& axis_distance(next.latitude as int, target.latitude as int) <= axis_distance(
                position.latitude as int,
                target.latitude as int,
            )
            &&& axis_distance(next.longitude as int, target.longitude as int) <= axis_distance(
                position.longitude as int,
                target.longitude as int,
            )
            &&& step > 0 && position.latitude != target.latitude ==> axis_distance(
                next.latitude as int,
                target.latitude as int,
            ) < axis_distance(position.latitude as int, target.latitude as int)
            &&& step > 0 && position.longitude != target.longitude ==> axis_distance(
                next.longitude as int,
                target.longitude as int,
            ) < axis_distance(position.longitude as int, target.longitude as int)
        }),
{
    lemma_move_nearer(position.latitude as int, target.latitude as int, step);
    lemma_move_nearer(position.longitude as int, target.longitude as int, step);
}

/// With a positive step an agent stands exactly on its target after as
/// many moves as cover the distance on both axes.
pub proof fn lemma_position_reaches_target(
    position: Coordinates,
    target: Coordinates,
    step: int,
    moves: nat,
)
    requires
        step > 0,
        moves * step >= axis_distance(position.latitude as int, target.latitude as int),
        moves * step >= axis_distance(position.longitude as int, target.longitude as int),
    ensures
        position_after_moves(position, target, step, moves) == target,
    decreases moves,
{
    if moves == 0 {
        assert(moves * step == 0) by (nonlinear_arith)
            requires
                moves == 0,
        ;
    } else {
        let rest = (moves - 1) as nat;
        lemma_position_nearer(position, target, step);
        lemma_move_nearer(position.latitude as int, target.latitude as int, step);
        lemma_move_nearer(position.longitude as int, target.longitude as int, step);
        assert(rest * step == moves * step - step) by (nonlinear_arith)
            requires
                rest == moves - 1,
        ;
        lemma_position_reaches_target(position_after(position, target, step), target, step, rest);
    }
}

/// With a positive step every agent gets to its target: there is a number
/// of moves after which it stands exactly on it.
pub proof fn lemma_target_is_reached(position: Coordinates, target: Coordinates, step: int)
    requires
        step > 0,
    ensures
        exists|moves: nat| position_after_moves(position, target, step, moves) == target,
{
    let latitude = axis_distance(position.latitude as int, target.latitude as int);
    let longitude = axis_distance(position.longitude as int, target.longitude as int);
    let moves = (latitude + longitude) as nat;
    assert(moves * step >= moves) by (nonlinear_arith)
        requires
            step >= 1,
            moves >= 0,
    ;
    lemma_position_reaches_target(position, target, step, moves);
}

/// An agent in flight as far as its movement goes: where it is, and the
/// mission that it has.
pub struct Flight {
    pub position: Coordinates,
    pub mission: Option<MissionView>,
}

impl Flight {
    /// Whether the agent moves: its mission is under way.
    pub open spec fn under_way(self) -> bool {
        self.mission is Some && self.mission->0.state == MissionState::Ongoing
    }

    /// Whether the agent arrives with its next move.
    pub open spec fn arrives(self, step: int) -> bool {
        self.under_way() && within_step(
            position_after(self.position, self.mission->0.target, step),
            self.mission->0.target,
            step,
        )
    }

    /// The flight after one round. An agent whose mission is under way
    /// moves, and its mission awaits the acknowledgment of its end if it has
    /// arrived; any other stays as it is.
    pub open spec fn after(self, step: int) -> Flight {
        if self.under_way() {
            Flight {
                position: position_after(self.position, self.mission->0.target, step),
                mission: Some(
                    MissionView {
                        state: if self.arrives(step) {
                            MissionState::AwaitingFinishedAck
                        } else {
                            MissionState::Ongoing
                        },
                        target: self.mission->0.target,
                        waypoints: self.mission->0.waypoints,
                    },
                ),
            }
        } else {
            self
        }
    }

    /// The flight after `rounds` rounds.
    pub open spec fn after_rounds(self, step: int, rounds: nat) -> Flight
        decreases rounds,
    {
        if rounds == 0 {
            self
        } else {
            self.after(step).after_rounds(step, (rounds - 1) as nat)
        }
    }

    /// How often the agent reports its arrival in `rounds` rounds.
    pub open spec fn arrivals(self, step: int, rounds: nat) -> nat
        decreases rounds,
    {
        if rounds == 0 {
            0
        } else {
            (if self.arrives(step) {
                1nat
            } else {
                0nat
            }) + self.after(step).arrivals(step, (rounds - 1) as nat)
        }
    }
}

/// An agent whose mission is not under way stays where it is and reports
/// nothing, however many rounds pass.
pub proof fn lemma_grounded(flight: Flight, step: int, rounds: nat)
    requires
        !flight.under_way(),
    ensures
        flight.after_rounds(step, rounds) == flight,
        flight.arrivals(step, rounds) == 0,
    decreases rounds,
{
    if rounds > 0 {
        lemma_grounded(flight, step, (rounds - 1) as nat);
    }
}

/// An agent whose mission is under way arrives, once and for all: after as
/// many rounds as cover the distance on both axes, with a positive step, its
/// mission awaits the acknowledgment of its end with the target unchanged,
/// it has reported its arrival exactly once, and it stands within a step of
/// the target.
pub proof fn lemma_flight_ends(flight: Flight, step: int, rounds: nat)
    requires
        flight.under_way(),
        step > 0,
        rounds >= 1,
        rounds * step >= axis_distance(
            flight.position.latitude as int,
            flight.mission->0.target.latitude as int,
        ),
        rounds * step >= axis_distance(
            flight.position.longitude as int,
            flight.mission->0.target.longitude as int,
        ),
    ensures
        flight.after_rounds(step, rounds).mission == Some(
            MissionView {
                state: MissionState::AwaitingFinishedAck,
                target: flight.mission->0.target,
                waypoints: flight.mission->0.waypoints,
            },
        ),
        flight.arrivals(step, rounds) == 1,
        within_step(flight.after_rounds(step, rounds).position, flight.mission->0.target, step),
    decreases rounds,
{
    let target = flight.mission->0.target;
    let next = flight.after(step);
    lemma_move_nearer(flight.position.latitude as int, target.latitude as int, step);
    lemma_move_nearer(flight.position.longitude as int, target.longitude as int, step);
    let rest = (rounds - 1) as nat;
    assert(rest * step == rounds * step - step) by (nonlinear_arith)
        requires
            rest == rounds - 1,
    ;
    if flight.arrives(step) {
        lemma_grounded(next, step, rest);
    } else {
        assert(rest >= 1) by {
            if rest == 0 {
                assert(rest * step == 0) by (nonlinear_arith)
                    requires
                        rest == 0,
                ;
            }
        }
        lemma_flight_ends(next, step, rest);
    }
}

} // verus!
