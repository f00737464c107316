//! Per-axis acceleration: a held direction doubles the velocity of its axis
//! tick by tick, up to a ceiling; letting go stops the axis at once.

use vstd::prelude::*;
use vstd::arithmetic::power2::{pow2, lemma2_to64, lemma_pow2_unfold, lemma_pow2_strictly_increases};
use crate::decoder::Direction;

verus! {

/// Magnitude of the first tick in a direction.
pub const START_SPEED: i8 = 4;

/// Magnitude at which an axis saturates.
pub const MAX_SPEED: i8 = 64;

/// The magnitudes an axis in motion can have.
pub open spec fn is_speed(m: int) -> bool {
    m == 4 || m == 8 || m == 16 || m == 32 || m == 64
}

/// The values an axis velocity can have: rest, or a speed in either direction.
pub open spec fn is_velocity(v: int) -> bool {
    v == 0 || is_speed(v) || is_speed(-v)
}

/// The velocity of an axis one tick after `current`, with `direction` held
/// during the tick.
pub open spec fn advance_spec(current: int, direction: Direction) -> int {
    match direction {
        Direction::Neutral => 0,
        Direction::Positive => if current <= 0 {
            4
        } else if current == 64 {
            64
        } else {
            2 * current
        },
        Direction::Negative => if current >= 0 {
            -4
        } else if current == -64 {
            -64
        } else {
            2 * current
        },
    }
}

/// Computes the new value of an axis from its current value and the requested
/// direction, given as 1, -1 or 0 (any other code counts as 0).
pub fn mouse_acceleration(cur_value: &i8, direction: i8) -> (next: i8)
    requires
        -64 <= *cur_value <= 64,
    ensures
        next == advance_spec(*cur_value as int, Direction::of_code(direction as int)),
{
    match direction {
        0 => 0,
        1 => {
            if *cur_value <= 0 {
                START_SPEED
            } else {
                if *cur_value == MAX_SPEED {
                    MAX_SPEED
                } else {
                    *cur_value * 2
                }
            }
        },
        -1 => {
            if *cur_value >= 0 {
                -START_SPEED
            } else {
                if *cur_value == -MAX_SPEED {
                    -MAX_SPEED
                } else {
                    *cur_value * 2
                }
            }
        },
        _ => 0,
    }
}

/// Velocity of one axis, in report units per tick.
#[derive(Clone, Copy, Debug, PartialEq, Eq, Structural)]
pub struct AxisVelocity {
    value: i8,
}

impl View for AxisVelocity {
    type V = int;

    closed spec fn view(&self) -> int {
        self.value as int
    }
}

impl AxisVelocity {
    /// Every velocity holds rest or a speed.
    #[verifier::type_invariant]
    pub open spec fn inv(self) -> bool {
        is_velocity(self@)
    }

    /// An axis at rest.
    pub fn zero() -> (v: AxisVelocity)
        ensures
            v@ == 0,
    {
        AxisVelocity { value: 0 }
    }

    /// The velocity with the given value, if there is one.
    pub fn new(value: i8) -> (v: Option<AxisVelocity>)
        ensures
            v is Some <==> is_velocity(value as int),
            v is Some ==> v->0@ == value,
    {
        let m: i8 = if value < 0 && value >= -64 { -value } else { value };
        if value == 0 || m == 4 || m == 8 || m == 16 || m == 32 || m == 64 {
            Some(AxisVelocity { value })
        } else {
            None
        }
    }

    /// The signed value, as it stands in a report.
    pub fn value(&self) -> (value: i8)
        ensures
            value == self@,
            is_velocity(value as int),
    {
        proof {
            use_type_invariant(self);
        }
        self.value
    }
}

/// Moves an axis one tick on.
pub fn advance(current: AxisVelocity, direction: Direction) -> (next: AxisVelocity)
    ensures
        next@ == advance_spec(current@, direction),
        direction == Direction::Neutral ==> next@ == 0,
        direction == Direction::Negative && current@ >= 0 ==> next@ == -4,
        direction == Direction::Positive && current@ <= 0 ==> next@ == 4,
{
    let value: i8 = mouse_acceleration(&current.value(), direction.code());
    AxisVelocity { value }
}

/// The velocity of an axis after `ticks` ticks with `direction` held
/// throughout, starting from `start`.
pub open spec fn sustained(start: int, direction: Direction, ticks: nat) -> int
    decreases ticks,
{
    if ticks == 0 {
        start
    } else {
        advance_spec(sustained(start, direction, (ticks - 1) as nat), direction)
    }
}

/// Magnitude reached by the given tick of a sustained direction:
/// 4, 8, 16, 32, 64, 64, ... for ticks 1, 2, 3, ...
pub open spec fn ramp(ticks: nat) -> nat
    recommends
        ticks >= 1,
{
    if 4 * pow2((ticks - 1) as nat) < 64 {
        4 * pow2((ticks - 1) as nat)
    } else {
        64
    }
}

/// A velocity stays a velocity, whatever direction is held.
pub proof fn lemma_advance_keeps_velocity(current: int, direction: Direction)
    requires
        is_velocity(current),
    ensures
        is_velocity(advance_spec(current, direction)),
{
}

/// With no direction held an axis stops at once, whatever its velocity was.
pub proof fn lemma_neutral_stops(current: int)
    ensures
        advance_spec(current, Direction::Neutral) == 0,
{
}

/// A direction held against the current movement, or from rest, starts at the
/// first speed of that direction: nothing of the old magnitude is kept.
pub proof fn lemma_reversal_restarts(current: int, direction: Direction)
    requires
        direction != Direction::Neutral,
        current * direction.sign() <= 0,
    ensures
        advance_spec(current, direction) == 4 * direction.sign(),
{
}

/// A direction held from rest for `ticks` ticks gives the magnitude
/// `min(4 * 2^(ticks - 1), 64)`, with the sign of the direction.
pub proof fn lemma_sustained_from_rest(direction: Direction, ticks: nat)
    requires
        direction != Direction::Neutral,
        ticks >= 1,
    ensures
        sustained(0, direction, ticks) == direction.sign() * ramp(ticks),
    decreases ticks,
{
    lemma2_to64();
    if ticks == 1 {
        assert(sustained(0, direction, 0) == 0);
    } else {
        let before = (ticks - 1) as nat;
        lemma_sustained_from_rest(direction, before);
        lemma_pow2_unfold(before);
        if before > 5 {
            lemma_pow2_strictly_increases(4, (before - 1) as nat);
        }
    }
}

} // verus!
