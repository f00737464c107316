//! Raw controller frames and their meaning.

use vstd::prelude::*;

verus! {

/// Positions of a frame, in the order in which the controller shifts them out.
pub const BIT_A: u8 = 0;

pub const BIT_B: u8 = 1;

/// Select is sampled like the others and means nothing to the bridge.
pub const BIT_SELECT: u8 = 2;

pub const BIT_START: u8 = 3;

pub const BIT_UP: u8 = 4;

pub const BIT_DOWN: u8 = 5;

pub const BIT_LEFT: u8 = 6;

pub const BIT_RIGHT: u8 = 7;

/// Whether position `i` of `byte` is asserted.
pub open spec fn bit(byte: u8, i: u8) -> bool {
    (byte >> i) & 1 == 1
}

/// A byte as the sequence of its eight positions, lowest first. A raw frame is
/// read through this view: position `i` is the state of input `i`.
pub open spec fn byte_bits(byte: u8) -> Seq<bool> {
    Seq::new(8, |i: int| bit(byte, i as u8))
}

/// Two bytes with the same positions are the same byte.
pub proof fn lemma_bits_determine_byte(a: u8, b: u8)
    requires
        byte_bits(a) == byte_bits(b),
    ensures
        a == b,
{
    assert forall|i: u8| i < 8 implies bit(a, i) == bit(b, i) by {
        assert(byte_bits(b)[i as int] == bit(b, i));
    }
    assert(a == b) by (bit_vector)
        requires
            bit(a, 0) == bit(b, 0),
            bit(a, 1) == bit(b, 1),
            bit(a, 2) == bit(b, 2),
            bit(a, 3) == bit(b, 3),
            bit(a, 4) == bit(b, 4),
            bit(a, 5) == bit(b, 5),
            bit(a, 6) == bit(b, 6),
            bit(a, 7) == bit(b, 7),
    ;
}

/// Reads one position of a byte.
pub fn is_set(byte: u8, i: u8) -> (set: bool)
    requires
        i < 8,
    ensures
        set == bit(byte, i),
{
    (byte >> i) & 1 == 1
}

/// Directional signal of one axis.
#[derive(Clone, Copy, Debug, PartialEq, Eq, Structural)]
pub enum Direction {
    Negative,
    Neutral,
    Positive,
}

impl Direction {
    /// The signed unit that stands for a direction: -1, 0 or 1.
    pub open spec fn sign(self) -> int {
        match self {
            Direction::Negative => -1,
            Direction::Neutral => 0,
            Direction::Positive => 1,
        }
    }

    /// The direction that a signed code asks for. Every code other than 1 and
    /// -1 asks for no movement.
    pub open spec fn of_code(code: int) -> Direction {
        if code == 1 {
            Direction::Positive
        } else if code == -1 {
            Direction::Negative
        } else {
            Direction::Neutral
        }
    }

    /// The signed unit of this direction, as a machine integer.
    pub fn code(self) -> (code: i8)
        ensures
            code == self.sign(),
            Direction::of_code(code as int) == self,
    {
        match self {
            Direction::Negative => -1,
            Direction::Neutral => 0,
            Direction::Positive => 1,
        }
    }
}


/// The three buttons that reach the host.
#[derive(Clone, Copy, Debug, PartialEq, Eq, Structural)]
pub struct ButtonState {
    pub a: bool,
    pub b: bool,
    pub start: bool,
}

/// Direction of an axis from the two inputs that push it. With both held, the
/// negative input wins.
pub open spec fn axis_direction(negative: bool, positive: bool) -> Direction {
    if negative {
        Direction::Negative
    } else if positive {
        Direction::Positive
    } else {
        Direction::Neutral
    }
}

/// Meaning of the eight positions of a frame: the buttons, the direction of
/// the X axis (left is negative) and the direction of the Y axis (up is
/// negative).
pub open spec fn decode_spec(bits: Seq<bool>) -> (ButtonState, Direction, Direction)
    recommends
        bits.len() == 8,
{
    (
        ButtonState { a: bits[BIT_A as int], b: bits[BIT_B as int], start: bits[BIT_START as int] },
        axis_direction(bits[BIT_LEFT as int], bits[BIT_RIGHT as int]),
        axis_direction(bits[BIT_UP as int], bits[BIT_DOWN as int]),
    )
}

/// Maps a raw frame to the buttons and to the directions of X and Y.
pub fn decode(frame: u8) -> (out: (ButtonState, Direction, Direction))
    ensures
        out == decode_spec(byte_bits(frame)),
        out.0.a == bit(frame, BIT_A),
        out.0.b == bit(frame, BIT_B),
        out.0.start == bit(frame, BIT_START),
        out.1 == axis_direction(bit(frame, BIT_LEFT), bit(frame, BIT_RIGHT)),
        out.2 == axis_direction(bit(frame, BIT_UP), bit(frame, BIT_DOWN)),
        bit(frame, BIT_LEFT) ==> out.1 == Direction::Negative,
        bit(frame, BIT_UP) ==> out.2 == Direction::Negative,
{
    let buttons = ButtonState {
        a: is_set(frame, BIT_A),
        b: is_set(frame, BIT_B),
        start: is_set(frame, BIT_START),
    };
    let x = if is_set(frame, BIT_LEFT) {
        Direction::Negative
    } else if is_set(frame, BIT_RIGHT) {
        Direction::Positive
    } else {
        Direction::Neutral
    };
    let y = if is_set(frame, BIT_UP) {
        Direction::Negative
    } else if is_set(frame, BIT_DOWN) {
        Direction::Positive
    } else {
        Direction::Neutral
    };
    (buttons, x, y)
}

/// Select changes nothing: two frames that differ in that position alone
/// decode alike.
pub proof fn lemma_select_is_ignored(bits: Seq<bool>, select: bool)
    requires
        bits.len() == 8,
    ensures
        decode_spec(bits.update(BIT_SELECT as int, select)) == decode_spec(bits),
{
}

} // verus!
