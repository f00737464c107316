//! The mouse report and its layout on the wire.

use vstd::prelude::*;
use crate::acceleration::{is_velocity, AxisVelocity};
use crate::decoder::{bit, ButtonState};

verus! {

/// Bit of the button byte that carries button A.
pub const BUTTON_A: u8 = 0x1;

/// Bit of the button byte that carries button B.
pub const BUTTON_B: u8 = 0x2;

/// Bit of the button byte that carries Start, the third logical button.
pub const BUTTON_START: u8 = 0x4;

/// One input report of a three-button relative mouse.
#[derive(Clone, Copy, Debug, PartialEq, Eq, Structural)]
pub struct MouseReport {
    pub buttons: u8,
    pub x: i8,
    pub y: i8,
}

/// The button byte: one bit for each button held, the rest clear.
pub open spec fn button_mask(buttons: ButtonState) -> u8 {
    ((if buttons.a {
        1int
    } else {
        0int
    }) + (if buttons.b {
        2int
    } else {
        0int
    }) + (if buttons.start {
        4int
    } else {
        0int
    })) as u8
}

/// The button byte position by position: A, B and Start in the three lowest
/// positions, and nothing in the five above them.
pub proof fn lemma_button_mask_bits(buttons: ButtonState)
    ensures
        bit(button_mask(buttons), 0) == buttons.a,
        bit(button_mask(buttons), 1) == buttons.b,
        bit(button_mask(buttons), 2) == buttons.start,
        forall|i: u8| 3 <= i < 8 ==> !bit(button_mask(buttons), i),
{
    let mask = button_mask(buttons);
    assert(bit(mask, 0) == (mask % 2 == 1) && bit(mask, 1) == (mask / 2 % 2 == 1) && bit(mask, 2)
        == (mask / 4 == 1) && forall|i: u8| 3 <= i < 8 ==> !bit(mask, i)) by (bit_vector)
        requires
            mask < 8,
    ;
}

/// The byte that carries a signed value in two's complement.
pub open spec fn twos_complement(value: i8) -> u8 {
    if value >= 0 {
        value as u8
    } else {
        (value + 256) as u8
    }
}

/// The report that carries the given buttons and velocities.
pub open spec fn report_spec(buttons: ButtonState, x: int, y: int) -> MouseReport {
    MouseReport { buttons: button_mask(buttons), x: x as i8, y: y as i8 }
}

/// Packs the buttons and the velocity of each axis into a report.
pub fn build(buttons: ButtonState, x: AxisVelocity, y: AxisVelocity) -> (report: MouseReport)
    ensures
        report == report_spec(buttons, x@, y@),
        report.buttons == button_mask(buttons),
        report.x == x@,
        report.y == y@,
        report.well_formed(),
{
    let mut mask: u8 = 0;
    if buttons.a {
        assert(0u8 | 0x1 == 1) by (bit_vector);
        mask = mask | BUTTON_A;
    }
    if buttons.b {
        assert(mask | 0x2 == mask + 2) by (bit_vector)
            requires
                mask < 2,
        ;
        mask = mask | BUTTON_B;
    }
    if buttons.start {
        assert(mask | 0x4 == mask + 4) by (bit_vector)
            requires
                mask < 4,
        ;
        mask = mask | BUTTON_START;
    }
    MouseReport { buttons: mask, x: x.value(), y: y.value() }
}

impl MouseReport {
    /// The three bytes of the report as the host receives them, after the
    /// report ID: the button byte, then X, then Y.
    pub open spec fn wire(self) -> Seq<u8> {
        seq![self.buttons, twos_complement(self.x), twos_complement(self.y)]
    }

    /// Whether the report is one that `build` gives: no reserved bit is set
    /// and each axis holds a velocity.
    pub open spec fn well_formed(self) -> bool {
        &&& self.buttons < 8
        &&& is_velocity(self.x as int)
        &&& is_velocity(self.y as int)
    }

    /// Lays the report out for the wire.
    pub fn to_bytes(&self) -> (bytes: [u8; 3])
        ensures
            bytes@ == self.wire(),
    {
        [self.buttons, signed_byte(self.x), signed_byte(self.y)]
    }
}

/// What `build` gives is well formed.
pub proof fn lemma_built_report_is_well_formed(buttons: ButtonState, x: int, y: int)
    requires
        is_velocity(x),
        is_velocity(y),
    ensures
        report_spec(buttons, x, y).well_formed(),
        report_spec(buttons, x, y).x == x,
        report_spec(buttons, x, y).y == y,
{
}

/// Reinterprets a signed value as the byte that carries it.
pub fn signed_byte(value: i8) -> (byte: u8)
    ensures
        byte == twos_complement(value),
{
    if value >= 0 {
        value as u8
    } else {
        (value as i16 + 256) as u8
    }
}

} // verus!
