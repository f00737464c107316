//! Assembly of one raw frame from the levels that the controller shifts out.

use vstd::prelude::*;
use crate::decoder::{bit, byte_bits};

verus! {

/// Number of positions that one sampling sequence reads.
pub const FRAME_BITS: u8 = 8;

/// The frame of one sampling sequence while it is read. Its view is the
/// sequence of the levels shifted in so far, each `true` for a pressed input.
#[derive(Clone, Copy, Debug)]
pub struct ShiftRegisterReader {
    frame: u8,
    position: u8,
}

impl View for ShiftRegisterReader {
    type V = Seq<bool>;

    closed spec fn view(&self) -> Seq<bool> {
        Seq::new(self.position as nat, |i: int| bit(self.frame, i as u8))
    }
}

impl ShiftRegisterReader {
    #[verifier::type_invariant]
    pub closed spec fn inv(self) -> bool {
        &&& self.position <= 8
        &&& forall|i: u8| self.position <= i < 8 ==> !bit(self.frame, i)
    }

    /// No reader holds more than a frame.
    pub proof fn lemma_at_most_a_frame(self)
        requires
            self.inv(),
        ensures
            self@.len() <= 8,
    {
    }

    /// A reader that has read nothing yet.
    pub fn new() -> (reader: ShiftRegisterReader)
        ensures
            reader@ == Seq::<bool>::empty(),
    {
        assert(forall|i: u8| i < 8 ==> !bit(0u8, i)) by (bit_vector);
        ShiftRegisterReader { frame: 0, position: 0 }
    }

    /// Number of levels read so far.
    pub fn position(&self) -> (position: u8)
        ensures
            position == self@.len(),
            position <= 8,
    {
        proof {
            use_type_invariant(self);
        }
        self.position
    }

    /// Whether all positions of the frame have been read.
    pub fn is_complete(&self) -> (complete: bool)
        ensures
            complete == (self@.len() == 8),
            self@.len() <= 8,
    {
        proof {
            use_type_invariant(self);
        }
        self.position == FRAME_BITS
    }

    /// Takes the level of the next position: `low` says that the data line
    /// was at logical low, which means pressed.
    pub fn shift_in(&mut self, low: bool)
        requires
            old(self)@.len() < 8,
        ensures
            final(self)@ == old(self)@.push(low),
    {
        proof {
            use_type_invariant(&*self);
        }
        let level: u8 = if low { 1 } else { 0 };
        let frame: u8 = self.frame;
        let position: u8 = self.position;
        let next: u8 = frame | (level << position);
        proof {
            assert(forall|i: u8| i < 8 ==> bit(next, i) == (bit(frame, i) || (i == position && level == 1)))
                by (bit_vector)
                requires
                    next == frame | (level << position),
                    position < 8,
                    level <= 1,
            ;
        }
        *self = ShiftRegisterReader { frame: next, position: position + 1 };
    }

    /// The frame read so far: position `i` holds the level of shift step `i`,
    /// and the positions not read yet are clear.
    pub fn frame(&self) -> (frame: u8)
        ensures
            forall|i: u8| i < 8 ==> bit(frame, i) == (i < self@.len() && self@[i as int]),
            self@.len() == 8 ==> byte_bits(frame) == self@,
    {
        proof {
            use_type_invariant(self);
        }
        self.frame
    }
}

} // verus!
