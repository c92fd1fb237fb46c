//! Vector numbering for the chained pair of interrupt controllers.
//!
//! Both controllers are remapped once at startup: the primary to
//! `PIC_1_OFFSET` and the secondary to `PIC_2_OFFSET`. The device interrupt
//! vectors are derived arithmetically from the primary offset, so adding a
//! device line only extends the enumeration and can never drift away from
//! the remapped controller ranges. The port writes that program the
//! controllers and acknowledge interrupts happen outside this crate, with
//! the vector numbers computed here.

use vstd::prelude::*;

verus! {

/// Vector offset the primary controller is programmed with: the first vector
/// past the 32 slots the CPU reserves for its own exceptions.
pub const PIC_1_OFFSET: u8 = 32;

/// Vector offset of the secondary controller: one full controller (8 lines)
/// past the primary.
pub const PIC_2_OFFSET: u8 = PIC_1_OFFSET + 8;

/// Number of interrupt lines each controller handles.
pub const LINES_PER_CONTROLLER: u8 = 8;

/// The device-interrupt lines this core services, in controller line order
/// on the primary controller.
#[derive(Debug, Clone, Copy, PartialEq, Eq, Structural)]
pub enum InterruptIndex {
    Timer,
    Keyboard,
}

impl InterruptIndex {
    /// Line position of this device on the primary controller.
    pub open spec fn spec_position(self) -> u8 {
        match self {
            InterruptIndex::Timer => 0,
            InterruptIndex::Keyboard => 1,
        }
    }

    /// The vector this device is delivered on under a given base offset.
    pub open spec fn spec_vector(self, base: u8) -> int {
        base + self.spec_position()
    }

    pub fn as_u8(self) -> (v: u8)
        ensures
            v == self.spec_vector(PIC_1_OFFSET),
    {
        match self {
            InterruptIndex::Timer => PIC_1_OFFSET,
            InterruptIndex::Keyboard => PIC_1_OFFSET + 1,
        }
    }

    pub fn as_usize(self) -> (v: usize)
        ensures
            v == self.spec_vector(PIC_1_OFFSET),
    {
        self.as_u8() as usize
    }
}

/// True when the given vector falls in the range one of the two remapped
/// controllers delivers.
pub open spec fn controller_handles(base1: u8, base2: u8, vector: int) -> bool {
    ||| base1 <= vector < base1 + LINES_PER_CONTROLLER as int
    ||| base2 <= vector < base2 + LINES_PER_CONTROLLER as int
}

/// Law: under the fixed base offset of 32 the timer vector is exactly 32 and
/// the keyboard vector exactly 33.
pub proof fn lemma_device_vectors()
    ensures
        InterruptIndex::Timer.spec_vector(PIC_1_OFFSET) == 32,
        InterruptIndex::Keyboard.spec_vector(PIC_1_OFFSET) == 33,
{
}

/// Law: changing the base offset shifts both device vectors by the same
/// amount, keeping the keyboard exactly one vector above the timer.
pub proof fn lemma_vector_spacing(base: u8)
    ensures
        InterruptIndex::Timer.spec_vector(base) == base,
        InterruptIndex::Keyboard.spec_vector(base) == InterruptIndex::Timer.spec_vector(base) + 1,
{
}

/// Law: every device vector this core services lies in the primary
/// controller's remapped range, so the vector numbers and the controller
/// offsets can never disagree.
pub proof fn lemma_device_vectors_in_controller_range(idx: InterruptIndex)
    ensures
        controller_handles(PIC_1_OFFSET, PIC_2_OFFSET, idx.spec_vector(PIC_1_OFFSET)),
{
}

} // verus!
