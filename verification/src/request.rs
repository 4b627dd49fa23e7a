//! One double word to program, and the two word writes that carry it.

use vstd::prelude::*;

verus! {

/// Two to the power of 32: what one place of the high word is worth.
pub const WORD_RANGE: u64 = 0x1_0000_0000;

/// The low 32 bits of a double word: the word written first.
pub open spec fn low_word(value: u64) -> u32 {
    (value % WORD_RANGE) as u32
}

/// The high 32 bits of a double word: the word written second.
pub open spec fn high_word(value: u64) -> u32 {
    (value / WORD_RANGE) as u32
}

/// The double word that holds `low` in its low half and `high` in its high
/// half. Flash memory is little-endian: the low half has the lower address.
pub open spec fn double_word(low: u32, high: u32) -> u64 {
    (high as int * WORD_RANGE as int + low as int) as u64
}

/// The address of the word that follows the word at `address`. The address
/// space is 32 bits wide, and the last word is followed by the first.
pub open spec fn next_word(address: u32) -> u32 {
    address.wrapping_add(4)
}

/// Splitting a double word and joining the halves gives it back, and the
/// other way round.
pub proof fn lemma_halves(value: u64, low: u32, high: u32)
    ensures
        double_word(low_word(value), high_word(value)) == value,
        low_word(double_word(low, high)) == low,
        high_word(double_word(low, high)) == high,
{
}

/// A request to program one double word: where, and what.
///
/// The controller programs whole double words only, so the destination has
/// to be aligned to eight bytes. A request can be made with any address:
/// it is the controller that finds a misaligned one, when the two words are
/// written, and reports it.
#[derive(Clone, Copy, Debug, PartialEq, Eq, Structural)]
pub struct ProgrammingRequest {
    /// The address in flash memory of the double word.
    pub destination: u32,
    /// The 64 bits to store there.
    pub value: u64,
}

impl ProgrammingRequest {
    /// The destination is aligned to eight bytes.
    pub open spec fn aligned(self) -> bool {
        self.destination % 8 == 0
    }

    /// A request to store `value` at `destination`.
    pub fn new(destination: u32, value: u64) -> (request: ProgrammingRequest)
        ensures
            request == (ProgrammingRequest { destination, value }),
    {
        ProgrammingRequest { destination, value }
    }

    /// Whether the destination is aligned to eight bytes.
    pub fn is_aligned(&self) -> (aligned: bool)
        ensures
            aligned == self.aligned(),
    {
        self.destination % 8 == 0
    }

    /// The first write of the request, as address and value: the low half,
    /// to the destination itself.
    pub fn first_write(&self) -> (write: (u32, u32))
        ensures
            write == (self.destination, low_word(self.value)),
    {
        (self.destination, (self.value % WORD_RANGE) as u32)
    }

    /// The second write of the request, as address and value: the high
    /// half, to the word that follows the destination.
    pub fn second_write(&self) -> (write: (u32, u32))
        ensures
            write == (next_word(self.destination), high_word(self.value)),
            self.aligned() ==> write.0 == self.destination + 4,
    {
        (self.destination.wrapping_add(4), (self.value / WORD_RANGE) as u32)
    }
}

} // verus!
