//! A model of the flash memory controller, for stating what the programming
//! sequence achieves.
//!
//! The model is ghost: nothing here is compiled. It says how the controller
//! answers each access of the driver, and what it may do on its own between
//! two accesses. It allows more than a real controller does wherever the
//! reference manual leaves room, so that what is proved of the driver
//! against the model holds of the driver against the controller.

use vstd::prelude::*;
use crate::request::{double_word, high_word, low_word, next_word, ProgrammingRequest};
use crate::sequencer::Action;
use crate::status::{StatusSnapshot, CR_PG};

verus! {

/// The controller and the flash memory behind it, at one instant.
pub struct Controller {
    /// The flags of the status register.
    pub status: StatusSnapshot,
    /// The PG bit of the control register: programming is enabled.
    pub programming: bool,
    /// The word stored at each word address of flash memory.
    pub memory: Map<u32, u32>,
    /// The first word of a double word, as address and value, once it has
    /// been written and until the second is.
    pub latch: Option<(u32, u32)>,
    /// The double word that is being programmed, from the write of its
    /// second word until the operation ends.
    pub pending: Option<ProgrammingRequest>,
}

/// The memory after `request` has been programmed into `memory`.
pub open spec fn stored(memory: Map<u32, u32>, request: ProgrammingRequest) -> Map<u32, u32> {
    memory.insert(request.destination, low_word(request.value)).insert(
        next_word(request.destination),
        high_word(request.value),
    )
}

/// The 64 bits that `memory` holds in the two words at `address`.
pub open spec fn read_back(memory: Map<u32, u32>, address: u32) -> u64 {
    double_word(memory[address], memory[next_word(address)])
}

/// `after` holds what `before` holds in every word but the two of
/// `request`.
pub open spec fn same_outside(
    before: Map<u32, u32>,
    after: Map<u32, u32>,
    request: ProgrammingRequest,
) -> bool {
    forall|address: u32|
        address != request.destination && address != next_word(request.destination) ==> (
        #[trigger] after.contains_key(address)) == before.contains_key(address) && after[address]
            == before[address]
}

impl Controller {
    /// While a double word is being programmed, BSY is set.
    pub open spec fn coherent(self) -> bool {
        self.pending is Some ==> self.status.busy
    }

    /// No double word is half written.
    pub open spec fn at_rest(self) -> bool {
        self.latch is None
    }

    /// The controller after one word has been written to flash memory.
    ///
    /// * With programming disabled the word is refused, and PGSERR is set.
    /// * The first word of a pair is kept until the second comes.
    /// * The second word launches the programming of the double word, and
    ///   sets BSY, if the first went to an address aligned to eight bytes
    ///   and the second to the word after it. If not, the pair is dropped
    ///   and PGAERR is set.
    /// * A word written while a double word is being programmed changes
    ///   nothing here. The driver checks BSY before it writes, and nothing
    ///   in this crate rests on that case.
    pub open spec fn write_word(self, address: u32, value: u32) -> Controller {
        if self.pending is Some {
            self
        } else if !self.programming {
            Controller { status: StatusSnapshot { seq: true, ..self.status }, ..self }
        } else {
            match self.latch {
                None => Controller { latch: Some((address, value)), ..self },
                Some((first, low)) => if first % 8 == 0 && address == first + 4 {
                    Controller {
                        status: StatusSnapshot { busy: true, ..self.status },
                        latch: None,
                        pending: Some(
                            ProgrammingRequest {
                                destination: first,
                                value: double_word(low, value),
                            },
                        ),
                        ..self
                    }
                } else {
                    Controller {
                        status: StatusSnapshot { align: true, ..self.status },
                        latch: None,
                        ..self
                    }
                },
            }
        }
    }

    /// The controller right after the driver's access `action`.
    ///
    /// Reading changes nothing. A write to the status register clears the
    /// sticky flags written as one. Of the control register the model keeps
    /// the PG bit only.
    pub open spec fn access(self, action: Action) -> Controller {
        match action {
            Action::ReadStatus => self,
            Action::WriteStatus(written) => Controller {
                status: self.status.cleared(StatusSnapshot::decode(written)),
                ..self
            },
            Action::SetControl(bits) => Controller {
                programming: self.programming || (bits & CR_PG) != 0,
                ..self
            },
            Action::ClearControl(bits) => Controller {
                programming: self.programming && (bits & CR_PG) == 0,
                ..self
            },
            Action::WriteWord { address, value } => self.write_word(address, value),
            Action::Finish(_) => self,
        }
    }

    /// What the controller may do on its own, from `self` to `later`,
    /// between two accesses of the driver.
    ///
    /// * It never changes PG, and never drops a first word.
    /// * It never clears a sticky flag. It may set any error flag at any
    ///   time.
    /// * BSY and PESD are its own, but BSY stays set while a double word is
    ///   being programmed.
    /// * Memory changes, and EOP is set, only when an operation ends. An
    ///   operation that ends well has stored its double word and set EOP.
    ///   One that ends badly has set an error flag, and has left every word
    ///   outside its double word as it was.
    pub open spec fn evolves(self, later: Controller) -> bool {
        &&& later.programming == self.programming
        &&& later.latch == self.latch
        &&& self.status.kept_by(later.status)
        &&& later.coherent()
        &&& match self.pending {
            None => {
                &&& later.pending is None
                &&& later.memory == self.memory
                &&& later.status.eop == self.status.eop
            },
            Some(request) => {
                ||| {
                    &&& later.pending == self.pending
                    &&& later.memory == self.memory
                    &&& later.status.eop == self.status.eop
                }
                ||| {
                    &&& later.pending is None
                    &&& later.memory == stored(self.memory, request)
                    &&& later.status.eop
                }
                ||| {
                    &&& later.pending is None
                    &&& same_outside(self.memory, later.memory, request)
                    &&& later.status.has_error()
                }
            },
        }
    }

    /// The controller sets no error flag on its own from `self` to `later`.
    pub open spec fn raises_nothing(self, later: Controller) -> bool {
        &&& later.status.miss ==> self.status.miss
        &&& later.status.seq ==> self.status.seq
        &&& later.status.size ==> self.status.size
        &&& later.status.align ==> self.status.align
        &&& later.status.wp ==> self.status.wp
        &&& later.status.prog ==> self.status.prog
        &&& later.status.op ==> self.status.op
    }
}

/// Programming a double word changes no word but its two, and reading it
/// back from an aligned address gives the double word.
pub proof fn lemma_stored_reads_back(memory: Map<u32, u32>, request: ProgrammingRequest)
    ensures
        same_outside(memory, stored(memory, request), request),
        request.aligned() ==> read_back(stored(memory, request), request.destination)
            == request.value,
{
    crate::request::lemma_halves(request.value, 0, 0);
}

/// What is outside one double word and unchanged stays readable: a double
/// word at another aligned address reads as before.
pub proof fn lemma_other_double_word(
    before: Map<u32, u32>,
    after: Map<u32, u32>,
    request: ProgrammingRequest,
    address: u32,
)
    requires
        same_outside(before, after, request),
        request.aligned(),
        address % 8 == 0,
        address != request.destination,
    ensures
        read_back(after, address) == read_back(before, address),
{
    assert(after.contains_key(address) == before.contains_key(address));
    assert(after.contains_key(next_word(address)) == before.contains_key(next_word(address)));
}

} // verus!
