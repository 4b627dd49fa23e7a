//! Flash memory.
//!
//! The flash memory programming sequence in standard mode is as follows:
//! 1. Check that no flash main memory operation is ongoing, by checking BSY
//!    in the status register.
//! 2. Check that flash program and erase operation is allowed, by checking
//!    PESD in the status register.
//! 3. Clear all error programming flags due to a previous programming.
//! 4. Set PG in the control register.
//! 5. Write the double word at the desired memory address, as two words: the
//!    first to an address aligned with a double word, the second to the word
//!    that follows it. The controller launches the programming when it has
//!    received both.
//! 6. Wait until EOP is set in the status register, and see from the error
//!    flags how the operation ended. Clear EOP.
//! 7. Clear PG in the control register.

use vstd::prelude::*;
use crate::error::Error;
use crate::request::ProgrammingRequest;
use crate::sequencer::{completion, step, Action, Event, State};
use crate::status::{lemma_clear_patterns, StatusSnapshot, CR_PG, SR_CLEAR_ALL, SR_EOP};

verus! {

/// Flash driver.
///
/// The driver owns the peripheral for as long as it lives, and with it the
/// right to program: there is one peripheral, so there is one driver, and no
/// lock is needed. It holds no register itself. It decides, and whoever
/// calls it performs the accesses on the peripheral that it lends out.
#[derive(Debug)]
pub struct Flash<P> {
    flash: P,
    state: State,
}

impl<P> Flash<P> {
    /// The peripheral that the driver owns.
    pub closed spec fn peripheral(&self) -> P {
        self.flash
    }

    /// Where the sequence stands.
    pub closed spec fn spec_state(&self) -> State {
        self.state
    }

    /// Takes the peripheral and makes a driver of it, with no sequence in
    /// progress.
    #[inline]
    pub fn new(flash: P) -> (driver: Self)
        ensures
            driver.peripheral() == flash,
            driver.state() == State::Idle,
    {
        Flash { flash, state: State::Idle }
    }

    /// Gives the peripheral back and ends the driver.
    ///
    /// Nothing is done to the hardware. A sequence that is dropped midway
    /// leaves the registers as its last access left them.
    #[inline]
    pub fn free(self) -> (flash: P)
        ensures
            flash == self.peripheral(),
    {
        self.flash
    }

    /// The peripheral, for access to its registers while the driver owns it.
    pub fn registers(&self) -> (flash: &P)
        ensures
            *flash == self.peripheral(),
    {
        &self.flash
    }

    /// Where the sequence stands.
    #[verifier::when_used_as_spec(spec_state)]
    pub fn state(&self) -> (state: State)
        ensures
            state == self.state(),
    {
        self.state
    }

    /// Whether no sequence is in progress.
    pub fn is_idle(&self) -> (idle: bool)
        ensures
            idle == (self.state() is Idle),
    {
        match self.state {
            State::Idle => true,
            _ => false,
        }
    }

    /// Returns `true` if the `bsy` bit is set in `sr`, a value of the status
    /// register.
    #[inline]
    pub fn bsy(sr: u32) -> (busy: bool)
        ensures
            busy == StatusSnapshot::decode(sr).busy,
    {
        StatusSnapshot::from_bits(sr).busy
    }

    /// Returns `true` if the `pesd` bit is set in `sr`, a value of the
    /// status register.
    #[inline]
    pub fn pesd(sr: u32) -> (suspended: bool)
        ensures
            suspended == StatusSnapshot::decode(sr).suspend,
    {
        StatusSnapshot::from_bits(sr).suspend
    }

    /// The value to write to the status register to clear every flag that an
    /// earlier operation may have left: RDERR, FASTERR, MISSERR, PGSERR,
    /// SIZERR, PGAERR, WRPERR, PROGERR, OPERR and EOP.
    ///
    /// Whatever the flags were, after the write no error flag and no end of
    /// operation is set, and `busy` and `suspend` are as they were.
    pub fn clear_all_err() -> (pattern: u32)
        ensures
            pattern == SR_CLEAR_ALL,
            forall|status: StatusSnapshot|
                #![trigger status.cleared(StatusSnapshot::decode(pattern))]
                {
                    let after = status.cleared(StatusSnapshot::decode(pattern));
                    &&& !after.has_error()
                    &&& !after.eop
                    &&& after.busy == status.busy
                    &&& after.suspend == status.suspend
                },
    {
        proof {
            lemma_clear_patterns();
        }
        SR_CLEAR_ALL
    }

    /// Looks at `sr`, a value of the status register read while waiting for
    /// the operation to end. `None`: it has not ended, read again. `Some`:
    /// it has ended, with this result.
    ///
    /// There is no limit on how often the answer is `None`. A controller
    /// that never sets EOP is waited for until the caller gives up.
    pub fn wait_for_eop(sr: u32) -> (ended: Option<Result<(), Error>>)
        ensures
            ended == completion(sr),
    {
        let status: StatusSnapshot = StatusSnapshot::from_bits(sr);
        if status.eop {
            Some(status.classify())
        } else {
            None
        }
    }

    /// Performs one step of the standard program sequence, which writes the
    /// 64 bits `from` into flash memory at the address `to`.
    ///
    /// The first call starts the sequence. Each call returns the one access
    /// to perform now. The caller performs it and calls again with the same
    /// `to` and `from`, and with what the access gave as `event`, until the
    /// answer is [`Action::Finish`] with the result of the sequence. The
    /// driver is then idle again.
    pub fn standard_program(&mut self, to: u32, from: u64, event: Event) -> (action: Action)
        ensures
            (final(self).state(), action) == step(
                old(self).state(),
                (ProgrammingRequest { destination: to, value: from }),
                event,
            ),
            final(self).peripheral() == old(self).peripheral(),
            action is Finish <==> final(self).state() is Idle,
    {
        let request: ProgrammingRequest = ProgrammingRequest::new(to, from);
        match self.state {
            State::Idle => {
                self.state = State::PreconditionCheck;
                Action::ReadStatus
            },
            State::PreconditionCheck => match event {
                Event::Proceed => Action::ReadStatus,
                Event::Status(sr) => {
                    if Self::bsy(sr) {
                        self.state = State::Idle;
                        Action::Finish(Err(Error::Busy))
                    } else if Self::pesd(sr) {
                        self.state = State::Idle;
                        Action::Finish(Err(Error::Suspend))
                    } else {
                        self.state = State::ErrorClear;
                        Action::WriteStatus(Self::clear_all_err())
                    }
                },
            },
            State::ErrorClear => {
                self.state = State::Enabled;
                Action::SetControl(CR_PG)
            },
            State::Enabled => {
                let (address, value): (u32, u32) = request.first_write();
                self.state = State::FirstHalf;
                Action::WriteWord { address, value }
            },
            State::FirstHalf => {
                let (address, value): (u32, u32) = request.second_write();
                self.state = State::SecondHalf;
                Action::WriteWord { address, value }
            },
            State::SecondHalf => {
                self.state = State::AwaitingCompletion;
                Action::ReadStatus
            },
            State::AwaitingCompletion => match event {
                Event::Proceed => Action::ReadStatus,
                Event::Status(sr) => match Self::wait_for_eop(sr) {
                    None => Action::ReadStatus,
                    Some(result) => {
                        self.state = State::Completed(result);
                        Action::WriteStatus(SR_EOP)
                    },
                },
            },
            State::Completed(result) => {
                self.state = State::Disabled(result);
                Action::ClearControl(CR_PG)
            },
            State::Disabled(result) => {
                self.state = State::Idle;
                Action::Finish(result)
            },
        }
    }
}

} // verus!
