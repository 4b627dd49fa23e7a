//! The programming sequence as a state machine.
//!
//! The sequence alternates between the driver's decisions and accesses to
//! the hardware. The decisions are the function [`step`]: from where the
//! sequence stands and what the last access gave, to where it stands next
//! and the one access to perform now. Whoever owns the registers performs
//! that access and calls again.
//!
//! ```text
//! Idle -> PreconditionCheck -> Idle                       busy or suspended
//!                           -> ErrorClear -> Enabled -> FirstHalf -> SecondHalf
//!                              -> AwaitingCompletion -> Completed -> Disabled -> Idle
//! ```

use vstd::prelude::*;
use crate::error::Error;
use crate::request::{high_word, low_word, next_word, ProgrammingRequest};
use crate::status::{StatusSnapshot, CR_PG, SR_CLEAR_ALL, SR_EOP};

verus! {

/// Where a programming sequence stands. Each state but `Idle` is named for
/// the access that was asked for last, and which has been performed when
/// the next step is taken.
#[derive(Clone, Copy, Debug, PartialEq, Eq)]
pub enum State {
    /// No sequence is in progress.
    Idle,
    /// The status register is being read, to see whether the controller is
    /// busy or suspended.
    PreconditionCheck,
    /// The flags left by earlier operations are being cleared.
    ErrorClear,
    /// Programming is being enabled.
    Enabled,
    /// The low half of the double word is being written.
    FirstHalf,
    /// The high half of the double word is being written.
    SecondHalf,
    /// The status register is being read, to see whether the operation has
    /// ended.
    AwaitingCompletion,
    /// The operation has ended with this result, and the end of operation
    /// flag is being cleared.
    Completed(Result<(), Error>),
    /// Programming is being disabled. The sequence will finish with this
    /// result.
    Disabled(Result<(), Error>),
}

/// What the caller reports when it asks for the next step.
#[derive(Clone, Copy, Debug, PartialEq, Eq)]
pub enum Event {
    /// Nothing was read: the sequence is to start, or the write asked for
    /// last has been performed.
    Proceed,
    /// The value of the status register, read as asked.
    Status(u32),
}

/// One access to the hardware, or the end of the sequence.
#[derive(Clone, Copy, Debug, PartialEq, Eq)]
pub enum Action {
    /// Read the status register and report its value.
    ReadStatus,
    /// Write this value to the status register. Its flags are cleared by
    /// writing one: the flags set in the value are cleared, the others are
    /// left as they are.
    WriteStatus(u32),
    /// Set these bits of the control register, and leave the others as they
    /// are.
    SetControl(u32),
    /// Clear these bits of the control register, and leave the others as
    /// they are.
    ClearControl(u32),
    /// Write `value` as one 32-bit word to flash memory at `address`.
    WriteWord { address: u32, value: u32 },
    /// Nothing more is to be done: the sequence has ended with this result.
    Finish(Result<(), Error>),
}

/// Whether the operation has ended, going by a value of the status
/// register, and with what result.
///
/// The end of operation flag alone says that it has ended. Until that flag
/// is set the answer is `None`, whatever else is set. Once it is set, the
/// error flags decide the result, as [`StatusSnapshot::outcome`] says.
pub open spec fn completion(sr: u32) -> Option<Result<(), Error>> {
    let status = StatusSnapshot::decode(sr);
    if status.eop {
        Some(status.outcome())
    } else {
        None
    }
}

/// One step of the sequence that programs `request`: the next state, and
/// the access to perform now.
///
/// Only two states look at the event, the two that wait for the status
/// register. Handed no status they ask for the read again. Every other
/// state takes any event to mean that its write has been performed.
pub open spec fn step(state: State, request: ProgrammingRequest, event: Event) -> (State, Action) {
    match state {
        State::Idle => (State::PreconditionCheck, Action::ReadStatus),
        State::PreconditionCheck => match event {
            Event::Proceed => (State::PreconditionCheck, Action::ReadStatus),
            Event::Status(sr) => {
                let status = StatusSnapshot::decode(sr);
                if status.busy {
                    (State::Idle, Action::Finish(Err(Error::Busy)))
                } else if status.suspend {
                    (State::Idle, Action::Finish(Err(Error::Suspend)))
                } else {
                    (State::ErrorClear, Action::WriteStatus(SR_CLEAR_ALL))
                }
            },
        },
        State::ErrorClear => (State::Enabled, Action::SetControl(CR_PG)),
        State::Enabled => (
            State::FirstHalf,
            Action::WriteWord { address: request.destination, value: low_word(request.value) },
        ),
        State::FirstHalf => (
            State::SecondHalf,
            Action::WriteWord {
                address: next_word(request.destination),
                value: high_word(request.value),
            },
        ),
        State::SecondHalf => (State::AwaitingCompletion, Action::ReadStatus),
        State::AwaitingCompletion => match event {
            Event::Proceed => (State::AwaitingCompletion, Action::ReadStatus),
            Event::Status(sr) => match completion(sr) {
                None => (State::AwaitingCompletion, Action::ReadStatus),
                Some(result) => (State::Completed(result), Action::WriteStatus(SR_EOP)),
            },
        },
        State::Completed(result) => (State::Disabled(result), Action::ClearControl(CR_PG)),
        State::Disabled(result) => (State::Idle, Action::Finish(result)),
    }
}

/// The action writes to a register or to flash memory.
pub open spec fn is_write(action: Action) -> bool {
    action is WriteStatus || action is SetControl || action is ClearControl || action is WriteWord
}

} // verus!
