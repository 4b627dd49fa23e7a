//! The status and control registers, as far as programming reads and writes
//! them.
//!
//! Both cores see the same layout: `FLASH_SR` and `FLASH_CR` on the first
//! core, `FLASH_C2SR` and `FLASH_C2CR` on the second.

use vstd::prelude::*;
use crate::error::Error;

verus! {

/// End of operation, bit 0 of the status register.
pub const SR_EOP: u32 = 0x0000_0001;

/// Operation error, bit 1 of the status register.
pub const SR_OPERR: u32 = 0x0000_0002;

/// Programming error, bit 3 of the status register.
pub const SR_PROGERR: u32 = 0x0000_0008;

/// Write protection error, bit 4 of the status register.
pub const SR_WRPERR: u32 = 0x0000_0010;

/// Programming alignment error, bit 5 of the status register.
pub const SR_PGAERR: u32 = 0x0000_0020;

/// Size error, bit 6 of the status register.
pub const SR_SIZERR: u32 = 0x0000_0040;

/// Programming sequence error, bit 7 of the status register.
pub const SR_PGSERR: u32 = 0x0000_0080;

/// Fast programming data miss error, bit 8 of the status register.
pub const SR_MISSERR: u32 = 0x0000_0100;

/// Fast programming error, bit 9 of the status register.
pub const SR_FASTERR: u32 = 0x0000_0200;

/// Read protection error, bit 14 of the status register.
pub const SR_RDERR: u32 = 0x0000_4000;

/// Busy, bit 16 of the status register. Read-only.
pub const SR_BSY: u32 = 0x0001_0000;

/// Program erase suspend, bit 19 of the status register. Read-only.
pub const SR_PESD: u32 = 0x0008_0000;

/// Every flag of the status register that programming clears before it
/// starts: the error flags and end of operation.
pub const SR_CLEAR_ALL: u32 = 0x0000_43FB;

/// Programming enable, bit 0 of the control register.
pub const CR_PG: u32 = 0x0000_0001;

/// The status register at one instant, flag by flag.
///
/// `busy` and `suspend` are set and cleared by the controller alone. The
/// other flags are sticky: the controller sets them, and they stay set until
/// software writes a one to them.
#[derive(Clone, Copy, Debug, PartialEq, Eq, Structural)]
pub struct StatusSnapshot {
    /// An operation on the flash memory is in progress (BSY).
    pub busy: bool,
    /// Programming and erasing are suspended (PESD).
    pub suspend: bool,
    /// An operation has completed (EOP).
    pub eop: bool,
    /// Fast programming data miss error (MISSERR).
    pub miss: bool,
    /// Programming sequence error (PGSERR).
    pub seq: bool,
    /// Size error (SIZERR).
    pub size: bool,
    /// Programming alignment error (PGAERR).
    pub align: bool,
    /// Write protection error (WRPERR).
    pub wp: bool,
    /// Programming error (PROGERR).
    pub prog: bool,
    /// Operation error (OPERR).
    pub op: bool,
}

impl StatusSnapshot {
    /// The flags that a value of the status register holds.
    pub open spec fn decode(sr: u32) -> StatusSnapshot {
        StatusSnapshot {
            busy: (sr & SR_BSY) != 0,
            suspend: (sr & SR_PESD) != 0,
            eop: (sr & SR_EOP) != 0,
            miss: (sr & SR_MISSERR) != 0,
            seq: (sr & SR_PGSERR) != 0,
            size: (sr & SR_SIZERR) != 0,
            align: (sr & SR_PGAERR) != 0,
            wp: (sr & SR_WRPERR) != 0,
            prog: (sr & SR_PROGERR) != 0,
            op: (sr & SR_OPERR) != 0,
        }
    }

    /// Some error flag is set.
    pub open spec fn has_error(self) -> bool {
        self.miss || self.seq || self.size || self.align || self.wp || self.prog || self.op
    }

    /// How many of the flags that name a cause of their own are set.
    pub open spec fn causes(self) -> nat {
        let miss: nat = if self.miss { 1 } else { 0 };
        let size: nat = if self.size { 1 } else { 0 };
        let align: nat = if self.align { 1 } else { 0 };
        let wp: nat = if self.wp { 1 } else { 0 };
        let prog: nat = if self.prog { 1 } else { 0 };
        miss + size + align + wp + prog
    }

    /// The kind of the first flag, in register order from the top, that
    /// names a cause of its own.
    pub open spec fn first_cause(self) -> Error {
        if self.miss {
            Error::Miss
        } else if self.size {
            Error::Size
        } else if self.align {
            Error::Align
        } else if self.wp {
            Error::Wp
        } else {
            Error::Prog
        }
    }

    /// What the error flags say of the operation that has just ended.
    ///
    /// With no error flag set the operation succeeded. Otherwise the most
    /// specific kind is reported:
    /// * MISSERR, SIZERR, PGAERR, WRPERR and PROGERR each name a cause. Where
    ///   exactly one of them is set, it is the kind, whatever PGSERR and
    ///   OPERR say: the controller raises those two as a consequence.
    /// * With none of the five set, PGSERR gives `Sequence`.
    /// * Anything else is `Op`: OPERR alone, or several causes at once,
    ///   among which the controller defines no order.
    pub open spec fn outcome(self) -> Result<(), Error> {
        if !self.has_error() {
            Ok(())
        } else if self.causes() == 1 {
            Err(self.first_cause())
        } else if self.causes() == 0 && self.seq {
            Err(Error::Sequence)
        } else {
            Err(Error::Op)
        }
    }

    /// The flags after software has written `written` to the status
    /// register: each sticky flag written as one is cleared, each written as
    /// zero stays, and `busy` and `suspend` are not affected.
    pub open spec fn cleared(self, written: StatusSnapshot) -> StatusSnapshot {
        StatusSnapshot {
            busy: self.busy,
            suspend: self.suspend,
            eop: self.eop && !written.eop,
            miss: self.miss && !written.miss,
            seq: self.seq && !written.seq,
            size: self.size && !written.size,
            align: self.align && !written.align,
            wp: self.wp && !written.wp,
            prog: self.prog && !written.prog,
            op: self.op && !written.op,
        }
    }

    /// Every sticky flag that is set in `self` is still set in `later`.
    pub open spec fn kept_by(self, later: StatusSnapshot) -> bool {
        &&& self.eop ==> later.eop
        &&& self.miss ==> later.miss
        &&& self.seq ==> later.seq
        &&& self.size ==> later.size
        &&& self.align ==> later.align
        &&& self.wp ==> later.wp
        &&& self.prog ==> later.prog
        &&& self.op ==> later.op
    }

    /// Reads the flags out of a value of the status register.
    pub fn from_bits(sr: u32) -> (status: StatusSnapshot)
        ensures
            status == StatusSnapshot::decode(sr),
    {
        StatusSnapshot {
            busy: (sr & SR_BSY) != 0,
            suspend: (sr & SR_PESD) != 0,
            eop: (sr & SR_EOP) != 0,
            miss: (sr & SR_MISSERR) != 0,
            seq: (sr & SR_PGSERR) != 0,
            size: (sr & SR_SIZERR) != 0,
            align: (sr & SR_PGAERR) != 0,
            wp: (sr & SR_WRPERR) != 0,
            prog: (sr & SR_PROGERR) != 0,
            op: (sr & SR_OPERR) != 0,
        }
    }

    /// Maps the error flags to the result of the operation that has just
    /// ended, `Ok` where none is set.
    pub fn classify(&self) -> (result: Result<(), Error>)
        ensures
            result == self.outcome(),
            result is Ok <==> !self.has_error(),
    {
        let mut causes: u8 = 0;
        let mut kind: Error = Error::Op;
        if self.prog {
            causes = causes + 1;
            kind = Error::Prog;
        }
        if self.wp {
            causes = causes + 1;
            kind = Error::Wp;
        }
        if self.align {
            causes = causes + 1;
            kind = Error::Align;
        }
        if self.size {
            causes = causes + 1;
            kind = Error::Size;
        }
        if self.miss {
            causes = causes + 1;
            kind = Error::Miss;
        }
        if causes == 1 {
            Err(kind)
        } else if causes > 1 {
            Err(Error::Op)
        } else if self.seq {
            Err(Error::Sequence)
        } else if self.op {
            Err(Error::Op)
        } else {
            Ok(())
        }
    }
}

/// What `SR_CLEAR_ALL` and `SR_EOP` hold, flag by flag: the first every
/// sticky flag and neither read-only one, the second end of operation alone.
pub proof fn lemma_clear_patterns()
    ensures
        StatusSnapshot::decode(SR_CLEAR_ALL) == (StatusSnapshot {
            busy: false,
            suspend: false,
            eop: true,
            miss: true,
            seq: true,
            size: true,
            align: true,
            wp: true,
            prog: true,
            op: true,
        }),
        StatusSnapshot::decode(SR_EOP) == (StatusSnapshot {
            busy: false,
            suspend: false,
            eop: true,
            miss: false,
            seq: false,
            size: false,
            align: false,
            wp: false,
            prog: false,
            op: false,
        }),
        SR_CLEAR_ALL == SR_EOP | SR_OPERR | SR_PROGERR | SR_WRPERR | SR_PGAERR | SR_SIZERR
            | SR_PGSERR | SR_MISSERR | SR_FASTERR | SR_RDERR,
        (CR_PG & CR_PG) != 0,
{
    assert((SR_CLEAR_ALL & SR_BSY) == 0 && (SR_CLEAR_ALL & SR_PESD) == 0 && (SR_CLEAR_ALL
        & SR_EOP) != 0 && (SR_CLEAR_ALL & SR_MISSERR) != 0 && (SR_CLEAR_ALL & SR_PGSERR) != 0 && (
    SR_CLEAR_ALL & SR_SIZERR) != 0 && (SR_CLEAR_ALL & SR_PGAERR) != 0 && (SR_CLEAR_ALL
        & SR_WRPERR) != 0 && (SR_CLEAR_ALL & SR_PROGERR) != 0 && (SR_CLEAR_ALL & SR_OPERR) != 0)
        by (bit_vector);
    assert((SR_EOP & SR_BSY) == 0 && (SR_EOP & SR_PESD) == 0 && (SR_EOP & SR_EOP) != 0 && (SR_EOP
        & SR_MISSERR) == 0 && (SR_EOP & SR_PGSERR) == 0 && (SR_EOP & SR_SIZERR) == 0 && (SR_EOP
        & SR_PGAERR) == 0 && (SR_EOP & SR_WRPERR) == 0 && (SR_EOP & SR_PROGERR) == 0 && (SR_EOP
        & SR_OPERR) == 0) by (bit_vector);
    assert(SR_CLEAR_ALL == SR_EOP | SR_OPERR | SR_PROGERR | SR_WRPERR | SR_PGAERR | SR_SIZERR
        | SR_PGSERR | SR_MISSERR | SR_FASTERR | SR_RDERR) by (bit_vector);
    assert((CR_PG & CR_PG) != 0) by (bit_vector);
}

} // verus!
