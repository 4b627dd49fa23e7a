//! Failures of a programming sequence.

use vstd::prelude::*;

verus! {

/// Flash errors.
///
/// `Busy` and `Suspend` are found by reading the status register before the
/// controller is touched. The others are reported by the controller after
/// the double word has been written.
#[derive(Clone, Copy, Debug, PartialEq, Eq, Structural)]
pub enum Error {
    /// Busy error.
    ///
    /// A flash programming sequence was started while the previous sequence
    /// was still in progress.
    Busy,
    /// Program erase suspend error.
    ///
    /// A flash programming sequence was started with the program erase
    /// suspend bit set.
    Suspend,
    /// Fast programming data miss error.
    ///
    /// In fast programming mode the next data was not present in time.
    Miss,
    /// Programming sequence error.
    ///
    /// A write access to the flash memory was performed while programming
    /// was not enabled. The controller also raises this flag after an
    /// earlier programming error that was not cleared.
    Sequence,
    /// Size error.
    ///
    /// The access was a byte or a half-word. Only double-word programming is
    /// allowed, as two word accesses.
    Size,
    /// Programming alignment error.
    ///
    /// The data to program cannot be contained in the same double word of
    /// flash memory.
    Align,
    /// Write protection error.
    ///
    /// The address to be programmed belongs to a write-protected part of the
    /// flash memory.
    Wp,
    /// Programming error.
    ///
    /// The double word to be programmed was not erased before programming,
    /// and the data to write is not zero.
    Prog,
    /// Operation error.
    ///
    /// A flash memory operation completed unsuccessfully, for no cause that
    /// the other kinds name.
    Op,
}

} // verus!
