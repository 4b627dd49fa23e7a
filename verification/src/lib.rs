//! Programming sequence of the STM32WL flash memory controller.
//!
//! The controller programs flash one double word (64 bits, aligned to eight
//! bytes) at a time, through a fixed handshake on its status and control
//! registers. This crate holds the decisions of that handshake and no
//! hardware access: [`Flash::standard_program`] answers each step with the
//! single register or memory access to perform next, and the caller performs
//! it and reports back what it read.

pub mod error;
pub mod flash;
pub mod guarantees;
pub mod hardware;
pub mod request;
pub mod sequencer;
pub mod status;

pub use crate::error::Error;
pub use crate::flash::Flash;
pub use crate::request::ProgrammingRequest;
pub use crate::sequencer::{Action, Event, State};
pub use crate::status::StatusSnapshot;
