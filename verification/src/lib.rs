//! A typed, verified model of the Linux rfkill event protocol.
//!
//! The kernel reports and takes the block state of wireless radios as records
//! of eight bytes on one character device. This library holds what those
//! records mean: the enumerations of radio types and operations, the layout
//! of the record, and its decoding into an event. It also holds the rules of
//! a session with the device and of the lookup of a switch's name, as
//! functions from what a system call gave to what follows from it. The calls
//! themselves are left to the program that uses the library.

pub mod consts;
pub mod error;
pub mod event;
pub mod name;
pub mod operation;
pub mod radio;
pub mod rfkill;
pub mod text;

pub use crate::consts::{RFKILL_EVENT_SIZE, RFKILL_NAME_SIZE, RFKILL_PATH, RFKILL_SYS_PATH};
pub use crate::error::{DecodeError, InvalidCode, LengthMismatch, OsError, ReadError, UnknownLabel};
pub use crate::event::{CRfKillEvent, RfKillEvent, WireFields};
pub use crate::operation::RfkillOperations;
pub use crate::radio::RfkillType;
