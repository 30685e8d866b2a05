//! The errors that the library reports.

use vstd::prelude::*;

verus! {

/// A byte that is not the code of any variant of the enumeration it was read for.
#[derive(Debug, Clone, Copy, PartialEq, Eq, Structural)]
pub struct InvalidCode {
    /// The byte as it was found.
    pub code: u8,
}

/// A string that is not the label of any radio type.
#[derive(Debug, Clone, Copy, PartialEq, Eq)]
pub struct UnknownLabel<'a> {
    /// The string as it was given.
    pub label: &'a str,
}

/// Why the fields of a wire record do not make an event.
#[derive(Debug, Clone, Copy, PartialEq, Eq, Structural)]
pub enum DecodeError {
    /// The radio-type byte is the code of no radio type.
    RadioType(InvalidCode),
    /// The operation byte is the code of no operation.
    Operation(InvalidCode),
}

/// A transfer moved another number of bytes than one wire record has.
#[derive(Debug, Clone, Copy, PartialEq, Eq, Structural)]
pub struct LengthMismatch {
    /// The size of one wire record.
    pub expected: usize,
    /// The number of bytes that were moved.
    pub actual: usize,
}

/// A failure that the operating system reported for an open, a read, a write
/// or a close.
#[derive(Debug, Clone, Copy, PartialEq, Eq, Structural)]
pub struct OsError {
    /// The error number as the operating system gave it.
    pub errno: i32,
}

/// Why a read of the rfkill device gave no event.
#[derive(Debug, Clone, Copy, PartialEq, Eq, Structural)]
pub enum ReadError {
    /// The read itself failed. On a device opened without blocking this is
    /// also how "no event is waiting" arrives.
    Os(OsError),
    /// The read returned more or fewer bytes than one wire record.
    Length(LengthMismatch),
    /// The read returned one wire record whose codes name no event.
    Decode(DecodeError),
}

} // verus!
