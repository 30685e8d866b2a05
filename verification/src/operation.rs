//! What an rfkill event reports or requests.

use vstd::prelude::*;
use vstd::std_specs::convert::TryFromSpecImpl;
use crate::error::InvalidCode;

verus! {

/// The operation that an rfkill event stands for.
#[derive(Debug, Clone, Copy, PartialEq, Eq, Structural)]
pub enum RfkillOperations {
    /// A switch appeared.
    RfKillOpAdd,
    /// A switch disappeared.
    RfKillOpDel,
    /// The block state of one switch changed, or is to change.
    RfKillOpChange,
    /// The block state of all switches of a type is to change.
    RfKillOpChangeAll,
}

impl RfkillOperations {
    /// The code that the kernel gives this operation.
    pub open spec fn code(self) -> u8 {
        match self {
            RfkillOperations::RfKillOpAdd => 0,
            RfkillOperations::RfKillOpDel => 1,
            RfkillOperations::RfKillOpChange => 2,
            RfkillOperations::RfKillOpChangeAll => 3,
        }
    }

    /// The operation that a code stands for, if it stands for one.
    pub open spec fn of_code(code: u8) -> Option<RfkillOperations> {
        match code {
            0 => Some(RfkillOperations::RfKillOpAdd),
            1 => Some(RfkillOperations::RfKillOpDel),
            2 => Some(RfkillOperations::RfKillOpChange),
            3 => Some(RfkillOperations::RfKillOpChangeAll),
            _ => None,
        }
    }

    /// Reads an operation from its kernel code: 0 to 3 give an operation, every
    /// other byte is refused and handed back in the error.
    pub fn from_code(code: u8) -> (r: Result<RfkillOperations, InvalidCode>)
        ensures
            r is Ok <==> code <= 3,
            r == match RfkillOperations::of_code(code) {
                Some(op) => Ok::<RfkillOperations, InvalidCode>(op),
                None => Err(InvalidCode { code }),
            },
    {
        match code {
            0 => Ok(RfkillOperations::RfKillOpAdd),
            1 => Ok(RfkillOperations::RfKillOpDel),
            2 => Ok(RfkillOperations::RfKillOpChange),
            3 => Ok(RfkillOperations::RfKillOpChangeAll),
            _ => Err(InvalidCode { code }),
        }
    }

    /// The kernel code of this operation.
    pub fn to_code(&self) -> (code: u8)
        ensures
            code == self.code(),
    {
        match self {
            RfkillOperations::RfKillOpAdd => 0,
            RfkillOperations::RfKillOpDel => 1,
            RfkillOperations::RfKillOpChange => 2,
            RfkillOperations::RfKillOpChangeAll => 3,
        }
    }
}

impl TryFrom<u8> for RfkillOperations {
    type Error = InvalidCode;

    /// The same as [`RfkillOperations::from_code`].
    fn try_from(value: u8) -> (r: Result<Self, Self::Error>) {
        RfkillOperations::from_code(value)
    }
}

impl TryFromSpecImpl<u8> for RfkillOperations {
    open spec fn obeys_try_from_spec() -> bool {
        true
    }

    open spec fn try_from_spec(value: u8) -> Result<Self, InvalidCode> {
        match RfkillOperations::of_code(value) {
            Some(op) => Ok(op),
            None => Err(InvalidCode { code: value }),
        }
    }
}

/// The codes of the operations are the bytes 0 to 3, and reading a code gives
/// the operation that has it: a code that is read and written again is unchanged.
pub proof fn lemma_operation_code_round_trip(code: u8)
    ensures
        RfkillOperations::of_code(code) is Some <==> code <= 3,
        RfkillOperations::of_code(code) matches Some(op) ==> op.code() == code,
{
}

/// Every operation is read back from its own code.
pub proof fn lemma_operation_round_trip(op: RfkillOperations)
    ensures
        op.code() <= 3,
        RfkillOperations::of_code(op.code()) == Some(op),
{
}

} // verus!
