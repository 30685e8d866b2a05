//! The session with the rfkill device.
//!
//! A session stands for the device opened for reading and writing, without
//! blocking. It makes no call to the operating system itself: it takes what an
//! open, a read or a write gave, and says what that means.

use vstd::prelude::*;
use crate::consts::RFKILL_EVENT_SIZE;
use crate::error::{LengthMismatch, OsError, ReadError};
use crate::event::{
    decode, lemma_wire_round_trip, wire_bytes, wire_fields, CRfKillEvent, RfKillEvent, WireFields,
};
use crate::name::{name_path_of, NameAction, NameLookup};

verus! {

/// What the bytes that one read of the device returned come to: an event, if
/// they are exactly one wire record whose codes are valid.
pub open spec fn received(bytes: Seq<u8>) -> Result<RfKillEvent, ReadError> {
    if bytes.len() != RFKILL_EVENT_SIZE {
        Err(
            ReadError::Length(
                LengthMismatch { expected: RFKILL_EVENT_SIZE, actual: bytes.len() as usize },
            ),
        )
    } else {
        match decode(wire_fields(bytes)) {
            Ok(event) => Ok(event),
            Err(e) => Err(ReadError::Decode(e)),
        }
    }
}

/// An open session with the rfkill device.
#[derive(Debug)]
pub struct RfKill {
    /// The file descriptor of the device.
    pub rfkill_fd: i32,
}

impl RfKill {
    /// Makes the session from what the open of the device gave: a session
    /// around the file descriptor, or the error of the open.
    pub fn new(opened: Result<i32, OsError>) -> (r: Result<RfKill, OsError>)
        ensures
            r == match opened {
                Ok(fd) => Ok::<RfKill, OsError>(RfKill { rfkill_fd: fd }),
                Err(e) => Err(e),
            },
    {
        match opened {
            Ok(fd) => Ok(RfKill { rfkill_fd: fd }),
            Err(e) => Err(e),
        }
    }

    /// Starts the lookup of the name of the switch with the given index, such
    /// as `hci0`. No session is needed for it.
    pub fn get_name(device_idx: u32) -> (first: (NameLookup, NameAction))
        ensures
            first.0 == NameLookup::Opening,
            first.1 matches NameAction::Open { path } && path@ == name_path_of(device_idx),
    {
        NameLookup::start(device_idx)
    }

    /// Says what one read of the device came to. `outcome` holds the bytes
    /// that the read returned, or its error. A failed read is handed on as it
    /// is; bytes that are not exactly one wire record are a length mismatch;
    /// one wire record is decoded.
    pub fn read_event(&self, outcome: Result<&[u8], OsError>) -> (r: Result<RfKillEvent, ReadError>)
        ensures
            r == match outcome {
                Ok(bytes) => received(bytes@),
                Err(e) => Err(ReadError::Os(e)),
            },
    {
        let bytes = match outcome {
            Ok(bytes) => bytes,
            Err(e) => {
                return Err(ReadError::Os(e));
            },
        };
        let record = match CRfKillEvent::from_bytes(bytes) {
            Ok(record) => record,
            Err(e) => {
                return Err(ReadError::Length(e));
            },
        };
        match RfKillEvent::try_from(record) {
            Ok(event) => Ok(event),
            Err(e) => Err(ReadError::Decode(e)),
        }
    }

    /// Says whether the device took an event. `outcome` holds the number of
    /// bytes that the write of the event's record accepted, or its error. The
    /// device took the event when the write accepted the whole record.
    pub fn update_device(&self, outcome: Result<usize, OsError>) -> (accepted: bool)
        ensures
            accepted == (outcome == Ok::<usize, OsError>(RFKILL_EVENT_SIZE)),
    {
        match outcome {
            Ok(written) => written == RFKILL_EVENT_SIZE,
            Err(_) => false,
        }
    }
}

/// Bytes that were read give an event exactly when they are eight and their
/// radio-type and operation bytes are codes. Any other number of bytes is a
/// length mismatch and never a decode error; eight bytes with a byte that is
/// no code are a decode error and never a length mismatch.
pub proof fn lemma_received_refusals(bytes: Seq<u8>)
    ensures
        received(bytes) is Ok <==> bytes.len() == RFKILL_EVENT_SIZE && bytes[4] <= 9 && bytes[5]
            <= 3,
        received(bytes) matches Err(ReadError::Length(_)) <==> bytes.len() != RFKILL_EVENT_SIZE,
        received(bytes) matches Err(ReadError::Decode(_)) <==> bytes.len() == RFKILL_EVENT_SIZE
            && (bytes[4] > 9 || bytes[5] > 3),
        !(received(bytes) matches Err(ReadError::Os(_))),
{
}

/// What is written is what is read: the bytes of a record give the event that
/// the record stands for, and a decode error if it stands for none.
pub proof fn lemma_received_what_was_written(fields: WireFields)
    ensures
        received(wire_bytes(fields)) == match decode(fields) {
            Ok(event) => Ok::<RfKillEvent, ReadError>(event),
            Err(e) => Err(ReadError::Decode(e)),
        },
{
    lemma_wire_round_trip(fields);
}

} // verus!
