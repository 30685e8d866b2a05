//! The lookup of a switch's name in sysfs.
//!
//! The name of switch `n` is the first line of the file `name` in the
//! directory of that switch. Reading it takes an open, a read and a close.
//! This module makes none of these calls. It says which of them comes next,
//! takes what the call gave, and so sees to it that a file that was opened is
//! closed on every path, before the lookup ends.

use vstd::prelude::*;
use vstd::string::StringExecFns;
use vstd::utf8::{
    decode_utf8, encode_utf8, encode_utf8_decode_utf8, encode_utf8_valid_utf8, is_ascii_chars,
    is_ascii_chars_encode_utf8, valid_utf8,
};
use crate::consts::{RFKILL_NAME_SIZE, RFKILL_SYS_PATH};
use crate::error::OsError;
use crate::text::{decimal, decimal_string, decode_lossy, first_line, first_line_of, utf8_lossy};

verus! {

/// The path of the file that holds the name of the switch with the given
/// index: the sysfs directory of the switch, then `/name`.
pub open spec fn name_path_of(device_idx: u32) -> Seq<char> {
    RFKILL_SYS_PATH@ + decimal(device_idx as nat) + "/name"@
}

/// The name that a buffer read from a name file holds: the buffer read as
/// text, up to its first newline, and all of it if it holds none.
pub open spec fn device_name_of(buffer: Seq<u8>) -> Seq<char> {
    first_line_of(utf8_lossy(buffer))
}

/// Whether `name` is the name that `buffer` holds. Of a buffer that holds
/// UTF-8 it is the first line of the text that the buffer encodes.
pub open spec fn holds_name(buffer: Seq<u8>, name: Seq<char>) -> bool {
    &&& name == device_name_of(buffer)
    &&& valid_utf8(buffer) ==> name == first_line_of(decode_utf8(buffer))
}

/// The text that ASCII bytes encode: each byte is one character.
pub open spec fn ascii_text(bytes: Seq<u8>) -> Seq<char> {
    Seq::new(bytes.len(), |i: int| bytes[i] as char)
}

/// Builds the path of the name file of a switch.
pub fn name_path(device_idx: u32) -> (path: String)
    ensures
        path@ == name_path_of(device_idx),
{
    let index = decimal_string(device_idx);
    RFKILL_SYS_PATH.to_owned().concat(index.as_str()).concat("/name")
}

/// Takes the name of a switch out of the buffer into which its name file was
/// read. The whole buffer counts, not only the bytes that the read filled.
pub fn device_name(buffer: &[u8]) -> (name: String)
    ensures
        holds_name(buffer@, name@),
{
    let text = decode_lossy(buffer);
    first_line(text.as_str())
}

/// The call that a lookup asks for next.
#[derive(Debug, PartialEq, Eq)]
pub enum NameAction {
    /// Open the file at `path` for reading.
    Open { path: String },
    /// Read once from `fd` into a buffer of `len` zero bytes.
    Read { fd: i32, len: usize },
    /// Close `fd`.
    Close { fd: i32 },
    /// Make no call: the lookup has ended, with `result`.
    Finish { result: Result<String, OsError> },
}

/// What the call that a lookup asked for gave.
#[derive(Debug, PartialEq, Eq)]
pub enum NameEvent {
    /// The open gave the file descriptor `fd`.
    Opened { fd: i32 },
    /// The read succeeded; `buffer` is the whole buffer as the read left it.
    ReadDone { buffer: Vec<u8> },
    /// The close succeeded.
    Closed,
    /// The call failed.
    Failed { error: OsError },
}

/// How far a lookup has come.
#[derive(Debug, PartialEq, Eq)]
pub enum NameLookup {
    /// The open was asked for.
    Opening,
    /// The file is open as `fd`, and the read was asked for.
    Reading { fd: i32 },
    /// The close was asked for; `result` is what the read came to.
    Closing { result: Result<String, OsError> },
    /// The lookup has ended.
    Finished,
}

impl NameLookup {
    /// The file descriptor that the lookup holds open and has not yet asked
    /// to close.
    pub open spec fn open_fd(self) -> Option<i32> {
        match self {
            NameLookup::Reading { fd } => Some(fd),
            _ => None,
        }
    }

    /// Whether `event` can be what the call gave that the lookup in this
    /// state asked for.
    pub open spec fn accepts(self, event: NameEvent) -> bool {
        match (self, event) {
            (NameLookup::Opening, NameEvent::Opened { .. }) => true,
            (NameLookup::Opening, NameEvent::Failed { .. }) => true,
            (NameLookup::Reading { .. }, NameEvent::ReadDone { .. }) => true,
            (NameLookup::Reading { .. }, NameEvent::Failed { .. }) => true,
            (NameLookup::Closing { .. }, NameEvent::Closed) => true,
            (NameLookup::Closing { .. }, NameEvent::Failed { .. }) => true,
            _ => false,
        }
    }

    /// Whether the lookup, taken from this state by `event`, comes to the
    /// state `next` and asks for `action`.
    ///
    /// A failed open ends the lookup with its error. After a read, failed or
    /// not, the file is closed. A failed close ends the lookup with its own
    /// error, whatever the read came to; after a close that succeeded the
    /// lookup ends with the name that was read, or with the error of the read.
    pub open spec fn steps(self, event: NameEvent, next: NameLookup, action: NameAction) -> bool {
        match (self, event) {
            (NameLookup::Opening, NameEvent::Opened { fd }) => {
                &&& next == NameLookup::Reading { fd }
                &&& action == NameAction::Read { fd, len: RFKILL_NAME_SIZE }
            },
            (NameLookup::Opening, NameEvent::Failed { error }) => {
                &&& next == NameLookup::Finished
                &&& action == NameAction::Finish { result: Err(error) }
            },
            (NameLookup::Reading { fd }, NameEvent::ReadDone { buffer }) => {
                &&& next matches NameLookup::Closing { result: Ok(name) }
                &&& holds_name(buffer@, name@)
                &&& action == NameAction::Close { fd }
            },
            (NameLookup::Reading { fd }, NameEvent::Failed { error }) => {
                &&& next == NameLookup::Closing { result: Err(error) }
                &&& action == NameAction::Close { fd }
            },
            (NameLookup::Closing { result }, NameEvent::Closed) => {
                &&& next == NameLookup::Finished
                &&& action == NameAction::Finish { result }
            },
            (NameLookup::Closing { .. }, NameEvent::Failed { error }) => {
                &&& next == NameLookup::Finished
                &&& action == NameAction::Finish { result: Err(error) }
            },
            _ => false,
        }
    }

    /// Starts the lookup of the name of the switch with the given index: the
    /// first call is the open of its name file.
    pub fn start(device_idx: u32) -> (first: (NameLookup, NameAction))
        ensures
            first.0 == NameLookup::Opening,
            first.1 matches NameAction::Open { path } && path@ == name_path_of(device_idx),
    {
        (NameLookup::Opening, NameAction::Open { path: name_path(device_idx) })
    }

    /// Tells whether `event` can be what the call gave that this lookup asked
    /// for.
    pub fn expects(&self, event: &NameEvent) -> (b: bool)
        ensures
            b == self.accepts(*event),
    {
        match (self, event) {
            (NameLookup::Opening, NameEvent::Opened { .. }) => true,
            (NameLookup::Opening, NameEvent::Failed { .. }) => true,
            (NameLookup::Reading { .. }, NameEvent::ReadDone { .. }) => true,
            (NameLookup::Reading { .. }, NameEvent::Failed { .. }) => true,
            (NameLookup::Closing { .. }, NameEvent::Closed) => true,
            (NameLookup::Closing { .. }, NameEvent::Failed { .. }) => true,
            _ => false,
        }
    }

    /// Takes what the last call gave, and says how the lookup goes on.
    pub fn advance(self, event: NameEvent) -> (step: (NameLookup, NameAction))
        requires
            self.accepts(event),
        ensures
            self.steps(event, step.0, step.1),
    {
        match (self, event) {
            (NameLookup::Opening, NameEvent::Opened { fd }) => (
                NameLookup::Reading { fd },
                NameAction::Read { fd, len: RFKILL_NAME_SIZE },
            ),
            (NameLookup::Reading { fd }, NameEvent::ReadDone { buffer }) => (
                NameLookup::Closing { result: Ok(device_name(buffer.as_slice())) },
                NameAction::Close { fd },
            ),
            (NameLookup::Reading { fd }, NameEvent::Failed { error }) => (
                NameLookup::Closing { result: Err(error) },
                NameAction::Close { fd },
            ),
            (NameLookup::Closing { result }, NameEvent::Closed) => (
                NameLookup::Finished,
                NameAction::Finish { result },
            ),
            (NameLookup::Opening, NameEvent::Failed { error })
            | (NameLookup::Closing { .. }, NameEvent::Failed { error }) => (
                NameLookup::Finished,
                NameAction::Finish { result: Err(error) },
            ),
            _ => unreached(),
        }
    }
}

/// Of a buffer of ASCII bytes the name is what stands before the first newline
/// byte, each byte as a character; zero bytes count like any other.
pub proof fn lemma_ascii_name(buffer: Seq<u8>, name: Seq<char>)
    requires
        forall|i: int| 0 <= i < buffer.len() ==> buffer[i] < 128,
        holds_name(buffer, name),
    ensures
        name == first_line_of(ascii_text(buffer)),
{
    let text = ascii_text(buffer);
    assert(is_ascii_chars(text));
    is_ascii_chars_encode_utf8(text);
    assert(encode_utf8(text) =~= buffer);
    encode_utf8_valid_utf8(text);
    encode_utf8_decode_utf8(text);
}

/// A lookup closes what it opened. While a file is open and its close has
/// not been asked for, the next call is the close of that file, whatever the
/// read gave; the lookup ends only when no file is left open; and only an
/// open that succeeded leaves a file open.
pub proof fn lemma_lookup_closes_what_it_opened(
    state: NameLookup,
    event: NameEvent,
    next: NameLookup,
    action: NameAction,
)
    requires
        state.steps(event, next, action),
    ensures
        state.accepts(event),
        state.open_fd() matches Some(fd) ==> action == (NameAction::Close { fd }),
        action is Finish ==> state.open_fd() is None && next == NameLookup::Finished,
        next.open_fd() matches Some(fd) ==> state == NameLookup::Opening && event
            == (NameEvent::Opened { fd }),
{
}

/// A lookup whose open fails makes no other call, and ends with the error of
/// the open.
pub proof fn lemma_lookup_open_failed(error: OsError, next: NameLookup, action: NameAction)
    requires
        NameLookup::Opening.steps(NameEvent::Failed { error }, next, action),
    ensures
        next == NameLookup::Finished,
        action == (NameAction::Finish { result: Err(error) }),
{
}

/// A lookup whose open succeeds reads, then closes, then ends. It ends with
/// the error of the close if the close failed; else with the error of the
/// read if the read failed; else with the name that the buffer holds.
pub proof fn lemma_lookup_run(
    fd: i32,
    read: NameEvent,
    closed: NameEvent,
    reading: NameLookup,
    first: NameAction,
    closing: NameLookup,
    second: NameAction,
    finished: NameLookup,
    last: NameAction,
)
    requires
        NameLookup::Opening.steps(NameEvent::Opened { fd }, reading, first),
        reading.steps(read, closing, second),
        closing.steps(closed, finished, last),
    ensures
        first == (NameAction::Read { fd, len: RFKILL_NAME_SIZE }),
        second == (NameAction::Close { fd }),
        finished == NameLookup::Finished,
        last matches NameAction::Finish { result } && match (read, closed) {
            (_, NameEvent::Failed { error }) => result == Err::<String, OsError>(error),
            (NameEvent::Failed { error }, _) => result == Err::<String, OsError>(error),
            (NameEvent::ReadDone { buffer }, _) => result matches Ok(name) && holds_name(
                buffer@,
                name@,
            ),
            _ => false,
        },
{
}

} // verus!
