//! The fixed places and sizes of the rfkill interface.

use vstd::prelude::*;

verus! {

/// The character device through which the kernel exchanges rfkill events.
pub const RFKILL_PATH: &'static str = "/dev/rfkill";

/// The start of the path of a switch's directory in sysfs; the switch's index
/// follows it directly.
pub const RFKILL_SYS_PATH: &'static str = "/sys/class/rfkill/rfkill";

/// The size in bytes of one event on the wire.
pub const RFKILL_EVENT_SIZE: usize = 8;

/// The size in bytes of the buffer into which a switch's name is read.
pub const RFKILL_NAME_SIZE: usize = 128;

} // verus!
