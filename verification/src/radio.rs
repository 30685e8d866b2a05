//! The classes of radio that an rfkill switch can control.

use vstd::prelude::*;
use vstd::std_specs::convert::TryFromSpecImpl;
use crate::error::{InvalidCode, UnknownLabel};
use crate::text::str_eq;

verus! {

/// The class of radio behind an rfkill switch, as the kernel numbers and names it.
///
/// `NumRfkillTypes` is the kernel's marker for the number of known types; it has
/// a code and a label like the others.
#[derive(Debug, Clone, Copy, PartialEq, Eq, Structural)]
pub enum RfkillType {
    All,
    Wlan,
    Bluetooth,
    Uwb,
    Wimax,
    Wwan,
    Gps,
    Fm,
    Nfc,
    NumRfkillTypes,
}

impl RfkillType {
    /// The code that the kernel gives this radio type.
    pub open spec fn code(self) -> u8 {
        match self {
            RfkillType::All => 0,
            RfkillType::Wlan => 1,
            RfkillType::Bluetooth => 2,
            RfkillType::Uwb => 3,
            RfkillType::Wimax => 4,
            RfkillType::Wwan => 5,
            RfkillType::Gps => 6,
            RfkillType::Fm => 7,
            RfkillType::Nfc => 8,
            RfkillType::NumRfkillTypes => 9,
        }
    }

    /// The radio type that a code stands for, if it stands for one.
    pub open spec fn of_code(code: u8) -> Option<RfkillType> {
        match code {
            0 => Some(RfkillType::All),
            1 => Some(RfkillType::Wlan),
            2 => Some(RfkillType::Bluetooth),
            3 => Some(RfkillType::Uwb),
            4 => Some(RfkillType::Wimax),
            5 => Some(RfkillType::Wwan),
            6 => Some(RfkillType::Gps),
            7 => Some(RfkillType::Fm),
            8 => Some(RfkillType::Nfc),
            9 => Some(RfkillType::NumRfkillTypes),
            _ => None,
        }
    }

    /// The name under which the kernel shows this radio type.
    pub open spec fn label(self) -> Seq<char> {
        match self {
            RfkillType::All => "All"@,
            RfkillType::Wlan => "Wireless LAN"@,
            RfkillType::Bluetooth => "Bluetooth"@,
            RfkillType::Uwb => "Ultra-Wideband"@,
            RfkillType::Wimax => "WiMAX"@,
            RfkillType::Wwan => "Wireless WAN"@,
            RfkillType::Gps => "GPS"@,
            RfkillType::Fm => "FM"@,
            RfkillType::Nfc => "NFC"@,
            RfkillType::NumRfkillTypes => "NumRfkillTypes"@,
        }
    }

    /// The radio type that a label names, if it names one. Labels are matched
    /// character for character.
    pub open spec fn of_label(label: Seq<char>) -> Option<RfkillType> {
        if label == "All"@ {
            Some(RfkillType::All)
        } else if label == "Wireless LAN"@ {
            Some(RfkillType::Wlan)
        } else if label == "Bluetooth"@ {
            Some(RfkillType::Bluetooth)
        } else if label == "Ultra-Wideband"@ {
            Some(RfkillType::Uwb)
        } else if label == "WiMAX"@ {
            Some(RfkillType::Wimax)
        } else if label == "Wireless WAN"@ {
            Some(RfkillType::Wwan)
        } else if label == "GPS"@ {
            Some(RfkillType::Gps)
        } else if label == "FM"@ {
            Some(RfkillType::Fm)
        } else if label == "NFC"@ {
            Some(RfkillType::Nfc)
        } else if label == "NumRfkillTypes"@ {
            Some(RfkillType::NumRfkillTypes)
        } else {
            None
        }
    }

    /// Reads a radio type from its kernel code: 0 to 9 give a radio type, every
    /// other byte is refused and handed back in the error.
    pub fn from_code(code: u8) -> (r: Result<RfkillType, InvalidCode>)
        ensures
            r is Ok <==> code <= 9,
            r == match RfkillType::of_code(code) {
                Some(t) => Ok::<RfkillType, InvalidCode>(t),
                None => Err(InvalidCode { code }),
            },
    {
        match code {
            0 => Ok(RfkillType::All),
            1 => Ok(RfkillType::Wlan),
            2 => Ok(RfkillType::Bluetooth),
            3 => Ok(RfkillType::Uwb),
            4 => Ok(RfkillType::Wimax),
            5 => Ok(RfkillType::Wwan),
            6 => Ok(RfkillType::Gps),
            7 => Ok(RfkillType::Fm),
            8 => Ok(RfkillType::Nfc),
            9 => Ok(RfkillType::NumRfkillTypes),
            _ => Err(InvalidCode { code }),
        }
    }

    /// The kernel code of this radio type.
    pub fn to_code(&self) -> (code: u8)
        ensures
            code == self.code(),
    {
        match self {
            RfkillType::All => 0,
            RfkillType::Wlan => 1,
            RfkillType::Bluetooth => 2,
            RfkillType::Uwb => 3,
            RfkillType::Wimax => 4,
            RfkillType::Wwan => 5,
            RfkillType::Gps => 6,
            RfkillType::Fm => 7,
            RfkillType::Nfc => 8,
            RfkillType::NumRfkillTypes => 9,
        }
    }

    /// Reads a radio type from its label. The match is exact and case-sensitive;
    /// a string that is no label is refused and handed back in the error.
    pub fn from_label<'a>(s: &'a str) -> (r: Result<RfkillType, UnknownLabel<'a>>)
        ensures
            r == match RfkillType::of_label(s@) {
                Some(t) => Ok::<RfkillType, UnknownLabel<'a>>(t),
                None => Err(UnknownLabel { label: s }),
            },
    {
        if str_eq(s, "All") {
            Ok(RfkillType::All)
        } else if str_eq(s, "Wireless LAN") {
            Ok(RfkillType::Wlan)
        } else if str_eq(s, "Bluetooth") {
            Ok(RfkillType::Bluetooth)
        } else if str_eq(s, "Ultra-Wideband") {
            Ok(RfkillType::Uwb)
        } else if str_eq(s, "WiMAX") {
            Ok(RfkillType::Wimax)
        } else if str_eq(s, "Wireless WAN") {
            Ok(RfkillType::Wwan)
        } else if str_eq(s, "GPS") {
            Ok(RfkillType::Gps)
        } else if str_eq(s, "FM") {
            Ok(RfkillType::Fm)
        } else if str_eq(s, "NFC") {
            Ok(RfkillType::Nfc)
        } else if str_eq(s, "NumRfkillTypes") {
            Ok(RfkillType::NumRfkillTypes)
        } else {
            Err(UnknownLabel { label: s })
        }
    }

    /// The label of this radio type, as a string of its own.
    pub fn to_label(&self) -> (label: String)
        ensures
            label@ == self.label(),
    {
        let label = match self {
            RfkillType::All => "All",
            RfkillType::Wlan => "Wireless LAN",
            RfkillType::Bluetooth => "Bluetooth",
            RfkillType::Uwb => "Ultra-Wideband",
            RfkillType::Wimax => "WiMAX",
            RfkillType::Wwan => "Wireless WAN",
            RfkillType::Gps => "GPS",
            RfkillType::Fm => "FM",
            RfkillType::Nfc => "NFC",
            RfkillType::NumRfkillTypes => "NumRfkillTypes",
        };
        label.to_owned()
    }
}

impl ToString for RfkillType {
    /// The same as [`RfkillType::to_label`].
    fn to_string(&self) -> (label: String)
        ensures
            label@ == self.label(),
    {
        self.to_label()
    }
}

impl TryFrom<u8> for RfkillType {
    type Error = InvalidCode;

    /// The same as [`RfkillType::from_code`].
    fn try_from(value: u8) -> (r: Result<Self, Self::Error>) {
        RfkillType::from_code(value)
    }
}

impl TryFromSpecImpl<u8> for RfkillType {
    open spec fn obeys_try_from_spec() -> bool {
        true
    }

    open spec fn try_from_spec(value: u8) -> Result<Self, InvalidCode> {
        match RfkillType::of_code(value) {
            Some(t) => Ok(t),
            None => Err(InvalidCode { code: value }),
        }
    }
}

impl<'a> TryFrom<&'a str> for RfkillType {
    type Error = UnknownLabel<'a>;

    /// The same as [`RfkillType::from_label`].
    fn try_from(s: &'a str) -> (r: Result<Self, Self::Error>) {
        RfkillType::from_label(s)
    }
}

impl<'a> TryFromSpecImpl<&'a str> for RfkillType {
    open spec fn obeys_try_from_spec() -> bool {
        true
    }

    open spec fn try_from_spec(s: &'a str) -> Result<Self, UnknownLabel<'a>> {
        match RfkillType::of_label(s@) {
            Some(t) => Ok(t),
            None => Err(UnknownLabel { label: s }),
        }
    }
}

/// The codes of the radio types are the bytes 0 to 9, and reading a code gives
/// the radio type that has it: a code that is read and written again is unchanged.
pub proof fn lemma_radio_code_round_trip(code: u8)
    ensures
        RfkillType::of_code(code) is Some <==> code <= 9,
        RfkillType::of_code(code) matches Some(t) ==> t.code() == code,
{
}

/// Every radio type is read back from its own code.
pub proof fn lemma_radio_type_round_trip(t: RfkillType)
    ensures
        t.code() <= 9,
        RfkillType::of_code(t.code()) == Some(t),
{
}

/// No two radio types share a label: every radio type is read back from its
/// own label.
pub proof fn lemma_radio_label_round_trip(t: RfkillType)
    ensures
        RfkillType::of_label(t.label()) == Some(t),
{
    reveal_strlit("All");
    reveal_strlit("Wireless LAN");
    reveal_strlit("Bluetooth");
    reveal_strlit("Ultra-Wideband");
    reveal_strlit("WiMAX");
    reveal_strlit("Wireless WAN");
    reveal_strlit("GPS");
    reveal_strlit("FM");
    reveal_strlit("NFC");
    reveal_strlit("NumRfkillTypes");
    // Labels differ in length, and those of one length in a character.
    assert("FM"@.len() == 2 && "All"@.len() == 3 && "GPS"@.len() == 3 && "NFC"@.len() == 3);
    assert("WiMAX"@.len() == 5 && "Bluetooth"@.len() == 9);
    assert("Wireless LAN"@.len() == 12 && "Wireless WAN"@.len() == 12);
    assert("Ultra-Wideband"@.len() == 14 && "NumRfkillTypes"@.len() == 14);
    assert("All"@[0] == 'A' && "GPS"@[0] == 'G' && "NFC"@[0] == 'N');
    assert("Wireless LAN"@[9] == 'L' && "Wireless WAN"@[9] == 'W');
    assert("Ultra-Wideband"@[0] == 'U' && "NumRfkillTypes"@[0] == 'N');
}

/// A string names a radio type exactly when it is that type's label: a label
/// that is read and written again is unchanged, and a string that is the label
/// of no radio type names none.
pub proof fn lemma_radio_label_exact(label: Seq<char>)
    ensures
        RfkillType::of_label(label) matches Some(t) ==> t.label() == label,
        RfkillType::of_label(label) is None <==> forall|t: RfkillType| t.label() != label,
{
    if RfkillType::of_label(label) is None {
        assert forall|t: RfkillType| t.label() != label by {
            if t.label() == label {
                lemma_radio_label_round_trip(t);
            }
        }
    } else {
        let t = RfkillType::of_label(label)->0;
        assert(t.label() == label);
    }
}

} // verus!
