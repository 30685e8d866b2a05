//! The rfkill event: the record as it lies on the wire, and what it means.

use vstd::prelude::*;
use vstd::arithmetic::div_mod::{lemma_fundamental_div_mod, lemma_fundamental_div_mod_converse};
use vstd::std_specs::convert::TryFromSpecImpl;
use crate::consts::RFKILL_EVENT_SIZE;
use crate::error::{DecodeError, InvalidCode, LengthMismatch};
use crate::name::{name_path_of, NameAction, NameLookup};
use crate::operation::RfkillOperations;
use crate::radio::RfkillType;
use crate::rfkill::RfKill;

verus! {

/// The five fields of a wire record as plain values: what a [`CRfKillEvent`]
/// holds.
pub struct WireFields {
    /// The index of the switch.
    pub idx: u32,
    /// The code of the radio type.
    pub event_type: u8,
    /// The code of the operation.
    pub op: u8,
    /// The soft-block flag.
    pub soft: u8,
    /// The hard-block flag.
    pub hard: u8,
}

/// The four bytes of a 32-bit number, lowest first.
pub open spec fn le_bytes(x: u32) -> Seq<u8> {
    seq![
        (x % 256) as u8,
        (x / 256 % 256) as u8,
        (x / 65536 % 256) as u8,
        (x / 16777216) as u8,
    ]
}

/// The 32-bit number whose bytes, lowest first, are the first four of `bytes`.
pub open spec fn le_value(bytes: Seq<u8>) -> u32
    recommends
        bytes.len() >= 4,
{
    (bytes[0] + bytes[1] * 256 + bytes[2] * 65536 + bytes[3] * 16777216) as u32
}

/// The eight bytes of a wire record: the index in four bytes, lowest first,
/// then the radio type, the operation, the soft flag and the hard flag, one
/// byte each, with nothing between them.
pub open spec fn wire_bytes(fields: WireFields) -> Seq<u8> {
    le_bytes(fields.idx) + seq![fields.event_type, fields.op, fields.soft, fields.hard]
}

/// The fields that eight bytes of the wire hold.
pub open spec fn wire_fields(bytes: Seq<u8>) -> WireFields
    recommends
        bytes.len() == RFKILL_EVENT_SIZE,
{
    WireFields {
        idx: le_value(bytes),
        event_type: bytes[4],
        op: bytes[5],
        soft: bytes[6],
        hard: bytes[7],
    }
}

/// The event that the fields of a wire record stand for. The radio type is
/// read first, then the operation; soft-blocked is the flag value 1, and
/// hard-blocked is the flag value 2.
pub open spec fn decode(fields: WireFields) -> Result<RfKillEvent, DecodeError> {
    match RfkillType::of_code(fields.event_type) {
        None => Err(DecodeError::RadioType(InvalidCode { code: fields.event_type })),
        Some(device) => match RfkillOperations::of_code(fields.op) {
            None => Err(DecodeError::Operation(InvalidCode { code: fields.op })),
            Some(operation) => Ok(
                RfKillEvent {
                    device_index: fields.idx,
                    device,
                    operation,
                    is_soft: fields.soft == 1,
                    is_hard: fields.hard == 2,
                },
            ),
        },
    }
}

/// An rfkill event as the kernel reads and writes it: the legacy record of
/// eight bytes. A value is put together field by field, starting from
/// [`CRfKillEvent::default`].
#[derive(Debug, Clone, Copy)]
pub struct CRfKillEvent {
    idx: u32,
    event_type: u8,
    op: u8,
    soft: u8,
    hard: u8,
}

impl View for CRfKillEvent {
    type V = WireFields;

    closed spec fn view(&self) -> WireFields {
        WireFields {
            idx: self.idx,
            event_type: self.event_type,
            op: self.op,
            soft: self.soft,
            hard: self.hard,
        }
    }
}

impl Default for CRfKillEvent {
    /// The record with every field zero.
    fn default() -> (r: Self)
        ensures
            r@ == (WireFields { idx: 0, event_type: 0, op: 0, soft: 0, hard: 0 }),
    {
        CRfKillEvent { idx: 0, event_type: 0, op: 0, soft: 0, hard: 0 }
    }
}

impl CRfKillEvent {
    /// The same record for the switch with index `idx`.
    pub fn set_idx(self, idx: u32) -> (r: Self)
        ensures
            r@ == (WireFields { idx, ..self@ }),
    {
        CRfKillEvent { idx, ..self }
    }

    /// The same record for the radio type `event_type`.
    pub fn set_event_type(self, event_type: RfkillType) -> (r: Self)
        ensures
            r@ == (WireFields { event_type: event_type.code(), ..self@ }),
    {
        CRfKillEvent { event_type: event_type.to_code(), ..self }
    }

    /// The same record for the operation `op`.
    pub fn set_op(self, op: RfkillOperations) -> (r: Self)
        ensures
            r@ == (WireFields { op: op.code(), ..self@ }),
    {
        CRfKillEvent { op: op.to_code(), ..self }
    }

    /// The same record with the soft-block flag set, which is the value 1.
    pub fn soft_block(self) -> (r: Self)
        ensures
            r@ == (WireFields { soft: 1, ..self@ }),
    {
        CRfKillEvent { soft: 1, ..self }
    }

    /// The same record with the soft-block flag cleared, which is the value 0.
    pub fn soft_unblock(self) -> (r: Self)
        ensures
            r@ == (WireFields { soft: 0, ..self@ }),
    {
        CRfKillEvent { soft: 0, ..self }
    }

    /// The record as the eight bytes that go over the wire.
    pub fn to_bytes(&self) -> (bytes: [u8; 8])
        ensures
            bytes@ == wire_bytes(self@),
    {
        let idx = self.idx;
        let bytes = [
            (idx % 256) as u8,
            (idx / 256 % 256) as u8,
            (idx / 65536 % 256) as u8,
            (idx / 16777216) as u8,
            self.event_type,
            self.op,
            self.soft,
            self.hard,
        ];
        assert(bytes@ =~= wire_bytes(self@));
        bytes
    }

    /// Reads a record from bytes of the wire. Exactly eight bytes make a
    /// record, whatever they hold; any other number of bytes is refused, and
    /// the error holds that number.
    pub fn from_bytes(bytes: &[u8]) -> (r: Result<Self, LengthMismatch>)
        ensures
            r is Ok <==> bytes@.len() == RFKILL_EVENT_SIZE,
            r matches Ok(record) ==> record@ == wire_fields(bytes@),
            r matches Err(e) ==> e == (LengthMismatch {
                expected: RFKILL_EVENT_SIZE,
                actual: bytes@.len() as usize,
            }),
    {
        if bytes.len() != RFKILL_EVENT_SIZE {
            return Err(LengthMismatch { expected: RFKILL_EVENT_SIZE, actual: bytes.len() });
        }
        let idx: u32 = bytes[0] as u32 + bytes[1] as u32 * 256 + bytes[2] as u32 * 65536
            + bytes[3] as u32 * 16777216;
        Ok(CRfKillEvent { idx, event_type: bytes[4], op: bytes[5], soft: bytes[6], hard: bytes[7] })
    }
}

/// An rfkill event by its meaning. There is one for every wire record whose
/// radio-type and operation bytes are codes, and for no other.
#[derive(Debug, Clone, Copy, PartialEq, Eq, Structural)]
pub struct RfKillEvent {
    /// The index of the switch.
    pub device_index: u32,
    /// The class of radio that the switch controls.
    pub device: RfkillType,
    /// What the event reports.
    pub operation: RfkillOperations,
    /// Whether software has blocked the radio.
    pub is_soft: bool,
    /// Whether hardware has blocked the radio.
    pub is_hard: bool,
}

impl RfKillEvent {
    /// Starts the lookup of the name of the switch that the event is about.
    pub fn get_name(&self) -> (first: (NameLookup, NameAction))
        ensures
            first.0 == NameLookup::Opening,
            first.1 matches NameAction::Open { path } && path@ == name_path_of(self.device_index),
    {
        RfKill::get_name(self.device_index)
    }
}

impl TryFrom<CRfKillEvent> for RfKillEvent {
    type Error = DecodeError;

    /// Reads the event that a wire record stands for. The record is refused
    /// when its radio-type byte is no code of a radio type, and else when its
    /// operation byte is no code of an operation; the error holds the byte.
    fn try_from(s: CRfKillEvent) -> (r: Result<Self, Self::Error>)
        ensures
            r == decode(s@),
            r is Ok <==> s@.event_type <= 9 && s@.op <= 3,
            r matches Ok(event) ==> {
                &&& event.device_index == s@.idx
                &&& event.device.code() == s@.event_type
                &&& event.operation.code() == s@.op
                &&& event.is_soft == (s@.soft == 1)
                &&& event.is_hard == (s@.hard == 2)
            },
    {
        let device = match RfkillType::from_code(s.event_type) {
            Ok(device) => device,
            Err(e) => {
                return Err(DecodeError::RadioType(e));
            },
        };
        let operation = match RfkillOperations::from_code(s.op) {
            Ok(operation) => operation,
            Err(e) => {
                return Err(DecodeError::Operation(e));
            },
        };
        Ok(
            RfKillEvent {
                device_index: s.idx,
                device,
                operation,
                is_soft: s.soft == 1,
                is_hard: s.hard == 2,
            },
        )
    }
}

impl TryFromSpecImpl<CRfKillEvent> for RfKillEvent {
    open spec fn obeys_try_from_spec() -> bool {
        true
    }

    open spec fn try_from_spec(s: CRfKillEvent) -> Result<Self, DecodeError> {
        decode(s@)
    }
}

/// The four bytes of a number, lowest first, give the number back.
pub proof fn lemma_le_value_of_bytes(x: u32)
    ensures
        le_bytes(x).len() == 4,
        le_value(le_bytes(x)) == x,
{
    let n = x as int;
    let q1 = n / 256;
    let q2 = q1 / 256;
    let q3 = q2 / 256;
    lemma_fundamental_div_mod(n, 256);
    lemma_fundamental_div_mod(q1, 256);
    lemma_fundamental_div_mod(q2, 256);
    assert(n == 256 * q1 + n % 256);
    assert(q1 == 256 * q2 + q1 % 256);
    assert(q2 == 256 * q3 + q2 % 256);
    lemma_fundamental_div_mod_converse(n, 65536, q2, 256 * (q1 % 256) + n % 256);
    lemma_fundamental_div_mod_converse(
        n,
        16777216,
        q3,
        65536 * (q2 % 256) + 256 * (q1 % 256) + n % 256,
    );
    assert(n / 65536 == q2);
    assert(n / 16777216 == q3);
    assert(0 <= q3 < 256);
}

/// Any four bytes are the bytes, lowest first, of the number that they give.
pub proof fn lemma_le_bytes_of_value(bytes: Seq<u8>)
    requires
        bytes.len() == 4,
    ensures
        le_bytes(le_value(bytes)) == bytes,
{
    let b0 = bytes[0] as int;
    let b1 = bytes[1] as int;
    let b2 = bytes[2] as int;
    let b3 = bytes[3] as int;
    let n = b0 + b1 * 256 + b2 * 65536 + b3 * 16777216;
    assert(le_value(bytes) == n);
    lemma_fundamental_div_mod_converse(n, 256, b1 + b2 * 256 + b3 * 65536, b0);
    lemma_fundamental_div_mod_converse(b1 + b2 * 256 + b3 * 65536, 256, b2 + b3 * 256, b1);
    lemma_fundamental_div_mod_converse(n, 65536, b2 + b3 * 256, b0 + b1 * 256);
    lemma_fundamental_div_mod_converse(b2 + b3 * 256, 256, b3, b2);
    lemma_fundamental_div_mod_converse(n, 16777216, b3, b0 + b1 * 256 + b2 * 65536);
    assert(n % 256 == b0);
    assert(n / 256 % 256 == b1);
    assert(n / 65536 % 256 == b2);
    assert(n / 16777216 == b3);
    assert(le_bytes(le_value(bytes)) =~= bytes);
}

/// The eight bytes of a record hold its fields: a record that is written and
/// read again is unchanged.
pub proof fn lemma_wire_round_trip(fields: WireFields)
    ensures
        wire_bytes(fields).len() == RFKILL_EVENT_SIZE,
        wire_fields(wire_bytes(fields)) == fields,
{
    lemma_le_value_of_bytes(fields.idx);
    let bytes = wire_bytes(fields);
    assert(bytes.subrange(0, 4) =~= le_bytes(fields.idx));
    assert(le_value(bytes) == le_value(le_bytes(fields.idx)));
}

/// Any eight bytes are the bytes of the record that is read from them: bytes
/// that are read and written again are unchanged.
pub proof fn lemma_wire_bytes_round_trip(bytes: Seq<u8>)
    requires
        bytes.len() == RFKILL_EVENT_SIZE,
    ensures
        wire_bytes(wire_fields(bytes)) == bytes,
{
    let head = bytes.subrange(0, 4);
    lemma_le_bytes_of_value(head);
    assert(le_value(bytes) == le_value(head));
    assert(wire_bytes(wire_fields(bytes)) =~= bytes);
}

/// A record stands for an event exactly when its radio-type byte is at most 9
/// and its operation byte at most 3. Of a record that stands for none, the
/// radio-type byte is reported if it is at fault, and else the operation byte.
pub proof fn lemma_decode_refusals(fields: WireFields)
    ensures
        decode(fields) is Ok <==> fields.event_type <= 9 && fields.op <= 3,
        fields.event_type > 9 ==> decode(fields) == Err::<RfKillEvent, DecodeError>(
            DecodeError::RadioType(InvalidCode { code: fields.event_type }),
        ),
        fields.event_type <= 9 && fields.op > 3 ==> decode(fields) == Err::<
            RfKillEvent,
            DecodeError,
        >(DecodeError::Operation(InvalidCode { code: fields.op })),
{
}

/// The event of a record keeps the record's index, and its radio type and
/// operation are those that the record's bytes are the codes of.
pub proof fn lemma_decode_keeps_fields(fields: WireFields)
    ensures
        decode(fields) matches Ok(event) ==> {
            &&& event.device_index == fields.idx
            &&& event.device.code() == fields.event_type
            &&& event.operation.code() == fields.op
        },
{
}

/// An event is soft-blocked exactly when the soft flag of its record is 1: not
/// when it is 0, 2 or any other byte.
pub proof fn lemma_soft_flag(fields: WireFields)
    ensures
        decode(fields) matches Ok(event) ==> (event.is_soft <==> fields.soft == 1),
{
}

/// An event is hard-blocked exactly when the hard flag of its record is 2: not
/// when it is 0, 1 or any other byte.
pub proof fn lemma_hard_flag(fields: WireFields)
    ensures
        decode(fields) matches Ok(event) ==> (event.is_hard <==> fields.hard == 2),
{
}

} // verus!
