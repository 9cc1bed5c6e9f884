//! The event record and its decoder.
//!
//! The input device hands out records of [`EVENT_SIZE`] bytes. Each field lies at
//! a fixed offset, with a fixed width, least significant byte first:
//!
//! | offset | width | field     |
//! |--------|-------|-----------|
//! | 0      | 8     | `tv_sec`  |
//! | 8      | 8     | `tv_usec` |
//! | 16     | 2     | `type_`   |
//! | 18     | 2     | `code`    |
//! | 20     | 4     | `value`   |
//!
//! The fields fill the record with no gap, so decoding loses nothing: every
//! record of the right size is the encoding of exactly one event.
//!
//! This is the record of the Linux input subsystem on a 64-bit machine that
//! stores the low byte first. The layout is written out here, field by field,
//! and does not follow the machine that this code runs on: on a machine of
//! another kind the decoder still reads records of this layout and no other.

use crate::wire::{
    as_signed, as_unsigned, i32_from_bits, i32_to_bits, i64_from_bits, i64_to_bits, le_bytes,
    le_value, lemma_le_bytes_len, lemma_le_bytes_of_value, lemma_le_value_bound,
    lemma_le_value_of_bytes, lemma_radix_values, lemma_signed_of_unsigned,
    lemma_unsigned_of_signed, read_le, write_le,
};
use vstd::prelude::*;

verus! {

/// The size of one record, in bytes.
pub const EVENT_SIZE: usize = 24;

/// The event type of key events.
pub const EV_KEY: u16 = 1;

/// The value of a key event when the key went up.
pub const KEY_RELEASE: i32 = 0;

/// The value of a key event when the key went down.
pub const KEY_PRESS: i32 = 1;

/// The value of a key event that a held key repeats.
pub const KEY_REPEAT: i32 = 2;

/// One input event, as the device reports it. No field is checked against the
/// values that are expected of it.
#[derive(Debug, Clone, Copy, PartialEq, Eq, Structural)]
pub struct InputEvent {
    /// When the event happened: the seconds.
    pub tv_sec: i64,
    /// When the event happened: the microseconds within the second.
    pub tv_usec: i64,
    /// The class of the event; [`EV_KEY`] for a key.
    pub type_: u16,
    /// Which key.
    pub code: u16,
    /// What the key did: [`KEY_RELEASE`], [`KEY_PRESS`] or [`KEY_REPEAT`].
    pub value: i32,
}

/// Why a block of bytes is no event.
#[derive(Debug, Clone, Copy, PartialEq, Eq, Structural)]
pub enum DecodeError {
    /// The block has `actual` bytes where a record has `expected`.
    SizeMismatch { expected: usize, actual: usize },
}

/// The unsigned number in the `width` bytes of `bytes` from offset `at` on.
pub open spec fn field(bytes: Seq<u8>, at: int, width: int) -> nat {
    le_value(bytes.subrange(at, at + width))
}

/// The event that a record of [`EVENT_SIZE`] bytes holds.
pub open spec fn decoded(bytes: Seq<u8>) -> InputEvent
    recommends
        bytes.len() == EVENT_SIZE,
{
    InputEvent {
        tv_sec: as_signed(field(bytes, 0, 8), 8) as i64,
        tv_usec: as_signed(field(bytes, 8, 8), 8) as i64,
        type_: field(bytes, 16, 2) as u16,
        code: field(bytes, 18, 2) as u16,
        value: as_signed(field(bytes, 20, 4), 4) as i32,
    }
}

/// The record that holds `event`: its fields in order, each in its width.
pub open spec fn encoded(event: InputEvent) -> Seq<u8> {
    le_bytes(as_unsigned(event.tv_sec as int, 8), 8)
        + le_bytes(as_unsigned(event.tv_usec as int, 8), 8)
        + le_bytes(event.type_ as nat, 2)
        + le_bytes(event.code as nat, 2)
        + le_bytes(as_unsigned(event.value as int, 4), 4)
}

/// Decodes one record.
///
/// A block of exactly [`EVENT_SIZE`] bytes gives the event whose fields it
/// holds, whatever their values. A block of any other size gives no event, but
/// the error with both sizes.
pub fn decode(buffer: &[u8]) -> (result: Result<InputEvent, DecodeError>)
    ensures
        match result {
            Ok(event) => buffer@.len() == EVENT_SIZE && event == decoded(buffer@),
            Err(DecodeError::SizeMismatch { expected, actual }) => {
                &&& buffer@.len() != EVENT_SIZE
                &&& expected == EVENT_SIZE
                &&& actual == buffer@.len()
            },
        },
{
    if buffer.len() != EVENT_SIZE {
        return Err(DecodeError::SizeMismatch { expected: EVENT_SIZE, actual: buffer.len() });
    }
    proof {
        lemma_radix_values();
        lemma_le_value_bound(buffer@.subrange(16, 18));
        lemma_le_value_bound(buffer@.subrange(18, 20));
        lemma_le_value_bound(buffer@.subrange(20, 24));
    }
    let tv_sec: i64 = i64_from_bits(read_le(buffer, 0, 8));
    let tv_usec: i64 = i64_from_bits(read_le(buffer, 8, 8));
    let type_: u16 = read_le(buffer, 16, 2) as u16;
    let code: u16 = read_le(buffer, 18, 2) as u16;
    let value: i32 = i32_from_bits(read_le(buffer, 20, 4) as u32);
    Ok(InputEvent { tv_sec, tv_usec, type_, code, value })
}

/// Encodes one event as a record of [`EVENT_SIZE`] bytes, which decodes to the
/// event again.
pub fn encode(event: &InputEvent) -> (bytes: Vec<u8>)
    ensures
        bytes@ == encoded(*event),
        bytes@.len() == EVENT_SIZE,
        decoded(bytes@) == *event,
{
    proof {
        lemma_encoded_len(*event);
        lemma_decode_encode(*event);
    }
    let mut bytes: Vec<u8> = Vec::new();
    write_le(&mut bytes, i64_to_bits(event.tv_sec), 8);
    write_le(&mut bytes, i64_to_bits(event.tv_usec), 8);
    write_le(&mut bytes, event.type_ as u64, 2);
    write_le(&mut bytes, event.code as u64, 2);
    write_le(&mut bytes, i32_to_bits(event.value) as u64, 4);
    bytes
}

/// The encoding of every event has the size of a record.
pub proof fn lemma_encoded_len(event: InputEvent)
    ensures
        encoded(event).len() == EVENT_SIZE,
{
    lemma_le_bytes_len(as_unsigned(event.tv_sec as int, 8), 8);
    lemma_le_bytes_len(as_unsigned(event.tv_usec as int, 8), 8);
    lemma_le_bytes_len(event.type_ as nat, 2);
    lemma_le_bytes_len(event.code as nat, 2);
    lemma_le_bytes_len(as_unsigned(event.value as int, 4), 4);
}

/// Round trip from the event: the record built from any five field values
/// decodes to exactly those values.
pub proof fn lemma_decode_encode(event: InputEvent)
    ensures
        decoded(encoded(event)) == event,
{
    let sec: nat = as_unsigned(event.tv_sec as int, 8);
    let usec: nat = as_unsigned(event.tv_usec as int, 8);
    let value: nat = as_unsigned(event.value as int, 4);
    let bytes = encoded(event);
    lemma_radix_values();
    lemma_le_bytes_len(sec, 8);
    lemma_le_bytes_len(usec, 8);
    lemma_le_bytes_len(event.type_ as nat, 2);
    lemma_le_bytes_len(event.code as nat, 2);
    lemma_le_bytes_len(value, 4);
    assert(bytes.subrange(0, 8) =~= le_bytes(sec, 8));
    assert(bytes.subrange(8, 16) =~= le_bytes(usec, 8));
    assert(bytes.subrange(16, 18) =~= le_bytes(event.type_ as nat, 2));
    assert(bytes.subrange(18, 20) =~= le_bytes(event.code as nat, 2));
    assert(bytes.subrange(20, 24) =~= le_bytes(value, 4));
    lemma_signed_of_unsigned(event.tv_sec as int, 8);
    lemma_signed_of_unsigned(event.tv_usec as int, 8);
    lemma_signed_of_unsigned(event.value as int, 4);
    lemma_le_value_of_bytes(sec, 8);
    lemma_le_value_of_bytes(usec, 8);
    lemma_le_value_of_bytes(event.type_ as nat, 2);
    lemma_le_value_of_bytes(event.code as nat, 2);
    lemma_le_value_of_bytes(value, 4);
}

/// Round trip from the record: encoding the event that a record holds gives
/// the record again, byte for byte. So no two records hold the same event.
pub proof fn lemma_encode_decode(bytes: Seq<u8>)
    requires
        bytes.len() == EVENT_SIZE,
    ensures
        encoded(decoded(bytes)) == bytes,
{
    let sec = bytes.subrange(0, 8);
    let usec = bytes.subrange(8, 16);
    let type_ = bytes.subrange(16, 18);
    let code = bytes.subrange(18, 20);
    let value = bytes.subrange(20, 24);
    lemma_radix_values();
    lemma_le_value_bound(sec);
    lemma_le_value_bound(usec);
    lemma_le_value_bound(type_);
    lemma_le_value_bound(code);
    lemma_le_value_bound(value);
    lemma_unsigned_of_signed(le_value(sec), 8);
    lemma_unsigned_of_signed(le_value(usec), 8);
    lemma_unsigned_of_signed(le_value(value), 4);
    lemma_le_bytes_of_value(sec);
    lemma_le_bytes_of_value(usec);
    lemma_le_bytes_of_value(type_);
    lemma_le_bytes_of_value(code);
    lemma_le_bytes_of_value(value);
    assert(sec + usec + type_ + code + value =~= bytes);
}

} // verus!
