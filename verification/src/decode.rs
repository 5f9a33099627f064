//! Reading the binary form back, and the laws that tie the reader to the
//! encoder.
//!
//! The host does the decoding, so nothing here is executable. The reader
//! below is ghost code: it says what a decoder of the schema finds in a byte
//! string, so that the encoder can be shown to lose nothing.

use vstd::prelude::*;
use vstd::utf8::*;
use crate::wire::{
    as_unsigned, field_key, int32_field, string_field, varint, WireMessage, WireRecord,
    LEVEL_TAG, MESSAGE_TAG, TARGET_TAG,
};

verus! {

/// Reads one varint from the front of `bytes`: its value and the number of
/// bytes it took, or `None` when the bytes end before the varint does.
pub open spec fn parse_varint(bytes: Seq<u8>) -> Option<(nat, nat)>
    decreases bytes.len(),
{
    if bytes.len() == 0 {
        None
    } else if bytes[0] < 128 {
        Some((bytes[0] as nat, 1nat))
    } else {
        match parse_varint(bytes.skip(1)) {
            Some((high, used)) => Some(((bytes[0] - 128 + 128 * high) as nat, used + 1)),
            None => None,
        }
    }
}

/// The signed 32-bit integer carried by an unsigned varint value: its low 32
/// bits in two's complement.
pub open spec fn as_signed(value: nat) -> i32 {
    let low = value % 0x1_0000_0000;
    if low < 0x8000_0000 {
        low as i32
    } else {
        (low - 0x1_0000_0000) as i32
    }
}

/// The message every field of which holds its default.
pub open spec fn empty_record() -> WireRecord {
    WireRecord { level: 0, target: Seq::<char>::empty(), message: Seq::<char>::empty() }
}

/// Reads fields from `bytes` into `acc` until the bytes run out. Fields may
/// come in any order, and a later occurrence of a field replaces an earlier
/// one. `None` when a key is not one of the schema's three, a varint or a
/// string is cut short, an integer does not fit 64 bits, or a string is not
/// UTF-8.
pub open spec fn decode_fields(acc: WireRecord, bytes: Seq<u8>) -> Option<WireRecord>
    decreases bytes.len(),
{
    if bytes.len() == 0 {
        Some(acc)
    } else {
        match parse_varint(bytes) {
            None => None,
            Some((key, key_len)) => {
                let body = bytes.skip(key_len as int);
                if key_len == 0 || key_len > bytes.len() {
                    None
                } else if key == field_key(LEVEL_TAG, 0) {
                    match parse_varint(body) {
                        None => None,
                        Some((value, used)) => {
                            if used > body.len() || value > u64::MAX {
                                None
                            } else {
                                decode_fields(
                                    WireRecord {
                                        level: as_signed(value),
                                        target: acc.target,
                                        message: acc.message,
                                    },
                                    body.skip(used as int),
                                )
                            }
                        },
                    }
                } else if key == field_key(TARGET_TAG, 2) || key == field_key(MESSAGE_TAG, 2) {
                    match parse_varint(body) {
                        None => None,
                        Some((len, used)) => {
                            let end = used + len;
                            let text = body.subrange(used as int, end as int);
                            if end > body.len() || !valid_utf8(text) {
                                None
                            } else if key == field_key(TARGET_TAG, 2) {
                                decode_fields(
                                    WireRecord {
                                        level: acc.level,
                                        target: decode_utf8(text),
                                        message: acc.message,
                                    },
                                    body.skip(end as int),
                                )
                            } else {
                                decode_fields(
                                    WireRecord {
                                        level: acc.level,
                                        target: acc.target,
                                        message: decode_utf8(text),
                                    },
                                    body.skip(end as int),
                                )
                            }
                        },
                    }
                } else {
                    None
                }
            },
        }
    }
}

/// The message that `bytes` encode, if they encode one.
pub open spec fn decode(bytes: Seq<u8>) -> Option<WireRecord> {
    decode_fields(empty_record(), bytes)
}

/// A varint is read back whole, whatever follows it: the reader returns the
/// number that was written and stops at the varint's last byte.
pub proof fn lemma_varint_reads_back(n: nat, rest: Seq<u8>)
    ensures
        parse_varint(varint(n) + rest) == Some((n, varint(n).len())),
        1 <= varint(n).len(),
    decreases n,
{
    let bytes = varint(n) + rest;
    if n < 128 {
        assert(bytes[0] == n as u8);
    } else {
        let tail = varint(n / 128);
        lemma_varint_reads_back(n / 128, rest);
        assert(bytes[0] == (n % 128 + 128) as u8);
        assert(bytes.skip(1) =~= tail + rest);
        assert(varint(n).len() == tail.len() + 1);
    }
}

/// Sign extension loses nothing: the integer read from the unsigned value of
/// `value` is `value`.
pub proof fn lemma_signed_reads_back(value: i32)
    ensures
        as_signed(as_unsigned(value)) == value,
        as_unsigned(value) <= u64::MAX,
{
}

proof fn lemma_level_field_step(acc: WireRecord, level: i32, rest: Seq<u8>)
    ensures
        decode_fields(acc, int32_field(LEVEL_TAG, level) + rest) == decode_fields(
            WireRecord { level: level, target: acc.target, message: acc.message },
            rest,
        ),
{
    let key = field_key(LEVEL_TAG, 0);
    let value = as_unsigned(level);
    let bytes = int32_field(LEVEL_TAG, level) + rest;
    let body = varint(value) + rest;
    lemma_varint_reads_back(key, body);
    lemma_varint_reads_back(value, rest);
    lemma_signed_reads_back(level);
    assert(bytes =~= varint(key) + body);
    assert(bytes.skip(varint(key).len() as int) =~= body);
    assert(body.skip(varint(value).len() as int) =~= rest);
}

proof fn lemma_string_field_step(acc: WireRecord, tag: u32, text: Seq<char>, rest: Seq<u8>)
    requires
        tag == TARGET_TAG || tag == MESSAGE_TAG,
    ensures
        decode_fields(acc, string_field(tag, text) + rest) == decode_fields(
            if tag == TARGET_TAG {
                WireRecord { level: acc.level, target: text, message: acc.message }
            } else {
                WireRecord { level: acc.level, target: acc.target, message: text }
            },
            rest,
        ),
{
    let key = field_key(tag, 2);
    let utf8 = encode_utf8(text);
    let bytes = string_field(tag, text) + rest;
    let body = varint(utf8.len()) + utf8 + rest;
    let used = varint(utf8.len()).len();
    lemma_varint_reads_back(key, body);
    lemma_varint_reads_back(utf8.len(), utf8 + rest);
    encode_utf8_valid_utf8(text);
    encode_utf8_decode_utf8(text);
    assert(bytes =~= varint(key) + body);
    assert(bytes.skip(varint(key).len() as int) =~= body);
    assert(body =~= varint(utf8.len()) + (utf8 + rest));
    assert(body.subrange(used as int, (used + utf8.len()) as int) =~= utf8);
    assert(body.skip((used + utf8.len()) as int) =~= rest);
}

/// Encoding round-trips: reading the binary form of a message gives back the
/// message, field for field. This holds for every code, negative ones
/// included, and for every pair of strings, empty ones and ones with
/// multi-byte characters included.
pub proof fn lemma_decode_inverts_encoding(record: WireRecord)
    ensures
        decode(record.encoding()) == Some(record),
{
    let start = empty_record();
    let with_level = WireRecord { level: record.level, target: start.target, message: start.message };
    let with_target = WireRecord { level: record.level, target: record.target, message: start.message };
    let tail = record.target_bytes() + record.message_bytes();
    assert(record.encoding() =~= record.level_bytes() + tail);
    if record.level != 0 {
        lemma_level_field_step(start, record.level, tail);
    } else {
        assert(record.level_bytes() + tail =~= tail);
    }
    assert(decode_fields(start, record.encoding()) == decode_fields(with_level, tail));
    if record.target.len() != 0 {
        lemma_string_field_step(with_level, TARGET_TAG, record.target, record.message_bytes());
    } else {
        assert(tail =~= record.message_bytes());
        assert(record.target =~= start.target);
    }
    assert(decode_fields(with_level, tail) == decode_fields(with_target, record.message_bytes()));
    if record.message.len() != 0 {
        lemma_string_field_step(with_target, MESSAGE_TAG, record.message, Seq::<u8>::empty());
        assert(record.message_bytes() + Seq::<u8>::empty() =~= record.message_bytes());
    } else {
        assert(record.message =~= start.message);
    }
    assert(decode_fields(with_target, record.message_bytes()) == Some(record));
}

/// Two messages with the same binary form are the same message.
pub proof fn lemma_encoding_is_injective(a: WireRecord, b: WireRecord)
    requires
        a.encoding() == b.encoding(),
    ensures
        a == b,
{
    lemma_decode_inverts_encoding(a);
    lemma_decode_inverts_encoding(b);
}

/// Encoding is a function of the three fields alone: messages that agree on
/// code, target and text have byte-identical binary forms.
pub proof fn lemma_encoding_is_deterministic(a: WireMessage, b: WireMessage)
    requires
        a.level == b.level,
        a.target@ == b.target@,
        a.message@ == b.message@,
    ensures
        a@.encoding() == b@.encoding(),
{
}

} // verus!
