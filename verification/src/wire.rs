//! The wire message the host expects and its binary form.
//!
//! A message has three fields: the severity code under tag 1, the target under
//! tag 2 and the text under tag 3. Each field that is present is a key, which
//! packs the tag with a wire type, followed by its payload; a field holding
//! the default value (code 0, empty string) is left out. Keys, integers and
//! lengths are base-128 varints, least significant group first.

use vstd::prelude::*;
use vstd::utf8::*;

verus! {

/// Tag of the severity code.
pub const LEVEL_TAG: u32 = 1;

/// Tag of the target string.
pub const TARGET_TAG: u32 = 2;

/// Tag of the message text.
pub const MESSAGE_TAG: u32 = 3;

/// Largest tag a key can carry: 29 bits.
pub const MAX_TAG: u32 = 0x1fff_ffff;

/// Base-128 varint of `n`: seven bits to a byte, least significant group
/// first, the top bit set on every byte but the last.
pub open spec fn varint(n: nat) -> Seq<u8>
    decreases n,
{
    if n < 128 {
        seq![n as u8]
    } else {
        seq![(n % 128 + 128) as u8] + varint(n / 128)
    }
}

/// A field key: the tag above three bits of wire type.
pub open spec fn field_key(tag: u32, wire_type: nat) -> nat {
    (tag * 8 + wire_type) as nat
}

/// A signed 32-bit integer as the varint layer carries it: sign-extended to
/// 64 bits and read as unsigned.
pub open spec fn as_unsigned(value: i32) -> nat {
    if value >= 0 {
        value as nat
    } else {
        (value + 0x1_0000_0000_0000_0000) as nat
    }
}

/// Bytes of an integer field: key with wire type 0, then the value.
pub open spec fn int32_field(tag: u32, value: i32) -> Seq<u8> {
    varint(field_key(tag, 0)) + varint(as_unsigned(value))
}

/// Bytes of a string field: key with wire type 2, then the length in bytes
/// of the UTF-8 text, then the text.
pub open spec fn string_field(tag: u32, text: Seq<char>) -> Seq<u8> {
    varint(field_key(tag, 2)) + varint(encode_utf8(text).len()) + encode_utf8(text)
}

/// What a wire message holds, as mathematical values.
pub struct WireRecord {
    pub level: i32,
    pub target: Seq<char>,
    pub message: Seq<char>,
}

impl WireRecord {
    /// The severity field as it stands on the wire: absent for code 0.
    pub open spec fn level_bytes(self) -> Seq<u8> {
        if self.level == 0 {
            Seq::<u8>::empty()
        } else {
            int32_field(LEVEL_TAG, self.level)
        }
    }

    /// The target field as it stands on the wire: absent when empty.
    pub open spec fn target_bytes(self) -> Seq<u8> {
        if self.target.len() == 0 {
            Seq::<u8>::empty()
        } else {
            string_field(TARGET_TAG, self.target)
        }
    }

    /// The text field as it stands on the wire: absent when empty.
    pub open spec fn message_bytes(self) -> Seq<u8> {
        if self.message.len() == 0 {
            Seq::<u8>::empty()
        } else {
            string_field(MESSAGE_TAG, self.message)
        }
    }

    /// The binary form of the message: its fields in tag order.
    pub open spec fn encoding(self) -> Seq<u8> {
        self.level_bytes() + self.target_bytes() + self.message_bytes()
    }
}

/// A message for the host: a severity code, the component that emitted the
/// event, and the formatted text.
#[derive(Clone, Debug)]
pub struct WireMessage {
    pub level: i32,
    pub target: String,
    pub message: String,
}

impl View for WireMessage {
    type V = WireRecord;

    open spec fn view(&self) -> WireRecord {
        WireRecord { level: self.level, target: self.target@, message: self.message@ }
    }
}

/// Appends an integer field with `prost::encoding::int32::encode`.
///
/// Trusted: prost writes the key `(tag << 3) | 0` and then the value cast to
/// `u64`, each as a varint, and a `Vec<u8>` buffer grows at its end. Tags
/// outside `1..=MAX_TAG` trip a debug assertion in prost and are excluded.
#[verifier::external_body]
fn put_int32(tag: u32, value: i32, buf: &mut Vec<u8>)
    requires
        1 <= tag <= MAX_TAG,
    ensures
        final(buf)@ == old(buf)@ + int32_field(tag, value),
{
    prost::encoding::int32::encode(tag, &value, buf);
}

/// Appends a string field with `prost::encoding::string::encode`.
///
/// Trusted: prost writes the key `(tag << 3) | 2`, the byte length of the
/// string as a varint, and then the string's UTF-8 bytes, and a `Vec<u8>`
/// buffer grows at its end. Tags outside `1..=MAX_TAG` trip a debug
/// assertion in prost and are excluded.
#[verifier::external_body]
fn put_string(tag: u32, value: &String, buf: &mut Vec<u8>)
    requires
        1 <= tag <= MAX_TAG,
    ensures
        final(buf)@ == old(buf)@ + string_field(tag, value@),
{
    prost::encoding::string::encode(tag, value, buf);
}

impl WireMessage {
    /// Serializes the message. Fields holding their default are left out, so
    /// a message of code 0 and two empty strings is zero bytes long.
    pub fn encode(&self) -> (bytes: Vec<u8>)
        ensures
            bytes@ == self@.encoding(),
    {
        let mut buf: Vec<u8> = Vec::new();
        if self.level != 0 {
            put_int32(LEVEL_TAG, self.level, &mut buf);
        }
        if !self.target.as_str().is_empty() {
            put_string(TARGET_TAG, &self.target, &mut buf);
        }
        if !self.message.as_str().is_empty() {
            put_string(MESSAGE_TAG, &self.message, &mut buf);
        }
        buf
    }
}

} // verus!
