//! From a value to its bytes on the wire.

use crate::decode::{decoded, plain, scalar_number, scalar_value};
use crate::error::CtlError;
use crate::info::{is_temperature_format, Info};
use crate::kind::CtlType;
use crate::value::{CtlValue, Value};
use crate::wire::{
    le_bytes, lemma_le_bytes_len, lemma_le_nat_of_le_bytes, lemma_radix_values,
    lemma_signed_of_unsigned, push_le, unsigned, write_i32,
};
use vstd::prelude::*;
use vstd::slice::slice_to_vec;
use vstd::utf8::encode_utf8;

verus! {

/// The bytes of an integer of a fixed-width kind: as many as the kind is
/// wide, least significant first, a negative number in two's complement.
pub open spec fn scalar_bytes(kind: CtlType, n: int) -> Seq<u8>
    recommends
        kind.spec_width() is Some,
{
    let width: nat = kind.spec_width()->Some_0;
    le_bytes(unsigned(n, width), width)
}

/// The bytes of a value on the wire: an integer in the width of its kind,
/// a string as UTF-8 with a closing zero byte, a run of bytes as it is. A
/// temperature has no bytes of its own.
pub open spec fn encoded(value: Value) -> Result<Seq<u8>, CtlError> {
    match value {
        Value::Node(bytes) => Ok(bytes),
        Value::Struct(bytes) => Ok(bytes),
        Value::String(text) => Ok(encode_utf8(text).push(0u8)),
        Value::Temperature(_) => Err(CtlError::NoMatchingType),
        _ => Ok(scalar_bytes(value.kind(), value.number()->Some_0)),
    }
}

/// The view of a run of bytes or of the error in its place.
pub open spec fn bytes_view(r: Result<Vec<u8>, CtlError>) -> Result<Seq<u8>, CtlError> {
    match r {
        Ok(bytes) => Ok(bytes@),
        Err(e) => Err(e),
    }
}

/// The bytes of an unsigned integer in `width` bytes.
fn unsigned_bytes(n: u64, width: usize) -> (out: Vec<u8>)
    ensures
        out@ == le_bytes(n as nat, width as nat),
{
    let mut out: Vec<u8> = Vec::new();
    push_le(&mut out, n, width);
    assert(out@ =~= le_bytes(n as nat, width as nat));
    out
}

/// The bytes of a signed integer of 32 bits.
fn signed_bytes_32(n: i32) -> (out: Vec<u8>)
    ensures
        out@ == le_bytes(unsigned(n as int, 4), 4),
{
    let mut out: Vec<u8> = Vec::new();
    write_i32(&mut out, n);
    assert(out@ =~= le_bytes(unsigned(n as int, 4), 4));
    out
}

/// The unsigned number that stands for `n` in two's complement of 64 bits.
fn as_unsigned_64(n: i64) -> (u: u64)
    ensures
        u as nat == unsigned(n as int, 8),
{
    proof {
        lemma_radix_values();
        assert(n >= 0 ==> (n as u64) as int == n as int) by (bit_vector);
        assert(n < 0 ==> (n as u64) as int == n as int + 0x1_0000_0000_0000_0000) by (bit_vector);
    }
    n as u64
}

/// The unsigned number that stands for `n` in two's complement of 16 bits.
fn as_unsigned_16(n: i16) -> (u: u16)
    ensures
        u as nat == unsigned(n as int, 2),
{
    proof {
        lemma_radix_values();
        assert(n >= 0 ==> (n as u16) as int == n as int) by (bit_vector);
        assert(n < 0 ==> (n as u16) as int == n as int + 0x1_0000) by (bit_vector);
    }
    n as u16
}

/// The unsigned number that stands for `n` in two's complement of 8 bits.
fn as_unsigned_8(n: i8) -> (u: u8)
    ensures
        u as nat == unsigned(n as int, 1),
{
    proof {
        lemma_radix_values();
        assert(n >= 0 ==> (n as u8) as int == n as int) by (bit_vector);
        assert(n < 0 ==> (n as u8) as int == n as int + 0x100) by (bit_vector);
    }
    n as u8
}

/// Writes a value as the bytes that the kernel takes for it.
pub fn encode(value: &CtlValue) -> (r: Result<Vec<u8>, CtlError>)
    ensures
        bytes_view(r) == encoded(value@),
{
    match value {
        CtlValue::Node(bytes) => Ok(slice_to_vec(bytes.as_slice())),
        CtlValue::Struct(bytes) => Ok(slice_to_vec(bytes.as_slice())),
        CtlValue::String(text) => {
            let mut out = slice_to_vec(text.as_str().as_bytes());
            out.push(0);
            Ok(out)
        },
        CtlValue::Temperature(_) => Err(CtlError::NoMatchingType),
        CtlValue::Int(n) => Ok(signed_bytes_32(*n)),
        CtlValue::S32(n) => Ok(signed_bytes_32(*n)),
        CtlValue::Uint(n) => Ok(unsigned_bytes(*n as u64, 4)),
        CtlValue::U32(n) => Ok(unsigned_bytes(*n as u64, 4)),
        CtlValue::Long(n) => Ok(unsigned_bytes(as_unsigned_64(*n), 8)),
        CtlValue::Ulong(n) => Ok(unsigned_bytes(*n, 8)),
        CtlValue::U64(n) => Ok(unsigned_bytes(*n, 8)),
        CtlValue::S64(n) => Ok(unsigned_bytes(*n, 8)),
        CtlValue::U16(n) => Ok(unsigned_bytes(*n as u64, 2)),
        CtlValue::S16(n) => Ok(unsigned_bytes(as_unsigned_16(*n) as u64, 2)),
        CtlValue::U8(n) => Ok(unsigned_bytes(*n as u64, 1)),
        CtlValue::S8(n) => Ok(unsigned_bytes(as_unsigned_8(*n) as u64, 1)),
    }
}

/// An integer that a fixed-width kind can hold is read back from its bytes.
pub proof fn lemma_scalar_round_trip(kind: CtlType, n: int)
    requires
        kind.spec_width() is Some,
        scalar_value(kind, n).number() == Some(n),
    ensures
        scalar_bytes(kind, n).len() == kind.spec_width()->Some_0,
        scalar_number(kind, scalar_bytes(kind, n)) == n,
{
    let width: nat = kind.spec_width()->Some_0;
    let u: nat = unsigned(n, width);
    let bytes = scalar_bytes(kind, n);
    lemma_radix_values();
    if kind.is_signed() {
        lemma_signed_of_unsigned(n, width);
    }
    lemma_le_bytes_len(u, width);
    lemma_le_nat_of_le_bytes(u, width);
    assert(bytes.subrange(0, width as int) =~= bytes);
}

/// Writing a value and reading the bytes back by the value's own kind gives
/// the value again: for every integer kind, for strings and for runs of
/// bytes, whenever the format descriptor does not mark a temperature.
pub proof fn lemma_decode_encode(info: Info, value: Value)
    requires
        info.ctl_type == value.kind(),
        !is_temperature_format(info.fmt),
        value !is Temperature,
    ensures
        encoded(value) is Ok,
        decoded(info, encoded(value)->Ok_0) == Ok::<Value, CtlError>(value),
{
    lemma_plain_encode(value);
}

/// Writing a value and reading the bytes back by the rule of the value's
/// kind gives the value again.
pub proof fn lemma_plain_encode(value: Value)
    requires
        value !is Temperature,
    ensures
        encoded(value) is Ok,
        plain(value.kind(), encoded(value)->Ok_0) == Ok::<Value, CtlError>(value),
{
    match value {
        Value::Node(_) => {},
        Value::Struct(_) => {},
        Value::String(text) => {
            let bytes = encode_utf8(text).push(0u8);
            assert(bytes.drop_last() =~= encode_utf8(text));
            vstd::utf8::encode_utf8_valid_utf8(text);
            vstd::utf8::encode_utf8_decode_utf8(text);
        },
        Value::Temperature(_) => {},
        _ => {
            lemma_scalar_round_trip(value.kind(), value.number()->Some_0);
        },
    }
}

} // verus!
