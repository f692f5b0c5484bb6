//! From the bytes of a value to the value.

use crate::error::CtlError;
use crate::info::{is_temperature_format, precision_of, CtlInfo, Info};
use crate::kind::CtlType;
use crate::value::{CtlValue, Reading, Temperature, Value};
use crate::wire::{
    le_nat, lemma_le_nat_one, lemma_radix_values, read_i16, read_i32, read_i64, read_u16,
    read_u32, read_u64, signed, utf8_str,
};
use vstd::prelude::*;
use vstd::slice::slice_subrange;
use vstd::utf8::{decode_utf8, valid_utf8};

verus! {

/// The integer that the first bytes of `raw` hold for a fixed-width kind:
/// as many bytes as the kind is wide, least significant first, in two's
/// complement where the kind is signed. The kind `S64` is read unsigned.
pub open spec fn scalar_number(kind: CtlType, raw: Seq<u8>) -> int
    recommends
        kind.spec_width() is Some,
        raw.len() >= kind.spec_width()->Some_0,
{
    let width: nat = kind.spec_width()->Some_0;
    let n: nat = le_nat(raw.subrange(0, width as int));
    if kind.is_signed() {
        signed(n, width)
    } else {
        n as int
    }
}

/// The value of a fixed-width kind that holds the integer `n`.
pub open spec fn scalar_value(kind: CtlType, n: int) -> Value
    recommends
        kind.spec_width() is Some,
{
    match kind {
        CtlType::Int => Value::Int(n as i32),
        CtlType::S64 => Value::S64(n as u64),
        CtlType::Uint => Value::Uint(n as u32),
        CtlType::Long => Value::Long(n as i64),
        CtlType::Ulong => Value::Ulong(n as u64),
        CtlType::U64 => Value::U64(n as u64),
        CtlType::U8 => Value::U8(n as u8),
        CtlType::U16 => Value::U16(n as u16),
        CtlType::S8 => Value::S8(n as i8),
        CtlType::S16 => Value::S16(n as i16),
        CtlType::S32 => Value::S32(n as i32),
        _ => Value::U32(n as u32),
    }
}

/// What the bytes `raw` mean for a parameter of the given kind, by the kind
/// alone: an integer of the kind's width, the text before the closing byte
/// of a string, or the bytes themselves.
pub open spec fn plain(kind: CtlType, raw: Seq<u8>) -> Result<Value, CtlError> {
    match kind {
        CtlType::Node => Ok(Value::Node(raw)),
        CtlType::Struct => Ok(Value::Struct(raw)),
        CtlType::String => if raw.len() == 0 {
            Err(CtlError::Truncated { needed: 1, found: 0 })
        } else if valid_utf8(raw.drop_last()) {
            Ok(Value::String(decode_utf8(raw.drop_last())))
        } else {
            Err(CtlError::InvalidString)
        },
        CtlType::Temperature => Err(CtlError::NoMatchingType),
        _ => {
            let width: nat = kind.spec_width()->Some_0;
            if raw.len() < width {
                Err(CtlError::Truncated { needed: width as usize, found: raw.len() as usize })
            } else {
                Ok(scalar_value(kind, scalar_number(kind, raw)))
            }
        },
    }
}

/// A value that is read for an integer kind is of that kind and holds
/// exactly the integer that the bytes spell: nothing wraps and nothing is
/// cut off.
pub proof fn lemma_plain_scalar(kind: CtlType, raw: Seq<u8>)
    requires
        kind.is_scalar(),
        raw.len() >= kind.spec_width()->Some_0,
    ensures
        plain(kind, raw) is Ok,
        plain(kind, raw)->Ok_0.kind() == kind,
        plain(kind, raw)->Ok_0.number() == Some(scalar_number(kind, raw)),
{
    lemma_radix_values();
    crate::wire::lemma_le_nat_bound(raw.subrange(0, kind.spec_width()->Some_0 as int));
}

/// Whether a temperature can be declared with this kind.
pub open spec fn measures(kind: CtlType) -> bool {
    kind.is_scalar() && kind != CtlType::S64
}

/// What the bytes `raw` mean for a temperature that is declared with the
/// given kind and format descriptor: the integer of that kind, in units of
/// `10^-precision` kelvin.
pub open spec fn measured(kind: CtlType, fmt: Seq<char>, raw: Seq<u8>) -> Result<
    Value,
    CtlError,
> {
    if !measures(kind) {
        Err(CtlError::NoMatchingType)
    } else if raw.len() < kind.spec_width()->Some_0 {
        Err(
            CtlError::Truncated {
                needed: kind.spec_width()->Some_0 as usize,
                found: raw.len() as usize,
            },
        )
    } else {
        Ok(
            Value::Temperature(
                Reading { magnitude: scalar_number(kind, raw), precision: precision_of(fmt) },
            ),
        )
    }
}

/// What the bytes `raw` mean for a parameter with the given declaration: a
/// temperature where the format descriptor marks one, whatever the
/// declared kind, and else what the kind alone says.
pub open spec fn decoded(info: Info, raw: Seq<u8>) -> Result<Value, CtlError> {
    if is_temperature_format(info.fmt) {
        measured(info.ctl_type, info.fmt, raw)
    } else {
        plain(info.ctl_type, raw)
    }
}

/// The view of a value or of the error in its place.
pub open spec fn value_view(r: Result<CtlValue, CtlError>) -> Result<Value, CtlError> {
    match r {
        Ok(v) => Ok(v@),
        Err(e) => Err(e),
    }
}

/// A byte taken in two's complement.
fn byte_as_signed(b: u8) -> (r: i8)
    ensures
        r as int == signed(b as nat, 1),
{
    proof {
        lemma_radix_values();
        assert(b < 128 ==> (b as i8) as int == b as int) by (bit_vector);
        assert(b >= 128 ==> (b as i8) as int == b as int - 256) by (bit_vector);
    }
    b as i8
}

/// Reads the integer of a fixed-width kind from the first bytes of `raw`.
fn read_scalar(kind: CtlType, raw: &[u8]) -> (n: i128)
    requires
        kind.spec_width() is Some,
        raw@.len() >= kind.spec_width()->Some_0,
    ensures
        n as int == scalar_number(kind, raw@),
        scalar_value(kind, scalar_number(kind, raw@)).number() == Some(n as int),
{
    proof {
        lemma_radix_values();
        lemma_plain_scalar(kind, raw@);
        if kind.spec_width()->Some_0 == 1 {
            lemma_le_nat_one(raw@.subrange(0, 1));
        }
    }
    match kind {
        CtlType::Int | CtlType::S32 => read_i32(raw) as i128,
        CtlType::Uint | CtlType::U32 => read_u32(raw) as i128,
        CtlType::Long => read_i64(raw) as i128,
        CtlType::Ulong | CtlType::U64 | CtlType::S64 => read_u64(raw) as i128,
        CtlType::U16 => read_u16(raw) as i128,
        CtlType::S16 => read_i16(raw) as i128,
        CtlType::U8 => raw[0] as i128,
        _ => byte_as_signed(raw[0]) as i128,
    }
}

/// Reads a temperature from the bytes of a value: the integer of the
/// declared kind, with as many decimal places as the format descriptor
/// says.
pub fn temperature(info: &CtlInfo, val: &Vec<u8>) -> (r: Result<CtlValue, CtlError>)
    ensures
        value_view(r) == measured(info.ctl_type, info.fmt@, val@),
{
    let precision: u8 = info.precision();
    match info.ctl_type.width() {
        Some(width) => {
            if info.ctl_type == CtlType::S64 {
                return Err(CtlError::NoMatchingType);
            }
            if val.len() < width {
                return Err(CtlError::Truncated { needed: width, found: val.len() });
            }
            let magnitude: i128 = read_scalar(info.ctl_type, val.as_slice());
            Ok(CtlValue::Temperature(Temperature::fixed(magnitude, precision)))
        },
        None => Err(CtlError::NoMatchingType),
    }
}

/// Reads a value from its bytes by the kind of its parameter alone.
pub fn decode_plain(kind: CtlType, val: Vec<u8>) -> (r: Result<CtlValue, CtlError>)
    ensures
        value_view(r) == plain(kind, val@),
{
    match kind {
        CtlType::Node => Ok(CtlValue::Node(val)),
        CtlType::Struct => Ok(CtlValue::Struct(val)),
        CtlType::String => {
            if val.len() == 0 {
                return Err(CtlError::Truncated { needed: 1, found: 0 });
            }
            let text = slice_subrange(val.as_slice(), 0, val.len() - 1);
            assert(text@ == val@.drop_last());
            match utf8_str(text) {
                Some(s) => Ok(CtlValue::String(s.to_owned())),
                None => Err(CtlError::InvalidString),
            }
        },
        CtlType::Temperature => Err(CtlError::NoMatchingType),
        kind => {
            let width: usize = match kind.width() {
                Some(w) => w,
                None => {
                    return Err(CtlError::NoMatchingType);
                },
            };
            if val.len() < width {
                return Err(CtlError::Truncated { needed: width, found: val.len() });
            }
            let n: i128 = read_scalar(kind, val.as_slice());
            Ok(
                match kind {
                    CtlType::Int => CtlValue::Int(n as i32),
                    CtlType::S64 => CtlValue::S64(n as u64),
                    CtlType::Uint => CtlValue::Uint(n as u32),
                    CtlType::Long => CtlValue::Long(n as i64),
                    CtlType::Ulong => CtlValue::Ulong(n as u64),
                    CtlType::U64 => CtlValue::U64(n as u64),
                    CtlType::U8 => CtlValue::U8(n as u8),
                    CtlType::U16 => CtlValue::U16(n as u16),
                    CtlType::S8 => CtlValue::S8(n as i8),
                    CtlType::S16 => CtlValue::S16(n as i16),
                    CtlType::S32 => CtlValue::S32(n as i32),
                    _ => CtlValue::U32(n as u32),
                },
            )
        },
    }
}

/// Reads a value from its bytes by the declaration of its parameter.
pub fn decode(info: &CtlInfo, val: Vec<u8>) -> (r: Result<CtlValue, CtlError>)
    ensures
        value_view(r) == decoded(info@, val@),
{
    if info.is_temperature() {
        temperature(info, &val)
    } else {
        decode_plain(info.ctl_type, val)
    }
}

} // verus!
