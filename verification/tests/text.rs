//! What values and errors look like in words.

use sysctl::{os_error_text, CtlError, CtlType, CtlValue, Temperature};

const NO_TEXT: &str = "unknown value format for Display. use {:?}";

#[test]
fn integers_are_written_in_decimal() {
    assert_eq!(CtlValue::Int(0).to_string(), "0");
    assert_eq!(CtlValue::Int(199506).to_string(), "199506");
    assert_eq!(CtlValue::Int(-1).to_string(), "-1");
    assert_eq!(CtlValue::Int(i32::MIN).to_string(), "-2147483648");
    assert_eq!(CtlValue::Int(i32::MAX).to_string(), "2147483647");
    assert_eq!(CtlValue::S32(-10).to_string(), "-10");
    assert_eq!(CtlValue::Uint(u32::MAX).to_string(), "4294967295");
    assert_eq!(CtlValue::U32(100).to_string(), "100");
    assert_eq!(CtlValue::Long(i64::MIN).to_string(), "-9223372036854775808");
    assert_eq!(CtlValue::Long(i64::MAX).to_string(), "9223372036854775807");
    assert_eq!(CtlValue::Ulong(u64::MAX).to_string(), "18446744073709551615");
    assert_eq!(CtlValue::U64(1_000_000_007).to_string(), "1000000007");
    assert_eq!(CtlValue::S64(u64::MAX).to_string(), "18446744073709551615");
    assert_eq!(CtlValue::U8(9).to_string(), "9");
    assert_eq!(CtlValue::U8(10).to_string(), "10");
    assert_eq!(CtlValue::U8(255).to_string(), "255");
    assert_eq!(CtlValue::S8(-128).to_string(), "-128");
    assert_eq!(CtlValue::U16(65535).to_string(), "65535");
    assert_eq!(CtlValue::S16(-32768).to_string(), "-32768");
}

#[test]
fn string_is_written_as_it_is() {
    assert_eq!(CtlValue::String("FreeBSD".into()).to_string(), "FreeBSD");
    assert_eq!(CtlValue::String("".into()).to_string(), "");
    assert_eq!(CtlValue::String("h\u{e9} {:?}".into()).to_string(), "h\u{e9} {:?}");
}

#[test]
fn other_values_have_no_text() {
    let t = Temperature::new(3330, 1).unwrap();
    assert_eq!(CtlValue::Node(vec![1, 2]).to_string(), NO_TEXT);
    assert_eq!(CtlValue::Struct(vec![]).to_string(), NO_TEXT);
    assert_eq!(CtlValue::Temperature(t).to_string(), NO_TEXT);
}

#[test]
fn into_string_is_the_same_text() {
    let t = Temperature::new(3330, 1).unwrap();
    assert_eq!(CtlValue::Int(-42).into_string(), "-42");
    assert_eq!(CtlValue::String("abc".into()).into_string(), "abc");
    assert_eq!(CtlValue::Ulong(7).into_string(), "7");
    assert_eq!(CtlValue::Node(vec![1, 2]).into_string(), NO_TEXT);
    assert_eq!(CtlValue::Temperature(t).into_string(), NO_TEXT);
}

#[test]
fn every_number_up_to_a_thousand_is_written_like_std() {
    for n in -1000..=1000i32 {
        assert_eq!(CtlValue::Int(n).to_string(), format!("{}", n));
    }
}

#[test]
fn error_messages() {
    assert_eq!(CtlError::InvalidString.to_string(), "Error parsing string");
    assert_eq!(CtlError::InvalidUtf8.to_string(), "invalid utf-8 sequence");
    assert_eq!(CtlError::NoMatchingType.to_string(), "No matching type for value");
    assert_eq!(CtlError::NotOpaque.to_string(), "Error extracting value");
    assert_eq!(
        CtlError::SizeMismatch { expected: 20, found: 16 }.to_string(),
        "Error memory size mismatch. Size of struct 20, size of data retrieved 16."
    );
    assert_eq!(
        CtlError::TypeMismatch { given: CtlType::Uint, declared: CtlType::Int }.to_string(),
        "Error type mismatch. Type given Uint, sysctl type: Int"
    );
    assert_eq!(
        CtlError::LengthChanged { probed: 4, fetched: 8 }.to_string(),
        "Error value changed size. Size asked for 4, size of data retrieved 8."
    );
    assert_eq!(
        CtlError::Truncated { needed: 4, found: 0 }.to_string(),
        "Error short reply. Bytes needed 4, bytes retrieved 0."
    );
    assert_eq!(CtlError::UnknownType { tag: 0 }.to_string(), "Error unknown type tag 0");
    assert_eq!(CtlError::InvalidLayout { field: 12 }.to_string(), "Error invalid layout. Field 12");
}

#[test]
fn refused_call_is_told_by_number_and_by_the_host() {
    assert_eq!(os_error_text(2, "No such file or directory"), "errno 2: No such file or directory");
    assert_eq!(os_error_text(-1, ""), "errno -1: ");
    assert_eq!(os_error_text(i32::MIN, "x"), "errno -2147483648: x");
    let told = CtlError::Os { errno: 2 }.to_string();
    assert!(told.starts_with("errno 2: "));
    assert!(told.len() > "errno 2: ".len());
    assert_ne!(told, "errno 2: 2");
    let other = CtlError::Os { errno: 13 }.to_string();
    assert!(other.starts_with("errno 13: "));
    assert_ne!(&told["errno 2: ".len()..], &other["errno 13: ".len()..]);
}
