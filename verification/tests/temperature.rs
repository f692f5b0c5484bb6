//! Temperatures: the integer of the declared kind, scaled by the digit of
//! the format descriptor.

use byteorder::{LittleEndian, WriteBytesExt};
use std::cmp::Ordering;
use sysctl::{decode, decode_plain, temperature, CtlError, CtlInfo, CtlType, CtlValue, Temperature};

fn kelvin(t: &Temperature) -> f32 {
    t.magnitude() as f32 / t.scale() as f32
}

fn celsius(t: &Temperature) -> f32 {
    kelvin(t) - 273.15
}

fn fahrenheit(t: &Temperature) -> f32 {
    1.8 * celsius(t) + 32.0
}

fn info(ctl_type: CtlType, fmt: &str) -> CtlInfo {
    CtlInfo { ctl_type, fmt: fmt.into(), flags: 0 }
}

fn reading(ctl_type: CtlType, fmt: &str, val: &[u8]) -> (i128, u8) {
    match temperature(&info(ctl_type, fmt), &val.to_vec()) {
        Ok(CtlValue::Temperature(t)) => (t.magnitude(), t.precision()),
        other => panic!("not a temperature: {:?}", other),
    }
}

#[test]
fn ctl_temperature_ik() {
    let info = CtlInfo {
        ctl_type: CtlType::Int,
        fmt: "IK".into(),
        flags: 0,
    };
    let mut val = vec![];
    // Default value (IK) in deciKelvin integer
    val.write_i32::<LittleEndian>(3330)
        .expect("Error parsing value to byte array");

    let t = temperature(&info, &val).unwrap();
    if let CtlValue::Temperature(tt) = t {
        assert!(kelvin(&tt) - 333.0 < 0.1);
        assert!(celsius(&tt) - 59.85 < 0.1);
        assert!(fahrenheit(&tt) - 139.73 < 0.1);
    } else {
        assert!(false);
    }
}

#[test]
fn ctl_temperature_ik3() {
    let info = CtlInfo {
        ctl_type: CtlType::Int,
        fmt: "IK3".into(),
        flags: 0,
    };
    let mut val = vec![];
    // Set value in milliKelvin
    val.write_i32::<LittleEndian>(333000)
        .expect("Error parsing value to byte array");

    let t = temperature(&info, &val).unwrap();
    if let CtlValue::Temperature(tt) = t {
        assert!(kelvin(&tt) - 333.0 < 0.1);
    } else {
        assert!(false);
    }
}

#[test]
fn default_precision_is_tenths() {
    let t = Temperature::new(3330, 1).unwrap();
    assert_eq!(temperature(&info(CtlType::Int, "IK"), &vec![0x02, 0x0d, 0, 0]), Ok(CtlValue::Temperature(t)));
    assert_eq!(t.magnitude(), 3330);
    assert_eq!(t.precision(), 1);
    assert_eq!(t.scale(), 10);
    assert!((kelvin(&t) - 333.0).abs() < 1e-3);
    assert!((celsius(&t) - 59.85).abs() < 1e-3);
    assert!((fahrenheit(&t) - 139.73).abs() < 1e-3);
}

#[test]
fn third_character_gives_the_precision() {
    let val = [0xc8, 0x14, 0x05, 0x00];
    assert_eq!(reading(CtlType::Int, "IK3", &val), (333000, 3));
    assert_eq!(reading(CtlType::Int, "IK0", &val), (333000, 0));
    assert_eq!(reading(CtlType::Int, "IK9", &val), (333000, 9));
    assert_eq!(reading(CtlType::Int, "IK3\0", &val), (333000, 3));
    assert_eq!(reading(CtlType::Int, "IK35", &val), (333000, 3));
    let t = Temperature::new(333000, 3).unwrap();
    assert_eq!(t.scale(), 1000);
    assert!((kelvin(&t) - 333.0).abs() < 1e-3);
}

#[test]
fn third_character_that_is_no_digit_gives_tenths() {
    let val = [0x02, 0x0d, 0, 0];
    assert_eq!(reading(CtlType::Int, "IK\0", &val), (3330, 1));
    assert_eq!(reading(CtlType::Int, "IKx", &val), (3330, 1));
    assert_eq!(reading(CtlType::Int, "IK+", &val), (3330, 1));
    assert_eq!(reading(CtlType::Int, "IK-", &val), (3330, 1));
    assert_eq!(reading(CtlType::Int, "IK ", &val), (3330, 1));
    assert_eq!(reading(CtlType::Int, "IK\u{0663}", &val), (3330, 1));
    assert_eq!(reading(CtlType::Int, "", &val), (3330, 1));
    assert_eq!(reading(CtlType::Int, "I", &val), (3330, 1));
}

#[test]
fn scale_is_a_power_of_ten() {
    let mut expected: u32 = 1;
    for precision in 0..=9u8 {
        assert_eq!(Temperature::new(1, precision).unwrap().scale(), expected);
        if precision < 9 {
            expected *= 10;
        }
    }
    assert_eq!(Temperature::new(1, 9).unwrap().scale(), 1_000_000_000);
    assert_eq!(Temperature::new(1, 10), None);
    assert_eq!(Temperature::new(-5, 255), None);
}

#[test]
fn magnitude_is_read_by_the_declared_kind() {
    let ff = [0xffu8; 8];
    assert_eq!(reading(CtlType::Int, "IK", &ff), (-1, 1));
    assert_eq!(reading(CtlType::S32, "IK", &ff), (-1, 1));
    assert_eq!(reading(CtlType::Uint, "IK", &ff), (4294967295, 1));
    assert_eq!(reading(CtlType::U32, "IK", &ff), (4294967295, 1));
    assert_eq!(reading(CtlType::Long, "IK", &ff), (-1, 1));
    assert_eq!(reading(CtlType::Ulong, "IK", &ff), (18446744073709551615, 1));
    assert_eq!(reading(CtlType::U64, "IK", &ff), (18446744073709551615, 1));
    assert_eq!(reading(CtlType::U8, "IK", &ff), (255, 1));
    assert_eq!(reading(CtlType::S8, "IK", &ff), (-1, 1));
    assert_eq!(reading(CtlType::U16, "IK", &ff), (65535, 1));
    assert_eq!(reading(CtlType::S16, "IK", &ff), (-1, 1));
    assert_eq!(reading(CtlType::S16, "IK2", &[0x00, 0x80]), (-32768, 2));
    assert_eq!(reading(CtlType::Long, "IK", &[0, 0, 0, 0, 0, 0, 0, 0x80]), (-9223372036854775808, 1));
}

#[test]
fn kinds_that_hold_no_measure_are_refused() {
    let val = vec![0u8; 8];
    for kind in [CtlType::Node, CtlType::String, CtlType::Struct, CtlType::S64, CtlType::Temperature] {
        assert_eq!(temperature(&info(kind, "IK"), &val), Err(CtlError::NoMatchingType));
    }
}

#[test]
fn short_measure_is_refused() {
    assert_eq!(
        temperature(&info(CtlType::Int, "IK"), &vec![1, 2, 3]),
        Err(CtlError::Truncated { needed: 4, found: 3 })
    );
    assert_eq!(
        temperature(&info(CtlType::U8, "IK"), &vec![]),
        Err(CtlError::Truncated { needed: 1, found: 0 })
    );
    assert_eq!(
        temperature(&info(CtlType::String, "IK"), &vec![]),
        Err(CtlError::NoMatchingType)
    );
}

#[test]
fn format_decides_before_the_kind() {
    let val = vec![0x02, 0x0d, 0, 0];
    let t = Temperature::new(3330, 1).unwrap();
    assert_eq!(decode(&info(CtlType::Int, "IK"), val.clone()), Ok(CtlValue::Temperature(t)));
    assert_eq!(decode(&info(CtlType::Int, "IK\0"), val.clone()), Ok(CtlValue::Temperature(t)));
    assert_eq!(decode(&info(CtlType::Int, "I"), val.clone()), Ok(CtlValue::Int(3330)));
    assert_eq!(decode(&info(CtlType::Int, "KI"), val.clone()), Ok(CtlValue::Int(3330)));
    assert_eq!(decode(&info(CtlType::Int, "ik"), val.clone()), Ok(CtlValue::Int(3330)));
    assert_eq!(decode(&info(CtlType::Int, ""), val.clone()), Ok(CtlValue::Int(3330)));
    assert_eq!(decode(&info(CtlType::String, "IK"), val.clone()), Err(CtlError::NoMatchingType));
    assert_eq!(decode_plain(CtlType::Int, val), Ok(CtlValue::Int(3330)));
    assert!(info(CtlType::Int, "IK").is_temperature());
    assert!(info(CtlType::Int, "IK3").is_temperature());
    assert!(!info(CtlType::Int, "I").is_temperature());
    assert!(!info(CtlType::Int, "").is_temperature());
    assert!(!info(CtlType::Int, "AIK").is_temperature());
    assert_eq!(info(CtlType::Int, "IK7").precision(), 7);
    assert_eq!(info(CtlType::Int, "IK").precision(), 1);
}

#[test]
fn temperatures_are_equal_where_their_kelvin_are() {
    let tenths = Temperature::new(3330, 1).unwrap();
    let thousandths = Temperature::new(333000, 3).unwrap();
    let whole = Temperature::new(333, 0).unwrap();
    assert_eq!(tenths, thousandths);
    assert_eq!(tenths, whole);
    assert_eq!(thousandths, whole);
    assert_ne!(tenths, Temperature::new(3331, 1).unwrap());
    assert_ne!(tenths, Temperature::new(3330, 2).unwrap());
    assert_eq!(Temperature::new(0, 0).unwrap(), Temperature::new(0, 9).unwrap());
    assert_eq!(tenths.nanokelvin(), 333_000_000_000);
    assert_eq!(thousandths.nanokelvin(), 333_000_000_000);
    assert_eq!(Temperature::new(-5, 9).unwrap().nanokelvin(), -5);
    assert_eq!(Temperature::new(-5, 0).unwrap().nanokelvin(), -5_000_000_000);
    assert_eq!(
        Temperature::new(18446744073709551615, 0).unwrap().nanokelvin(),
        18446744073709551615000000000
    );
    assert_eq!(
        Temperature::new(-9223372036854775808, 0).unwrap().nanokelvin(),
        -9223372036854775808000000000
    );
}

#[test]
fn temperatures_are_ordered_by_their_kelvin() {
    let cold = Temperature::new(2731, 1).unwrap();
    let warm = Temperature::new(300, 0).unwrap();
    let hot = Temperature::new(333000, 3).unwrap();
    assert!(cold < warm);
    assert!(warm < hot);
    assert!(hot > cold);
    assert!(cold <= Temperature::new(273100, 3).unwrap());
    assert!(cold >= Temperature::new(273100, 3).unwrap());
    assert_eq!(cold.partial_cmp(&warm), Some(Ordering::Less));
    assert_eq!(hot.partial_cmp(&warm), Some(Ordering::Greater));
    assert_eq!(hot.partial_cmp(&Temperature::new(3330, 1).unwrap()), Some(Ordering::Equal));
    assert!(Temperature::new(9, 0).unwrap() > Temperature::new(10, 1).unwrap());
    assert!(Temperature::new(9, 1).unwrap() < Temperature::new(1, 0).unwrap());
    assert!(Temperature::new(-1, 0).unwrap() < Temperature::new(-9, 1).unwrap());
    assert!(Temperature::new(-1, 9).unwrap() < Temperature::new(0, 0).unwrap());
}

#[test]
fn magnitude_beyond_64_bits_is_refused() {
    assert!(Temperature::new(18446744073709551615, 9).is_some());
    assert!(Temperature::new(18446744073709551616, 0).is_none());
    assert!(Temperature::new(-9223372036854775808, 9).is_some());
    assert!(Temperature::new(-9223372036854775809, 0).is_none());
    assert!(Temperature::new(i128::MAX, 0).is_none());
    assert!(Temperature::new(i128::MIN, 0).is_none());
    assert!(Temperature::new(0, 10).is_none());
}

#[test]
fn values_are_ordered_by_kind_and_then_by_what_they_hold() {
    assert!(CtlValue::Int(1) < CtlValue::Int(2));
    assert!(CtlValue::Int(-1) < CtlValue::Int(0));
    assert!(CtlValue::Node(vec![9]) < CtlValue::Int(0));
    assert!(CtlValue::Int(9) < CtlValue::String("a".into()));
    assert!(CtlValue::String("a".into()) < CtlValue::String("b".into()));
    assert!(CtlValue::Struct(vec![1, 2]) < CtlValue::Struct(vec![1, 3]));
    assert!(CtlValue::U32(u32::MAX) < CtlValue::Temperature(Temperature::new(0, 0).unwrap()));
    assert!(
        CtlValue::Temperature(Temperature::new(2731, 1).unwrap())
            < CtlValue::Temperature(Temperature::new(300, 0).unwrap())
    );
    assert_eq!(
        CtlValue::Temperature(Temperature::new(3330, 1).unwrap())
            .partial_cmp(&CtlValue::Temperature(Temperature::new(333, 0).unwrap())),
        Some(Ordering::Equal)
    );
    assert_eq!(CtlValue::Uint(3).partial_cmp(&CtlValue::Uint(3)), Some(Ordering::Equal));
    assert_eq!(CtlValue::Long(4).partial_cmp(&CtlValue::Long(3)), Some(Ordering::Greater));
}
