//! Layouts and the records read by them.

use sysctl::{extract, CtlError, CtlType, CtlValue, Field, Layout, Temperature};

fn field(offset: usize, width: usize, kind: CtlType) -> Field {
    Field { offset, width, kind }
}

fn mixed() -> Layout {
    Layout::new(
        24,
        vec![
            field(0, 1, CtlType::U8),
            field(1, 1, CtlType::S8),
            field(2, 2, CtlType::U16),
            field(4, 4, CtlType::Int),
            field(8, 8, CtlType::Long),
            field(16, 3, CtlType::Struct),
            field(19, 1, CtlType::Node),
            field(20, 4, CtlType::Uint),
            field(2, 2, CtlType::S16),
            field(0, 24, CtlType::Struct),
            field(24, 0, CtlType::Node),
        ],
    )
    .unwrap()
}

fn mixed_bytes() -> Vec<u8> {
    vec![
        0xfe, 0xfe, 0x00, 0x80, 0x33, 0x7a, 0xff, 0xff, 0x00, 0x36, 0x65, 0xc4, 0xff, 0xff, 0xff,
        0xff, b'a', b'b', b'c', 0x00, 0x40, 0x42, 0x0f, 0x00,
    ]
}

#[test]
fn layout_tells_its_size_and_fields() {
    let layout = mixed();
    assert_eq!(layout.size(), 24);
    assert_eq!(layout.field_count(), 11);
    assert_eq!(layout.field(0), Some(field(0, 1, CtlType::U8)));
    assert_eq!(layout.field(7), Some(field(20, 4, CtlType::Uint)));
    assert_eq!(layout.field(11), None);
    let empty = Layout::new(0, vec![]).unwrap();
    assert_eq!(empty.size(), 0);
    assert_eq!(empty.field_count(), 0);
    assert_eq!(empty.field(0), None);
}

#[test]
fn field_outside_the_layout_is_refused() {
    assert_eq!(
        Layout::new(4, vec![field(0, 4, CtlType::Int), field(1, 4, CtlType::Int)]),
        Err(CtlError::InvalidLayout { field: 1 })
    );
    assert_eq!(
        Layout::new(4, vec![field(4, 1, CtlType::U8)]),
        Err(CtlError::InvalidLayout { field: 0 })
    );
    assert_eq!(
        Layout::new(4, vec![field(usize::MAX, 1, CtlType::U8)]),
        Err(CtlError::InvalidLayout { field: 0 })
    );
    assert_eq!(
        Layout::new(4, vec![field(2, usize::MAX, CtlType::Struct)]),
        Err(CtlError::InvalidLayout { field: 0 })
    );
    assert_eq!(
        Layout::new(usize::MAX, vec![field(usize::MAX - 1, 1, CtlType::U8)]).map(|l| l.size()),
        Ok(usize::MAX)
    );
    assert!(field(0, 4, CtlType::Int).check(4));
    assert!(!field(1, 4, CtlType::Int).check(4));
    assert!(field(4, 0, CtlType::Struct).check(4));
    assert!(!field(5, 0, CtlType::Struct).check(4));
}

#[test]
fn field_without_a_fixed_reading_is_refused() {
    assert_eq!(
        Layout::new(8, vec![field(0, 4, CtlType::Int), field(4, 2, CtlType::Int)]),
        Err(CtlError::InvalidLayout { field: 1 })
    );
    assert_eq!(Layout::new(8, vec![field(0, 8, CtlType::Int)]), Err(CtlError::InvalidLayout { field: 0 }));
    assert_eq!(Layout::new(8, vec![field(0, 4, CtlType::String)]), Err(CtlError::InvalidLayout { field: 0 }));
    assert_eq!(
        Layout::new(8, vec![field(0, 4, CtlType::Temperature)]),
        Err(CtlError::InvalidLayout { field: 0 })
    );
    assert_eq!(
        Layout::new(
            8,
            vec![field(0, 4, CtlType::Int), field(0, 3, CtlType::Uint), field(9, 1, CtlType::U8)]
        ),
        Err(CtlError::InvalidLayout { field: 1 })
    );
    assert!(!field(0, 4, CtlType::String).check(8));
    assert!(!field(0, 4, CtlType::Long).check(8));
    assert!(field(0, 8, CtlType::S64).check(8));
}

#[test]
fn run_of_the_exact_size_is_read() {
    let record = extract(mixed(), CtlValue::Struct(mixed_bytes())).unwrap();
    assert_eq!(record.bytes(), &mixed_bytes());
    assert_eq!(record.layout(), &mixed());
    assert_eq!(record.get(0), Some(CtlValue::U8(0xfe)));
    assert_eq!(record.get(1), Some(CtlValue::S8(-2)));
    assert_eq!(record.get(2), Some(CtlValue::U16(0x8000)));
    assert_eq!(record.get(3), Some(CtlValue::Int(-34253)));
    assert_eq!(record.get(4), Some(CtlValue::Long(-1_000_000_000)));
    assert_eq!(record.get(5), Some(CtlValue::Struct(b"abc".to_vec())));
    assert_eq!(record.get(6), Some(CtlValue::Node(vec![0])));
    assert_eq!(record.get(7), Some(CtlValue::Uint(1_000_000)));
    assert_eq!(record.get(8), Some(CtlValue::S16(i16::MIN)));
    assert_eq!(record.get(9), Some(CtlValue::Struct(mixed_bytes())));
    assert_eq!(record.get(10), Some(CtlValue::Node(vec![])));
    assert_eq!(record.get(11), None);
    assert_eq!(record.get(usize::MAX), None);
    assert_eq!(record.into_bytes(), mixed_bytes());
}

#[test]
fn node_is_read_like_a_struct() {
    let record = extract(mixed(), CtlValue::Node(mixed_bytes())).unwrap();
    assert_eq!(record.get(3), Some(CtlValue::Int(-34253)));
    assert_eq!(record.into_bytes(), mixed_bytes());
}

#[test]
fn run_of_another_size_is_refused() {
    let mut long = mixed_bytes();
    long.push(0);
    assert_eq!(
        extract(mixed(), CtlValue::Struct(long.clone())),
        Err(CtlError::SizeMismatch { expected: 24, found: 25 })
    );
    assert_eq!(
        extract(mixed(), CtlValue::Node(long)),
        Err(CtlError::SizeMismatch { expected: 24, found: 25 })
    );
    let mut short = mixed_bytes();
    short.pop();
    assert_eq!(
        extract(mixed(), CtlValue::Struct(short.clone())),
        Err(CtlError::SizeMismatch { expected: 24, found: 23 })
    );
    assert_eq!(
        extract(mixed(), CtlValue::Node(short)),
        Err(CtlError::SizeMismatch { expected: 24, found: 23 })
    );
    assert_eq!(
        extract(mixed(), CtlValue::Struct(vec![])),
        Err(CtlError::SizeMismatch { expected: 24, found: 0 })
    );
    assert_eq!(
        extract(Layout::new(0, vec![]).unwrap(), CtlValue::Struct(vec![1])),
        Err(CtlError::SizeMismatch { expected: 0, found: 1 })
    );
    assert!(extract(Layout::new(0, vec![]).unwrap(), CtlValue::Struct(vec![])).is_ok());
}

#[test]
fn value_that_is_no_run_of_bytes_is_refused() {
    let t = Temperature::new(1, 1).unwrap();
    let values = vec![
        CtlValue::Int(1),
        CtlValue::String("abcd".into()),
        CtlValue::S64(1),
        CtlValue::Uint(1),
        CtlValue::Long(1),
        CtlValue::Ulong(1),
        CtlValue::U64(1),
        CtlValue::U8(1),
        CtlValue::U16(1),
        CtlValue::S8(1),
        CtlValue::S16(1),
        CtlValue::S32(1),
        CtlValue::U32(1),
        CtlValue::Temperature(t),
    ];
    for value in values {
        let layout = Layout::new(4, vec![]).unwrap();
        assert_eq!(extract(layout, value), Err(CtlError::NotOpaque));
    }
}
