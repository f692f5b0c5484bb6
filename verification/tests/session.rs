//! Sessions, one reply at a time.

use sysctl::{
    description, set_value, value, value_as, value_oid, CtlError, CtlInfo, CtlType, CtlValue,
    Destination, Goal, Layout, Outcome, Progress, Purpose, Reply, Request, Session, Temperature,
};

fn ok(len: usize, data: &[u8]) -> Reply {
    Reply { ret: 0, errno: 0, len, data: data.to_vec() }
}

fn refused(errno: i32) -> Reply {
    Reply { ret: -1, errno, len: 0, data: vec![] }
}

fn next(progress: Progress) -> Session {
    match progress {
        Progress::Next(session) => session,
        Progress::Done(result) => panic!("ended with {:?}", result),
    }
}

fn done(progress: Progress) -> Result<Outcome, CtlError> {
    match progress {
        Progress::Done(result) => result,
        Progress::Next(session) => panic!("went on with {:?}", session),
    }
}

fn int_info() -> Vec<u8> {
    vec![0x02, 0x00, 0x00, 0xc0, b'I', 0]
}

#[test]
fn requests_are_built_as_the_kernel_takes_them() {
    assert_eq!(
        Request::resolve("hw.ncpu"),
        Request {
            oid: vec![0, 3],
            destination: Destination::Sized(96),
            payload: Some(b"hw.ncpu".to_vec())
        }
    );
    assert_eq!(
        Request::declaration(&vec![6, 3]),
        Request { oid: vec![0, 4, 6, 3], destination: Destination::Scratch, payload: None }
    );
    assert_eq!(
        Request::description(&vec![6, 3]),
        Request { oid: vec![0, 5, 6, 3], destination: Destination::Scratch, payload: None }
    );
    assert_eq!(
        Request::probe(&vec![6, 3]),
        Request { oid: vec![6, 3], destination: Destination::Probe, payload: None }
    );
    assert_eq!(
        Request::fetch(&vec![6, 3], 4),
        Request { oid: vec![6, 3], destination: Destination::Sized(4), payload: None }
    );
    assert_eq!(
        Request::write(&vec![6, 3], vec![1, 0, 0, 0]),
        Request { oid: vec![6, 3], destination: Destination::Nowhere, payload: Some(vec![1, 0, 0, 0]) }
    );
    assert_eq!(Request::declaration(&vec![]).oid, vec![0, 4]);
    assert_eq!(Request::resolve("h\u{e9}").payload, Some(vec![b'h', 0xc3, 0xa9]));
}

#[test]
fn sessions_begin_where_they_should() {
    assert_eq!(
        value("a.b"),
        Session::Resolving { name: "a.b".into(), goal: Goal::Read { layout: None } }
    );
    assert_eq!(
        value_oid(&mut vec![1, 2]),
        Session::Declaring { oid: vec![1, 2], purpose: Purpose::Read { layout: None } }
    );
    assert_eq!(
        value_as("a.b", Layout::new(4, vec![]).unwrap()),
        Session::Resolving {
            name: "a.b".into(),
            goal: Goal::Read { layout: Some(Layout::new(4, vec![]).unwrap()) }
        }
    );
    assert_eq!(
        set_value("a.b", CtlValue::Int(1)),
        Session::Resolving { name: "a.b".into(), goal: Goal::Assign { value: CtlValue::Int(1) } }
    );
    assert_eq!(description("a.b"), Session::Resolving { name: "a.b".into(), goal: Goal::Describe });
    assert_eq!(value("a.b").request(), Request::resolve("a.b"));
    assert_eq!(value_oid(&mut vec![1, 2]).request(), Request::declaration(&vec![1, 2]));
}

#[test]
fn read_goes_through_declaration_length_and_bytes() {
    let s = value("kern.osrevision");
    let s = next(s.advance(ok(8, &[1, 0, 0, 0, 3, 0, 0, 0, 9, 9, 9, 9])));
    assert_eq!(s, Session::Declaring { oid: vec![1, 3], purpose: Purpose::Read { layout: None } });
    assert_eq!(s.request(), Request::declaration(&vec![1, 3]));
    let s = next(s.advance(ok(6, &int_info())));
    let info = CtlInfo { ctl_type: CtlType::Int, fmt: "I\0".into(), flags: 0xc0000002 };
    assert_eq!(s.request(), Request::probe(&vec![1, 3]));
    let s = next(s.advance(ok(4, &[])));
    assert_eq!(s, Session::Fetching { oid: vec![1, 3], info, layout: None, len: 4 });
    assert_eq!(s.request(), Request::fetch(&vec![1, 3], 4));
    assert_eq!(done(s.advance(ok(4, &[0x52, 0x0b, 0x03, 0x00]))), Ok(Outcome::Value(CtlValue::Int(199506))));
}

#[test]
fn refusal_ends_every_stage() {
    let e = Err(CtlError::Os { errno: 2 });
    assert_eq!(done(value("a").advance(refused(2))), e);
    assert_eq!(done(description("a").advance(refused(2))), e);
    assert_eq!(done(set_value("a", CtlValue::Int(1)).advance(refused(2))), e);
    assert_eq!(done(value_oid(&mut vec![1]).advance(refused(2))), e);
    let probing = next(value_oid(&mut vec![1]).advance(ok(6, &int_info())));
    assert_eq!(done(probing.advance(refused(2))), e);
    let probing = next(value_oid(&mut vec![1]).advance(ok(6, &int_info())));
    let fetching = next(probing.advance(ok(4, &[])));
    assert_eq!(done(fetching.advance(refused(2))), e);
    let writing = Session::Writing { name: "a".into(), oid: vec![1], bytes: vec![1, 0, 0, 0] };
    assert_eq!(done(writing.advance(refused(1))), Err(CtlError::Os { errno: 1 }));
    assert_eq!(done(Session::Describing { oid: vec![1] }.advance(refused(2))), e);
}

#[test]
fn name_that_resolves_to_no_integer_ends_the_operation() {
    let cut = Err(CtlError::Truncated { needed: 4, found: 3 });
    assert_eq!(done(value("a").advance(ok(3, &[1, 0, 0, 0]))), cut);
    assert_eq!(done(description("a").advance(ok(3, &[1, 0, 0, 0]))), cut);
    assert_eq!(done(set_value("a", CtlValue::Int(1)).advance(ok(3, &[1, 0, 0, 0]))), cut);
    assert_eq!(
        done(value("a").advance(ok(0, &[0; 96]))),
        Err(CtlError::Truncated { needed: 4, found: 0 })
    );
    let s = next(value("a").advance(ok(4, &[1, 0, 0, 0])));
    assert_eq!(s, Session::Declaring { oid: vec![1], purpose: Purpose::Read { layout: None } });
}

#[test]
fn value_that_changed_length_is_not_read() {
    let probing = next(value_oid(&mut vec![1]).advance(ok(6, &int_info())));
    let fetching = next(probing.advance(ok(4, &[])));
    assert_eq!(
        done(fetching.advance(ok(8, &[1, 0, 0, 0]))),
        Err(CtlError::LengthChanged { probed: 4, fetched: 8 })
    );
    let probing = next(value_oid(&mut vec![1]).advance(ok(6, &int_info())));
    let fetching = next(probing.advance(ok(4, &[])));
    assert_eq!(
        done(fetching.advance(ok(0, &[1, 0, 0, 0]))),
        Err(CtlError::LengthChanged { probed: 4, fetched: 0 })
    );
}

#[test]
fn write_checks_the_kind_then_writes_then_reads_again() {
    let s = set_value("hw.usb.debug", CtlValue::Int(3));
    let s = next(s.advance(ok(4, &[9, 0, 0, 0])));
    assert_eq!(s.request(), Request::declaration(&vec![9]));
    let s = next(s.advance(ok(6, &int_info())));
    assert_eq!(
        s,
        Session::Writing { name: "hw.usb.debug".into(), oid: vec![9], bytes: vec![3, 0, 0, 0] }
    );
    assert_eq!(s.request(), Request::write(&vec![9], vec![3, 0, 0, 0]));
    let s = next(s.advance(ok(0, &[])));
    assert_eq!(s, value("hw.usb.debug"));
}

#[test]
fn write_of_another_kind_is_refused_before_any_write() {
    let t = Temperature::new(1, 1).unwrap();
    let cases = vec![
        (CtlValue::Uint(3), CtlType::Uint),
        (CtlValue::S32(3), CtlType::S32),
        (CtlValue::String("3".into()), CtlType::String),
        (CtlValue::Temperature(t), CtlType::Temperature),
    ];
    for (value, given) in cases {
        let s = next(set_value("a", value).advance(ok(4, &[9, 0, 0, 0])));
        assert_eq!(
            done(s.advance(ok(6, &int_info()))),
            Err(CtlError::TypeMismatch { given, declared: CtlType::Int })
        );
    }
}

#[test]
fn write_of_a_string_closes_it_with_a_zero_byte() {
    let s = next(set_value("kern.hostname", CtlValue::String("box".into())).advance(ok(4, &[9, 0, 0, 0])));
    let s = next(s.advance(ok(6, &[0x03, 0x00, 0x00, 0xc0, b'A', 0])));
    assert_eq!(s.request().payload, Some(b"box\0".to_vec()));
}

#[test]
fn description_ends_with_the_text() {
    let s = next(description("hw.ncpu").advance(ok(8, &[6, 0, 0, 0, 3, 0, 0, 0])));
    assert_eq!(s, Session::Describing { oid: vec![6, 3] });
    assert_eq!(s.request(), Request::description(&vec![6, 3]));
    assert_eq!(done(s.advance(ok(15, b"Number of CPUs\0"))), Ok(Outcome::Text("Number of CPUs".into())));
    assert_eq!(
        done(Session::Describing { oid: vec![6, 3] }.advance(ok(0, b""))),
        Err(CtlError::Truncated { needed: 1, found: 0 })
    );
}

#[test]
fn declaration_errors_end_the_read() {
    assert_eq!(
        done(value_oid(&mut vec![1]).advance(ok(2, &[2, 0]))),
        Err(CtlError::Truncated { needed: 4, found: 2 })
    );
    assert_eq!(
        done(value_oid(&mut vec![1]).advance(ok(5, &[0, 0, 0, 0, 0]))),
        Err(CtlError::UnknownType { tag: 0 })
    );
    assert_eq!(
        done(value_oid(&mut vec![1]).advance(ok(5, &[2, 0, 0, 0, 0x80]))),
        Err(CtlError::InvalidUtf8)
    );
}
