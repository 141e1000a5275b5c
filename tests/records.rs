use logind_zbus::manager::{InhibitType, InhibitTypes, Inhibitor, Mode, ScheduledShutdown, ShutdownType};
use logind_zbus::path::{IntoPath, ObjectPath};
use logind_zbus::seat::SeatPath;
use logind_zbus::session::{Device, SessionInfo, SessionPath};
use logind_zbus::user::{DbusPath, User, UserInfo};
use logind_zbus::wire::{decode_array, DecodeError, WireRecord, WireValue};

fn s(t: &str) -> WireValue {
    WireValue::Str(t.to_string())
}

fn p(t: &str) -> WireValue {
    WireValue::Path(ObjectPath::new(t).unwrap())
}

#[test]
fn seat_path_from_two_fields() {
    let w = WireValue::Struct(vec![s("seat0"), p("/org/freedesktop/login1/seat/seat0")]);
    let seat = SeatPath::decode(&w).unwrap();
    assert_eq!(seat.id(), "seat0");
    assert_eq!(seat.path().as_str(), "/org/freedesktop/login1/seat/seat0");
    assert_eq!(seat.into_path_ref().as_str(), "/org/freedesktop/login1/seat/seat0");
    assert_eq!(seat.to_wire(), w);
}

#[test]
fn seat_path_from_three_fields_fails() {
    let w = WireValue::Struct(vec![s("seat0"), p("/org/freedesktop/login1/seat/seat0"), s("x")]);
    assert_eq!(SeatPath::decode(&w), Err(DecodeError::ArityMismatch { expected: 2, found: 3 }));
}

#[test]
fn labeled_path_field_mismatch() {
    let w = WireValue::Struct(vec![WireValue::U32(0), p("/a")]);
    assert_eq!(SessionPath::decode(&w), Err(DecodeError::FieldTypeMismatch { index: 0 }));
    let w = WireValue::Struct(vec![s("c1"), s("/a")]);
    assert_eq!(SessionPath::decode(&w), Err(DecodeError::FieldTypeMismatch { index: 1 }));
    assert_eq!(SeatPath::decode(&s("seat0")), Err(DecodeError::TypeMismatch));
}

#[test]
fn list_sessions_scenario() {
    let path = "/org/freedesktop/login1/session/c1";
    let reply = WireValue::Array(vec![WireValue::Struct(vec![
        s("c1"),
        WireValue::U32(1000),
        s("alice"),
        s("seat0"),
        p(path),
    ])]);
    let sessions = decode_array::<SessionInfo>(&reply).unwrap();
    assert_eq!(sessions.len(), 1);
    let info = &sessions[0];
    assert_eq!(info.sid(), "c1");
    assert_eq!(info.uid(), 1000);
    assert_eq!(info.user(), "alice");
    assert_eq!(info.seat(), "seat0");
    assert_eq!(info.path().as_str(), path);
    assert_eq!(info.into_path().as_str(), path);
}

#[test]
fn session_info_errors() {
    let short = WireValue::Struct(vec![s("c1"), WireValue::U32(1000)]);
    assert_eq!(SessionInfo::decode(&short), Err(DecodeError::ArityMismatch { expected: 5, found: 2 }));
    let bad_uid = WireValue::Struct(vec![s("c1"), WireValue::U64(1000), s("alice"), s("seat0"), p("/s")]);
    assert_eq!(SessionInfo::decode(&bad_uid), Err(DecodeError::FieldTypeMismatch { index: 1 }));
    let bad_path = WireValue::Struct(vec![s("c1"), WireValue::U32(1000), s("alice"), s("seat0"), s("/s")]);
    assert_eq!(SessionInfo::decode(&bad_path), Err(DecodeError::FieldTypeMismatch { index: 4 }));
}

#[test]
fn session_info_round_trip() {
    let w = WireValue::Struct(vec![s("2"), WireValue::U32(42), s("bob"), s(""), p("/org/freedesktop/login1/session/_32")]);
    let info = SessionInfo::decode(&w).unwrap();
    assert_eq!(info.to_wire(), w);
    assert_eq!(SessionInfo::decode(&info.to_wire()), Ok(info));
}

#[test]
fn array_decoding() {
    let empty = WireValue::Array(vec![]);
    assert_eq!(decode_array::<SeatPath>(&empty).unwrap().len(), 0);
    let two = WireValue::Array(vec![
        WireValue::Struct(vec![s("seat0"), p("/seat0")]),
        WireValue::Struct(vec![s("seat1"), p("/seat1")]),
    ]);
    let seats = decode_array::<SeatPath>(&two).unwrap();
    assert_eq!(seats[0].id(), "seat0");
    assert_eq!(seats[1].id(), "seat1");
    let broken = WireValue::Array(vec![
        WireValue::Struct(vec![s("seat0"), p("/seat0")]),
        WireValue::Struct(vec![s("seat1")]),
        WireValue::U32(3),
    ]);
    assert_eq!(decode_array::<SeatPath>(&broken), Err(DecodeError::ArityMismatch { expected: 2, found: 1 }));
    assert_eq!(decode_array::<SeatPath>(&s("x")), Err(DecodeError::TypeMismatch));
}

#[test]
fn user_records() {
    let w = WireValue::Struct(vec![WireValue::U32(1000), p("/org/freedesktop/login1/user/_1000")]);
    let user = User::decode(&w).unwrap();
    assert_eq!(user.uid(), 1000);
    assert_eq!(user.path().as_str(), "/org/freedesktop/login1/user/_1000");
    assert_eq!(user.to_wire(), w);
    let w = WireValue::Struct(vec![WireValue::U32(1000), s("alice"), p("/org/freedesktop/login1/user/_1000")]);
    let info = UserInfo::decode(&w).unwrap();
    assert_eq!(info.uid(), 1000);
    assert_eq!(info.name(), "alice");
    assert_eq!(info.into_path().as_str(), "/org/freedesktop/login1/user/_1000");
    assert_eq!(UserInfo::decode(&WireValue::Struct(vec![s("alice")])), Err(DecodeError::ArityMismatch { expected: 3, found: 1 }));
    let display = DbusPath::new("c2".to_string(), ObjectPath::new("/org/freedesktop/login1/session/c2").unwrap());
    assert_eq!(display.id(), "c2");
    assert_eq!(DbusPath::decode(&display.to_wire()), Ok(display));
}

#[test]
fn scheduled_shutdown_record() {
    let w = WireValue::Struct(vec![s("reboot"), WireValue::U64(1_700_000_000_000_000)]);
    let sd = ScheduledShutdown::decode(&w).unwrap();
    assert_eq!(sd.id(), "reboot");
    assert_eq!(sd.kind(), ShutdownType::Reboot);
    assert_eq!(sd.time(), 1_700_000_000_000_000);
    assert_eq!(sd.to_wire(), w);
    let none = WireValue::Struct(vec![s(""), WireValue::U64(0)]);
    let sd = ScheduledShutdown::decode(&none).unwrap();
    assert_eq!(sd.kind(), ShutdownType::Invalid);
    let bad = WireValue::Struct(vec![s("reboot"), WireValue::U32(0)]);
    assert_eq!(ScheduledShutdown::decode(&bad), Err(DecodeError::FieldTypeMismatch { index: 1 }));
}

#[test]
fn inhibitor_record() {
    let w = WireValue::Struct(vec![
        s("shutdown:sleep"),
        s("app"),
        s("saving"),
        s("delay"),
        WireValue::U32(1000),
        WireValue::U32(4242),
    ]);
    let lock = Inhibitor::decode(&w).unwrap();
    assert_eq!(lock.what().types(), &vec![InhibitType::Shutdown, InhibitType::Sleep]);
    assert_eq!(lock.who(), "app");
    assert_eq!(lock.why(), "saving");
    assert_eq!(lock.mode(), Mode::Delay);
    assert_eq!(lock.user_id(), 1000);
    assert_eq!(lock.process_id(), 4242);
    assert_eq!(lock.to_wire(), Some(w));
    let odd = WireValue::Struct(vec![s("idle"), s("a"), s("b"), s("later"), WireValue::U32(1), WireValue::U32(2)]);
    let lock = Inhibitor::decode(&odd).unwrap();
    assert_eq!(lock.mode(), Mode::Invalid);
    assert_eq!(lock.to_wire(), None);
    let bad = WireValue::Struct(vec![s("idle"), s("a"), s("b"), s("block"), WireValue::U32(1), s("2")]);
    assert_eq!(Inhibitor::decode(&bad), Err(DecodeError::FieldTypeMismatch { index: 5 }));
}

#[test]
fn inhibitor_encoding() {
    let what = InhibitTypes::new(vec![InhibitType::Shutdown, InhibitType::Sleep]);
    let lock = Inhibitor::new(what, "app".to_string(), "why".to_string(), Mode::Block, 0, 1);
    let w = lock.to_wire().unwrap();
    match &w {
        WireValue::Struct(fs) => assert_eq!(fs[0], s("shutdown:sleep")),
        _ => panic!("not a structure"),
    }
    assert_eq!(Inhibitor::decode(&w), Ok(lock));
}

#[test]
fn device_record() {
    let d = Device::new(7, true);
    assert_eq!(d.file_descriptor(), 7);
    assert!(d.inactive());
}
