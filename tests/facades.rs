use logind_zbus::manager::{InhibitType, InhibitTypes, Mode, ShutdownType};
use logind_zbus::path::ObjectPath;
use logind_zbus::proxy::{ManagerProxy, Request, SeatProxy, SessionProxy, UserProxy};
use logind_zbus::seat::SeatPath;
use logind_zbus::session::SessionPath;
use logind_zbus::time::TimeStamp;
use logind_zbus::user::User;
use logind_zbus::wire::{WireRecord, WireValue};

const SERVICE: &str = "org.freedesktop.login1";

fn manager() -> ManagerProxy {
    ManagerProxy::new(SERVICE.to_string(), ObjectPath::new("/org/freedesktop/login1").unwrap())
}

#[test]
fn binding_targets() {
    let m = manager();
    assert_eq!(m.get_proxy().destination(), SERVICE);
    assert_eq!(m.get_proxy().path().as_str(), "/org/freedesktop/login1");
    assert_eq!(m.get_proxy().interface(), "org.freedesktop.login1.Manager");

    let seat_wire = WireValue::Struct(vec![
        WireValue::Str("seat0".to_string()),
        WireValue::Path(ObjectPath::new("/org/freedesktop/login1/seat/seat0").unwrap()),
    ]);
    let seat = SeatPath::decode(&seat_wire).unwrap();
    let sp = SeatProxy::new(SERVICE.to_string(), &seat);
    assert_eq!(sp.get_proxy().path().as_str(), "/org/freedesktop/login1/seat/seat0");
    assert_eq!(sp.get_proxy().interface(), "org.freedesktop.login1.Seat");

    let session_wire = WireValue::Struct(vec![
        WireValue::Str("c1".to_string()),
        WireValue::Path(ObjectPath::new("/org/freedesktop/login1/session/c1").unwrap()),
    ]);
    let session = SessionPath::decode(&session_wire).unwrap();
    let ss = SessionProxy::new(SERVICE.to_string(), &session);
    assert_eq!(ss.get_proxy().path().as_str(), "/org/freedesktop/login1/session/c1");
    assert_eq!(ss.get_proxy().interface(), "org.freedesktop.login1.Session");

    let user_wire = WireValue::Struct(vec![
        WireValue::U32(1000),
        WireValue::Path(ObjectPath::new("/org/freedesktop/login1/user/_1000").unwrap()),
    ]);
    let user = User::decode(&user_wire).unwrap();
    let up = UserProxy::new(SERVICE.to_string(), &user);
    assert_eq!(up.get_proxy().path().as_str(), "/org/freedesktop/login1/user/_1000");
    assert_eq!(up.get_proxy().interface(), "org.freedesktop.login1.User");
}

#[test]
fn inhibit_request() {
    let what = InhibitTypes::new(vec![InhibitType::Shutdown, InhibitType::Sleep]);
    let req = manager().inhibit(&what, "app", "saving work", Mode::Delay).unwrap();
    assert_eq!(
        req,
        Request::Call {
            member: "Inhibit".to_string(),
            args: vec![
                WireValue::Str("shutdown:sleep".to_string()),
                WireValue::Str("app".to_string()),
                WireValue::Str("saving work".to_string()),
                WireValue::Str("delay".to_string()),
            ],
        }
    );
    assert!(manager().inhibit(&what, "app", "why", Mode::Invalid).is_none());
    let bad = InhibitTypes::new(vec![InhibitType::Invalid]);
    assert!(manager().inhibit(&bad, "app", "why", Mode::Block).is_none());
}

#[test]
fn schedule_shutdown_request() {
    let req = manager().schedule_shutdown(ShutdownType::DryReboot, TimeStamp::from_micros(5)).unwrap();
    assert_eq!(
        req,
        Request::Call {
            member: "ScheduleShutdown".to_string(),
            args: vec![WireValue::Str("dry-reboot".to_string()), WireValue::U64(5)],
        }
    );
    assert!(manager().schedule_shutdown(ShutdownType::Invalid, TimeStamp::from_micros(5)).is_none());
}
