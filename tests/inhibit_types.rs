use logind_zbus::manager::{InhibitType, InhibitTypes};

#[test]
fn join_shutdown_sleep() {
    let what = InhibitTypes::new(vec![InhibitType::Shutdown, InhibitType::Sleep]);
    assert_eq!(what.to_wire_text(), Some("shutdown:sleep".to_string()));
}

#[test]
fn split_shutdown_sleep() {
    let what = InhibitTypes::from_wire_text("shutdown:sleep");
    assert_eq!(what.types(), &vec![InhibitType::Shutdown, InhibitType::Sleep]);
}

#[test]
fn split_join_round_trip() {
    let all = vec![
        InhibitType::Shutdown,
        InhibitType::Sleep,
        InhibitType::Idle,
        InhibitType::HandlePowerKey,
        InhibitType::HandleSuspendKey,
        InhibitType::HandleHibernateKey,
        InhibitType::HandleLidSwitch,
    ];
    let text = InhibitTypes::new(all.clone()).to_wire_text().unwrap();
    assert_eq!(
        text,
        "shutdown:sleep:idle:handle-power-key:handle-suspend-key:handle-hibernate-key:handle-lid-switch"
    );
    assert_eq!(InhibitTypes::from_wire_text(&text).types(), &all);
    let one = InhibitTypes::new(vec![InhibitType::Idle]);
    assert_eq!(one.to_wire_text(), Some("idle".to_string()));
}

#[test]
fn empty_list_and_empty_pieces() {
    assert_eq!(InhibitTypes::new(vec![]).to_wire_text(), Some(String::new()));
    assert!(InhibitTypes::from_wire_text("").types().is_empty());
    assert_eq!(InhibitTypes::from_wire_text("::sleep:").types(), &vec![InhibitType::Sleep]);
    assert_eq!(
        InhibitTypes::from_wire_text("idle::shutdown").types(),
        &vec![InhibitType::Idle, InhibitType::Shutdown]
    );
}

#[test]
fn unknown_piece_and_invalid_item() {
    assert_eq!(
        InhibitTypes::from_wire_text("sleep:bogus").types(),
        &vec![InhibitType::Sleep, InhibitType::Invalid]
    );
    assert_eq!(InhibitTypes::from_wire_text(" sleep ").types(), &vec![InhibitType::Sleep]);
    let bad = InhibitTypes::new(vec![InhibitType::Sleep, InhibitType::Invalid]);
    assert_eq!(bad.to_wire_text(), None);
}
