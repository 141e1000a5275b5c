use logind_zbus::manager::{InhibitType, IsSupported, Mode, ShutdownType};
use logind_zbus::session::{SessionClass, SessionState, SessionType};
use logind_zbus::token::{decode_token, encode_token, from_token, WireToken};
use logind_zbus::user::UserState;
use logind_zbus::wire::{DecodeError, WireValue};

fn check_table<T: WireToken + PartialEq + std::fmt::Debug>(table: &[(&str, T)]) {
    for (text, variant) in table {
        assert_eq!(from_token::<T>(text), *variant);
        assert_eq!(variant.token(), Some(*text));
        let wire = encode_token(variant).unwrap();
        assert_eq!(wire, WireValue::Str(text.to_string()));
        assert_eq!(decode_token::<T>(&wire), Ok(*variant));
    }
}

#[test]
fn session_type_tokens() {
    check_table(&[
        ("x11", SessionType::X11),
        ("wayland", SessionType::Wayland),
        ("mir", SessionType::MIR),
        ("tty", SessionType::TTY),
        ("unspecified", SessionType::Unspecified),
    ]);
}

#[test]
fn session_class_tokens() {
    check_table(&[
        ("user", SessionClass::User),
        ("greeter", SessionClass::Greeter),
        ("lock-screen", SessionClass::LockScreen),
    ]);
    assert_eq!(from_token::<SessionClass>("lock-screen"), SessionClass::LockScreen);
}

#[test]
fn session_state_tokens() {
    check_table(&[
        ("online", SessionState::Online),
        ("active", SessionState::Active),
        ("closing", SessionState::Closing),
    ]);
    assert_eq!(from_token::<SessionState>("closing"), SessionState::Closing);
}

#[test]
fn user_state_tokens() {
    check_table(&[
        ("online", UserState::Online),
        ("offline", UserState::Offline),
        ("lingering", UserState::Lingering),
        ("active", UserState::Active),
        ("closing", UserState::Closing),
    ]);
}

#[test]
fn is_supported_tokens() {
    check_table(&[
        ("na", IsSupported::NA),
        ("yes", IsSupported::Yes),
        ("no", IsSupported::No),
        ("challenge", IsSupported::Challenge),
    ]);
}

#[test]
fn inhibit_type_tokens() {
    check_table(&[
        ("shutdown", InhibitType::Shutdown),
        ("sleep", InhibitType::Sleep),
        ("idle", InhibitType::Idle),
        ("handle-power-key", InhibitType::HandlePowerKey),
        ("handle-suspend-key", InhibitType::HandleSuspendKey),
        ("handle-hibernate-key", InhibitType::HandleHibernateKey),
        ("handle-lid-switch", InhibitType::HandleLidSwitch),
    ]);
}

#[test]
fn mode_tokens() {
    check_table(&[("block", Mode::Block), ("delay", Mode::Delay)]);
}

#[test]
fn shutdown_type_tokens() {
    check_table(&[
        ("poweroff", ShutdownType::PowerOff),
        ("dry-poweroff", ShutdownType::DryPowerOff),
        ("reboot", ShutdownType::Reboot),
        ("dry-reboot", ShutdownType::DryReboot),
        ("halt", ShutdownType::Halt),
        ("dry-halt", ShutdownType::DryHalt),
    ]);
}

#[test]
fn unknown_token_decodes_to_invalid() {
    assert_eq!(from_token::<SessionType>("bogus"), SessionType::Invalid);
    assert_eq!(from_token::<SessionClass>("bogus"), SessionClass::Invalid);
    assert_eq!(from_token::<SessionState>("bogus"), SessionState::Invalid);
    assert_eq!(from_token::<UserState>("bogus"), UserState::Invalid);
    assert_eq!(from_token::<IsSupported>("bogus"), IsSupported::Invalid);
    assert_eq!(from_token::<InhibitType>("bogus"), InhibitType::Invalid);
    assert_eq!(from_token::<Mode>("bogus"), Mode::Invalid);
    assert_eq!(from_token::<ShutdownType>("bogus"), ShutdownType::Invalid);
    let wire = WireValue::Str("bogus".to_string());
    assert_eq!(decode_token::<UserState>(&wire), Ok(UserState::Invalid));
}

#[test]
fn tokens_match_case_sensitively() {
    assert_eq!(from_token::<SessionType>("X11"), SessionType::Invalid);
    assert_eq!(from_token::<UserState>("Online"), UserState::Invalid);
    assert_eq!(from_token::<IsSupported>(""), IsSupported::Invalid);
}

#[test]
fn tokens_are_trimmed() {
    assert_eq!(from_token::<UserState>("  lingering\n"), UserState::Lingering);
    assert_eq!(from_token::<SessionType>("\twayland "), SessionType::Wayland);
    assert_eq!(from_token::<Mode>("de lay"), Mode::Invalid);
}

#[test]
fn invalid_has_no_token() {
    assert_eq!(UserState::Invalid.token(), None);
    assert_eq!(SessionClass::Invalid.token(), None);
    assert_eq!(encode_token(&Mode::Invalid), None);
    assert_eq!(encode_token(&InhibitType::Invalid), None);
}

#[test]
fn token_from_non_string_value() {
    assert_eq!(decode_token::<SessionState>(&WireValue::U32(1)), Err(DecodeError::TypeMismatch));
    assert_eq!(decode_token::<Mode>(&WireValue::Bool(true)), Err(DecodeError::TypeMismatch));
}
