use logind_zbus::path::ObjectPath;
use logind_zbus::reply::{decode_optional_text, decode_texts, optional_text};
use logind_zbus::time::TimeStamp;
use logind_zbus::wire::{DecodeError, WireValue};

#[test]
fn zero_timestamp() {
    let t = TimeStamp::decode(&WireValue::U64(0)).unwrap();
    assert_eq!(t.as_micros(), 0);
    assert_eq!(t.as_secs(), 0);
    assert_eq!(t.subsec_micros(), 0);
}

#[test]
fn largest_timestamp() {
    let t = TimeStamp::decode(&WireValue::U64(u64::MAX)).unwrap();
    assert_eq!(t.as_micros(), u64::MAX);
    assert_eq!(t.as_secs(), 18_446_744_073_709);
    assert_eq!(t.subsec_micros(), 551_615);
    assert_eq!(t.to_wire(), WireValue::U64(u64::MAX));
}

#[test]
fn timestamp_parts() {
    let t = TimeStamp::from_micros(2_500_001);
    assert_eq!(t.as_secs(), 2);
    assert_eq!(t.subsec_micros(), 500_001);
    assert_eq!(TimeStamp::decode(&WireValue::U32(5)), Err(DecodeError::TypeMismatch));
}

#[test]
fn object_path_syntax() {
    assert_eq!(ObjectPath::new("/").unwrap().as_str(), "/");
    assert_eq!(
        ObjectPath::new("/org/freedesktop/login1/session/_31").unwrap().as_str(),
        "/org/freedesktop/login1/session/_31"
    );
    assert!(ObjectPath::new("").is_none());
    assert!(ObjectPath::new("org/freedesktop").is_none());
    assert!(ObjectPath::new("/org/").is_none());
    assert!(ObjectPath::new("/org//login1").is_none());
    assert!(ObjectPath::new("/org/free-desktop").is_none());
    assert!(ObjectPath::new("/org/é").is_none());
}

#[test]
fn empty_text_is_none() {
    assert_eq!(optional_text(String::new()), None);
    assert_eq!(optional_text("host.example".to_string()), Some("host.example".to_string()));
    assert_eq!(decode_optional_text(&WireValue::Str(String::new())), Ok(None));
    assert_eq!(
        decode_optional_text(&WireValue::Str("/dev/tty2".to_string())),
        Ok(Some("/dev/tty2".to_string()))
    );
    assert_eq!(decode_optional_text(&WireValue::U32(2)), Err(DecodeError::TypeMismatch));
}

#[test]
fn text_lists() {
    let w = WireValue::Array(vec![WireValue::Str("root".to_string()), WireValue::Str("alice".to_string())]);
    assert_eq!(decode_texts(&w), Ok(vec!["root".to_string(), "alice".to_string()]));
    assert_eq!(decode_texts(&WireValue::Array(vec![])), Ok(vec![]));
    let mixed = WireValue::Array(vec![WireValue::Str("a".to_string()), WireValue::U32(1), WireValue::Bool(true)]);
    assert_eq!(decode_texts(&mixed), Err(DecodeError::FieldTypeMismatch { index: 1 }));
    assert_eq!(decode_texts(&WireValue::U32(1)), Err(DecodeError::TypeMismatch));
}
