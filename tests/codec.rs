use huelib::codec::{
    sentinel_date_time_field, sentinel_text_field, sentinel_time_field, DateTime, DecodeErrorKind,
    Time, WireToken,
};
use huelib::config::{BackupError, BackupStatus, ServiceStatus, SoftwareUpdateState};
use huelib::json::{text_eq, Json};
use huelib::{ActionRequestType, Alert, ColorMode, Effect, Modifier};

fn obj(entries: Vec<(&str, Json)>) -> Json {
    Json::Object(entries.into_iter().map(|(k, v)| (k.to_string(), v)).collect())
}

#[test]
fn tokens_round_trip() {
    for a in [Alert::Select, Alert::LSelect, Alert::Disabled] {
        assert_eq!(Alert::from_token(&a.token()), Some(a));
    }
    for e in [Effect::Colorloop, Effect::Disabled] {
        assert_eq!(Effect::from_token(&e.token()), Some(e));
    }
    for t in ["ct", "hs", "xy"] {
        assert_eq!(ColorMode::from_token(t).unwrap().token(), t);
    }
    for t in ["PUT", "POST", "DELETE"] {
        assert_eq!(ActionRequestType::from_token(t).unwrap().token(), t);
    }
    for t in ["idle", "startmigration", "fileready_disabled", "prepare_restore", "restoring"] {
        assert_eq!(BackupStatus::from_token(t).unwrap().token(), t);
    }
    for t in ["unkown", "noupdates", "transferring", "anyreadytoinstall", "allreadytoinstall", "installing"] {
        assert_eq!(SoftwareUpdateState::from_token(t).unwrap().token(), t);
    }
    assert_eq!(ServiceStatus::from_token("connected"), Some(ServiceStatus::Connected));
}

#[test]
fn unknown_tokens_fail() {
    assert_eq!(Alert::from_token("SELECT"), None);
    assert_eq!(Effect::from_token(""), None);
    assert_eq!(ColorMode::from_token("rgb"), None);
    assert_eq!(ActionRequestType::from_token("put"), None);
    assert_eq!(ServiceStatus::from_token("offline"), None);
}

#[test]
fn backup_error_codes() {
    assert_eq!(BackupError::from_code(0), Some(BackupError::NoError));
    assert_eq!(BackupError::from_code(2), Some(BackupError::ImportFailed));
    assert_eq!(BackupError::from_code(3), None);
    assert_eq!(BackupError::ExportFailed.code(), 1);
}

#[test]
fn sentinel_means_absent() {
    let j = obj(vec![
        ("tz", Json::Text("none".to_string())),
        ("at", Json::Text("none".to_string())),
        ("when", Json::Text("none".to_string())),
    ]);
    assert_eq!(sentinel_text_field(&j, "tz").unwrap(), None);
    assert_eq!(sentinel_date_time_field(&j, "at").unwrap(), None);
    assert_eq!(sentinel_time_field(&j, "when").unwrap(), None);
}

#[test]
fn sentinel_other_text_is_present_or_fails() {
    let j = obj(vec![
        ("tz", Json::Text("Europe/Berlin".to_string())),
        ("at", Json::Text("None".to_string())),
        ("ok", Json::Text("2021-07-08T09:10:11".to_string())),
        ("when", Json::Text("T03:00:00".to_string())),
        ("bad", Json::Text("03:00".to_string())),
    ]);
    assert_eq!(sentinel_text_field(&j, "tz").unwrap(), Some("Europe/Berlin".to_string()));
    let e = sentinel_date_time_field(&j, "at").unwrap_err();
    assert_eq!(e.kind, DecodeErrorKind::InvalidValue);
    assert_eq!(
        sentinel_date_time_field(&j, "ok").unwrap(),
        Some(DateTime { year: 2021, month: 7, day: 8, hour: 9, minute: 10, second: 11 })
    );
    assert_eq!(sentinel_time_field(&j, "when").unwrap(), Some(Time { hour: 3, minute: 0, second: 0 }));
    assert!(sentinel_time_field(&j, "bad").is_err());
    assert_eq!(sentinel_text_field(&j, "missing").unwrap_err().kind, DecodeErrorKind::MissingField);
}

#[test]
fn date_time_parse() {
    assert_eq!(
        DateTime::parse("1999-12-31T23:59:58"),
        Some(DateTime { year: 1999, month: 12, day: 31, hour: 23, minute: 59, second: 58 })
    );
    assert_eq!(DateTime::parse("1999-12-31 23:59:58"), None);
    assert_eq!(DateTime::parse("1999-13-01T00:00:00"), None);
    assert_eq!(Time::parse("T12:34:56"), Some(Time { hour: 12, minute: 34, second: 56 }));
}

#[test]
fn text_equality() {
    assert!(text_eq("lastscan", "lastscan"));
    assert!(!text_eq("lastscan", "lastScan"));
    assert!(!text_eq("a", "ab"));
}

#[test]
fn member_lookup_takes_first() {
    let j = obj(vec![("a", Json::Int(1)), ("a", Json::Int(2))]);
    assert_eq!(j.get("a"), Some(&Json::Int(1)));
    assert_eq!(j.get("b"), None);
    assert_eq!(Json::Null.get("a"), None);
}

#[test]
fn action_decodes_method_and_body() {
    let j = obj(vec![
        ("address", Json::Text("/groups/0/action".to_string())),
        ("method", Json::Text("PUT".to_string())),
        ("body", obj(vec![("on", Json::Bool(true))])),
    ]);
    let a = huelib::Action::decode(j).unwrap();
    assert_eq!(a.address, "/groups/0/action");
    assert_eq!(a.request_type, ActionRequestType::Put);
    assert_eq!(a.body, vec![("on".to_string(), Json::Bool(true))]);
}

#[test]
fn action_without_body_fails() {
    let j = obj(vec![
        ("address", Json::Text("/groups/0/action".to_string())),
        ("method", Json::Text("PATCH".to_string())),
        ("body", obj(vec![])),
    ]);
    assert_eq!(huelib::Action::decode(j).unwrap_err().field, "method");
    let j = obj(vec![
        ("address", Json::Text("/lights/1/state".to_string())),
        ("method", Json::Text("POST".to_string())),
    ]);
    let e = huelib::Action::decode(j).unwrap_err();
    assert_eq!(e.kind, DecodeErrorKind::MissingField);
    assert_eq!(e.field, "body");
}

#[test]
fn default_modifiers_are_empty() {
    assert!(huelib::light::StateModifier::default().is_empty());
    assert_eq!(huelib::light::StateModifier::default(), huelib::light::StateModifier::new());
    assert!(huelib::config::Modifier::default().is_empty());
    assert!(huelib::sensor::ConfigModifier::default().is_empty());
}
