use huelib::json::Json;
use huelib::sensor::{decode_sensors, AttributeModifier, ConfigModifier, Sensor, StateModifier};
use huelib::Modifier;

fn text(s: &str) -> Json {
    Json::Text(s.to_string())
}

fn obj(entries: Vec<(&str, Json)>) -> Json {
    Json::Object(entries.into_iter().map(|(k, v)| (k.to_string(), v)).collect())
}

fn keys(j: &Json) -> Vec<String> {
    match j {
        Json::Object(es) => es.iter().map(|(k, _)| k.clone()).collect(),
        _ => panic!("not an object"),
    }
}

fn sensor_payload(name: &str, last_updated: &str) -> Json {
    obj(vec![
        ("name", text(name)),
        ("type", text("ZLLPresence")),
        ("modelid", text("SML001")),
        ("uniqueid", text("00:17:88:01:02:00:00:00-02-0406")),
        ("swversion", text("6.1.1.27575")),
        (
            "state",
            obj(vec![("presence", Json::Bool(false)), ("lastupdated", text(last_updated))]),
        ),
        (
            "config",
            obj(vec![("on", Json::Bool(true)), ("reachable", Json::Bool(true)), ("battery", Json::Int(87))]),
        ),
    ])
}

#[test]
fn decode_sensor_reads_every_member() {
    let s = Sensor::decode(&sensor_payload("Hall sensor", "2020-02-03T04:05:06")).unwrap();
    assert_eq!(s.id, "");
    assert_eq!(s.name, "Hall sensor");
    assert_eq!(s.kind, "ZLLPresence");
    assert_eq!(s.unique_id, Some("00:17:88:01:02:00:00:00-02-0406".to_string()));
    assert_eq!(s.manufacturer_name, None);
    assert_eq!(s.state.presence, Some(false));
    assert_eq!(s.state.flag, None);
    assert_eq!(s.state.last_updated.map(|d| d.second), Some(6));
    assert!(s.config.on);
    assert_eq!(s.config.battery, Some(87));
    assert_eq!(s.recycle, None);
}

#[test]
fn decode_sensor_never_updated() {
    let s = Sensor::decode(&sensor_payload("Hall sensor", "none")).unwrap();
    assert_eq!(s.state.last_updated, None);
}

#[test]
fn sensor_collection_assigns_ids() {
    let j = obj(vec![("5", sensor_payload("a", "none")), ("9", sensor_payload("b", "none"))]);
    let ss = decode_sensors(&j).unwrap();
    assert_eq!(ss.iter().map(|s| s.id.as_str()).collect::<Vec<_>>(), vec!["5", "9"]);
    assert_eq!(ss[1].name, "b");
}

#[test]
fn sensor_modifiers() {
    assert!(AttributeModifier::new().is_empty());
    assert!(keys(&StateModifier::new().to_json()).is_empty());
    assert_eq!(keys(&AttributeModifier::new().name("x".to_string()).to_json()), vec!["name"]);
    assert_eq!(keys(&StateModifier::new().presence(true).to_json()), vec!["presence"]);
    let c = ConfigModifier::new().on(false);
    assert!(!c.is_empty());
    assert_eq!(c.to_json().get("on"), Some(&Json::Bool(false)));
}
