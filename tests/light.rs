use huelib::codec::{DateTime, DecodeErrorKind};
use huelib::json::Json;
use huelib::light::{decode_lights, LastScan, Light, Scan, StateModifier, AttributeModifier};
use huelib::{Alert, ColorMode, CoordinateModifierType, Effect, Modifier, ModifierType};

fn text(s: &str) -> Json {
    Json::Text(s.to_string())
}

fn obj(entries: Vec<(&str, Json)>) -> Json {
    Json::Object(entries.into_iter().map(|(k, v)| (k.to_string(), v)).collect())
}

fn entries(j: &Json) -> Vec<(String, &Json)> {
    match j {
        Json::Object(es) => es.iter().map(|(k, v)| (k.clone(), v)).collect(),
        _ => panic!("not an object"),
    }
}

fn keys(j: &Json) -> Vec<String> {
    entries(j).into_iter().map(|(k, _)| k).collect()
}

fn light_payload(name: &str, bri: i64) -> Json {
    obj(vec![
        ("name", text(name)),
        ("type", text("Extended color light")),
        (
            "state",
            obj(vec![
                ("on", Json::Bool(true)),
                ("bri", Json::Int(bri)),
                ("hue", Json::Int(46920)),
                ("sat", Json::Int(254)),
                ("xy", Json::Array(vec![Json::Decimal(4573), Json::Decimal(4100)])),
                ("ct", Json::Int(366)),
                ("alert", text("none")),
                ("effect", text("colorloop")),
                ("colormode", text("xy")),
                ("reachable", Json::Bool(true)),
            ]),
        ),
        ("modelid", text("LCT015")),
        ("uniqueid", text("00:17:88:01:04:00:00:00-0b")),
        ("productname", text("Hue color lamp")),
        ("manufacturername", Json::Null),
        ("swversion", text("1.46.13")),
        (
            "swupdate",
            obj(vec![("state", text("noupdates")), ("lastinstall", text("2019-03-12T12:23:06"))]),
        ),
        (
            "config",
            obj(vec![
                ("archetype", text("sultanbulb")),
                ("function", text("mixed")),
                ("direction", text("omnidirectional")),
                ("startup", obj(vec![("mode", text("safety")), ("configured", Json::Bool(true))])),
            ]),
        ),
        (
            "capabilities",
            obj(vec![
                ("certified", Json::Bool(true)),
                (
                    "control",
                    obj(vec![
                        ("mindimlevel", Json::Int(1000)),
                        ("maxlumen", Json::Int(806)),
                        (
                            "colorgamut",
                            Json::Array(vec![
                                Json::Array(vec![Json::Decimal(6915), Json::Decimal(3083)]),
                                Json::Array(vec![Json::Decimal(1700), Json::Decimal(7000)]),
                            ]),
                        ),
                        ("colorgamuttype", text("C")),
                        ("ct", obj(vec![("min", Json::Int(153)), ("max", Json::Int(500))])),
                    ]),
                ),
                ("streaming", obj(vec![("renderer", Json::Bool(true)), ("proxy", Json::Bool(false))])),
            ]),
        ),
    ])
}

#[test]
fn decode_light_reads_every_member() {
    let light = Light::decode(&light_payload("Lamp", 200)).unwrap();
    assert_eq!(light.id, "");
    assert_eq!(light.name, "Lamp");
    assert_eq!(light.kind, "Extended color light");
    assert_eq!(light.state.on, Some(true));
    assert_eq!(light.state.brightness, Some(200));
    assert_eq!(light.state.hue, Some(46920));
    assert_eq!(light.state.saturation, Some(254));
    assert_eq!(light.state.color_space_coordinates, Some((4573, 4100)));
    assert_eq!(light.state.color_temperature, Some(366));
    assert_eq!(light.state.alert, Some(Alert::Disabled));
    assert_eq!(light.state.effect, Some(Effect::Colorloop));
    assert_eq!(light.state.color_mode, Some(ColorMode::ColorSpaceCoordinates));
    assert!(light.state.reachable);
    assert_eq!(light.model_id, "LCT015");
    assert_eq!(light.product_id, None);
    assert_eq!(light.product_name, Some("Hue color lamp".to_string()));
    assert_eq!(light.manufacturer_name, None);
    assert_eq!(light.software_version, "1.46.13");
    assert_eq!(
        light.software_update.last_install,
        Some(DateTime { year: 2019, month: 3, day: 12, hour: 12, minute: 23, second: 6 })
    );
    assert_eq!(light.config.arche_type, "sultanbulb");
    assert_eq!(light.config.startup.as_ref().map(|s| s.mode.as_str()), Some("safety"));
    assert_eq!(light.capabilities.control.min_dimlevel, Some(1000));
    assert_eq!(light.capabilities.control.color_gamut, Some(vec![(6915, 3083), (1700, 7000)]));
    assert_eq!(light.capabilities.control.color_temperature.map(|c| (c.min, c.max)), Some((153, 500)));
    assert!(light.capabilities.streaming.renderer);
    assert!(!light.capabilities.streaming.proxy);
}

#[test]
fn decode_light_missing_member_fails() {
    let mut payload = light_payload("Lamp", 200);
    if let Json::Object(es) = &mut payload {
        es.retain(|(k, _)| k != "modelid");
    }
    let e = Light::decode(&payload).unwrap_err();
    assert_eq!(e.kind, DecodeErrorKind::MissingField);
    assert_eq!(e.field, "modelid");
}

#[test]
fn decode_light_out_of_range_brightness_fails() {
    let e = Light::decode(&light_payload("Lamp", 300)).unwrap_err();
    assert_eq!(e.kind, DecodeErrorKind::InvalidValue);
    assert_eq!(e.field, "bri");
}

#[test]
fn decode_light_unknown_alert_fails() {
    let mut payload = light_payload("Lamp", 1);
    if let Json::Object(es) = &mut payload {
        for (k, v) in es.iter_mut() {
            if k == "state" {
                if let Json::Object(st) = v {
                    for (sk, sv) in st.iter_mut() {
                        if sk == "alert" {
                            *sv = text("Select");
                        }
                    }
                }
            }
        }
    }
    let e = Light::decode(&payload).unwrap_err();
    assert_eq!(e.field, "alert");
}

#[test]
fn collection_assigns_keys_as_ids() {
    let payload = obj(vec![("1", light_payload("Kitchen", 10)), ("2", light_payload("Hall", 20))]);
    let lights = decode_lights(&payload).unwrap();
    assert_eq!(lights.len(), 2);
    assert_eq!(lights[0].id, "1");
    assert_eq!(lights[0].name, "Kitchen");
    assert_eq!(lights[0].state.brightness, Some(10));
    assert_eq!(lights[1].id, "2");
    assert_eq!(lights[1].name, "Hall");
    assert_eq!(lights[1].state.brightness, Some(20));
}

#[test]
fn collection_with_one_bad_entry_fails() {
    let payload = obj(vec![("1", light_payload("Kitchen", 10)), ("2", obj(vec![]))]);
    assert!(decode_lights(&payload).is_err());
}

#[test]
fn empty_collection_is_empty() {
    assert_eq!(decode_lights(&obj(vec![])).unwrap().len(), 0);
    assert!(decode_lights(&text("x")).is_err());
}

#[test]
fn scan_result_splits_reserved_key() {
    let payload = obj(vec![("lastscan", text("active")), ("3", obj(vec![("name", text("Hue bulb"))]))]);
    let scan = Scan::decode(&payload).unwrap();
    assert_eq!(scan.last_scan, LastScan::Active);
    assert_eq!(scan.lights.len(), 1);
    assert_eq!(scan.lights[0].id, "3");
    assert_eq!(scan.lights[0].name, "Hue bulb");
}

#[test]
fn scan_result_without_lastscan_fails() {
    let payload = obj(vec![("3", obj(vec![("name", text("Hue bulb"))]))]);
    let e = Scan::decode(&payload).unwrap_err();
    assert_eq!(e.kind, DecodeErrorKind::MissingField);
    assert_eq!(e.field, "lastscan");
}

#[test]
fn scan_result_statuses() {
    let never = Scan::decode(&obj(vec![("lastscan", text("none"))])).unwrap();
    assert_eq!(never.last_scan, LastScan::Never);
    assert!(never.lights.is_empty());
    let dated = Scan::decode(&obj(vec![("lastscan", text("2020-01-02T03:04:05"))])).unwrap();
    assert_eq!(
        dated.last_scan,
        LastScan::DateTime(DateTime { year: 2020, month: 1, day: 2, hour: 3, minute: 4, second: 5 })
    );
    assert!(Scan::decode(&obj(vec![("lastscan", text("yesterday"))])).is_err());
}

#[test]
fn last_scan_from_text() {
    assert_eq!(LastScan::from_text("active"), Some(LastScan::Active));
    assert_eq!(LastScan::from_text("none"), Some(LastScan::Never));
    assert_eq!(LastScan::from_text("Active"), None);
}

#[test]
fn fresh_state_modifier_is_empty() {
    let m = StateModifier::new();
    assert!(m.is_empty());
    assert!(keys(&m.to_json()).is_empty());
    assert!(!m.on(true).is_empty());
}

#[test]
fn brightness_increment_and_decrement() {
    let inc = StateModifier::new().brightness(ModifierType::Increment, 10).to_json();
    assert_eq!(keys(&inc), vec!["bri_inc".to_string()]);
    assert_eq!(entries(&inc)[0].1, &Json::Int(10));
    let dec = StateModifier::new().brightness(ModifierType::Decrement, 10).to_json();
    assert_eq!(keys(&dec), vec!["bri_inc".to_string()]);
    assert_eq!(entries(&dec)[0].1, &Json::Int(-10));
    let over = StateModifier::new().brightness(ModifierType::Override, 10).to_json();
    assert_eq!(keys(&over), vec!["bri".to_string()]);
}

#[test]
fn coordinate_cross_sign() {
    let m = StateModifier::new()
        .color_space_coordinates(CoordinateModifierType::IncrementDecrement, (1000, 2000))
        .to_json();
    assert_eq!(keys(&m), vec!["xy_inc".to_string()]);
    assert_eq!(entries(&m)[0].1, &Json::Array(vec![Json::Decimal(1000), Json::Decimal(-2000)]));
    let d = StateModifier::new()
        .color_space_coordinates(CoordinateModifierType::DecrementIncrement, (1000, 2000))
        .to_json();
    assert_eq!(entries(&d)[0].1, &Json::Array(vec![Json::Decimal(-1000), Json::Decimal(2000)]));
}

#[test]
fn each_setter_writes_its_member() {
    let m = StateModifier::new();
    assert_eq!(keys(&m.on(false).to_json()), vec!["on"]);
    assert_eq!(keys(&m.hue(ModifierType::Decrement, 100).to_json()), vec!["hue_inc"]);
    assert_eq!(keys(&m.saturation(ModifierType::Override, 100).to_json()), vec!["sat"]);
    assert_eq!(keys(&m.color_temperature(ModifierType::Increment, 100).to_json()), vec!["ct_inc"]);
    assert_eq!(keys(&m.alert(Alert::LSelect).to_json()), vec!["alert"]);
    assert_eq!(entries(&m.alert(Alert::LSelect).to_json())[0].1, &text("lselect"));
    assert_eq!(entries(&m.effect(Effect::Disabled).to_json())[0].1, &text("none"));
    assert_eq!(keys(&m.transition_time(4).to_json()), vec!["transitiontime"]);
    assert_eq!(
        keys(&m.color_space_coordinates(CoordinateModifierType::Override, (3000, 4000)).to_json()),
        vec!["xy"]
    );
}

#[test]
fn setters_keep_other_slots() {
    let m = StateModifier::new()
        .brightness(ModifierType::Override, 100)
        .brightness(ModifierType::Increment, 5)
        .on(true);
    assert_eq!(keys(&m.to_json()), vec!["on", "bri", "bri_inc"]);
}

#[test]
fn attribute_modifier_name() {
    let m = AttributeModifier::new();
    assert!(m.is_empty());
    let named = m.name("Desk".to_string()).to_json();
    assert_eq!(keys(&named), vec!["name"]);
    assert_eq!(entries(&named)[0].1, &text("Desk"));
}
