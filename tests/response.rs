use huelib::json::Json;
use huelib::response::{decode_responses, Response};

fn text(s: &str) -> Json {
    Json::Text(s.to_string())
}

fn obj(entries: Vec<(&str, Json)>) -> Json {
    Json::Object(entries.into_iter().map(|(k, v)| (k.to_string(), v)).collect())
}

#[test]
fn envelope_keeps_order_and_tags() {
    let j = Json::Array(vec![
        obj(vec![("success", obj(vec![("/lights/1/state/bri", Json::Int(200))]))]),
        obj(vec![(
            "error",
            obj(vec![
                ("type", Json::Int(3)),
                ("address", text("/lights/5")),
                ("description", text("not available")),
            ]),
        )]),
    ]);
    let rs = decode_responses(j).unwrap();
    assert_eq!(rs.len(), 2);
    match &rs[0] {
        Response::Success(m) => {
            assert_eq!(m.len(), 1);
            assert_eq!(m[0].0, "/lights/1/state/bri");
            assert_eq!(m[0].1, Json::Int(200));
        },
        _ => panic!("expected success"),
    }
    match &rs[1] {
        Response::Error(e) => {
            assert_eq!(e.kind, 3);
            assert_eq!(e.address, "/lights/5");
            assert_eq!(e.description, "not available");
        },
        _ => panic!("expected error"),
    }
}

#[test]
fn envelope_rejects_unknown_tag() {
    let j = Json::Array(vec![obj(vec![("warning", obj(vec![]))])]);
    assert!(decode_responses(j).is_err());
    assert!(decode_responses(obj(vec![])).is_err());
    assert_eq!(decode_responses(Json::Array(vec![])).unwrap().len(), 0);
}

#[test]
fn error_outcome_needs_all_members() {
    let j = Json::Array(vec![obj(vec![("error", obj(vec![("type", Json::Int(3))]))])]);
    assert!(decode_responses(j).is_err());
}
