use huelib::codec::{DateTime, Time};
use huelib::config::{BackupError, BackupStatus, Config, Modifier, ServiceStatus, SoftwareUpdateState};
use huelib::json::Json;
use huelib::Modifier as _;

fn text(s: &str) -> Json {
    Json::Text(s.to_string())
}

fn obj(entries: Vec<(&str, Json)>) -> Json {
    Json::Object(entries.into_iter().map(|(k, v)| (k.to_string(), v)).collect())
}

fn keys(j: &Json) -> Vec<String> {
    match j {
        Json::Object(es) => es.iter().map(|(k, _)| k.clone()).collect(),
        _ => panic!("not an object"),
    }
}

fn value<'a>(j: &'a Json, key: &str) -> &'a Json {
    j.get(key).unwrap()
}

fn user(name: &str) -> Json {
    obj(vec![
        ("name", text(name)),
        ("last use date", text("2020-05-06T07:08:09")),
        ("create date", text("2019-01-01T00:00:00")),
    ])
}

fn config_payload(timezone: &str, localtime: &str) -> Json {
    obj(vec![
        ("name", text("Philips hue")),
        (
            "swupdate2",
            obj(vec![
                ("state", text("noupdates")),
                ("checkforupdate", Json::Bool(false)),
                ("autoinstall", obj(vec![("on", Json::Bool(true)), ("updatetime", text("T14:00:00"))])),
                ("lastchange", text("2020-01-01T10:00:00")),
                ("lastinstall", Json::Null),
            ]),
        ),
        ("swversion", text("1935144040")),
        ("apiversion", text("1.35.0")),
        ("linkbutton", Json::Bool(false)),
        ("ipaddress", text("192.168.1.2")),
        ("mac", text("00:17:88:00:00:00")),
        ("netmask", text("255.255.255.0")),
        ("gateway", text("192.168.1.1")),
        ("dhcp", Json::Bool(true)),
        ("portalservices", Json::Bool(true)),
        ("portalconnection", text("connected")),
        (
            "portalstate",
            obj(vec![
                ("signedon", Json::Bool(true)),
                ("incoming", Json::Bool(false)),
                ("outgoing", Json::Bool(true)),
                ("communication", text("disconnected")),
            ]),
        ),
        (
            "internetservices",
            obj(vec![
                ("internet", text("connected")),
                ("remoteaccess", text("connected")),
                ("time", text("connected")),
                ("swupdate", text("disconnected")),
            ]),
        ),
        ("UTC", text("2020-06-07T08:09:10")),
        ("localtime", text(localtime)),
        ("timezone", text(timezone)),
        ("zigbeechannel", Json::Int(15)),
        ("modelid", text("BSB002")),
        ("bridgeid", text("001788FFFE000000")),
        ("factorynew", Json::Bool(false)),
        ("replacesbridgeid", Json::Null),
        ("datastoreversion", text("90")),
        ("starterkitid", text("")),
        ("backup", obj(vec![("status", text("idle")), ("errorcode", Json::Int(0))])),
        ("whitelist", obj(vec![("abc", user("app one")), ("def", user("app two"))])),
    ])
}

#[test]
fn decode_config_reads_every_member() {
    let c = Config::decode(&config_payload("Europe/Amsterdam", "2020-06-07T10:09:10")).unwrap();
    assert_eq!(c.name, "Philips hue");
    assert_eq!(c.software_update.state, SoftwareUpdateState::NoUpdates);
    assert!(!c.software_update.check);
    assert_eq!(c.software_update.auto_install.update_time, Some(Time { hour: 14, minute: 0, second: 0 }));
    assert_eq!(c.software_update.last_install, None);
    assert_eq!(c.ip_address, "192.168.1.2");
    assert_eq!(c.portal_connection, ServiceStatus::Connected);
    assert_eq!(c.portal_state.communication, ServiceStatus::Disconnected);
    assert_eq!(c.internet_services.software_update, ServiceStatus::Disconnected);
    assert_eq!(c.current_time, DateTime { year: 2020, month: 6, day: 7, hour: 8, minute: 9, second: 10 });
    assert_eq!(c.local_time, Some(DateTime { year: 2020, month: 6, day: 7, hour: 10, minute: 9, second: 10 }));
    assert_eq!(c.timezone, Some("Europe/Amsterdam".to_string()));
    assert_eq!(c.zigbee_channel, 15);
    assert_eq!(c.replaces_bridge_id, None);
    assert_eq!(c.backup.status, BackupStatus::Idle);
    assert_eq!(c.backup.error, BackupError::NoError);
    assert_eq!(c.whitelist.len(), 2);
    assert_eq!(c.whitelist[0].id, "abc");
    assert_eq!(c.whitelist[0].name, "app one");
    assert_eq!(c.whitelist[1].id, "def");
    assert_eq!(c.whitelist[1].create_date.year, 2019);
}

#[test]
fn decode_config_sentinels() {
    let c = Config::decode(&config_payload("none", "none")).unwrap();
    assert_eq!(c.timezone, None);
    assert_eq!(c.local_time, None);
}

#[test]
fn decode_config_malformed_local_time_fails() {
    let e = Config::decode(&config_payload("none", "noon")).unwrap_err();
    assert_eq!(e.field, "localtime");
}

#[test]
fn fresh_config_modifier_is_empty() {
    let m = Modifier::new();
    assert!(m.is_empty());
    assert!(keys(&m.to_json()).is_empty());
}

#[test]
fn config_modifier_setters() {
    let m = Modifier::new();
    assert_eq!(keys(&m.clone().name("bridge".to_string()).to_json()), vec!["name"]);
    assert_eq!(keys(&m.clone().ip_address("10.0.0.2".to_string()).to_json()), vec!["ipaddress"]);
    assert_eq!(keys(&m.clone().proxy_port(8080).to_json()), vec!["proxyport"]);
    assert_eq!(value(&m.clone().proxy_port(8080).to_json(), "proxyport"), &Json::Int(8080));
    assert_eq!(keys(&m.clone().zigbee_channel(25).to_json()), vec!["zigbeechannel"]);
    assert_eq!(keys(&m.clone().current_time("2020-01-01T00:00:00".to_string()).to_json()), vec!["UTC"]);
    assert_eq!(value(&m.clone().touchlink().to_json(), "touchlink"), &Json::Bool(true));
    assert_eq!(keys(&m.clone().dhcp(true).linkbutton(false).to_json()), vec!["dhcp", "linkbutton"]);
}

#[test]
fn proxy_address_none_is_sentinel() {
    let m = Modifier::new().proxy_address(None).to_json();
    assert_eq!(value(&m, "proxyaddress"), &text("none"));
    let m = Modifier::new().proxy_address(Some("10.0.0.9".to_string())).to_json();
    assert_eq!(value(&m, "proxyaddress"), &text("10.0.0.9"));
}
