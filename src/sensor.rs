//! Sensors: the sensor resource and the modifiers for a sensor's attributes, state and
//! configuration.
use crate::codec::{
    bool_field, opt_bool, opt_bool_field, opt_string_view, opt_text, opt_text_field, opt_uint,
    opt_uint_field, record_field, req_bool, req_text, sentinel_date_time,
    sentinel_date_time_field, text_field, DateTime, DecodeError,
};
use crate::json::{
    entries_of, field, is_object_of, member, new_entries, put_member, text_wire, Json, WireValue,
};
use crate::Modifier;
use vstd::prelude::*;

verus! {

/// A sensor.
#[derive(Clone, Debug, PartialEq, Eq)]
pub struct Sensor {
    /// Identifier of the sensor.
    pub id: String,
    /// Name of the sensor.
    pub name: String,
    /// Type name of the sensor.
    pub kind: String,
    /// Model identifier of the sensor.
    pub model_id: String,
    /// Unique identifier of the sensor.
    pub unique_id: Option<String>,
    /// Manufacturer name of the sensor.
    pub manufacturer_name: Option<String>,
    /// Software version of the sensor.
    pub software_verion: String,
    /// Current state of the sensor.
    pub state: State,
    /// Configuration of the sensor.
    pub config: Config,
    /// Whether the sensor is deleted automatically when nothing refers to it.
    pub recycle: Option<bool>,
}

/// Whether `x` is what the payload `j` describes, member by member.
pub open spec fn sensor_matches(x: Sensor, j: Json) -> bool {
    &&& req_text(j, "name"@) == Some(x.name@)
    &&& req_text(j, "type"@) == Some(x.kind@)
    &&& req_text(j, "modelid"@) == Some(x.model_id@)
    &&& opt_text(j, "uniqueid"@) == Some(opt_string_view(x.unique_id))
    &&& opt_text(j, "manufacturername"@) == Some(opt_string_view(x.manufacturer_name))
    &&& req_text(j, "swversion"@) == Some(x.software_verion@)
    &&& match field(j, "state"@) { Some(v) => state_matches(x.state, v), None => false }
    &&& match field(j, "config"@) { Some(v) => config_matches(x.config, v), None => false }
    &&& opt_bool(j, "recycle"@) == Some(x.recycle)
}

impl Sensor {
    /// Decodes the payload of a single sensor; it fails when any member is missing or malformed.
    /// The payload holds no identifier: the result's is empty.
    pub fn decode(j: &Json) -> (r: Result<Sensor, DecodeError>)
        ensures
            match r {
                Ok(x) => sensor_matches(x, *j) && x.id@ == Seq::<char>::empty(),
                Err(_) => forall|x: Sensor| !#[trigger] sensor_matches(x, *j),
            },
    {
        let id = String::new();
        let name = text_field(j, "name")?;
        let kind = text_field(j, "type")?;
        let model_id = text_field(j, "modelid")?;
        let unique_id = opt_text_field(j, "uniqueid")?;
        let manufacturer_name = opt_text_field(j, "manufacturername")?;
        let software_verion = text_field(j, "swversion")?;
        let state = State::decode(record_field(j, "state")?)?;
        let config = Config::decode(record_field(j, "config")?)?;
        let recycle = opt_bool_field(j, "recycle")?;
        Ok(Sensor { id, name, kind, model_id, unique_id, manufacturer_name, software_verion, state, config, recycle })
    }
}

/// Current state of a sensor.
#[derive(Clone, Copy, Debug, PartialEq, Eq)]
pub struct State {
    /// Whether the sensor detects presence.
    pub presence: Option<bool>,
    /// Flag of the sensor.
    pub flag: Option<bool>,
    /// When the state was last updated; `"none"` on the wire when never.
    pub last_updated: Option<DateTime>,
}

/// Whether `x` is what the payload `j` describes, member by member.
pub open spec fn state_matches(x: State, j: Json) -> bool {
    &&& opt_bool(j, "presence"@) == Some(x.presence)
    &&& opt_bool(j, "flag"@) == Some(x.flag)
    &&& sentinel_date_time(j, "lastupdated"@) == Some(x.last_updated)
}

impl State {
    /// Decodes the payload of a sensor's state; it fails when any member is missing or malformed.
    pub fn decode(j: &Json) -> (r: Result<State, DecodeError>)
        ensures
            match r {
                Ok(x) => state_matches(x, *j),
                Err(_) => forall|x: State| !#[trigger] state_matches(x, *j),
            },
    {
        let presence = opt_bool_field(j, "presence")?;
        let flag = opt_bool_field(j, "flag")?;
        let last_updated = sentinel_date_time_field(j, "lastupdated")?;
        Ok(State { presence, flag, last_updated })
    }
}

/// Configuration of a sensor.
#[derive(Clone, Copy, Debug, PartialEq, Eq)]
pub struct Config {
    /// Whether the sensor is on.
    pub on: bool,
    /// Whether the bridge can reach the sensor.
    pub reachable: Option<bool>,
    /// Battery level in percent, for battery powered sensors.
    pub battery: Option<u8>,
}

/// Whether `x` is what the payload `j` describes, member by member.
pub open spec fn config_matches(x: Config, j: Json) -> bool {
    &&& req_bool(j, "on"@) == Some(x.on)
    &&& opt_bool(j, "reachable"@) == Some(x.reachable)
    &&& opt_uint(j, "battery"@, 255) == Some(match x.battery { Some(v) => Some(v as int), None => None })
}

impl Config {
    /// Decodes the payload of a sensor's configuration; it fails when any member is missing or malformed.
    pub fn decode(j: &Json) -> (r: Result<Config, DecodeError>)
        ensures
            match r {
                Ok(x) => config_matches(x, *j),
                Err(_) => forall|x: Config| !#[trigger] config_matches(x, *j),
            },
    {
        let on = bool_field(j, "on")?;
        let reachable = opt_bool_field(j, "reachable")?;
        let battery = match opt_uint_field(j, "battery", 255)? {
            Some(v) => Some(v as u8),
            None => None,
        };
        Ok(Config { on, reachable, battery })
    }
}

impl Sensor {
    /// The sensor with its identifier set to `id`.
    pub fn with_id(self, id: String) -> (r: Sensor)
        ensures
            r == (Sensor { id, ..self }),
    {
        Sensor { id, ..self }
    }
}

/// Whether `xs` are, in order, the sensors that the entries `es` of a collection
/// describe, each with its key as identifier.
pub open spec fn sensors_match(xs: Seq<Sensor>, es: Seq<(String, Json)>) -> bool {
    &&& xs.len() == es.len()
    &&& forall|i: int|
        #![trigger xs[i]]
        0 <= i < xs.len() ==> xs[i].id@ == es[i].0@ && sensor_matches(xs[i], es[i].1)
}

/// Decodes a collection of sensors: an object that maps each identifier to a payload.
/// They come in the order of the payload, each with its key as identifier; one malformed
/// entry fails the whole collection.
pub fn decode_sensors(j: &Json) -> (r: Result<Vec<Sensor>, DecodeError>)
    ensures
        match r {
            Ok(xs) => j is Object && sensors_match(xs@, entries_of(*j)),
            Err(_) => !(j is Object) || forall|xs: Seq<Sensor>| !#[trigger] sensors_match(xs, entries_of(*j)),
        },
{
    match j {
        Json::Object(es) => {
            let mut xs: Vec<Sensor> = Vec::new();
            let mut i: usize = 0;
            while i < es.len()
                invariant
                    *j == Json::Object(*es),
                    i <= es@.len(),
                    sensors_match(xs@, es@.take(i as int)),
                decreases es@.len() - i,
            {
                let x = match Sensor::decode(&es[i].1) {
                    Ok(x) => x,
                    Err(e) => {
                        assert forall|xs: Seq<Sensor>| !#[trigger] sensors_match(xs, entries_of(*j)) by {
                            if sensors_match(xs, entries_of(*j)) {
                                assert(sensor_matches(xs[i as int], es@[i as int].1));
                            }
                        }
                        return Err(e);
                    },
                };
                let ghost before = xs@;
                xs.push(x.with_id(es[i].0.clone()));
                assert forall|k: int| 0 <= k < xs@.len() implies #[trigger] xs@[k].id@ == es@.take(i + 1)[k].0@
                    && sensor_matches(xs@[k], es@.take(i + 1)[k].1) by {
                    if k < before.len() {
                        assert(xs@[k] == before[k]);
                    }
                }
                i += 1;
            }
            assert(es@.take(es@.len() as int) =~= es@);
            Ok(xs)
        },
        _ => Err(DecodeError::invalid("")),
    }
}

/// Modifier for the attributes of a sensor.
#[derive(Clone, Debug, PartialEq, Eq)]
pub struct AttributeModifier {
    /// Wire member `name`.
    pub name: Option<String>,
}

impl AttributeModifier {
    /// The members that the request body holds, in order: one for each slot that is set.
    pub open spec fn wire(self) -> Seq<(Seq<char>, WireValue)> {
        member("name"@, text_wire(self.name))
    }

    /// The request body: an object with a member for each slot that is set, and no other.
    pub fn to_json(&self) -> (r: Json)
        ensures
            is_object_of(r, self.wire()),
    {
        let mut es = new_entries();
        let ghost mut w: Seq<(Seq<char>, WireValue)> = Seq::empty();
        put_member(&mut es, "name", match &self.name { Some(s) => Some(Json::Text(s.clone())), None => None }, Ghost(w), Ghost(text_wire(self.name)));
        proof {
            w = member("name"@, text_wire(self.name));
            assert(Seq::<(Seq<char>, WireValue)>::empty() + w =~= w);
        }
        Json::Object(es)
    }
}

impl Modifier for AttributeModifier {
    open spec fn spec_is_empty(&self) -> bool {
        self.name is None
    }

    fn new() -> (r: Self) {
        AttributeModifier { name: None }
    }

    fn is_empty(&self) -> (r: bool) {
        self.name.is_none()
    }
}

impl Default for AttributeModifier {
    /// A modifier that changes nothing.
    fn default() -> (r: Self)
        ensures
            Modifier::spec_is_empty(&r),
    {
        <AttributeModifier as Modifier>::new()
    }
}

impl AttributeModifier {
    /// Changes the name of the sensor.
    pub fn name(self, value: String) -> (r: Self)
        ensures
            r == (AttributeModifier { name: Some(value) }),
    {
        AttributeModifier { name: Some(value) }
    }
}

/// Modifier for the state of a sensor.
#[derive(Clone, Debug, PartialEq, Eq)]
pub struct StateModifier {
    /// Wire member `presence`.
    pub presence: Option<bool>,
}

impl StateModifier {
    /// The members that the request body holds, in order: one for each slot that is set.
    pub open spec fn wire(self) -> Seq<(Seq<char>, WireValue)> {
        member("presence"@, match self.presence { Some(b) => Some(WireValue::Bool(b)), None => None })
    }

    /// The request body: an object with a member for each slot that is set, and no other.
    pub fn to_json(&self) -> (r: Json)
        ensures
            is_object_of(r, self.wire()),
    {
        let mut es = new_entries();
        let ghost mut w: Seq<(Seq<char>, WireValue)> = Seq::empty();
        put_member(&mut es, "presence", match self.presence { Some(b) => Some(Json::Bool(b)), None => None }, Ghost(w), Ghost(match self.presence { Some(b) => Some(WireValue::Bool(b)), None => None }));
        proof {
            w = member("presence"@, match self.presence { Some(b) => Some(WireValue::Bool(b)), None => None });
            assert(Seq::<(Seq<char>, WireValue)>::empty() + w =~= w);
        }
        Json::Object(es)
    }
}

impl Modifier for StateModifier {
    open spec fn spec_is_empty(&self) -> bool {
        self.presence is None
    }

    fn new() -> (r: Self) {
        StateModifier { presence: None }
    }

    fn is_empty(&self) -> (r: bool) {
        self.presence.is_none()
    }
}

impl Default for StateModifier {
    /// A modifier that changes nothing.
    fn default() -> (r: Self)
        ensures
            Modifier::spec_is_empty(&r),
    {
        <StateModifier as Modifier>::new()
    }
}

impl StateModifier {
    /// Sets the presence of the sensor.
    pub fn presence(self, value: bool) -> (r: Self)
        ensures
            r == (StateModifier { presence: Some(value) }),
    {
        StateModifier { presence: Some(value) }
    }
}

/// Modifier for the configuration of a sensor.
#[derive(Clone, Debug, PartialEq, Eq)]
pub struct ConfigModifier {
    /// Wire member `on`.
    pub on: Option<bool>,
}

impl ConfigModifier {
    /// The members that the request body holds, in order: one for each slot that is set.
    pub open spec fn wire(self) -> Seq<(Seq<char>, WireValue)> {
        member("on"@, match self.on { Some(b) => Some(WireValue::Bool(b)), None => None })
    }

    /// The request body: an object with a member for each slot that is set, and no other.
    pub fn to_json(&self) -> (r: Json)
        ensures
            is_object_of(r, self.wire()),
    {
        let mut es = new_entries();
        let ghost mut w: Seq<(Seq<char>, WireValue)> = Seq::empty();
        put_member(&mut es, "on", match self.on { Some(b) => Some(Json::Bool(b)), None => None }, Ghost(w), Ghost(match self.on { Some(b) => Some(WireValue::Bool(b)), None => None }));
        proof {
            w = member("on"@, match self.on { Some(b) => Some(WireValue::Bool(b)), None => None });
            assert(Seq::<(Seq<char>, WireValue)>::empty() + w =~= w);
        }
        Json::Object(es)
    }
}

impl Modifier for ConfigModifier {
    open spec fn spec_is_empty(&self) -> bool {
        self.on is None
    }

    fn new() -> (r: Self) {
        ConfigModifier { on: None }
    }

    fn is_empty(&self) -> (r: bool) {
        self.on.is_none()
    }
}

impl Default for ConfigModifier {
    /// A modifier that changes nothing.
    fn default() -> (r: Self)
        ensures
            Modifier::spec_is_empty(&r),
    {
        <ConfigModifier as Modifier>::new()
    }
}

impl ConfigModifier {
    /// Sets whether the sensor is on.
    pub fn on(self, value: bool) -> (r: Self)
        ensures
            r == (ConfigModifier { on: Some(value) }),
    {
        ConfigModifier { on: Some(value) }
    }
}

/// A sensor modifier that changes nothing has an empty request body; after one change the
/// body holds exactly the member that the change targets.
pub proof fn lemma_sensor_modifier_members(
    a: AttributeModifier,
    s: StateModifier,
    c: ConfigModifier,
    name: String,
    b: bool,
)
    requires
        a.spec_is_empty(),
        s.spec_is_empty(),
        c.spec_is_empty(),
    ensures
        a.wire() == Seq::<(Seq<char>, WireValue)>::empty(),
        s.wire() == Seq::<(Seq<char>, WireValue)>::empty(),
        c.wire() == Seq::<(Seq<char>, WireValue)>::empty(),
        (AttributeModifier { name: Some(name) }).wire() == seq![("name"@, WireValue::Text(name@))],
        (StateModifier { presence: Some(b) }).wire() == seq![("presence"@, WireValue::Bool(b))],
        (ConfigModifier { on: Some(b) }).wire() == seq![("on"@, WireValue::Bool(b))],
{
    assert(a.wire() =~= Seq::<(Seq<char>, WireValue)>::empty());
    assert(s.wire() =~= Seq::<(Seq<char>, WireValue)>::empty());
    assert(c.wire() =~= Seq::<(Seq<char>, WireValue)>::empty());
    assert((AttributeModifier { name: Some(name) }).wire() =~= seq![("name"@, WireValue::Text(name@))]);
    assert((StateModifier { presence: Some(b) }).wire() =~= seq![("presence"@, WireValue::Bool(b))]);
    assert((ConfigModifier { on: Some(b) }).wire() =~= seq![("on"@, WireValue::Bool(b))]);
}

} // verus!
