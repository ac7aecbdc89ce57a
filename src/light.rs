//! Lights: the light resource, the result of a scan for new lights, and the modifiers for a
//! light's attributes and state.
use crate::codec::{
    bool_field, date_time_of, is_absent, opt_bool, opt_bool_field, opt_date_time,
    opt_date_time_field, opt_gamut, opt_gamut_field, opt_pair, opt_pair_field, opt_string_view,
    opt_text, opt_text_field, opt_token, opt_token_field, opt_uint, opt_uint_field, record_field,
    req_bool, req_text, req_token, req_uint, sentinel, text_field, text_of, token_field,
    uint_field, DateTime, DecodeError, DecodeErrorKind, WireToken,
};
use crate::json::{
    decimal_pair, entries_of, field, is_object_of, member, new_entries, put_member, text_eq, text_wire, Json,
    WireValue,
};
use crate::{
    coordinate_delta, delta, Alert, ColorMode, CoordinateModifierType, Effect, Modifier,
    ModifierType,
};
use vstd::prelude::*;

verus! {

/// State of the software updates of a light.
#[derive(Clone, Copy, Debug, PartialEq, Eq, Structural)]
pub enum SoftwareUpdateState {
    /// No updates are available.
    NoUpdates,
    /// The device cannot be updated.
    NotUpdatable,
}

impl SoftwareUpdateState {
    /// The wire token of each variant.
    pub open spec fn spec_token(self) -> Seq<char> {
        match self {
            SoftwareUpdateState::NoUpdates => "noupdates"@,
            SoftwareUpdateState::NotUpdatable => "notupdatable"@,
        }
    }

    /// Encodes the variant as its wire token.
    pub fn token(&self) -> (r: String)
        ensures
            r@ == self.spec_token(),
    {
        match self {
            SoftwareUpdateState::NoUpdates => "noupdates".to_owned(),
            SoftwareUpdateState::NotUpdatable => "notupdatable".to_owned(),
        }
    }
}

impl WireToken for SoftwareUpdateState {
    /// The variant that a wire token stands for; nothing for an unknown token.
    open spec fn spec_from_token(s: Seq<char>) -> Option<SoftwareUpdateState> {
        if s == "noupdates"@ {
            Some(SoftwareUpdateState::NoUpdates)
        } else if s == "notupdatable"@ {
            Some(SoftwareUpdateState::NotUpdatable)
        } else {
            None
        }
    }

    /// Decodes a wire token; the match is exact and case-sensitive.
    fn from_token(s: &str) -> (r: Option<SoftwareUpdateState>) {
        if text_eq(s, "noupdates") {
            Some(SoftwareUpdateState::NoUpdates)
        } else if text_eq(s, "notupdatable") {
            Some(SoftwareUpdateState::NotUpdatable)
        } else {
            None
        }
    }
}

/// Each variant decodes back from its own token, and a token that decodes encodes back to
/// itself; a token outside the documented set does not decode.
pub proof fn lemma_software_update_state_tokens(v: SoftwareUpdateState, s: Seq<char>)
    ensures
        SoftwareUpdateState::spec_from_token(v.spec_token()) == Some(v),
        SoftwareUpdateState::spec_from_token(s) matches Some(w) ==> w.spec_token() == s,
        s != "noupdates"@ && s != "notupdatable"@ ==> SoftwareUpdateState::spec_from_token(s) is None,
{
    reveal_strlit("noupdates");
    reveal_strlit("notupdatable");
    assert("noupdates"@.len() != "notupdatable"@.len());
}

/// A light.
#[derive(Clone, Debug, PartialEq, Eq)]
pub struct Light {
    /// Identifier of the light.
    pub id: String,
    /// Name of the light.
    pub name: String,
    /// Type of the light.
    pub kind: String,
    /// Current state of the light.
    pub state: State,
    /// Hardware model of the light.
    pub model_id: String,
    /// Unique identifier of the light.
    pub unique_id: String,
    /// Product identifier of the light.
    pub product_id: Option<String>,
    /// Product name of the light.
    pub product_name: Option<String>,
    /// Manufacturer name of the light.
    pub manufacturer_name: Option<String>,
    /// Software version running on the light.
    pub software_version: String,
    /// Software updates of the light.
    pub software_update: SoftwareUpdate,
    /// Configuration of the light.
    pub config: Config,
    /// Capabilities of the light.
    pub capabilities: Capabilities,
}

/// Whether `x` is what the payload `j` describes, member by member.
pub open spec fn light_matches(x: Light, j: Json) -> bool {
    &&& req_text(j, "name"@) == Some(x.name@)
    &&& req_text(j, "type"@) == Some(x.kind@)
    &&& match field(j, "state"@) { Some(v) => state_matches(x.state, v), None => false }
    &&& req_text(j, "modelid"@) == Some(x.model_id@)
    &&& req_text(j, "uniqueid"@) == Some(x.unique_id@)
    &&& opt_text(j, "productid"@) == Some(opt_string_view(x.product_id))
    &&& opt_text(j, "productname"@) == Some(opt_string_view(x.product_name))
    &&& opt_text(j, "manufacturername"@) == Some(opt_string_view(x.manufacturer_name))
    &&& req_text(j, "swversion"@) == Some(x.software_version@)
    &&& match field(j, "swupdate"@) { Some(v) => software_update_matches(x.software_update, v), None => false }
    &&& match field(j, "config"@) { Some(v) => config_matches(x.config, v), None => false }
    &&& match field(j, "capabilities"@) { Some(v) => capabilities_matches(x.capabilities, v), None => false }
}

impl Light {
    /// Decodes the payload of a single light; it fails when any member is missing or malformed.
    /// The payload holds no identifier: the result's is empty.
    pub fn decode(j: &Json) -> (r: Result<Light, DecodeError>)
        ensures
            match r {
                Ok(x) => light_matches(x, *j) && x.id@ == Seq::<char>::empty(),
                Err(_) => forall|x: Light| !#[trigger] light_matches(x, *j),
            },
    {
        let id = String::new();
        let name = text_field(j, "name")?;
        let kind = text_field(j, "type")?;
        let state = State::decode(record_field(j, "state")?)?;
        let model_id = text_field(j, "modelid")?;
        let unique_id = text_field(j, "uniqueid")?;
        let product_id = opt_text_field(j, "productid")?;
        let product_name = opt_text_field(j, "productname")?;
        let manufacturer_name = opt_text_field(j, "manufacturername")?;
        let software_version = text_field(j, "swversion")?;
        let software_update = SoftwareUpdate::decode(record_field(j, "swupdate")?)?;
        let config = Config::decode(record_field(j, "config")?)?;
        let capabilities = Capabilities::decode(record_field(j, "capabilities")?)?;
        Ok(Light { id, name, kind, state, model_id, unique_id, product_id, product_name, manufacturer_name, software_version, software_update, config, capabilities })
    }
}

/// State of a light.
///
/// Coordinates in the color space are given in ten-thousandths.
#[derive(Clone, Copy, Debug, PartialEq, Eq)]
pub struct State {
    /// Whether the light is on.
    pub on: Option<bool>,
    /// Brightness of the light, from 1 to 254.
    pub brightness: Option<u8>,
    /// Hue of the light: 0 and 65535 are red, 25500 is green, 46920 is blue.
    pub hue: Option<u16>,
    /// Saturation of the light, from 0 (white) to 254 (most colored).
    pub saturation: Option<u8>,
    /// Coordinates of the color in the CIE color space.
    pub color_space_coordinates: Option<(u16, u16)>,
    /// Mired color temperature of the light.
    pub color_temperature: Option<u16>,
    /// Alert effect of the light.
    pub alert: Option<Alert>,
    /// Dynamic effect of the light.
    pub effect: Option<Effect>,
    /// Color mode of the light.
    pub color_mode: Option<ColorMode>,
    /// Whether the bridge can reach the light.
    pub reachable: bool,
}

/// Whether `x` is what the payload `j` describes, member by member.
pub open spec fn state_matches(x: State, j: Json) -> bool {
    &&& opt_bool(j, "on"@) == Some(x.on)
    &&& opt_uint(j, "bri"@, 255) == Some(match x.brightness { Some(v) => Some(v as int), None => None })
    &&& opt_uint(j, "hue"@, 65535) == Some(match x.hue { Some(v) => Some(v as int), None => None })
    &&& opt_uint(j, "sat"@, 255) == Some(match x.saturation { Some(v) => Some(v as int), None => None })
    &&& opt_pair(j, "xy"@) == Some(x.color_space_coordinates)
    &&& opt_uint(j, "ct"@, 65535) == Some(match x.color_temperature { Some(v) => Some(v as int), None => None })
    &&& opt_token::<Alert>(j, "alert"@) == Some(x.alert)
    &&& opt_token::<Effect>(j, "effect"@) == Some(x.effect)
    &&& opt_token::<ColorMode>(j, "colormode"@) == Some(x.color_mode)
    &&& req_bool(j, "reachable"@) == Some(x.reachable)
}

impl State {
    /// Decodes the payload of a light's state; it fails when any member is missing or malformed.
    pub fn decode(j: &Json) -> (r: Result<State, DecodeError>)
        ensures
            match r {
                Ok(x) => state_matches(x, *j),
                Err(_) => forall|x: State| !#[trigger] state_matches(x, *j),
            },
    {
        let on = opt_bool_field(j, "on")?;
        let brightness = match opt_uint_field(j, "bri", 255)? {
            Some(v) => Some(v as u8),
            None => None,
        };
        let hue = match opt_uint_field(j, "hue", 65535)? {
            Some(v) => Some(v as u16),
            None => None,
        };
        let saturation = match opt_uint_field(j, "sat", 255)? {
            Some(v) => Some(v as u8),
            None => None,
        };
        let color_space_coordinates = opt_pair_field(j, "xy")?;
        let color_temperature = match opt_uint_field(j, "ct", 65535)? {
            Some(v) => Some(v as u16),
            None => None,
        };
        let alert = opt_token_field::<Alert>(j, "alert")?;
        let effect = opt_token_field::<Effect>(j, "effect")?;
        let color_mode = opt_token_field::<ColorMode>(j, "colormode")?;
        let reachable = bool_field(j, "reachable")?;
        Ok(State { on, brightness, hue, saturation, color_space_coordinates, color_temperature, alert, effect, color_mode, reachable })
    }
}

/// Software updates of a light.
#[derive(Clone, Copy, Debug, PartialEq, Eq)]
pub struct SoftwareUpdate {
    /// State of the software updates.
    pub state: SoftwareUpdateState,
    /// When the last update was installed.
    pub last_install: Option<DateTime>,
}

/// Whether `x` is what the payload `j` describes, member by member.
pub open spec fn software_update_matches(x: SoftwareUpdate, j: Json) -> bool {
    &&& req_token::<SoftwareUpdateState>(j, "state"@) == Some(x.state)
    &&& opt_date_time(j, "lastinstall"@) == Some(x.last_install)
}

impl SoftwareUpdate {
    /// Decodes the payload of a light's software updates; it fails when any member is missing or malformed.
    pub fn decode(j: &Json) -> (r: Result<SoftwareUpdate, DecodeError>)
        ensures
            match r {
                Ok(x) => software_update_matches(x, *j),
                Err(_) => forall|x: SoftwareUpdate| !#[trigger] software_update_matches(x, *j),
            },
    {
        let state = token_field::<SoftwareUpdateState>(j, "state")?;
        let last_install = opt_date_time_field(j, "lastinstall")?;
        Ok(SoftwareUpdate { state, last_install })
    }
}

/// Configuration of a light.
#[derive(Clone, Debug, PartialEq, Eq)]
pub struct Config {
    /// Archetype of the light.
    pub arche_type: String,
    /// Function of the light.
    pub function: String,
    /// Direction of the light.
    pub direction: String,
    /// Startup configuration of the light.
    pub startup: Option<StartupConfig>,
}

/// Whether `x` is what the payload `j` describes, member by member.
pub open spec fn config_matches(x: Config, j: Json) -> bool {
    &&& req_text(j, "archetype"@) == Some(x.arche_type@)
    &&& req_text(j, "function"@) == Some(x.function@)
    &&& req_text(j, "direction"@) == Some(x.direction@)
    &&& match x.startup { Some(r) => !is_absent(field(j, "startup"@)) && startup_config_matches(r, field(j, "startup"@)->0), None => is_absent(field(j, "startup"@)) }
}

impl Config {
    /// Decodes the payload of a light's configuration; it fails when any member is missing or malformed.
    pub fn decode(j: &Json) -> (r: Result<Config, DecodeError>)
        ensures
            match r {
                Ok(x) => config_matches(x, *j),
                Err(_) => forall|x: Config| !#[trigger] config_matches(x, *j),
            },
    {
        let arche_type = text_field(j, "archetype")?;
        let function = text_field(j, "function")?;
        let direction = text_field(j, "direction")?;
        let startup = match j.get("startup") {
            None => None,
            Some(Json::Null) => None,
            Some(v) => Some(StartupConfig::decode(v)?),
        };
        Ok(Config { arche_type, function, direction, startup })
    }
}

/// Startup configuration of a light.
#[derive(Clone, Debug, PartialEq, Eq)]
pub struct StartupConfig {
    /// Mode of the startup.
    pub mode: String,
    /// Whether startup is configured for the light.
    pub configured: bool,
}

/// Whether `x` is what the payload `j` describes, member by member.
pub open spec fn startup_config_matches(x: StartupConfig, j: Json) -> bool {
    &&& req_text(j, "mode"@) == Some(x.mode@)
    &&& req_bool(j, "configured"@) == Some(x.configured)
}

impl StartupConfig {
    /// Decodes the payload of a light's startup configuration; it fails when any member is missing or malformed.
    pub fn decode(j: &Json) -> (r: Result<StartupConfig, DecodeError>)
        ensures
            match r {
                Ok(x) => startup_config_matches(x, *j),
                Err(_) => forall|x: StartupConfig| !#[trigger] startup_config_matches(x, *j),
            },
    {
        let mode = text_field(j, "mode")?;
        let configured = bool_field(j, "configured")?;
        Ok(StartupConfig { mode, configured })
    }
}

/// Capabilities of a light.
#[derive(Clone, Debug, PartialEq, Eq)]
pub struct Capabilities {
    /// Whether the light is certified.
    pub certified: bool,
    /// Control capabilities of the light.
    pub control: ControlCapabilities,
    /// Streaming capabilities of the light.
    pub streaming: StreamingCapabilities,
}

/// Whether `x` is what the payload `j` describes, member by member.
pub open spec fn capabilities_matches(x: Capabilities, j: Json) -> bool {
    &&& req_bool(j, "certified"@) == Some(x.certified)
    &&& match field(j, "control"@) { Some(v) => control_capabilities_matches(x.control, v), None => false }
    &&& match field(j, "streaming"@) { Some(v) => streaming_capabilities_matches(x.streaming, v), None => false }
}

impl Capabilities {
    /// Decodes the payload of a light's capabilities; it fails when any member is missing or malformed.
    pub fn decode(j: &Json) -> (r: Result<Capabilities, DecodeError>)
        ensures
            match r {
                Ok(x) => capabilities_matches(x, *j),
                Err(_) => forall|x: Capabilities| !#[trigger] capabilities_matches(x, *j),
            },
    {
        let certified = bool_field(j, "certified")?;
        let control = ControlCapabilities::decode(record_field(j, "control")?)?;
        let streaming = StreamingCapabilities::decode(record_field(j, "streaming")?)?;
        Ok(Capabilities { certified, control, streaming })
    }
}

/// Control capabilities of a light.
///
/// Coordinates in the color space are given in ten-thousandths.
#[derive(Clone, Debug, PartialEq, Eq)]
pub struct ControlCapabilities {
    /// Minimal dim level of the light.
    pub min_dimlevel: Option<usize>,
    /// Maximal lumen of the light.
    pub max_lumen: Option<usize>,
    /// Color gamut of the light.
    pub color_gamut: Option<Vec<(u16, u16)>>,
    /// Type of the color gamut of the light.
    pub color_gamut_type: Option<String>,
    /// Minimal and maximal color temperature of the light.
    pub color_temperature: Option<ColorTemperatureCapabilities>,
}

/// Whether `x` is what the payload `j` describes, member by member.
pub open spec fn control_capabilities_matches(x: ControlCapabilities, j: Json) -> bool {
    &&& opt_uint(j, "mindimlevel"@, usize::MAX as int) == Some(match x.min_dimlevel { Some(v) => Some(v as int), None => None })
    &&& opt_uint(j, "maxlumen"@, usize::MAX as int) == Some(match x.max_lumen { Some(v) => Some(v as int), None => None })
    &&& opt_gamut(j, "colorgamut"@) == Some(match x.color_gamut { Some(v) => Some(v@), None => None })
    &&& opt_text(j, "colorgamuttype"@) == Some(opt_string_view(x.color_gamut_type))
    &&& match x.color_temperature { Some(r) => !is_absent(field(j, "ct"@)) && color_temperature_capabilities_matches(r, field(j, "ct"@)->0), None => is_absent(field(j, "ct"@)) }
}

impl ControlCapabilities {
    /// Decodes the payload of a light's control capabilities; it fails when any member is missing or malformed.
    pub fn decode(j: &Json) -> (r: Result<ControlCapabilities, DecodeError>)
        ensures
            match r {
                Ok(x) => control_capabilities_matches(x, *j),
                Err(_) => forall|x: ControlCapabilities| !#[trigger] control_capabilities_matches(x, *j),
            },
    {
        let min_dimlevel = match opt_uint_field(j, "mindimlevel", usize::MAX as u64)? {
            Some(v) => Some(v as usize),
            None => None,
        };
        let max_lumen = match opt_uint_field(j, "maxlumen", usize::MAX as u64)? {
            Some(v) => Some(v as usize),
            None => None,
        };
        let color_gamut = opt_gamut_field(j, "colorgamut")?;
        let color_gamut_type = opt_text_field(j, "colorgamuttype")?;
        let color_temperature = match j.get("ct") {
            None => None,
            Some(Json::Null) => None,
            Some(v) => Some(ColorTemperatureCapabilities::decode(v)?),
        };
        Ok(ControlCapabilities { min_dimlevel, max_lumen, color_gamut, color_gamut_type, color_temperature })
    }
}

/// Color temperature capabilities of a light.
#[derive(Clone, Copy, Debug, PartialEq, Eq, Structural)]
pub struct ColorTemperatureCapabilities {
    /// Minimal color temperature.
    pub min: usize,
    /// Maximal color temperature.
    pub max: usize,
}

/// Whether `x` is what the payload `j` describes, member by member.
pub open spec fn color_temperature_capabilities_matches(x: ColorTemperatureCapabilities, j: Json) -> bool {
    &&& req_uint(j, "min"@, usize::MAX as int) == Some(x.min as int)
    &&& req_uint(j, "max"@, usize::MAX as int) == Some(x.max as int)
}

impl ColorTemperatureCapabilities {
    /// Decodes the payload of a light's color temperature range; it fails when any member is missing or malformed.
    pub fn decode(j: &Json) -> (r: Result<ColorTemperatureCapabilities, DecodeError>)
        ensures
            match r {
                Ok(x) => color_temperature_capabilities_matches(x, *j),
                Err(_) => forall|x: ColorTemperatureCapabilities| !#[trigger] color_temperature_capabilities_matches(x, *j),
            },
    {
        let min = uint_field(j, "min", usize::MAX as u64)? as usize;
        let max = uint_field(j, "max", usize::MAX as u64)? as usize;
        Ok(ColorTemperatureCapabilities { min, max })
    }
}

/// Streaming capabilities of a light.
#[derive(Clone, Copy, Debug, PartialEq, Eq, Structural)]
pub struct StreamingCapabilities {
    /// Whether a renderer is enabled.
    pub renderer: bool,
    /// Whether a proxy is enabled.
    pub proxy: bool,
}

/// Whether `x` is what the payload `j` describes, member by member.
pub open spec fn streaming_capabilities_matches(x: StreamingCapabilities, j: Json) -> bool {
    &&& req_bool(j, "renderer"@) == Some(x.renderer)
    &&& req_bool(j, "proxy"@) == Some(x.proxy)
}

impl StreamingCapabilities {
    /// Decodes the payload of a light's streaming capabilities; it fails when any member is missing or malformed.
    pub fn decode(j: &Json) -> (r: Result<StreamingCapabilities, DecodeError>)
        ensures
            match r {
                Ok(x) => streaming_capabilities_matches(x, *j),
                Err(_) => forall|x: StreamingCapabilities| !#[trigger] streaming_capabilities_matches(x, *j),
            },
    {
        let renderer = bool_field(j, "renderer")?;
        let proxy = bool_field(j, "proxy")?;
        Ok(StreamingCapabilities { renderer, proxy })
    }
}

impl Light {
    /// The light with its identifier set to `id`.
    pub fn with_id(self, id: String) -> (r: Light)
        ensures
            r == (Light { id, ..self }),
    {
        Light { id, ..self }
    }
}

/// Modifier for the attributes of a light.
#[derive(Clone, Debug, PartialEq, Eq)]
pub struct AttributeModifier {
    /// Wire member `name`.
    pub name: Option<String>,
}

impl AttributeModifier {
    /// The members that the request body holds, in order: one for each slot that is set.
    pub open spec fn wire(self) -> Seq<(Seq<char>, WireValue)> {
        member("name"@, text_wire(self.name))
    }

    /// The request body: an object with a member for each slot that is set, and no other.
    pub fn to_json(&self) -> (r: Json)
        ensures
            is_object_of(r, self.wire()),
    {
        let mut es = new_entries();
        let ghost mut w: Seq<(Seq<char>, WireValue)> = Seq::empty();
        put_member(&mut es, "name", match &self.name { Some(s) => Some(Json::Text(s.clone())), None => None }, Ghost(w), Ghost(text_wire(self.name)));
        proof {
            w = member("name"@, text_wire(self.name));
            assert(Seq::<(Seq<char>, WireValue)>::empty() + w =~= w);
        }
        Json::Object(es)
    }
}

impl Modifier for AttributeModifier {
    open spec fn spec_is_empty(&self) -> bool {
        self.name is None
    }

    fn new() -> (r: Self) {
        AttributeModifier { name: None }
    }

    fn is_empty(&self) -> (r: bool) {
        self.name.is_none()
    }
}

impl Default for AttributeModifier {
    /// A modifier that changes nothing.
    fn default() -> (r: Self)
        ensures
            Modifier::spec_is_empty(&r),
    {
        <AttributeModifier as Modifier>::new()
    }
}

impl AttributeModifier {
    /// Changes the name of the light.
    pub fn name(self, value: String) -> (r: Self)
        ensures
            r == (AttributeModifier { name: Some(value) }),
    {
        AttributeModifier { name: Some(value) }
    }
}

/// Modifier for the state of a light.
///
/// Coordinates in the color space are given in ten-thousandths: `(1000, 2000)` is the point
/// `(0.1, 0.2)`.
#[derive(Clone, Copy, Debug, PartialEq, Eq)]
pub struct StateModifier {
    /// Wire member `on`.
    pub on: Option<bool>,
    /// Wire member `bri`.
    pub brightness: Option<u8>,
    /// Wire member `hue`.
    pub hue: Option<u16>,
    /// Wire member `sat`.
    pub saturation: Option<u8>,
    /// Wire member `xy`.
    pub color_space_coordinates: Option<(u16, u16)>,
    /// Wire member `ct`.
    pub color_temperature: Option<u16>,
    /// Wire member `alert`.
    pub alert: Option<Alert>,
    /// Wire member `effect`.
    pub effect: Option<Effect>,
    /// Wire member `transitiontime`.
    pub transition_time: Option<u16>,
    /// Wire member `bri_inc`.
    pub brightness_increment: Option<i16>,
    /// Wire member `hue_inc`.
    pub hue_increment: Option<i32>,
    /// Wire member `sat_inc`.
    pub saturation_increment: Option<i16>,
    /// Wire member `xy_inc`.
    pub color_space_coordinates_increment: Option<(i32, i32)>,
    /// Wire member `ct_inc`.
    pub color_temperature_increment: Option<i32>,
}

impl StateModifier {
    /// The members that the request body holds, in order: one for each slot that is set.
    pub open spec fn wire(self) -> Seq<(Seq<char>, WireValue)> {
        member("on"@, match self.on { Some(b) => Some(WireValue::Bool(b)), None => None })
            + member("bri"@, match self.brightness { Some(v) => Some(WireValue::Int(v as int)), None => None })
            + member("hue"@, match self.hue { Some(v) => Some(WireValue::Int(v as int)), None => None })
            + member("sat"@, match self.saturation { Some(v) => Some(WireValue::Int(v as int)), None => None })
            + member("xy"@, match self.color_space_coordinates { Some(p) => Some(WireValue::Pair(p.0 as int, p.1 as int)), None => None })
            + member("ct"@, match self.color_temperature { Some(v) => Some(WireValue::Int(v as int)), None => None })
            + member("alert"@, match self.alert { Some(t) => Some(WireValue::Text(t.spec_token())), None => None })
            + member("effect"@, match self.effect { Some(t) => Some(WireValue::Text(t.spec_token())), None => None })
            + member("transitiontime"@, match self.transition_time { Some(v) => Some(WireValue::Int(v as int)), None => None })
            + member("bri_inc"@, match self.brightness_increment { Some(v) => Some(WireValue::Int(v as int)), None => None })
            + member("hue_inc"@, match self.hue_increment { Some(v) => Some(WireValue::Int(v as int)), None => None })
            + member("sat_inc"@, match self.saturation_increment { Some(v) => Some(WireValue::Int(v as int)), None => None })
            + member("xy_inc"@, match self.color_space_coordinates_increment { Some(p) => Some(WireValue::Pair(p.0 as int, p.1 as int)), None => None })
            + member("ct_inc"@, match self.color_temperature_increment { Some(v) => Some(WireValue::Int(v as int)), None => None })
    }

    /// The request body: an object with a member for each slot that is set, and no other.
    pub fn to_json(&self) -> (r: Json)
        ensures
            is_object_of(r, self.wire()),
    {
        let mut es = new_entries();
        let ghost mut w: Seq<(Seq<char>, WireValue)> = Seq::empty();
        put_member(&mut es, "on", match self.on { Some(b) => Some(Json::Bool(b)), None => None }, Ghost(w), Ghost(match self.on { Some(b) => Some(WireValue::Bool(b)), None => None }));
        proof {
            w = member("on"@, match self.on { Some(b) => Some(WireValue::Bool(b)), None => None });
            assert(Seq::<(Seq<char>, WireValue)>::empty() + w =~= w);
        }
        put_member(&mut es, "bri", match self.brightness { Some(v) => Some(Json::Int(v as i64)), None => None }, Ghost(w), Ghost(match self.brightness { Some(v) => Some(WireValue::Int(v as int)), None => None }));
        proof {
            w = w + member("bri"@, match self.brightness { Some(v) => Some(WireValue::Int(v as int)), None => None });
        }
        put_member(&mut es, "hue", match self.hue { Some(v) => Some(Json::Int(v as i64)), None => None }, Ghost(w), Ghost(match self.hue { Some(v) => Some(WireValue::Int(v as int)), None => None }));
        proof {
            w = w + member("hue"@, match self.hue { Some(v) => Some(WireValue::Int(v as int)), None => None });
        }
        put_member(&mut es, "sat", match self.saturation { Some(v) => Some(Json::Int(v as i64)), None => None }, Ghost(w), Ghost(match self.saturation { Some(v) => Some(WireValue::Int(v as int)), None => None }));
        proof {
            w = w + member("sat"@, match self.saturation { Some(v) => Some(WireValue::Int(v as int)), None => None });
        }
        put_member(&mut es, "xy", match self.color_space_coordinates { Some(p) => Some(decimal_pair(p.0 as i64, p.1 as i64)), None => None }, Ghost(w), Ghost(match self.color_space_coordinates { Some(p) => Some(WireValue::Pair(p.0 as int, p.1 as int)), None => None }));
        proof {
            w = w + member("xy"@, match self.color_space_coordinates { Some(p) => Some(WireValue::Pair(p.0 as int, p.1 as int)), None => None });
        }
        put_member(&mut es, "ct", match self.color_temperature { Some(v) => Some(Json::Int(v as i64)), None => None }, Ghost(w), Ghost(match self.color_temperature { Some(v) => Some(WireValue::Int(v as int)), None => None }));
        proof {
            w = w + member("ct"@, match self.color_temperature { Some(v) => Some(WireValue::Int(v as int)), None => None });
        }
        put_member(&mut es, "alert", match self.alert { Some(t) => Some(Json::Text(t.token())), None => None }, Ghost(w), Ghost(match self.alert { Some(t) => Some(WireValue::Text(t.spec_token())), None => None }));
        proof {
            w = w + member("alert"@, match self.alert { Some(t) => Some(WireValue::Text(t.spec_token())), None => None });
        }
        put_member(&mut es, "effect", match self.effect { Some(t) => Some(Json::Text(t.token())), None => None }, Ghost(w), Ghost(match self.effect { Some(t) => Some(WireValue::Text(t.spec_token())), None => None }));
        proof {
            w = w + member("effect"@, match self.effect { Some(t) => Some(WireValue::Text(t.spec_token())), None => None });
        }
        put_member(&mut es, "transitiontime", match self.transition_time { Some(v) => Some(Json::Int(v as i64)), None => None }, Ghost(w), Ghost(match self.transition_time { Some(v) => Some(WireValue::Int(v as int)), None => None }));
        proof {
            w = w + member("transitiontime"@, match self.transition_time { Some(v) => Some(WireValue::Int(v as int)), None => None });
        }
        put_member(&mut es, "bri_inc", match self.brightness_increment { Some(v) => Some(Json::Int(v as i64)), None => None }, Ghost(w), Ghost(match self.brightness_increment { Some(v) => Some(WireValue::Int(v as int)), None => None }));
        proof {
            w = w + member("bri_inc"@, match self.brightness_increment { Some(v) => Some(WireValue::Int(v as int)), None => None });
        }
        put_member(&mut es, "hue_inc", match self.hue_increment { Some(v) => Some(Json::Int(v as i64)), None => None }, Ghost(w), Ghost(match self.hue_increment { Some(v) => Some(WireValue::Int(v as int)), None => None }));
        proof {
            w = w + member("hue_inc"@, match self.hue_increment { Some(v) => Some(WireValue::Int(v as int)), None => None });
        }
        put_member(&mut es, "sat_inc", match self.saturation_increment { Some(v) => Some(Json::Int(v as i64)), None => None }, Ghost(w), Ghost(match self.saturation_increment { Some(v) => Some(WireValue::Int(v as int)), None => None }));
        proof {
            w = w + member("sat_inc"@, match self.saturation_increment { Some(v) => Some(WireValue::Int(v as int)), None => None });
        }
        put_member(&mut es, "xy_inc", match self.color_space_coordinates_increment { Some(p) => Some(decimal_pair(p.0 as i64, p.1 as i64)), None => None }, Ghost(w), Ghost(match self.color_space_coordinates_increment { Some(p) => Some(WireValue::Pair(p.0 as int, p.1 as int)), None => None }));
        proof {
            w = w + member("xy_inc"@, match self.color_space_coordinates_increment { Some(p) => Some(WireValue::Pair(p.0 as int, p.1 as int)), None => None });
        }
        put_member(&mut es, "ct_inc", match self.color_temperature_increment { Some(v) => Some(Json::Int(v as i64)), None => None }, Ghost(w), Ghost(match self.color_temperature_increment { Some(v) => Some(WireValue::Int(v as int)), None => None }));
        proof {
            w = w + member("ct_inc"@, match self.color_temperature_increment { Some(v) => Some(WireValue::Int(v as int)), None => None });
        }
        Json::Object(es)
    }
}

impl Modifier for StateModifier {
    open spec fn spec_is_empty(&self) -> bool {
        self.on is None && self.brightness is None && self.hue is None && self.saturation is None && self.color_space_coordinates is None && self.color_temperature is None && self.alert is None && self.effect is None && self.transition_time is None && self.brightness_increment is None && self.hue_increment is None && self.saturation_increment is None && self.color_space_coordinates_increment is None && self.color_temperature_increment is None
    }

    fn new() -> (r: Self) {
        StateModifier { on: None, brightness: None, hue: None, saturation: None, color_space_coordinates: None, color_temperature: None, alert: None, effect: None, transition_time: None, brightness_increment: None, hue_increment: None, saturation_increment: None, color_space_coordinates_increment: None, color_temperature_increment: None }
    }

    fn is_empty(&self) -> (r: bool) {
        self.on.is_none() && self.brightness.is_none() && self.hue.is_none() && self.saturation.is_none() && self.color_space_coordinates.is_none() && self.color_temperature.is_none() && self.alert.is_none() && self.effect.is_none() && self.transition_time.is_none() && self.brightness_increment.is_none() && self.hue_increment.is_none() && self.saturation_increment.is_none() && self.color_space_coordinates_increment.is_none() && self.color_temperature_increment.is_none()
    }
}

impl Default for StateModifier {
    /// A modifier that changes nothing.
    fn default() -> (r: Self)
        ensures
            Modifier::spec_is_empty(&r),
    {
        <StateModifier as Modifier>::new()
    }
}

impl StateModifier {
    /// The modifier after a brightness change of the given type.
    pub open spec fn set_brightness(self, modifier_type: ModifierType, value: u8) -> Self {
        if modifier_type == ModifierType::Override {
            StateModifier { brightness: Some(value), ..self }
        } else {
            StateModifier { brightness_increment: Some(delta(modifier_type, value as int) as i16), ..self }
        }
    }

    /// The modifier after a hue change of the given type.
    pub open spec fn set_hue(self, modifier_type: ModifierType, value: u16) -> Self {
        if modifier_type == ModifierType::Override {
            StateModifier { hue: Some(value), ..self }
        } else {
            StateModifier { hue_increment: Some(delta(modifier_type, value as int) as i32), ..self }
        }
    }

    /// The modifier after a saturation change of the given type.
    pub open spec fn set_saturation(self, modifier_type: ModifierType, value: u8) -> Self {
        if modifier_type == ModifierType::Override {
            StateModifier { saturation: Some(value), ..self }
        } else {
            StateModifier { saturation_increment: Some(delta(modifier_type, value as int) as i16), ..self }
        }
    }

    /// The modifier after a color temperature change of the given type.
    pub open spec fn set_color_temperature(self, modifier_type: ModifierType, value: u16) -> Self {
        if modifier_type == ModifierType::Override {
            StateModifier { color_temperature: Some(value), ..self }
        } else {
            StateModifier {
                color_temperature_increment: Some(delta(modifier_type, value as int) as i32),
                ..self
            }
        }
    }

    /// The modifier after a change of the color space coordinates of the given type.
    pub open spec fn set_color_space_coordinates(
        self,
        modifier_type: CoordinateModifierType,
        value: (u16, u16),
    ) -> Self {
        if modifier_type == CoordinateModifierType::Override {
            StateModifier { color_space_coordinates: Some(value), ..self }
        } else {
            let d = coordinate_delta(modifier_type, value.0 as int, value.1 as int);
            StateModifier { color_space_coordinates_increment: Some((d.0 as i32, d.1 as i32)), ..self }
        }
    }

    /// Turns the light on or off.
    pub fn on(self, value: bool) -> (r: Self)
        ensures
            r == (StateModifier { on: Some(value), ..self }),
    {
        StateModifier { on: Some(value), ..self }
    }

    /// Sets the brightness of the light.
    pub fn brightness(self, modifier_type: ModifierType, value: u8) -> (r: Self)
        ensures
            r == self.set_brightness(modifier_type, value),
    {
        match modifier_type {
            ModifierType::Override => StateModifier { brightness: Some(value), ..self },
            ModifierType::Increment => StateModifier { brightness_increment: Some(value as i16), ..self },
            ModifierType::Decrement => StateModifier {
                brightness_increment: Some(-(value as i16)),
                ..self
            },
        }
    }

    /// Sets the hue of the light.
    pub fn hue(self, modifier_type: ModifierType, value: u16) -> (r: Self)
        ensures
            r == self.set_hue(modifier_type, value),
    {
        match modifier_type {
            ModifierType::Override => StateModifier { hue: Some(value), ..self },
            ModifierType::Increment => StateModifier { hue_increment: Some(value as i32), ..self },
            ModifierType::Decrement => StateModifier { hue_increment: Some(-(value as i32)), ..self },
        }
    }

    /// Sets the saturation of the light.
    pub fn saturation(self, modifier_type: ModifierType, value: u8) -> (r: Self)
        ensures
            r == self.set_saturation(modifier_type, value),
    {
        match modifier_type {
            ModifierType::Override => StateModifier { saturation: Some(value), ..self },
            ModifierType::Increment => StateModifier { saturation_increment: Some(value as i16), ..self },
            ModifierType::Decrement => StateModifier {
                saturation_increment: Some(-(value as i16)),
                ..self
            },
        }
    }

    /// Sets the x and y coordinates in the color space, in ten-thousandths.
    ///
    /// For `Override` the values lie between 0 and 10000; for the other types, which change
    /// the current values by the given amounts, between 0 and 5000.
    pub fn color_space_coordinates(self, modifier_type: CoordinateModifierType, value: (u16, u16)) -> (r: Self)
        ensures
            r == self.set_color_space_coordinates(modifier_type, value),
    {
        let x = value.0 as i32;
        let y = value.1 as i32;
        match modifier_type {
            CoordinateModifierType::Override => StateModifier { color_space_coordinates: Some(value), ..self },
            CoordinateModifierType::Increment => StateModifier {
                color_space_coordinates_increment: Some((x, y)),
                ..self
            },
            CoordinateModifierType::Decrement => StateModifier {
                color_space_coordinates_increment: Some((-x, -y)),
                ..self
            },
            CoordinateModifierType::IncrementDecrement => StateModifier {
                color_space_coordinates_increment: Some((x, -y)),
                ..self
            },
            CoordinateModifierType::DecrementIncrement => StateModifier {
                color_space_coordinates_increment: Some((-x, y)),
                ..self
            },
        }
    }

    /// Sets the color temperature of the light.
    pub fn color_temperature(self, modifier_type: ModifierType, value: u16) -> (r: Self)
        ensures
            r == self.set_color_temperature(modifier_type, value),
    {
        match modifier_type {
            ModifierType::Override => StateModifier { color_temperature: Some(value), ..self },
            ModifierType::Increment => StateModifier {
                color_temperature_increment: Some(value as i32),
                ..self
            },
            ModifierType::Decrement => StateModifier {
                color_temperature_increment: Some(-(value as i32)),
                ..self
            },
        }
    }

    /// Sets the alert effect of the light.
    pub fn alert(self, value: Alert) -> (r: Self)
        ensures
            r == (StateModifier { alert: Some(value), ..self }),
    {
        StateModifier { alert: Some(value), ..self }
    }

    /// Sets the dynamic effect of the light.
    pub fn effect(self, value: Effect) -> (r: Self)
        ensures
            r == (StateModifier { effect: Some(value), ..self }),
    {
        StateModifier { effect: Some(value), ..self }
    }

    /// Sets the duration of the transition to the new state, as a multiple of 100 ms.
    pub fn transition_time(self, value: u16) -> (r: Self)
        ensures
            r == (StateModifier { transition_time: Some(value), ..self }),
    {
        StateModifier { transition_time: Some(value), ..self }
    }
}

/// Status of the last scan for new lights.
#[derive(Clone, Copy, Debug, PartialEq, Eq, Structural)]
pub enum LastScan {
    /// Date and time of the last scan.
    DateTime(DateTime),
    /// The bridge is scanning now.
    Active,
    /// The bridge has not scanned since it was powered on.
    Never,
}

/// The status that the text `s` stands for: `"active"`, the sentinel `"none"`, or a date and
/// time.
pub open spec fn last_scan_of(s: Seq<char>) -> Option<LastScan> {
    if s == "active"@ {
        Some(LastScan::Active)
    } else if s == sentinel() {
        Some(LastScan::Never)
    } else {
        match date_time_of(s) {
            Some(d) => Some(LastScan::DateTime(d)),
            None => None,
        }
    }
}

impl LastScan {
    /// Decodes the status of the last scan from its text.
    pub fn from_text(s: &str) -> (r: Option<LastScan>)
        ensures
            r == last_scan_of(s@),
    {
        if text_eq(s, "active") {
            Some(LastScan::Active)
        } else if text_eq(s, "none") {
            Some(LastScan::Never)
        } else {
            match DateTime::parse(s) {
                Some(d) => Some(LastScan::DateTime(d)),
                None => None,
            }
        }
    }
}

/// A light that a scan found.
#[derive(Clone, Debug, PartialEq, Eq)]
pub struct ScanLight {
    /// Identifier of the light.
    pub id: String,
    /// Name of the light.
    pub name: String,
}

/// The result of a scan for new lights.
#[derive(Clone, Debug, PartialEq, Eq)]
pub struct Scan {
    /// When the bridge last scanned for new lights.
    pub last_scan: LastScan,
    /// The new lights that were found, in the order of the payload.
    pub lights: Vec<ScanLight>,
}

/// Whether an entry of a scan result is the reserved `lastscan` entry.
pub open spec fn is_last_scan_entry(e: (String, Json)) -> bool {
    e.0@ == "lastscan"@
}

/// The status that the value of a `lastscan` entry stands for.
pub open spec fn last_scan_value(v: Json) -> Option<LastScan> {
    match text_of(v) {
        Some(s) => last_scan_of(s),
        None => None,
    }
}

/// Whether every entry of a scan result can be decoded: the `lastscan` entries hold a status,
/// the others an object with a string `name`.
pub open spec fn scan_entries_valid(es: Seq<(String, Json)>) -> bool {
    forall|i: int|
        0 <= i < es.len() ==> if is_last_scan_entry(#[trigger] es[i]) {
            last_scan_value(es[i].1) is Some
        } else {
            req_text(es[i].1, "name"@) is Some
        }
}

/// The value of the last `lastscan` entry.
pub open spec fn last_scan_entry(es: Seq<(String, Json)>) -> Option<Json>
    decreases es.len(),
{
    if es.len() == 0 {
        None
    } else if is_last_scan_entry(es.last()) {
        Some(es.last().1)
    } else {
        last_scan_entry(es.drop_last())
    }
}

/// The entries of a scan result that stand for lights, in order.
pub open spec fn light_entries(es: Seq<(String, Json)>) -> Seq<(String, Json)> {
    es.filter(|e: (String, Json)| !is_last_scan_entry(e))
}

/// Whether `ls` are, in order, the lights that the entries `es` describe.
pub open spec fn scan_lights_match(ls: Seq<ScanLight>, es: Seq<(String, Json)>) -> bool {
    &&& ls.len() == es.len()
    &&& forall|i: int|
        #![trigger ls[i]]
        0 <= i < ls.len() ==> ls[i].id@ == es[i].0@ && req_text(es[i].1, "name"@) == Some(
            ls[i].name@,
        )
}

/// Whether `j` is a scan result that can be decoded.
pub open spec fn scan_valid(j: Json) -> bool {
    &&& j is Object
    &&& scan_entries_valid(entries_of(j))
    &&& last_scan_entry(entries_of(j)) is Some
}

impl Scan {
    /// Decodes a scan result: an object with the reserved key `lastscan` and one key for
    /// each new light, whose value is an object with the light's `name`.
    ///
    /// Entries are read in one pass; a later `lastscan` entry replaces an earlier one. A
    /// payload without `lastscan` fails with a missing-field error.
    pub fn decode(j: &Json) -> (r: Result<Scan, DecodeError>)
        ensures
            match r {
                Ok(scan) => {
                    &&& scan_valid(*j)
                    &&& last_scan_value(last_scan_entry(entries_of(*j))->0) == Some(scan.last_scan)
                    &&& scan_lights_match(scan.lights@, light_entries(entries_of(*j)))
                },
                Err(e) => {
                    &&& !scan_valid(*j)
                    &&& (j is Object && scan_entries_valid(entries_of(*j))) ==> e.kind
                        == DecodeErrorKind::MissingField && e.field@ == "lastscan"@
                },
            },
    {
        match j {
            Json::Object(es) => {
                let mut lights: Vec<ScanLight> = Vec::new();
                let mut last: Option<LastScan> = None;
                let mut i: usize = 0;
                while i < es.len()
                    invariant
                        *j == Json::Object(*es),
                        i <= es@.len(),
                        scan_entries_valid(es@.take(i as int)),
                        last == match last_scan_entry(es@.take(i as int)) {
                            Some(v) => last_scan_value(v),
                            None => None,
                        },
                        last is None <==> last_scan_entry(es@.take(i as int)) is None,
                        scan_lights_match(lights@, light_entries(es@.take(i as int))),
                    decreases es@.len() - i,
                {
                    let ghost prefix = es@.take(i as int);
                    let ghost next = es@.take(i + 1);
                    assert(next.drop_last() =~= prefix);
                    assert(next.last() == es@[i as int]);
                    proof {
                        reveal(Seq::filter);
                    }
                    let key = &es[i].0;
                    let value = &es[i].1;
                    if text_eq(key.as_str(), "lastscan") {
                        let status = match value {
                            Json::Text(s) => LastScan::from_text(s.as_str()),
                            _ => None,
                        };
                        match status {
                            Some(l) => {
                                last = Some(l);
                            },
                            None => {
                                assert(!scan_entries_valid(es@)) by {
                                    assert(is_last_scan_entry(es@[i as int]));
                                }
                                return Err(DecodeError::invalid("lastscan"));
                            },
                        }
                        assert(light_entries(next) == light_entries(prefix));
                    } else {
                        let name = match text_field(value, "name") {
                            Ok(n) => n,
                            Err(e) => {
                                assert(!scan_entries_valid(es@)) by {
                                    assert(!is_last_scan_entry(es@[i as int]));
                                }
                                return Err(e);
                            },
                        };
                        let ghost before = lights@;
                        lights.push(ScanLight { id: key.clone(), name });
                        assert(light_entries(next) == light_entries(prefix).push(es@[i as int]));
                        assert(scan_lights_match(lights@, light_entries(next))) by {
                            assert forall|k: int| 0 <= k < lights@.len() implies #[trigger] lights@[k].id@
                                == light_entries(next)[k].0@ && req_text(
                                light_entries(next)[k].1,
                                "name"@,
                            ) == Some(lights@[k].name@) by {
                                if k < before.len() {
                                    assert(lights@[k] == before[k]);
                                }
                            }
                        }
                    }
                    assert(scan_entries_valid(next)) by {
                        assert forall|k: int| 0 <= k < next.len() implies if is_last_scan_entry(
                            #[trigger] next[k],
                        ) {
                            last_scan_value(next[k].1) is Some
                        } else {
                            req_text(next[k].1, "name"@) is Some
                        } by {
                            if k < i {
                                assert(next[k] == prefix[k]);
                            }
                        }
                    }
                    i += 1;
                }
                assert(es@.take(es@.len() as int) =~= es@);
                match last {
                    Some(l) => Ok(Scan { last_scan: l, lights }),
                    None => Err(DecodeError::missing("lastscan")),
                }
            },
            _ => Err(DecodeError::invalid("lastscan")),
        }
    }
}

/// Whether `ls` are, in order, the lights that the entries `es` of a collection describe,
/// each with its key as identifier.
pub open spec fn lights_match(ls: Seq<Light>, es: Seq<(String, Json)>) -> bool {
    &&& ls.len() == es.len()
    &&& forall|i: int|
        #![trigger ls[i]]
        0 <= i < ls.len() ==> ls[i].id@ == es[i].0@ && light_matches(ls[i], es[i].1)
}

/// Decodes a collection of lights: an object that maps each light's identifier to its
/// payload. The lights come in the order of the payload, each with its key as identifier;
/// one malformed light fails the whole collection.
pub fn decode_lights(j: &Json) -> (r: Result<Vec<Light>, DecodeError>)
    ensures
        match r {
            Ok(ls) => j is Object && lights_match(ls@, entries_of(*j)),
            Err(_) => !(j is Object) || forall|xs: Seq<Light>| !#[trigger] lights_match(xs, entries_of(*j)),
        },
{
    match j {
        Json::Object(es) => {
            let mut ls: Vec<Light> = Vec::new();
            let mut i: usize = 0;
            while i < es.len()
                invariant
                    *j == Json::Object(*es),
                    i <= es@.len(),
                    lights_match(ls@, es@.take(i as int)),
                decreases es@.len() - i,
            {
                let light = match Light::decode(&es[i].1) {
                    Ok(l) => l,
                    Err(e) => {
                        assert forall|xs: Seq<Light>| !#[trigger] lights_match(xs, entries_of(*j)) by {
                            if lights_match(xs, entries_of(*j)) {
                                assert(light_matches(xs[i as int], es@[i as int].1));
                            }
                        }
                        return Err(e);
                    },
                };
                let ghost before = ls@;
                ls.push(light.with_id(es[i].0.clone()));
                assert forall|k: int| 0 <= k < ls@.len() implies #[trigger] ls@[k].id@ == es@.take(i + 1)[k].0@
                    && light_matches(ls@[k], es@.take(i + 1)[k].1) by {
                    if k < before.len() {
                        assert(ls@[k] == before[k]);
                    }
                }
                i += 1;
            }
            assert(es@.take(es@.len() as int) =~= es@);
            Ok(ls)
        },
        _ => Err(DecodeError::invalid("")),
    }
}

/// A modifier of a light's attributes that changes nothing has an empty request body; after
/// one change of the name the body holds exactly the `name` member.
pub proof fn lemma_attribute_modifier_members(m: AttributeModifier, name: String)
    requires
        m.spec_is_empty(),
    ensures
        m.wire() == Seq::<(Seq<char>, WireValue)>::empty(),
        (AttributeModifier { name: Some(name) }).wire() == seq![("name"@, WireValue::Text(name@))],
{
    assert(m.wire() =~= Seq::<(Seq<char>, WireValue)>::empty());
    assert((AttributeModifier { name: Some(name) }).wire() =~= seq![("name"@, WireValue::Text(name@))]);
}

/// A modifier of a light's state that changes nothing has an empty request body; after one
/// change the body holds exactly the member that the change targets: the base member for
/// `Override`, the `_inc` member with the signed change otherwise.
pub proof fn lemma_state_modifier_members(
    m: StateModifier,
    t: ModifierType,
    c: CoordinateModifierType,
    on: bool,
    v8: u8,
    v16: u16,
    p: (u16, u16),
    a: Alert,
    e: Effect,
)
    requires
        m.spec_is_empty(),
    ensures
        m.wire() == Seq::<(Seq<char>, WireValue)>::empty(),
        (StateModifier { on: Some(on), ..m }).wire() == seq![("on"@, WireValue::Bool(on))],
        m.set_brightness(t, v8).wire() == if t == ModifierType::Override {
            seq![("bri"@, WireValue::Int(v8 as int))]
        } else {
            seq![("bri_inc"@, WireValue::Int(delta(t, v8 as int)))]
        },
        m.set_hue(t, v16).wire() == if t == ModifierType::Override {
            seq![("hue"@, WireValue::Int(v16 as int))]
        } else {
            seq![("hue_inc"@, WireValue::Int(delta(t, v16 as int)))]
        },
        m.set_saturation(t, v8).wire() == if t == ModifierType::Override {
            seq![("sat"@, WireValue::Int(v8 as int))]
        } else {
            seq![("sat_inc"@, WireValue::Int(delta(t, v8 as int)))]
        },
        m.set_color_temperature(t, v16).wire() == if t == ModifierType::Override {
            seq![("ct"@, WireValue::Int(v16 as int))]
        } else {
            seq![("ct_inc"@, WireValue::Int(delta(t, v16 as int)))]
        },
        m.set_color_space_coordinates(c, p).wire() == if c == CoordinateModifierType::Override {
            seq![("xy"@, WireValue::Pair(p.0 as int, p.1 as int))]
        } else {
            seq![
                ("xy_inc"@, WireValue::Pair(
                    coordinate_delta(c, p.0 as int, p.1 as int).0,
                    coordinate_delta(c, p.0 as int, p.1 as int).1,
                )),
            ]
        },
        (StateModifier { alert: Some(a), ..m }).wire() == seq![("alert"@, WireValue::Text(a.spec_token()))],
        (StateModifier { effect: Some(e), ..m }).wire() == seq![("effect"@, WireValue::Text(e.spec_token()))],
        (StateModifier { transition_time: Some(v16), ..m }).wire() == seq![("transitiontime"@, WireValue::Int(v16 as int))],
{
    let ghost empty = Seq::<(Seq<char>, WireValue)>::empty();
    assert(m.wire() =~= empty);
    assert((StateModifier { on: Some(on), ..m }).wire() =~= seq![("on"@, WireValue::Bool(on))]);
    assert(m.set_brightness(t, v8).wire() =~= if t == ModifierType::Override {
        seq![("bri"@, WireValue::Int(v8 as int))]
    } else {
        seq![("bri_inc"@, WireValue::Int(delta(t, v8 as int)))]
    });
    assert(m.set_hue(t, v16).wire() =~= if t == ModifierType::Override {
        seq![("hue"@, WireValue::Int(v16 as int))]
    } else {
        seq![("hue_inc"@, WireValue::Int(delta(t, v16 as int)))]
    });
    assert(m.set_saturation(t, v8).wire() =~= if t == ModifierType::Override {
        seq![("sat"@, WireValue::Int(v8 as int))]
    } else {
        seq![("sat_inc"@, WireValue::Int(delta(t, v8 as int)))]
    });
    assert(m.set_color_temperature(t, v16).wire() =~= if t == ModifierType::Override {
        seq![("ct"@, WireValue::Int(v16 as int))]
    } else {
        seq![("ct_inc"@, WireValue::Int(delta(t, v16 as int)))]
    });
    assert(m.set_color_space_coordinates(c, p).wire() =~= if c == CoordinateModifierType::Override {
        seq![("xy"@, WireValue::Pair(p.0 as int, p.1 as int))]
    } else {
        seq![
            ("xy_inc"@, WireValue::Pair(
                coordinate_delta(c, p.0 as int, p.1 as int).0,
                coordinate_delta(c, p.0 as int, p.1 as int).1,
            )),
        ]
    });
    assert((StateModifier { alert: Some(a), ..m }).wire() =~= seq![("alert"@, WireValue::Text(a.spec_token()))]);
    assert((StateModifier { effect: Some(e), ..m }).wire() =~= seq![("effect"@, WireValue::Text(e.spec_token()))]);
    assert((StateModifier { transition_time: Some(v16), ..m }).wire() =~= seq![("transitiontime"@, WireValue::Int(v16 as int))]);
}

/// An increase of the brightness by `v` writes `bri_inc: v`, a decrease writes `bri_inc: -v`,
/// and neither touches the `bri` slot.
pub proof fn lemma_brightness_delta_sign(m: StateModifier, v: u8)
    ensures
        m.set_brightness(ModifierType::Increment, v).brightness_increment == Some(v as i16),
        m.set_brightness(ModifierType::Decrement, v).brightness_increment == Some((-(v as int)) as i16),
        -255 <= -(v as int) <= 0,
        m.set_brightness(ModifierType::Increment, v).brightness == m.brightness,
        m.set_brightness(ModifierType::Decrement, v).brightness == m.brightness,
{
}

/// `IncrementDecrement` adds to the first coordinate and subtracts from the second;
/// `DecrementIncrement` does the opposite.
pub proof fn lemma_coordinate_cross_sign(m: StateModifier, p: (u16, u16))
    ensures
        m.set_color_space_coordinates(CoordinateModifierType::IncrementDecrement, p).color_space_coordinates_increment
            == Some((p.0 as i32, (-(p.1 as int)) as i32)),
        m.set_color_space_coordinates(CoordinateModifierType::DecrementIncrement, p).color_space_coordinates_increment
            == Some(((-(p.0 as int)) as i32, p.1 as i32)),
        m.set_color_space_coordinates(CoordinateModifierType::IncrementDecrement, p).color_space_coordinates
            == m.color_space_coordinates,
{
}

} // verus!
