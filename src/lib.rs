//! Typed bindings for the REST API of a lighting bridge: the bridge's resources as data
//! structures, decoders from the bridge's JSON payloads and builders for partial updates.
//!
//! JSON travels through the library as a [`json::Json`] tree; turning text into such a tree
//! and back is left to the caller.
use vstd::prelude::*;

pub mod codec;
pub mod config;
pub mod json;
pub mod light;
pub mod response;
pub mod sensor;

use codec::WireToken;
use json::text_eq;

verus! {

/// Alert effect of a light.
#[derive(Clone, Copy, Debug, PartialEq, Eq, Structural)]
pub enum Alert {
    /// Performs one breathe cycle.
    Select,
    /// Performs breathe cycles for 15 seconds or until the alert is disabled.
    LSelect,
    /// Disables any alert.
    Disabled,
}

impl Alert {
    /// The wire token of each variant.
    pub open spec fn spec_token(self) -> Seq<char> {
        match self {
            Alert::Select => "select"@,
            Alert::LSelect => "lselect"@,
            Alert::Disabled => "none"@,
        }
    }

    /// Encodes the variant as its wire token.
    pub fn token(&self) -> (r: String)
        ensures
            r@ == self.spec_token(),
    {
        match self {
            Alert::Select => "select".to_owned(),
            Alert::LSelect => "lselect".to_owned(),
            Alert::Disabled => "none".to_owned(),
        }
    }
}

impl WireToken for Alert {
    /// The variant that a wire token stands for; nothing for an unknown token.
    open spec fn spec_from_token(s: Seq<char>) -> Option<Alert> {
        if s == "select"@ {
            Some(Alert::Select)
        } else if s == "lselect"@ {
            Some(Alert::LSelect)
        } else if s == "none"@ {
            Some(Alert::Disabled)
        } else {
            None
        }
    }

    /// Decodes a wire token; the match is exact and case-sensitive.
    fn from_token(s: &str) -> (r: Option<Alert>)
    {
        if text_eq(s, "select") {
            Some(Alert::Select)
        } else if text_eq(s, "lselect") {
            Some(Alert::LSelect)
        } else if text_eq(s, "none") {
            Some(Alert::Disabled)
        } else {
            None
        }
    }
}

/// Each variant decodes back from its own token, and a token that decodes encodes back to
/// itself; a token outside the documented set does not decode.
pub proof fn lemma_alert_tokens(v: Alert, s: Seq<char>)
    ensures
        Alert::spec_from_token(v.spec_token()) == Some(v),
        Alert::spec_from_token(s) matches Some(w) ==> w.spec_token() == s,
        s != "select"@ && s != "lselect"@ && s != "none"@ ==> Alert::spec_from_token(s) is None,
{
    reveal_strlit("select");
    reveal_strlit("lselect");
    reveal_strlit("none");
    assert("select"@.len() != "lselect"@.len());
    assert("select"@.len() != "none"@.len());
    assert("lselect"@.len() != "none"@.len());
}

/// Dynamic effect of a light.
#[derive(Clone, Copy, Debug, PartialEq, Eq, Structural)]
pub enum Effect {
    /// Cycles through all hues with the current brightness and saturation.
    Colorloop,
    /// Disables any effect.
    Disabled,
}

impl Effect {
    /// The wire token of each variant.
    pub open spec fn spec_token(self) -> Seq<char> {
        match self {
            Effect::Colorloop => "colorloop"@,
            Effect::Disabled => "none"@,
        }
    }

    /// Encodes the variant as its wire token.
    pub fn token(&self) -> (r: String)
        ensures
            r@ == self.spec_token(),
    {
        match self {
            Effect::Colorloop => "colorloop".to_owned(),
            Effect::Disabled => "none".to_owned(),
        }
    }
}

impl WireToken for Effect {
    /// The variant that a wire token stands for; nothing for an unknown token.
    open spec fn spec_from_token(s: Seq<char>) -> Option<Effect> {
        if s == "colorloop"@ {
            Some(Effect::Colorloop)
        } else if s == "none"@ {
            Some(Effect::Disabled)
        } else {
            None
        }
    }

    /// Decodes a wire token; the match is exact and case-sensitive.
    fn from_token(s: &str) -> (r: Option<Effect>)
    {
        if text_eq(s, "colorloop") {
            Some(Effect::Colorloop)
        } else if text_eq(s, "none") {
            Some(Effect::Disabled)
        } else {
            None
        }
    }
}

/// Each variant decodes back from its own token, and a token that decodes encodes back to
/// itself; a token outside the documented set does not decode.
pub proof fn lemma_effect_tokens(v: Effect, s: Seq<char>)
    ensures
        Effect::spec_from_token(v.spec_token()) == Some(v),
        Effect::spec_from_token(s) matches Some(w) ==> w.spec_token() == s,
        s != "colorloop"@ && s != "none"@ ==> Effect::spec_from_token(s) is None,
{
    reveal_strlit("colorloop");
    reveal_strlit("none");
    assert("colorloop"@.len() != "none"@.len());
}

/// Color mode of a light.
#[derive(Clone, Copy, Debug, PartialEq, Eq, Structural)]
pub enum ColorMode {
    /// Uses a color temperature to set the color of a light.
    ColorTemperature,
    /// Uses hue and saturation to set the color of a light.
    HueAndSaturation,
    /// Uses x and y coordinates in the color space to set the color of a light.
    ColorSpaceCoordinates,
}

impl ColorMode {
    /// The wire token of each variant.
    pub open spec fn spec_token(self) -> Seq<char> {
        match self {
            ColorMode::ColorTemperature => "ct"@,
            ColorMode::HueAndSaturation => "hs"@,
            ColorMode::ColorSpaceCoordinates => "xy"@,
        }
    }

    /// Encodes the variant as its wire token.
    pub fn token(&self) -> (r: String)
        ensures
            r@ == self.spec_token(),
    {
        match self {
            ColorMode::ColorTemperature => "ct".to_owned(),
            ColorMode::HueAndSaturation => "hs".to_owned(),
            ColorMode::ColorSpaceCoordinates => "xy".to_owned(),
        }
    }
}

impl WireToken for ColorMode {
    /// The variant that a wire token stands for; nothing for an unknown token.
    open spec fn spec_from_token(s: Seq<char>) -> Option<ColorMode> {
        if s == "ct"@ {
            Some(ColorMode::ColorTemperature)
        } else if s == "hs"@ {
            Some(ColorMode::HueAndSaturation)
        } else if s == "xy"@ {
            Some(ColorMode::ColorSpaceCoordinates)
        } else {
            None
        }
    }

    /// Decodes a wire token; the match is exact and case-sensitive.
    fn from_token(s: &str) -> (r: Option<ColorMode>)
    {
        if text_eq(s, "ct") {
            Some(ColorMode::ColorTemperature)
        } else if text_eq(s, "hs") {
            Some(ColorMode::HueAndSaturation)
        } else if text_eq(s, "xy") {
            Some(ColorMode::ColorSpaceCoordinates)
        } else {
            None
        }
    }
}

/// Each variant decodes back from its own token, and a token that decodes encodes back to
/// itself; a token outside the documented set does not decode.
pub proof fn lemma_color_mode_tokens(v: ColorMode, s: Seq<char>)
    ensures
        ColorMode::spec_from_token(v.spec_token()) == Some(v),
        ColorMode::spec_from_token(s) matches Some(w) ==> w.spec_token() == s,
        s != "ct"@ && s != "hs"@ && s != "xy"@ ==> ColorMode::spec_from_token(s) is None,
{
    reveal_strlit("ct");
    reveal_strlit("hs");
    reveal_strlit("xy");
    assert("ct"@[0] != "hs"@[0]);
    assert("ct"@[0] != "xy"@[0]);
    assert("hs"@[0] != "xy"@[0]);
}

/// Request method of an action.
#[derive(Clone, Copy, Debug, PartialEq, Eq, Structural)]
pub enum ActionRequestType {
    /// A PUT request.
    Put,
    /// A POST request.
    Post,
    /// A DELETE request.
    Delete,
}

impl ActionRequestType {
    /// The wire token of each variant.
    pub open spec fn spec_token(self) -> Seq<char> {
        match self {
            ActionRequestType::Put => "PUT"@,
            ActionRequestType::Post => "POST"@,
            ActionRequestType::Delete => "DELETE"@,
        }
    }

    /// Encodes the variant as its wire token.
    pub fn token(&self) -> (r: String)
        ensures
            r@ == self.spec_token(),
    {
        match self {
            ActionRequestType::Put => "PUT".to_owned(),
            ActionRequestType::Post => "POST".to_owned(),
            ActionRequestType::Delete => "DELETE".to_owned(),
        }
    }
}

impl WireToken for ActionRequestType {
    /// The variant that a wire token stands for; nothing for an unknown token.
    open spec fn spec_from_token(s: Seq<char>) -> Option<ActionRequestType> {
        if s == "PUT"@ {
            Some(ActionRequestType::Put)
        } else if s == "POST"@ {
            Some(ActionRequestType::Post)
        } else if s == "DELETE"@ {
            Some(ActionRequestType::Delete)
        } else {
            None
        }
    }

    /// Decodes a wire token; the match is exact and case-sensitive.
    fn from_token(s: &str) -> (r: Option<ActionRequestType>)
    {
        if text_eq(s, "PUT") {
            Some(ActionRequestType::Put)
        } else if text_eq(s, "POST") {
            Some(ActionRequestType::Post)
        } else if text_eq(s, "DELETE") {
            Some(ActionRequestType::Delete)
        } else {
            None
        }
    }
}

/// Each variant decodes back from its own token, and a token that decodes encodes back to
/// itself; a token outside the documented set does not decode.
pub proof fn lemma_action_request_type_tokens(v: ActionRequestType, s: Seq<char>)
    ensures
        ActionRequestType::spec_from_token(v.spec_token()) == Some(v),
        ActionRequestType::spec_from_token(s) matches Some(w) ==> w.spec_token() == s,
        s != "PUT"@ && s != "POST"@ && s != "DELETE"@ ==> ActionRequestType::spec_from_token(s) is None,
{
    reveal_strlit("PUT");
    reveal_strlit("POST");
    reveal_strlit("DELETE");
    assert("PUT"@.len() != "POST"@.len());
    assert("PUT"@.len() != "DELETE"@.len());
    assert("POST"@.len() != "DELETE"@.len());
}

/// Action of a schedule or a rule: a request that the bridge sends to one of its own
/// resources.
#[derive(Debug, PartialEq)]
pub struct Action {
    /// Address at which the action is executed.
    pub address: String,
    /// Method of the request.
    pub request_type: ActionRequestType,
    /// Body of the request: the members of a JSON object.
    pub body: Vec<(String, json::Json)>,
}

/// Whether `a` is the action that the payload `j` describes.
pub open spec fn action_matches(a: Action, j: json::Json) -> bool {
    &&& codec::req_text(j, "address"@) == Some(a.address@)
    &&& codec::req_token::<ActionRequestType>(j, "method"@) == Some(a.request_type)
    &&& json::field(j, "body"@) == Some(json::Json::Object(a.body))
}

impl Action {
    /// Decodes an action: its `address`, its request `method` and its `body`, an object.
    pub fn decode(j: json::Json) -> (r: Result<Action, codec::DecodeError>)
        ensures
            match r {
                Ok(a) => action_matches(a, j),
                Err(_) => forall|a: Action| !#[trigger] action_matches(a, j),
            },
    {
        let address = codec::text_field(&j, "address")?;
        let request_type = codec::token_field::<ActionRequestType>(&j, "method")?;
        match j {
            json::Json::Object(es) => match json::take_member(es, "body") {
                Some(json::Json::Object(body)) => Ok(Action { address, request_type, body }),
                Some(_) => Err(codec::DecodeError::invalid("body")),
                None => Err(codec::DecodeError::missing("body")),
            },
            _ => Err(codec::DecodeError::invalid("address")),
        }
    }
}

/// Type of a modifier.
#[derive(Clone, Copy, Debug, PartialEq, Eq, Structural)]
pub enum ModifierType {
    /// Override the current value with the given value.
    Override,
    /// Add the given value to the current value.
    Increment,
    /// Subtract the given value from the current value.
    Decrement,
}

/// Type of a modifier for coordinates.
#[derive(Clone, Copy, Debug, PartialEq, Eq, Structural)]
pub enum CoordinateModifierType {
    /// Override both current values with the given values.
    Override,
    /// Add the given values to the current values.
    Increment,
    /// Subtract the given values from the current values.
    Decrement,
    /// Add the first given value to the first coordinate and subtract the second given value
    /// from the second coordinate.
    IncrementDecrement,
    /// Subtract the first given value from the first coordinate and add the second given value
    /// to the second coordinate.
    DecrementIncrement,
}

/// The signed change that a modifier of the given type makes with the amount `v`: the amount
/// itself to add, its negation to subtract.
pub open spec fn delta(t: ModifierType, v: int) -> int {
    if t == ModifierType::Decrement {
        -v
    } else {
        v
    }
}

/// The signed changes that a coordinate modifier of the given type makes with the amounts
/// `x` and `y`.
pub open spec fn coordinate_delta(t: CoordinateModifierType, x: int, y: int) -> (int, int) {
    match t {
        CoordinateModifierType::Decrement => (-x, -y),
        CoordinateModifierType::IncrementDecrement => (x, -y),
        CoordinateModifierType::DecrementIncrement => (-x, y),
        _ => (x, y),
    }
}

/// A builder of a partial update: it holds the slots that the update changes.
pub trait Modifier: Sized {
    /// Whether no slot is set.
    spec fn spec_is_empty(&self) -> bool;

    /// A modifier that changes nothing.
    fn new() -> (r: Self)
        ensures
            r.spec_is_empty(),
    ;

    /// Whether the modifier changes nothing.
    fn is_empty(&self) -> (r: bool)
        ensures
            r == self.spec_is_empty(),
    ;
}

/// Marker for types that create resources on the bridge.
pub trait Creator {}

} // verus!
