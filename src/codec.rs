//! Readers for the members of a JSON object, including the bridge's sentinel string for an
//! absent value and its date and time formats.
use crate::json::{field, text_eq, Json};
use chrono::{Datelike, Timelike};
use vstd::prelude::*;

verus! {

/// What went wrong while decoding a payload.
#[derive(Clone, Copy, Debug, PartialEq, Eq, Structural)]
pub enum DecodeErrorKind {
    /// A required member is not there.
    MissingField,
    /// A member holds a value of the wrong shape, an unknown token or a malformed date or time.
    InvalidValue,
}

/// A decoding error and the member that caused it.
#[derive(Clone, Debug, PartialEq, Eq)]
pub struct DecodeError {
    /// What went wrong.
    pub kind: DecodeErrorKind,
    /// Name of the offending member.
    pub field: String,
}

impl DecodeError {
    /// A required member `key` is missing.
    pub fn missing(key: &str) -> (r: DecodeError)
        ensures
            r.kind == DecodeErrorKind::MissingField,
            r.field@ == key@,
    {
        DecodeError { kind: DecodeErrorKind::MissingField, field: key.to_owned() }
    }

    /// The member `key` holds a value that cannot be decoded.
    pub fn invalid(key: &str) -> (r: DecodeError)
        ensures
            r.kind == DecodeErrorKind::InvalidValue,
            r.field@ == key@,
    {
        DecodeError { kind: DecodeErrorKind::InvalidValue, field: key.to_owned() }
    }
}

/// The error that reading member `key` of `j` gives: it names the member, and it is a
/// missing-field error exactly when the member is not there.
pub open spec fn is_field_error(e: DecodeError, j: Json, key: Seq<char>) -> bool {
    &&& e.field@ == key
    &&& (e.kind == DecodeErrorKind::MissingField <==> field(j, key) is None)
}

/// The sentinel string that stands for an absent value.
pub open spec fn sentinel() -> Seq<char> {
    "none"@
}

pub open spec fn text_of(j: Json) -> Option<Seq<char>> {
    match j {
        Json::Text(s) => Some(s@),
        _ => None,
    }
}

pub open spec fn bool_of(j: Json) -> Option<bool> {
    match j {
        Json::Bool(b) => Some(b),
        _ => None,
    }
}

/// An integer in `0..=max`.
pub open spec fn uint_of(j: Json, max: int) -> Option<int> {
    match j {
        Json::Int(i) => if 0 <= i <= max {
            Some(i as int)
        } else {
            None
        },
        _ => None,
    }
}

/// A member that is not there or is `null`.
pub open spec fn is_absent(o: Option<Json>) -> bool {
    o is None || o == Some(Json::Null)
}

/// A required string member.
pub open spec fn req_text(j: Json, key: Seq<char>) -> Option<Seq<char>> {
    match field(j, key) {
        Some(v) => text_of(v),
        None => None,
    }
}

/// An optional string member: the outer `None` means that it cannot be decoded.
pub open spec fn opt_text(j: Json, key: Seq<char>) -> Option<Option<Seq<char>>> {
    if is_absent(field(j, key)) {
        Some(None)
    } else {
        match text_of(field(j, key)->0) {
            Some(s) => Some(Some(s)),
            None => None,
        }
    }
}

/// A required boolean member.
pub open spec fn req_bool(j: Json, key: Seq<char>) -> Option<bool> {
    match field(j, key) {
        Some(v) => bool_of(v),
        None => None,
    }
}

/// An optional boolean member.
pub open spec fn opt_bool(j: Json, key: Seq<char>) -> Option<Option<bool>> {
    if is_absent(field(j, key)) {
        Some(None)
    } else {
        match bool_of(field(j, key)->0) {
            Some(b) => Some(Some(b)),
            None => None,
        }
    }
}

/// A required integer member in `0..=max`.
pub open spec fn req_uint(j: Json, key: Seq<char>, max: int) -> Option<int> {
    match field(j, key) {
        Some(v) => uint_of(v, max),
        None => None,
    }
}

/// An optional integer member in `0..=max`.
pub open spec fn opt_uint(j: Json, key: Seq<char>, max: int) -> Option<Option<int>> {
    if is_absent(field(j, key)) {
        Some(None)
    } else {
        match uint_of(field(j, key)->0, max) {
            Some(i) => Some(Some(i)),
            None => None,
        }
    }
}

/// A required string member in which the sentinel stands for an absent value.
pub open spec fn sentinel_text(j: Json, key: Seq<char>) -> Option<Option<Seq<char>>> {
    match req_text(j, key) {
        Some(s) => if s == sentinel() {
            Some(None)
        } else {
            Some(Some(s))
        },
        None => None,
    }
}

pub open spec fn opt_string_view(o: Option<String>) -> Option<Seq<char>> {
    match o {
        Some(s) => Some(s@),
        None => None,
    }
}

/// Reads the required string member `key`.
pub fn text_field(j: &Json, key: &str) -> (r: Result<String, DecodeError>)
    ensures
        match r {
            Ok(s) => req_text(*j, key@) == Some(s@),
            Err(e) => req_text(*j, key@) is None && is_field_error(e, *j, key@),
        },
{
    match j.get(key) {
        Some(Json::Text(s)) => Ok(s.clone()),
        Some(_) => Err(DecodeError::invalid(key)),
        None => Err(DecodeError::missing(key)),
    }
}

/// Reads the optional string member `key`; `null` counts as absent.
pub fn opt_text_field(j: &Json, key: &str) -> (r: Result<Option<String>, DecodeError>)
    ensures
        match r {
            Ok(s) => opt_text(*j, key@) == Some(opt_string_view(s)),
            Err(e) => opt_text(*j, key@) is None && is_field_error(e, *j, key@),
        },
{
    match j.get(key) {
        Some(Json::Text(s)) => Ok(Some(s.clone())),
        Some(Json::Null) => Ok(None),
        Some(_) => Err(DecodeError::invalid(key)),
        None => Ok(None),
    }
}

/// Reads the required boolean member `key`.
pub fn bool_field(j: &Json, key: &str) -> (r: Result<bool, DecodeError>)
    ensures
        match r {
            Ok(b) => req_bool(*j, key@) == Some(b),
            Err(e) => req_bool(*j, key@) is None && is_field_error(e, *j, key@),
        },
{
    match j.get(key) {
        Some(Json::Bool(b)) => Ok(*b),
        Some(_) => Err(DecodeError::invalid(key)),
        None => Err(DecodeError::missing(key)),
    }
}

/// Reads the optional boolean member `key`; `null` counts as absent.
pub fn opt_bool_field(j: &Json, key: &str) -> (r: Result<Option<bool>, DecodeError>)
    ensures
        match r {
            Ok(b) => opt_bool(*j, key@) == Some(b),
            Err(e) => opt_bool(*j, key@) is None && is_field_error(e, *j, key@),
        },
{
    match j.get(key) {
        Some(Json::Bool(b)) => Ok(Some(*b)),
        Some(Json::Null) => Ok(None),
        Some(_) => Err(DecodeError::invalid(key)),
        None => Ok(None),
    }
}

/// Reads the required integer member `key`, which must lie in `0..=max`.
pub fn uint_field(j: &Json, key: &str, max: u64) -> (r: Result<u64, DecodeError>)
    ensures
        match r {
            Ok(i) => req_uint(*j, key@, max as int) == Some(i as int),
            Err(e) => req_uint(*j, key@, max as int) is None && is_field_error(e, *j, key@),
        },
{
    match j.get(key) {
        Some(Json::Int(i)) => if 0 <= *i && *i as u64 <= max {
            Ok(*i as u64)
        } else {
            Err(DecodeError::invalid(key))
        },
        Some(_) => Err(DecodeError::invalid(key)),
        None => Err(DecodeError::missing(key)),
    }
}

/// Reads the optional integer member `key`, which must lie in `0..=max`.
pub fn opt_uint_field(j: &Json, key: &str, max: u64) -> (r: Result<Option<u64>, DecodeError>)
    ensures
        match r {
            Ok(Some(i)) => opt_uint(*j, key@, max as int) == Some(Some(i as int)),
            Ok(None) => opt_uint(*j, key@, max as int) == Some(None::<int>),
            Err(e) => opt_uint(*j, key@, max as int) is None && is_field_error(e, *j, key@),
        },
{
    match j.get(key) {
        Some(Json::Int(i)) => if 0 <= *i && *i as u64 <= max {
            Ok(Some(*i as u64))
        } else {
            Err(DecodeError::invalid(key))
        },
        Some(Json::Null) => Ok(None),
        Some(_) => Err(DecodeError::invalid(key)),
        None => Ok(None),
    }
}

/// Reads the required string member `key`, in which the sentinel `"none"` stands for an
/// absent value.
pub fn sentinel_text_field(j: &Json, key: &str) -> (r: Result<Option<String>, DecodeError>)
    ensures
        match r {
            Ok(s) => sentinel_text(*j, key@) == Some(opt_string_view(s)),
            Err(e) => sentinel_text(*j, key@) is None && is_field_error(e, *j, key@),
        },
{
    let s = text_field(j, key)?;
    if text_eq(s.as_str(), "none") {
        Ok(None)
    } else {
        Ok(Some(s))
    }
}

/// A calendar date and a time of day, without a time zone.
#[derive(Clone, Copy, Debug, PartialEq, Eq, Structural)]
pub struct DateTime {
    pub year: i32,
    pub month: u32,
    pub day: u32,
    pub hour: u32,
    pub minute: u32,
    pub second: u32,
}

/// A time of day.
#[derive(Clone, Copy, Debug, PartialEq, Eq, Structural)]
pub struct Time {
    pub hour: u32,
    pub minute: u32,
    pub second: u32,
}

/// Year, month, day, hour, minute and second that chrono reads from `s` with the format
/// `fmt`, when it accepts `s`.
pub uninterp spec fn chrono_date_time(s: Seq<char>, fmt: Seq<char>) -> Option<(i32, u32, u32, u32, u32, u32)>;

/// Hour, minute and second that chrono reads from `s` with the format `fmt`, when it
/// accepts `s`.
pub uninterp spec fn chrono_time(s: Seq<char>, fmt: Seq<char>) -> Option<(u32, u32, u32)>;

/// Relies on `chrono::NaiveDateTime::parse_from_str`: whether it accepts `s`, and the
/// date and time that it reads, depend on `s` and `fmt` alone.
#[verifier::external_body]
fn parse_date_time_parts(s: &str, fmt: &str) -> (r: Option<(i32, u32, u32, u32, u32, u32)>)
    ensures
        r == chrono_date_time(s@, fmt@),
{
    match chrono::NaiveDateTime::parse_from_str(s, fmt) {
        Ok(d) => Some((d.year(), d.month(), d.day(), d.hour(), d.minute(), d.second())),
        Err(_) => None,
    }
}

/// Relies on `chrono::NaiveTime::parse_from_str`: whether it accepts `s`, and the time that
/// it reads, depend on `s` and `fmt` alone.
#[verifier::external_body]
fn parse_time_parts(s: &str, fmt: &str) -> (r: Option<(u32, u32, u32)>)
    ensures
        r == chrono_time(s@, fmt@),
{
    match chrono::NaiveTime::parse_from_str(s, fmt) {
        Ok(t) => Some((t.hour(), t.minute(), t.second())),
        Err(_) => None,
    }
}

/// The date and time that the text `s` stands for in the bridge's `YYYY-MM-DDTHH:MM:SS`
/// format.
pub open spec fn date_time_of(s: Seq<char>) -> Option<DateTime> {
    match chrono_date_time(s, "%Y-%m-%dT%H:%M:%S"@) {
        Some(p) => Some(
            DateTime { year: p.0, month: p.1, day: p.2, hour: p.3, minute: p.4, second: p.5 },
        ),
        None => None,
    }
}

/// The time of day that the text `s` stands for in the bridge's `THH:MM:SS` format.
pub open spec fn time_of(s: Seq<char>) -> Option<Time> {
    match chrono_time(s, "T%H:%M:%S"@) {
        Some(p) => Some(Time { hour: p.0, minute: p.1, second: p.2 }),
        None => None,
    }
}

impl DateTime {
    /// Parses a date and time in the format `YYYY-MM-DDTHH:MM:SS`.
    pub fn parse(s: &str) -> (r: Option<DateTime>)
        ensures
            r == date_time_of(s@),
    {
        match parse_date_time_parts(s, "%Y-%m-%dT%H:%M:%S") {
            Some(p) => Some(
                DateTime { year: p.0, month: p.1, day: p.2, hour: p.3, minute: p.4, second: p.5 },
            ),
            None => None,
        }
    }
}

impl Time {
    /// Parses a time of day in the format `THH:MM:SS`.
    pub fn parse(s: &str) -> (r: Option<Time>)
        ensures
            r == time_of(s@),
    {
        match parse_time_parts(s, "T%H:%M:%S") {
            Some(p) => Some(Time { hour: p.0, minute: p.1, second: p.2 }),
            None => None,
        }
    }
}

/// A required date-time member.
pub open spec fn req_date_time(j: Json, key: Seq<char>) -> Option<DateTime> {
    match req_text(j, key) {
        Some(s) => date_time_of(s),
        None => None,
    }
}

/// An optional date-time member: absent or `null` gives nothing.
pub open spec fn opt_date_time(j: Json, key: Seq<char>) -> Option<Option<DateTime>> {
    if is_absent(field(j, key)) {
        Some(None)
    } else {
        match text_of(field(j, key)->0) {
            Some(s) => match date_time_of(s) {
                Some(d) => Some(Some(d)),
                None => None,
            },
            None => None,
        }
    }
}

/// A required date-time member in which the sentinel stands for an absent value.
pub open spec fn sentinel_date_time(j: Json, key: Seq<char>) -> Option<Option<DateTime>> {
    match req_text(j, key) {
        Some(s) => if s == sentinel() {
            Some(None)
        } else {
            match date_time_of(s) {
                Some(d) => Some(Some(d)),
                None => None,
            }
        },
        None => None,
    }
}

/// A required time member in which the sentinel stands for an absent value.
pub open spec fn sentinel_time(j: Json, key: Seq<char>) -> Option<Option<Time>> {
    match req_text(j, key) {
        Some(s) => if s == sentinel() {
            Some(None)
        } else {
            match time_of(s) {
                Some(t) => Some(Some(t)),
                None => None,
            }
        },
        None => None,
    }
}

/// Reads the required date-time member `key`.
pub fn date_time_field(j: &Json, key: &str) -> (r: Result<DateTime, DecodeError>)
    ensures
        match r {
            Ok(d) => req_date_time(*j, key@) == Some(d),
            Err(e) => req_date_time(*j, key@) is None && is_field_error(e, *j, key@),
        },
{
    let s = text_field(j, key)?;
    match DateTime::parse(s.as_str()) {
        Some(d) => Ok(d),
        None => Err(DecodeError::invalid(key)),
    }
}

/// Reads the optional date-time member `key`; `null` counts as absent.
pub fn opt_date_time_field(j: &Json, key: &str) -> (r: Result<Option<DateTime>, DecodeError>)
    ensures
        match r {
            Ok(d) => opt_date_time(*j, key@) == Some(d),
            Err(e) => opt_date_time(*j, key@) is None && is_field_error(e, *j, key@),
        },
{
    match opt_text_field(j, key)? {
        Some(s) => match DateTime::parse(s.as_str()) {
            Some(d) => Ok(Some(d)),
            None => Err(DecodeError::invalid(key)),
        },
        None => Ok(None),
    }
}

/// Reads the required date-time member `key`, in which `"none"` stands for an absent value;
/// any other text must be a well-formed date and time.
pub fn sentinel_date_time_field(j: &Json, key: &str) -> (r: Result<Option<DateTime>, DecodeError>)
    ensures
        match r {
            Ok(d) => sentinel_date_time(*j, key@) == Some(d),
            Err(e) => sentinel_date_time(*j, key@) is None && is_field_error(e, *j, key@),
        },
{
    match sentinel_text_field(j, key)? {
        Some(s) => match DateTime::parse(s.as_str()) {
            Some(d) => Ok(Some(d)),
            None => Err(DecodeError::invalid(key)),
        },
        None => Ok(None),
    }
}

/// Reads the required time member `key`, in which `"none"` stands for an absent value; any
/// other text must be a well-formed time.
pub fn sentinel_time_field(j: &Json, key: &str) -> (r: Result<Option<Time>, DecodeError>)
    ensures
        match r {
            Ok(t) => sentinel_time(*j, key@) == Some(t),
            Err(e) => sentinel_time(*j, key@) is None && is_field_error(e, *j, key@),
        },
{
    match sentinel_text_field(j, key)? {
        Some(s) => match Time::parse(s.as_str()) {
            Some(t) => Ok(Some(t)),
            None => Err(DecodeError::invalid(key)),
        },
        None => Ok(None),
    }
}

/// The sentinel law: the sentinel string decodes to an absent value, and any other text in a
/// date-time or time member decodes only when it is well-formed, never to an absent value.
pub proof fn lemma_sentinel(j: Json, key: Seq<char>, s: Seq<char>)
    ensures
        req_text(j, key) == Some(sentinel()) ==> sentinel_text(j, key) == Some(None::<Seq<char>>)
            && sentinel_date_time(j, key) == Some(None::<DateTime>)
            && sentinel_time(j, key) == Some(None::<Time>),
        req_text(j, key) == Some(s) && s != sentinel() ==> {
            &&& sentinel_text(j, key) == Some(Some(s))
            &&& (date_time_of(s) is None ==> sentinel_date_time(j, key) is None)
            &&& (date_time_of(s) matches Some(d) ==> sentinel_date_time(j, key) == Some(Some(d)))
            &&& (time_of(s) is None ==> sentinel_time(j, key) is None)
            &&& (time_of(s) matches Some(t) ==> sentinel_time(j, key) == Some(Some(t)))
        },
{
}

/// A closed set of variants, each written on the wire as an exact token.
pub trait WireToken: Sized {
    /// The variant that a token stands for; nothing for an unknown token.
    spec fn spec_from_token(s: Seq<char>) -> Option<Self>;

    /// Decodes a token; the match is exact and case-sensitive.
    fn from_token(s: &str) -> (r: Option<Self>)
        ensures
            r == Self::spec_from_token(s@),
    ;
}

/// A required member that holds a token.
pub open spec fn req_token<T: WireToken>(j: Json, key: Seq<char>) -> Option<T> {
    match req_text(j, key) {
        Some(s) => T::spec_from_token(s),
        None => None,
    }
}

/// An optional member that holds a token.
pub open spec fn opt_token<T: WireToken>(j: Json, key: Seq<char>) -> Option<Option<T>> {
    match opt_text(j, key) {
        Some(Some(s)) => match T::spec_from_token(s) {
            Some(v) => Some(Some(v)),
            None => None,
        },
        Some(None) => Some(None),
        None => None,
    }
}

/// Reads the required member `key`, which holds a token.
pub fn token_field<T: WireToken>(j: &Json, key: &str) -> (r: Result<T, DecodeError>)
    ensures
        match r {
            Ok(v) => req_token::<T>(*j, key@) == Some(v),
            Err(e) => req_token::<T>(*j, key@) is None && is_field_error(e, *j, key@),
        },
{
    let s = text_field(j, key)?;
    match T::from_token(s.as_str()) {
        Some(v) => Ok(v),
        None => Err(DecodeError::invalid(key)),
    }
}

/// Reads the optional member `key`, which holds a token; `null` counts as absent.
pub fn opt_token_field<T: WireToken>(j: &Json, key: &str) -> (r: Result<Option<T>, DecodeError>)
    ensures
        match r {
            Ok(v) => opt_token::<T>(*j, key@) == Some(v),
            Err(e) => opt_token::<T>(*j, key@) is None && is_field_error(e, *j, key@),
        },
{
    match opt_text_field(j, key)? {
        Some(s) => match T::from_token(s.as_str()) {
            Some(v) => Ok(Some(v)),
            None => Err(DecodeError::invalid(key)),
        },
        None => Ok(None),
    }
}

/// A coordinate in the color space, in ten-thousandths: a number between 0 and 1.
pub open spec fn coordinate_of(j: Json) -> Option<u16> {
    match j {
        Json::Decimal(d) => if 0 <= d <= 10000 {
            Some(d as u16)
        } else {
            None
        },
        Json::Int(i) => if 0 <= i <= 1 {
            Some((i * 10000) as u16)
        } else {
            None
        },
        _ => None,
    }
}

/// A pair of coordinates, written as an array of two numbers.
pub open spec fn pair_of(j: Json) -> Option<(u16, u16)> {
    match j {
        Json::Array(v) => if v@.len() == 2 && coordinate_of(v@[0]) is Some && coordinate_of(
            v@[1],
        ) is Some {
            Some((coordinate_of(v@[0])->0, coordinate_of(v@[1])->0))
        } else {
            None
        },
        _ => None,
    }
}

/// An optional member that holds a pair of coordinates.
pub open spec fn opt_pair(j: Json, key: Seq<char>) -> Option<Option<(u16, u16)>> {
    if is_absent(field(j, key)) {
        Some(None)
    } else {
        match pair_of(field(j, key)->0) {
            Some(p) => Some(Some(p)),
            None => None,
        }
    }
}

/// Reads a coordinate.
pub fn coordinate(j: &Json) -> (r: Option<u16>)
    ensures
        r == coordinate_of(*j),
{
    match j {
        Json::Decimal(d) => if 0 <= *d && *d <= 10000 {
            Some(*d as u16)
        } else {
            None
        },
        Json::Int(i) => if 0 <= *i && *i <= 1 {
            Some((*i * 10000) as u16)
        } else {
            None
        },
        _ => None,
    }
}

/// Reads a pair of coordinates.
pub fn pair(j: &Json) -> (r: Option<(u16, u16)>)
    ensures
        r == pair_of(*j),
{
    match j {
        Json::Array(v) => if v.len() == 2 {
            match (coordinate(&v[0]), coordinate(&v[1])) {
                (Some(x), Some(y)) => Some((x, y)),
                _ => None,
            }
        } else {
            None
        },
        _ => None,
    }
}

/// Reads the optional member `key`, which holds a pair of coordinates.
pub fn opt_pair_field(j: &Json, key: &str) -> (r: Result<Option<(u16, u16)>, DecodeError>)
    ensures
        match r {
            Ok(p) => opt_pair(*j, key@) == Some(p),
            Err(e) => opt_pair(*j, key@) is None && is_field_error(e, *j, key@),
        },
{
    match j.get(key) {
        None => Ok(None),
        Some(Json::Null) => Ok(None),
        Some(v) => match pair(v) {
            Some(p) => Ok(Some(p)),
            None => Err(DecodeError::invalid(key)),
        },
    }
}

/// The value of the required member `key`, which holds a nested record.
pub fn record_field<'a>(j: &'a Json, key: &str) -> (r: Result<&'a Json, DecodeError>)
    ensures
        match r {
            Ok(v) => field(*j, key@) == Some(*v),
            Err(e) => field(*j, key@) is None && is_field_error(e, *j, key@),
        },
{
    match j.get(key) {
        Some(v) => Ok(v),
        None => Err(DecodeError::missing(key)),
    }
}

/// An optional member that holds an array of coordinate pairs.
pub open spec fn opt_gamut(j: Json, key: Seq<char>) -> Option<Option<Seq<(u16, u16)>>> {
    if is_absent(field(j, key)) {
        Some(None)
    } else {
        match field(j, key)->0 {
            Json::Array(v) => if forall|i: int| 0 <= i < v@.len() ==> (#[trigger] pair_of(v@[i])) is Some {
                Some(Some(Seq::new(v@.len(), |i: int| pair_of(v@[i])->0)))
            } else {
                None
            },
            _ => None,
        }
    }
}

/// Reads the optional member `key`, which holds an array of coordinate pairs.
pub fn opt_gamut_field(j: &Json, key: &str) -> (r: Result<Option<Vec<(u16, u16)>>, DecodeError>)
    ensures
        match r {
            Ok(Some(g)) => opt_gamut(*j, key@) == Some(Some(g@)),
            Ok(None) => opt_gamut(*j, key@) == Some(None::<Seq<(u16, u16)>>),
            Err(e) => opt_gamut(*j, key@) is None && is_field_error(e, *j, key@),
        },
{
    match j.get(key) {
        None => Ok(None),
        Some(Json::Null) => Ok(None),
        Some(Json::Array(v)) => {
            let mut g: Vec<(u16, u16)> = Vec::new();
            let mut i: usize = 0;
            while i < v.len()
                invariant
                    field(*j, key@) == Some(Json::Array(*v)),
                    i <= v@.len(),
                    g@.len() == i,
                    forall|k: int| 0 <= k < i ==> pair_of(v@[k]) == Some(#[trigger] g@[k]),
                decreases v@.len() - i,
            {
                match pair(&v[i]) {
                    Some(p) => g.push(p),
                    None => {
                        assert(pair_of(v@[i as int]) is None);
                        return Err(DecodeError::invalid(key));
                    },
                }
                i += 1;
            }
            assert forall|k: int| 0 <= k < v@.len() implies (#[trigger] pair_of(v@[k])) is Some by {
                assert(pair_of(v@[k]) == Some(g@[k]));
            }
            assert(g@ =~= Seq::new(v@.len(), |k: int| pair_of(v@[k])->0));
            Ok(Some(g))
        },
        Some(_) => Err(DecodeError::invalid(key)),
    }
}

} // verus!
