//! Responses of the bridge to a request: an ordered list of outcomes, each a success or an
//! error that the bridge reports.
use crate::codec::{req_text, req_uint, text_field, uint_field, DecodeError};
use crate::json::{field, text_eq, Json};
use vstd::prelude::*;

verus! {

/// An error that the bridge reports for a request.
#[derive(Clone, Debug, PartialEq, Eq)]
pub struct ResponseError {
    /// Numeric type of the error.
    pub kind: u16,
    /// Address of the resource that the error concerns.
    pub address: String,
    /// Description of the error.
    pub description: String,
}

/// Whether `x` is what the payload `j` describes, member by member.
pub open spec fn response_error_matches(x: ResponseError, j: Json) -> bool {
    &&& req_uint(j, "type"@, 65535) == Some(x.kind as int)
    &&& req_text(j, "address"@) == Some(x.address@)
    &&& req_text(j, "description"@) == Some(x.description@)
}

impl ResponseError {
    /// Decodes the payload of an error outcome; it fails when any member is missing or malformed.
    pub fn decode(j: &Json) -> (r: Result<ResponseError, DecodeError>)
        ensures
            match r {
                Ok(x) => response_error_matches(x, *j),
                Err(_) => forall|x: ResponseError| !#[trigger] response_error_matches(x, *j),
            },
    {
        let kind = uint_field(j, "type", 65535)? as u16;
        let address = text_field(j, "address")?;
        let description = text_field(j, "description")?;
        Ok(ResponseError { kind, address, description })
    }
}

/// One outcome of a request.
#[derive(Debug, PartialEq)]
pub enum Response {
    /// The request succeeded: each entry maps the path of a changed attribute to its new value.
    Success(Vec<(String, Json)>),
    /// The bridge reports an error.
    Error(ResponseError),
}

/// Whether `r` is the outcome that the entry `j` of a response describes: an object with the
/// single key `success`, whose value is an object, or `error`.
pub open spec fn response_matches(r: Response, j: Json) -> bool {
    match j {
        Json::Object(es) => es@.len() == 1 && match r {
            Response::Success(m) => es@[0].0@ == "success"@ && es@[0].1 == Json::Object(m),
            Response::Error(e) => es@[0].0@ == "error"@ && response_error_matches(e, es@[0].1),
        },
        _ => false,
    }
}

/// Whether `rs` are, in order, the outcomes that the entries `v` describe.
pub open spec fn responses_match(rs: Seq<Response>, v: Seq<Json>) -> bool {
    &&& rs.len() == v.len()
    &&& forall|i: int| #![trigger rs[i]] 0 <= i < rs.len() ==> response_matches(rs[i], v[i])
}

impl Response {
    /// Decodes one outcome.
    pub fn decode(j: Json) -> (r: Result<Response, DecodeError>)
        ensures
            match r {
                Ok(x) => response_matches(x, j),
                Err(_) => forall|x: Response| !#[trigger] response_matches(x, j),
            },
    {
        let ghost j0 = j;
        match j {
            Json::Object(mut es) => {
                if es.len() != 1 {
                    return Err(DecodeError::invalid("success"));
                }
                let (key, value) = es.remove(0);
                if text_eq(key.as_str(), "success") {
                    match value {
                        Json::Object(m) => Ok(Response::Success(m)),
                        _ => Err(DecodeError::invalid("success")),
                    }
                } else if text_eq(key.as_str(), "error") {
                    match ResponseError::decode(&value) {
                        Ok(e) => Ok(Response::Error(e)),
                        Err(e) => Err(e),
                    }
                } else {
                    proof {
                        reveal_strlit("success");
                        reveal_strlit("error");
                    }
                    Err(DecodeError::invalid("success"))
                }
            },
            _ => Err(DecodeError::invalid("success")),
        }
    }
}

/// Decodes the bridge's response to a request: an array of outcomes, kept in order. One
/// malformed outcome fails the whole response.
pub fn decode_responses(j: Json) -> (r: Result<Vec<Response>, DecodeError>)
    ensures
        match r {
            Ok(rs) => j matches Json::Array(v) && responses_match(rs@, v@),
            Err(_) => match j {
                Json::Array(v) => forall|rs: Seq<Response>| !#[trigger] responses_match(rs, v@),
                _ => true,
            },
        },
{
    match j {
        Json::Array(v) => {
            let ghost all = v@;
            let mut rest = v;
            let mut rs: Vec<Response> = Vec::new();
            assert(all.skip(0) =~= all);
            while rest.len() > 0
                invariant
                    j matches Json::Array(v0) && v0@ == all,
                    rs@.len() + rest@.len() == all.len(),
                    rest@ == all.skip(rs@.len() as int),
                    forall|k: int| #![trigger rs@[k]] 0 <= k < rs@.len() ==> response_matches(rs@[k], all[k]),
                decreases rest@.len(),
            {
                let item = rest.remove(0);
                let ghost n = rs@.len() as int;
                assert(item == all[n]);
                match Response::decode(item) {
                    Ok(x) => {
                        let ghost before = rs@;
                        rs.push(x);
                        assert(rest@ =~= all.skip(rs@.len() as int));
                        assert forall|k: int| #![trigger rs@[k]] 0 <= k < rs@.len() implies response_matches(rs@[k], all[k]) by {
                            if k < n {
                                assert(rs@[k] == before[k]);
                            }
                        }
                    },
                    Err(e) => {
                        assert forall|xs: Seq<Response>| !#[trigger] responses_match(xs, all) by {
                            if responses_match(xs, all) {
                                assert(response_matches(xs[n], all[n]));
                            }
                        }
                        return Err(e);
                    },
                }
            }
            assert(rs@.len() == all.len());
            Ok(rs)
        },
        _ => Err(DecodeError::invalid("")),
    }
}

} // verus!
