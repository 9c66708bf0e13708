//! The market clock and its endpoint.

use vstd::prelude::*;

use crate::error::DecodeError;
use crate::json::JsonValue;
use crate::request::Method;
use crate::temporal::Timestamp;

verus! {

use vstd::string::StringExecFns;

/// The market clock.
#[derive(Clone, Copy, Debug, PartialEq, Eq, Structural)]
pub struct Clock {
    /// The current instant.
    pub timestamp: Timestamp,
    /// Whether the market is open.
    pub is_open: bool,
    /// The next market open.
    pub next_open: Timestamp,
    /// The next market close.
    pub next_close: Timestamp,
}

/// Whether a clock payload decodes.
pub open spec fn spec_clock_ok(fields: Seq<(String, JsonValue)>) -> bool {
    &&& crate::codec::timestamp_field(fields, "timestamp"@) is Some
    &&& crate::codec::bool_field(fields, "is_open"@) is Some
    &&& crate::codec::timestamp_field(fields, "next_open"@) is Some
    &&& crate::codec::timestamp_field(fields, "next_close"@) is Some
}

/// What each decoded clock field holds.
pub open spec fn spec_clock_matches(fields: Seq<(String, JsonValue)>, c: Clock) -> bool {
    &&& crate::codec::timestamp_field(fields, "timestamp"@) == Some(c.timestamp)
    &&& crate::codec::bool_field(fields, "is_open"@) == Some(c.is_open)
    &&& crate::codec::timestamp_field(fields, "next_open"@) == Some(c.next_open)
    &&& crate::codec::timestamp_field(fields, "next_close"@) == Some(c.next_close)
}

/// Decodes a clock payload.
pub fn decode_clock(v: &JsonValue) -> (r: Result<Clock, DecodeError>)
    ensures
        r is Ok <==> (v matches JsonValue::Obj(fields) && spec_clock_ok(fields@)),
        r matches Ok(c) ==> (v matches JsonValue::Obj(fields) && spec_clock_matches(fields@, c)),
{
    let fields = match v {
        JsonValue::Obj(fields) => fields,
        _ => {
            return Err(
                DecodeError { field: String::from_str("clock"), value: crate::json::raw_token(v) },
            );
        },
    };
    let timestamp = crate::codec::req_timestamp(fields, "timestamp")?;
    let is_open = crate::codec::req_bool(fields, "is_open")?;
    let next_open = crate::codec::req_timestamp(fields, "next_open")?;
    let next_close = crate::codec::req_timestamp(fields, "next_close")?;
    Ok(Clock { timestamp, is_open, next_open, next_close })
}

/// Returns the market clock.
#[derive(Clone, Copy, Debug, PartialEq, Eq, Structural)]
pub struct GetClock;

impl GetClock {
    /// The path of the clock endpoint.
    pub fn endpoint(&self) -> (r: String)
        ensures
            r@ == "/v2/clock"@,
    {
        String::from_str("/v2/clock")
    }

    /// The method of the clock endpoint.
    pub fn method(&self) -> (r: Method)
        ensures
            r == Method::Get,
    {
        Method::Get
    }
}

} // verus!
