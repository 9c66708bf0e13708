//! Field-level decode helpers.
//!
//! Each helper reads one field of a response object under one profile:
//! required or optional, strict-string or lenient for numbers, and the
//! temporal formats.  A failure names the field and the raw token that
//! stood there (empty when the field was absent).

use vstd::prelude::*;

use crate::decimal::{spec_parse_decimal, Decimal};
use crate::error::DecodeError;
use crate::json::{spec_get, JsonValue};
use crate::temporal::{rfc3339_of, Timestamp};

verus! {

use vstd::string::StringExecFns;

use crate::json::spec_raw_token;

/// The token reported when a field fails: what stood there, or empty
/// when the field was absent.
pub open spec fn spec_err_token(fields: Seq<(String, JsonValue)>, key: Seq<char>) -> Seq<char> {
    match spec_get(fields, key) {
        Some(v) => spec_raw_token(v),
        None => Seq::<char>::empty(),
    }
}

/// A decode error naming `key` and the raw token under it.
fn field_error(fields: &Vec<(String, JsonValue)>, key: &str) -> (r: DecodeError)
    ensures
        r.field@ == key@,
        r.value@ == spec_err_token(fields@, key@),
{
    let value = match crate::json::obj_get(fields, key) {
        Some(v) => crate::json::raw_token(v),
        None => String::new(),
    };
    DecodeError { field: String::from_str(key), value }
}

/// A required string field.
pub open spec fn str_field(fields: Seq<(String, JsonValue)>, key: Seq<char>) -> Option<
    Seq<char>,
> {
    match spec_get(fields, key) {
        Some(JsonValue::Str(t)) => Some(t@),
        _ => None,
    }
}

/// Reads a required string field.
pub fn req_str(fields: &Vec<(String, JsonValue)>, key: &str) -> (r: Result<String, DecodeError>)
    ensures
        r matches Ok(s) ==> str_field(fields@, key@) == Some(s@),
        r is Ok <==> str_field(fields@, key@) is Some,
        r matches Err(e) ==> e.field@ == key@ && e.value@ == spec_err_token(fields@, key@),
{
    match crate::json::obj_get(fields, key) {
        Some(JsonValue::Str(t)) => Ok(t.clone()),
        _ => Err(field_error(fields, key)),
    }
}

/// An optional string field: absent or `null` reads as nothing.
pub open spec fn opt_str_field(fields: Seq<(String, JsonValue)>, key: Seq<char>) -> Option<
    Option<Seq<char>>,
> {
    match spec_get(fields, key) {
        Some(JsonValue::Str(t)) => Some(Some(t@)),
        Some(JsonValue::Null) => Some(None),
        None => Some(None),
        _ => None,
    }
}

/// Reads an optional string field.
pub fn opt_str(fields: &Vec<(String, JsonValue)>, key: &str) -> (r: Result<
    Option<String>,
    DecodeError,
>)
    ensures
        r matches Ok(s) ==> opt_str_field(fields@, key@) == Some(
            match s {
                Some(t) => Some(t@),
                None => None::<Seq<char>>,
            },
        ),
        r is Ok <==> opt_str_field(fields@, key@) is Some,
        r matches Err(e) ==> e.field@ == key@ && e.value@ == spec_err_token(fields@, key@),
{
    match crate::json::obj_get(fields, key) {
        Some(JsonValue::Str(t)) => Ok(Some(t.clone())),
        Some(JsonValue::Null) => Ok(None),
        None => Ok(None),
        _ => Err(field_error(fields, key)),
    }
}

/// A required boolean field.
pub open spec fn bool_field(fields: Seq<(String, JsonValue)>, key: Seq<char>) -> Option<bool> {
    match spec_get(fields, key) {
        Some(JsonValue::Bool(b)) => Some(b),
        _ => None,
    }
}

/// Reads a required boolean field.
pub fn req_bool(fields: &Vec<(String, JsonValue)>, key: &str) -> (r: Result<bool, DecodeError>)
    ensures
        r matches Ok(b) ==> bool_field(fields@, key@) == Some(b),
        r is Ok <==> bool_field(fields@, key@) is Some,
        r matches Err(e) ==> e.field@ == key@ && e.value@ == spec_err_token(fields@, key@),
{
    match crate::json::obj_get(fields, key) {
        Some(JsonValue::Bool(b)) => Ok(*b),
        _ => Err(field_error(fields, key)),
    }
}

/// A decimal field under the lenient profile: a string token or a bare
/// number token, read exactly.
pub open spec fn lenient_decimal_field(
    fields: Seq<(String, JsonValue)>,
    key: Seq<char>,
) -> Option<Decimal> {
    match spec_get(fields, key) {
        Some(JsonValue::Str(t)) => spec_parse_decimal(t@),
        Some(JsonValue::Num(t)) => spec_parse_decimal(t@),
        _ => None,
    }
}

/// Reads a required decimal field under the lenient profile.
pub fn req_decimal_lenient(fields: &Vec<(String, JsonValue)>, key: &str) -> (r: Result<
    Decimal,
    DecodeError,
>)
    ensures
        r matches Ok(d) ==> lenient_decimal_field(fields@, key@) == Some(d),
        r is Ok <==> lenient_decimal_field(fields@, key@) is Some,
        r matches Err(e) ==> e.field@ == key@ && e.value@ == spec_err_token(fields@, key@),
{
    let token = match crate::json::obj_get(fields, key) {
        Some(JsonValue::Str(t)) => t,
        Some(JsonValue::Num(t)) => t,
        _ => {
            return Err(field_error(fields, key));
        },
    };
    match crate::decimal::parse_decimal(token.as_str()) {
        Some(d) => Ok(d),
        None => Err(field_error(fields, key)),
    }
}

/// An optional decimal field under the lenient profile: absent or
/// `null` reads as nothing.
pub open spec fn opt_lenient_decimal_field(
    fields: Seq<(String, JsonValue)>,
    key: Seq<char>,
) -> Option<Option<Decimal>> {
    match spec_get(fields, key) {
        Some(JsonValue::Str(t)) => match spec_parse_decimal(t@) {
            Some(d) => Some(Some(d)),
            None => None,
        },
        Some(JsonValue::Num(t)) => match spec_parse_decimal(t@) {
            Some(d) => Some(Some(d)),
            None => None,
        },
        Some(JsonValue::Null) => Some(None),
        None => Some(None),
        _ => None,
    }
}

/// Reads an optional decimal field under the lenient profile.
pub fn opt_decimal_lenient(fields: &Vec<(String, JsonValue)>, key: &str) -> (r: Result<
    Option<Decimal>,
    DecodeError,
>)
    ensures
        r matches Ok(d) ==> opt_lenient_decimal_field(fields@, key@) == Some(d),
        r is Ok <==> opt_lenient_decimal_field(fields@, key@) is Some,
        r matches Err(e) ==> e.field@ == key@ && e.value@ == spec_err_token(fields@, key@),
{
    let token = match crate::json::obj_get(fields, key) {
        Some(JsonValue::Str(t)) => t,
        Some(JsonValue::Num(t)) => t,
        Some(JsonValue::Null) => {
            return Ok(None);
        },
        None => {
            return Ok(None);
        },
        _ => {
            return Err(field_error(fields, key));
        },
    };
    match crate::decimal::parse_decimal(token.as_str()) {
        Some(d) => Ok(Some(d)),
        None => Err(field_error(fields, key)),
    }
}

/// A quantity field under the strict-string profile: only a quoted
/// string of plain digits is accepted; a bare numeric token is a decode
/// error.
pub open spec fn strict_qty_field(fields: Seq<(String, JsonValue)>, key: Seq<char>) -> Option<
    u64,
> {
    match spec_get(fields, key) {
        Some(JsonValue::Str(t)) => match spec_parse_decimal(t@) {
            Some(d) => {
                if d.scale == 0 && 0 <= d.mantissa <= u64::MAX {
                    Some(d.mantissa as u64)
                } else {
                    None
                }
            },
            None => None,
        },
        _ => None,
    }
}

/// Reads a required quantity under the strict-string profile.
pub fn req_qty_strict(fields: &Vec<(String, JsonValue)>, key: &str) -> (r: Result<
    u64,
    DecodeError,
>)
    ensures
        r matches Ok(q) ==> strict_qty_field(fields@, key@) == Some(q),
        r is Ok <==> strict_qty_field(fields@, key@) is Some,
        r matches Err(e) ==> e.field@ == key@ && e.value@ == spec_err_token(fields@, key@),
{
    let token = match crate::json::obj_get(fields, key) {
        Some(JsonValue::Str(t)) => t,
        _ => {
            return Err(field_error(fields, key));
        },
    };
    match crate::decimal::parse_decimal(token.as_str()) {
        Some(d) => {
            if d.scale == 0 && 0 <= d.mantissa && d.mantissa <= u64::MAX as i128 {
                Ok(d.mantissa as u64)
            } else {
                Err(field_error(fields, key))
            }
        },
        None => Err(field_error(fields, key)),
    }
}

/// A required UUID field: a string holding any textual UUID form.
pub open spec fn uuid_field(fields: Seq<(String, JsonValue)>, key: Seq<char>) -> Option<u128> {
    match spec_get(fields, key) {
        Some(JsonValue::Str(t)) => crate::symbology::uuid_of(t@),
        _ => None,
    }
}

/// Reads a required UUID field.
pub fn req_uuid(fields: &Vec<(String, JsonValue)>, key: &str) -> (r: Result<u128, DecodeError>)
    ensures
        r matches Ok(u) ==> uuid_field(fields@, key@) == Some(u),
        r is Ok <==> uuid_field(fields@, key@) is Some,
        r matches Err(e) ==> e.field@ == key@ && e.value@ == spec_err_token(fields@, key@),
{
    let token = match crate::json::obj_get(fields, key) {
        Some(JsonValue::Str(t)) => t,
        _ => {
            return Err(field_error(fields, key));
        },
    };
    match crate::symbology::uuid_parse_str(token.as_str()) {
        Some(u) => Ok(u),
        None => Err(field_error(fields, key)),
    }
}

/// An optional UUID field: absent or `null` reads as nothing.
pub open spec fn opt_uuid_field(fields: Seq<(String, JsonValue)>, key: Seq<char>) -> Option<
    Option<u128>,
> {
    match spec_get(fields, key) {
        Some(JsonValue::Str(t)) => match crate::symbology::uuid_of(t@) {
            Some(u) => Some(Some(u)),
            None => None,
        },
        Some(JsonValue::Null) => Some(None),
        None => Some(None),
        _ => None,
    }
}

/// Reads an optional UUID field.
pub fn opt_uuid(fields: &Vec<(String, JsonValue)>, key: &str) -> (r: Result<
    Option<u128>,
    DecodeError,
>)
    ensures
        r matches Ok(u) ==> opt_uuid_field(fields@, key@) == Some(u),
        r is Ok <==> opt_uuid_field(fields@, key@) is Some,
        r matches Err(e) ==> e.field@ == key@ && e.value@ == spec_err_token(fields@, key@),
{
    let token = match crate::json::obj_get(fields, key) {
        Some(JsonValue::Str(t)) => t,
        Some(JsonValue::Null) => {
            return Ok(None);
        },
        None => {
            return Ok(None);
        },
        _ => {
            return Err(field_error(fields, key));
        },
    };
    match crate::symbology::uuid_parse_str(token.as_str()) {
        Some(u) => Ok(Some(u)),
        None => Err(field_error(fields, key)),
    }
}

/// A required timestamp field: a string of RFC 3339 text.
pub open spec fn timestamp_field(fields: Seq<(String, JsonValue)>, key: Seq<char>) -> Option<
    Timestamp,
> {
    match spec_get(fields, key) {
        Some(JsonValue::Str(t)) => rfc3339_of(t@),
        _ => None,
    }
}

/// Reads a required timestamp field.
pub fn req_timestamp(fields: &Vec<(String, JsonValue)>, key: &str) -> (r: Result<
    Timestamp,
    DecodeError,
>)
    ensures
        r matches Ok(t) ==> timestamp_field(fields@, key@) == Some(t),
        r is Ok <==> timestamp_field(fields@, key@) is Some,
        r matches Err(e) ==> e.field@ == key@ && e.value@ == spec_err_token(fields@, key@),
{
    let token = match crate::json::obj_get(fields, key) {
        Some(JsonValue::Str(t)) => t,
        _ => {
            return Err(field_error(fields, key));
        },
    };
    match crate::temporal::parse_rfc3339(token.as_str()) {
        Some(t) => Ok(t),
        None => Err(field_error(fields, key)),
    }
}

/// An optional timestamp field: absent or `null` reads as nothing.
pub open spec fn opt_timestamp_field(fields: Seq<(String, JsonValue)>, key: Seq<char>) -> Option<
    Option<Timestamp>,
> {
    match spec_get(fields, key) {
        Some(JsonValue::Str(t)) => match rfc3339_of(t@) {
            Some(ts) => Some(Some(ts)),
            None => None,
        },
        Some(JsonValue::Null) => Some(None),
        None => Some(None),
        _ => None,
    }
}

/// Reads an optional timestamp field.
pub fn opt_timestamp(fields: &Vec<(String, JsonValue)>, key: &str) -> (r: Result<
    Option<Timestamp>,
    DecodeError,
>)
    ensures
        r matches Ok(t) ==> opt_timestamp_field(fields@, key@) == Some(t),
        r is Ok <==> opt_timestamp_field(fields@, key@) is Some,
        r matches Err(e) ==> e.field@ == key@ && e.value@ == spec_err_token(fields@, key@),
{
    let token = match crate::json::obj_get(fields, key) {
        Some(JsonValue::Str(t)) => t,
        Some(JsonValue::Null) => {
            return Ok(None);
        },
        None => {
            return Ok(None);
        },
        _ => {
            return Err(field_error(fields, key));
        },
    };
    match crate::temporal::parse_rfc3339(token.as_str()) {
        Some(t) => Ok(Some(t)),
        None => Err(field_error(fields, key)),
    }
}

/// A required date field: a string of `YYYY-MM-DD` text.
pub open spec fn date_field(fields: Seq<(String, JsonValue)>, key: Seq<char>) -> Option<
    crate::temporal::Date,
> {
    match spec_get(fields, key) {
        Some(JsonValue::Str(t)) => crate::temporal::spec_parse_date(t@),
        _ => None,
    }
}

/// Reads a required date field.
pub fn req_date(fields: &Vec<(String, JsonValue)>, key: &str) -> (r: Result<
    crate::temporal::Date,
    DecodeError,
>)
    ensures
        r matches Ok(d) ==> date_field(fields@, key@) == Some(d),
        r is Ok <==> date_field(fields@, key@) is Some,
        r matches Err(e) ==> e.field@ == key@ && e.value@ == spec_err_token(fields@, key@),
{
    let token = match crate::json::obj_get(fields, key) {
        Some(JsonValue::Str(t)) => t,
        _ => {
            return Err(field_error(fields, key));
        },
    };
    match crate::temporal::parse_date(token.as_str()) {
        Some(d) => Ok(d),
        None => Err(field_error(fields, key)),
    }
}

/// A required clock-time field: a string of `HH:MM` text.
pub open spec fn clock_time_field(fields: Seq<(String, JsonValue)>, key: Seq<char>) -> Option<
    crate::temporal::ClockTime,
> {
    match spec_get(fields, key) {
        Some(JsonValue::Str(t)) => crate::temporal::spec_parse_clock_time(t@),
        _ => None,
    }
}

/// Reads a required clock-time field.
pub fn req_clock_time(fields: &Vec<(String, JsonValue)>, key: &str) -> (r: Result<
    crate::temporal::ClockTime,
    DecodeError,
>)
    ensures
        r matches Ok(t) ==> clock_time_field(fields@, key@) == Some(t),
        r is Ok <==> clock_time_field(fields@, key@) is Some,
        r matches Err(e) ==> e.field@ == key@ && e.value@ == spec_err_token(fields@, key@),
{
    let token = match crate::json::obj_get(fields, key) {
        Some(JsonValue::Str(t)) => t,
        _ => {
            return Err(field_error(fields, key));
        },
    };
    match crate::temporal::parse_clock_time(token.as_str()) {
        Some(t) => Ok(t),
        None => Err(field_error(fields, key)),
    }
}

/// A counter field sent as a bare number: a numeric token of plain
/// digits.
pub open spec fn num_uint_field(fields: Seq<(String, JsonValue)>, key: Seq<char>) -> Option<u64> {
    match spec_get(fields, key) {
        Some(JsonValue::Num(t)) => match spec_parse_decimal(t@) {
            Some(d) => {
                if d.scale == 0 && 0 <= d.mantissa <= u64::MAX {
                    Some(d.mantissa as u64)
                } else {
                    None
                }
            },
            None => None,
        },
        _ => None,
    }
}

/// Reads a counter field sent as a bare number.
pub fn req_uint_num(fields: &Vec<(String, JsonValue)>, key: &str) -> (r: Result<u64, DecodeError>)
    ensures
        r matches Ok(n) ==> num_uint_field(fields@, key@) == Some(n),
        r is Ok <==> num_uint_field(fields@, key@) is Some,
        r matches Err(e) ==> e.field@ == key@ && e.value@ == spec_err_token(fields@, key@),
{
    let token = match crate::json::obj_get(fields, key) {
        Some(JsonValue::Num(t)) => t,
        _ => {
            return Err(field_error(fields, key));
        },
    };
    match crate::decimal::parse_decimal(token.as_str()) {
        Some(d) => {
            if d.scale == 0 && 0 <= d.mantissa && d.mantissa <= u64::MAX as i128 {
                Ok(d.mantissa as u64)
            } else {
                Err(field_error(fields, key))
            }
        },
        None => Err(field_error(fields, key)),
    }
}

/// A signed count under the strict-string profile: only a quoted string
/// of an integer is accepted.
pub open spec fn strict_int_field(fields: Seq<(String, JsonValue)>, key: Seq<char>) -> Option<
    i64,
> {
    match spec_get(fields, key) {
        Some(JsonValue::Str(t)) => crate::decimal::spec_parse_int64(t@),
        _ => None,
    }
}

/// Reads a required signed count under the strict-string profile.
pub fn req_int_strict(fields: &Vec<(String, JsonValue)>, key: &str) -> (r: Result<
    i64,
    DecodeError,
>)
    ensures
        r matches Ok(n) ==> strict_int_field(fields@, key@) == Some(n),
        r is Ok <==> strict_int_field(fields@, key@) is Some,
        r matches Err(e) ==> e.field@ == key@ && e.value@ == spec_err_token(fields@, key@),
{
    let token = match crate::json::obj_get(fields, key) {
        Some(JsonValue::Str(t)) => t,
        _ => {
            return Err(field_error(fields, key));
        },
    };
    match crate::decimal::parse_int64(token.as_str()) {
        Some(n) => Ok(n),
        None => Err(field_error(fields, key)),
    }
}

/// An optional integer under the lenient profile, as dividend share
/// counts use: a string token or a bare number token reads as its value
/// in `i32` range; absent or `null` reads as nothing; an unreadable
/// token is refused.
pub open spec fn lenient_int_field(fields: Seq<(String, JsonValue)>, key: Seq<char>) -> Option<
    Option<i32>,
> {
    match spec_get(fields, key) {
        Some(JsonValue::Str(t)) => match crate::decimal::spec_parse_int64(t@) {
            Some(n) => {
                if i32::MIN <= n <= i32::MAX {
                    Some(Some(n as i32))
                } else {
                    None
                }
            },
            None => None,
        },
        Some(JsonValue::Num(t)) => match crate::decimal::spec_parse_int64(t@) {
            Some(n) => {
                if i32::MIN <= n <= i32::MAX {
                    Some(Some(n as i32))
                } else {
                    None
                }
            },
            None => None,
        },
        Some(JsonValue::Null) => Some(None),
        None => Some(None),
        _ => None,
    }
}

/// Reads an optional integer under the lenient profile.
pub fn opt_int_lenient(fields: &Vec<(String, JsonValue)>, key: &str) -> (r: Result<
    Option<i32>,
    DecodeError,
>)
    ensures
        r matches Ok(n) ==> lenient_int_field(fields@, key@) == Some(n),
        r is Ok <==> lenient_int_field(fields@, key@) is Some,
        r matches Err(e) ==> e.field@ == key@ && e.value@ == spec_err_token(fields@, key@),
{
    let token = match crate::json::obj_get(fields, key) {
        Some(JsonValue::Str(t)) => t,
        Some(JsonValue::Num(t)) => t,
        Some(JsonValue::Null) => {
            return Ok(None);
        },
        None => {
            return Ok(None);
        },
        _ => {
            return Err(field_error(fields, key));
        },
    };
    match crate::decimal::parse_int64(token.as_str()) {
        Some(n) => {
            if i32::MIN as i64 <= n && n <= i32::MAX as i64 {
                Ok(Some(n as i32))
            } else {
                Err(field_error(fields, key))
            }
        },
        None => Err(field_error(fields, key)),
    }
}

} // verus!
