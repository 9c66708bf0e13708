//! The market calendar and its endpoint.

use vstd::prelude::*;

use crate::error::DecodeError;
use crate::json::JsonValue;
use crate::request::Method;
use crate::temporal::{ClockTime, Date};

verus! {

use vstd::string::StringExecFns;

/// One trading day: its date and the market's open and close times.
#[derive(Clone, Copy, Debug, PartialEq, Eq, Structural)]
pub struct Calendar {
    /// The trading day.
    pub date: Date,
    /// When the market opens, as `HH:MM`.
    pub open: ClockTime,
    /// When the market closes, as `HH:MM`.
    pub close: ClockTime,
}

/// Whether a calendar payload decodes: a date and two clock times.
pub open spec fn spec_calendar_ok(fields: Seq<(String, JsonValue)>) -> bool {
    &&& crate::codec::date_field(fields, "date"@) is Some
    &&& crate::codec::clock_time_field(fields, "open"@) is Some
    &&& crate::codec::clock_time_field(fields, "close"@) is Some
}

/// What each decoded calendar field holds.
pub open spec fn spec_calendar_matches(fields: Seq<(String, JsonValue)>, c: Calendar) -> bool {
    &&& crate::codec::date_field(fields, "date"@) == Some(c.date)
    &&& crate::codec::clock_time_field(fields, "open"@) == Some(c.open)
    &&& crate::codec::clock_time_field(fields, "close"@) == Some(c.close)
}

/// Decodes one calendar day.
pub fn decode_calendar(v: &JsonValue) -> (r: Result<Calendar, DecodeError>)
    ensures
        r is Ok <==> (v matches JsonValue::Obj(fields) && spec_calendar_ok(fields@)),
        r matches Ok(c) ==> (v matches JsonValue::Obj(fields) && spec_calendar_matches(fields@, c)),
{
    let fields = match v {
        JsonValue::Obj(fields) => fields,
        _ => {
            return Err(
                DecodeError {
                    field: String::from_str("calendar"),
                    value: crate::json::raw_token(v),
                },
            );
        },
    };
    let date = crate::codec::req_date(fields, "date")?;
    let open = crate::codec::req_clock_time(fields, "open")?;
    let close = crate::codec::req_clock_time(fields, "close")?;
    Ok(Calendar { date, open, close })
}

/// Decodes a list of calendar days.
#[verifier::loop_isolation(false)]
pub fn decode_calendars(v: &JsonValue) -> (r: Result<Vec<Calendar>, DecodeError>)
    ensures
        r is Ok <==> (v matches JsonValue::Arr(items) && (forall|i: int|
            0 <= i < items@.len() ==> ((#[trigger] items@[i]) matches JsonValue::Obj(fields)
                && spec_calendar_ok(fields@)))),
        r matches Ok(os) ==> (v matches JsonValue::Arr(items) && os@.len() == items@.len() && (
        forall|i: int|
            0 <= i < items@.len() ==> ((#[trigger] items@[i]) matches JsonValue::Obj(fields)
                && spec_calendar_matches(fields@, os@[i])))),
{
    let items = match v {
        JsonValue::Arr(items) => items,
        _ => {
            return Err(
                DecodeError {
                    field: String::from_str("calendar"),
                    value: crate::json::raw_token(v),
                },
            );
        },
    };
    let mut out: Vec<Calendar> = Vec::new();
    let n = items.len();
    let mut i: usize = 0;
    while i < n
        invariant
            i <= n,
            n == items@.len(),
            out@.len() == i,
            forall|j: int|
                0 <= j < i ==> ((#[trigger] items@[j]) matches JsonValue::Obj(fields)
                    && spec_calendar_ok(fields@) && spec_calendar_matches(fields@, out@[j])),
        decreases n - i,
    {
        let c = decode_calendar(&items[i])?;
        out.push(c);
        i = i + 1;
    }
    Ok(out)
}

/// Returns the market calendar between two dates.
#[derive(Clone, Copy, Debug, PartialEq, Eq, Structural)]
pub struct GetCalendar {
    /// First date, inclusive.
    pub start: Date,
    /// Last date, exclusive.
    pub end: Date,
}

impl Default for GetCalendar {
    /// The default range spans the epoch through the end of 2029.
    fn default() -> (r: Self)
        ensures
            r == (GetCalendar {
                start: Date { year: 1970, month: 1, day: 1 },
                end: Date { year: 2029, month: 12, day: 31 },
            }),
    {
        GetCalendar {
            start: Date { year: 1970, month: 1, day: 1 },
            end: Date { year: 2029, month: 12, day: 31 },
        }
    }
}

impl GetCalendar {
    /// A new request with the default range.
    pub fn new() -> (r: GetCalendar)
        ensures
            r == (GetCalendar {
                start: Date { year: 1970, month: 1, day: 1 },
                end: Date { year: 2029, month: 12, day: 31 },
            }),
    {
        GetCalendar {
            start: Date { year: 1970, month: 1, day: 1 },
            end: Date { year: 2029, month: 12, day: 31 },
        }
    }

    /// Sets the first date, inclusive.
    pub fn start(self, start: Date) -> (r: Self)
        ensures
            r == (GetCalendar { start, ..self }),
    {
        GetCalendar { start, ..self }
    }

    /// Sets the last date, exclusive.
    pub fn end(self, end: Date) -> (r: Self)
        ensures
            r == (GetCalendar { end, ..self }),
    {
        GetCalendar { end, ..self }
    }

    /// Whether both dates lie in the codec's ranges, decided executably,
    /// so an unverified caller can test it before building the query.
    pub fn is_wf(&self) -> (r: bool)
        ensures
            r == (self.start.wf() && self.end.wf()),
    {
        self.start.is_wf() && self.end.is_wf()
    }

    /// The query the range spells.
    pub open spec fn spec_query(&self) -> Seq<(Seq<char>, Seq<char>)> {
        seq![
            ("start"@, crate::temporal::spec_date_text(self.start)),
            ("end"@, crate::temporal::spec_date_text(self.end)),
        ]
    }

    /// Builds the query parameters.
    pub fn query(&self) -> (r: Vec<(String, String)>)
        requires
            self.start.wf(),
            self.end.wf(),
        ensures
            crate::request::pairs_view(r@) == self.spec_query(),
    {
        let mut q: Vec<(String, String)> = Vec::new();
        crate::request::push_pair(&mut q, "start", crate::temporal::format_date(&self.start));
        crate::request::push_pair(&mut q, "end", crate::temporal::format_date(&self.end));
        proof {
            assert(crate::request::pairs_view(q@) =~= self.spec_query());
        }
        q
    }

    /// The path of the calendar endpoint.
    pub fn endpoint(&self) -> (r: String)
        ensures
            r@ == "/v2/calendar"@,
    {
        String::from_str("/v2/calendar")
    }

    /// The method of the calendar endpoint.
    pub fn method(&self) -> (r: Method)
        ensures
            r == Method::Get,
    {
        Method::Get
    }
}

} // verus!
