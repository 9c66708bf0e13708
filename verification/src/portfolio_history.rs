//! Portfolio history: parallel timeseries of equity and profit/loss.

use vstd::prelude::*;

use crate::decimal::Decimal;
use crate::error::DecodeError;
use crate::json::JsonValue;
use crate::request::Method;
use crate::temporal::{Date, Timestamp};

verus! {

use vstd::string::StringExecFns;

/// The resolution of one data window.
#[derive(Clone, Copy, Debug, PartialEq, Eq, Structural)]
pub enum Timeframe {
    /// One minute.
    OneMinute,
    /// Five minutes.
    FiveMinutes,
    /// Fifteen minutes.
    FifteenMinutes,
    /// One hour.
    OneHour,
    /// One day.
    OneDay,
}

impl Timeframe {
    /// The wire token of the resolution.
    pub open spec fn spec_wire_name(&self) -> Seq<char> {
        match self {
            Timeframe::OneMinute => "1Min"@,
            Timeframe::FiveMinutes => "5Min"@,
            Timeframe::FifteenMinutes => "15Min"@,
            Timeframe::OneHour => "1H"@,
            Timeframe::OneDay => "1D"@,
        }
    }

    /// The wire token of the resolution.
    pub fn wire_name(&self) -> (r: &'static str)
        ensures
            r@ == self.spec_wire_name(),
    {
        match self {
            Timeframe::OneMinute => "1Min",
            Timeframe::FiveMinutes => "5Min",
            Timeframe::FifteenMinutes => "15Min",
            Timeframe::OneHour => "1H",
            Timeframe::OneDay => "1D",
        }
    }

    /// What a wire token means.
    pub open spec fn spec_from_wire(s: Seq<char>) -> Option<Timeframe> {
        if s == "1Min"@ {
            Some(Timeframe::OneMinute)
        } else if s == "5Min"@ {
            Some(Timeframe::FiveMinutes)
        } else if s == "15Min"@ {
            Some(Timeframe::FifteenMinutes)
        } else if s == "1H"@ {
            Some(Timeframe::OneHour)
        } else if s == "1D"@ {
            Some(Timeframe::OneDay)
        } else {
            None
        }
    }

    /// Reads a wire token.
    pub fn from_wire(s: &str) -> (r: Option<Timeframe>)
        ensures
            r == Self::spec_from_wire(s@),
    {
        if crate::strutil::str_eq(s, "1Min") {
            Some(Timeframe::OneMinute)
        } else if crate::strutil::str_eq(s, "5Min") {
            Some(Timeframe::FiveMinutes)
        } else if crate::strutil::str_eq(s, "15Min") {
            Some(Timeframe::FifteenMinutes)
        } else if crate::strutil::str_eq(s, "1H") {
            Some(Timeframe::OneHour)
        } else if crate::strutil::str_eq(s, "1D") {
            Some(Timeframe::OneDay)
        } else {
            None
        }
    }
}

/// What one element of the timestamp vector means: a bare number of
/// epoch seconds, read as an instant on the second.
pub open spec fn spec_epoch_elem(v: JsonValue) -> Option<Timestamp> {
    match v {
        JsonValue::Num(t) => match crate::decimal::spec_parse_int64(t@) {
            Some(n) => Some(Timestamp { secs: n, nanos: 0 }),
            None => None,
        },
        _ => None,
    }
}

/// What one element of a value vector means: a decimal under the
/// lenient profile.
pub open spec fn spec_decimal_elem(v: JsonValue) -> Option<Decimal> {
    match v {
        JsonValue::Num(t) => crate::decimal::spec_parse_decimal(t@),
        JsonValue::Str(t) => crate::decimal::spec_parse_decimal(t@),
        _ => None,
    }
}

/// Portfolio history: parallel vectors, element `i` of each describing
/// the same time window.
#[derive(Clone, Debug, PartialEq)]
pub struct PortfolioHistory {
    /// Start of each window, decoded from epoch seconds.
    pub timestamp: Vec<Timestamp>,
    /// Equity at the end of each window.
    pub equity: Vec<Decimal>,
    /// Profit or loss from the base value.
    pub profit_loss: Vec<Decimal>,
    /// Profit or loss from the base value, as a factor of one.
    pub profit_loss_pct: Vec<Decimal>,
    /// Basis of the profit and loss numbers.
    pub base_value: Decimal,
    /// Window size of each element.
    pub timeframe: Timeframe,
}

/// Decodes a vector of epoch-second timestamps.
#[verifier::loop_isolation(false)]
fn decode_epoch_vec(v: &JsonValue, key: &str) -> (r: Result<Vec<Timestamp>, DecodeError>)
    ensures
        r is Ok <==> (v matches JsonValue::Arr(items) && (forall|i: int|
            0 <= i < items@.len() ==> spec_epoch_elem(#[trigger] items@[i]) is Some)),
        r matches Ok(ts) ==> (v matches JsonValue::Arr(items) && ts@.len() == items@.len() && (
        forall|i: int|
            0 <= i < items@.len() ==> spec_epoch_elem(#[trigger] items@[i]) == Some(ts@[i]))),
        r matches Err(e) ==> e.field@ == key@,
{
    let items = match v {
        JsonValue::Arr(items) => items,
        _ => {
            return Err(
                DecodeError { field: String::from_str(key), value: crate::json::raw_token(v) },
            );
        },
    };
    let mut out: Vec<Timestamp> = Vec::new();
    let n = items.len();
    let mut i: usize = 0;
    while i < n
        invariant
            i <= n,
            n == items@.len(),
            out@.len() == i,
            forall|j: int| 0 <= j < i ==> spec_epoch_elem(#[trigger] items@[j]) == Some(out@[j]),
        decreases n - i,
    {
        let secs = match &items[i] {
            JsonValue::Num(t) => match crate::decimal::parse_int64(t.as_str()) {
                Some(n) => n,
                None => {
                    return Err(DecodeError { field: String::from_str(key), value: t.clone() });
                },
            },
            other => {
                return Err(
                    DecodeError {
                        field: String::from_str(key),
                        value: crate::json::raw_token(other),
                    },
                );
            },
        };
        out.push(Timestamp { secs, nanos: 0 });
        i = i + 1;
    }
    Ok(out)
}

/// Decodes a vector of decimals.
#[verifier::loop_isolation(false)]
fn decode_decimal_vec(v: &JsonValue, key: &str) -> (r: Result<Vec<Decimal>, DecodeError>)
    ensures
        r is Ok <==> (v matches JsonValue::Arr(items) && (forall|i: int|
            0 <= i < items@.len() ==> spec_decimal_elem(#[trigger] items@[i]) is Some)),
        r matches Ok(ds) ==> (v matches JsonValue::Arr(items) && ds@.len() == items@.len() && (
        forall|i: int|
            0 <= i < items@.len() ==> spec_decimal_elem(#[trigger] items@[i]) == Some(ds@[i]))),
        r matches Err(e) ==> e.field@ == key@,
{
    let items = match v {
        JsonValue::Arr(items) => items,
        _ => {
            return Err(
                DecodeError { field: String::from_str(key), value: crate::json::raw_token(v) },
            );
        },
    };
    let mut out: Vec<Decimal> = Vec::new();
    let n = items.len();
    let mut i: usize = 0;
    while i < n
        invariant
            i <= n,
            n == items@.len(),
            out@.len() == i,
            forall|j: int| 0 <= j < i ==> spec_decimal_elem(#[trigger] items@[j]) == Some(out@[j]),
        decreases n - i,
    {
        let token = match &items[i] {
            JsonValue::Num(t) => t,
            JsonValue::Str(t) => t,
            other => {
                return Err(
                    DecodeError {
                        field: String::from_str(key),
                        value: crate::json::raw_token(other),
                    },
                );
            },
        };
        let d = match crate::decimal::parse_decimal(token.as_str()) {
            Some(d) => d,
            None => {
                return Err(DecodeError { field: String::from_str(key), value: token.clone() });
            },
        };
        out.push(d);
        i = i + 1;
    }
    Ok(out)
}

/// Whether a portfolio-history payload decodes: the four parallel
/// vectors with every element readable, the base value under the
/// lenient decimal profile, and a known timeframe token.
pub open spec fn spec_portfolio_history_ok(fields: Seq<(String, JsonValue)>) -> bool {
    &&& (match crate::json::spec_get(fields, "timestamp"@) {
        Some(JsonValue::Arr(items)) => forall|i: int|
            0 <= i < items@.len() ==> spec_epoch_elem(#[trigger] items@[i]) is Some,
        _ => false,
    })
    &&& (match crate::json::spec_get(fields, "equity"@) {
        Some(JsonValue::Arr(items)) => forall|i: int|
            0 <= i < items@.len() ==> spec_decimal_elem(#[trigger] items@[i]) is Some,
        _ => false,
    })
    &&& (match crate::json::spec_get(fields, "profit_loss"@) {
        Some(JsonValue::Arr(items)) => forall|i: int|
            0 <= i < items@.len() ==> spec_decimal_elem(#[trigger] items@[i]) is Some,
        _ => false,
    })
    &&& (match crate::json::spec_get(fields, "profit_loss_pct"@) {
        Some(JsonValue::Arr(items)) => forall|i: int|
            0 <= i < items@.len() ==> spec_decimal_elem(#[trigger] items@[i]) is Some,
        _ => false,
    })
    &&& crate::codec::lenient_decimal_field(fields, "base_value"@) is Some
    &&& (match crate::codec::str_field(fields, "timeframe"@) {
        Some(s) => Timeframe::spec_from_wire(s) is Some,
        None => false,
    })
}

/// Decodes a portfolio-history payload.  Each vector element is pinned
/// to its own spec; a failed element names its vector's field.
pub fn decode_portfolio_history(v: &JsonValue) -> (r: Result<PortfolioHistory, DecodeError>)
    ensures
        r is Ok <==> (v matches JsonValue::Obj(fields) && spec_portfolio_history_ok(fields@)),
        r matches Ok(h) ==> (v matches JsonValue::Obj(fields) && {
            &&& (match crate::json::spec_get(fields@, "timestamp"@) {
                Some(JsonValue::Arr(items)) => h.timestamp@.len() == items@.len() && (forall|
                    i: int,
                |
                    0 <= i < items@.len() ==> spec_epoch_elem(#[trigger] items@[i]) == Some(
                        h.timestamp@[i],
                    )),
                _ => false,
            })
            &&& (match crate::json::spec_get(fields@, "equity"@) {
                Some(JsonValue::Arr(items)) => h.equity@.len() == items@.len() && (forall|i: int|
                    0 <= i < items@.len() ==> spec_decimal_elem(#[trigger] items@[i]) == Some(
                        h.equity@[i],
                    )),
                _ => false,
            })
            &&& (match crate::json::spec_get(fields@, "profit_loss"@) {
                Some(JsonValue::Arr(items)) => h.profit_loss@.len() == items@.len() && (forall|
                    i: int,
                |
                    0 <= i < items@.len() ==> spec_decimal_elem(#[trigger] items@[i]) == Some(
                        h.profit_loss@[i],
                    )),
                _ => false,
            })
            &&& (match crate::json::spec_get(fields@, "profit_loss_pct"@) {
                Some(JsonValue::Arr(items)) => h.profit_loss_pct@.len() == items@.len() && (forall|
                    i: int,
                |
                    0 <= i < items@.len() ==> spec_decimal_elem(#[trigger] items@[i]) == Some(
                        h.profit_loss_pct@[i],
                    )),
                _ => false,
            })
            &&& crate::codec::lenient_decimal_field(fields@, "base_value"@) == Some(h.base_value)
            &&& (match crate::codec::str_field(fields@, "timeframe"@) {
                Some(s) => Timeframe::spec_from_wire(s) == Some(h.timeframe),
                None => false,
            })
        }),
{
    let fields = match v {
        JsonValue::Obj(fields) => fields,
        _ => {
            return Err(
                DecodeError {
                    field: String::from_str("portfolio_history"),
                    value: crate::json::raw_token(v),
                },
            );
        },
    };
    let ts_value = match crate::json::obj_get(fields, "timestamp") {
        Some(t) => t,
        None => {
            return Err(DecodeError { field: String::from_str("timestamp"), value: String::new() });
        },
    };
    let timestamp = decode_epoch_vec(ts_value, "timestamp")?;
    let eq_value = match crate::json::obj_get(fields, "equity") {
        Some(t) => t,
        None => {
            return Err(DecodeError { field: String::from_str("equity"), value: String::new() });
        },
    };
    let equity = decode_decimal_vec(eq_value, "equity")?;
    let pl_value = match crate::json::obj_get(fields, "profit_loss") {
        Some(t) => t,
        None => {
            return Err(
                DecodeError { field: String::from_str("profit_loss"), value: String::new() },
            );
        },
    };
    let profit_loss = decode_decimal_vec(pl_value, "profit_loss")?;
    let plp_value = match crate::json::obj_get(fields, "profit_loss_pct") {
        Some(t) => t,
        None => {
            return Err(
                DecodeError { field: String::from_str("profit_loss_pct"), value: String::new() },
            );
        },
    };
    let profit_loss_pct = decode_decimal_vec(plp_value, "profit_loss_pct")?;
    let base_value = crate::codec::req_decimal_lenient(fields, "base_value")?;
    let tf_token = crate::codec::req_str(fields, "timeframe")?;
    let timeframe = match Timeframe::from_wire(tf_token.as_str()) {
        Some(t) => t,
        None => {
            return Err(DecodeError { field: String::from_str("timeframe"), value: tf_token });
        },
    };
    Ok(PortfolioHistory { timestamp, equity, profit_loss, profit_loss_pct, base_value, timeframe })
}

/// The unit of a history period.
#[derive(Clone, Copy, Debug, PartialEq, Eq, Structural)]
pub enum PeriodUnit {
    /// A day, written `D`.
    Day,
    /// A week, written `W`.
    Week,
    /// A month, written `M`.
    Month,
    /// A year, written `A`.
    Year,
}

impl PeriodUnit {
    /// The wire letter of the unit.
    pub open spec fn spec_wire_name(&self) -> Seq<char> {
        match self {
            PeriodUnit::Day => "D"@,
            PeriodUnit::Week => "W"@,
            PeriodUnit::Month => "M"@,
            PeriodUnit::Year => "A"@,
        }
    }

    /// The wire letter of the unit.
    pub fn wire_name(&self) -> (r: &'static str)
        ensures
            r@ == self.spec_wire_name(),
    {
        match self {
            PeriodUnit::Day => "D",
            PeriodUnit::Week => "W",
            PeriodUnit::Month => "M",
            PeriodUnit::Year => "A",
        }
    }
}

/// How much history to ask for: a count of days, weeks, months or
/// years, written as the count then the unit's letter, as in `1D`.
#[derive(Clone, Copy, Debug, PartialEq, Eq, Structural)]
pub struct Period(pub u64, pub PeriodUnit);

impl Period {
    /// A period of `n` days.
    pub fn days(n: u64) -> (r: Period)
        ensures
            r == Period(n, PeriodUnit::Day),
    {
        Period(n, PeriodUnit::Day)
    }

    /// A period of `n` weeks.
    pub fn weeks(n: u64) -> (r: Period)
        ensures
            r == Period(n, PeriodUnit::Week),
    {
        Period(n, PeriodUnit::Week)
    }

    /// A period of `n` months.
    pub fn months(n: u64) -> (r: Period)
        ensures
            r == Period(n, PeriodUnit::Month),
    {
        Period(n, PeriodUnit::Month)
    }

    /// A period of `n` years.
    pub fn years(n: u64) -> (r: Period)
        ensures
            r == Period(n, PeriodUnit::Year),
    {
        Period(n, PeriodUnit::Year)
    }

    /// The wire text of the period.
    pub open spec fn spec_text(&self) -> Seq<char> {
        crate::strutil::uint_chars(self.0 as nat) + self.1.spec_wire_name()
    }

    /// Renders the period's wire text.
    pub fn text(&self) -> (r: String)
        ensures
            r@ == self.spec_text(),
    {
        let mut out = String::new();
        crate::strutil::push_uint(&mut out, self.0 as u128);
        out.append(self.1.wire_name());
        proof {
            assert(out@ =~= self.spec_text());
        }
        out
    }
}

/// Returns timeseries data about the account's equity and profit/loss.
#[derive(Clone, Copy, Debug, PartialEq, Eq, Structural)]
pub struct GetPortfolioHistory {
    /// How much history; the server defaults to one month.
    pub period: Option<Period>,
    /// Window resolution; the server picks by period when unset.
    pub timeframe: Option<Timeframe>,
    /// Last date of the data; the server defaults to today.
    pub date_end: Option<Date>,
    /// Whether extended hours are included, for intraday windows.
    pub extended_hours: Option<bool>,
}

impl GetPortfolioHistory {
    /// A new request with the server's defaults.
    pub fn new() -> (r: GetPortfolioHistory)
        ensures
            r.period is None,
            r.timeframe is None,
            r.date_end is None,
            r.extended_hours is None,
    {
        GetPortfolioHistory { period: None, timeframe: None, date_end: None, extended_hours: None }
    }

    /// Sets how much history to return.
    pub fn period(self, period: Period) -> (r: Self)
        ensures
            r == (GetPortfolioHistory { period: Some(period), ..self }),
    {
        GetPortfolioHistory { period: Some(period), ..self }
    }

    /// Sets the window resolution.
    pub fn timeframe(self, timeframe: Timeframe) -> (r: Self)
        ensures
            r == (GetPortfolioHistory { timeframe: Some(timeframe), ..self }),
    {
        GetPortfolioHistory { timeframe: Some(timeframe), ..self }
    }

    /// Sets the last date of the data.
    pub fn date_end(self, date_end: Date) -> (r: Self)
        ensures
            r == (GetPortfolioHistory { date_end: Some(date_end), ..self }),
    {
        GetPortfolioHistory { date_end: Some(date_end), ..self }
    }

    /// Sets whether extended hours are included.
    pub fn extended_hours(self, extended_hours: bool) -> (r: Self)
        ensures
            r == (GetPortfolioHistory { extended_hours: Some(extended_hours), ..self }),
    {
        GetPortfolioHistory { extended_hours: Some(extended_hours), ..self }
    }

    /// All dates of the request lie in the codec's ranges.
    pub open spec fn spec_wf(&self) -> bool {
        match self.date_end {
            Some(d) => d.wf(),
            None => true,
        }
    }

    /// Decides [`Self::spec_wf`] executably, so an unverified caller can
    /// test it before building the query.
    pub fn is_wf(&self) -> (r: bool)
        ensures
            r == self.spec_wf(),
    {
        match &self.date_end {
            Some(d) => d.is_wf(),
            None => true,
        }
    }

    /// The query the filters spell, unset filters omitted.
    pub open spec fn spec_query(&self) -> Seq<(Seq<char>, Seq<char>)> {
        (match self.period {
            Some(p) => seq![("period"@, p.spec_text())],
            None => Seq::<(Seq<char>, Seq<char>)>::empty(),
        }) + (match self.timeframe {
            Some(t) => seq![("timeframe"@, t.spec_wire_name())],
            None => Seq::<(Seq<char>, Seq<char>)>::empty(),
        }) + (match self.date_end {
            Some(d) => seq![("date_end"@, crate::temporal::spec_date_text(d))],
            None => Seq::<(Seq<char>, Seq<char>)>::empty(),
        }) + (match self.extended_hours {
            Some(b) => seq![("extended_hours"@, crate::request::spec_bool_text(b))],
            None => Seq::<(Seq<char>, Seq<char>)>::empty(),
        })
    }

    /// Builds the query parameters.
    pub fn query(&self) -> (r: Vec<(String, String)>)
        requires
            self.spec_wf(),
        ensures
            crate::request::pairs_view(r@) == self.spec_query(),
    {
        let mut q: Vec<(String, String)> = Vec::new();
        match &self.period {
            Some(p) => crate::request::push_pair(&mut q, "period", p.text()),
            None => {},
        }
        match &self.timeframe {
            Some(t) => crate::request::push_pair(
                &mut q,
                "timeframe",
                String::from_str(t.wire_name()),
            ),
            None => {},
        }
        match &self.date_end {
            Some(d) => crate::request::push_pair(&mut q, "date_end", crate::temporal::format_date(d)),
            None => {},
        }
        match self.extended_hours {
            Some(b) => crate::request::push_pair(
                &mut q,
                "extended_hours",
                String::from_str(crate::request::bool_text(b)),
            ),
            None => {},
        }
        proof {
            assert(crate::request::pairs_view(q@) =~= self.spec_query());
        }
        q
    }

    /// The path of the history endpoint.
    pub fn endpoint(&self) -> (r: String)
        ensures
            r@ == "/v2/account/portfolio/history"@,
    {
        String::from_str("/v2/account/portfolio/history")
    }

    /// The method of the history endpoint.
    pub fn method(&self) -> (r: Method)
        ensures
            r == Method::Get,
    {
        Method::Get
    }
}

/// A wire token reads back as the resolution it was written from.
pub proof fn lemma_timeframe_wire_round_trip(x: Timeframe)
    ensures
        Timeframe::spec_from_wire(x.spec_wire_name()) == Some(x),
{
    reveal_strlit("1Min");
    assert(("1Min"@).len() == 4);
    reveal_strlit("5Min");
    assert(("5Min"@).len() == 4);
    reveal_strlit("15Min");
    assert(("15Min"@).len() == 5);
    reveal_strlit("1H");
    assert(("1H"@).len() == 2);
    reveal_strlit("1D");
    assert(("1D"@).len() == 2);
    match x {
        Timeframe::OneMinute => {
            assert(Timeframe::spec_from_wire("1Min"@) == Some(Timeframe::OneMinute));
        },
        Timeframe::FiveMinutes => {
            assert(("5Min"@)[0] != ("1Min"@)[0]);
            assert(Timeframe::spec_from_wire("5Min"@) == Some(Timeframe::FiveMinutes));
        },
        Timeframe::FifteenMinutes => {
            assert(Timeframe::spec_from_wire("15Min"@) == Some(Timeframe::FifteenMinutes));
        },
        Timeframe::OneHour => {
            assert(Timeframe::spec_from_wire("1H"@) == Some(Timeframe::OneHour));
        },
        Timeframe::OneDay => {
            assert(("1D"@)[1] != ("1H"@)[1]);
            assert(Timeframe::spec_from_wire("1D"@) == Some(Timeframe::OneDay));
        },
    }
}

} // verus!
