//! Temporal values and their field-specific codecs.
//!
//! The wire uses several formats that must not be unified: plain dates
//! (`YYYY-MM-DD`), clock times (`HH:MM`), full RFC 3339 timestamps, and
//! vectors of epoch seconds.  Dates and clock times are read and written
//! here; RFC 3339 text is read and written by the `chrono` crate behind
//! trusted wrappers.

use vstd::prelude::*;

use crate::decimal::{
    frac_chars, lemma_frac_chars_val, pow10, push_frac, spec_parse_decimal, Decimal,
};
use crate::strutil::{all_digits, digits_val, is_digit};

verus! {

/// A calendar date.
#[derive(Clone, Copy, Debug, PartialEq, Eq, Structural)]
pub struct Date {
    /// Year, four digits.
    pub year: u32,
    /// Month, starting at one.
    pub month: u32,
    /// Day of month, starting at one.
    pub day: u32,
}

impl Date {
    /// The field ranges the codec writes and accepts.  The codec checks
    /// the shape of a date, not the calendar: a day is one to
    /// thirty-one whatever the month.
    pub open spec fn wf(&self) -> bool {
        &&& self.year <= 9999
        &&& 1 <= self.month <= 12
        &&& 1 <= self.day <= 31
    }

    /// Whether the fields lie in the codec's ranges, decided executably.
    pub fn is_wf(&self) -> (r: bool)
        ensures
            r == self.wf(),
    {
        self.year <= 9999 && 1 <= self.month && self.month <= 12 && 1 <= self.day && self.day
            <= 31
    }

    /// A date from its fields.
    pub fn new(year: u32, month: u32, day: u32) -> (r: Date)
        requires
            year <= 9999,
            1 <= month <= 12,
            1 <= day <= 31,
        ensures
            r == (Date { year, month, day }),
            r.wf(),
    {
        Date { year, month, day }
    }
}

/// A time of day to minute precision.
#[derive(Clone, Copy, Debug, PartialEq, Eq, Structural)]
pub struct ClockTime {
    /// Hour, zero to twenty-three.
    pub hour: u32,
    /// Minute, zero to fifty-nine.
    pub minute: u32,
}

impl ClockTime {
    /// The field ranges the codec writes and accepts.
    pub open spec fn wf(&self) -> bool {
        self.hour <= 23 && self.minute <= 59
    }

    /// A clock time from its fields.
    pub fn new(hour: u32, minute: u32) -> (r: ClockTime)
        requires
            hour <= 23,
            minute <= 59,
        ensures
            r == (ClockTime { hour, minute }),
            r.wf(),
    {
        ClockTime { hour, minute }
    }
}

/// An instant in time: seconds of the UNIX epoch, plus nanoseconds.
#[derive(Clone, Copy, Debug, PartialEq, Eq, Structural)]
pub struct Timestamp {
    /// Whole seconds since the UNIX epoch.
    pub secs: i64,
    /// Nanoseconds past the second.
    pub nanos: u32,
}

/// The `YYYY-MM-DD` text of a date.
pub open spec fn spec_date_text(d: Date) -> Seq<char> {
    frac_chars(d.year as nat, 4) + seq!['-'] + frac_chars(d.month as nat, 2) + seq!['-']
        + frac_chars(d.day as nat, 2)
}

/// Renders a date as `YYYY-MM-DD`.
pub fn format_date(d: &Date) -> (r: String)
    requires
        d.wf(),
    ensures
        r@ == spec_date_text(*d),
{
    let mut out = String::new();
    push_frac(&mut out, d.year as u128, 4);
    out.push('-');
    push_frac(&mut out, d.month as u128, 2);
    out.push('-');
    push_frac(&mut out, d.day as u128, 2);
    proof {
        assert(out@ =~= spec_date_text(*d));
    }
    out
}

/// What `YYYY-MM-DD` text means: four digits, dash, two digits, dash,
/// two digits, with the month and day in range.
pub open spec fn spec_parse_date(s: Seq<char>) -> Option<Date> {
    if s.len() == 10 && s[4] == '-' && s[7] == '-' && all_digits(s.subrange(0, 4)) && all_digits(
        s.subrange(5, 7),
    ) && all_digits(s.subrange(8, 10)) {
        let year = digits_val(s.subrange(0, 4));
        let month = digits_val(s.subrange(5, 7));
        let day = digits_val(s.subrange(8, 10));
        if 1 <= month <= 12 && 1 <= day <= 31 {
            Some(Date { year: year as u32, month: month as u32, day: day as u32 })
        } else {
            None
        }
    } else {
        None
    }
}

/// The `HH:MM` text of a clock time.
pub open spec fn spec_clock_time_text(t: ClockTime) -> Seq<char> {
    frac_chars(t.hour as nat, 2) + seq![':'] + frac_chars(t.minute as nat, 2)
}

/// Renders a clock time as `HH:MM`.
pub fn format_clock_time(t: &ClockTime) -> (r: String)
    requires
        t.wf(),
    ensures
        r@ == spec_clock_time_text(*t),
{
    let mut out = String::new();
    push_frac(&mut out, t.hour as u128, 2);
    out.push(':');
    push_frac(&mut out, t.minute as u128, 2);
    proof {
        assert(out@ =~= spec_clock_time_text(*t));
    }
    out
}

/// What `HH:MM` text means: two digits, colon, two digits, in range.
pub open spec fn spec_parse_clock_time(s: Seq<char>) -> Option<ClockTime> {
    if s.len() == 5 && s[2] == ':' && all_digits(s.subrange(0, 2)) && all_digits(
        s.subrange(3, 5),
    ) {
        let hour = digits_val(s.subrange(0, 2));
        let minute = digits_val(s.subrange(3, 5));
        if hour <= 23 && minute <= 59 {
            Some(ClockTime { hour: hour as u32, minute: minute as u32 })
        } else {
            None
        }
    } else {
        None
    }
}

/// Reads a fixed run of digit characters as a number.
fn read_fixed(cs: &Vec<char>, from: usize, to: usize) -> (r: Option<u32>)
    requires
        from <= to <= cs@.len(),
        to - from <= 4,
    ensures
        ({
            let piece = cs@.subrange(from as int, to as int);
            match r {
                Some(v) => all_digits(piece) && v as nat == digits_val(piece) && v < 10000,
                None => !all_digits(piece),
            }
        }),
{
    let mut acc: u32 = 0;
    let mut i = from;
    proof {
        assert(cs@.subrange(from as int, from as int) =~= Seq::<char>::empty());
    }
    while i < to
        invariant
            from <= i <= to <= cs@.len(),
            to - from <= 4,
            all_digits(cs@.subrange(from as int, i as int)),
            acc as nat == digits_val(cs@.subrange(from as int, i as int)),
            acc < pow10((i - from) as nat),
            pow10((i - from) as nat) <= 10000,
        decreases to - i,
    {
        let ghost pre = cs@.subrange(from as int, i as int);
        let c = cs[i];
        if !crate::strutil::char_is_digit(c) {
            proof {
                assert(cs@.subrange(from as int, to as int)[i - from] == c);
            }
            return None;
        }
        let dv = crate::strutil::char_digit_val(c);
        proof {
            assert(pre.push(c) =~= cs@.subrange(from as int, (i + 1) as int));
            assert(pre.push(c).drop_last() =~= pre);
            assert(pow10(((i + 1) - from) as nat) == 10 * pow10((i - from) as nat));
            crate::decimal::lemma_pow10_mono(((i + 1) - from) as nat, 4);
            reveal_with_fuel(pow10, 6);
        }
        acc = acc * 10 + dv as u32;
        i = i + 1;
    }
    proof {
        crate::decimal::lemma_pow10_mono(((i - from)) as nat, 4);
        reveal_with_fuel(pow10, 6);
    }
    Some(acc)
}

/// Parses `YYYY-MM-DD` text.
pub fn parse_date(s: &str) -> (r: Option<Date>)
    ensures
        r == spec_parse_date(s@),
        r matches Some(d) ==> d.wf(),
{
    let cs = crate::strutil::chars_of(s);
    if cs.len() != 10 {
        return None;
    }
    if !(cs[4] == '-' && cs[7] == '-') {
        return None;
    }
    let year = match read_fixed(&cs, 0, 4) {
        Some(v) => v,
        None => {
            return None;
        },
    };
    let month = match read_fixed(&cs, 5, 7) {
        Some(v) => v,
        None => {
            return None;
        },
    };
    let day = match read_fixed(&cs, 8, 10) {
        Some(v) => v,
        None => {
            return None;
        },
    };
    if 1 <= month && month <= 12 && 1 <= day && day <= 31 {
        Some(Date { year, month, day })
    } else {
        None
    }
}

/// Parses `HH:MM` text.
pub fn parse_clock_time(s: &str) -> (r: Option<ClockTime>)
    ensures
        r == spec_parse_clock_time(s@),
        r matches Some(t) ==> t.wf(),
{
    let cs = crate::strutil::chars_of(s);
    if cs.len() != 5 {
        return None;
    }
    if !(cs[2] == ':') {
        return None;
    }
    let hour = match read_fixed(&cs, 0, 2) {
        Some(v) => v,
        None => {
            return None;
        },
    };
    let minute = match read_fixed(&cs, 3, 5) {
        Some(v) => v,
        None => {
            return None;
        },
    };
    if hour <= 23 && minute <= 59 {
        Some(ClockTime { hour, minute })
    } else {
        None
    }
}

/// A date's wire text reads back as the date it was written from.
pub proof fn lemma_date_round_trip(d: Date)
    requires
        d.wf(),
    ensures
        spec_parse_date(spec_date_text(d)) == Some(d),
{
    let s = spec_date_text(d);
    reveal_with_fuel(pow10, 6);
    lemma_frac_chars_val(d.year as nat, 4);
    lemma_frac_chars_val(d.month as nat, 2);
    lemma_frac_chars_val(d.day as nat, 2);
    assert(s.subrange(0, 4) =~= frac_chars(d.year as nat, 4));
    assert(s.subrange(5, 7) =~= frac_chars(d.month as nat, 2));
    assert(s.subrange(8, 10) =~= frac_chars(d.day as nat, 2));
}

/// A clock time's wire text reads back as the time it was written from.
pub proof fn lemma_clock_time_round_trip(t: ClockTime)
    requires
        t.wf(),
    ensures
        spec_parse_clock_time(spec_clock_time_text(t)) == Some(t),
{
    let s = spec_clock_time_text(t);
    reveal_with_fuel(pow10, 3);
    lemma_frac_chars_val(t.hour as nat, 2);
    lemma_frac_chars_val(t.minute as nat, 2);
    assert(s.subrange(0, 2) =~= frac_chars(t.hour as nat, 2));
    assert(s.subrange(3, 5) =~= frac_chars(t.minute as nat, 2));
}

/// What RFC 3339 text means as an instant; the result is a function of
/// the text alone.
pub uninterp spec fn rfc3339_of(s: Seq<char>) -> Option<Timestamp>;

/// The RFC 3339 text of an instant; the result is a function of the
/// instant alone.
pub uninterp spec fn rfc3339_text(t: Timestamp) -> Seq<char>;

/// Relies on `chrono::DateTime::parse_from_rfc3339`: reads RFC 3339 text
/// into epoch seconds and nanoseconds, deciding by the text alone.
#[verifier::external_body]
pub fn parse_rfc3339(s: &str) -> (r: Option<Timestamp>)
    ensures
        r == rfc3339_of(s@),
{
    match chrono::DateTime::parse_from_rfc3339(s) {
        Ok(dt) => Some(Timestamp { secs: dt.timestamp(), nanos: dt.timestamp_subsec_nanos() }),
        Err(_) => None,
    }
}

/// Whether an instant lies in the range RFC 3339 text can carry; a
/// function of the instant alone.
pub uninterp spec fn rfc3339_representable(t: Timestamp) -> bool;

/// Relies on `chrono::DateTime::from_timestamp` and `to_rfc3339`: writes
/// an instant as RFC 3339 text, refusing exactly the instants outside
/// the representable range — which depends on the instant alone.
#[verifier::external_body]
pub fn format_rfc3339(t: &Timestamp) -> (r: Option<String>)
    ensures
        r is Some <==> rfc3339_representable(*t),
        r matches Some(s) ==> s@ == rfc3339_text(*t),
{
    chrono::DateTime::from_timestamp(t.secs, t.nanos).map(|dt| dt.to_rfc3339())
}

/// What an epoch-seconds token means: a plain integer number of
/// seconds.
pub open spec fn spec_parse_epoch_secs(s: Seq<char>) -> Option<i64> {
    crate::decimal::spec_parse_int64(s)
}

/// Parses an epoch-seconds token, as portfolio-history timestamps use.
pub fn parse_epoch_secs(s: &str) -> (r: Option<i64>)
    ensures
        r == spec_parse_epoch_secs(s@),
{
    crate::decimal::parse_int64(s)
}

} // verus!
