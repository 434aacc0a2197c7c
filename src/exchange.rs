use vstd::prelude::*;

use crate::country::Country;
use chrono::{Offset, TimeZone};

verus! {

#[verifier::external_type_specification]
#[verifier::external_body]
pub struct ExTz(chrono_tz::Tz);

/// How a venue is identified.
#[derive(Debug, Clone)]
pub enum ExchangeCode {
    /// Market Identifier Code (ISO 10383).
    Mic(String),
    /// Code of a cryptocurrency venue, which ISO 10383 does not cover.
    Crypto(String),
}

/// The code's kind and text.
pub open spec fn code_view(c: ExchangeCode) -> (bool, Seq<char>) {
    match c {
        ExchangeCode::Mic(s) => (true, s@),
        ExchangeCode::Crypto(s) => (false, s@),
    }
}

impl ExchangeCode {
    pub fn duplicate(&self) -> (r: ExchangeCode)
        ensures
            code_view(r) == code_view(*self),
    {
        match self {
            ExchangeCode::Mic(s) => ExchangeCode::Mic(s.clone()),
            ExchangeCode::Crypto(s) => ExchangeCode::Crypto(s.clone()),
        }
    }
}

impl PartialEq for ExchangeCode {
    fn eq(&self, other: &ExchangeCode) -> (r: bool) {
        match (self, other) {
            (ExchangeCode::Mic(a), ExchangeCode::Mic(b)) => a.eq(b),
            (ExchangeCode::Crypto(a), ExchangeCode::Crypto(b)) => a.eq(b),
            _ => false,
        }
    }
}

impl vstd::std_specs::cmp::PartialEqSpecImpl for ExchangeCode {
    open spec fn obeys_eq_spec() -> bool {
        true
    }

    open spec fn eq_spec(&self, other: &ExchangeCode) -> bool {
        code_view(*self) == code_view(*other)
    }
}

impl Eq for ExchangeCode {
}

/// An instant in UTC together with the offset of a time zone at that instant.
#[derive(Debug, Clone, Copy, PartialEq, Eq, Structural)]
pub struct ZonedTime {
    /// Seconds since the Unix epoch, in UTC.
    pub utc_seconds: i64,
    /// Local time minus UTC, in seconds.
    pub offset_seconds: i32,
}

/// Relies on chrono's `DateTime::from_timestamp` (None outside the range of
/// representable dates) and on chrono-tz's `offset_from_utc_datetime`, whose
/// offset, as a `FixedOffset`, lies strictly within one day.
#[verifier::external_body]
fn zone_offset_at(zone: chrono_tz::Tz, utc_seconds: i64) -> (r: Option<i32>)
    ensures
        r matches Some(o) ==> -86_400 < o < 86_400,
{
    match chrono::DateTime::from_timestamp(utc_seconds, 0) {
        Some(t) => Some(zone.offset_from_utc_datetime(&t.naive_utc()).fix().local_minus_utc()),
        None => None,
    }
}

/// A trading venue.
pub struct Exchange {
    name: String,
    code: ExchangeCode,
    country: Country,
    timezone: chrono_tz::Tz,
}

impl Exchange {
    pub closed spec fn spec_name(&self) -> Seq<char> {
        self.name@
    }

    pub closed spec fn spec_code(&self) -> (bool, Seq<char>) {
        code_view(self.code)
    }

    pub closed spec fn spec_country(&self) -> Seq<char> {
        self.country@
    }

    pub closed spec fn spec_timezone(&self) -> chrono_tz::Tz {
        self.timezone
    }

    pub fn new(name: &str, code: ExchangeCode, country: Country, timezone: chrono_tz::Tz) -> (r:
        Exchange)
        ensures
            r.spec_name() == name@,
            r.spec_code() == code_view(code),
            r.spec_country() == country@,
            r.spec_timezone() == timezone,
    {
        Exchange { name: name.to_owned(), code, country, timezone }
    }

    pub fn get_name(&self) -> (r: String)
        ensures
            r@ == self.spec_name(),
    {
        self.name.clone()
    }

    pub fn get_code(&self) -> (r: ExchangeCode)
        ensures
            code_view(r) == self.spec_code(),
    {
        self.code.duplicate()
    }

    pub fn get_country(&self) -> (r: Country)
        ensures
            r@ == self.spec_country(),
    {
        self.country
    }

    pub fn get_timezone(&self) -> (r: chrono_tz::Tz)
        ensures
            r == self.spec_timezone(),
    {
        self.timezone
    }

    /// The given instant, seen in the venue's time zone. It stands for the
    /// same instant: converted back to UTC it is `utc_seconds` again. None
    /// only where the instant lies outside the range of representable dates.
    pub fn time(&self, utc_seconds: i64) -> (r: Option<ZonedTime>)
        ensures
            r matches Some(t) ==> t.utc_seconds == utc_seconds && -86_400 < t.offset_seconds
                < 86_400,
    {
        match zone_offset_at(self.timezone, utc_seconds) {
            Some(offset_seconds) => Some(ZonedTime { utc_seconds, offset_seconds }),
            None => None,
        }
    }
}

} // verus!
