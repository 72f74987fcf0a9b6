//! The boundary contract with the upstream provider.
//!
//! The provider answers with rows of two strings: a date written
//! `YYYY-MM-DD` and a status literal. This module turns such rows into
//! checked [`CalendarEntry`] values; a malformed date or an unknown literal
//! is a hard parse failure, never a silent default. Caller-supplied date
//! text goes through [`parse_date_input`] instead, with its own error.

use vstd::prelude::*;
use vstd::utf8::encode_utf8;

use crate::cache::CalendarEntry;
use crate::date::{spec_parse_date, Date};
use crate::error::TempoError;
use crate::status::{spec_parse_status, parse_status_literal};

verus! {

/// The date named by the first field of a provider row, if it is a real
/// `YYYY-MM-DD` day.
pub open spec fn spec_row_date(s: Seq<char>) -> Option<Date> {
    spec_parse_date(encode_utf8(s))
}

/// True when a provider row parses: its date names a real day and its
/// status is one of the published literals.
pub open spec fn spec_row_ok(row: (String, String)) -> bool {
    &&& spec_row_date(row.0@) is Some
    &&& spec_parse_status(row.1@) is Ok
}

/// The entry a well-formed provider row stands for.
pub open spec fn spec_row_entry(row: (String, String)) -> CalendarEntry {
    CalendarEntry {
        date: spec_row_date(row.0@).unwrap(),
        status: spec_parse_status(row.1@).unwrap(),
    }
}

/// Turns the provider's `(date, status)` rows into calendar entries.
/// Succeeds, row for row, exactly when every row parses; any malformed row
/// fails the whole response.
pub fn parse_calendar_entries(raw: &Vec<(String, String)>) -> (r: Result<
    Vec<CalendarEntry>,
    TempoError,
>)
    ensures
        match r {
            Ok(entries) => {
                &&& entries@.len() == raw@.len()
                &&& forall|i: int| 0 <= i < raw@.len() ==> spec_row_ok(#[trigger] raw@[i])
                &&& forall|i: int|
                    0 <= i < raw@.len() ==> entries@[i] == spec_row_entry(#[trigger] raw@[i])
            },
            Err(e) => {
                &&& e == TempoError::UpstreamParseError
                &&& exists|i: int| 0 <= i < raw@.len() && !spec_row_ok(#[trigger] raw@[i])
            },
        },
{
    let n = raw.len();
    let mut out: Vec<CalendarEntry> = Vec::new();
    let mut i: usize = 0;
    while i < n
        invariant
            i <= n == raw@.len(),
            out@.len() == i,
            forall|j: int| 0 <= j < i ==> spec_row_ok(#[trigger] raw@[j]),
            forall|j: int| 0 <= j < i ==> out@[j] == spec_row_entry(#[trigger] raw@[j]),
        decreases n - i,
    {
        let row = &raw[i];
        let date = match Date::parse(row.0.as_str()) {
            Some(d) => d,
            None => {
                return Err(TempoError::UpstreamParseError);
            },
        };
        let status = match parse_status_literal(row.1.as_str()) {
            Ok(s) => s,
            Err(_) => {
                return Err(TempoError::UpstreamParseError);
            },
        };
        out.push(CalendarEntry { date, status });
        i = i + 1;
    }
    Ok(out)
}

/// Reads a date supplied by a caller of the service. A string that is not a
/// real `YYYY-MM-DD` day is rejected as `InvalidDateInput`, before any cache
/// or upstream interaction.
pub fn parse_date_input(s: &str) -> (r: Result<Date, TempoError>)
    ensures
        r == match spec_parse_date(encode_utf8(s@)) {
            Some(d) => Ok::<Date, TempoError>(d),
            None => Err::<Date, TempoError>(TempoError::InvalidDateInput),
        },
{
    match Date::parse(s) {
        Some(d) => Ok(d),
        None => Err(TempoError::InvalidDateInput),
    }
}

} // verus!
