//! The status-resolution engine.
//!
//! Resolving a date's status is a decision (answer from the cache, answer
//! `NonDefini` by the cutoff policy, or fetch a range from the provider)
//! followed, after a fetch, by a merge of the fetched entries into the cache.
//! The decision functions and the merge functions live here; the caller
//! performs the one network call between them and hands the result back.

use vstd::prelude::*;

use chrono::{Datelike, Timelike};

use crate::cache::{merged, CalendarEntry, TempoCache};
use crate::date::Date;
use crate::error::TempoError;
use crate::status::TempoStatus;

verus! {

/// The local hour from which on the provider publishes tomorrow's status.
pub const CUTOFF_HOUR: u8 = 11;

/// True when the day's cutoff has passed, so tomorrow's status may be
/// requested from the provider.
pub open spec fn cutoff_passed(hour: u8) -> bool {
    hour >= CUTOFF_HOUR
}

/// True when tomorrow's status may be requested: the local hour has reached
/// the 11:00 cutoff.
pub fn can_request_tomorrow_status(hour: u8) -> (r: bool)
    ensures
        r == cutoff_passed(hour),
{
    hour >= CUTOFF_HOUR
}

/// True when `date` is the day after `today`.
pub fn is_tomorrow_date(date: &Date, today: &Date) -> (r: bool)
    requires
        today.has_next(),
    ensures
        r == (*date == today.spec_next()),
{
    *date == today.next_day()
}

/// The status of `date` in `entries`, read off the first entry for that
/// date; `None` when the response does not mention the date.
pub open spec fn spec_find_status(entries: Seq<CalendarEntry>, date: Date) -> Option<TempoStatus>
    decreases entries.len(),
{
    if entries.len() == 0 {
        None
    } else if entries[0].date == date {
        Some(entries[0].status)
    } else {
        spec_find_status(entries.drop_first(), date)
    }
}

/// Finds the first entry for `date` in a fetched response.
pub fn find_status(entries: &Vec<CalendarEntry>, date: &Date) -> (r: Option<TempoStatus>)
    ensures
        r == spec_find_status(entries@, *date),
{
    let n = entries.len();
    let mut i: usize = 0;
    proof {
        assert(entries@.skip(0) =~= entries@);
    }
    while i < n
        invariant
            i <= n == entries@.len(),
            spec_find_status(entries@, *date) == spec_find_status(
                entries@.skip(i as int),
                *date,
            ),
        decreases n - i,
    {
        if entries[i].date == *date {
            return Some(entries[i].status);
        }
        proof {
            assert(entries@.skip(i as int).drop_first() =~= entries@.skip(i + 1));
        }
        i = i + 1;
    }
    None
}

/// What a single-date query decides before any network traffic.
#[derive(Clone, Copy, Debug, PartialEq, Eq, Structural)]
pub enum ResolveAction {
    /// The status is known without an upstream call.
    Resolved(TempoStatus),
    /// One upstream call for the inclusive date range is needed.
    Fetch(Date, Date),
}

/// The single-date decision rule: a cached date answers from the cache; an
/// uncached tomorrow before the cutoff answers `NonDefini` as a policy
/// result (no call, no cache write); anything else needs one upstream call
/// for the range `[date, date]`.
pub open spec fn spec_plan_for_date(
    m: Map<u64, TempoStatus>,
    date: Date,
    today: Date,
    hour: u8,
) -> ResolveAction {
    if m.contains_key(date.spec_key()) {
        ResolveAction::Resolved(m[date.spec_key()])
    } else if date == today.spec_next() && !cutoff_passed(hour) {
        ResolveAction::Resolved(TempoStatus::NonDefini)
    } else {
        ResolveAction::Fetch(date, date)
    }
}

/// Decides a single-date query against the cache and the cutoff rule,
/// without performing any upstream call.
pub fn plan_for_date(cache: &TempoCache, date: &Date, today: &Date, hour: u8) -> (r: ResolveAction)
    requires
        today.has_next(),
    ensures
        r == spec_plan_for_date(cache@, *date, *today, hour),
{
    match cache.lookup(date) {
        Some(s) => ResolveAction::Resolved(s),
        None => {
            if is_tomorrow_date(date, today) && !can_request_tomorrow_status(hour) {
                ResolveAction::Resolved(TempoStatus::NonDefini)
            } else {
                ResolveAction::Fetch(*date, *date)
            }
        },
    }
}

/// What a single-date query returns once the fetched entries are in: the
/// first entry for the date, or `DateNotFound` when the response omits it.
pub open spec fn spec_resolve_fetched(entries: Seq<CalendarEntry>, date: Date) -> Result<
    TempoStatus,
    TempoError,
> {
    match spec_find_status(entries, date) {
        Some(s) => Ok(s),
        None => Err(TempoError::DateNotFound),
    }
}

/// Completes a single-date query after a successful fetch: merges every
/// returned entry into the cache, then answers from the response itself.
pub fn resolve_fetched_for_date(
    cache: &mut TempoCache,
    date: &Date,
    entries: &Vec<CalendarEntry>,
) -> (r: Result<TempoStatus, TempoError>)
    ensures
        final(cache)@ == merged(old(cache)@, entries@),
        r == spec_resolve_fetched(entries@, *date),
{
    cache.insert_many(entries);
    match find_status(entries, date) {
        Some(s) => Ok(s),
        None => Err(TempoError::DateNotFound),
    }
}

/// What a combined today-and-tomorrow query decides before any network
/// traffic.
#[derive(Clone, Copy, Debug, PartialEq, Eq, Structural)]
pub enum PairAction {
    /// Both statuses are known without an upstream call.
    Done(TempoStatus, TempoStatus),
    /// One upstream call for the inclusive range `[today, tomorrow]`.
    FetchBoth(Date, Date),
    /// One upstream call for the range `[today, today]` only (tomorrow is
    /// not requestable before the cutoff).
    FetchTodayOnly(Date),
}

/// The combined decision rule, in the precedence order of its cases: both
/// cached — answer from the cache; today cached and before the cutoff —
/// tomorrow is `NonDefini`; after the cutoff — one call covers both dates;
/// else (today uncached, before the cutoff) — one call for today alone.
pub open spec fn spec_plan_for_pair(m: Map<u64, TempoStatus>, today: Date, hour: u8) -> PairAction {
    let t = today.spec_key();
    let w = today.spec_next().spec_key();
    if m.contains_key(t) && m.contains_key(w) {
        PairAction::Done(m[t], m[w])
    } else if m.contains_key(t) && !cutoff_passed(hour) {
        PairAction::Done(m[t], TempoStatus::NonDefini)
    } else if cutoff_passed(hour) {
        PairAction::FetchBoth(today, today.spec_next())
    } else {
        PairAction::FetchTodayOnly(today)
    }
}

/// Decides the combined today-and-tomorrow query against the cache and the
/// cutoff rule, without performing any upstream call.
pub fn plan_for_pair(cache: &TempoCache, today: &Date, hour: u8) -> (r: PairAction)
    requires
        today.has_next(),
    ensures
        r == spec_plan_for_pair(cache@, *today, hour),
{
    let tomorrow = today.next_day();
    let today_cached = cache.lookup(today);
    let tomorrow_cached = cache.lookup(&tomorrow);
    let can_request_tomorrow = can_request_tomorrow_status(hour);
    match (today_cached, tomorrow_cached, can_request_tomorrow) {
        (Some(t), Some(w), _) => PairAction::Done(t, w),
        (Some(t), _, false) => PairAction::Done(t, TempoStatus::NonDefini),
        (_, _, true) => PairAction::FetchBoth(*today, tomorrow),
        (None, _, false) => PairAction::FetchTodayOnly(*today),
    }
}

/// What the combined query returns once the entries fetched for
/// `[today, tomorrow]` are in. Each date answers from its cache value as of
/// before the fetch, else from the response; a missing today is a hard
/// failure, a missing tomorrow is `NonDefini`.
pub open spec fn spec_resolve_fetched_pair(
    m: Map<u64, TempoStatus>,
    entries: Seq<CalendarEntry>,
    today: Date,
    tomorrow: Date,
) -> Result<(TempoStatus, TempoStatus), TempoError> {
    let t = if m.contains_key(today.spec_key()) {
        Some(m[today.spec_key()])
    } else {
        spec_find_status(entries, today)
    };
    let w = if m.contains_key(tomorrow.spec_key()) {
        Some(m[tomorrow.spec_key()])
    } else {
        spec_find_status(entries, tomorrow)
    };
    match (t, w) {
        (Some(a), Some(b)) => Ok((a, b)),
        (Some(a), None) => Ok((a, TempoStatus::NonDefini)),
        (None, _) => Err(TempoError::DateNotFound),
    }
}

/// Completes the combined query after a fetch of `[today, tomorrow]`:
/// merges every returned entry into the cache, then resolves each date from
/// the cache value it had before the fetch, else from the response.
pub fn resolve_fetched_pair(
    cache: &mut TempoCache,
    today: &Date,
    tomorrow: &Date,
    entries: &Vec<CalendarEntry>,
) -> (r: Result<(TempoStatus, TempoStatus), TempoError>)
    ensures
        final(cache)@ == merged(old(cache)@, entries@),
        r == spec_resolve_fetched_pair(old(cache)@, entries@, *today, *tomorrow),
{
    let today_cached = cache.lookup(today);
    let tomorrow_cached = cache.lookup(tomorrow);
    cache.insert_many(entries);
    let t = match today_cached {
        Some(s) => Some(s),
        None => find_status(entries, today),
    };
    let w = match tomorrow_cached {
        Some(s) => Some(s),
        None => find_status(entries, tomorrow),
    };
    match (t, w) {
        (Some(a), Some(b)) => Ok((a, b)),
        (Some(a), None) => Ok((a, TempoStatus::NonDefini)),
        (None, _) => Err(TempoError::DateNotFound),
    }
}

/// What the combined query returns when only `[today, today]` was fetched:
/// today answers from the response (a miss is a hard failure) and tomorrow
/// is `NonDefini`.
pub open spec fn spec_resolve_fetched_today_only(
    entries: Seq<CalendarEntry>,
    today: Date,
) -> Result<(TempoStatus, TempoStatus), TempoError> {
    match spec_find_status(entries, today) {
        Some(s) => Ok((s, TempoStatus::NonDefini)),
        None => Err(TempoError::DateNotFound),
    }
}

/// Completes the combined query after a fetch of `[today, today]` (the
/// before-cutoff case with today uncached): merges the returned entries,
/// answers today from the response and tomorrow as `NonDefini`.
pub fn resolve_fetched_today_only(
    cache: &mut TempoCache,
    today: &Date,
    entries: &Vec<CalendarEntry>,
) -> (r: Result<(TempoStatus, TempoStatus), TempoError>)
    ensures
        final(cache)@ == merged(old(cache)@, entries@),
        r == spec_resolve_fetched_today_only(entries@, *today),
{
    cache.insert_many(entries);
    match find_status(entries, today) {
        Some(s) => Ok((s, TempoStatus::NonDefini)),
        None => Err(TempoError::DateNotFound),
    }
}

/// A response that names `date` yields its first entry for it.
proof fn lemma_find_status_some(entries: Seq<CalendarEntry>, date: Date)
    requires
        spec_find_status(entries, date) is Some,
    ensures
        exists|i: int|
            0 <= i < entries.len() && (#[trigger] entries[i]).date == date && entries[i].status
                == spec_find_status(entries, date).unwrap(),
    decreases entries.len(),
{
    if entries.len() > 0 && entries[0].date != date {
        lemma_find_status_some(entries.drop_first(), date);
        let w = choose|i: int|
            0 <= i < entries.drop_first().len() && (#[trigger] entries.drop_first()[i]).date
                == date && entries.drop_first()[i].status == spec_find_status(
                entries.drop_first(),
                date,
            ).unwrap();
        assert(entries[w + 1].date == date && entries[w + 1].status == spec_find_status(
            entries,
            date,
        ).unwrap());
    }
}

/// A response that names `date` in no entry answers `None` for it.
proof fn lemma_find_status_none(entries: Seq<CalendarEntry>, date: Date)
    requires
        forall|i: int| 0 <= i < entries.len() ==> (#[trigger] entries[i]).date != date,
    ensures
        spec_find_status(entries, date) is None,
    decreases entries.len(),
{
    if entries.len() > 0 {
        lemma_find_status_none(entries.drop_first(), date);
    }
}

/// Before the cutoff, an uncached tomorrow resolves to `NonDefini` as a
/// policy answer: the plan asks for no upstream call and writes nothing to
/// the cache.
pub proof fn lemma_tomorrow_before_cutoff_no_fetch(m: Map<u64, TempoStatus>, today: Date, hour: u8)
    requires
        !m.contains_key(today.spec_next().spec_key()),
        hour < CUTOFF_HOUR,
    ensures
        spec_plan_for_date(m, today.spec_next(), today, hour) == ResolveAction::Resolved(
            TempoStatus::NonDefini,
        ),
{
}

/// Resolving a missed date twice makes at most one upstream call: when the
/// one fetch answers the date with a single agreed concrete status, the
/// merge caches it, and the second query is a cache hit with that status —
/// no second call, whatever day and hour the second query runs under.
pub proof fn lemma_second_resolve_is_hit(
    m: Map<u64, TempoStatus>,
    date: Date,
    today: Date,
    hour: u8,
    entries: Seq<CalendarEntry>,
    s: TempoStatus,
    today2: Date,
    hour2: u8,
)
    requires
        spec_plan_for_date(m, date, today, hour) == ResolveAction::Fetch(date, date),
        spec_resolve_fetched(entries, date) == Ok::<TempoStatus, TempoError>(s),
        s.is_concrete(),
        forall|i: int|
            0 <= i < entries.len() && (#[trigger] entries[i]).date.spec_key() == date.spec_key()
                ==> entries[i].status == s,
    ensures
        spec_plan_for_date(merged(m, entries), date, today2, hour2) == ResolveAction::Resolved(s),
{
    lemma_find_status_some(entries, date);
    let w = choose|i: int|
        0 <= i < entries.len() && (#[trigger] entries[i]).date == date && entries[i].status
            == spec_find_status(entries, date).unwrap();
    crate::cache::lemma_merged_uniform_key(m, entries, w, s);
}

/// A response that omits today entirely fails the single-date query with
/// `DateNotFound`, and the merge leaves the cache without any entry
/// claiming today's status.
pub proof fn lemma_missing_today_fails_cleanly(
    m: Map<u64, TempoStatus>,
    entries: Seq<CalendarEntry>,
    today: Date,
)
    requires
        forall|i: int|
            0 <= i < entries.len() ==> (#[trigger] entries[i]).date.spec_key()
                != today.spec_key(),
    ensures
        spec_resolve_fetched(entries, today) == Err::<TempoStatus, TempoError>(
            TempoError::DateNotFound,
        ),
        merged(m, entries).contains_key(today.spec_key()) == m.contains_key(today.spec_key()),
        m.contains_key(today.spec_key()) ==> merged(m, entries)[today.spec_key()]
            == m[today.spec_key()],
{
    assert(forall|i: int| 0 <= i < entries.len() ==> (#[trigger] entries[i]).date != today);
    lemma_find_status_none(entries, today);
    crate::cache::lemma_merged_untouched_key(m, entries, today.spec_key());
}

/// After the cutoff with today and tomorrow both uncached, the plan makes
/// exactly one upstream call, covering `[today, tomorrow]`; when that call
/// answers both dates, each under a single agreed concrete status, the pair
/// resolves to those two statuses and both dates are cached afterwards.
pub proof fn lemma_pair_one_call_resolves_both(
    m: Map<u64, TempoStatus>,
    today: Date,
    hour: u8,
    entries: Seq<CalendarEntry>,
    a: TempoStatus,
    b: TempoStatus,
)
    requires
        !m.contains_key(today.spec_key()),
        !m.contains_key(today.spec_next().spec_key()),
        cutoff_passed(hour),
        spec_find_status(entries, today) == Some(a),
        a.is_concrete(),
        forall|i: int|
            0 <= i < entries.len() && (#[trigger] entries[i]).date.spec_key() == today.spec_key()
                ==> entries[i].status == a,
        spec_find_status(entries, today.spec_next()) == Some(b),
        b.is_concrete(),
        forall|i: int|
            0 <= i < entries.len() && (#[trigger] entries[i]).date.spec_key()
                == today.spec_next().spec_key() ==> entries[i].status == b,
    ensures
        spec_plan_for_pair(m, today, hour) == PairAction::FetchBoth(today, today.spec_next()),
        spec_resolve_fetched_pair(m, entries, today, today.spec_next()) == Ok::<
            (TempoStatus, TempoStatus),
            TempoError,
        >((a, b)),
        merged(m, entries).contains_key(today.spec_key()) && merged(m, entries)[today.spec_key()]
            == a,
        merged(m, entries).contains_key(today.spec_next().spec_key()) && merged(
            m,
            entries,
        )[today.spec_next().spec_key()] == b,
{
    lemma_find_status_some(entries, today);
    let w1 = choose|i: int|
        0 <= i < entries.len() && (#[trigger] entries[i]).date == today && entries[i].status
            == spec_find_status(entries, today).unwrap();
    crate::cache::lemma_merged_uniform_key(m, entries, w1, a);
    lemma_find_status_some(entries, today.spec_next());
    let w2 = choose|i: int|
        0 <= i < entries.len() && (#[trigger] entries[i]).date == today.spec_next()
            && entries[i].status == spec_find_status(entries, today.spec_next()).unwrap();
    crate::cache::lemma_merged_uniform_key(m, entries, w2, b);
}

/// When the combined fetch answers today but omits tomorrow entirely, the
/// pair still succeeds: today's status together with `NonDefini`, never a
/// failure.
pub proof fn lemma_pair_missing_tomorrow_tolerated(
    m: Map<u64, TempoStatus>,
    today: Date,
    entries: Seq<CalendarEntry>,
    a: TempoStatus,
)
    requires
        !m.contains_key(today.spec_key()),
        !m.contains_key(today.spec_next().spec_key()),
        spec_find_status(entries, today) == Some(a),
        forall|i: int|
            0 <= i < entries.len() ==> (#[trigger] entries[i]).date.spec_key()
                != today.spec_next().spec_key(),
    ensures
        spec_resolve_fetched_pair(m, entries, today, today.spec_next()) == Ok::<
            (TempoStatus, TempoStatus),
            TempoError,
        >((a, TempoStatus::NonDefini)),
{
    assert(forall|i: int|
        0 <= i < entries.len() ==> (#[trigger] entries[i]).date != today.spec_next());
    lemma_find_status_none(entries, today.spec_next());
}

/// A reading of the local wall clock: the civil date and the time of day,
/// as plain values.
#[derive(Clone, Copy, Debug, PartialEq, Eq, Structural)]
pub struct ClockReading {
    pub year: i32,
    pub month: u8,
    pub day: u8,
    pub hour: u8,
    pub minute: u8,
}

/// Relies on `chrono::Local::now` and the `Datelike` / `Timelike` accessors
/// of the date and time it returns: the month ranges over 1 to 12, the day
/// over 1 to 31, the hour over 0 to 23 and the minute over 0 to 59.
#[verifier::external_body]
fn read_local_clock() -> (r: ClockReading)
    ensures
        1 <= r.month <= 12,
        1 <= r.day <= 31,
        r.hour <= 23,
        r.minute <= 59,
{
    let now = chrono::Local::now();
    let date = now.date_naive();
    ClockReading {
        year: date.year(),
        month: date.month() as u8,
        day: date.day() as u8,
        hour: now.hour() as u8,
        minute: now.minute() as u8,
    }
}

/// Reads the local clock once and returns the current civil day and hour.
/// `None` when the clock reports a day outside the supported calendar,
/// which a sane clock never does; every `Some` day has a well-formed
/// successor, so "tomorrow" always exists for it.
pub fn now_context() -> (r: Option<(Date, u8)>)
    ensures
        r matches Some(p) ==> p.0.has_next() && p.1 <= 23,
{
    let c = read_local_clock();
    if c.year < 1 || c.year > 9998 {
        return None;
    }
    match Date::new(c.year as u16, c.month, c.day) {
        Some(d) => Some((d, c.hour)),
        None => None,
    }
}

} // verus!
