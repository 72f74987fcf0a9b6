use tempo_proxy_api::cache::{CalendarEntry, TempoCache};
use tempo_proxy_api::date::Date;
use tempo_proxy_api::error::TempoError;
use tempo_proxy_api::status::TempoStatus;
use tempo_proxy_api::tempo_service::{
    can_request_tomorrow_status, find_status, is_tomorrow_date, now_context, plan_for_date,
    plan_for_pair, resolve_fetched_for_date, resolve_fetched_pair, resolve_fetched_today_only,
    PairAction, ResolveAction,
};

fn d(year: u16, month: u8, day: u8) -> Date {
    Date { year, month, day }
}

fn entry(date: Date, status: TempoStatus) -> CalendarEntry {
    CalendarEntry { date, status }
}

#[test]
fn cache_hit_returns_cached_value() {
    let mut cache = TempoCache::new();
    cache.insert_many(&vec![entry(d(2026, 3, 10), TempoStatus::TempoRouge)]);
    assert_eq!(cache.lookup(&d(2026, 3, 10)), Some(TempoStatus::TempoRouge));
    assert_eq!(cache.lookup(&d(2026, 3, 11)), None);
}

#[test]
fn lookup_never_returns_undefined() {
    let mut cache = TempoCache::new();
    cache.insert_many(&vec![
        entry(d(2026, 3, 10), TempoStatus::TempoBleu),
        entry(d(2026, 3, 11), TempoStatus::NonDefini),
        entry(d(2026, 3, 12), TempoStatus::TempoBlanc),
    ]);
    for day in 9..14 {
        let hit = cache.lookup(&d(2026, 3, day));
        assert_ne!(hit, Some(TempoStatus::NonDefini));
    }
}

#[test]
fn undefined_entry_is_dropped_from_batch() {
    let mut cache = TempoCache::new();
    cache.insert_many(&vec![entry(d(2026, 3, 11), TempoStatus::NonDefini)]);
    assert_eq!(cache.lookup(&d(2026, 3, 11)), None);
}

#[test]
fn undefined_entry_does_not_overwrite_cached_value() {
    let mut cache = TempoCache::new();
    cache.insert_many(&vec![entry(d(2026, 3, 11), TempoStatus::TempoBleu)]);
    cache.insert_many(&vec![entry(d(2026, 3, 11), TempoStatus::NonDefini)]);
    assert_eq!(cache.lookup(&d(2026, 3, 11)), Some(TempoStatus::TempoBleu));
}

#[test]
fn duplicate_dates_in_one_batch_apply_in_order() {
    let mut cache = TempoCache::new();
    let day = d(2026, 3, 10);
    cache.insert_many(&vec![
        entry(day, TempoStatus::TempoBleu),
        entry(day, TempoStatus::TempoRouge),
    ]);
    assert_eq!(cache.lookup(&day), Some(TempoStatus::TempoRouge));
}

#[test]
fn later_batch_overwrites_earlier_value() {
    let mut cache = TempoCache::new();
    let day = d(2026, 3, 10);
    cache.insert_many(&vec![entry(day, TempoStatus::TempoBleu)]);
    cache.insert_many(&vec![entry(day, TempoStatus::TempoBlanc)]);
    assert_eq!(cache.lookup(&day), Some(TempoStatus::TempoBlanc));
}

#[test]
fn concrete_entry_round_trips_through_cache() {
    let mut cache = TempoCache::new();
    let e = entry(d(2025, 12, 31), TempoStatus::TempoBlanc);
    cache.insert_many(&vec![e]);
    assert_eq!(cache.lookup(&e.date), Some(e.status));
}

#[test]
fn miss_then_fetch_then_hit_makes_one_call() {
    let mut cache = TempoCache::new();
    let today = d(2026, 3, 10);
    let hour = 12;

    // First query: a miss asks for exactly one fetch of [date, date].
    let first = plan_for_date(&cache, &today, &today, hour);
    assert_eq!(first, ResolveAction::Fetch(today, today));

    // The fetch answers; completing the query merges and resolves.
    let fetched = vec![entry(today, TempoStatus::TempoRouge)];
    let resolved = resolve_fetched_for_date(&mut cache, &today, &fetched);
    assert_eq!(resolved, Ok(TempoStatus::TempoRouge));

    // Second query: a cache hit, no fetch asked for.
    let second = plan_for_date(&cache, &today, &today, hour);
    assert_eq!(second, ResolveAction::Resolved(TempoStatus::TempoRouge));
}

#[test]
fn tomorrow_before_cutoff_is_policy_undefined() {
    let cache = TempoCache::new();
    let today = d(2026, 3, 10);
    let tomorrow = today.next_day();
    let plan = plan_for_date(&cache, &tomorrow, &today, 10);
    assert_eq!(plan, ResolveAction::Resolved(TempoStatus::NonDefini));
}

#[test]
fn tomorrow_at_cutoff_is_fetched() {
    let cache = TempoCache::new();
    let today = d(2026, 3, 10);
    let tomorrow = today.next_day();
    let plan = plan_for_date(&cache, &tomorrow, &today, 11);
    assert_eq!(plan, ResolveAction::Fetch(tomorrow, tomorrow));
}

#[test]
fn pair_after_cutoff_fetches_both_and_caches_both() {
    let mut cache = TempoCache::new();
    let today = d(2026, 3, 10);
    let tomorrow = today.next_day();

    let plan = plan_for_pair(&cache, &today, 11);
    assert_eq!(plan, PairAction::FetchBoth(today, tomorrow));

    let fetched = vec![
        entry(today, TempoStatus::TempoBleu),
        entry(tomorrow, TempoStatus::TempoRouge),
    ];
    let resolved = resolve_fetched_pair(&mut cache, &today, &tomorrow, &fetched);
    assert_eq!(resolved, Ok((TempoStatus::TempoBleu, TempoStatus::TempoRouge)));

    assert_eq!(cache.lookup(&today), Some(TempoStatus::TempoBleu));
    assert_eq!(cache.lookup(&tomorrow), Some(TempoStatus::TempoRouge));
}

#[test]
fn pair_tolerates_missing_tomorrow() {
    let mut cache = TempoCache::new();
    let today = d(2026, 3, 10);
    let tomorrow = today.next_day();

    let fetched = vec![entry(today, TempoStatus::TempoBleu)];
    let resolved = resolve_fetched_pair(&mut cache, &today, &tomorrow, &fetched);
    assert_eq!(resolved, Ok((TempoStatus::TempoBleu, TempoStatus::NonDefini)));
}

#[test]
fn pair_fully_cached_needs_no_fetch() {
    let mut cache = TempoCache::new();
    let today = d(2026, 3, 10);
    let tomorrow = today.next_day();
    cache.insert_many(&vec![
        entry(today, TempoStatus::TempoBlanc),
        entry(tomorrow, TempoStatus::TempoBleu),
    ]);
    let plan = plan_for_pair(&cache, &today, 7);
    assert_eq!(
        plan,
        PairAction::Done(TempoStatus::TempoBlanc, TempoStatus::TempoBleu)
    );
}

#[test]
fn pair_today_cached_before_cutoff_answers_undefined_tomorrow() {
    let mut cache = TempoCache::new();
    let today = d(2026, 3, 10);
    cache.insert_many(&vec![entry(today, TempoStatus::TempoRouge)]);
    let plan = plan_for_pair(&cache, &today, 10);
    assert_eq!(
        plan,
        PairAction::Done(TempoStatus::TempoRouge, TempoStatus::NonDefini)
    );
}

#[test]
fn pair_today_uncached_before_cutoff_fetches_today_only() {
    let mut cache = TempoCache::new();
    let today = d(2026, 3, 10);

    let plan = plan_for_pair(&cache, &today, 10);
    assert_eq!(plan, PairAction::FetchTodayOnly(today));

    let fetched = vec![entry(today, TempoStatus::TempoBleu)];
    let resolved = resolve_fetched_today_only(&mut cache, &today, &fetched);
    assert_eq!(resolved, Ok((TempoStatus::TempoBleu, TempoStatus::NonDefini)));
}

#[test]
fn missing_today_is_date_not_found_and_cache_stays_clean() {
    let mut cache = TempoCache::new();
    let today = d(2026, 3, 10);
    let other = d(2026, 3, 12);

    let fetched = vec![entry(other, TempoStatus::TempoBleu)];
    let resolved = resolve_fetched_for_date(&mut cache, &today, &fetched);
    assert_eq!(resolved, Err(TempoError::DateNotFound));
    assert_eq!(cache.lookup(&today), None);
}

#[test]
fn missing_today_fails_pair_too() {
    let mut cache = TempoCache::new();
    let today = d(2026, 3, 10);
    let tomorrow = today.next_day();

    let fetched = vec![entry(tomorrow, TempoStatus::TempoRouge)];
    let resolved = resolve_fetched_pair(&mut cache, &today, &tomorrow, &fetched);
    assert_eq!(resolved, Err(TempoError::DateNotFound));
}

#[test]
fn fetched_undefined_is_returned_but_not_cached() {
    let mut cache = TempoCache::new();
    let tomorrow = d(2026, 3, 11);

    let fetched = vec![entry(tomorrow, TempoStatus::NonDefini)];
    let resolved = resolve_fetched_for_date(&mut cache, &tomorrow, &fetched);
    assert_eq!(resolved, Ok(TempoStatus::NonDefini));
    assert_eq!(cache.lookup(&tomorrow), None);
}

#[test]
fn find_status_takes_first_match() {
    let date = d(2026, 3, 10);
    let entries = vec![
        entry(d(2026, 3, 9), TempoStatus::TempoBleu),
        entry(date, TempoStatus::TempoRouge),
        entry(date, TempoStatus::TempoBlanc),
    ];
    assert_eq!(find_status(&entries, &date), Some(TempoStatus::TempoRouge));
    assert_eq!(find_status(&entries, &d(2026, 3, 8)), None);
}

#[test]
fn cutoff_boundary() {
    assert!(!can_request_tomorrow_status(0));
    assert!(!can_request_tomorrow_status(10));
    assert!(can_request_tomorrow_status(11));
    assert!(can_request_tomorrow_status(23));
}

#[test]
fn tomorrow_detection() {
    let today = d(2026, 2, 28);
    assert!(is_tomorrow_date(&d(2026, 3, 1), &today));
    assert!(!is_tomorrow_date(&d(2026, 2, 29), &today));
    assert!(!is_tomorrow_date(&today, &today));
}

#[test]
fn clock_reading_is_usable() {
    let now = now_context().expect("the clock reports a supported year");
    let (today, hour) = now;
    assert!(hour <= 23);
    // The current day always has a tomorrow within the supported calendar.
    let tomorrow = today.next_day();
    assert!(tomorrow != today);
}
