use tempo_proxy_api::cache::CalendarEntry;
use tempo_proxy_api::date::Date;
use tempo_proxy_api::error::TempoError;
use tempo_proxy_api::mime::get_mime_type;
use tempo_proxy_api::status::{parse_status_literal, status_literal, TempoStatus};
use tempo_proxy_api::upstream::{parse_calendar_entries, parse_date_input};

fn d(year: u16, month: u8, day: u8) -> Date {
    Date { year, month, day }
}

#[test]
fn date_new_accepts_real_days() {
    assert_eq!(Date::new(2026, 3, 10), Some(d(2026, 3, 10)));
    assert_eq!(Date::new(2024, 2, 29), Some(d(2024, 2, 29)));
    assert_eq!(Date::new(2026, 12, 31), Some(d(2026, 12, 31)));
}

#[test]
fn date_new_rejects_impossible_days() {
    assert_eq!(Date::new(2023, 2, 29), None);
    assert_eq!(Date::new(2026, 4, 31), None);
    assert_eq!(Date::new(2026, 13, 1), None);
    assert_eq!(Date::new(2026, 0, 10), None);
    assert_eq!(Date::new(2026, 3, 0), None);
    assert_eq!(Date::new(0, 1, 1), None);
}

#[test]
fn leap_year_rules() {
    assert_eq!(Date::new(2000, 2, 29), Some(d(2000, 2, 29)));
    assert_eq!(Date::new(1900, 2, 29), None);
    assert_eq!(Date::new(2100, 2, 29), None);
}

#[test]
fn next_day_steps_through_month_and_year_ends() {
    assert_eq!(d(2026, 3, 10).next_day(), d(2026, 3, 11));
    assert_eq!(d(2026, 1, 31).next_day(), d(2026, 2, 1));
    assert_eq!(d(2026, 2, 28).next_day(), d(2026, 3, 1));
    assert_eq!(d(2024, 2, 28).next_day(), d(2024, 2, 29));
    assert_eq!(d(2024, 2, 29).next_day(), d(2024, 3, 1));
    assert_eq!(d(2025, 12, 31).next_day(), d(2026, 1, 1));
}

#[test]
fn date_key_is_the_digits_read_as_a_number() {
    assert_eq!(d(2026, 3, 10).key(), 20260310);
    assert_eq!(d(987, 1, 5).key(), 9870105);
}

#[test]
fn date_parse_reads_iso_dates() {
    assert_eq!(Date::parse("2026-03-10"), Some(d(2026, 3, 10)));
    assert_eq!(Date::parse("2024-02-29"), Some(d(2024, 2, 29)));
    assert_eq!(Date::parse("0987-01-05"), Some(d(987, 1, 5)));
}

#[test]
fn date_parse_rejects_other_shapes() {
    assert_eq!(Date::parse(""), None);
    assert_eq!(Date::parse("2026-3-10"), None);
    assert_eq!(Date::parse("2026/03/10"), None);
    assert_eq!(Date::parse("2026-03-10x"), None);
    assert_eq!(Date::parse("2026-03-1o"), None);
    assert_eq!(Date::parse("2023-02-29"), None);
    assert_eq!(Date::parse("2026-00-10"), None);
    assert_eq!(Date::parse("0000-01-01"), None);
}

#[test]
fn date_format_pads_to_four_two_two() {
    assert_eq!(d(2026, 3, 10).format(), "2026-03-10");
    assert_eq!(d(987, 1, 5).format(), "0987-01-05");
    assert_eq!(d(2024, 12, 31).format(), "2024-12-31");
}

#[test]
fn date_format_then_parse_round_trips() {
    for &date in &[d(2026, 3, 10), d(2024, 2, 29), d(1, 1, 1), d(9999, 12, 31)] {
        let text = date.format();
        assert_eq!(Date::parse(&text), Some(date));
    }
}

#[test]
fn status_literals_parse() {
    assert_eq!(parse_status_literal("TEMPO_BLEU"), Ok(TempoStatus::TempoBleu));
    assert_eq!(parse_status_literal("TEMPO_ROUGE"), Ok(TempoStatus::TempoRouge));
    assert_eq!(parse_status_literal("TEMPO_BLANC"), Ok(TempoStatus::TempoBlanc));
    assert_eq!(parse_status_literal("NON_DEFINI"), Ok(TempoStatus::NonDefini));
}

#[test]
fn unknown_status_literal_is_a_parse_failure() {
    assert_eq!(
        parse_status_literal("TEMPO_VERT"),
        Err(TempoError::UpstreamParseError)
    );
    assert_eq!(
        parse_status_literal("tempo_bleu"),
        Err(TempoError::UpstreamParseError)
    );
    assert_eq!(parse_status_literal(""), Err(TempoError::UpstreamParseError));
}

#[test]
fn status_literal_round_trips() {
    for &s in &[
        TempoStatus::TempoBleu,
        TempoStatus::TempoRouge,
        TempoStatus::TempoBlanc,
        TempoStatus::NonDefini,
    ] {
        assert_eq!(parse_status_literal(status_literal(&s)), Ok(s));
    }
}

#[test]
fn calendar_rows_parse_to_entries() {
    let raw = vec![
        ("2026-03-10".to_string(), "TEMPO_BLEU".to_string()),
        ("2026-03-11".to_string(), "NON_DEFINI".to_string()),
    ];
    let entries = parse_calendar_entries(&raw).expect("both rows are well-formed");
    assert_eq!(
        entries,
        vec![
            CalendarEntry { date: d(2026, 3, 10), status: TempoStatus::TempoBleu },
            CalendarEntry { date: d(2026, 3, 11), status: TempoStatus::NonDefini },
        ]
    );
}

#[test]
fn calendar_row_with_bad_date_fails_the_response() {
    let raw = vec![
        ("2026-03-10".to_string(), "TEMPO_BLEU".to_string()),
        ("not-a-date".to_string(), "TEMPO_BLEU".to_string()),
    ];
    assert_eq!(
        parse_calendar_entries(&raw),
        Err(TempoError::UpstreamParseError)
    );
}

#[test]
fn calendar_row_with_unknown_literal_fails_the_response() {
    let raw = vec![("2026-03-10".to_string(), "TEMPO_VIOLET".to_string())];
    assert_eq!(
        parse_calendar_entries(&raw),
        Err(TempoError::UpstreamParseError)
    );
}

#[test]
fn caller_date_input_is_validated_first() {
    assert_eq!(parse_date_input("2026-03-10"), Ok(d(2026, 3, 10)));
    assert_eq!(
        parse_date_input("10/03/2026"),
        Err(TempoError::InvalidDateInput)
    );
    assert_eq!(
        parse_date_input("2026-02-30"),
        Err(TempoError::InvalidDateInput)
    );
}

#[test]
fn error_messages_name_each_failure() {
    assert_eq!(
        TempoError::UpstreamUnavailable.message(),
        "upstream API call failed"
    );
    assert_eq!(
        TempoError::UpstreamParseError.message(),
        "upstream response could not be parsed"
    );
    assert_eq!(
        TempoError::DateNotFound.message(),
        "date not found in upstream response"
    );
    assert_eq!(TempoError::InvalidDateInput.message(), "invalid date input");
}

#[test]
fn mime_types_by_extension() {
    assert_eq!(get_mime_type("index.html"), "text/html");
    assert_eq!(get_mime_type("app.css"), "text/css");
    assert_eq!(get_mime_type("bundle.js"), "application/javascript");
    assert_eq!(get_mime_type("openapi.json"), "application/json");
    assert_eq!(get_mime_type("logo.png"), "image/png");
    assert_eq!(get_mime_type("photo.jpg"), "image/jpeg");
    assert_eq!(get_mime_type("photo.jpeg"), "image/jpeg");
    assert_eq!(get_mime_type("icon.svg"), "image/svg+xml");
}

#[test]
fn mime_of_nested_paths_uses_the_file_name() {
    assert_eq!(get_mime_type("assets/img/logo.png"), "image/png");
    assert_eq!(get_mime_type("a/b/c.svg"), "image/svg+xml");
    assert_eq!(get_mime_type("dir.d/file"), "application/octet-stream");
}

#[test]
fn mime_without_usable_extension_is_octet_stream() {
    assert_eq!(get_mime_type(""), "application/octet-stream");
    assert_eq!(get_mime_type("README"), "application/octet-stream");
    assert_eq!(get_mime_type(".bashrc"), "application/octet-stream");
    assert_eq!(get_mime_type("file."), "application/octet-stream");
    assert_eq!(get_mime_type("archive.tar.gz"), "application/octet-stream");
    assert_eq!(get_mime_type("trailing/"), "application/octet-stream");
}
