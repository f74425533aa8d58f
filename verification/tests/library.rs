use santo_del_giorno::date::{clamp_clock_date, days_in_month, leap_year, next_day, prev_day,
    today, weekday_from_sunday, Date};
use santo_del_giorno::date_text::{format_ymd, header_text, header_text_with, month_name,
    parse_ymd, weekday_name};
use santo_del_giorno::feed::feed_url;
use santo_del_giorno::record::SaintApi;
use santo_del_giorno::render::{failure_message, render_card, render_card_area, render_cards,
    CardAreaView};
use santo_del_giorno::state::{current_date, initial, step, Action, AppState, Event, FetchError};

fn date(year: u16, month: u8, day: u8) -> Date {
    Date { year, month, day }
}

#[test]
fn leap_years() {
    assert!(leap_year(2024));
    assert!(leap_year(2000));
    assert!(!leap_year(1900));
    assert!(!leap_year(2023));
    assert!(!leap_year(9999));
}

#[test]
fn month_lengths() {
    assert_eq!(days_in_month(2023, 2), 28);
    assert_eq!(days_in_month(2024, 2), 29);
    assert_eq!(days_in_month(2024, 1), 31);
    assert_eq!(days_in_month(2024, 4), 30);
    assert_eq!(days_in_month(2024, 12), 31);
}

#[test]
fn next_day_within_month() {
    assert_eq!(next_day(&date(2024, 3, 15)), date(2024, 3, 16));
}

#[test]
fn next_day_month_boundary() {
    assert_eq!(next_day(&date(2024, 1, 31)), date(2024, 2, 1));
    assert_eq!(next_day(&date(2024, 2, 29)), date(2024, 3, 1));
    assert_eq!(next_day(&date(2023, 2, 28)), date(2023, 3, 1));
}

#[test]
fn next_day_year_boundary() {
    assert_eq!(next_day(&date(2023, 12, 31)), date(2024, 1, 1));
}

#[test]
fn prev_day_within_month() {
    assert_eq!(prev_day(&date(2024, 3, 15)), date(2024, 3, 14));
}

#[test]
fn prev_day_month_boundary() {
    assert_eq!(prev_day(&date(2024, 3, 1)), date(2024, 2, 29));
    assert_eq!(prev_day(&date(2023, 3, 1)), date(2023, 2, 28));
    assert_eq!(prev_day(&date(2024, 2, 1)), date(2024, 1, 31));
}

#[test]
fn prev_day_year_boundary() {
    assert_eq!(prev_day(&date(2024, 1, 1)), date(2023, 12, 31));
}

#[test]
fn advance_then_back_is_identity() {
    let starts = [
        date(2024, 1, 31),
        date(2023, 12, 31),
        date(2024, 2, 28),
        date(2024, 2, 29),
        date(2024, 3, 15),
        date(1, 1, 1),
    ];
    for d in starts {
        assert_eq!(prev_day(&next_day(&d)), d);
    }
    assert_eq!(next_day(&prev_day(&date(9999, 12, 31))), date(9999, 12, 31));
}

#[test]
fn weekdays() {
    // 2024-03-15 was a Friday, 1970-01-01 a Thursday, 2000-02-29 a Tuesday.
    assert_eq!(weekday_from_sunday(&date(2024, 3, 15)), 5);
    assert_eq!(weekday_from_sunday(&date(1970, 1, 1)), 4);
    assert_eq!(weekday_from_sunday(&date(2000, 2, 29)), 2);
    assert_eq!(weekday_from_sunday(&date(1, 1, 1)), 1);
}

#[test]
fn formats_ymd_with_padding() {
    assert_eq!(format_ymd(&date(2024, 3, 15)), "2024-03-15");
    assert_eq!(format_ymd(&date(476, 9, 4)), "0476-09-04");
    assert_eq!(format_ymd(&date(1, 1, 1)), "0001-01-01");
    assert_eq!(format_ymd(&date(9999, 12, 31)), "9999-12-31");
}

#[test]
fn parses_ymd() {
    assert_eq!(parse_ymd("2024-03-15"), Some(date(2024, 3, 15)));
    assert_eq!(parse_ymd("0001-01-01"), Some(date(1, 1, 1)));
    assert_eq!(parse_ymd("2024-02-29"), Some(date(2024, 2, 29)));
}

#[test]
fn rejects_bad_ymd() {
    assert_eq!(parse_ymd(""), None);
    assert_eq!(parse_ymd("2024-3-15"), None);
    assert_eq!(parse_ymd("2024/03/15"), None);
    assert_eq!(parse_ymd("2024-13-01"), None);
    assert_eq!(parse_ymd("2024-00-10"), None);
    assert_eq!(parse_ymd("2023-02-29"), None);
    assert_eq!(parse_ymd("2024-04-31"), None);
    assert_eq!(parse_ymd("0000-01-01"), None);
    assert_eq!(parse_ymd("2024-03-150"), None);
    assert_eq!(parse_ymd("2o24-03-15"), None);
}

#[test]
fn format_parse_roundtrip() {
    let starts = [
        date(2024, 3, 15),
        date(1, 1, 1),
        date(9999, 12, 31),
        date(2024, 2, 29),
        date(800, 12, 25),
    ];
    for d in starts {
        assert_eq!(parse_ymd(format_ymd(&d).as_str()), Some(d));
    }
}

#[test]
fn feed_url_for_a_date() {
    assert_eq!(
        feed_url(&date(2024, 3, 15)),
        "https://www.santodelgiorno.it/santi.json?data=2024-03-15"
    );
}

#[test]
fn italian_names() {
    assert_eq!(weekday_name(0), "domenica");
    assert_eq!(weekday_name(5), "venerdì");
    assert_eq!(weekday_name(6), "sabato");
    assert_eq!(month_name(1), "gennaio");
    assert_eq!(month_name(3), "marzo");
    assert_eq!(month_name(12), "dicembre");
}

#[test]
fn header_line() {
    assert_eq!(header_text(&date(2024, 3, 15)), "venerdì 15 marzo");
    assert_eq!(header_text(&date(2024, 3, 5)), "martedì 5 marzo");
    assert_eq!(header_text(&date(2023, 12, 31)), "domenica 31 dicembre");
}

#[test]
fn header_line_with_custom_tables() {
    let days: Vec<String> = ["Sunday", "Monday", "Tuesday", "Wednesday", "Thursday", "Friday",
        "Saturday"]
        .iter()
        .map(|s| s.to_string())
        .collect();
    let months: Vec<String> = ["January", "February", "March", "April", "May", "June", "July",
        "August", "September", "October", "November", "December"]
        .iter()
        .map(|s| s.to_string())
        .collect();
    assert_eq!(header_text_with(&date(2024, 3, 15), &days, &months), "Friday 15 March");
    assert_eq!(header_text_with(&date(2024, 3, 5), &days, &months), "Tuesday 5 March");
}

#[test]
fn header_line_with_italian_tables_matches_default() {
    let days: Vec<String> = (0..7).map(|w| weekday_name(w).to_string()).collect();
    let months: Vec<String> = (1..=12).map(|m| month_name(m).to_string()).collect();
    let d = date(2023, 12, 31);
    assert_eq!(header_text_with(&d, &days, &months), header_text(&d));
}

#[test]
fn today_is_a_valid_date() {
    let d = today();
    assert!((1..=9999).contains(&d.year));
    assert!((1..=12).contains(&d.month));
    assert!(d.day >= 1 && d.day <= days_in_month(d.year, d.month));
}

#[test]
fn clock_date_clamping() {
    assert_eq!(clamp_clock_date(2024, 3, 15), date(2024, 3, 15));
    assert_eq!(clamp_clock_date(0, 6, 6), date(1, 1, 1));
    assert_eq!(clamp_clock_date(-44, 3, 15), date(1, 1, 1));
    assert_eq!(clamp_clock_date(10000, 1, 1), date(9999, 12, 31));
}

fn test_saint() -> SaintApi {
    SaintApi {
        nome: String::from("Test Saint"),
        tipologia: String::from("Martire"),
        urlimmagine: None,
        descrizione: Some(String::from("desc")),
    }
}

#[test]
fn card_without_image() {
    let c = render_card(&test_saint());
    assert!(c.image.is_none());
    assert_eq!(c.name, "Test Saint");
    assert_eq!(c.category, "Martire");
    assert_eq!(c.description, "desc");
}

#[test]
fn card_with_image() {
    let s = SaintApi {
        nome: String::from("San Rocco"),
        tipologia: String::from("Pellegrino"),
        urlimmagine: Some(String::from("https://example.invalid/rocco.jpg")),
        descrizione: None,
    };
    let c = render_card(&s);
    assert_eq!(c.image.as_deref(), Some("https://example.invalid/rocco.jpg"));
    assert_eq!(c.name, "San Rocco");
    assert_eq!(c.category, "Pellegrino");
    assert_eq!(c.description, "");
}

#[test]
fn empty_list_renders_no_cards() {
    let cards = render_cards(&Vec::new());
    assert_eq!(cards.len(), 0);
}

#[test]
fn cards_keep_order() {
    let a = SaintApi {
        nome: String::from("A"),
        tipologia: String::from("ta"),
        urlimmagine: None,
        descrizione: None,
    };
    let b = SaintApi {
        nome: String::from("B"),
        tipologia: String::from("tb"),
        urlimmagine: Some(String::from("u")),
        descrizione: Some(String::from("db")),
    };
    let cards = render_cards(&vec![a, b]);
    assert_eq!(cards.len(), 2);
    assert_eq!(cards[0].name, "A");
    assert_eq!(cards[0].description, "");
    assert_eq!(cards[1].name, "B");
    assert_eq!(cards[1].image.as_deref(), Some("u"));
}

#[test]
fn failure_lines() {
    assert_eq!(
        failure_message(&date(2024, 3, 15), &FetchError::Network),
        "impossibile caricare i santi del 2024-03-15 (errore di rete)"
    );
    assert_eq!(
        failure_message(&date(2024, 3, 15), &FetchError::Decode),
        "impossibile caricare i santi del 2024-03-15 (risposta non valida)"
    );
}

#[test]
fn load_starts_a_fetch_for_the_shown_date() {
    let d = date(2024, 3, 15);
    let s = initial(d);
    assert!(matches!(s, AppState::Idle { .. }));
    assert_eq!(current_date(&s), d);
    let (s, a) = step(s, Event::Load);
    assert!(matches!(s, AppState::Fetching { date } if date == d));
    assert!(matches!(a, Action::StartFetch { date } if date == d));
}

#[test]
fn one_record_for_the_mocked_date() {
    // The feed answers for 2024-03-15 with one record and no image: the
    // card area shows exactly one card with that record's fields.
    let d = date(2024, 3, 15);
    let (s, _) = step(initial(d), Event::Load);
    let (s, a) = step(
        s,
        Event::Arrived { date: d, outcome: Ok(vec![test_saint()]) },
    );
    assert!(matches!(a, Action::Stay));
    match render_card_area(&s) {
        CardAreaView::Cards { cards } => {
            assert_eq!(cards.len(), 1);
            assert!(cards[0].image.is_none());
            assert_eq!(cards[0].name, "Test Saint");
            assert_eq!(cards[0].category, "Martire");
            assert_eq!(cards[0].description, "desc");
        },
        _ => panic!("expected cards"),
    }
}

#[test]
fn empty_answer_renders_zero_cards() {
    let d = date(2024, 3, 15);
    let (s, _) = step(initial(d), Event::Load);
    let (s, _) = step(s, Event::Arrived { date: d, outcome: Ok(Vec::new()) });
    match render_card_area(&s) {
        CardAreaView::Cards { cards } => assert_eq!(cards.len(), 0),
        _ => panic!("expected cards"),
    }
}

#[test]
fn pending_fetch_shows_loading() {
    let d = date(2024, 3, 15);
    let (s, _) = step(initial(d), Event::Load);
    assert!(matches!(render_card_area(&s), CardAreaView::Loading));
}

#[test]
fn stale_answer_is_discarded() {
    let d = date(2024, 3, 15);
    let (s, _) = step(initial(d), Event::Load);
    let (s, a) = step(s, Event::NextDay);
    assert!(matches!(a, Action::StartFetch { date } if date == date_next(d)));
    // The answer for the old date arrives after the user moved on.
    let (s, a) = step(
        s,
        Event::Arrived { date: d, outcome: Ok(vec![test_saint()]) },
    );
    assert!(matches!(a, Action::Stay));
    assert!(matches!(s, AppState::Fetching { date } if date == date_next(d)));
}

fn date_next(d: Date) -> Date {
    next_day(&d)
}

#[test]
fn failed_fetch_is_shown_and_navigation_recovers() {
    let d = date(2024, 3, 15);
    let (s, _) = step(initial(d), Event::Load);
    let (s, _) = step(
        s,
        Event::Arrived { date: d, outcome: Err(FetchError::Network) },
    );
    assert!(matches!(s, AppState::Failed { .. }));
    match render_card_area(&s) {
        CardAreaView::Failure { message } => {
            assert!(message.contains("2024-03-15"));
        },
        _ => panic!("expected a failure line"),
    }
    // The header's controls still work: moving on starts a fresh fetch.
    let expected = date(2024, 3, 16);
    let (s, a) = step(s, Event::NextDay);
    assert!(matches!(s, AppState::Fetching { date } if date == expected));
    assert!(matches!(a, Action::StartFetch { date } if date == expected));
}

#[test]
fn navigation_moves_from_any_state() {
    let d = date(2024, 1, 1);
    let (s, _) = step(initial(d), Event::Load);
    let (s, _) = step(s, Event::PrevDay);
    assert_eq!(current_date(&s), date(2023, 12, 31));
    let (s, _) = step(s, Event::NextDay);
    assert_eq!(current_date(&s), d);
}

#[test]
fn navigation_saturates_at_the_range_ends() {
    let (s, a) = step(initial(date(1, 1, 1)), Event::PrevDay);
    assert!(matches!(a, Action::Stay));
    assert_eq!(current_date(&s), date(1, 1, 1));
    let (s, a) = step(initial(date(9999, 12, 31)), Event::NextDay);
    assert!(matches!(a, Action::Stay));
    assert_eq!(current_date(&s), date(9999, 12, 31));
}
