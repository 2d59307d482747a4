use roya_routes::amount::Amount;
use roya_routes::customers::{
    clean_opt, parse_date_or_today, parse_opt_decimal, parse_opt_i64, parse_required_decimal,
};
use roya_routes::date::Date;
use roya_routes::documents::{clean_filter_text, parse_optional_date};
use roya_routes::error::AppError;
use roya_routes::text::{
    concat3, contains_text, count_text, eq_ignore_ascii_case, id_text, join, read_i64, trim,
};

fn amount(text: &str) -> Amount {
    parse_required_decimal(text, "amount").unwrap()
}

fn date(year: i32, month: u32, day: u32) -> Date {
    Date::from_ymd_opt(year, month, day).unwrap()
}

fn validation(error: AppError) -> String {
    match error {
        AppError::Validation(m) => m,
        other => panic!("a validation error was expected, not {other:?}"),
    }
}

#[test]
fn trimming_drops_every_kind_of_white_space_at_the_ends() {
    assert_eq!(trim("  a b\t\n"), "a b");
    assert_eq!(trim("\u{00a0}\u{2003}x\u{3000}"), "x");
    assert_eq!(trim("\u{200b}x"), "\u{200b}x");
    assert_eq!(trim(" \u{0085} "), "");
    assert_eq!(trim(""), "");
    for c in ['\u{0009}', '\u{000d}', '\u{1680}', '\u{2028}', '\u{202f}', '\u{205f}', 'x', '\u{feff}'] {
        let padded = format!("{c}x{c}");
        assert_eq!(trim(&padded), padded.trim());
    }
}

#[test]
fn trimming_twice_is_trimming_once() {
    for s in ["", " ", " a ", "a", "\t a\u{00a0}b \n"] {
        assert_eq!(trim(trim(s)), trim(s));
    }
}

#[test]
fn ids_are_written_and_read_back() {
    for n in [0, 1, 9, 10, -1, -10, 42, 1_000_000, i64::MAX, i64::MIN] {
        assert_eq!(id_text(n), n.to_string());
        assert_eq!(read_i64(&id_text(n)), Some(n));
    }
    assert_eq!(count_text(0), "0");
    assert_eq!(count_text(usize::MAX), usize::MAX.to_string());
}

#[test]
fn integers_are_read_like_the_standard_parser_reads_them() {
    for s in [
        "", "+", "-", "+5", "-0", "007", "5 ", " 5", "5a", "0x5", "+-5", "1_000",
        "9223372036854775807", "9223372036854775808", "-9223372036854775808",
        "-9223372036854775809", "00000000000000000000000001", "٣",
    ] {
        assert_eq!(read_i64(s), s.parse::<i64>().ok(), "{s:?}");
    }
}

#[test]
fn texts_are_joined_and_searched() {
    assert_eq!(concat3("a", "", "ñ"), "añ");
    assert_eq!(join(&["a".to_string(), "b".to_string()], ", "), "a, b");
    assert_eq!(join(&[], ", "), "");
    assert!(contains_text("maría pérez", "pér"));
    assert!(contains_text("abc", ""));
    assert!(contains_text("", ""));
    assert!(contains_text("aab", "ab"));
    assert!(!contains_text("abc", "abcd"));
    assert!(!contains_text("abc", "ac"));
    assert!(eq_ignore_ascii_case("TRUE", "true"));
    assert!(!eq_ignore_ascii_case("É", "é"));
    assert!(!eq_ignore_ascii_case("true", "true "));
}

#[test]
fn amounts_print_what_was_read() {
    for (raw, printed) in [
        ("10.50", "10.50"),
        (" 1.5 ", "1.5"),
        ("-3", "-3"),
        ("0", "0"),
        ("0.00", "0.00"),
        (".5", "0.5"),
        ("79228162514264337593543950335", "79228162514264337593543950335"),
        ("0.0000000000000000000000000001", "0.0000000000000000000000000001"),
        ("1_000.25", "1000.25"),
    ] {
        assert_eq!(amount(raw).text(), printed);
    }
    assert_eq!(Amount::zero().text(), "0");
    assert_eq!(
        Amount::from_parts(1050, 0, 0, true, 2).unwrap().text(),
        "-10.50"
    );
    assert_eq!(
        Amount::from_parts(0, 1, 0, false, 3).unwrap().text(),
        "4294967.296"
    );
    assert_eq!(Amount::from_parts(5, 6, 7, true, 8).unwrap().parts(), (true, 7, 6, 5, 8));
    assert!(Amount::from_parts(1, 0, 0, false, 29).is_none());
}

#[test]
fn amounts_compare_by_value_and_not_by_scale() {
    assert!(amount("1.50").equals(&amount("1.5")));
    assert!(!amount("1.50").exceeds(&amount("1.5")));
    assert!(amount("1.51").exceeds(&amount("1.5")));
    assert!(amount("-1").exceeds(&amount("-2")));
    assert!(!amount("-1").exceeds(&amount("0")));
    assert!(amount("0.00").equals(&amount("-0")));
    assert!(!amount("0").exceeds(&amount("0.000")));
    assert!(amount("79228162514264337593543950335")
        .exceeds(&amount("7.9228162514264337593543950335")));
}

#[test]
fn required_amounts_name_the_field_that_was_wrong() {
    assert_eq!(
        validation(parse_required_decimal("  ", "amount").err().unwrap()),
        "invalid amount"
    );
    assert_eq!(
        validation(parse_required_decimal(" 1,5 ", "amount").err().unwrap()),
        "invalid amount"
    );
}

#[test]
fn optional_fields_may_be_left_empty() {
    assert!(parse_opt_decimal(" ", "credit_limit").unwrap().is_none());
    assert_eq!(
        parse_opt_decimal("7.20", "credit_limit").unwrap().unwrap().text(),
        "7.20"
    );
    assert_eq!(
        validation(parse_opt_decimal("x", "credit_limit").err().unwrap()),
        "invalid credit_limit"
    );
    assert_eq!(parse_opt_i64("", "payment_days").unwrap(), None);
    assert_eq!(parse_opt_i64(" 30 ", "payment_days").unwrap(), Some(30));
    assert_eq!(
        validation(parse_opt_i64("1.5", "payment_days").err().unwrap()),
        "invalid payment_days"
    );
    assert_eq!(clean_opt("  "), None);
    assert_eq!(clean_opt(" a "), Some("a".to_string()));
    assert_eq!(clean_filter_text("\t"), None);
    assert_eq!(clean_filter_text(" fac-1 "), Some("fac-1".to_string()));
}

#[test]
fn dates_print_the_way_they_are_read() {
    assert_eq!(date(2026, 7, 4).text(), "2026-07-04");
    assert_eq!(date(5, 1, 2).text(), "0005-01-02");
    assert_eq!(date(-5, 1, 2).text(), "-0005-01-02");
    assert_eq!(date(12345, 12, 31).text(), "+12345-12-31");
    assert_eq!(date(2026, 7, 4).ymd(), (2026, 7, 4));
    assert!(Date::from_ymd_opt(2026, 2, 29).is_none());
    assert!(Date::from_ymd_opt(2024, 2, 29).is_some());
    assert!(Date::from_ymd_opt(2026, 13, 1).is_none());
    for d in [
        date(2026, 7, 4),
        date(1, 1, 1),
        date(0, 2, 29),
        date(-5, 3, 1),
        date(-262143, 1, 1),
        date(262142, 12, 31),
        date(12345, 12, 31),
    ] {
        assert_eq!(parse_optional_date(&d.text()).unwrap().ymd(), d.ymd());
    }
}

#[test]
fn days_are_ordered() {
    assert!(date(2025, 12, 31).before(&date(2026, 1, 1)));
    assert!(date(2026, 1, 31).before(&date(2026, 2, 1)));
    assert!(date(2026, 1, 1).before(&date(2026, 1, 2)));
    assert!(!date(2026, 1, 1).before(&date(2026, 1, 1)));
    assert!(!date(2026, 2, 1).before(&date(2026, 1, 31)));
}

#[test]
fn a_date_filter_that_cannot_be_read_is_absent() {
    assert!(parse_optional_date("").is_none());
    assert!(parse_optional_date("not a date").is_none());
    assert!(parse_optional_date("2026-02-30").is_none());
    assert_eq!(parse_optional_date(" 2026-1-5 ").unwrap().text(), "2026-01-05");
}

#[test]
fn a_form_date_falls_back_to_today_only_where_it_is_empty() {
    let today = date(2026, 3, 4);
    assert_eq!(parse_date_or_today(" ", today).unwrap().ymd(), (2026, 3, 4));
    assert_eq!(parse_date_or_today("2025-01-02", today).unwrap().ymd(), (2025, 1, 2));
    assert_eq!(
        validation(parse_date_or_today("mañana", today).err().unwrap()),
        "invalid date (YYYY-MM-DD)"
    );
}
