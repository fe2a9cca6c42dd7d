use forecasts_ingester::numtext::fmt_2;
use forecasts_ingester::numtext::fmt_4;
use forecasts_ingester::numtext::fmt_i64;
use forecasts_ingester::numtext::fmt_u64;
use forecasts_ingester::numtext::parse_dec_milli;
use forecasts_ingester::numtext::parse_i64;
use forecasts_ingester::numtext::parse_u64;
use forecasts_ingester::time::civil_to_unix;
use forecasts_ingester::time::CivilDateTime;
use forecasts_ingester::time::fmt_rfc3339;
use forecasts_ingester::time::month_len;
use forecasts_ingester::time::parse_datetime;
use forecasts_ingester::time::parse_hour_minute;

#[test]
fn decimal_formatting_is_canonical() {
    assert_eq!(fmt_u64(0), "0");
    assert_eq!(fmt_u64(21600), "21600");
    assert_eq!(fmt_u64(u64::MAX), "18446744073709551615");
    assert_eq!(fmt_i64(-232), "-232");
    assert_eq!(fmt_i64(0), "0");
    assert_eq!(fmt_i64(i64::MIN), "-9223372036854775808");
    assert_eq!(fmt_2(7), "07");
    assert_eq!(fmt_4(46), "0046");
}

#[test]
fn decimal_parsing_accepts_exactly_digit_runs() {
    assert_eq!(parse_u64("21600"), Some(21600));
    assert_eq!(parse_u64(""), None);
    assert_eq!(parse_u64("12a"), None);
    assert_eq!(parse_u64("18446744073709551615"), Some(u64::MAX));
    assert_eq!(parse_u64("18446744073709551616"), None);
    assert_eq!(parse_i64("-232"), Some(-232));
    assert_eq!(parse_i64("-"), None);
    assert_eq!(parse_i64("9223372036854775807"), Some(i64::MAX));
    assert_eq!(parse_i64("-9223372036854775808"), Some(i64::MIN));
}

#[test]
fn decimal_fractions_read_as_thousandths() {
    assert_eq!(parse_dec_milli("23.7"), Some(23700));
    assert_eq!(parse_dec_milli("16.6"), Some(16600));
    assert_eq!(parse_dec_milli("1015"), Some(1015000));
    assert_eq!(parse_dec_milli("-0.5"), Some(-500));
    assert_eq!(parse_dec_milli("0.30000000000000004"), Some(300));
    assert_eq!(parse_dec_milli("1.2345"), Some(1234));
    assert_eq!(parse_dec_milli(""), None);
    assert_eq!(parse_dec_milli("1."), None);
    assert_eq!(parse_dec_milli(".5"), None);
    assert_eq!(parse_dec_milli("1e21"), None);
}

#[test]
fn civil_to_unix_matches_known_instants() {
    let epoch = CivilDateTime { year: 1970, month: 1, day: 1, hour: 0, minute: 0, second: 0 };
    assert_eq!(civil_to_unix(&epoch), 0);
    let d = CivilDateTime { year: 2023, month: 4, day: 15, hour: 7, minute: 30, second: 0 };
    assert_eq!(civil_to_unix(&d), 1681543800);
    let leap_day = CivilDateTime { year: 2024, month: 2, day: 29, hour: 12, minute: 0, second: 0 };
    assert_eq!(civil_to_unix(&leap_day), 1709208000);
}

#[test]
fn datetime_text_parses_field_by_field() {
    let c = parse_datetime("2023-04-15 07:30:00").expect("valid text must parse");
    assert_eq!(
        c,
        CivilDateTime { year: 2023, month: 4, day: 15, hour: 7, minute: 30, second: 0 }
    );
    assert_eq!(parse_datetime("2023-04-15T07:30:00"), None);
    assert_eq!(parse_datetime("2023-04-15 07:30"), None);
    assert_eq!(parse_datetime("2023-02-29 00:00:00"), None);
    assert!(parse_datetime("2024-02-29 00:00:00").is_some());
    assert_eq!(parse_datetime("2023-00-15 07:30:00"), None);
    assert_eq!(parse_datetime("2023-04-31 07:30:00"), None);
    assert_eq!(parse_datetime("1969-12-31 23:59:59"), None);
}

#[test]
fn month_lengths_follow_the_gregorian_rules() {
    assert_eq!(month_len(2023, 2), 28);
    assert_eq!(month_len(2024, 2), 29);
    assert_eq!(month_len(1900, 2), 28);
    assert_eq!(month_len(2000, 2), 29);
    assert_eq!(month_len(2023, 4), 30);
    assert_eq!(month_len(2023, 12), 31);
}

#[test]
fn hour_minute_text_parses_to_minutes() {
    assert_eq!(parse_hour_minute("06:46"), Some(6 * 60 + 46));
    assert_eq!(parse_hour_minute("19:50"), Some(19 * 60 + 50));
    assert_eq!(parse_hour_minute("24:00"), None);
    assert_eq!(parse_hour_minute("0646"), None);
}

#[test]
fn rfc3339_rendering_is_zero_padded() {
    let c = CivilDateTime { year: 2023, month: 4, day: 5, hour: 7, minute: 3, second: 0 };
    assert_eq!(fmt_rfc3339(&c), "2023-04-05T07:03:00Z");
}
