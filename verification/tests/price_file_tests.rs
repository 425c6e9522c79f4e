use polybot::price_files::{
    parse_i64_chars, parse_price_file, parse_price_line, price_file_name, price_file_name_of_date,
    price_file_names, price_rows_of_files, price_scan_bounds, sort_rows_by_time,
};

fn chars(s: &str) -> Vec<char> {
    s.chars().collect()
}

#[test]
fn price_file_name_formats_the_utc_date() {
    assert_eq!(price_file_name(0), Some("prices_1970-01-01.csv".to_string()));
    assert_eq!(price_file_name(1_700_000_000_000), Some("prices_2023-11-14.csv".to_string()));
    assert_eq!(price_file_name(-1), Some("prices_1969-12-31.csv".to_string()));
}

#[test]
fn price_file_name_of_date_wraps_the_date() {
    assert_eq!(price_file_name_of_date("2024-02-29"), "prices_2024-02-29.csv");
    assert_eq!(price_file_name_of_date(""), "prices_.csv");
}

#[test]
fn price_file_name_is_none_out_of_range() {
    assert_eq!(price_file_name(i64::MAX), None);
}

#[test]
fn price_scan_bounds_clamp_the_lookback_to_an_hour() {
    let now = 1_000_000_000_000;
    assert_eq!(price_scan_bounds(now, 0), (now - 3_600_000, 3));
    assert_eq!(price_scan_bounds(now, -5), (now - 3_600_000, 3));
    assert_eq!(price_scan_bounds(now, 24), (now - 86_400_000, 3));
    assert_eq!(price_scan_bounds(now, 25), (now - 90_000_000, 4));
    assert_eq!(price_scan_bounds(now, 72), (now - 259_200_000, 5));
}

#[test]
fn price_file_names_go_back_day_by_day() {
    let names = price_file_names(2 * 86_400_000 + 5, 2);
    assert_eq!(
        names,
        vec![
            Some("prices_1970-01-03.csv".to_string()),
            Some("prices_1970-01-02.csv".to_string()),
            Some("prices_1970-01-01.csv".to_string()),
        ]
    );
    assert_eq!(price_file_names(0, 0), vec![Some("prices_1970-01-01.csv".to_string())]);
}

#[test]
fn price_line_with_seconds_and_spaces() {
    assert_eq!(
        parse_price_line(" 1700000000 , btc , 101.5 \r", "BTC", 0),
        Some((1_700_000_000_000, "101.5".to_string()))
    );
}

#[test]
fn price_line_with_milliseconds_and_extra_fields() {
    assert_eq!(
        parse_price_line("1700000000123,ETH,2,extra", "ETH", 1_700_000_000_000),
        Some((1_700_000_000_123, "2".to_string()))
    );
}

#[test]
fn price_line_trims_unicode_white_space() {
    assert_eq!(
        parse_price_line("\u{3000}1700000000000,Sol,3\u{a0}", "SOL", 0),
        Some((1_700_000_000_000, "3".to_string()))
    );
}

#[test]
fn price_line_before_the_window_is_dropped() {
    assert_eq!(parse_price_line("1700000000,BTC,1", "BTC", 1_700_000_000_001), None);
}

#[test]
fn price_line_of_another_asset_is_dropped() {
    assert_eq!(parse_price_line("1700000000,ETH,1", "BTC", 0), None);
    assert_eq!(parse_price_line("1700000000,BTCX,1", "BTC", 0), None);
}

#[test]
fn price_line_needs_three_fields() {
    assert_eq!(parse_price_line("1700000000,BTC", "BTC", 0), None);
    assert_eq!(parse_price_line("", "BTC", 0), None);
    assert_eq!(parse_price_line("   ", "BTC", 0), None);
}

#[test]
fn price_line_needs_an_integer_timestamp() {
    assert_eq!(parse_price_line("abc,BTC,1", "BTC", 0), None);
    assert_eq!(parse_price_line("17.5,BTC,1", "BTC", 0), None);
    assert_eq!(parse_price_line("9223372036854775808,BTC,1", "BTC", 0), None);
    assert_eq!(parse_price_line("-9223372036854775808,BTC,1", "BTC", i64::MIN), None);
    assert_eq!(parse_price_line("+5,BTC,1", "BTC", 0), Some((5_000, "1".to_string())));
}

#[test]
fn price_line_keeps_the_price_text_as_written() {
    assert_eq!(
        parse_price_line("1700000000,BTC,not-a-number", "BTC", 0),
        Some((1_700_000_000_000, "not-a-number".to_string()))
    );
    assert_eq!(parse_price_line("1700000000,BTC,", "BTC", 0), Some((1_700_000_000_000, String::new())));
}

#[test]
fn parse_i64_reads_like_str_parse() {
    for text in ["0", "-0", "+7", "42", "-42", "007", "9223372036854775807", "-9223372036854775808"] {
        assert_eq!(parse_i64_chars(&chars(text)), text.parse::<i64>().ok(), "{text}");
    }
    for text in ["", "+", "-", "1a", " 1", "1 ", "--1", "+-1", "9223372036854775808", "-9223372036854775809", "99999999999999999999"] {
        assert_eq!(parse_i64_chars(&chars(text)), None, "{text}");
        assert!(text.parse::<i64>().is_err());
    }
}

#[test]
fn price_file_keeps_the_counted_lines_in_order() {
    let content = "1700000000,BTC,1.5\r\n\nbad line\n1700000001000, eth ,7\n1700000002,btc, 2 \n1699999999,BTC,3\n1700000003,BTC,4";
    assert_eq!(
        parse_price_file(content, "BTC", 1_700_000_000_000),
        vec![
            (1_700_000_000_000, "1.5".to_string()),
            (1_700_000_002_000, "2".to_string()),
            (1_700_000_003_000, "4".to_string()),
        ]
    );
    assert_eq!(
        parse_price_file(content, "ETH", 0),
        vec![(1_700_000_001_000, "7".to_string())]
    );
}

#[test]
fn price_file_of_nothing_has_no_rows() {
    assert!(parse_price_file("", "BTC", 0).is_empty());
    assert!(parse_price_file("\n\n", "BTC", 0).is_empty());
}

#[test]
fn rows_of_files_come_in_time_order_ties_in_reading_order() {
    let files = vec![
        "1700000005,BTC,a\n1700000001,BTC,b\n1700000003,BTC,c".to_string(),
        "1700000001,BTC,d\n1690000000,BTC,old\n1700000004,ETH,x".to_string(),
    ];
    assert_eq!(
        price_rows_of_files(&files, "BTC", 1_700_000_000_000),
        vec![
            (1_700_000_001_000, "b".to_string()),
            (1_700_000_001_000, "d".to_string()),
            (1_700_000_003_000, "c".to_string()),
            (1_700_000_005_000, "a".to_string()),
        ]
    );
    assert!(price_rows_of_files(&Vec::new(), "BTC", 0).is_empty());
    let rows = vec![(3, "x".to_string()), (1, "y".to_string()), (3, "z".to_string()), (2, "w".to_string())];
    assert_eq!(
        sort_rows_by_time(rows),
        vec![(1, "y".to_string()), (2, "w".to_string()), (3, "x".to_string()), (3, "z".to_string())]
    );
}
