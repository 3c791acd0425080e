use arbtt_wayland::backend::{CaptureState, WindowInfo};
use arbtt_wayland::entry::{frame_window, quote, LogEntry, Timestamp, MAX_RATE};
use arbtt_wayland::text::{decimal_string, digit_str};

fn window(title: &str, program: &str, active: bool) -> WindowInfo {
    WindowInfo { title: title.to_string(), program: program.to_string(), active }
}

fn editor_snapshot() -> CaptureState {
    CaptureState { windows: vec![window("Editor", "editor", true)], desktop: "main".to_string() }
}

#[test]
fn decimal_of_zero_and_small_numbers() {
    assert_eq!(decimal_string(0), "0");
    assert_eq!(decimal_string(7), "7");
    assert_eq!(decimal_string(10), "10");
    assert_eq!(decimal_string(60000), "60000");
}

#[test]
fn decimal_of_largest_number() {
    assert_eq!(decimal_string(u64::MAX), "18446744073709551615");
}

#[test]
fn decimal_agrees_with_std() {
    let mut n: u64 = 1;
    for _ in 0..19 {
        assert_eq!(decimal_string(n), n.to_string());
        assert_eq!(decimal_string(n - 1), (n - 1).to_string());
        n *= 10;
    }
}

#[test]
fn digits_have_one_character() {
    let all: Vec<&str> = (0..10).map(digit_str).collect();
    assert_eq!(all.concat(), "0123456789");
}

#[test]
fn quote_adds_quotes() {
    assert_eq!(quote("main"), "\"main\"");
    assert_eq!(quote(""), "\"\"");
}

#[test]
fn quote_escapes_special_characters() {
    assert_eq!(quote("a\"b"), "\"a\\\"b\"");
    assert_eq!(quote("back\\slash"), "\"back\\\\slash\"");
    assert_eq!(quote("line\nfeed\ttab"), "\"line\\nfeed\\ttab\"");
    assert_eq!(quote("\u{1}"), "\"\\u0001\"");
}

#[test]
fn quote_keeps_unicode() {
    assert_eq!(quote("Füße – 日本語"), "\"Füße – 日本語\"");
}

#[test]
fn quote_round_trips_through_serde_json() {
    let text = "tab\t \"quoted\" \\ \u{7f} é \n";
    let parsed: String = serde_json::from_str(&quote(text)).unwrap();
    assert_eq!(parsed, text);
}

#[test]
fn rfc3339_of_the_epoch() {
    let date = Timestamp { secs: 0, nanos: 0 }.to_rfc3339();
    assert_eq!(date, Some("1970-01-01T00:00:00+00:00".to_string()));
}

#[test]
fn rfc3339_of_a_known_moment() {
    let date = Timestamp { secs: 1767323045, nanos: 0 }.to_rfc3339();
    assert_eq!(date, Some("2026-01-02T03:04:05+00:00".to_string()));
}

#[test]
fn rfc3339_writes_fractions_as_short_as_they_are() {
    let millis = Timestamp { secs: 1767323045, nanos: 500_000_000 }.to_rfc3339();
    assert_eq!(millis, Some("2026-01-02T03:04:05.500+00:00".to_string()));
    let micros = Timestamp { secs: 1767323045, nanos: 1_000 }.to_rfc3339();
    assert_eq!(micros, Some("2026-01-02T03:04:05.000001+00:00".to_string()));
    let nanos = Timestamp { secs: 1767323045, nanos: 1 }.to_rfc3339();
    assert_eq!(nanos, Some("2026-01-02T03:04:05.000000001+00:00".to_string()));
}

#[test]
fn rfc3339_of_the_last_second_of_year_9999() {
    let date = Timestamp { secs: 253_402_300_799, nanos: 999_999_999 }.to_rfc3339();
    assert_eq!(date, Some("9999-12-31T23:59:59.999999999+00:00".to_string()));
}

#[test]
fn rfc3339_before_the_epoch() {
    let date = Timestamp { secs: -1, nanos: 0 }.to_rfc3339();
    assert_eq!(date, Some("1969-12-31T23:59:59+00:00".to_string()));
}

#[test]
fn rfc3339_refuses_what_cannot_be_a_date() {
    assert_eq!(Timestamp { secs: i64::MAX, nanos: 0 }.to_rfc3339(), None);
    assert_eq!(Timestamp { secs: i64::MIN, nanos: 0 }.to_rfc3339(), None);
    assert_eq!(Timestamp { secs: 0, nanos: 2_000_000_000 }.to_rfc3339(), None);
    assert_eq!(Timestamp { secs: 0, nanos: 1_000_000_000 }.to_rfc3339(), None);
}

#[test]
fn build_converts_seconds_to_milliseconds() {
    let entry = LogEntry::build(editor_snapshot(), "now".to_string(), 60);
    assert_eq!(entry.rate, 60000);
    assert_eq!(entry.inactive, 0);
    assert_eq!(entry.date, "now");
    assert_eq!(entry.desktop, "main");
    assert_eq!(entry.windows, vec![window("Editor", "editor", true)]);
}

#[test]
fn build_at_the_bounds_of_the_rate() {
    let empty = CaptureState { windows: vec![], desktop: String::new() };
    assert_eq!(LogEntry::build(empty.clone(), String::new(), 0).rate, 0);
    assert_eq!(LogEntry::build(empty.clone(), String::new(), 1).rate, 1000);
    assert_eq!(MAX_RATE, u64::MAX / 1000);
    let largest = LogEntry::build(empty, String::new(), MAX_RATE);
    assert_eq!(largest.rate, 18_446_744_073_709_551_000);
    assert_eq!(largest.inactive, 0);
}

#[test]
fn line_of_one_active_window() {
    let date = Timestamp { secs: 1767323045, nanos: 0 }.to_rfc3339().unwrap();
    let entry = LogEntry::build(editor_snapshot(), date, 60);
    assert_eq!(
        entry.to_line(),
        "{\"date\":\"2026-01-02T03:04:05+00:00\",\"rate\":60000,\"inactive\":0,\"windows\":[{\"title\":\"Editor\",\"program\":\"editor\",\"active\":true}],\"desktop\":\"main\"}\n"
    );
}

#[test]
fn line_without_windows() {
    let state = CaptureState { windows: vec![], desktop: "unknown".to_string() };
    let entry = LogEntry::build(state, "d".to_string(), 1);
    assert_eq!(
        entry.to_line(),
        "{\"date\":\"d\",\"rate\":1000,\"inactive\":0,\"windows\":[],\"desktop\":\"unknown\"}\n"
    );
}

#[test]
fn line_separates_windows_with_commas() {
    let state = CaptureState {
        windows: vec![window("a", "x", false), window("b", "", true), window("", "z", false)],
        desktop: "1".to_string(),
    };
    let entry = LogEntry::build(state, "d".to_string(), 5);
    assert_eq!(
        entry.to_line(),
        "{\"date\":\"d\",\"rate\":5000,\"inactive\":0,\"windows\":[{\"title\":\"a\",\"program\":\"x\",\"active\":false},{\"title\":\"b\",\"program\":\"\",\"active\":true},{\"title\":\"\",\"program\":\"z\",\"active\":false}],\"desktop\":\"1\"}\n"
    );
}

#[test]
fn line_ends_with_one_line_feed_and_holds_no_other() {
    let state = CaptureState {
        windows: vec![window("two\nlines", "p", true)],
        desktop: "desk\ntop".to_string(),
    };
    let line = LogEntry::build(state, "d".to_string(), 5).to_line();
    assert!(line.ends_with('\n'));
    assert_eq!(line.matches('\n').count(), 1);
}

#[test]
fn line_is_json_that_reads_back() {
    let state = CaptureState {
        windows: vec![window("He said \"hi\" \\ bye", "term\tinal", true), window("ü", "app", false)],
        desktop: "work\u{2}space".to_string(),
    };
    let date = Timestamp { secs: 1767323045, nanos: 250_000_000 }.to_rfc3339().unwrap();
    let line = LogEntry::build(state, date, 30).to_line();
    let value: serde_json::Value = serde_json::from_str(&line).unwrap();
    let object = value.as_object().unwrap();
    assert_eq!(object.len(), 5);
    assert_eq!(object["date"].as_str(), Some("2026-01-02T03:04:05.250+00:00"));
    assert_eq!(object["rate"].as_u64(), Some(30000));
    assert_eq!(object["inactive"].as_u64(), Some(0));
    assert_eq!(object["desktop"].as_str(), Some("work\u{2}space"));
    let windows = object["windows"].as_array().unwrap();
    assert_eq!(windows.len(), 2);
    assert_eq!(windows[0]["title"].as_str(), Some("He said \"hi\" \\ bye"));
    assert_eq!(windows[0]["program"].as_str(), Some("term\tinal"));
    assert_eq!(windows[0]["active"].as_bool(), Some(true));
    assert_eq!(windows[1]["title"].as_str(), Some("ü"));
    assert_eq!(windows[1]["active"].as_bool(), Some(false));
    assert_eq!(windows[1].as_object().unwrap().len(), 3);
}

#[test]
fn line_names_its_fields_in_the_order_of_the_record() {
    let line = LogEntry::build(editor_snapshot(), "d".to_string(), 5).to_line();
    let date = line.find("\"date\":").unwrap();
    let rate = line.find("\"rate\":").unwrap();
    let inactive = line.find("\"inactive\":").unwrap();
    let windows = line.find("\"windows\":").unwrap();
    let desktop = line.find("\"desktop\":").unwrap();
    assert!(date < rate && rate < inactive && inactive < windows && windows < desktop);
}

#[test]
fn quoted_turns_each_string_into_a_literal() {
    let entry = LogEntry::build(editor_snapshot(), "d".to_string(), 5).quoted();
    assert_eq!(entry.date, "\"d\"");
    assert_eq!(entry.desktop, "\"main\"");
    assert_eq!(entry.windows, vec![window("\"Editor\"", "\"editor\"", true)]);
    assert_eq!(entry.rate, 5000);
    assert_eq!(entry.inactive, 0);
}

#[test]
fn frame_takes_strings_as_they_are() {
    let entry = LogEntry {
        date: "D".to_string(),
        rate: 12,
        inactive: 3,
        windows: vec![window("T", "P", false)],
        desktop: "K".to_string(),
    };
    assert_eq!(
        entry.frame(),
        "{\"date\":D,\"rate\":12,\"inactive\":3,\"windows\":[{\"title\":T,\"program\":P,\"active\":false}],\"desktop\":K}"
    );
}

#[test]
fn frame_window_writes_both_truth_values() {
    assert_eq!(frame_window(&window("t", "p", true)), "{\"title\":t,\"program\":p,\"active\":true}");
    assert_eq!(frame_window(&window("", "", false)), "{\"title\":,\"program\":,\"active\":false}");
}
