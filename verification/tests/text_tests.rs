//! Text, JSON values and the calendar.

use mcp_netdiag_rs::calendar::civil_from_days;
use mcp_netdiag_rs::clock::{moment, unix_now};
use mcp_netdiag_rs::json::Json;
use mcp_netdiag_rs::text::{
    char_is_whitespace, clip_bytes, clip_lines, contains, decimal_text, lines, padded_text,
    same_text, split, trim, trim_end,
};

#[test]
fn whitespace_is_that_of_unicode() {
    for v in 0..=0x10_ffff_u32 {
        if let Some(c) = char::from_u32(v) {
            assert_eq!(char_is_whitespace(c), c.is_whitespace(), "{v:x}");
        }
    }
}

#[test]
fn trimming_drops_whitespace_at_the_ends() {
    for s in ["", " ", " a ", "a b", "\t\u{3000}x\u{85}\n", "x", "\u{200b}x"] {
        assert_eq!(trim(s), s.trim());
        assert_eq!(trim_end(s), s.trim_end());
    }
}

#[test]
fn splitting_keeps_empty_fields() {
    for s in ["", ",", "a", "a,b", ",a,,b,", "\u{e9},\u{1f600}"] {
        let expected: Vec<&str> = s.split(',').collect();
        assert_eq!(split(s, ','), expected, "{s:?}");
    }
}

#[test]
fn lines_end_in_newline_with_or_without_carriage_return() {
    for s in ["", "\n", "a", "a\n", "a\r\nb", "a\rb", "a\r", "\r\n\r\n", "a\n\nb\n", "a\r\r\n"] {
        let expected: Vec<&str> = s.lines().collect();
        assert_eq!(lines(s), expected, "{s:?}");
    }
    assert_eq!(clip_lines("a\nb\nc", 2), "a\nb");
}

#[test]
fn search_finds_every_position() {
    for (s, p) in [
        ("state DOWN", "DOWN"),
        ("DOW", "DOWN"),
        ("", ""),
        ("abc", ""),
        ("NO-CARRIE", "NO-CARRIER"),
        ("aab", "ab"),
        ("\u{e9}DOWN", "DOWN"),
    ] {
        assert_eq!(contains(s, p), s.contains(p), "{s:?} {p:?}");
    }
}

#[test]
fn numbers_are_written_in_decimal() {
    for n in [0, 1, 9, 10, 99, 100, 12_345, u64::MAX] {
        assert_eq!(decimal_text(n), n.to_string());
    }
    assert_eq!(padded_text(7, 3), "007");
    assert_eq!(padded_text(1234, 3), "1234");
    assert_eq!(padded_text(0, 0), "0");
}

#[test]
fn texts_are_compared_by_their_characters() {
    assert!(same_text("ping", "ping"));
    assert!(!same_text("ping", "Ping"));
    assert!(!same_text("ping", "pin"));
    assert!(same_text("", ""));
}

#[test]
fn clipping_by_bytes_keeps_whole_characters() {
    assert_eq!(clip_bytes("h\u{e9}l", 2), ("h", false));
    assert_eq!(clip_bytes("h\u{e9}l", 3), ("h\u{e9}", false));
    assert_eq!(clip_bytes("h\u{e9}l", 4), ("h\u{e9}l", true));
    assert_eq!(clip_bytes("\u{800}\u{10000}", 6), ("\u{800}", false));
    assert_eq!(clip_bytes("\u{800}\u{10000}", 7), ("\u{800}\u{10000}", true));
}

#[test]
fn dates_follow_the_gregorian_calendar() {
    assert_eq!(civil_from_days(0), (1970, 1, 1));
    assert_eq!(civil_from_days(-1), (1969, 12, 31));
    assert_eq!(civil_from_days(19_723), (2024, 1, 1));
    assert_eq!(civil_from_days(19_782), (2024, 2, 29));
    assert_eq!(civil_from_days(19_783), (2024, 3, 1));
    assert_eq!(civil_from_days(-25_509), (1900, 2, 28));
    assert_eq!(civil_from_days(-25_508), (1900, 3, 1));
    assert_eq!(civil_from_days(11_016), (2000, 2, 29));
    assert_eq!(civil_from_days(-719_468), (0, 3, 1));
    assert_eq!(civil_from_days(-719_469), (0, 2, 29));
}

#[test]
fn dates_advance_day_by_day() {
    let mut last = civil_from_days(-800_000);
    for days in -799_999..800_000_i64 {
        let date = civil_from_days(days);
        assert!(last < date);
        last = date;
    }
}

#[test]
fn the_clock_stands_after_the_epoch() {
    let (secs, millis) = unix_now();
    assert!(secs > 1_700_000_000);
    assert!(millis < 1000);
}

#[test]
fn a_reading_of_the_clock_is_a_moment_and_no_reading_is_the_epoch() {
    assert_eq!(moment(Some((1_704_067_200, 7))), (1_704_067_200, 7));
    assert_eq!(moment(Some((0, 999))), (0, 999));
    assert_eq!(moment(None), (0, 0));
}

#[test]
fn json_values_are_read_by_type() {
    let j = Json::object()
        .with("s", Json::text("x"))
        .with("b", Json::Bool(true))
        .with("n", Json::Int(5))
        .with("neg", Json::Int(-5))
        .with("r", Json::Real("1.5".to_string()))
        .with("a", Json::array().with_item(Json::Null).with_item(Json::Bool(false)));
    assert_eq!(j.str_at("s"), Some("x"));
    assert_eq!(j.bool_at("b"), Some(true));
    assert_eq!(j.u64_at("n"), Some(5));
    assert_eq!(j.u64_at("neg"), None);
    assert_eq!(j.u64_at("r"), None);
    assert_eq!(j.u64_at("s"), None);
    assert_eq!(j.str_at("missing"), None);
    assert!(matches!(j.get("a"), Some(Json::Array(items)) if items.len() == 2));
    assert!(Json::Null.get("s").is_none());
    assert!(Json::text("t").with("k", Json::Null).get("k").is_none());
    let copy = j.clone();
    assert_eq!(copy.str_at("s"), Some("x"));
    assert!(matches!(copy.get("a"), Some(Json::Array(items)) if items.len() == 2));
}
