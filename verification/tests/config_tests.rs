//! The operator's environment variables.

use mcp_netdiag_rs::config::{
    default_timeout, enabled_commands, journal_path, parse_allowlist, parse_privileged,
    privileged_enabled, DEFAULT_JOURNAL_PATH, DEFAULT_TIMEOUT_SECS, EVIDENCE_MAX_CHARS,
    JOURNAL_HEAD_CHARS, MAX_OUTPUT_LINES, MAX_STDERR_BYTES, MAX_STDOUT_BYTES,
    PRIVILEGED_ALL_SENTINEL,
};
use mcp_netdiag_rs::errors::NetdiagError;
use mcp_netdiag_rs::key_set::KeySet;
use mcp_netdiag_rs::netdiag::commands::check_privileged;

#[test]
fn parse_allowlist_splits_and_trims() {
    let set = parse_allowlist(" routes , ping ,if_status");
    assert_eq!(set.len(), 3);
    assert!(set.contains("routes"));
    assert!(set.contains("ping"));
    assert!(set.contains("if_status"));
}

#[test]
fn parse_allowlist_drops_empty_entries() {
    let set = parse_allowlist("routes,, ,,ping,");
    assert_eq!(set.len(), 2);
    assert!(set.contains("routes"));
    assert!(set.contains("ping"));
}

#[test]
fn parse_allowlist_empty_string_is_full_lockdown() {
    assert!(parse_allowlist("").is_empty());
    assert!(parse_allowlist("   ").is_empty());
}

#[test]
fn parse_privileged_empty_or_none_is_empty_set() {
    assert!(parse_privileged("").is_empty());
    assert!(parse_privileged("   ").is_empty());
    assert!(parse_privileged("none").is_empty());
}

#[test]
fn parse_privileged_all_keeps_sentinel_literal() {
    let set = parse_privileged("all");
    assert_eq!(set.len(), 1);
    assert!(set.contains(PRIVILEGED_ALL_SENTINEL));
}

#[test]
fn parse_privileged_subset_returns_listed_keys_verbatim() {
    let set = parse_privileged("ping, traceroute ,dmesg");
    assert_eq!(set.len(), 3);
    assert!(set.contains("ping"));
    assert!(set.contains("traceroute"));
    assert!(set.contains("dmesg"));
}

#[test]
fn parse_privileged_drops_empty_entries() {
    let set = parse_privileged("ping,, ,,dmesg,");
    assert_eq!(set.len(), 2);
}

#[test]
fn parse_privileged_is_case_sensitive_for_all_sentinel() {
    let upper = parse_privileged("ALL");
    assert_eq!(upper.len(), 1);
    assert!(upper.contains("ALL"));
    assert!(
        !upper.contains(PRIVILEGED_ALL_SENTINEL),
        "uppercase ALL must NOT collapse to the all-sentinel literal",
    );
    assert!(matches!(
        check_privileged("ping", &upper),
        Err(NetdiagError::PrivilegedDisabled { .. }),
    ));
}

#[test]
fn parse_privileged_is_case_sensitive_for_none_token() {
    let set = parse_privileged("NONE");
    assert_eq!(set.len(), 1);
    assert!(set.contains("NONE"));
    assert!(
        !set.is_empty(),
        "uppercase NONE must NOT trigger the empty-set branch"
    );
    assert!(matches!(
        check_privileged("ping", &set),
        Err(NetdiagError::PrivilegedDisabled { .. }),
    ));
}

#[test]
fn parse_privileged_does_not_validate_names() {
    let set = parse_privileged("ping,bogus,routes");
    assert_eq!(set.len(), 3);
    assert!(set.contains("bogus"));
}

#[test]
fn journal_path_defaults_when_env_unset() {
    assert_eq!(journal_path(None), DEFAULT_JOURNAL_PATH);
    assert_eq!(journal_path(None), "/tmp/mcp-netdiag-journal.jsonl");
}

#[test]
fn journal_path_takes_the_value_as_it_is() {
    assert_eq!(journal_path(Some("/var/log/j.jsonl")), "/var/log/j.jsonl");
    assert_eq!(journal_path(Some("")), "");
}

#[test]
fn an_unset_filter_is_no_filter_and_an_empty_one_is_a_lockdown() {
    assert!(enabled_commands(None).is_none());
    assert!(enabled_commands(Some("")).unwrap().is_empty());
    assert!(enabled_commands(Some("routes")).unwrap().contains("routes"));
}

#[test]
fn an_unset_opt_in_is_empty() {
    assert!(privileged_enabled(None).is_empty());
    assert!(privileged_enabled(Some(" none ")).is_empty());
    assert!(privileged_enabled(Some("dmesg")).contains("dmesg"));
}

#[test]
fn none_beside_a_key_is_a_name_like_any_other() {
    let set = parse_privileged("none,ping");
    assert_eq!(set.len(), 2);
    assert!(set.contains("none"));
    assert!(check_privileged("ping", &set).is_ok());
}

#[test]
fn unicode_whitespace_around_entries_is_dropped() {
    let set = parse_allowlist("\u{a0}routes\u{2003},\u{3000}\u{85},ping\t");
    assert_eq!(set.len(), 2);
    assert!(set.contains("routes"));
    assert!(set.contains("ping"));
}

#[test]
fn repeated_entries_count_once() {
    let set = parse_allowlist("ping,ping, ping");
    assert_eq!(set.len(), 1);
}

#[test]
fn a_key_set_holds_each_key_once() {
    let mut set = KeySet::new();
    assert!(set.is_empty());
    assert!(set.insert("a"));
    assert!(!set.insert("a"));
    assert!(set.insert("b"));
    assert_eq!(set.len(), 2);
    assert!(set.contains("a"));
    assert!(!set.contains("c"));
    let copy = set.clone();
    assert_eq!(copy.len(), 2);
    assert!(copy.contains("b"));
}

#[test]
fn the_limits_are_the_documented_ones() {
    assert_eq!(DEFAULT_TIMEOUT_SECS, 5);
    assert_eq!(MAX_STDOUT_BYTES, 65_536);
    assert_eq!(MAX_STDERR_BYTES, 8_192);
    assert_eq!(MAX_OUTPUT_LINES, 512);
    assert_eq!(EVIDENCE_MAX_CHARS, 500);
    assert_eq!(JOURNAL_HEAD_CHARS, 128);
    assert_eq!(default_timeout().as_secs(), 5);
    assert_eq!(default_timeout().subsec_nanos(), 0);
}

#[test]
fn a_comma_separates_and_one_entry_stands_for_itself() {
    let one = parse_allowlist(" routes ");
    assert_eq!(one.len(), 1);
    assert!(one.contains("routes"));
    let left = parse_allowlist("a,b");
    let right = parse_allowlist("b, c");
    let both = parse_allowlist("a,b,b, c");
    assert_eq!(both.len(), 3);
    for k in ["a", "b", "c", "d"] {
        assert_eq!(both.contains(k), left.contains(k) || right.contains(k), "{k}");
    }
}
