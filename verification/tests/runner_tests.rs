//! The command table, the gates and the meaning of outcomes.

use mcp_netdiag_rs::config;
use mcp_netdiag_rs::errors::NetdiagError;
use mcp_netdiag_rs::json::Json;
use mcp_netdiag_rs::key_set::KeySet;
use mcp_netdiag_rs::netdiag::commands::{
    bounded_text, check_privileged, full_allowlist, raw_result, CommandRunner, DiagnosticSpec,
    Invocation, ProcessOutcome, ReadOutcome, BUILTIN_COMMAND_COUNT, PRIVILEGED_KEYS,
};

fn keys(list: &[&str]) -> KeySet {
    let mut set = KeySet::new();
    for k in list {
        set.insert(k);
    }
    set
}

fn strings(list: &[&str]) -> Vec<String> {
    list.iter().map(|s| s.to_string()).collect()
}

#[test]
fn new_runner_has_all_commands() {
    let runner = CommandRunner::with_enabled(None);
    assert_eq!(runner.command_count(), BUILTIN_COMMAND_COUNT);
}

#[test]
fn narrowing_filter_keeps_only_listed_keys() {
    let enabled = keys(&["routes", "ping"]);
    let runner = CommandRunner::with_enabled(Some(&enabled));
    assert_eq!(runner.command_count(), 2);
    assert!(runner.has_command("routes"));
    assert!(!runner.has_command("logs"));
}

#[test]
fn disabled_key_is_not_allowed_without_spawning() {
    let enabled = keys(&["routes"]);
    let runner = CommandRunner::with_enabled(Some(&enabled));
    let err = runner.run("logs", &[]).unwrap_err();
    assert!(matches!(err, NetdiagError::CommandNotAllowed { .. }));
}

#[test]
fn privileged_keys_match_designed_set() {
    let expected = [
        "ping",
        "traceroute",
        "tcpdump_sample",
        "firewall",
        "conntrack",
        "dmesg",
    ];
    assert_eq!(PRIVILEGED_KEYS.len(), expected.len());
    for k in expected {
        assert!(PRIVILEGED_KEYS.contains(&k), "missing privileged key: {k}");
    }
}

#[test]
fn check_privileged_default_blocks_every_privileged_key() {
    let empty = KeySet::new();
    for k in PRIVILEGED_KEYS {
        let err = check_privileged(k, &empty).unwrap_err();
        assert!(
            matches!(err, NetdiagError::PrivilegedDisabled { ref key } if key == k),
            "expected PrivilegedDisabled for {k}, got {err:?}"
        );
        assert_eq!(err.code(), -32011);
    }
}

#[test]
fn check_privileged_with_all_sentinel_admits_every_privileged_key() {
    let mut set = KeySet::new();
    set.insert(config::PRIVILEGED_ALL_SENTINEL);
    for k in PRIVILEGED_KEYS {
        assert!(
            check_privileged(k, &set).is_ok(),
            "{k} must pass under `all`"
        );
    }
}

#[test]
fn check_privileged_subset_admits_only_listed_keys() {
    let set = keys(&["ping"]);
    assert!(check_privileged("ping", &set).is_ok());
    for k in PRIVILEGED_KEYS.iter().filter(|k| **k != "ping") {
        assert!(
            matches!(
                check_privileged(k, &set),
                Err(NetdiagError::PrivilegedDisabled { .. })
            ),
            "{k} must still be refused when only ping is opted in"
        );
    }
}

#[test]
fn check_privileged_is_a_noop_for_non_privileged_keys() {
    let empty = KeySet::new();
    for k in ["routes", "if_status", "logs", "uptime"] {
        assert!(check_privileged(k, &empty).is_ok());
    }
}

#[test]
fn check_privileged_ignores_unknown_or_non_privileged_entries_in_set() {
    let set = keys(&["bogus", "routes", "if_status"]);
    for k in PRIVILEGED_KEYS {
        assert!(
            matches!(
                check_privileged(k, &set),
                Err(NetdiagError::PrivilegedDisabled { .. })
            ),
            "{k} must stay refused when only non-privileged names are listed"
        );
    }
}

#[test]
fn runner_default_refuses_privileged_with_privileged_disabled_variant() {
    let runner = CommandRunner::with_enabled(None);
    let err = runner.run("ping", &[]).unwrap_err();
    assert!(
        matches!(err, NetdiagError::PrivilegedDisabled { ref key } if key == "ping"),
        "expected PrivilegedDisabled, got {err:?}"
    );
    assert!(err.to_string().contains("NETDIAG_ENABLE_PRIVILEGED"));
}

#[test]
fn runner_privileged_all_passes_privileged_check_before_spawn() {
    let privileged = keys(&[config::PRIVILEGED_ALL_SENTINEL]);
    let runner = CommandRunner::with_layers(None, &privileged);
    let result = runner.run("traceroute", &strings(&["-m", "1", "127.0.0.1"]));
    if let Err(NetdiagError::PrivilegedDisabled { .. }) = result {
        panic!("privileged gate must not fire when `all` is opted in");
    }
    match result {
        Ok(Invocation::Spawn { program, args, timeout }) => {
            assert_eq!(program, "traceroute");
            assert_eq!(args, strings(&["-n", "-m", "1", "127.0.0.1"]));
            assert_eq!(timeout.as_secs(), 5);
        }
        other => panic!("expected a program to run, got {other:?}"),
    }
}

#[test]
fn runner_allowlist_takes_precedence_over_privileged_opt_in() {
    let allow = keys(&["routes"]);
    let privileged = keys(&[config::PRIVILEGED_ALL_SENTINEL]);
    let runner = CommandRunner::with_layers(Some(&allow), &privileged);
    let err = runner.run("ping", &[]).unwrap_err();
    assert!(
        matches!(err, NetdiagError::CommandNotAllowed { ref command } if command == "ping"),
        "allowlist must refuse first; got {err:?}"
    );
}

#[test]
fn the_environment_composes_by_and() {
    let runner = CommandRunner::new(Some("ping,routes,bogus"), Some("ping,dmesg"));
    assert_eq!(runner.command_count(), 2);
    assert!(runner.run("ping", &[]).is_ok());
    assert!(runner.run("routes", &[]).is_ok());
    assert!(matches!(
        runner.run("dmesg", &[]),
        Err(NetdiagError::CommandNotAllowed { .. })
    ));
    assert!(matches!(
        runner.run("bogus", &[]),
        Err(NetdiagError::CommandNotAllowed { .. })
    ));

    let open = CommandRunner::new(None, None);
    assert_eq!(open.command_count(), 24);
    for k in PRIVILEGED_KEYS {
        assert!(matches!(
            open.run(k, &[]),
            Err(NetdiagError::PrivilegedDisabled { .. })
        ));
    }
}

#[test]
fn an_empty_filter_disables_every_command() {
    let runner = CommandRunner::new(Some(""), Some("all"));
    assert_eq!(runner.command_count(), 0);
    for (k, _) in full_allowlist() {
        assert!(matches!(
            runner.run(k, &[]),
            Err(NetdiagError::CommandNotAllowed { .. })
        ));
    }
}

#[test]
fn a_clone_decides_alike() {
    let runner = CommandRunner::new(Some("ping"), Some("ping")).clone();
    assert_eq!(runner.command_count(), 1);
    assert!(runner.run("ping", &[]).is_ok());
    assert!(runner.run("routes", &[]).is_err());
}

#[test]
fn the_table_pins_every_command() {
    let expected: [(&str, &str, &[&str]); 23] = [
        ("if_status", "ip", &["-j", "-s", "link", "show"]),
        ("mac_table", "bridge", &["-j", "fdb", "show"]),
        ("neighbors", "ip", &["-j", "neigh", "show"]),
        ("routes", "ip", &["-j", "route", "show", "table", "all"]),
        ("addr", "ip", &["-j", "addr", "show"]),
        ("link_detail", "ip", &["-j", "-d", "link", "show"]),
        ("route_get", "ip", &["-j", "route", "get"]),
        ("rules", "ip", &["-j", "rule", "show"]),
        ("ping", "ping", &["-n"]),
        ("traceroute", "traceroute", &["-n"]),
        ("sockets", "ss", &["-H", "-tuna"]),
        ("dns_status", "resolvectl", &["status"]),
        ("ethtool", "ethtool", &[]),
        ("firewall", "nft", &["list", "ruleset"]),
        ("conntrack", "conntrack", &["-L"]),
        ("tcpdump_sample", "tcpdump", &["-nn"]),
        ("logs", "journalctl", &["--no-pager", "--output=short-iso"]),
        ("failed_units", "systemctl", &["--failed", "--no-pager", "--plain"]),
        ("service_status", "systemctl", &["status", "--no-pager"]),
        ("dmesg", "dmesg", &["-T"]),
        ("uptime", "uptime", &[]),
        ("memory", "free", &["-h"]),
        ("filesystems", "df", &["-h"]),
    ];
    let table = full_allowlist();
    assert_eq!(table.len(), expected.len() + 1);
    for (key, program, base) in expected {
        let (_, spec) = table.iter().find(|e| e.0 == key).unwrap();
        match spec {
            DiagnosticSpec::Process(p) => {
                assert_eq!(p.program, program, "{key}");
                assert_eq!(p.base_args, base, "{key}");
            }
            other => panic!("{key} must run a program, got {other:?}"),
        }
    }
    let (_, spec) = table.iter().find(|e| e.0 == "resolv_conf").unwrap();
    assert!(matches!(spec, DiagnosticSpec::File { path } if *path == "/etc/resolv.conf"));
}

#[test]
fn a_file_diagnostic_takes_no_arguments() {
    let runner = CommandRunner::with_enabled(None);
    match runner.run("resolv_conf", &[]) {
        Ok(Invocation::Read { path, timeout }) => {
            assert_eq!(path, "/etc/resolv.conf");
            assert_eq!(timeout.as_secs(), 5);
        }
        other => panic!("expected a file to read, got {other:?}"),
    }
    let err = runner.run("resolv_conf", &strings(&["x"])).unwrap_err();
    assert_eq!(err.code(), -32012);
    assert_eq!(
        err.to_string(),
        "command execution failed: file diagnostics do not accept extra arguments",
    );
}

#[test]
fn a_program_that_ran_gives_a_result_whatever_its_exit_status() {
    let runner = CommandRunner::with_enabled(None);
    let raw = runner
        .run_process(ProcessOutcome::Exited {
            success: false,
            code: Some(2),
            stdout: b"out\n".to_vec(),
            stderr: b"boom\r\n".to_vec(),
        })
        .unwrap();
    assert_eq!(raw.bool_at("ok"), Some(false));
    assert!(matches!(raw.get("exit_code"), Some(Json::Int(2))));
    assert_eq!(raw.str_at("stdout"), Some("out"));
    assert_eq!(raw.str_at("stderr"), Some("boom"));
}

#[test]
fn a_killed_program_has_no_exit_code() {
    let runner = CommandRunner::with_enabled(None);
    let raw = runner
        .run_process(ProcessOutcome::Exited {
            success: false,
            code: None,
            stdout: Vec::new(),
            stderr: Vec::new(),
        })
        .unwrap();
    assert!(matches!(raw.get("exit_code"), Some(Json::Null)));
}

#[test]
fn a_program_that_did_not_run_gives_an_error() {
    let runner = CommandRunner::with_enabled(None);
    let err = runner.run_process(ProcessOutcome::TimedOut).unwrap_err();
    assert_eq!(err.code(), -32012);
    assert!(matches!(err, NetdiagError::CommandExec { ref message } if message == "timeout after 5s"));
    let err = runner
        .run_process(ProcessOutcome::SpawnFailed { error: "no such file".to_string() })
        .unwrap_err();
    assert!(
        matches!(err, NetdiagError::CommandExec { ref message } if message == "spawn failed: no such file")
    );
}

#[test]
fn a_file_is_a_successful_result_or_an_error() {
    let runner = CommandRunner::with_enabled(None);
    let raw = runner
        .read_file(ReadOutcome::Read { bytes: b"nameserver 1.1.1.1\n".to_vec() })
        .unwrap();
    assert_eq!(raw.bool_at("ok"), Some(true));
    assert!(matches!(raw.get("exit_code"), Some(Json::Int(0))));
    assert_eq!(raw.str_at("stdout"), Some("nameserver 1.1.1.1"));
    assert_eq!(raw.str_at("stderr"), Some(""));
    let err = runner.read_file(ReadOutcome::TimedOut).unwrap_err();
    assert!(matches!(err, NetdiagError::CommandExec { ref message } if message == "timeout after 5s"));
    let err = runner
        .read_file(ReadOutcome::Failed { error: "denied".to_string() })
        .unwrap_err();
    assert!(
        matches!(err, NetdiagError::CommandExec { ref message } if message == "read failed: denied")
    );
}

#[test]
fn output_is_bounded_in_bytes() {
    assert_eq!(bounded_text(b"abcdef", 3, 10), "abc");
    assert_eq!(bounded_text(b"abc", 3, 10), "abc");
    assert_eq!(bounded_text(b"abc", 0, 10), "");
    let long = vec![b'x'; config::MAX_STDOUT_BYTES + 100];
    let runner = CommandRunner::with_enabled(None);
    let raw = runner
        .run_process(ProcessOutcome::Exited {
            success: true,
            code: Some(0),
            stdout: long.clone(),
            stderr: long,
        })
        .unwrap();
    assert_eq!(raw.str_at("stdout").unwrap().len(), 65_536);
    assert_eq!(raw.str_at("stderr").unwrap().len(), 8_192);
}

#[test]
fn output_is_bounded_in_lines() {
    assert_eq!(bounded_text(b"a\nb\nc\n", 100, 2), "a\nb");
    assert_eq!(bounded_text(b"a\nb\nc\n", 100, 0), "");
    let many = "l\n".repeat(600);
    assert_eq!(bounded_text(many.as_bytes(), 65_536, 512).lines().count(), 512);
}

#[test]
fn output_is_decoded_with_replacement() {
    assert_eq!(bounded_text(b"a\xffb", 100, 10), "a\u{fffd}b");
    // The byte limit may cut a character in two.
    assert_eq!(bounded_text("\u{e9}".as_bytes(), 1, 10), "\u{fffd}");
    assert_eq!(bounded_text("h\u{e9}llo".as_bytes(), 100, 10), "h\u{e9}llo");
}

#[test]
fn line_endings_and_trailing_blanks_are_normalised() {
    assert_eq!(bounded_text(b"a\r\nb\r\n\r\n", 100, 10), "a\nb");
    assert_eq!(bounded_text(b"a\rb", 100, 10), "a\rb");
    assert_eq!(bounded_text(b"a  \n \t\n", 100, 10), "a");
    assert_eq!(bounded_text(b"\n\na", 100, 10), "\n\na");
    assert_eq!(bounded_text(b"a\nb\r", 100, 10), "a\nb");
}

#[test]
fn a_raw_result_has_four_fields() {
    let raw = raw_result(true, Some(0), "o", "e");
    assert_eq!(raw.bool_at("ok"), Some(true));
    assert!(matches!(raw.get("exit_code"), Some(Json::Int(0))));
    assert_eq!(raw.str_at("stdout"), Some("o"));
    assert_eq!(raw.str_at("stderr"), Some("e"));
    assert!(raw.get("other").is_none());
}
