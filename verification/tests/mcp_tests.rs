//! The tools, their answers and the journal.

use mcp_netdiag_rs::config;
use mcp_netdiag_rs::errors::NetdiagError;
use mcp_netdiag_rs::json::Json;
use mcp_netdiag_rs::key_set::KeySet;
use mcp_netdiag_rs::mcp::catalog::{tools, ToolDescriptor, PRIVILEGED_MARK};
use mcp_netdiag_rs::mcp::journal::{
    call_summary, evidence_head, iso8601_from_secs, iso8601_now, journal_line, result_summary,
    JournalEntry,
};
use mcp_netdiag_rs::mcp::params::{
    InterfaceParams, LogsParams, MacLookupParams, PingParams, RequiredInterfaceParams,
    ServiceStatusParams, TargetParams, TcpdumpParams, TracerouteParams,
};
use mcp_netdiag_rs::mcp::{bounded, interface_args, CallToolResult, NetdiagServer, ToolRequest};
use mcp_netdiag_rs::netdiag::commands::{full_allowlist, CommandRunner, PRIVILEGED_KEYS};
use mcp_netdiag_rs::netdiag::{
    normalize_tool_result, signal_for, suggested_action, truncate_text,
};
use mcp_netdiag_rs::protocol;

fn server() -> NetdiagServer<CommandRunner, ()> {
    NetdiagServer::new(CommandRunner::with_enabled(None), None)
}

fn keys(list: &[&str]) -> KeySet {
    let mut set = KeySet::new();
    for k in list {
        set.insert(k);
    }
    set
}

/// A successful raw result, as a stand-in for running a command.
fn stub(key: &str) -> Json {
    Json::object()
        .with("ok", Json::Bool(true))
        .with("exit_code", Json::Int(0))
        .with("stdout", Json::text(&format!("stub output for {key}")))
        .with("stderr", Json::text(""))
}

fn stubbed(request: Result<ToolRequest, NetdiagError>) -> Json {
    let request = request.unwrap();
    let raw = stub(request.key);
    request.complete(Ok(raw)).unwrap().structured_content.unwrap()
}

fn refused(runner: &CommandRunner, request: Result<ToolRequest, NetdiagError>) -> protocol::Error {
    let request = request.unwrap();
    let error = runner.run(request.key, &request.extra).unwrap_err();
    request.complete(Err(error)).unwrap_err()
}

fn ping_params(target: &str, count: Option<u64>, timeout_secs: Option<u64>) -> PingParams {
    PingParams { target: target.to_string(), count, timeout_secs }
}

fn privileged_request(tool: &str) -> Result<ToolRequest, NetdiagError> {
    let s = server();
    match tool {
        "net.ping" => s.ping(ping_params("127.0.0.1", Some(1), Some(1))),
        "net.traceroute" => s.traceroute(TracerouteParams {
            target: "127.0.0.1".to_string(),
            max_hops: Some(1),
        }),
        "net.tcpdump_sample" => s.tcpdump_sample(TcpdumpParams {
            interface: "lo".to_string(),
            count: Some(1),
        }),
        "net.firewall" => s.firewall(),
        "net.conntrack" => s.conntrack(),
        "sys.dmesg" => s.dmesg(),
        other => panic!("{other} is not privileged"),
    }
}

const PRIVILEGED_TOOLS: [&str; 6] = [
    "net.ping",
    "net.traceroute",
    "net.tcpdump_sample",
    "net.firewall",
    "net.conntrack",
    "sys.dmesg",
];

const MCP_TOOLS: [&str; 24] = [
    "net.if_status",
    "net.mac_lookup",
    "net.neighbors",
    "net.routes",
    "net.addr",
    "net.link_detail",
    "net.route_get",
    "net.rules",
    "net.ping",
    "net.traceroute",
    "net.sockets",
    "net.dns_status",
    "net.resolv_conf",
    "net.ethtool",
    "net.firewall",
    "net.conntrack",
    "net.tcpdump_sample",
    "net.logs",
    "sys.failed_units",
    "sys.service_status",
    "sys.dmesg",
    "sys.uptime",
    "sys.memory",
    "sys.filesystems",
];

fn descriptor(name: &str) -> ToolDescriptor {
    *tools()
        .iter()
        .find(|t| t.name == name)
        .unwrap_or_else(|| panic!("{name} listed"))
}

// ---- arguments ------------------------------------------------------------

#[test]
fn bounded_passes_none_and_in_range() {
    assert_eq!(bounded(None, "count", 1, 10).unwrap(), None);
    assert_eq!(bounded(Some(5), "count", 1, 10).unwrap(), Some(5));
    assert_eq!(bounded(Some(1), "count", 1, 10).unwrap(), Some(1));
    assert_eq!(bounded(Some(10), "count", 1, 10).unwrap(), Some(10));
}

#[test]
fn bounded_rejects_out_of_range_with_invalid_param() {
    let err = bounded(Some(99), "count", 1, 10).unwrap_err();
    assert!(matches!(err, NetdiagError::InvalidParam { ref name, .. } if name == "count"));
    assert_eq!(err.code(), -32010);
    let err = bounded(Some(0), "count", 1, 10).unwrap_err();
    assert!(
        matches!(err, NetdiagError::InvalidParam { ref reason, .. } if reason == "must be in range [1, 10]")
    );
}

#[test]
fn interface_args_validates_and_builds_pair() {
    assert_eq!(interface_args(None).unwrap(), Vec::<String>::new());
    assert_eq!(
        interface_args(Some("eth0")).unwrap(),
        vec!["dev".to_string(), "eth0".to_string()]
    );
    assert!(interface_args(Some("eth0;rm")).is_err());
}

fn extra(request: Result<ToolRequest, NetdiagError>, tool: &str, key: &str) -> Vec<String> {
    let request = request.unwrap();
    assert_eq!(request.tool, tool);
    assert_eq!(request.key, key);
    request.extra
}

#[test]
fn scoped_tools_name_their_interface() {
    let s = server();
    let eth0 = || InterfaceParams { interface: Some("eth0".to_string()) };
    let all = || InterfaceParams { interface: None };
    let pair = vec!["dev".to_string(), "eth0".to_string()];
    assert_eq!(extra(s.if_status(eth0()), "net.if_status", "if_status"), pair);
    assert_eq!(extra(s.neighbors(eth0()), "net.neighbors", "neighbors"), pair);
    assert_eq!(extra(s.addr(eth0()), "net.addr", "addr"), pair);
    assert_eq!(extra(s.link_detail(eth0()), "net.link_detail", "link_detail"), pair);
    assert!(extra(s.if_status(all()), "net.if_status", "if_status").is_empty());
    let bad = InterfaceParams { interface: Some("-h".to_string()) };
    assert_eq!(s.addr(bad).unwrap_err().code(), -32010);
}

#[test]
fn parameterised_tools_build_their_arguments() {
    let s = server();
    assert_eq!(
        extra(
            s.mac_lookup(MacLookupParams { mac: "aa:bb:cc:dd:ee:ff".to_string() }),
            "net.mac_lookup",
            "mac_table",
        ),
        ["to", "aa:bb:cc:dd:ee:ff"],
    );
    assert_eq!(
        extra(
            s.route_get(TargetParams { target: "192.0.2.1".to_string() }),
            "net.route_get",
            "route_get",
        ),
        ["192.0.2.1"],
    );
    assert_eq!(
        extra(
            s.ethtool(RequiredInterfaceParams { interface: "eth0".to_string() }),
            "net.ethtool",
            "ethtool",
        ),
        ["eth0"],
    );
    assert_eq!(
        extra(s.ping(ping_params("1.1.1.1", None, None)), "net.ping", "ping"),
        ["-c", "3", "-W", "2", "1.1.1.1"],
    );
    assert_eq!(
        extra(s.ping(ping_params("1.1.1.1", Some(10), Some(5))), "net.ping", "ping"),
        ["-c", "10", "-W", "5", "1.1.1.1"],
    );
    assert_eq!(
        extra(
            s.traceroute(TracerouteParams { target: "h".to_string(), max_hops: None }),
            "net.traceroute",
            "traceroute",
        ),
        ["-m", "12", "h"],
    );
    assert_eq!(
        extra(
            s.tcpdump_sample(TcpdumpParams { interface: "eth0".to_string(), count: None }),
            "net.tcpdump_sample",
            "tcpdump_sample",
        ),
        ["-i", "eth0", "-c", "10"],
    );
    assert_eq!(
        extra(s.logs(LogsParams { lines: None, unit: None }), "net.logs", "logs"),
        ["-n", "50"],
    );
    assert_eq!(
        extra(
            s.logs(LogsParams { lines: Some(200), unit: Some("ssh.service".to_string()) }),
            "net.logs",
            "logs",
        ),
        ["-n", "200", "-u", "ssh.service"],
    );
    assert_eq!(
        extra(
            s.service_status(ServiceStatusParams { unit: "ssh".to_string(), lines: None }),
            "sys.service_status",
            "service_status",
        ),
        ["--lines", "50", "ssh"],
    );
}

#[test]
fn tools_without_parameters_append_nothing() {
    let s = server();
    for (request, tool, key) in [
        (s.routes(), "net.routes", "routes"),
        (s.rules(), "net.rules", "rules"),
        (s.sockets(), "net.sockets", "sockets"),
        (s.dns_status(), "net.dns_status", "dns_status"),
        (s.resolv_conf(), "net.resolv_conf", "resolv_conf"),
        (s.firewall(), "net.firewall", "firewall"),
        (s.conntrack(), "net.conntrack", "conntrack"),
        (s.failed_units(), "sys.failed_units", "failed_units"),
        (s.dmesg(), "sys.dmesg", "dmesg"),
        (s.uptime(), "sys.uptime", "uptime"),
        (s.memory(), "sys.memory", "memory"),
        (s.filesystems(), "sys.filesystems", "filesystems"),
    ] {
        assert!(extra(request, tool, key).is_empty());
    }
}

#[test]
fn every_parameter_is_checked_in_order() {
    let s = server();
    let err = s.ping(ping_params("-f", Some(99), Some(99))).unwrap_err();
    assert!(matches!(err, NetdiagError::InvalidParam { ref name, .. } if name == "target"));
    let err = s.ping(ping_params("h", Some(99), Some(99))).unwrap_err();
    assert!(matches!(err, NetdiagError::InvalidParam { ref name, .. } if name == "count"));
    let err = s.ping(ping_params("h", Some(1), Some(6))).unwrap_err();
    assert!(
        matches!(err, NetdiagError::InvalidParam { ref name, ref reason }
            if name == "timeout_secs" && reason == "must be in range [1, 5]")
    );
    let err = s
        .logs(LogsParams { lines: Some(201), unit: Some("-x".to_string()) })
        .unwrap_err();
    assert!(matches!(err, NetdiagError::InvalidParam { ref name, .. } if name == "lines"));
    let err = s
        .logs(LogsParams { lines: None, unit: Some("-x".to_string()) })
        .unwrap_err();
    assert!(matches!(err, NetdiagError::InvalidParam { ref name, .. } if name == "unit"));
    let err = s
        .traceroute(TracerouteParams { target: "h".to_string(), max_hops: Some(31) })
        .unwrap_err();
    assert!(matches!(err, NetdiagError::InvalidParam { ref name, .. } if name == "max_hops"));
    let err = s
        .service_status(ServiceStatusParams { unit: "u".to_string(), lines: Some(0) })
        .unwrap_err();
    assert!(matches!(err, NetdiagError::InvalidParam { ref name, .. } if name == "lines"));
    let err = s
        .ethtool(RequiredInterfaceParams { interface: String::new() })
        .unwrap_err();
    assert!(matches!(err, NetdiagError::InvalidParam { ref name, .. } if name == "interface"));
}

// ---- answers --------------------------------------------------------------

#[test]
fn normalize_marks_success_envelope() {
    let raw = Json::object()
        .with("ok", Json::Bool(true))
        .with("exit_code", Json::Int(0))
        .with("stdout", Json::text("up"))
        .with("stderr", Json::text(""));
    let out = normalize_tool_result("net.routes", raw);
    assert_eq!(out.str_at("tool"), Some("net.routes"));
    assert_eq!(out.str_at("status"), Some("ok"));
    assert_eq!(out.str_at("signal"), Some("command_succeeded"));
}

#[test]
fn normalize_marks_failure_envelope_with_tool_signal() {
    let raw = Json::object()
        .with("ok", Json::Bool(false))
        .with("exit_code", Json::Int(1))
        .with("stdout", Json::text(""))
        .with("stderr", Json::text("boom"));
    let out = normalize_tool_result("net.ping", raw);
    assert_eq!(out.str_at("status"), Some("fail"));
    assert_eq!(out.str_at("signal"), Some("connectivity_check_failed"));
}

#[test]
fn truncate_text_appends_ellipsis_past_limit() {
    assert_eq!(truncate_text("abcdef", 3), "abc...");
    assert_eq!(truncate_text("abc", 8), "abc");
}

#[test]
fn truncation_never_cuts_a_character() {
    assert_eq!(truncate_text("a\u{e9}b", 2), "a...");
    assert_eq!(truncate_text("a\u{e9}b", 3), "a\u{e9}...");
    assert_eq!(truncate_text("\u{1f600}", 3), "...");
    assert_eq!(truncate_text("\u{1f600}", 4), "\u{1f600}");
    assert_eq!(truncate_text("", 0), "");
}

#[test]
fn the_envelope_keeps_the_raw_result() {
    let raw = Json::object()
        .with("ok", Json::Bool(true))
        .with("stdout", Json::text(&"x".repeat(600)))
        .with("more", Json::array().with_item(Json::Int(7)));
    let out = normalize_tool_result("net.sockets", raw);
    assert_eq!(out.str_at("evidence").unwrap(), format!("{}...", "x".repeat(500)));
    let kept = out.get("raw").unwrap();
    assert_eq!(kept.str_at("stdout").unwrap().len(), 600);
    assert!(matches!(kept.get("more"), Some(Json::Array(items)) if items.len() == 1));
    assert_eq!(
        out.str_at("suggested_action"),
        Some("No immediate fault signal from this command; continue with adjacent diagnostics."),
    );
}

#[test]
fn a_raw_result_without_fields_counts_as_failed_and_empty() {
    let out = normalize_tool_result("net.rules", Json::Null);
    assert_eq!(out.str_at("status"), Some("fail"));
    assert_eq!(out.str_at("evidence"), Some(""));
    assert_eq!(out.str_at("signal"), Some("policy_routing_issue"));
    assert!(matches!(out.get("raw"), Some(Json::Null)));
}

#[test]
fn every_tool_has_a_signal_for_failure() {
    for (tool, signal) in [
        ("net.if_status", "interface_or_link_issue"),
        ("net.addr", "address_state_issue"),
        ("net.link_detail", "interface_or_link_issue"),
        ("net.mac_lookup", "mac_table_lookup_failed"),
        ("net.neighbors", "neighbor_resolution_issue"),
        ("net.routes", "routing_state_issue"),
        ("net.route_get", "route_resolution_failed"),
        ("net.rules", "policy_routing_issue"),
        ("net.ping", "connectivity_check_failed"),
        ("net.traceroute", "path_diagnosis_failed"),
        ("net.sockets", "socket_state_failed"),
        ("net.dns_status", "dns_state_failed"),
        ("net.resolv_conf", "dns_state_failed"),
        ("net.ethtool", "interface_driver_query_failed"),
        ("net.firewall", "firewall_state_failed"),
        ("net.conntrack", "conntrack_query_failed"),
        ("net.tcpdump_sample", "packet_capture_failed"),
        ("net.logs", "log_extraction_failed"),
        ("sys.failed_units", "systemd_state_failed"),
        ("sys.service_status", "systemd_state_failed"),
        ("sys.dmesg", "kernel_log_failed"),
        ("sys.uptime", "resource_query_failed"),
        ("sys.memory", "resource_query_failed"),
        ("sys.filesystems", "resource_query_failed"),
        ("net.other", "diagnostic_command_failed"),
    ] {
        assert_eq!(signal_for(tool, false), signal);
        assert_eq!(signal_for(tool, true), "command_succeeded");
    }
}

#[test]
fn suggestions_follow_the_tool_and_the_output() {
    let down = "Link appears down; verify physical link, transceiver, and peer port state.";
    let fine = "No immediate fault signal from this command; continue with adjacent diagnostics.";
    assert_eq!(suggested_action("net.if_status", true, "state DOWN"), down);
    assert_eq!(suggested_action("net.link_detail", true, "<NO-CARRIER>"), down);
    assert_eq!(suggested_action("net.addr", true, "state DOWN"), fine);
    assert_eq!(suggested_action("net.if_status", true, "state UP"), fine);
    assert_eq!(suggested_action("net.if_status", true, "down"), fine);
    assert_eq!(
        suggested_action("net.ping", false, "DOWN"),
        "Verify VLAN, gateway route, and ACL/firewall path; run traceroute next.",
    );
    assert_eq!(
        suggested_action("net.if_status", false, ""),
        "Check cable/SFP, admin state, and interface counters for errors/drops.",
    );
    assert_eq!(
        suggested_action("net.neighbors", false, ""),
        "Verify ARP/ND reachability on the expected L2 segment and VLAN.",
    );
    assert_eq!(
        suggested_action("net.routes", false, ""),
        "Validate route presence, metric preference, and next-hop reachability.",
    );
    for tool in ["net.dns_status", "net.resolv_conf"] {
        assert_eq!(
            suggested_action(tool, false, ""),
            "Verify resolver configuration, DNS server reachability, and split-DNS domains.",
        );
    }
    assert_eq!(
        suggested_action("net.firewall", false, ""),
        "Inspect firewall tables for dropped forwarding or input traffic.",
    );
    for tool in ["sys.service_status", "sys.failed_units"] {
        assert_eq!(
            suggested_action(tool, false, ""),
            "Inspect the failed unit logs and dependency chain.",
        );
    }
    for tool in ["sys.memory", "sys.filesystems"] {
        assert_eq!(
            suggested_action(tool, false, ""),
            "Check for resource pressure before deeper network diagnosis.",
        );
    }
    assert_eq!(
        suggested_action("net.link_detail", false, "NO-CARRIER"),
        "Inspect stderr and rerun with narrower scope.",
    );
}

#[test]
fn call_net_routes_returns_structured_result() {
    let sc = stubbed(server().routes());
    assert_eq!(sc.str_at("tool"), Some("net.routes"));
    assert_eq!(sc.str_at("status"), Some("ok"));
    assert_eq!(sc.str_at("signal"), Some("command_succeeded"));
}

#[test]
fn call_net_ping_normalizes_stub_output() {
    let sc = stubbed(server().ping(ping_params("127.0.0.1", Some(2), None)));
    assert_eq!(sc.str_at("tool"), Some("net.ping"));
    assert_eq!(sc.str_at("status"), Some("ok"));
    assert_eq!(sc.str_at("evidence"), Some("stub output for ping"));
}

#[test]
fn call_net_route_get_normalizes_stub_output() {
    let sc = stubbed(server().route_get(TargetParams { target: "192.0.2.1".to_string() }));
    assert_eq!(sc.str_at("tool"), Some("net.route_get"));
    assert_eq!(sc.str_at("status"), Some("ok"));
}

#[test]
fn call_sys_service_status_accepts_template_unit() {
    let sc = stubbed(server().service_status(ServiceStatusParams {
        unit: "serial-getty@ttyS0.service".to_string(),
        lines: Some(10),
    }));
    assert_eq!(sc.str_at("tool"), Some("sys.service_status"));
    assert_eq!(sc.str_at("status"), Some("ok"));
}

#[test]
fn call_net_tcpdump_sample_rejects_out_of_range_count() {
    let err = server()
        .tcpdump_sample(TcpdumpParams { interface: "eth0".to_string(), count: Some(500) })
        .unwrap_err();
    assert_eq!(err.code(), -32010);
}

#[test]
fn call_with_out_of_range_count_returns_invalid_param() {
    let err = server().ping(ping_params("127.0.0.1", Some(99), None)).unwrap_err();
    assert_eq!(err.code(), -32010);
}

#[test]
fn call_with_bad_mac_returns_invalid_param() {
    let err = server().mac_lookup(MacLookupParams { mac: "zz".to_string() }).unwrap_err();
    assert_eq!(err.code(), -32010);
}

#[test]
fn call_net_ping_rejects_target_with_leading_dash() {
    let err = server().ping(ping_params("-f", None, None)).unwrap_err();
    assert_eq!(err.code(), -32010);
}

#[test]
fn call_net_traceroute_rejects_target_with_leading_dash() {
    let err = server()
        .traceroute(TracerouteParams { target: "-q30".to_string(), max_hops: None })
        .unwrap_err();
    assert_eq!(err.code(), -32010);
}

#[test]
fn disabled_command_returns_not_allowed() {
    let enabled = keys(&["ping"]);
    let runner = CommandRunner::with_enabled(Some(&enabled));
    assert_eq!(refused(&runner, server().routes()).code, -32011);
}

#[test]
fn call_privileged_default_disabled_returns_privileged_message() {
    for tool in PRIVILEGED_TOOLS {
        let runner = CommandRunner::with_layers(None, &KeySet::new());
        let err = refused(&runner, privileged_request(tool));
        assert_eq!(err.code, -32011, "{tool} must refuse by default");
        assert!(
            err.message.contains("NETDIAG_ENABLE_PRIVILEGED"),
            "{tool} refusal must surface the env-var hint, got: {}",
            err.message,
        );
    }
}

#[test]
fn call_privileged_subset_opts_in_only_listed_tool() {
    let privileged = keys(&["ping"]);
    let runner = CommandRunner::with_layers(None, &privileged);
    let request = privileged_request("net.ping").unwrap();
    assert!(runner.run(request.key, &request.extra).is_ok());
    for tool in PRIVILEGED_TOOLS.iter().filter(|t| **t != "net.ping") {
        let err = refused(&runner, privileged_request(tool));
        assert_eq!(err.code, -32011, "{tool} must still refuse");
        assert!(
            err.message.contains("NETDIAG_ENABLE_PRIVILEGED"),
            "{tool} refusal must keep the env-var hint",
        );
    }
}

#[test]
fn call_privileged_all_sentinel_admits_every_privileged_tool() {
    let privileged = keys(&[config::PRIVILEGED_ALL_SENTINEL]);
    for tool in PRIVILEGED_TOOLS {
        let runner = CommandRunner::with_layers(None, &privileged);
        let request = privileged_request(tool).unwrap();
        assert!(
            runner.run(request.key, &request.extra).is_ok(),
            "{tool} must pass privileged gate under `all`",
        );
    }
}

#[test]
fn call_privileged_allowlist_precedence_returns_command_not_allowed() {
    let allow = keys(&["routes"]);
    let privileged = keys(&[config::PRIVILEGED_ALL_SENTINEL]);
    let runner = CommandRunner::with_layers(Some(&allow), &privileged);
    let err = refused(&runner, privileged_request("net.ping"));
    assert_eq!(err.code, -32011);
    assert!(
        err.message.contains("not allowed") && !err.message.contains("NETDIAG_ENABLE_PRIVILEGED"),
        "allowlist refusal must NOT surface privileged hint: {}",
        err.message,
    );
}

// ---- errors ---------------------------------------------------------------

#[test]
fn errors_have_pinned_codes_messages_and_data() {
    let e = protocol::Error::from(NetdiagError::InvalidParam {
        name: "count".to_string(),
        reason: "too big".to_string(),
    });
    assert_eq!(e.code, -32010);
    assert_eq!(e.message, "invalid parameter 'count': too big");
    let data = e.data.unwrap();
    assert_eq!(data.str_at("name"), Some("count"));
    assert_eq!(data.str_at("reason"), Some("too big"));

    let e = protocol::Error::from(NetdiagError::CommandNotAllowed { command: "rm".to_string() });
    assert_eq!(e.code, -32011);
    assert_eq!(e.message, "command not allowed: rm");
    assert_eq!(e.data.unwrap().str_at("command"), Some("rm"));

    let e = protocol::Error::from(NetdiagError::CommandExec { message: "m".to_string() });
    assert_eq!(e.code, -32012);
    assert_eq!(e.message, "command execution failed: m");
    assert_eq!(e.data.unwrap().str_at("message"), Some("m"));

    let e = protocol::Error::from(NetdiagError::PrivilegedDisabled { key: "ping".to_string() });
    assert_eq!(e.code, -32011);
    assert_eq!(
        e.message,
        "privileged tool disabled; set NETDIAG_ENABLE_PRIVILEGED=ping or NETDIAG_ENABLE_PRIVILEGED=all to enable",
    );
    let data = e.data.unwrap();
    assert_eq!(data.str_at("command"), Some("ping"));
    assert_eq!(data.bool_at("privileged"), Some(true));
    assert_eq!(data.str_at("enable_env"), Some("NETDIAG_ENABLE_PRIVILEGED"));
}

// ---- the list of tools ----------------------------------------------------

#[test]
fn the_catalog_lists_every_tool_with_its_command() {
    let list = tools();
    assert_eq!(list.len(), MCP_TOOLS.len());
    let table = full_allowlist();
    for (i, name) in MCP_TOOLS.iter().enumerate() {
        assert_eq!(list[i].name, *name);
        assert!(table.iter().any(|e| e.0 == list[i].key), "{name}");
        assert!(!list[i].destructive_hint);
    }
}

#[test]
fn tools_list_still_advertises_privileged_when_disabled() {
    // The list does not depend on the operator's filters.
    let runner = CommandRunner::with_layers(None, &KeySet::new());
    let list = tools();
    for name in PRIVILEGED_TOOLS {
        let t = list
            .iter()
            .find(|t| t.name == name)
            .unwrap_or_else(|| panic!("{name} must remain visible even when disabled"));
        assert!(runner.run(t.key, &[]).is_err());
    }
}

#[test]
fn tools_list_marks_privileged_in_description_and_open_world_hint() {
    for name in PRIVILEGED_TOOLS {
        let t = descriptor(name);
        assert!(
            t.description.starts_with("[Privileged:"),
            "{name} description must carry the privileged capability marker: {:?}",
            t.description,
        );
        assert!(t.open_world_hint, "{name} must advertise openWorldHint=true");
        assert!(!t.destructive_hint);
    }
}

#[test]
fn tools_list_wire_emitting_privileged_tools_flip_read_only_and_idempotent_hints() {
    for name in ["net.ping", "net.traceroute", "net.tcpdump_sample"] {
        let t = descriptor(name);
        assert!(!t.read_only_hint, "{name}");
        assert!(!t.idempotent_hint, "{name}");
    }
}

#[test]
fn tools_list_privileged_read_privileged_tools_keep_read_only_hints_true() {
    for name in ["net.firewall", "net.conntrack", "sys.dmesg"] {
        let t = descriptor(name);
        assert!(t.read_only_hint, "{name}");
        assert!(t.idempotent_hint, "{name}");
    }
}

#[test]
fn tools_list_default_tool_advertises_closed_world_annotation() {
    let routes = descriptor("net.routes");
    assert!(!routes.open_world_hint);
    assert!(!routes.description.starts_with("[Privileged:"));
}

#[test]
fn the_mark_and_the_hint_follow_the_privileged_keys() {
    for t in tools() {
        let privileged = PRIVILEGED_TOOLS.contains(&t.name);
        assert_eq!(PRIVILEGED_KEYS.contains(&t.key), privileged, "{}", t.name);
        assert_eq!(t.description.starts_with(PRIVILEGED_MARK), privileged, "{}", t.name);
        assert_eq!(t.open_world_hint, privileged, "{}", t.name);
        assert_eq!(t.read_only_hint, t.idempotent_hint, "{}", t.name);
    }
}

// ---- the journal ----------------------------------------------------------

#[test]
fn iso8601_epoch_renders_zero() {
    assert_eq!(iso8601_from_secs(0, 0), "1970-01-01T00:00:00.000Z");
}

#[test]
fn iso8601_known_date() {
    assert_eq!(
        iso8601_from_secs(1_704_067_200, 0),
        "2024-01-01T00:00:00.000Z"
    );
}

#[test]
fn iso8601_renders_every_part() {
    assert_eq!(iso8601_from_secs(951_827_696, 7), "2000-02-29T12:34:56.007Z");
    assert_eq!(iso8601_from_secs(-1, 999), "1969-12-31T23:59:59.999Z");
    assert_eq!(iso8601_from_secs(-2_203_891_200, 42), "1900-03-01T00:00:00.042Z");
    assert_eq!(iso8601_from_secs(253_402_300_799, 999), "9999-12-31T23:59:59.999Z");
    assert_eq!(iso8601_from_secs(253_402_300_800, 0), "10000-01-01T00:00:00.000Z");
    assert_eq!(iso8601_from_secs(-62_167_219_200, 0), "0000-01-01T00:00:00.000Z");
    assert_eq!(iso8601_from_secs(-62_167_219_201, 0), "-001-12-31T23:59:59.000Z");
}

/// Reads a time stamp back, by counting the days up to its date.
fn read_back(ts: &str) -> (i64, u32) {
    let n = |from: usize, to: usize| ts[from..to].parse::<i64>().unwrap();
    let leap = |y: i64| y % 4 == 0 && (y % 100 != 0 || y % 400 == 0);
    let (year, month, day) = (n(0, 4), n(5, 7), n(8, 10));
    let mut days = day - 1;
    for y in year.min(1970)..year.max(1970) {
        let len = if leap(y) { 366 } else { 365 };
        days += if year > 1970 { len } else { -len };
    }
    for m in 1..month {
        days += match m {
            2 if leap(year) => 29,
            2 => 28,
            4 | 6 | 9 | 11 => 30,
            _ => 31,
        };
    }
    let secs = days * 86_400 + n(11, 13) * 3600 + n(14, 16) * 60 + n(17, 19);
    (secs, n(20, 23) as u32)
}

#[test]
fn iso8601_reads_back_and_sorts_by_time() {
    let mut moments = Vec::new();
    let mut secs = -62_167_219_200_i64;
    while secs <= 253_402_300_799 {
        moments.push((secs, 0));
        moments.push((secs, 9));
        moments.push((secs, 10));
        moments.push((secs + 1, 0));
        secs += 86_400 * 1461 + 12_345;
    }
    moments.push((253_402_300_799, 999));
    moments.sort();
    let stamps: Vec<String> = moments.iter().map(|m| iso8601_from_secs(m.0, m.1)).collect();
    for (m, ts) in moments.iter().zip(&stamps) {
        assert_eq!(ts.len(), 24);
        assert_eq!(read_back(ts), *m, "{ts}");
    }
    for pair in stamps.windows(2) {
        assert!(pair[0] < pair[1], "{pair:?}");
    }
}

#[test]
fn iso8601_now_is_a_time_stamp_of_this_age() {
    let now = iso8601_now();
    assert_eq!(now.len(), 24);
    assert!(now.ends_with('Z'));
    assert!(now.as_str() > "2024-01-01T00:00:00.000Z");
    assert!(now.as_str() < "9999-01-01T00:00:00.000Z");
}

#[test]
fn entry_session_id_is_always_none() {
    let e = JournalEntry::new("net.routes", JournalEntry::DIR_CALL, Json::object());
    assert_eq!(e.session_id, JournalEntry::NO_SESSION);
}

#[test]
fn result_summary_includes_pinned_error_code() {
    let err = protocol::Error::new(-32011, "command not allowed");
    let summary = result_summary(Err(&err));
    assert_eq!(summary.bool_at("ok"), Some(false));
    assert!(matches!(summary.get("error_code"), Some(Json::Int(-32011))));
    assert_eq!(summary.str_at("error_message"), Some("command not allowed"));
}

#[test]
fn result_summary_extracts_status_and_signal() {
    let cr = CallToolResult::structured(
        Json::object()
            .with("status", Json::text("ok"))
            .with("signal", Json::text("command_succeeded"))
            .with("evidence", Json::text(&"x".repeat(300))),
    );
    let summary = result_summary(Ok(&cr));
    assert_eq!(summary.bool_at("ok"), Some(true));
    assert_eq!(summary.str_at("status"), Some("ok"));
    assert_eq!(summary.str_at("signal"), Some("command_succeeded"));
    assert_eq!(
        summary.str_at("evidence_head").unwrap().chars().count(),
        config::JOURNAL_HEAD_CHARS
    );
}

#[test]
fn a_result_without_content_is_summed_up_with_nulls() {
    let summary = result_summary(Ok(&CallToolResult { structured_content: None }));
    assert_eq!(summary.bool_at("ok"), Some(true));
    assert!(matches!(summary.get("status"), Some(Json::Null)));
    assert!(matches!(summary.get("signal"), Some(Json::Null)));
    assert_eq!(summary.str_at("evidence_head"), Some(""));
}

#[test]
fn the_head_of_the_evidence_is_counted_in_characters() {
    let wide = Json::object().with("evidence", Json::text(&"\u{e9}".repeat(200)));
    let head = evidence_head(Some(&wide));
    assert_eq!(head, "\u{e9}".repeat(128));
    let short = Json::object().with("evidence", Json::text("up"));
    assert_eq!(evidence_head(Some(&short)), "up");
    let number = Json::object().with("evidence", Json::Int(1));
    assert_eq!(evidence_head(Some(&number)), "");
    assert_eq!(evidence_head(None), "");
}

#[test]
fn a_call_summary_holds_the_arguments_whole() {
    let args = Json::object().with("target", Json::text("h"));
    let summary = call_summary(&args);
    assert_eq!(summary.get("args").unwrap().str_at("target"), Some("h"));
}

#[test]
fn a_row_of_a_given_moment_is_fixed() {
    let row = JournalEntry::at(0, 5, "net.ping", JournalEntry::DIR_RESULT, Json::Bool(true));
    assert_eq!(row.ts, "1970-01-01T00:00:00.005Z");
    assert_eq!(row.session_id, "none");
    assert_eq!(row.tool, "net.ping");
    assert_eq!(row.direction, "result");
    assert!(matches!(row.summary, Json::Bool(true)));
}

#[test]
fn journal_records_tool_call_pairs() {
    let s: NetdiagServer<CommandRunner, ()> =
        NetdiagServer::new(CommandRunner::with_enabled(None), Some(()));
    let args = Json::object();
    let call = s.call_started("net.routes", Some(&args)).unwrap();
    assert_eq!(call.direction, "call");
    assert_eq!(call.tool, "net.routes");
    assert_eq!(call.session_id, "none");
    assert!(call.ts.ends_with('Z'));
    assert!(matches!(call.summary.get("args"), Some(Json::Object(_))));

    let request = s.routes().unwrap();
    let result = request.complete(Ok(stub(request.key)));
    let row = s.call_finished("net.routes", &result).unwrap();
    assert_eq!(row.direction, "result");
    assert_eq!(row.summary.bool_at("ok"), Some(true));
    assert_eq!(row.summary.str_at("status"), Some("ok"));

    let bare = s.call_started("net.routes", None).unwrap();
    assert!(matches!(bare.summary.get("args"), Some(Json::Null)));
}

#[test]
fn journal_records_pinned_error_code_for_failed_call() {
    let s: NetdiagServer<CommandRunner, ()> =
        NetdiagServer::new(CommandRunner::with_enabled(None), Some(()));
    let error = s.mac_lookup(MacLookupParams { mac: "zz".to_string() }).unwrap_err();
    let result: Result<CallToolResult, protocol::Error> = Err(protocol::Error::from(error));
    let row = s.call_finished("net.mac_lookup", &result).unwrap();
    assert_eq!(row.summary.bool_at("ok"), Some(false));
    assert!(matches!(row.summary.get("error_code"), Some(Json::Int(-32010))));
}

#[test]
fn degraded_mode_journal_none_still_dispatches() {
    let s = server();
    assert!(s.journal().is_none());
    assert!(s.call_started("net.routes", None).is_none());
    let request = s.routes().unwrap();
    assert!(s.runner().run(request.key, &request.extra).is_ok());
    let result = request.complete(Ok(stub(request.key)));
    assert!(s.call_finished("net.routes", &result).is_none());
    assert!(result.is_ok(), "dispatch must still succeed");
}

#[test]
fn a_journal_line_ends_in_one_newline() {
    assert_eq!(journal_line(b"{}".to_vec()), b"{}\n".to_vec());
    assert_eq!(journal_line(Vec::new()), b"\n".to_vec());
}
