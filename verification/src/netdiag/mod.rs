//! The diagnostics themselves: which commands exist, which callers may run,
//! and what their output means.
//!
//! Every diagnostic ends in the same envelope, `{tool, status, signal,
//! evidence, suggested_action, raw}`, made from the raw result of the command
//! by [`normalize_tool_result`].

pub mod commands;
pub mod envelope_laws;
pub mod laws;
pub mod runner_laws;
pub mod validator_laws;
pub mod validators;

use vstd::prelude::*;
use vstd::string::*;
use vstd::utf8::*;

use crate::config;
use crate::json::{Json, JsonView};
use crate::text::{clip_bytes, contains, same_text};

verus! {

/// The signal of a failed command.
pub open spec fn failure_signal(tool: Seq<char>) -> Seq<char> {
    if tool == "net.if_status"@ || tool == "net.link_detail"@ {
        "interface_or_link_issue"@
    } else if tool == "net.addr"@ {
        "address_state_issue"@
    } else if tool == "net.mac_lookup"@ {
        "mac_table_lookup_failed"@
    } else if tool == "net.neighbors"@ {
        "neighbor_resolution_issue"@
    } else if tool == "net.routes"@ {
        "routing_state_issue"@
    } else if tool == "net.route_get"@ {
        "route_resolution_failed"@
    } else if tool == "net.rules"@ {
        "policy_routing_issue"@
    } else if tool == "net.ping"@ {
        "connectivity_check_failed"@
    } else if tool == "net.traceroute"@ {
        "path_diagnosis_failed"@
    } else if tool == "net.sockets"@ {
        "socket_state_failed"@
    } else if tool == "net.dns_status"@ || tool == "net.resolv_conf"@ {
        "dns_state_failed"@
    } else if tool == "net.ethtool"@ {
        "interface_driver_query_failed"@
    } else if tool == "net.firewall"@ {
        "firewall_state_failed"@
    } else if tool == "net.conntrack"@ {
        "conntrack_query_failed"@
    } else if tool == "net.tcpdump_sample"@ {
        "packet_capture_failed"@
    } else if tool == "net.logs"@ {
        "log_extraction_failed"@
    } else if tool == "sys.failed_units"@ || tool == "sys.service_status"@ {
        "systemd_state_failed"@
    } else if tool == "sys.dmesg"@ {
        "kernel_log_failed"@
    } else if tool == "sys.uptime"@ || tool == "sys.memory"@ || tool == "sys.filesystems"@ {
        "resource_query_failed"@
    } else {
        "diagnostic_command_failed"@
    }
}

/// The signal of an outcome.
pub open spec fn signal(tool: Seq<char>, ok: bool) -> Seq<char> {
    if ok {
        "command_succeeded"@
    } else {
        failure_signal(tool)
    }
}

/// The next step after a failed command.
pub open spec fn failure_action(tool: Seq<char>) -> Seq<char> {
    if tool == "net.ping"@ {
        "Verify VLAN, gateway route, and ACL/firewall path; run traceroute next."@
    } else if tool == "net.if_status"@ {
        "Check cable/SFP, admin state, and interface counters for errors/drops."@
    } else if tool == "net.neighbors"@ {
        "Verify ARP/ND reachability on the expected L2 segment and VLAN."@
    } else if tool == "net.routes"@ {
        "Validate route presence, metric preference, and next-hop reachability."@
    } else if tool == "net.dns_status"@ || tool == "net.resolv_conf"@ {
        "Verify resolver configuration, DNS server reachability, and split-DNS domains."@
    } else if tool == "net.firewall"@ {
        "Inspect firewall tables for dropped forwarding or input traffic."@
    } else if tool == "sys.service_status"@ || tool == "sys.failed_units"@ {
        "Inspect the failed unit logs and dependency chain."@
    } else if tool == "sys.memory"@ || tool == "sys.filesystems"@ {
        "Check for resource pressure before deeper network diagnosis."@
    } else {
        "Inspect stderr and rerun with narrower scope."@
    }
}

/// Whether a link query reports a link that is down.
pub open spec fn reports_link_down(tool: Seq<char>, evidence: Seq<char>) -> bool {
    &&& tool == "net.if_status"@ || tool == "net.link_detail"@
    &&& crate::text::occurs_in("DOWN"@, evidence) || crate::text::occurs_in(
        "NO-CARRIER"@,
        evidence,
    )
}

/// The suggested next step.
pub open spec fn action(tool: Seq<char>, ok: bool, evidence: Seq<char>) -> Seq<char> {
    if !ok {
        failure_action(tool)
    } else if reports_link_down(tool, evidence) {
        "Link appears down; verify physical link, transceiver, and peer port state."@
    } else {
        "No immediate fault signal from this command; continue with adjacent diagnostics."@
    }
}

/// `text` cut to at most `max` bytes of UTF-8 between two characters, with an
/// ellipsis where something was cut.
pub open spec fn truncated(text: Seq<char>, max: nat) -> Seq<char> {
    if encode_utf8(text).len() <= max {
        text
    } else {
        crate::text::clipped_bytes(text, max) + "..."@
    }
}

/// Whether a raw result tells of success.
pub open spec fn raw_ok(raw: JsonView) -> bool {
    raw.bool_at("ok"@) == Some(true)
}

/// The output in a raw result; empty where there is none.
pub open spec fn raw_output(raw: JsonView) -> Seq<char> {
    match raw.str_at("stdout"@) {
        Some(s) => s,
        None => Seq::empty(),
    }
}

/// The envelope around a raw result.
pub open spec fn envelope(tool: Seq<char>, raw: JsonView) -> JsonView {
    JsonView::object().with("tool"@, JsonView::Str(tool)).with(
        "status"@,
        JsonView::Str(
            if raw_ok(raw) {
                "ok"@
            } else {
                "fail"@
            },
        ),
    ).with("signal"@, JsonView::Str(signal(tool, raw_ok(raw)))).with(
        "evidence"@,
        JsonView::Str(truncated(raw_output(raw), config::EVIDENCE_MAX_CHARS as nat)),
    ).with(
        "suggested_action"@,
        JsonView::Str(action(tool, raw_ok(raw), raw_output(raw))),
    ).with("raw"@, raw)
}

/// Shapes the raw result of a command into the envelope that every tool
/// returns. A command that failed is no error here: its status is `fail`.
pub fn normalize_tool_result(tool: &str, raw: Json) -> (out: Json)
    ensures
        out@ == envelope(tool@, raw@),
{
    let ok: bool = match raw.bool_at("ok") {
        Some(b) => b,
        None => false,
    };
    let output: &str = match raw.str_at("stdout") {
        Some(s) => s,
        None => "",
    };
    proof {
        reveal_strlit("");
        assert(output@ =~= raw_output(raw@));
    }
    let status: &str = if ok {
        "ok"
    } else {
        "fail"
    };
    let suggestion: &'static str = suggested_action(tool, ok, output);
    let evidence: String = truncate_text(output, config::EVIDENCE_MAX_CHARS);
    Json::object().with("tool", Json::text(tool)).with("status", Json::text(status)).with(
        "signal",
        Json::text(signal_for(tool, ok)),
    ).with("evidence", Json::Str(evidence)).with(
        "suggested_action",
        Json::text(suggestion),
    ).with("raw", raw)
}

/// Maps a tool and its success to a coarse signal.
pub fn signal_for(tool: &str, ok: bool) -> (s: &'static str)
    ensures
        s@ == signal(tool@, ok),
{
    if ok {
        return "command_succeeded";
    }
    if same_text(tool, "net.if_status") || same_text(tool, "net.link_detail") {
        "interface_or_link_issue"
    } else if same_text(tool, "net.addr") {
        "address_state_issue"
    } else if same_text(tool, "net.mac_lookup") {
        "mac_table_lookup_failed"
    } else if same_text(tool, "net.neighbors") {
        "neighbor_resolution_issue"
    } else if same_text(tool, "net.routes") {
        "routing_state_issue"
    } else if same_text(tool, "net.route_get") {
        "route_resolution_failed"
    } else if same_text(tool, "net.rules") {
        "policy_routing_issue"
    } else if same_text(tool, "net.ping") {
        "connectivity_check_failed"
    } else if same_text(tool, "net.traceroute") {
        "path_diagnosis_failed"
    } else if same_text(tool, "net.sockets") {
        "socket_state_failed"
    } else if same_text(tool, "net.dns_status") || same_text(tool, "net.resolv_conf") {
        "dns_state_failed"
    } else if same_text(tool, "net.ethtool") {
        "interface_driver_query_failed"
    } else if same_text(tool, "net.firewall") {
        "firewall_state_failed"
    } else if same_text(tool, "net.conntrack") {
        "conntrack_query_failed"
    } else if same_text(tool, "net.tcpdump_sample") {
        "packet_capture_failed"
    } else if same_text(tool, "net.logs") {
        "log_extraction_failed"
    } else if same_text(tool, "sys.failed_units") || same_text(tool, "sys.service_status") {
        "systemd_state_failed"
    } else if same_text(tool, "sys.dmesg") {
        "kernel_log_failed"
    } else if same_text(tool, "sys.uptime") || same_text(tool, "sys.memory") || same_text(
        tool,
        "sys.filesystems",
    ) {
        "resource_query_failed"
    } else {
        "diagnostic_command_failed"
    }
}

/// Suggests a next step to a person, from the outcome and a scan of the
/// output.
pub fn suggested_action(tool: &str, ok: bool, evidence: &str) -> (s: &'static str)
    ensures
        s@ == action(tool@, ok, evidence@),
{
    if !ok {
        return failed_action(tool);
    }
    if (same_text(tool, "net.if_status") || same_text(tool, "net.link_detail")) && (contains(
        evidence,
        "DOWN",
    ) || contains(evidence, "NO-CARRIER")) {
        "Link appears down; verify physical link, transceiver, and peer port state."
    } else {
        "No immediate fault signal from this command; continue with adjacent diagnostics."
    }
}

fn failed_action(tool: &str) -> (s: &'static str)
    ensures
        s@ == failure_action(tool@),
{
    if same_text(tool, "net.ping") {
        "Verify VLAN, gateway route, and ACL/firewall path; run traceroute next."
    } else if same_text(tool, "net.if_status") {
        "Check cable/SFP, admin state, and interface counters for errors/drops."
    } else if same_text(tool, "net.neighbors") {
        "Verify ARP/ND reachability on the expected L2 segment and VLAN."
    } else if same_text(tool, "net.routes") {
        "Validate route presence, metric preference, and next-hop reachability."
    } else if same_text(tool, "net.dns_status") || same_text(tool, "net.resolv_conf") {
        "Verify resolver configuration, DNS server reachability, and split-DNS domains."
    } else if same_text(tool, "net.firewall") {
        "Inspect firewall tables for dropped forwarding or input traffic."
    } else if same_text(tool, "sys.service_status") || same_text(tool, "sys.failed_units") {
        "Inspect the failed unit logs and dependency chain."
    } else if same_text(tool, "sys.memory") || same_text(tool, "sys.filesystems") {
        "Check for resource pressure before deeper network diagnosis."
    } else {
        "Inspect stderr and rerun with narrower scope."
    }
}

/// Cuts `text` to at most `max` bytes, never inside a character, and marks
/// the cut with an ellipsis.
pub fn truncate_text(text: &str, max: usize) -> (s: String)
    ensures
        s@ == truncated(text@, max as nat),
{
    let (kept, whole): (&str, bool) = clip_bytes(text, max);
    if whole {
        text.to_owned()
    } else {
        kept.to_owned().concat("...")
    }
}

} // verus!
