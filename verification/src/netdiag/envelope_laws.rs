//! What the envelope tells of a raw result, on every tool and every output.

use vstd::prelude::*;
use vstd::utf8::*;

use crate::json::{Json, JsonView};
use crate::netdiag;
use crate::netdiag::laws;
use crate::text_laws;

verus! {

// ---- the suggested action -------------------------------------------------

/// Whether `word` stands somewhere in `output`.
pub open spec fn holds(output: Seq<char>, word: Seq<char>) -> bool {
    exists|a: Seq<char>, b: Seq<char>| output == #[trigger] (a + word + b)
}

proof fn lemma_holds(output: Seq<char>, word: Seq<char>)
    ensures
        crate::text::occurs_in(word, output) <==> holds(output, word),
{
    if crate::text::occurs_in(word, output) {
        text_laws::law_found_only_where_it_stands(word, output);
    }
    if holds(output, word) {
        let (a, b) = choose|a: Seq<char>, b: Seq<char>| output == #[trigger] (a + word + b);
        text_laws::law_found_wherever_it_stands(a, word, b);
    }
}

/// After a success the action is that for a link that is down if and only if
/// the tool queries links and `DOWN` or `NO-CARRIER` stands anywhere in the
/// output; else nothing is amiss.
pub proof fn law_action_after_success(tool: &str, output: &str, action: &'static str)
    requires
        call_ensures(netdiag::suggested_action, (tool, true, output), action),
    ensures
        ({
            let queries_links = tool@ == "net.if_status"@ || tool@ == "net.link_detail"@;
            let down = holds(output@, "DOWN"@) || holds(output@, "NO-CARRIER"@);
            &&& queries_links && down ==> action@
                == "Link appears down; verify physical link, transceiver, and peer port state."@
            &&& !(queries_links && down) ==> action@
                == "No immediate fault signal from this command; continue with adjacent diagnostics."@
        }),
{
    lemma_holds(output@, "DOWN"@);
    lemma_holds(output@, "NO-CARRIER"@);
}

/// Whatever stands around it, `DOWN` and `NO-CARRIER` tell of a link that is
/// down.
pub proof fn law_link_down_wherever_it_stands(
    tool: &str,
    output: &str,
    action: &'static str,
    a: Seq<char>,
    b: Seq<char>,
)
    requires
        tool@ == "net.if_status"@ || tool@ == "net.link_detail"@,
        output@ == a + "DOWN"@ + b || output@ == a + "NO-CARRIER"@ + b,
        call_ensures(netdiag::suggested_action, (tool, true, output), action),
    ensures
        action@ == "Link appears down; verify physical link, transceiver, and peer port state."@,
{
    text_laws::law_found_wherever_it_stands(a, "DOWN"@, b);
    text_laws::law_found_wherever_it_stands(a, "NO-CARRIER"@, b);
}

/// The tools that have an action of their own after a failure.
pub open spec fn has_failure_action(tool: Seq<char>) -> bool {
    ||| tool == "net.ping"@
    ||| tool == "net.if_status"@
    ||| tool == "net.neighbors"@
    ||| tool == "net.routes"@
    ||| tool == "net.dns_status"@
    ||| tool == "net.resolv_conf"@
    ||| tool == "net.firewall"@
    ||| tool == "sys.service_status"@
    ||| tool == "sys.failed_units"@
    ||| tool == "sys.memory"@
    ||| tool == "sys.filesystems"@
}

/// After a failure the output plays no part in the action, and a tool without
/// an action of its own has the common one.
pub proof fn law_action_after_failure(
    tool: &str,
    output: &str,
    action: &'static str,
    other_output: &str,
    other_action: &'static str,
)
    requires
        call_ensures(netdiag::suggested_action, (tool, false, output), action),
        call_ensures(netdiag::suggested_action, (tool, false, other_output), other_action),
    ensures
        action@ == other_action@,
        !has_failure_action(tool@) ==> action@
            == "Inspect stderr and rerun with narrower scope."@,
        (tool@ == "net.ping"@)
            ==> action@ == "Verify VLAN, gateway route, and ACL/firewall path; run traceroute next."@,
        (tool@ == "net.if_status"@)
            ==> action@ == "Check cable/SFP, admin state, and interface counters for errors/drops."@,
        (tool@ == "net.neighbors"@)
            ==> action@ == "Verify ARP/ND reachability on the expected L2 segment and VLAN."@,
        (tool@ == "net.routes"@)
            ==> action@ == "Validate route presence, metric preference, and next-hop reachability."@,
        (tool@ == "net.dns_status"@ || tool@ == "net.resolv_conf"@)
            ==> action@ == "Verify resolver configuration, DNS server reachability, and split-DNS domains."@,
        (tool@ == "net.firewall"@)
            ==> action@ == "Inspect firewall tables for dropped forwarding or input traffic."@,
        (tool@ == "sys.service_status"@ || tool@ == "sys.failed_units"@)
            ==> action@ == "Inspect the failed unit logs and dependency chain."@,
        (tool@ == "sys.memory"@ || tool@ == "sys.filesystems"@)
            ==> action@ == "Check for resource pressure before deeper network diagnosis."@,
        has_failure_action(tool@) ==> action@
            != "No immediate fault signal from this command; continue with adjacent diagnostics."@,
{
    lemma_names_told_apart();
    reveal_strlit("Verify VLAN, gateway route, and ACL/firewall path; run traceroute next.");
    reveal_strlit("Check cable/SFP, admin state, and interface counters for errors/drops.");
    reveal_strlit("Verify ARP/ND reachability on the expected L2 segment and VLAN.");
    reveal_strlit("Validate route presence, metric preference, and next-hop reachability.");
    reveal_strlit(
        "Verify resolver configuration, DNS server reachability, and split-DNS domains.",
    );
    reveal_strlit("Inspect firewall tables for dropped forwarding or input traffic.");
    reveal_strlit("Inspect the failed unit logs and dependency chain.");
    reveal_strlit("Check for resource pressure before deeper network diagnosis.");
    reveal_strlit(
        "No immediate fault signal from this command; continue with adjacent diagnostics.",
    );
    assert("No immediate fault signal from this command; continue with adjacent diagnostics."@[0]
        == 'N');
    assert(action@[0] != 'N' || !has_failure_action(tool@));
}

// ---- the names ------------------------------------------------------------

// A number that tells the names of the tools apart.
spec fn name_mark(name: Seq<char>) -> int {
    16384 * name.len() + 128 * (name[0] as int) + name[4] as int
}

proof fn lemma_names_told_apart()
    ensures
        name_mark("net.if_status"@) == 227177,
        name_mark("net.link_detail"@) == 259948,
        name_mark("net.addr"@) == 145249,
        name_mark("net.mac_lookup"@) == 243565,
        name_mark("net.neighbors"@) == 227182,
        name_mark("net.routes"@) == 178034,
        name_mark("net.route_get"@) == 227186,
        name_mark("net.rules"@) == 161650,
        name_mark("net.ping"@) == 145264,
        name_mark("net.traceroute"@) == 243572,
        name_mark("net.sockets"@) == 194419,
        name_mark("net.dns_status"@) == 243556,
        name_mark("net.resolv_conf"@) == 259954,
        name_mark("net.ethtool"@) == 194405,
        name_mark("net.firewall"@) == 210790,
        name_mark("net.conntrack"@) == 227171,
        name_mark("net.tcpdump_sample"@) == 309108,
        name_mark("net.logs"@) == 145260,
        name_mark("sys.failed_units"@) == 276966,
        name_mark("sys.service_status"@) == 309747,
        name_mark("sys.dmesg"@) == 162276,
        name_mark("sys.uptime"@) == 178677,
        name_mark("sys.memory"@) == 178669,
        name_mark("sys.filesystems"@) == 260582,
{
    reveal_strlit("net.if_status");
    assert("net.if_status"@.len() == 13 && "net.if_status"@[0] == 'n' && "net.if_status"@[4] == 'i');
    reveal_strlit("net.link_detail");
    assert("net.link_detail"@.len() == 15 && "net.link_detail"@[0] == 'n' && "net.link_detail"@[4] == 'l');
    reveal_strlit("net.addr");
    assert("net.addr"@.len() == 8 && "net.addr"@[0] == 'n' && "net.addr"@[4] == 'a');
    reveal_strlit("net.mac_lookup");
    assert("net.mac_lookup"@.len() == 14 && "net.mac_lookup"@[0] == 'n' && "net.mac_lookup"@[4] == 'm');
    reveal_strlit("net.neighbors");
    assert("net.neighbors"@.len() == 13 && "net.neighbors"@[0] == 'n' && "net.neighbors"@[4] == 'n');
    reveal_strlit("net.routes");
    assert("net.routes"@.len() == 10 && "net.routes"@[0] == 'n' && "net.routes"@[4] == 'r');
    reveal_strlit("net.route_get");
    assert("net.route_get"@.len() == 13 && "net.route_get"@[0] == 'n' && "net.route_get"@[4] == 'r');
    reveal_strlit("net.rules");
    assert("net.rules"@.len() == 9 && "net.rules"@[0] == 'n' && "net.rules"@[4] == 'r');
    reveal_strlit("net.ping");
    assert("net.ping"@.len() == 8 && "net.ping"@[0] == 'n' && "net.ping"@[4] == 'p');
    reveal_strlit("net.traceroute");
    assert("net.traceroute"@.len() == 14 && "net.traceroute"@[0] == 'n' && "net.traceroute"@[4] == 't');
    reveal_strlit("net.sockets");
    assert("net.sockets"@.len() == 11 && "net.sockets"@[0] == 'n' && "net.sockets"@[4] == 's');
    reveal_strlit("net.dns_status");
    assert("net.dns_status"@.len() == 14 && "net.dns_status"@[0] == 'n' && "net.dns_status"@[4] == 'd');
    reveal_strlit("net.resolv_conf");
    assert("net.resolv_conf"@.len() == 15 && "net.resolv_conf"@[0] == 'n' && "net.resolv_conf"@[4] == 'r');
    reveal_strlit("net.ethtool");
    assert("net.ethtool"@.len() == 11 && "net.ethtool"@[0] == 'n' && "net.ethtool"@[4] == 'e');
    reveal_strlit("net.firewall");
    assert("net.firewall"@.len() == 12 && "net.firewall"@[0] == 'n' && "net.firewall"@[4] == 'f');
    reveal_strlit("net.conntrack");
    assert("net.conntrack"@.len() == 13 && "net.conntrack"@[0] == 'n' && "net.conntrack"@[4] == 'c');
    reveal_strlit("net.tcpdump_sample");
    assert("net.tcpdump_sample"@.len() == 18 && "net.tcpdump_sample"@[0] == 'n' && "net.tcpdump_sample"@[4] == 't');
    reveal_strlit("net.logs");
    assert("net.logs"@.len() == 8 && "net.logs"@[0] == 'n' && "net.logs"@[4] == 'l');
    reveal_strlit("sys.failed_units");
    assert("sys.failed_units"@.len() == 16 && "sys.failed_units"@[0] == 's' && "sys.failed_units"@[4] == 'f');
    reveal_strlit("sys.service_status");
    assert("sys.service_status"@.len() == 18 && "sys.service_status"@[0] == 's' && "sys.service_status"@[4] == 's');
    reveal_strlit("sys.dmesg");
    assert("sys.dmesg"@.len() == 9 && "sys.dmesg"@[0] == 's' && "sys.dmesg"@[4] == 'd');
    reveal_strlit("sys.uptime");
    assert("sys.uptime"@.len() == 10 && "sys.uptime"@[0] == 's' && "sys.uptime"@[4] == 'u');
    reveal_strlit("sys.memory");
    assert("sys.memory"@.len() == 10 && "sys.memory"@[0] == 's' && "sys.memory"@[4] == 'm');
    reveal_strlit("sys.filesystems");
    assert("sys.filesystems"@.len() == 15 && "sys.filesystems"@[0] == 's' && "sys.filesystems"@[4] == 'f');
}

// ---- the signal -----------------------------------------------------------

/// The tools that have a signal of their own after a failure.
pub open spec fn has_failure_signal(tool: Seq<char>) -> bool {
    ||| tool == "net.if_status"@
    ||| tool == "net.addr"@
    ||| tool == "net.link_detail"@
    ||| tool == "net.mac_lookup"@
    ||| tool == "net.neighbors"@
    ||| tool == "net.routes"@
    ||| tool == "net.route_get"@
    ||| tool == "net.rules"@
    ||| tool == "net.ping"@
    ||| tool == "net.traceroute"@
    ||| tool == "net.sockets"@
    ||| tool == "net.dns_status"@
    ||| tool == "net.resolv_conf"@
    ||| tool == "net.ethtool"@
    ||| tool == "net.firewall"@
    ||| tool == "net.conntrack"@
    ||| tool == "net.tcpdump_sample"@
    ||| tool == "net.logs"@
    ||| tool == "sys.failed_units"@
    ||| tool == "sys.service_status"@
    ||| tool == "sys.dmesg"@
    ||| tool == "sys.uptime"@
    ||| tool == "sys.memory"@
    ||| tool == "sys.filesystems"@
}

/// Every success has the same signal, and every failure of a tool without a
/// signal of its own; the signal of a failure of another tool says what failed.
pub proof fn law_signals(tool: &str, ok: bool, signal: &'static str)
    requires
        call_ensures(netdiag::signal_for, (tool, ok), signal),
    ensures
        ok ==> signal@ == "command_succeeded"@,
        !ok && !has_failure_signal(tool@) ==> signal@ == "diagnostic_command_failed"@,
        !ok && (tool@ == "net.if_status"@ || tool@ == "net.link_detail"@)
            ==> signal@ == "interface_or_link_issue"@,
        !ok && (tool@ == "net.addr"@) ==> signal@ == "address_state_issue"@,
        !ok && (tool@ == "net.mac_lookup"@) ==> signal@ == "mac_table_lookup_failed"@,
        !ok && (tool@ == "net.neighbors"@) ==> signal@ == "neighbor_resolution_issue"@,
        !ok && (tool@ == "net.routes"@) ==> signal@ == "routing_state_issue"@,
        !ok && (tool@ == "net.route_get"@) ==> signal@ == "route_resolution_failed"@,
        !ok && (tool@ == "net.rules"@) ==> signal@ == "policy_routing_issue"@,
        !ok && (tool@ == "net.ping"@) ==> signal@ == "connectivity_check_failed"@,
        !ok && (tool@ == "net.traceroute"@) ==> signal@ == "path_diagnosis_failed"@,
        !ok && (tool@ == "net.sockets"@) ==> signal@ == "socket_state_failed"@,
        !ok && (tool@ == "net.dns_status"@ || tool@ == "net.resolv_conf"@)
            ==> signal@ == "dns_state_failed"@,
        !ok && (tool@ == "net.ethtool"@) ==> signal@ == "interface_driver_query_failed"@,
        !ok && (tool@ == "net.firewall"@) ==> signal@ == "firewall_state_failed"@,
        !ok && (tool@ == "net.conntrack"@) ==> signal@ == "conntrack_query_failed"@,
        !ok && (tool@ == "net.tcpdump_sample"@) ==> signal@ == "packet_capture_failed"@,
        !ok && (tool@ == "net.logs"@) ==> signal@ == "log_extraction_failed"@,
        !ok && (tool@ == "sys.failed_units"@ || tool@ == "sys.service_status"@)
            ==> signal@ == "systemd_state_failed"@,
        !ok && (tool@ == "sys.dmesg"@) ==> signal@ == "kernel_log_failed"@,
        !ok && (tool@ == "sys.uptime"@ || tool@ == "sys.memory"@ || tool@ == "sys.filesystems"@)
            ==> signal@ == "resource_query_failed"@,
{
    lemma_names_told_apart();
}

// ---- the evidence ---------------------------------------------------------

/// Whether `evidence` is `output`, or, where that has more than `max` bytes of
/// UTF-8, the longest head of it that has not, and an ellipsis.
pub open spec fn is_head(evidence: Seq<char>, output: Seq<char>, max: nat) -> bool {
    if encode_utf8(output).len() <= max {
        evidence == output
    } else {
        exists|n: int|
            {
                &&& 0 <= n < output.len()
                &&& encode_utf8(#[trigger] output.take(n)).len() <= max
                &&& encode_utf8(output.take(n + 1)).len() > max
                &&& evidence == output.take(n) + "..."@
            }
    }
}

/// Text is cut between two characters, as late as the limit allows, and the
/// cut is marked.
pub proof fn law_truncate_text(text: &str, max: usize, s: String)
    requires
        call_ensures(netdiag::truncate_text, (text, max), s),
    ensures
        is_head(s@, text@, max as nat),
{
    laws::law_evidence_bounded(text@, max as nat);
}

// ---- the envelope ---------------------------------------------------------

/// The output that a raw result holds; empty where it holds none.
pub open spec fn output_in(raw: JsonView) -> Seq<char> {
    match raw.get("stdout"@) {
        Some(JsonView::Str(s)) => s,
        _ => Seq::empty(),
    }
}

/// The envelope names the tool, says `ok` if and only if the raw result does
/// so with `true`, quotes the head of its standard output, and hands it on
/// unchanged.
pub proof fn law_envelope_tells_the_result(tool: &str, raw: Json, out: Json)
    requires
        call_ensures(netdiag::normalize_tool_result, (tool, raw), out),
    ensures
        out@.str_at("tool"@) == Some(tool@),
        out@.get("raw"@) == Some(raw@),
        raw@.get("ok"@) == Some(JsonView::Bool(true)) ==> {
            &&& out@.str_at("status"@) == Some("ok"@)
            &&& out@.str_at("signal"@) == Some("command_succeeded"@)
        },
        raw@.get("ok"@) != Some(JsonView::Bool(true)) ==> out@.str_at("status"@) == Some("fail"@),
        out@.str_at("evidence"@) is Some,
        is_head(out@.str_at("evidence"@)->0, output_in(raw@), 500),
{
    laws::law_envelope_fields(tool@, raw@);
    laws::law_evidence_bounded(output_in(raw@), 500);
    assert(netdiag::raw_output(raw@) =~= output_in(raw@));
}

/// The signal and the action in the envelope are those of the tool, the status
/// and the whole output.
pub proof fn law_envelope_signal_and_action(
    tool: &str,
    raw: Json,
    out: Json,
    ok: bool,
    signal: &'static str,
    output: &str,
    action: &'static str,
)
    requires
        call_ensures(netdiag::normalize_tool_result, (tool, raw), out),
        ok == (raw@.get("ok"@) == Some(JsonView::Bool(true))),
        output@ == output_in(raw@),
        call_ensures(netdiag::signal_for, (tool, ok), signal),
        call_ensures(netdiag::suggested_action, (tool, ok, output), action),
    ensures
        out@.str_at("signal"@) == Some(signal@),
        out@.str_at("suggested_action"@) == Some(action@),
{
    laws::law_envelope_fields(tool@, raw@);
    assert(netdiag::raw_output(raw@) =~= output_in(raw@));
}

} // verus!
