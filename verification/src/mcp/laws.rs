//! What holds of the requests, the answers and the journal as a whole.

use vstd::prelude::*;

use crate::assoc;
use crate::config;
use crate::errors::NetdiagErrorView;
use crate::json::JsonView;
use crate::mcp;
use crate::mcp::ToolRequestView;
use crate::mcp::journal;
use crate::netdiag;
use crate::netdiag::commands;
use crate::netdiag::commands::{InvocationView, ProcessOutcome, RunnerView};
use crate::netdiag::laws;
use crate::netdiag::validators;
use crate::text;

verus! {

// ---- requests -------------------------------------------------------------

/// The words that the tools put between the caller's arguments.
pub open spec fn is_fixed_word(arg: Seq<char>) -> bool {
    ||| arg == "dev"@
    ||| arg == "to"@
    ||| arg == "-c"@
    ||| arg == "-W"@
    ||| arg == "-m"@
    ||| arg == "-i"@
    ||| arg == "-n"@
    ||| arg == "-u"@
    ||| arg == "--lines"@
}

/// Whether `arg` is a number in decimal.
pub open spec fn is_number(arg: Seq<char>) -> bool {
    exists|n: nat| arg == #[trigger] text::decimal(n)
}

/// Whether a request, if there is one, appends nothing to the pinned
/// arguments but fixed words, numbers and clean tokens.
pub open spec fn appends_no_flag(r: Result<ToolRequestView, NetdiagErrorView>) -> bool {
    r is Ok ==> forall|i: int|
        0 <= i < r->Ok_0.extra.len() ==> {
            let arg = #[trigger] r->Ok_0.extra[i];
            is_fixed_word(arg) || is_number(arg) || validators::is_clean(arg)
        }
}

/// No caller can slip an option into a command: whatever the parameters, the
/// arguments of every request are fixed words, numbers and clean tokens.
pub proof fn law_no_flag_injection(
    tool: Seq<char>,
    key: Seq<char>,
    token: Seq<char>,
    optional: Option<Seq<char>>,
    a: Option<u64>,
    b: Option<u64>,
)
    ensures
        appends_no_flag(mcp::fixed_request(tool, key)),
        appends_no_flag(mcp::interface_request(tool, key, optional)),
        appends_no_flag(mcp::mac_request(token)),
        appends_no_flag(mcp::route_get_request(token)),
        appends_no_flag(mcp::ethtool_request(token)),
        appends_no_flag(mcp::ping_request(token, a, b)),
        appends_no_flag(mcp::traceroute_request(token, a)),
        appends_no_flag(mcp::tcpdump_request(token, a)),
        appends_no_flag(mcp::logs_request(a, optional)),
        appends_no_flag(mcp::service_status_request(token, a)),
{
    validators::law_accepted_tokens_clean(token);
    match optional {
        Some(name) => {
            validators::law_accepted_tokens_clean(name);
        },
        None => {},
    }
}

/// Integers reach a command only inside their ranges: the number of echo
/// requests in 1 to 10 and the wait in 1 to 5, the hops in 1 to 30, the
/// packets in 1 to 50, the lines in 1 to 200.
pub proof fn law_integers_in_range(
    token: Seq<char>,
    optional: Option<Seq<char>>,
    a: Option<u64>,
    b: Option<u64>,
)
    ensures
        mcp::ping_request(token, a, b) is Ok ==> (a is None || 1 <= a->0 <= 10) && (b is None
            || 1 <= b->0 <= 5),
        mcp::traceroute_request(token, a) is Ok ==> (a is None || 1 <= a->0 <= 30),
        mcp::tcpdump_request(token, a) is Ok ==> (a is None || 1 <= a->0 <= 50),
        mcp::logs_request(a, optional) is Ok ==> (a is None || 1 <= a->0 <= 200),
        mcp::service_status_request(token, a) is Ok ==> (a is None || 1 <= a->0 <= 200),
{
}

/// Whether a request is refused, if it is, under the code of an invalid
/// parameter.
pub open spec fn refused_as_invalid(r: Result<ToolRequestView, NetdiagErrorView>) -> bool {
    r is Err ==> r->Err_0.code() == -32010
}

/// A request is refused for its parameters alone, under code -32010.
pub proof fn law_refused_requests_are_invalid(
    tool: Seq<char>,
    key: Seq<char>,
    token: Seq<char>,
    optional: Option<Seq<char>>,
    a: Option<u64>,
    b: Option<u64>,
)
    ensures
        refused_as_invalid(mcp::fixed_request(tool, key)),
        refused_as_invalid(mcp::interface_request(tool, key, optional)),
        refused_as_invalid(mcp::mac_request(token)),
        refused_as_invalid(mcp::route_get_request(token)),
        refused_as_invalid(mcp::ethtool_request(token)),
        refused_as_invalid(mcp::ping_request(token, a, b)),
        refused_as_invalid(mcp::traceroute_request(token, a)),
        refused_as_invalid(mcp::tcpdump_request(token, a)),
        refused_as_invalid(mcp::logs_request(a, optional)),
        refused_as_invalid(mcp::service_status_request(token, a)),
{
}

// ---- what each tool runs --------------------------------------------------

/// Whether a request, if there is one, comes to running `program` with exactly
/// `args`, under the time limit, where the gates let it pass.
pub open spec fn runs(
    r: Result<ToolRequestView, NetdiagErrorView>,
    program: Seq<char>,
    args: Seq<Seq<char>>,
) -> bool {
    r is Ok ==> match assoc::lookup(
        commands::builtin_table(),
        r->Ok_0.key,
    ) {
        Some(op) => commands::invocation_of(op, r->Ok_0.extra) == Ok::<
            _,
            NetdiagErrorView,
        >(
            InvocationView::Spawn {
                program,
                args,
                timeout: commands::time_limit(),
            },
        ),
        None => false,
    }
}

/// The command lines of the tools without parameters.
pub proof fn law_fixed_command_lines()
    ensures
        runs(
            mcp::fixed_request("net.routes"@, "routes"@),
            "ip"@,
            seq!["-j"@, "route"@, "show"@, "table"@, "all"@],
        ),
        runs(
            mcp::fixed_request("net.rules"@, "rules"@),
            "ip"@,
            seq!["-j"@, "rule"@, "show"@],
        ),
        runs(
            mcp::fixed_request("net.sockets"@, "sockets"@),
            "ss"@,
            seq!["-H"@, "-tuna"@],
        ),
        runs(
            mcp::fixed_request("net.dns_status"@, "dns_status"@),
            "resolvectl"@,
            seq!["status"@],
        ),
        runs(
            mcp::fixed_request("net.firewall"@, "firewall"@),
            "nft"@,
            seq!["list"@, "ruleset"@],
        ),
        runs(
            mcp::fixed_request("net.conntrack"@, "conntrack"@),
            "conntrack"@,
            seq!["-L"@],
        ),
        runs(
            mcp::fixed_request("sys.failed_units"@, "failed_units"@),
            "systemctl"@,
            seq!["--failed"@, "--no-pager"@, "--plain"@],
        ),
        runs(
            mcp::fixed_request("sys.dmesg"@, "dmesg"@),
            "dmesg"@,
            seq!["-T"@],
        ),
        runs(
            mcp::fixed_request("sys.uptime"@, "uptime"@),
            "uptime"@,
            Seq::empty(),
        ),
        runs(
            mcp::fixed_request("sys.memory"@, "memory"@),
            "free"@,
            seq!["-h"@],
        ),
        runs(
            mcp::fixed_request("sys.filesystems"@, "filesystems"@),
            "df"@,
            seq!["-h"@],
        ),
{
    laws::law_builtin_entry_found(3);
    laws::law_builtin_entry_found(7);
    laws::law_builtin_entry_found(10);
    laws::law_builtin_entry_found(11);
    laws::law_builtin_entry_found(14);
    laws::law_builtin_entry_found(15);
    laws::law_builtin_entry_found(18);
    laws::law_builtin_entry_found(20);
    laws::law_builtin_entry_found(21);
    laws::law_builtin_entry_found(22);
    laws::law_builtin_entry_found(23);
    assert forall|args: Seq<Seq<char>>| #[trigger] (args + Seq::<Seq<char>>::empty()) == args by {
        assert(args + Seq::<Seq<char>>::empty() =~= args);
    }
}

/// The command lines of the tools that can be restricted to an interface: the
/// restriction stands at the end, as `dev <interface>`.
pub proof fn law_interface_command_lines(interface: Option<Seq<char>>)
    ensures
        runs(
            mcp::interface_request("net.if_status"@, "if_status"@, interface),
            "ip"@,
            seq!["-j"@, "-s"@, "link"@, "show"@] + mcp::interface_extra(interface),
        ),
        runs(
            mcp::interface_request("net.addr"@, "addr"@, interface),
            "ip"@,
            seq!["-j"@, "addr"@, "show"@] + mcp::interface_extra(interface),
        ),
        runs(
            mcp::interface_request("net.link_detail"@, "link_detail"@, interface),
            "ip"@,
            seq!["-j"@, "-d"@, "link"@, "show"@] + mcp::interface_extra(interface),
        ),
        runs(
            mcp::interface_request("net.neighbors"@, "neighbors"@, interface),
            "ip"@,
            seq!["-j"@, "neigh"@, "show"@] + mcp::interface_extra(interface),
        ),
{
    laws::law_builtin_entry_found(0);
    laws::law_builtin_entry_found(4);
    laws::law_builtin_entry_found(5);
    laws::law_builtin_entry_found(2);
}

/// The command lines of the tools with a token: the fixed words, the integers
/// or their defaults, and the token, each in its place.
pub proof fn law_parameterised_command_lines(token: Seq<char>, a: Option<u64>, b: Option<u64>)
    ensures
        runs(
            mcp::mac_request(token),
            "bridge"@,
            seq!["-j"@, "fdb"@, "show"@, "to"@, token],
        ),
        runs(
            mcp::route_get_request(token),
            "ip"@,
            seq!["-j"@, "route"@, "get"@, token],
        ),
        runs(
            mcp::ethtool_request(token),
            "ethtool"@,
            seq![token],
        ),
        runs(
            mcp::ping_request(token, a, b),
            "ping"@,
            seq!["-n"@, "-c"@, mcp::number(a, 3), "-W"@, mcp::number(b, 2), token],
        ),
        runs(
            mcp::traceroute_request(token, a),
            "traceroute"@,
            seq!["-n"@, "-m"@, mcp::number(a, 12), token],
        ),
        runs(
            mcp::tcpdump_request(token, a),
            "tcpdump"@,
            seq!["-nn"@, "-i"@, token, "-c"@, mcp::number(a, 10)],
        ),
        runs(
            mcp::service_status_request(token, a),
            "systemctl"@,
            seq!["status"@, "--no-pager"@, "--lines"@, mcp::number(a, 50), token],
        ),
{
    laws::law_builtin_entry_found(1);
    laws::law_builtin_entry_found(6);
    laws::law_builtin_entry_found(13);
    laws::law_builtin_entry_found(8);
    laws::law_builtin_entry_found(9);
    laws::law_builtin_entry_found(16);
    laws::law_builtin_entry_found(19);
    assert(seq!["-j"@, "fdb"@, "show"@] + seq!["to"@, token]
        =~= seq!["-j"@, "fdb"@, "show"@, "to"@, token]);
    assert(seq!["-j"@, "route"@, "get"@] + seq![token] =~= seq!["-j"@, "route"@, "get"@, token]);
    assert(Seq::<Seq<char>>::empty() + seq![token] =~= seq![token]);
    assert(seq!["-n"@] + seq!["-c"@, mcp::number(a, 3), "-W"@, mcp::number(b, 2), token]
        =~= seq!["-n"@, "-c"@, mcp::number(a, 3), "-W"@, mcp::number(b, 2), token]);
    assert(seq!["-n"@] + seq!["-m"@, mcp::number(a, 12), token]
        =~= seq!["-n"@, "-m"@, mcp::number(a, 12), token]);
    assert(seq!["-nn"@] + seq!["-i"@, token, "-c"@, mcp::number(a, 10)]
        =~= seq!["-nn"@, "-i"@, token, "-c"@, mcp::number(a, 10)]);
    assert(seq!["status"@, "--no-pager"@] + seq!["--lines"@, mcp::number(a, 50), token]
        =~= seq!["status"@, "--no-pager"@, "--lines"@, mcp::number(a, 50), token]);
}

/// The command line of `net.logs`, with and without a unit.
pub proof fn law_logs_command_line(lines: Option<u64>, unit: Seq<char>)
    ensures
        runs(
            mcp::logs_request(lines, None),
            "journalctl"@,
            seq!["--no-pager"@, "--output=short-iso"@, "-n"@, mcp::number(lines, 50)],
        ),
        runs(
            mcp::logs_request(lines, Some(unit)),
            "journalctl"@,
            seq![
                "--no-pager"@,
                "--output=short-iso"@,
                "-n"@,
                mcp::number(lines, 50),
                "-u"@,
                unit,
            ],
        ),
{
    laws::law_builtin_entry_found(17);
    assert(seq!["--no-pager"@, "--output=short-iso"@] + seq!["-n"@, mcp::number(lines, 50)]
        =~= seq!["--no-pager"@, "--output=short-iso"@, "-n"@, mcp::number(lines, 50)]);
    assert(seq!["--no-pager"@, "--output=short-iso"@] + seq!["-n"@, mcp::number(lines, 50), "-u"@, unit]
        =~= seq![
            "--no-pager"@,
            "--output=short-iso"@,
            "-n"@,
            mcp::number(lines, 50),
            "-u"@,
            unit,
        ]);
}

/// `net.resolv_conf` starts no program: it comes to reading
/// `/etc/resolv.conf`, under the time limit.
pub proof fn law_resolv_conf_is_read()
    ensures
        commands::invocation_of(
            assoc::lookup(
                commands::builtin_table(),
                "resolv_conf"@,
            )->0,
            mcp::fixed_request("net.resolv_conf"@, "resolv_conf"@)->Ok_0.extra,
        ) == Ok::<_, NetdiagErrorView>(
            InvocationView::Read {
                path: "/etc/resolv.conf"@,
                timeout: commands::time_limit(),
            },
        ),
{
    laws::law_builtin_entry_found(12);
}

// ---- answers --------------------------------------------------------------

/// A command that ran to its end is answered with an envelope, never with an
/// error; its status tells whether the exit status was that of success.
pub proof fn law_ran_command_is_answered(tool: Seq<char>, outcome: ProcessOutcome)
    requires
        outcome is Exited,
    ensures
        match mcp::completion(
            tool,
            commands::process_result(outcome),
        ) {
            Ok(Some(envelope)) => envelope.str_at("status"@) == Some(
                if outcome->success {
                    "ok"@
                } else {
                    "fail"@
                },
            ),
            _ => false,
        },
{
    let raw = commands::process_result(outcome);
    laws::law_exit_status_is_no_error(outcome);
    laws::law_envelope_fields(tool, raw->Ok_0);
}

/// A command that the gates refuse is answered under code -32011.
pub proof fn law_refused_command_is_answered(
    tool: Seq<char>,
    runner: RunnerView,
    key: Seq<char>,
    extra: Seq<Seq<char>>,
)
    requires
        assoc::lookup(runner.table, key) is None
            || !commands::passes_gate(key, runner.privileged),
    ensures
        runner.decision(key, extra) is Err,
        match mcp::completion(
            tool,
            Err::<JsonView, _>(runner.decision(key, extra)->Err_0),
        ) {
            Ok(_) => false,
            Err(e) => e.code == -32011,
        },
{
}

// ---- the journal ----------------------------------------------------------

/// The `result` row of a call that ended in an error carries its pinned code
/// and its message.
pub proof fn law_journal_keeps_error(tool: Seq<char>, error: NetdiagErrorView)
    ensures
        ({
            let summary = journal::result_summary_view(
                mcp::completion(tool, Err(error)),
            );
            &&& summary.bool_at("ok"@) == Some(false)
            &&& summary.get("error_code"@) == Some(JsonView::Int(error.code()))
            &&& summary.str_at("error_message"@) == Some(error.message())
        }),
{
    broadcast use crate::json::lemma_get_with;

    reveal_strlit("ok");
    reveal_strlit("error_code");
    reveal_strlit("error_message");
    assert("ok"@.len() == 2 && "error_code"@.len() == 10 && "error_message"@.len() == 13);
}

/// The `result` row of a call that was answered with an envelope carries the
/// status and the signal of the envelope and the head of its evidence, at most
/// [`config::JOURNAL_HEAD_CHARS`] characters long.
pub proof fn law_journal_keeps_status(tool: Seq<char>, raw: JsonView)
    ensures
        ({
            let envelope = netdiag::envelope(tool, raw);
            let summary = journal::result_summary_view(
                mcp::completion(tool, Ok(raw)),
            );
            &&& summary.bool_at("ok"@) == Some(true)
            &&& summary.str_at("status"@) == envelope.str_at("status"@)
            &&& summary.str_at("signal"@) == envelope.str_at("signal"@)
            &&& summary.str_at("evidence_head"@) is Some
            &&& summary.str_at("evidence_head"@)->0.len() <= config::JOURNAL_HEAD_CHARS
            &&& summary.str_at("evidence_head"@)->0.is_prefix_of(
                envelope.str_at("evidence"@)->0,
            )
        }),
{
    laws::law_envelope_fields(tool, raw);
    assert({
        let envelope = netdiag::envelope(tool, raw);
        let summary = journal::result_summary_view(
            mcp::completion(tool, Ok(raw)),
        );
        &&& summary.bool_at("ok"@) == Some(true)
        &&& summary.get("status"@) == envelope.get("status"@)
        &&& summary.get("signal"@) == envelope.get("signal"@)
        &&& summary.str_at("evidence_head"@) == Some(
            journal::evidence_head_view(Some(envelope)),
        )
    }) by {
        broadcast use crate::json::lemma_get_with;

        reveal_strlit("ok");
        reveal_strlit("status");
        reveal_strlit("signal");
        reveal_strlit("evidence_head");
        assert("ok"@.len() == 2 && "status"@.len() == 6 && "evidence_head"@.len() == 13);
        assert("status"@[1] == 't' && "signal"@[1] == 'i' && "signal"@.len() == 6);
    }
}

} // verus!
