//! What the compact tool service answers, from the parameters of a request to
//! the command line and from the outcome of a command to the reply.

use vstd::prelude::*;

use crate::commands as compact;
use crate::errors::{NetdiagError, NetdiagErrorView};
use crate::json::{Json, JsonView};
use crate::mcp::tool_laws;
use crate::netdiag::commands::{Invocation, ProcessOutcome};
use crate::netdiag::envelope_laws;
use crate::netdiag::laws;
use crate::netdiag::runner_laws;
use crate::netdiag::validator_laws;
use crate::protocol;
use crate::text;
use crate::tools;
use crate::tools::{PendingCall, Step, ToolService};

verus! {

// ---- tool calls -----------------------------------------------------------

/// The arguments of a call; none where the parameters hold none.
pub open spec fn arguments_in(params: JsonView) -> JsonView {
    if params.get("arguments"@) is Some {
        params.get("arguments"@)->0
    } else {
        JsonView::Object(Seq::empty())
    }
}

/// Whether every key of the object `args` is one of `known`.
pub open spec fn knows_all(args: JsonView, known: Seq<Seq<char>>) -> bool {
    forall|i: int|
        0 <= i < args->Object_0.len() ==> known.contains(#[trigger] args->Object_0[i].0)
}

/// Whether a call of `tool` comes to running `program` with exactly `args`,
/// under the time limit.
pub open spec fn comes_to(
    r: Result<Step, protocol::Error>,
    tool: Seq<char>,
    program: Seq<char>,
    args: Seq<Seq<char>>,
) -> bool {
    match r {
        Ok(Step::Run(call)) => {
            &&& call.tool@ == tool
            &&& match call.invocation {
                Invocation::Spawn { program: started, args: words, timeout } => {
                    &&& started@ == program
                    &&& words.deep_view() == args
                    &&& timeout == crate::clock::duration_from_secs(5)
                },
                _ => false,
            }
        },
        _ => false,
    }
}

/// Whether a call is refused under `code`.
pub open spec fn refused_with(r: Result<Step, protocol::Error>, code: int) -> bool {
    r is Err && r->Err_0.code == code
}

/// Whether a call is refused for the argument `name`.
pub open spec fn refused_for(r: Result<Step, protocol::Error>, name: Seq<char>) -> bool {
    &&& refused_with(r, -32010)
    &&& r->Err_0.data is Some
    &&& r->Err_0.data->0@.str_at("name"@) == Some(name)
}

/// Whether a call is refused for want of the argument `name`.
pub open spec fn misses(r: Result<Step, protocol::Error>, name: Seq<char>) -> bool {
    &&& refused_with(r, -32602)
    &&& r->Err_0.message@ == "missing argument '"@ + name + "'"@
    &&& r->Err_0.data is None
}

/// Whether `name` is the first key of `args` that is none of `known`.
pub open spec fn is_first_unknown(args: JsonView, known: Seq<Seq<char>>, name: Seq<char>) -> bool {
    exists|i: int|
        {
            &&& 0 <= i < args->Object_0.len()
            &&& (#[trigger] args->Object_0[i]).0 == name
            &&& !known.contains(name)
            &&& forall|j: int| 0 <= j < i ==> known.contains(#[trigger] args->Object_0[j].0)
        }
}

/// Whether a call is refused for the first argument that is none of `known`.
pub open spec fn refused_as_unknown(
    r: Result<Step, protocol::Error>,
    args: JsonView,
    known: Seq<Seq<char>>,
) -> bool {
    &&& refused_with(r, -32010)
    &&& r->Err_0.data is Some
    &&& r->Err_0.data->0@.str_at("name"@) is Some
    &&& is_first_unknown(args, known, r->Err_0.data->0@.str_at("name"@)->0)
    &&& r->Err_0.data->0@.str_at("reason"@) == Some("unknown argument"@)
}

/// Whether `value` passes as a token.
pub open spec fn passes(value: Seq<char>) -> bool {
    validator_laws::is_word(value, Seq::empty())
}

proof fn lemma_names()
    ensures
        "net.if_status"@ != "net.mac_lookup"@,
        "net.if_status"@ != "net.neighbors"@,
        "net.if_status"@ != "net.routes"@,
        "net.if_status"@ != "net.ping"@,
        "net.if_status"@ != "net.traceroute"@,
        "net.if_status"@ != "net.logs"@,
        "net.mac_lookup"@ != "net.neighbors"@,
        "net.mac_lookup"@ != "net.routes"@,
        "net.mac_lookup"@ != "net.ping"@,
        "net.mac_lookup"@ != "net.traceroute"@,
        "net.mac_lookup"@ != "net.logs"@,
        "net.neighbors"@ != "net.routes"@,
        "net.neighbors"@ != "net.ping"@,
        "net.neighbors"@ != "net.traceroute"@,
        "net.neighbors"@ != "net.logs"@,
        "net.routes"@ != "net.ping"@,
        "net.routes"@ != "net.traceroute"@,
        "net.routes"@ != "net.logs"@,
        "net.ping"@ != "net.traceroute"@,
        "net.ping"@ != "net.logs"@,
        "net.traceroute"@ != "net.logs"@,
{
    reveal_strlit("net.if_status");
    assert("net.if_status"@.len() == 13 && "net.if_status"@[4] == 'i');
    reveal_strlit("net.mac_lookup");
    assert("net.mac_lookup"@.len() == 14 && "net.mac_lookup"@[4] == 'm');
    reveal_strlit("net.neighbors");
    assert("net.neighbors"@.len() == 13 && "net.neighbors"@[4] == 'n');
    reveal_strlit("net.routes");
    assert("net.routes"@.len() == 10 && "net.routes"@[4] == 'r');
    reveal_strlit("net.ping");
    assert("net.ping"@.len() == 8 && "net.ping"@[4] == 'p');
    reveal_strlit("net.traceroute");
    assert("net.traceroute"@.len() == 14 && "net.traceroute"@[4] == 't');
    reveal_strlit("net.logs");
    assert("net.logs"@.len() == 8 && "net.logs"@[4] == 'l');
}

proof fn lemma_table()
    ensures
        crate::assoc::lookup(compact::command_table(), "if_status"@) == Some(
            crate::netdiag::commands::process_view("ip"@, seq!["-j"@, "-s"@, "link"@, "show"@]),
        ),
        crate::assoc::lookup(compact::command_table(), "mac_table"@) == Some(
            crate::netdiag::commands::process_view("bridge"@, seq!["-j"@, "fdb"@, "show"@]),
        ),
        crate::assoc::lookup(compact::command_table(), "neighbors"@) == Some(
            crate::netdiag::commands::process_view("ip"@, seq!["-j"@, "neigh"@, "show"@]),
        ),
        crate::assoc::lookup(compact::command_table(), "routes"@) == Some(
            crate::netdiag::commands::process_view("ip"@, seq!["-j"@, "route"@, "show"@, "table"@, "all"@]),
        ),
        crate::assoc::lookup(compact::command_table(), "ping"@) == Some(
            crate::netdiag::commands::process_view("ping"@, seq!["-n"@]),
        ),
        crate::assoc::lookup(compact::command_table(), "traceroute"@) == Some(
            crate::netdiag::commands::process_view("traceroute"@, seq!["-n"@]),
        ),
        crate::assoc::lookup(compact::command_table(), "logs"@) == Some(
            crate::netdiag::commands::process_view("journalctl"@, seq!["--no-pager"@, "--output=short-iso"@]),
        ),
{
    tools::law_commands_are_built_in(0);
    tools::law_commands_are_built_in(1);
    tools::law_commands_are_built_in(2);
    tools::law_commands_are_built_in(3);
    tools::law_commands_are_built_in(4);
    tools::law_commands_are_built_in(5);
    tools::law_commands_are_built_in(6);
}

proof fn lemma_known(args: JsonView, known: Seq<Seq<char>>)
    requires
        args is Object,
    ensures
        tools::unknown_error(args, known) is None <==> knows_all(args, known),
        tools::unknown_error(args, known) is Some ==> {
            let error = tools::unknown_error(args, known)->0;
            &&& error is InvalidParam
            &&& is_first_unknown(args, known, error->name)
            &&& error->reason == "unknown argument"@
            &&& error.wire().code == -32010
            &&& error.wire().data is Some
            &&& error.wire().data->0.str_at("name"@) == Some(error->name)
            &&& error.wire().data->0.str_at("reason"@) == Some(error->reason)
        },
{
    tools::law_unknown_arguments_refused(args->Object_0, known);
    if tools::unknown_error(args, known) is Some {
        let error = tools::unknown_error(args, known)->0;
        lemma_first_unknown(args->Object_0, known);
        lemma_invalid(error->name, error->reason);
    }
}

proof fn lemma_first_unknown(entries: Seq<(Seq<char>, JsonView)>, known: Seq<Seq<char>>)
    requires
        tools::first_unknown(entries, known) is Some,
    ensures
        is_first_unknown(
            JsonView::Object(entries),
            known,
            tools::first_unknown(entries, known)->0,
        ),
    decreases entries.len(),
{
    let name = tools::first_unknown(entries, known)->0;
    let outer = JsonView::Object(entries);
    if known.contains(entries[0].0) {
        let rest = entries.drop_first();
        lemma_first_unknown(rest, known);
        let inner = JsonView::Object(rest);
        let i = choose|i: int|
            {
                &&& 0 <= i < inner->Object_0.len()
                &&& (#[trigger] inner->Object_0[i]).0 == name
                &&& !known.contains(name)
                &&& forall|j: int| 0 <= j < i ==> known.contains(#[trigger] inner->Object_0[j].0)
            };
        assert(outer->Object_0[i + 1] == rest[i]);
        assert forall|j: int| 0 <= j < i + 1 implies known.contains(
            #[trigger] outer->Object_0[j].0,
        ) by {
            if j > 0 {
                assert(outer->Object_0[j] == inner->Object_0[j - 1]);
            }
        }
    } else {
        assert(outer->Object_0[0].0 == name);
    }
}

proof fn lemma_invalid(name: Seq<char>, reason: Seq<char>)
    ensures
        ({
            let wire = NetdiagErrorView::InvalidParam { name, reason }.wire();
            &&& wire.code == -32010
            &&& wire.data is Some
            &&& wire.data->0.str_at("name"@) == Some(name)
            &&& wire.data->0.str_at("reason"@) == Some(reason)
        }),
{
    broadcast use crate::json::lemma_get_with;

    reveal_strlit("name");
    reveal_strlit("reason");
    assert("name"@[0] == 'n' && "reason"@[0] == 'r');
}

proof fn lemma_token_wire(name: Seq<char>, value: Seq<char>)
    ensures
        crate::commands::token_error(name, value) is None <==> passes(value),
        crate::commands::token_error(name, value) is Some ==> {
            let wire = crate::commands::token_error(name, value)->0.wire();
            &&& wire.code == -32010
            &&& wire.data is Some
            &&& wire.data->0.str_at("name"@) == Some(name)
        },
{
    validator_laws::lemma_compact_token(name, value);
    if crate::commands::token_error(name, value) is Some {
        lemma_invalid(name, crate::commands::token_error(name, value)->0->reason);
    }
}

proof fn lemma_range_wire(value: Option<u64>, name: Seq<char>, min: u64, max: u64)
    ensures
        crate::mcp::range_error(value, name, min, max) is None <==> tool_laws::within(
            value,
            min,
            max,
        ),
        crate::mcp::range_error(value, name, min, max) is Some ==> {
            let wire = crate::mcp::range_error(value, name, min, max)->0.wire();
            &&& wire.code == -32010
            &&& wire.data is Some
            &&& wire.data->0.str_at("name"@) == Some(name)
        },
{
    if crate::mcp::range_error(value, name, min, max) is Some {
        lemma_invalid(name, crate::mcp::range_error(value, name, min, max)->0->reason);
    }
}

proof fn lemma_same_arguments(params: JsonView)
    ensures
        tools::call_arguments(params) == arguments_in(params),
{
}

/// `net.if_status`: all interfaces, or the one that is named.
pub proof fn law_compact_if_status(service: &ToolService, params: &Json, r: Result<Step, protocol::Error>)
    requires
        call_ensures(ToolService::handle_tools_call, (service, params), r),
        params@.str_at("name"@) == Some("net.if_status"@),
        arguments_in(params@) is Object,
    ensures
        ({
            let args = arguments_in(params@);
            let known = knows_all(args, seq!["interface"@]);
            let interface = args.str_at("interface"@);
            &&& !known ==> refused_as_unknown(r, args, seq!["interface"@])
            &&& known && interface is None ==> comes_to(
                r,
                "net.if_status"@,
                "ip"@,
                seq!["-j"@, "-s"@, "link"@, "show"@],
            )
            &&& known && interface is Some && passes(interface->0) ==> comes_to(
                r,
                "net.if_status"@,
                "ip"@,
                seq!["-j"@, "-s"@, "link"@, "show"@, "dev"@, interface->0],
            )
            &&& known && interface is Some && !passes(interface->0) ==> refused_for(r, "interface"@)
        }),
{
    lemma_names();
    lemma_table();
    lemma_same_arguments(params@);
    let args = arguments_in(params@);
    if r is Err {
        assert(r->Err_0@.code == r->Err_0.code && r->Err_0@.message == r->Err_0.message@);
        assert(r->Err_0@.data is Some <==> r->Err_0.data is Some);
    }
    lemma_known(args, seq!["interface"@]);
    if args.str_at("interface"@) is Some {
        let name = args.str_at("interface"@)->0;
        lemma_token_wire("interface"@, name);
        assert(seq!["-j"@, "-s"@, "link"@, "show"@] + seq!["dev"@, name] =~= seq!["-j"@, "-s"@, "link"@, "show"@, "dev"@, name]);
    } else {
        assert(seq!["-j"@, "-s"@, "link"@, "show"@] + Seq::<Seq<char>>::empty() =~= seq!["-j"@, "-s"@, "link"@, "show"@]);
    }
}

/// `net.mac_lookup`: the address behind `to`.
pub proof fn law_compact_mac_lookup(service: &ToolService, params: &Json, r: Result<Step, protocol::Error>)
    requires
        call_ensures(ToolService::handle_tools_call, (service, params), r),
        params@.str_at("name"@) == Some("net.mac_lookup"@),
        arguments_in(params@) is Object,
    ensures
        ({
            let args = arguments_in(params@);
            let known = knows_all(args, seq!["mac"@]);
            let mac = args.str_at("mac"@);
            &&& !known ==> refused_as_unknown(r, args, seq!["mac"@])
            &&& known && mac is None ==> misses(r, "mac"@)
            &&& known && mac is Some && mac->0.len() == 17 && validator_laws::is_colon_grid(mac->0)
                ==> comes_to(
                r,
                "net.mac_lookup"@,
                "bridge"@,
                seq!["-j"@, "fdb"@, "show"@, "to"@, mac->0],
            )
            &&& known && mac is Some && !(mac->0.len() == 17 && validator_laws::is_colon_grid(mac->0))
                ==> refused_for(r, "mac"@)
        }),
{
    lemma_names();
    lemma_table();
    lemma_same_arguments(params@);
    let args = arguments_in(params@);
    if r is Err {
        assert(r->Err_0@.code == r->Err_0.code && r->Err_0@.message == r->Err_0.message@);
        assert(r->Err_0@.data is Some <==> r->Err_0.data is Some);
    }
    lemma_known(args, seq!["mac"@]);
    lemma_invalid("mac"@, "must be in aa:bb:cc:dd:ee:ff form"@);
    if args.str_at("mac"@) is Some {
        let mac = args.str_at("mac"@)->0;
        validator_laws::lemma_mac(mac);
        assert(seq!["-j"@, "fdb"@, "show"@] + seq!["to"@, mac] =~= seq![
            "-j"@,
            "fdb"@,
            "show"@,
            "to"@,
            mac,
        ]);
    }
}

/// `net.neighbors`: all interfaces, or the one that is named.
pub proof fn law_compact_neighbors(service: &ToolService, params: &Json, r: Result<Step, protocol::Error>)
    requires
        call_ensures(ToolService::handle_tools_call, (service, params), r),
        params@.str_at("name"@) == Some("net.neighbors"@),
        arguments_in(params@) is Object,
    ensures
        ({
            let args = arguments_in(params@);
            let known = knows_all(args, seq!["interface"@]);
            let interface = args.str_at("interface"@);
            &&& !known ==> refused_as_unknown(r, args, seq!["interface"@])
            &&& known && interface is None ==> comes_to(
                r,
                "net.neighbors"@,
                "ip"@,
                seq!["-j"@, "neigh"@, "show"@],
            )
            &&& known && interface is Some && passes(interface->0) ==> comes_to(
                r,
                "net.neighbors"@,
                "ip"@,
                seq!["-j"@, "neigh"@, "show"@, "dev"@, interface->0],
            )
            &&& known && interface is Some && !passes(interface->0) ==> refused_for(r, "interface"@)
        }),
{
    lemma_names();
    lemma_table();
    lemma_same_arguments(params@);
    let args = arguments_in(params@);
    if r is Err {
        assert(r->Err_0@.code == r->Err_0.code && r->Err_0@.message == r->Err_0.message@);
        assert(r->Err_0@.data is Some <==> r->Err_0.data is Some);
    }
    lemma_known(args, seq!["interface"@]);
    if args.str_at("interface"@) is Some {
        let name = args.str_at("interface"@)->0;
        lemma_token_wire("interface"@, name);
        assert(seq!["-j"@, "neigh"@, "show"@] + seq!["dev"@, name] =~= seq!["-j"@, "neigh"@, "show"@, "dev"@, name]);
    } else {
        assert(seq!["-j"@, "neigh"@, "show"@] + Seq::<Seq<char>>::empty() =~= seq!["-j"@, "neigh"@, "show"@]);
    }
}

/// `net.routes`: nothing but the pinned arguments.
pub proof fn law_compact_routes(service: &ToolService, params: &Json, r: Result<Step, protocol::Error>)
    requires
        call_ensures(ToolService::handle_tools_call, (service, params), r),
        params@.str_at("name"@) == Some("net.routes"@),
        arguments_in(params@) is Object,
    ensures
        ({
            let args = arguments_in(params@);
            let known = knows_all(args, Seq::empty());
            &&& !known ==> refused_as_unknown(r, args, Seq::empty())
            &&& known ==> comes_to(
                r,
                "net.routes"@,
                "ip"@,
                seq!["-j"@, "route"@, "show"@, "table"@, "all"@],
            )
        }),
{
    lemma_names();
    lemma_table();
    lemma_same_arguments(params@);
    let args = arguments_in(params@);
    if r is Err {
        assert(r->Err_0@.code == r->Err_0.code && r->Err_0@.message == r->Err_0.message@);
        assert(r->Err_0@.data is Some <==> r->Err_0.data is Some);
    }
    lemma_known(args, Seq::empty());
    assert(seq!["-j"@, "route"@, "show"@, "table"@, "all"@] + Seq::<Seq<char>>::empty() =~= seq![
        "-j"@,
        "route"@,
        "show"@,
        "table"@,
        "all"@,
    ]);
}

/// `net.ping`: the number of echo requests, the wait and the target.
pub proof fn law_compact_ping(service: &ToolService, params: &Json, r: Result<Step, protocol::Error>)
    requires
        call_ensures(ToolService::handle_tools_call, (service, params), r),
        params@.str_at("name"@) == Some("net.ping"@),
        arguments_in(params@) is Object,
    ensures
        ({
            let args = arguments_in(params@);
            let known = knows_all(args, seq!["target"@, "count"@, "timeout_secs"@]);
            let target = args.str_at("target"@);
            let count = args.u64_at("count"@);
            let wait = args.u64_at("timeout_secs"@);
            &&& !known ==> refused_as_unknown(r, args, seq!["target"@, "count"@, "timeout_secs"@])
            &&& known && target is None ==> misses(r, "target"@)
            &&& known && target is Some && passes(target->0) && tool_laws::within(count, 1, 10) && tool_laws::within(wait, 1, 5)
                ==> comes_to(
                r,
                "net.ping"@,
                "ping"@,
                seq![
                    "-n"@,
                    "-c"@,
                    tool_laws::digits_of(count, 3),
                    "-W"@,
                    tool_laws::digits_of(wait, 2),
                    target->0,
                ],
            )
            &&& known && target is Some && !passes(target->0) ==> refused_for(r, "target"@)
            &&& known && target is Some && passes(target->0) && !tool_laws::within(count, 1, 10)
                ==> refused_for(r, "count"@)
            &&& known && target is Some && passes(target->0) && tool_laws::within(count, 1, 10) && !tool_laws::within(wait, 1, 5)
                ==> refused_for(r, "timeout_secs"@)
        }),
{
    lemma_names();
    lemma_table();
    lemma_same_arguments(params@);
    let args = arguments_in(params@);
    if r is Err {
        assert(r->Err_0@.code == r->Err_0.code && r->Err_0@.message == r->Err_0.message@);
        assert(r->Err_0@.data is Some <==> r->Err_0.data is Some);
    }
    lemma_known(args, seq!["target"@, "count"@, "timeout_secs"@]);
    let count = args.u64_at("count"@);
    lemma_range_wire(count, "count"@, 1, 10);
    let wait = args.u64_at("timeout_secs"@);
    lemma_range_wire(wait, "timeout_secs"@, 1, 5);
    if args.str_at("target"@) is Some {
        let target = args.str_at("target"@)->0;
        lemma_token_wire("target"@, target);
        assert(seq!["-n"@] + seq![
            "-c"@,
            tool_laws::digits_of(count, 3),
            "-W"@,
            tool_laws::digits_of(wait, 2),
            target,
        ] =~= seq![
            "-n"@,
            "-c"@,
            tool_laws::digits_of(count, 3),
            "-W"@,
            tool_laws::digits_of(wait, 2),
            target,
        ]);
    }
}

/// `net.traceroute`: the hops and the target.
pub proof fn law_compact_traceroute(service: &ToolService, params: &Json, r: Result<Step, protocol::Error>)
    requires
        call_ensures(ToolService::handle_tools_call, (service, params), r),
        params@.str_at("name"@) == Some("net.traceroute"@),
        arguments_in(params@) is Object,
    ensures
        ({
            let args = arguments_in(params@);
            let known = knows_all(args, seq!["target"@, "max_hops"@]);
            let target = args.str_at("target"@);
            let hops = args.u64_at("max_hops"@);
            &&& !known ==> refused_as_unknown(r, args, seq!["target"@, "max_hops"@])
            &&& known && target is None ==> misses(r, "target"@)
            &&& known && target is Some && passes(target->0) && tool_laws::within(hops, 1, 30)
                ==> comes_to(
                r,
                "net.traceroute"@,
                "traceroute"@,
                seq!["-n"@, "-m"@, tool_laws::digits_of(hops, 12), target->0],
            )
            &&& known && target is Some && !passes(target->0) ==> refused_for(r, "target"@)
            &&& known && target is Some && passes(target->0) && !tool_laws::within(hops, 1, 30)
                ==> refused_for(r, "max_hops"@)
        }),
{
    lemma_names();
    lemma_table();
    lemma_same_arguments(params@);
    let args = arguments_in(params@);
    if r is Err {
        assert(r->Err_0@.code == r->Err_0.code && r->Err_0@.message == r->Err_0.message@);
        assert(r->Err_0@.data is Some <==> r->Err_0.data is Some);
    }
    lemma_known(args, seq!["target"@, "max_hops"@]);
    let hops = args.u64_at("max_hops"@);
    lemma_range_wire(hops, "max_hops"@, 1, 30);
    if args.str_at("target"@) is Some {
        let target = args.str_at("target"@)->0;
        lemma_token_wire("target"@, target);
        assert(seq!["-n"@] + seq!["-m"@, tool_laws::digits_of(hops, 12), target] =~= seq!["-n"@, "-m"@, tool_laws::digits_of(hops, 12), target]);
    }
}

/// `net.logs`: the number of lines and, if one is named, the unit.
pub proof fn law_compact_logs(service: &ToolService, params: &Json, r: Result<Step, protocol::Error>)
    requires
        call_ensures(ToolService::handle_tools_call, (service, params), r),
        params@.str_at("name"@) == Some("net.logs"@),
        arguments_in(params@) is Object,
    ensures
        ({
            let args = arguments_in(params@);
            let known = knows_all(args, seq!["lines"@, "unit"@]);
            let lines = args.u64_at("lines"@);
            let unit = args.str_at("unit"@);
            let fits = tool_laws::within(lines, 1, 200);
            &&& !known ==> refused_as_unknown(r, args, seq!["lines"@, "unit"@])
            &&& known && !fits ==> refused_for(r, "lines"@)
            &&& known && fits && unit is None ==> comes_to(
                r,
                "net.logs"@,
                "journalctl"@,
                seq![
                    "--no-pager"@,
                    "--output=short-iso"@,
                    "-n"@,
                    tool_laws::digits_of(lines, 50),
                ],
            )
            &&& known && fits && unit is Some && passes(unit->0) ==> comes_to(
                r,
                "net.logs"@,
                "journalctl"@,
                seq![
                    "--no-pager"@,
                    "--output=short-iso"@,
                    "-n"@,
                    tool_laws::digits_of(lines, 50),
                    "-u"@,
                    unit->0,
                ],
            )
            &&& known && fits && unit is Some && !passes(unit->0) ==> refused_for(r, "interface"@)
        }),
{
    lemma_names();
    lemma_table();
    lemma_same_arguments(params@);
    let args = arguments_in(params@);
    if r is Err {
        assert(r->Err_0@.code == r->Err_0.code && r->Err_0@.message == r->Err_0.message@);
        assert(r->Err_0@.data is Some <==> r->Err_0.data is Some);
    }
    lemma_known(args, seq!["lines"@, "unit"@]);
    let lines = args.u64_at("lines"@);
    lemma_range_wire(lines, "lines"@, 1, 200);
    if args.str_at("unit"@) is Some {
        let unit = args.str_at("unit"@)->0;
        lemma_token_wire("interface"@, unit);
        assert(seq!["--no-pager"@, "--output=short-iso"@] + seq!["-n"@, tool_laws::digits_of(lines, 50), "-u"@, unit] =~= seq![
            "--no-pager"@,
            "--output=short-iso"@,
            "-n"@,
            tool_laws::digits_of(lines, 50),
            "-u"@,
            unit,
        ]);
    } else {
        assert(seq!["--no-pager"@, "--output=short-iso"@] + seq!["-n"@, tool_laws::digits_of(lines, 50)] =~= seq!["--no-pager"@, "--output=short-iso"@, "-n"@, tool_laws::digits_of(lines, 50)]);
    }
}

/// A call without a name, with arguments that are no object, or of a tool that
/// is none of the seven is refused as having the wrong parameters.
pub proof fn law_compact_wrong_shape(
    service: &ToolService,
    params: &Json,
    r: Result<Step, protocol::Error>,
)
    requires
        call_ensures(ToolService::handle_tools_call, (service, params), r),
    ensures
        params@.str_at("name"@) is None ==> refused_with(r, -32602) && r->Err_0.message@
            == "missing string 'name'"@ && r->Err_0.data is None,
        params@.str_at("name"@) is Some && arguments_in(params@) !is Object ==> refused_with(
            r,
            -32602,
        ) && r->Err_0.message@ == "arguments must be a JSON object when provided"@
            && r->Err_0.data is None,
        params@.str_at("name"@) is Some && arguments_in(params@) is Object && ({
            let name = params@.str_at("name"@)->0;
            &&& name != "net.if_status"@
            &&& name != "net.mac_lookup"@
            &&& name != "net.neighbors"@
            &&& name != "net.routes"@
            &&& name != "net.ping"@
            &&& name != "net.traceroute"@
            &&& name != "net.logs"@
        }) ==> {
            &&& refused_with(r, -32602)
            &&& r->Err_0.message@ == "unknown tool"@
            &&& r->Err_0.data is Some
            &&& r->Err_0.data->0@.str_at("name"@) == params@.str_at("name"@)
        },
{
    broadcast use crate::json::lemma_get_with;

    lemma_same_arguments(params@);
    reveal_strlit("missing string '");
    reveal_strlit("name");
    reveal_strlit("'");
    reveal_strlit("missing string 'name'");
    assert("missing string '"@ + "name"@ + "'"@ =~= "missing string 'name'"@);
    if r is Err {
        assert(r->Err_0@.code == r->Err_0.code && r->Err_0@.message == r->Err_0.message@);
        assert(r->Err_0@.data is Some <==> r->Err_0.data is Some);
    }
}

// ---- requests -------------------------------------------------------------

/// A request is answered by its method: the two lifecycle methods and the list
/// at once, a tool call by what it comes to, and any other not at all.
pub proof fn law_methods(
    service: &ToolService,
    req: &protocol::Request,
    r: Result<Step, protocol::Error>,
    listed: Json,
    greeting: Json,
    call: Result<Step, protocol::Error>,
)
    requires
        call_ensures(ToolService::handle, (service, req), r),
        call_ensures(tools::handle_tools_list, (), listed),
        call_ensures(tools::handle_initialize, (), greeting),
        call_ensures(ToolService::handle_tools_call, (service, &req.params), call),
    ensures
        req.method@ == "initialize"@ ==> r is Ok && r->Ok_0 is Reply && r->Ok_0->Reply_0@
            == greeting@,
        req.method@ == "notifications/initialized"@ ==> r is Ok && r->Ok_0 is Reply
            && r->Ok_0->Reply_0@ == JsonView::Object(Seq::empty()),
        req.method@ == "tools/list"@ ==> r is Ok && r->Ok_0 is Reply && r->Ok_0->Reply_0@
            == listed@,
        req.method@ == "tools/call"@ ==> tools::wired(r) == tools::wired(call),
        req.method@ != "initialize"@ && req.method@ != "notifications/initialized"@
            && req.method@ != "tools/list"@ && req.method@ != "tools/call"@ ==> refused_with(
            r,
            -32601,
        ) && r->Err_0.message@ == "method not found"@ && r->Err_0.data is None,
{
    reveal_strlit("initialize");
    reveal_strlit("notifications/initialized");
    reveal_strlit("tools/list");
    reveal_strlit("tools/call");
    assert("initialize"@[0] == 'i' && "notifications/initialized"@[0] == 'n');
    assert("tools/list"@[0] == 't' && "tools/list"@[6] == 'l');
    assert("tools/call"@[0] == 't' && "tools/call"@[6] == 'c');
    if r is Err {
        assert(r->Err_0@.code == r->Err_0.code && r->Err_0@.message == r->Err_0.message@);
        assert(r->Err_0@.data is Some <==> r->Err_0.data is Some);
    }
}

/// The service introduces itself by name, version and protocol, and says that
/// it has tools whose list does not change.
pub proof fn law_greeting(greeting: Json)
    requires
        call_ensures(tools::handle_initialize, (), greeting),
    ensures
        greeting@.str_at("protocolVersion"@) == Some("2024-11-05"@),
        greeting@.get("serverInfo"@) is Some,
        greeting@.get("serverInfo"@)->0.str_at("name"@) == Some("mcp-netdiag-rs"@),
        greeting@.get("serverInfo"@)->0.str_at("version"@) == Some("0.1.0"@),
        greeting@.get("capabilities"@) is Some,
        greeting@.get("capabilities"@)->0.get("tools"@) is Some,
        greeting@.get("capabilities"@)->0.get("tools"@)->0.bool_at("listChanged"@) == Some(false),
{
    broadcast use crate::json::lemma_get_with;

    reveal_strlit("protocolVersion");
    reveal_strlit("serverInfo");
    reveal_strlit("capabilities");
    reveal_strlit("name");
    reveal_strlit("version");
    assert("protocolVersion"@[0] == 'p' && "serverInfo"@[0] == 's');
    assert("capabilities"@[0] == 'c' && "name"@[0] == 'n' && "version"@[0] == 'v');
}

// ---- the reply to a call --------------------------------------------------

/// From the outcome of a command to the reply: one item of content, which holds
/// the envelope; its status tells the success, its evidence is a head of what
/// is kept of the standard output, and its raw result tells the whole outcome.
pub proof fn law_compact_reply(
    service: &ToolService,
    call: &PendingCall,
    outcome: ProcessOutcome,
    r: Result<Json, protocol::Error>,
)
    requires
        call_ensures(ToolService::finish, (service, call, outcome), r),
    ensures
        match outcome {
            ProcessOutcome::Exited { success, code, stdout, stderr } => {
                &&& r is Ok
                &&& r->Ok_0@.get("content"@) is Some
                &&& match r->Ok_0@.get("content"@)->0 {
                    JsonView::Array(items) => {
                        let envelope = items[0].get("json"@)->0;
                        &&& items.len() == 1
                        &&& items[0].str_at("type"@) == Some("json"@)
                        &&& items[0].get("json"@) is Some
                        &&& envelope.str_at("tool"@) == Some(call.tool@)
                        &&& envelope.str_at("status"@) == Some(
                            if success {
                                "ok"@
                            } else {
                                "fail"@
                            },
                        )
                        &&& envelope.str_at("evidence"@) is Some
                        &&& envelope_laws::is_head(
                            envelope.str_at("evidence"@)->0,
                            crate::netdiag::commands::bounded(stdout@, 65_536, 512),
                            500,
                        )
                        &&& envelope.get("raw"@) is Some
                        &&& runner_laws::tells(
                            envelope.get("raw"@)->0,
                            success,
                            code,
                            stdout@,
                            stderr@,
                        )
                        &&& envelope == crate::netdiag::envelope(
                            call.tool@,
                            envelope.get("raw"@)->0,
                        )
                    },
                    _ => false,
                }
            },
            ProcessOutcome::TimedOut => r is Err && r->Err_0.code == -32012 && r->Err_0.message@
                == "command execution failed: timeout after 5s"@,
            ProcessOutcome::SpawnFailed { error } => r is Err && r->Err_0.code == -32012
                && r->Err_0.message@ == "command execution failed: spawn failed: "@ + error@,
        },
{
    runner_laws::law_outcome_told(outcome);
    match outcome {
        ProcessOutcome::Exited { success, code, stdout, stderr } => {
            let raw = crate::netdiag::commands::process_result(outcome)->Ok_0;
            let shown = crate::netdiag::commands::bounded(stdout@, 65_536, 512);
            let envelope = crate::netdiag::envelope(call.tool@, raw);
            laws::law_envelope_fields(call.tool@, raw);
            laws::law_evidence_bounded(shown, 500);
            assert(raw.bool_at("ok"@) == Some(success) && raw.str_at("stdout"@) == Some(shown));
            let item = JsonView::object().with("type"@, JsonView::Str("json"@)).with(
                "json"@,
                envelope,
            );
            let content = JsonView::array().with_item(item);
            assert(item.get("json"@) == Some(envelope) && item.str_at("type"@) == Some("json"@))
                by {
                broadcast use crate::json::lemma_get_with;

                reveal_strlit("type");
                reveal_strlit("json");
                assert("type"@[0] == 't' && "json"@[0] == 'j');
            }
            assert(JsonView::object().with("content"@, content).get("content"@) == Some(content))
                by {
                broadcast use crate::json::lemma_get_with;

            }
            assert(content->Array_0[0] == item);
        },
        ProcessOutcome::TimedOut => {
            reveal_strlit("command execution failed: ");
            reveal_strlit("timeout after 5s");
            reveal_strlit("command execution failed: timeout after 5s");
            assert(r->Err_0@.code == r->Err_0.code && r->Err_0@.message == r->Err_0.message@);
            assert("command execution failed: "@ + "timeout after 5s"@
                =~= "command execution failed: timeout after 5s"@);
        },
        ProcessOutcome::SpawnFailed { error } => {
            reveal_strlit("command execution failed: ");
            reveal_strlit("spawn failed: ");
            reveal_strlit("command execution failed: spawn failed: ");
            assert(r->Err_0@.code == r->Err_0.code && r->Err_0@.message == r->Err_0.message@);
            assert("command execution failed: "@ + ("spawn failed: "@ + error@)
                =~= "command execution failed: spawn failed: "@ + error@);
        },
    }
}

// ---- reading the arguments ------------------------------------------------

/// A string that is there is read, and the error for one that is not names it.
pub proof fn law_required_strings(
    obj: &Json,
    key: &str,
    r: Result<&str, protocol::Error>,
    s: Result<&str, protocol::Error>,
)
    requires
        call_ensures(tools::required_str, (obj, key), r),
        call_ensures(tools::required_arg_str, (obj, key), s),
    ensures
        match obj@.get(key@) {
            Some(JsonView::Str(text)) => r is Ok && r->Ok_0@ == text && s is Ok && s->Ok_0@ == text,
            _ => {
                &&& r is Err && r->Err_0.code == -32602
                &&& r->Err_0.message@ == "missing string '"@ + key@ + "'"@
                &&& s is Err && s->Err_0.code == -32602
                &&& s->Err_0.message@ == "missing argument '"@ + key@ + "'"@
            },
        },
{
    if r is Err {
        assert(r->Err_0@.code == r->Err_0.code && r->Err_0@.message == r->Err_0.message@);
    }
    if s is Err {
        assert(s->Err_0@.code == s->Err_0.code && s->Err_0@.message == s->Err_0.message@);
    }
}

/// An integer argument is read where it is one in the range of `u64`, and
/// refused where it lies outside the bounds; anything else counts as absent.
pub proof fn law_bounded_arguments(
    args: &Json,
    key: &str,
    min: u64,
    max: u64,
    r: Result<Option<u64>, protocol::Error>,
)
    requires
        call_ensures(tools::bounded_u64, (args, key, min, max), r),
    ensures
        ({
            let n = args@.get(key@)->0->Int_0;
            let number = args@.get(key@) is Some && args@.get(key@)->0 is Int && 0 <= n
                < 0x1_0000_0000_0000_0000;
            &&& !number ==> r == Ok::<Option<u64>, protocol::Error>(None)
            &&& number && min <= n <= max ==> r is Ok && r->Ok_0 is Some && r->Ok_0->0 == n
            &&& number && !(min <= n <= max) ==> {
                &&& r is Err && r->Err_0.code == -32010
                &&& r->Err_0.data is Some
                &&& r->Err_0.data->0@.str_at("name"@) == Some(key@)
            }
        }),
{
    lemma_range_wire(args@.u64_at(key@), key@, min, max);
    if r is Err {
        assert(r->Err_0@.code == r->Err_0.code);
        assert(r->Err_0@.data is Some <==> r->Err_0.data is Some);
    }
}

/// Arguments pass if and only if every key is known; the refusal names the first
/// that is not.
pub proof fn law_unknown_arguments(
    args: &Json,
    known: &[&'static str],
    r: Result<(), protocol::Error>,
)
    requires
        call_ensures(tools::reject_unknown_args, (args, known), r),
        args@ is Object,
    ensures
        r is Ok <==> knows_all(args@, known.deep_view()),
        r is Err ==> {
            &&& r->Err_0.code == -32010
            &&& r->Err_0.data is Some
            &&& r->Err_0.data->0@.str_at("name"@) is Some
            &&& is_first_unknown(
                args@,
                known.deep_view(),
                r->Err_0.data->0@.str_at("name"@)->0,
            )
        },
{
    lemma_known(args@, known.deep_view());
    if r is Err {
        assert(r->Err_0@.code == r->Err_0.code);
        assert(r->Err_0@.data is Some <==> r->Err_0.data is Some);
    }
}

// ---- the commands ---------------------------------------------------------

/// The compact runner knows seven keys, and refuses any other as not allowed.
pub proof fn law_compact_runner(
    runner: &compact::CommandRunner,
    key: &str,
    extra: &[String],
    r: Result<Invocation, NetdiagError>,
)
    requires
        call_ensures(compact::CommandRunner::run, (runner, key, extra), r),
    ensures
        ({
            let known = key@ == "if_status"@ || key@ == "mac_table"@ || key@ == "neighbors"@ || key@
                == "routes"@ || key@ == "ping"@ || key@ == "traceroute"@ || key@ == "logs"@;
            &&& !known ==> r is Err && r->Err_0 is CommandNotAllowed && r->Err_0->command@ == key@
            &&& known ==> r is Ok && runner_laws::carries_out(
                crate::assoc::lookup(crate::netdiag::commands::builtin_table(), key@)->0,
                extra.deep_view(),
                r->Ok_0,
            )
        }),
{
    lemma_table();
    let own = compact::command_table();
    crate::assoc::lemma_lookup_entry(own, key@);
    laws::law_builtin_entry_found(0);
    laws::law_builtin_entry_found(1);
    laws::law_builtin_entry_found(2);
    laws::law_builtin_entry_found(3);
    laws::law_builtin_entry_found(8);
    laws::law_builtin_entry_found(9);
    laws::law_builtin_entry_found(17);
    assert(own.len() == 7);
    if crate::assoc::lookup(own, key@) is Some {
        let v = crate::assoc::lookup(own, key@)->0;
        let k = choose|k: int| 0 <= k < own.len() && own[k] == (key@, v);
        if k == 0 {
        } else if k == 1 {
        } else if k == 2 {
        } else if k == 3 {
        } else if k == 4 {
        } else if k == 5 {
        } else {
        }
    }
}

// ---- the list of the tools ------------------------------------------------

/// Whether `entry` lists a tool: its name, what it is for, and that it takes an
/// object without further properties.
pub open spec fn lists(entry: JsonView, name: Seq<char>, description: Seq<char>) -> bool {
    &&& entry.str_at("name"@) == Some(name)
    &&& entry.str_at("description"@) == Some(description)
    &&& entry.get("inputSchema"@) is Some
    &&& entry.get("inputSchema"@)->0.str_at("type"@) == Some("object"@)
    &&& entry.get("inputSchema"@)->0.bool_at("additionalProperties"@) == Some(false)
}

/// The schema of the argument `key` of a listed tool, if it has that argument.
pub open spec fn argument_of(entry: JsonView, key: Seq<char>) -> Option<JsonView> {
    match entry.get("inputSchema"@)->0.get("properties"@) {
        Some(properties) => properties.get(key),
        None => None,
    }
}

/// Whether a tool takes the argument `key` as a string.
pub open spec fn takes_text(entry: JsonView, key: Seq<char>) -> bool {
    &&& argument_of(entry, key) is Some
    &&& argument_of(entry, key)->0.str_at("type"@) == Some("string"@)
}

/// Whether a tool takes the argument `key` as an integer from `min` to `max`.
pub open spec fn takes_integer(entry: JsonView, key: Seq<char>, min: int, max: int) -> bool {
    &&& argument_of(entry, key) is Some
    &&& argument_of(entry, key)->0.str_at("type"@) == Some("integer"@)
    &&& argument_of(entry, key)->0.get("minimum"@) == Some(JsonView::Int(min))
    &&& argument_of(entry, key)->0.get("maximum"@) == Some(JsonView::Int(max))
}

/// Whether a tool needs exactly the argument `key`.
pub open spec fn needs(entry: JsonView, key: Seq<char>) -> bool {
    entry.get("inputSchema"@)->0.get("required"@) == Some(
        JsonView::Array(seq![JsonView::Str(key)]),
    )
}

/// Whether a tool can be called without arguments.
pub open spec fn needs_nothing(entry: JsonView) -> bool {
    entry.get("inputSchema"@)->0.get("required"@) is None
}

proof fn lemma_entry(name: Seq<char>, description: Seq<char>, schema: JsonView)
    ensures
        tools::tool_entry(name, description, schema).str_at("name"@) == Some(name),
        tools::tool_entry(name, description, schema).str_at("description"@) == Some(description),
        tools::tool_entry(name, description, schema).get("inputSchema"@) == Some(schema),
{
    broadcast use crate::json::lemma_get_with;

    reveal_strlit("name");
    reveal_strlit("description");
    reveal_strlit("inputSchema");
    assert("name"@[0] == 'n' && "description"@[0] == 'd' && "inputSchema"@[0] == 'i');
}

proof fn lemma_schemas(required: Seq<char>, properties: JsonView, min: int, max: int)
    ensures
        tools::bare_schema().str_at("type"@) == Some("object"@),
        tools::bare_schema().bool_at("additionalProperties"@) == Some(false),
        tools::bare_schema().get("properties"@) is None,
        tools::bare_schema().get("required"@) is None,
        tools::open_schema(properties).str_at("type"@) == Some("object"@),
        tools::open_schema(properties).bool_at("additionalProperties"@) == Some(false),
        tools::open_schema(properties).get("properties"@) == Some(properties),
        tools::open_schema(properties).get("required"@) is None,
        tools::required_schema(required, properties).str_at("type"@) == Some("object"@),
        tools::required_schema(required, properties).bool_at("additionalProperties"@) == Some(
            false,
        ),
        tools::required_schema(required, properties).get("properties"@) == Some(properties),
        tools::required_schema(required, properties).get("required"@) == Some(
            JsonView::Array(seq![JsonView::Str(required)]),
        ),
        tools::string_schema().str_at("type"@) == Some("string"@),
        tools::integer_schema(min, max).str_at("type"@) == Some("integer"@),
        tools::integer_schema(min, max).get("minimum"@) == Some(JsonView::Int(min)),
        tools::integer_schema(min, max).get("maximum"@) == Some(JsonView::Int(max)),
{
    broadcast use crate::json::lemma_get_with;

    reveal_strlit("type");
    reveal_strlit("additionalProperties");
    reveal_strlit("properties");
    reveal_strlit("required");
    reveal_strlit("minimum");
    reveal_strlit("maximum");
    assert("type"@[0] == 't' && "additionalProperties"@[0] == 'a' && "properties"@[0] == 'p');
    assert("required"@[0] == 'r' && "minimum"@[0] == 'm' && "maximum"@[0] == 'm');
    assert("minimum"@[1] == 'i' && "maximum"@[1] == 'a');
    assert(JsonView::array().with_item(JsonView::Str(required))->Array_0 =~= seq![
        JsonView::Str(required),
    ]);
}

proof fn lemma_properties()
    ensures
        tools::interface_properties().get("interface"@) == Some(tools::string_schema()),
        tools::mac_properties().get("mac"@) == Some(tools::string_schema()),
        tools::ping_properties().get("target"@) == Some(tools::string_schema()),
        tools::ping_properties().get("count"@) == Some(tools::integer_schema(1, 10)),
        tools::ping_properties().get("timeout_secs"@) == Some(tools::integer_schema(1, 5)),
        tools::traceroute_properties().get("target"@) == Some(tools::string_schema()),
        tools::traceroute_properties().get("max_hops"@) == Some(tools::integer_schema(1, 30)),
        tools::logs_properties().get("lines"@) == Some(tools::integer_schema(1, 200)),
        tools::logs_properties().get("unit"@) == Some(tools::string_schema()),
{
    broadcast use crate::json::lemma_get_with;

    reveal_strlit("target");
    reveal_strlit("count");
    reveal_strlit("timeout_secs");
    reveal_strlit("max_hops");
    reveal_strlit("lines");
    reveal_strlit("unit");
    assert("target"@.len() == 6 && "count"@.len() == 5 && "timeout_secs"@.len() == 12);
    assert("max_hops"@.len() == 8 && "lines"@.len() == 5 && "unit"@.len() == 4);
}

/// The reply lists the seven tools, in this order, with what they take and what
/// they need.
pub proof fn law_tools_listed(reply: Json)
    requires
        call_ensures(tools::handle_tools_list, (), reply),
    ensures
        ({
            let list = reply@.get("tools"@)->0->Array_0;
            &&& reply@.get("tools"@) is Some && reply@.get("tools"@)->0 is Array
            &&& list.len() == 7
            &&& lists(list[0], "net.if_status"@, "Show interface state and counters using ip -j -s link show"@)
            &&& needs_nothing(list[0])
            &&& takes_text(list[0], "interface"@)
            &&& lists(list[1], "net.mac_lookup"@, "Lookup a MAC in bridge FDB"@)
            &&& needs(list[1], "mac"@)
            &&& takes_text(list[1], "mac"@)
            &&& lists(list[2], "net.neighbors"@, "Show ARP/neighbor state"@)
            &&& needs_nothing(list[2])
            &&& takes_text(list[2], "interface"@)
            &&& lists(list[3], "net.routes"@, "Show routing table state"@)
            &&& needs_nothing(list[3])
            &&& lists(list[4], "net.ping"@, "Bounded ping check"@)
            &&& needs(list[4], "target"@)
            &&& takes_text(list[4], "target"@)
            &&& takes_integer(list[4], "count"@, 1, 10)
            &&& takes_integer(list[4], "timeout_secs"@, 1, 5)
            &&& lists(list[5], "net.traceroute"@, "Bounded traceroute check"@)
            &&& needs(list[5], "target"@)
            &&& takes_text(list[5], "target"@)
            &&& takes_integer(list[5], "max_hops"@, 1, 30)
            &&& lists(list[6], "net.logs"@, "Extract recent bounded system logs"@)
            &&& needs_nothing(list[6])
            &&& takes_integer(list[6], "lines"@, 1, 200)
            &&& takes_text(list[6], "unit"@)
        }),
{
    lemma_properties();
    assert(reply@.get("tools"@) == Some(tools::tool_list())) by {
        broadcast use crate::json::lemma_get_with;

    }
    lemma_entry("net.if_status"@, "Show interface state and counters using ip -j -s link show"@, tools::open_schema(tools::interface_properties()));
    lemma_entry("net.mac_lookup"@, "Lookup a MAC in bridge FDB"@, tools::required_schema("mac"@, tools::mac_properties()));
    lemma_entry("net.neighbors"@, "Show ARP/neighbor state"@, tools::open_schema(tools::interface_properties()));
    lemma_entry("net.routes"@, "Show routing table state"@, tools::bare_schema());
    lemma_entry("net.ping"@, "Bounded ping check"@, tools::required_schema("target"@, tools::ping_properties()));
    lemma_entry("net.traceroute"@, "Bounded traceroute check"@, tools::required_schema("target"@, tools::traceroute_properties()));
    lemma_entry("net.logs"@, "Extract recent bounded system logs"@, tools::open_schema(tools::logs_properties()));
    lemma_schemas(""@, tools::interface_properties(), 0, 0);
    lemma_schemas("mac"@, tools::mac_properties(), 0, 0);
    lemma_schemas(""@, tools::interface_properties(), 0, 0);
    lemma_schemas("target"@, tools::ping_properties(), 1, 10);
    lemma_schemas("target"@, tools::ping_properties(), 1, 5);
    lemma_schemas("target"@, tools::traceroute_properties(), 1, 30);
    lemma_schemas(""@, tools::logs_properties(), 1, 200);
}

} // verus!
