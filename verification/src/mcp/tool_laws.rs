//! What each tool asks for, from its parameters to the command line.

use vstd::prelude::*;

use crate::assoc;
use crate::errors::NetdiagError;
use crate::mcp;
use crate::mcp::params::{
    InterfaceParams, LogsParams, MacLookupParams, PingParams, RequiredInterfaceParams,
    ServiceStatusParams, TargetParams, TcpdumpParams, TracerouteParams,
};
use crate::mcp::{NetdiagServer, ToolRequest};
use crate::netdiag::commands;
use crate::netdiag::commands::OperationView;
use crate::netdiag::laws;
use crate::netdiag::validator_laws;
use crate::text;
use crate::text_laws;

verus! {

/// Whether a call of `tool` asks for running `program` with exactly `args`.
pub open spec fn asks_for(
    r: Result<ToolRequest, NetdiagError>,
    tool: Seq<char>,
    program: Seq<char>,
    args: Seq<Seq<char>>,
) -> bool {
    &&& r is Ok
    &&& r->Ok_0.tool@ == tool
    &&& match assoc::lookup(commands::builtin_table(), r->Ok_0.key@) {
        Some(OperationView::Process { program: pinned, base_args }) => pinned == program
            && base_args + r->Ok_0.extra.deep_view() == args,
        _ => false,
    }
}

/// Whether a call is refused for the parameter `name`.
pub open spec fn refuses(r: Result<ToolRequest, NetdiagError>, name: Seq<char>) -> bool {
    &&& r is Err
    &&& r->Err_0 is InvalidParam
    &&& r->Err_0->name@ == name
}

/// Whether an optional integer is absent or lies between two others.
pub open spec fn within(value: Option<u64>, min: u64, max: u64) -> bool {
    value is None || min <= value->0 <= max
}

/// The decimal digits of an optional integer, or of the number in its place.
pub open spec fn digits_of(value: Option<u64>, default: nat) -> Seq<char> {
    text::decimal(
        if value is Some {
            value->0 as nat
        } else {
            default
        },
    )
}

/// Whether `value` passes as a target or an interface.
pub open spec fn passes(value: Seq<char>) -> bool {
    validator_laws::is_safe_word(value, Seq::empty())
}

/// Whether `value` passes as a unit.
pub open spec fn passes_as_unit(value: Seq<char>) -> bool {
    validator_laws::is_safe_word(value, seq!['@'])
}

/// The tools without parameters.
pub proof fn law_fixed_tools<R, J>(server: &NetdiagServer<R, J>, r: Result<ToolRequest, NetdiagError>)
    ensures
        call_ensures(NetdiagServer::<R, J>::routes, (server,), r) ==> asks_for(
            r,
            "net.routes"@,
            "ip"@,
            seq!["-j"@, "route"@, "show"@, "table"@, "all"@],
        ),
        call_ensures(NetdiagServer::<R, J>::rules, (server,), r) ==> asks_for(
            r,
            "net.rules"@,
            "ip"@,
            seq!["-j"@, "rule"@, "show"@],
        ),
        call_ensures(NetdiagServer::<R, J>::sockets, (server,), r) ==> asks_for(
            r,
            "net.sockets"@,
            "ss"@,
            seq!["-H"@, "-tuna"@],
        ),
        call_ensures(NetdiagServer::<R, J>::dns_status, (server,), r) ==> asks_for(
            r,
            "net.dns_status"@,
            "resolvectl"@,
            seq!["status"@],
        ),
        call_ensures(NetdiagServer::<R, J>::firewall, (server,), r) ==> asks_for(
            r,
            "net.firewall"@,
            "nft"@,
            seq!["list"@, "ruleset"@],
        ),
        call_ensures(NetdiagServer::<R, J>::conntrack, (server,), r) ==> asks_for(
            r,
            "net.conntrack"@,
            "conntrack"@,
            seq!["-L"@],
        ),
        call_ensures(NetdiagServer::<R, J>::failed_units, (server,), r) ==> asks_for(
            r,
            "sys.failed_units"@,
            "systemctl"@,
            seq!["--failed"@, "--no-pager"@, "--plain"@],
        ),
        call_ensures(NetdiagServer::<R, J>::dmesg, (server,), r) ==> asks_for(
            r,
            "sys.dmesg"@,
            "dmesg"@,
            seq!["-T"@],
        ),
        call_ensures(NetdiagServer::<R, J>::uptime, (server,), r) ==> asks_for(
            r,
            "sys.uptime"@,
            "uptime"@,
            Seq::empty(),
        ),
        call_ensures(NetdiagServer::<R, J>::memory, (server,), r) ==> asks_for(
            r,
            "sys.memory"@,
            "free"@,
            seq!["-h"@],
        ),
        call_ensures(NetdiagServer::<R, J>::filesystems, (server,), r) ==> asks_for(
            r,
            "sys.filesystems"@,
            "df"@,
            seq!["-h"@],
        ),
        call_ensures(NetdiagServer::<R, J>::resolv_conf, (server,), r) ==> {
            &&& r is Ok
            &&& r->Ok_0.tool@ == "net.resolv_conf"@
            &&& r->Ok_0.extra@.len() == 0
            &&& assoc::lookup(commands::builtin_table(), r->Ok_0.key@) == Some(
                OperationView::File { path: "/etc/resolv.conf"@ },
            )
        },
{
    assert forall|args: Seq<Seq<char>>| #[trigger] (args + Seq::<Seq<char>>::empty()) == args by {
        assert(args + Seq::<Seq<char>>::empty() =~= args);
    }
    assert(r is Ok ==> r->Ok_0.extra.deep_view().len() == r->Ok_0.extra@.len());
    laws::law_builtin_entry_found(3);
    laws::law_builtin_entry_found(7);
    laws::law_builtin_entry_found(10);
    laws::law_builtin_entry_found(11);
    laws::law_builtin_entry_found(14);
    laws::law_builtin_entry_found(15);
    laws::law_builtin_entry_found(18);
    laws::law_builtin_entry_found(20);
    laws::law_builtin_entry_found(21);
    laws::law_builtin_entry_found(22);
    laws::law_builtin_entry_found(23);
    laws::law_builtin_entry_found(12);
}

/// `net.if_status`: all interfaces, or the one that is named.
pub proof fn law_if_status<R, J>(
    server: &NetdiagServer<R, J>,
    params: InterfaceParams,
    r: Result<ToolRequest, NetdiagError>,
)
    requires
        call_ensures(NetdiagServer::<R, J>::if_status, (server, params), r),
    ensures
        params.interface is None ==> asks_for(
            r,
            "net.if_status"@,
            "ip"@,
            seq!["-j"@, "-s"@, "link"@, "show"@],
        ),
        params.interface is Some && passes(params.interface->0@) ==> asks_for(
            r,
            "net.if_status"@,
            "ip"@,
            seq!["-j"@, "-s"@, "link"@, "show"@, "dev"@, params.interface->0@],
        ),
        params.interface is Some && !passes(params.interface->0@) ==> refuses(r, "interface"@),
{
    laws::law_builtin_entry_found(0);
    if params.interface is Some {
        let name = params.interface->0@;
        validator_laws::lemma_words(name);
        assert(seq!["-j"@, "-s"@, "link"@, "show"@] + seq!["dev"@, name] =~= seq!["-j"@, "-s"@, "link"@, "show"@, "dev"@, name]);
    } else {
        assert(seq!["-j"@, "-s"@, "link"@, "show"@] + Seq::<Seq<char>>::empty() =~= seq!["-j"@, "-s"@, "link"@, "show"@]);
    }
}

/// `net.addr`: all interfaces, or the one that is named.
pub proof fn law_addr<R, J>(
    server: &NetdiagServer<R, J>,
    params: InterfaceParams,
    r: Result<ToolRequest, NetdiagError>,
)
    requires
        call_ensures(NetdiagServer::<R, J>::addr, (server, params), r),
    ensures
        params.interface is None ==> asks_for(
            r,
            "net.addr"@,
            "ip"@,
            seq!["-j"@, "addr"@, "show"@],
        ),
        params.interface is Some && passes(params.interface->0@) ==> asks_for(
            r,
            "net.addr"@,
            "ip"@,
            seq!["-j"@, "addr"@, "show"@, "dev"@, params.interface->0@],
        ),
        params.interface is Some && !passes(params.interface->0@) ==> refuses(r, "interface"@),
{
    laws::law_builtin_entry_found(4);
    if params.interface is Some {
        let name = params.interface->0@;
        validator_laws::lemma_words(name);
        assert(seq!["-j"@, "addr"@, "show"@] + seq!["dev"@, name] =~= seq!["-j"@, "addr"@, "show"@, "dev"@, name]);
    } else {
        assert(seq!["-j"@, "addr"@, "show"@] + Seq::<Seq<char>>::empty() =~= seq!["-j"@, "addr"@, "show"@]);
    }
}

/// `net.link_detail`: all interfaces, or the one that is named.
pub proof fn law_link_detail<R, J>(
    server: &NetdiagServer<R, J>,
    params: InterfaceParams,
    r: Result<ToolRequest, NetdiagError>,
)
    requires
        call_ensures(NetdiagServer::<R, J>::link_detail, (server, params), r),
    ensures
        params.interface is None ==> asks_for(
            r,
            "net.link_detail"@,
            "ip"@,
            seq!["-j"@, "-d"@, "link"@, "show"@],
        ),
        params.interface is Some && passes(params.interface->0@) ==> asks_for(
            r,
            "net.link_detail"@,
            "ip"@,
            seq!["-j"@, "-d"@, "link"@, "show"@, "dev"@, params.interface->0@],
        ),
        params.interface is Some && !passes(params.interface->0@) ==> refuses(r, "interface"@),
{
    laws::law_builtin_entry_found(5);
    if params.interface is Some {
        let name = params.interface->0@;
        validator_laws::lemma_words(name);
        assert(seq!["-j"@, "-d"@, "link"@, "show"@] + seq!["dev"@, name] =~= seq!["-j"@, "-d"@, "link"@, "show"@, "dev"@, name]);
    } else {
        assert(seq!["-j"@, "-d"@, "link"@, "show"@] + Seq::<Seq<char>>::empty() =~= seq!["-j"@, "-d"@, "link"@, "show"@]);
    }
}

/// `net.neighbors`: all interfaces, or the one that is named.
pub proof fn law_neighbors<R, J>(
    server: &NetdiagServer<R, J>,
    params: InterfaceParams,
    r: Result<ToolRequest, NetdiagError>,
)
    requires
        call_ensures(NetdiagServer::<R, J>::neighbors, (server, params), r),
    ensures
        params.interface is None ==> asks_for(
            r,
            "net.neighbors"@,
            "ip"@,
            seq!["-j"@, "neigh"@, "show"@],
        ),
        params.interface is Some && passes(params.interface->0@) ==> asks_for(
            r,
            "net.neighbors"@,
            "ip"@,
            seq!["-j"@, "neigh"@, "show"@, "dev"@, params.interface->0@],
        ),
        params.interface is Some && !passes(params.interface->0@) ==> refuses(r, "interface"@),
{
    laws::law_builtin_entry_found(2);
    if params.interface is Some {
        let name = params.interface->0@;
        validator_laws::lemma_words(name);
        assert(seq!["-j"@, "neigh"@, "show"@] + seq!["dev"@, name] =~= seq!["-j"@, "neigh"@, "show"@, "dev"@, name]);
    } else {
        assert(seq!["-j"@, "neigh"@, "show"@] + Seq::<Seq<char>>::empty() =~= seq!["-j"@, "neigh"@, "show"@]);
    }
}

/// `net.mac_lookup`: the address behind `to`.
pub proof fn law_mac_lookup<R, J>(
    server: &NetdiagServer<R, J>,
    params: MacLookupParams,
    r: Result<ToolRequest, NetdiagError>,
)
    requires
        call_ensures(NetdiagServer::<R, J>::mac_lookup, (server, params), r),
    ensures
        params.mac@.len() == 17 && validator_laws::is_colon_grid(params.mac@) ==> asks_for(
            r,
            "net.mac_lookup"@,
            "bridge"@,
            seq!["-j"@, "fdb"@, "show"@, "to"@, params.mac@],
        ),
        !(params.mac@.len() == 17 && validator_laws::is_colon_grid(params.mac@))
            ==> refuses(r, "mac"@),
{
    laws::law_builtin_entry_found(1);
    validator_laws::lemma_mac(params.mac@);
    assert(seq!["-j"@, "fdb"@, "show"@] + seq!["to"@, params.mac@] =~= seq!["-j"@, "fdb"@, "show"@, "to"@, params.mac@]);
}

/// `net.route_get`: the target.
pub proof fn law_route_get<R, J>(
    server: &NetdiagServer<R, J>,
    params: TargetParams,
    r: Result<ToolRequest, NetdiagError>,
)
    requires
        call_ensures(NetdiagServer::<R, J>::route_get, (server, params), r),
    ensures
        passes(params.target@) ==> asks_for(
            r,
            "net.route_get"@,
            "ip"@,
            seq!["-j"@, "route"@, "get"@, params.target@],
        ),
        !(passes(params.target@)) ==> refuses(r, "target"@),
{
    laws::law_builtin_entry_found(6);
    validator_laws::lemma_words(params.target@);
    assert(seq!["-j"@, "route"@, "get"@] + seq![params.target@] =~= seq!["-j"@, "route"@, "get"@, params.target@]);
}

/// `net.ethtool`: the interface.
pub proof fn law_ethtool<R, J>(
    server: &NetdiagServer<R, J>,
    params: RequiredInterfaceParams,
    r: Result<ToolRequest, NetdiagError>,
)
    requires
        call_ensures(NetdiagServer::<R, J>::ethtool, (server, params), r),
    ensures
        passes(params.interface@) ==> asks_for(
            r,
            "net.ethtool"@,
            "ethtool"@,
            seq![params.interface@],
        ),
        !(passes(params.interface@)) ==> refuses(r, "interface"@),
{
    laws::law_builtin_entry_found(13);
    validator_laws::lemma_words(params.interface@);
    assert(Seq::<Seq<char>>::empty() + seq![params.interface@] =~= seq![params.interface@]);
}

/// `net.ping`: the number of echo requests, the wait and the target.
pub proof fn law_ping<R, J>(
    server: &NetdiagServer<R, J>,
    params: PingParams,
    r: Result<ToolRequest, NetdiagError>,
)
    requires
        call_ensures(NetdiagServer::<R, J>::ping, (server, params), r),
    ensures
        passes(params.target@) && within(params.count, 1, 10) && within(params.timeout_secs, 1, 5)
            ==> asks_for(
            r,
            "net.ping"@,
            "ping"@,
            seq![
                "-n"@,
                "-c"@,
                digits_of(params.count, 3),
                "-W"@,
                digits_of(params.timeout_secs, 2),
                params.target@,
            ],
        ),
        !(passes(params.target@)) ==> refuses(r, "target"@),
        passes(params.target@) && !(within(params.count, 1, 10)) ==> refuses(r, "count"@),
        passes(params.target@) && within(params.count, 1, 10)
            && !(within(params.timeout_secs, 1, 5))
            ==> refuses(r, "timeout_secs"@),
{
    laws::law_builtin_entry_found(8);
    validator_laws::lemma_words(params.target@);
    assert(seq!["-n"@] + seq![
            "-c"@,
            digits_of(params.count, 3),
            "-W"@,
            digits_of(params.timeout_secs, 2),
            params.target@,
        ] =~= seq![
            "-n"@,
            "-c"@,
            digits_of(params.count, 3),
            "-W"@,
            digits_of(params.timeout_secs, 2),
            params.target@,
        ]);
}

/// `net.traceroute`: the hops and the target.
pub proof fn law_traceroute<R, J>(
    server: &NetdiagServer<R, J>,
    params: TracerouteParams,
    r: Result<ToolRequest, NetdiagError>,
)
    requires
        call_ensures(NetdiagServer::<R, J>::traceroute, (server, params), r),
    ensures
        passes(params.target@) && within(params.max_hops, 1, 30) ==> asks_for(
            r,
            "net.traceroute"@,
            "traceroute"@,
            seq!["-n"@, "-m"@, digits_of(params.max_hops, 12), params.target@],
        ),
        !(passes(params.target@)) ==> refuses(r, "target"@),
        passes(params.target@) && !(within(params.max_hops, 1, 30)) ==> refuses(r, "max_hops"@),
{
    laws::law_builtin_entry_found(9);
    validator_laws::lemma_words(params.target@);
    assert(seq!["-n"@] + seq!["-m"@, digits_of(params.max_hops, 12), params.target@] =~= seq!["-n"@, "-m"@, digits_of(params.max_hops, 12), params.target@]);
}

/// `net.tcpdump_sample`: the interface and the number of packets.
pub proof fn law_tcpdump_sample<R, J>(
    server: &NetdiagServer<R, J>,
    params: TcpdumpParams,
    r: Result<ToolRequest, NetdiagError>,
)
    requires
        call_ensures(NetdiagServer::<R, J>::tcpdump_sample, (server, params), r),
    ensures
        passes(params.interface@) && within(params.count, 1, 50) ==> asks_for(
            r,
            "net.tcpdump_sample"@,
            "tcpdump"@,
            seq!["-nn"@, "-i"@, params.interface@, "-c"@, digits_of(params.count, 10)],
        ),
        !(passes(params.interface@)) ==> refuses(r, "interface"@),
        passes(params.interface@) && !(within(params.count, 1, 50)) ==> refuses(r, "count"@),
{
    laws::law_builtin_entry_found(16);
    validator_laws::lemma_words(params.interface@);
    assert(seq!["-nn"@] + seq!["-i"@, params.interface@, "-c"@, digits_of(params.count, 10)] =~= seq!["-nn"@, "-i"@, params.interface@, "-c"@, digits_of(params.count, 10)]);
}

/// `sys.service_status`: the number of lines and the unit.
pub proof fn law_service_status<R, J>(
    server: &NetdiagServer<R, J>,
    params: ServiceStatusParams,
    r: Result<ToolRequest, NetdiagError>,
)
    requires
        call_ensures(NetdiagServer::<R, J>::service_status, (server, params), r),
    ensures
        passes_as_unit(params.unit@) && within(params.lines, 1, 200) ==> asks_for(
            r,
            "sys.service_status"@,
            "systemctl"@,
            seq![
                "status"@,
                "--no-pager"@,
                "--lines"@,
                digits_of(params.lines, 50),
                params.unit@,
            ],
        ),
        !(passes_as_unit(params.unit@)) ==> refuses(r, "unit"@),
        passes_as_unit(params.unit@) && !(within(params.lines, 1, 200)) ==> refuses(r, "lines"@),
{
    laws::law_builtin_entry_found(19);
    validator_laws::lemma_words(params.unit@);
    assert(seq!["status"@, "--no-pager"@] + seq!["--lines"@, digits_of(params.lines, 50), params.unit@] =~= seq!["status"@, "--no-pager"@, "--lines"@, digits_of(params.lines, 50), params.unit@]);
}

/// `net.logs`: the number of lines and, if one is named, the unit.
pub proof fn law_logs<R, J>(server: &NetdiagServer<R, J>, params: LogsParams, r: Result<ToolRequest, NetdiagError>)
    requires
        call_ensures(NetdiagServer::<R, J>::logs, (server, params), r),
    ensures
        !within(params.lines, 1, 200) ==> refuses(r, "lines"@),
        within(params.lines, 1, 200) && params.unit is None ==> asks_for(
            r,
            "net.logs"@,
            "journalctl"@,
            seq!["--no-pager"@, "--output=short-iso"@, "-n"@, digits_of(params.lines, 50)],
        ),
        within(params.lines, 1, 200) && params.unit is Some && passes_as_unit(params.unit->0@)
            ==> asks_for(
            r,
            "net.logs"@,
            "journalctl"@,
            seq![
                "--no-pager"@,
                "--output=short-iso"@,
                "-n"@,
                digits_of(params.lines, 50),
                "-u"@,
                params.unit->0@,
            ],
        ),
        within(params.lines, 1, 200) && params.unit is Some && !passes_as_unit(params.unit->0@)
            ==> refuses(r, "unit"@),
{
    laws::law_builtin_entry_found(17);
    if params.unit is Some {
        validator_laws::lemma_words(params.unit->0@);
        assert(seq!["--no-pager"@, "--output=short-iso"@] + seq!["-n"@, digits_of(params.lines, 50), "-u"@, params.unit->0@] =~= seq![
            "--no-pager"@,
            "--output=short-iso"@,
            "-n"@,
            digits_of(params.lines, 50),
            "-u"@,
            params.unit->0@,
        ]);
    } else {
        assert(seq!["--no-pager"@, "--output=short-iso"@] + seq!["-n"@, digits_of(params.lines, 50)] =~= seq!["--no-pager"@, "--output=short-iso"@, "-n"@, digits_of(params.lines, 50)]);
    }
}

// ---- what the arguments are made of ---------------------------------------

/// An interface becomes the pair `dev` and its name, or nothing where none is
/// named; one that does not pass is refused.
pub proof fn law_interface_args(
    interface: Option<&str>,
    r: Result<Vec<String>, NetdiagError>,
)
    requires
        call_ensures(mcp::interface_args, (interface,), r),
    ensures
        interface is None ==> r is Ok && r->Ok_0@.len() == 0,
        interface is Some && passes(interface->0@) ==> r is Ok && r->Ok_0@.len() == 2
            && r->Ok_0@[0]@ == "dev"@ && r->Ok_0@[1]@ == interface->0@,
        interface is Some && !passes(interface->0@) ==> r is Err && r->Err_0 is InvalidParam
            && r->Err_0->name@ == "interface"@,
{
    if r is Ok {
        let args = r->Ok_0;
        assert(args.deep_view().len() == args@.len());
        if interface is Some {
            assert(args.deep_view()[0] == args@[0]@ && args.deep_view()[1] == args@[1]@);
        }
    }
    if interface is Some {
        validator_laws::lemma_words(interface->0@);
    }
}

/// An integer inside its range passes unchanged, and so does an absent one;
/// the refusal of any other names the parameter and the range.
pub proof fn law_bounded(
    value: Option<u64>,
    name: &str,
    min: u64,
    max: u64,
    r: Result<Option<u64>, NetdiagError>,
)
    requires
        call_ensures(mcp::bounded, (value, name, min, max), r),
    ensures
        within(value, min, max) ==> r == Ok::<Option<u64>, NetdiagError>(value),
        !within(value, min, max) ==> {
            &&& r is Err
            &&& r->Err_0 is InvalidParam
            &&& r->Err_0->name@ == name@
            &&& r->Err_0->reason@ == "must be in range ["@ + text::decimal(min as nat) + ", "@
                + text::decimal(max as nat) + "]"@
        },
{
}

/// The digits that stand for an integer read back as the integer, or as the
/// number in its place, and have no zero in front.
pub proof fn law_digits_of(value: Option<u64>, default: nat)
    ensures
        text::all_digits(digits_of(value, default)),
        text::number_value(digits_of(value, default)) == (if value is Some {
            value->0 as nat
        } else {
            default
        }),
        digits_of(value, default).len() > 1 ==> digits_of(value, default)[0] != '0',
{
    text_laws::law_decimal(
        if value is Some {
            value->0 as nat
        } else {
            default
        },
    );
}

} // verus!
