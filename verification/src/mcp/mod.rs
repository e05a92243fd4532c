//! The tools as callers see them.
//!
//! Each tool is a method of [`NetdiagServer`] that turns its parameters into a
//! [`ToolRequest`]: the command key and the validated arguments to append to
//! the pinned ones. The caller has the request carried out and hands what came
//! of it to [`ToolRequest::complete`], which makes the answer.
//!
//! The server keeps nothing between calls.

pub mod call_laws;
pub mod catalog;
pub mod journal;
pub mod laws;
pub mod params;
pub mod timestamps;
pub mod tool_laws;

use vstd::prelude::*;
use vstd::string::*;

use crate::errors;
use crate::errors::{NetdiagError, NetdiagErrorView};
use crate::json::{Json, JsonView};
use crate::mcp::journal::JournalEntry;
use crate::mcp::params::{
    InterfaceParams, LogsParams, MacLookupParams, PingParams, RequiredInterfaceParams,
    ServiceStatusParams, TargetParams, TcpdumpParams, TracerouteParams,
};
use crate::netdiag::normalize_tool_result;
use crate::netdiag::validators;
use crate::netdiag::validators::{
    validate_interface, validate_ip_or_host, validate_mac, validate_unit,
};
use crate::protocol;
use crate::text;
use crate::text::decimal_text;

verus! {

// ---- requests and answers -------------------------------------------------

/// What a tool asks the runner for.
#[derive(Debug)]
pub struct ToolRequest {
    /// The name of the tool.
    pub tool: &'static str,
    /// The key of the command.
    pub key: &'static str,
    /// The validated arguments behind the pinned ones.
    pub extra: Vec<String>,
}

/// The mathematical model of a [`ToolRequest`].
pub struct ToolRequestView {
    pub tool: Seq<char>,
    pub key: Seq<char>,
    pub extra: Seq<Seq<char>>,
}

impl View for ToolRequest {
    type V = ToolRequestView;

    open spec fn view(&self) -> ToolRequestView {
        ToolRequestView { tool: self.tool@, key: self.key@, extra: self.extra.deep_view() }
    }
}

/// The model of a request.
pub open spec fn request_view(
    tool: Seq<char>,
    key: Seq<char>,
    extra: Seq<Seq<char>>,
) -> ToolRequestView {
    ToolRequestView { tool, key, extra }
}

/// Builds a request.
pub(crate) fn request(tool: &'static str, key: &'static str, extra: Vec<String>) -> (r: ToolRequest)
    ensures
        r@ == request_view(tool@, key@, extra.deep_view()),
{
    ToolRequest { tool, key, extra }
}

/// What a tool call returns.
#[derive(Debug)]
pub struct CallToolResult {
    /// The envelope of the diagnostic.
    pub structured_content: Option<Json>,
}

impl View for CallToolResult {
    type V = Option<JsonView>;

    open spec fn view(&self) -> Option<JsonView> {
        match self.structured_content {
            Some(v) => Some(v@),
            None => None,
        }
    }
}

impl CallToolResult {
    /// A result with structured content.
    pub fn structured(value: Json) -> (r: CallToolResult)
        ensures
            r@ == Some(value@),
    {
        CallToolResult { structured_content: Some(value) }
    }
}

/// The answer to a call, by its model.
pub open spec fn answer(r: Result<CallToolResult, protocol::Error>) -> Result<
    Option<JsonView>,
    protocol::ErrorView,
> {
    match r {
        Ok(result) => Ok(result@),
        Err(e) => Err(e@),
    }
}

/// The answer for `tool` when its command came to `raw`: the envelope of the
/// raw result, or the error under its pinned code.
pub open spec fn completion(tool: Seq<char>, raw: Result<JsonView, NetdiagErrorView>) -> Result<
    Option<JsonView>,
    protocol::ErrorView,
> {
    match raw {
        Ok(v) => Ok(Some(crate::netdiag::envelope(tool, v))),
        Err(e) => Err(e.wire()),
    }
}

impl ToolRequest {
    /// Answers the call, given what came of the command.
    pub fn complete(&self, raw: Result<Json, NetdiagError>) -> (r: Result<
        CallToolResult,
        protocol::Error,
    >)
        ensures
            answer(r) == completion(self@.tool, errors::outcome(raw)),
    {
        match raw {
            Ok(v) => Ok(CallToolResult::structured(normalize_tool_result(self.tool, v))),
            Err(e) => Err(protocol::Error::from(e)),
        }
    }
}

// ---- arguments ------------------------------------------------------------

/// The error for an optional integer outside `[min, max]`; `None` if it is
/// inside or absent.
pub open spec fn range_error(value: Option<u64>, name: Seq<char>, min: u64, max: u64) -> Option<
    NetdiagErrorView,
> {
    match value {
        Some(v) => if min <= v <= max {
            None
        } else {
            Some(
                NetdiagErrorView::InvalidParam {
                    name,
                    reason: "must be in range ["@ + text::decimal(min as nat) + ", "@
                        + text::decimal(max as nat) + "]"@,
                },
            )
        },
        None => None,
    }
}

/// Enforces the inclusive range `[min, max]` on an optional integer. An absent
/// one passes.
pub fn bounded(value: Option<u64>, name: &str, min: u64, max: u64) -> (r: Result<
    Option<u64>,
    NetdiagError,
>)
    ensures
        errors::failure(r) == range_error(value, name@, min, max),
        r is Ok ==> r->Ok_0 == value,
{
    match value {
        Some(v) => if v < min || v > max {
            Err(
                NetdiagError::InvalidParam {
                    name: name.to_owned(),
                    reason: "must be in range [".to_owned().concat(
                        decimal_text(min).as_str(),
                    ).concat(", ").concat(decimal_text(max).as_str()).concat("]"),
                },
            )
        } else {
            Ok(Some(v))
        },
        None => Ok(None),
    }
}

/// An optional integer in decimal, or `default` in its place.
pub open spec fn number(value: Option<u64>, default: u64) -> Seq<char> {
    text::decimal(
        match value {
            Some(v) => v as nat,
            None => default as nat,
        },
    )
}

/// Writes an optional integer, or `default` in its place.
pub(crate) fn number_text(value: Option<u64>, default: u64) -> (s: String)
    ensures
        s@ == number(value, default),
{
    match value {
        Some(v) => decimal_text(v),
        None => decimal_text(default),
    }
}

/// Appends an argument.
pub(crate) fn append(args: &mut Vec<String>, arg: &str)
    ensures
        final(args).deep_view() == old(args).deep_view().push(arg@),
{
    let ghost before = args.deep_view();
    args.push(arg.to_owned());
    assert(args.deep_view() =~= before.push(arg@));
}

/// The arguments that restrict a command to an interface; none where no
/// interface is named.
pub open spec fn interface_extra(interface: Option<Seq<char>>) -> Seq<Seq<char>> {
    match interface {
        Some(name) => seq!["dev"@, name],
        None => Seq::empty(),
    }
}

/// The error for an optional interface name.
pub open spec fn optional_interface_error(interface: Option<Seq<char>>) -> Option<
    NetdiagErrorView,
> {
    match interface {
        Some(name) => validators::interface_error(name),
        None => None,
    }
}

/// The error for an optional unit name.
pub open spec fn optional_unit_error(unit: Option<Seq<char>>) -> Option<NetdiagErrorView> {
    match unit {
        Some(name) => validators::unit_error(name),
        None => None,
    }
}

/// Validates an optional interface name and builds the pair `dev <interface>`.
pub fn interface_args(interface: Option<&str>) -> (r: Result<Vec<String>, NetdiagError>)
    ensures
        ({
            let name = match interface {
                Some(s) => Some(s@),
                None => None,
            };
            &&& errors::failure(r) == optional_interface_error(name)
            &&& r is Ok ==> r->Ok_0.deep_view() == interface_extra(name)
        }),
{
    let mut args: Vec<String> = Vec::new();
    assert(args.deep_view() =~= Seq::<Seq<char>>::empty());
    match interface {
        Some(name) => {
            match validate_interface(name) {
                Err(e) => {
                    return Err(e);
                },
                Ok(()) => {},
            }
            append(&mut args, "dev");
            append(&mut args, name);
            assert(args.deep_view() =~= seq!["dev"@, name@]);
        },
        None => {},
    }
    Ok(args)
}

// ---- what each tool asks for ----------------------------------------------

/// The request of a tool without parameters.
pub open spec fn fixed_request(tool: Seq<char>, key: Seq<char>) -> Result<
    ToolRequestView,
    NetdiagErrorView,
> {
    Ok(request_view(tool, key, Seq::empty()))
}

fn unscoped_request(tool: &'static str, key: &'static str) -> (r: Result<ToolRequest, NetdiagError>)
    ensures
        errors::outcome(r) == fixed_request(tool@, key@),
{
    let extra: Vec<String> = Vec::new();
    assert(extra.deep_view() =~= Seq::<Seq<char>>::empty());
    Ok(request(tool, key, extra))
}

/// The request of a tool that can be restricted to an interface.
pub open spec fn interface_request(
    tool: Seq<char>,
    key: Seq<char>,
    interface: Option<Seq<char>>,
) -> Result<ToolRequestView, NetdiagErrorView> {
    errors::guarded(
        optional_interface_error(interface),
        Ok(request_view(tool, key, interface_extra(interface))),
    )
}

fn scoped_request(tool: &'static str, key: &'static str, params: InterfaceParams) -> (r: Result<
    ToolRequest,
    NetdiagError,
>)
    ensures
        errors::outcome(r) == interface_request(
            tool@,
            key@,
            params::text_of(params.interface),
        ),
{
    let interface: Option<&str> = match &params.interface {
        Some(name) => Some(name.as_str()),
        None => None,
    };
    match interface_args(interface) {
        Ok(extra) => Ok(request(tool, key, extra)),
        Err(e) => Err(e),
    }
}

/// The request of `net.mac_lookup`.
pub open spec fn mac_request(mac: Seq<char>) -> Result<ToolRequestView, NetdiagErrorView> {
    errors::guarded(
        validators::mac_error(mac),
        Ok(request_view("net.mac_lookup"@, "mac_table"@, seq!["to"@, mac])),
    )
}

/// The request of `net.route_get`.
pub open spec fn route_get_request(target: Seq<char>) -> Result<
    ToolRequestView,
    NetdiagErrorView,
> {
    errors::guarded(
        validators::target_error(target),
        Ok(request_view("net.route_get"@, "route_get"@, seq![target])),
    )
}

/// The request of `net.ethtool`.
pub open spec fn ethtool_request(interface: Seq<char>) -> Result<
    ToolRequestView,
    NetdiagErrorView,
> {
    errors::guarded(
        validators::interface_error(interface),
        Ok(request_view("net.ethtool"@, "ethtool"@, seq![interface])),
    )
}

/// The request of `net.ping`. The target is looked at first, then the number
/// of echo requests, then the wait.
pub open spec fn ping_request(
    target: Seq<char>,
    count: Option<u64>,
    timeout_secs: Option<u64>,
) -> Result<ToolRequestView, NetdiagErrorView> {
    errors::guarded(
        validators::target_error(target),
        errors::guarded(
            range_error(count, "count"@, 1, 10),
            errors::guarded(
                range_error(timeout_secs, "timeout_secs"@, 1, 5),
                Ok(
                    request_view(
                        "net.ping"@,
                        "ping"@,
                        seq!["-c"@, number(count, 3), "-W"@, number(timeout_secs, 2), target],
                    ),
                ),
            ),
        ),
    )
}

/// The request of `net.traceroute`.
pub open spec fn traceroute_request(target: Seq<char>, max_hops: Option<u64>) -> Result<
    ToolRequestView,
    NetdiagErrorView,
> {
    errors::guarded(
        validators::target_error(target),
        errors::guarded(
            range_error(max_hops, "max_hops"@, 1, 30),
            Ok(
                request_view(
                    "net.traceroute"@,
                    "traceroute"@,
                    seq!["-m"@, number(max_hops, 12), target],
                ),
            ),
        ),
    )
}

/// The request of `net.tcpdump_sample`.
pub open spec fn tcpdump_request(interface: Seq<char>, count: Option<u64>) -> Result<
    ToolRequestView,
    NetdiagErrorView,
> {
    errors::guarded(
        validators::interface_error(interface),
        errors::guarded(
            range_error(count, "count"@, 1, 50),
            Ok(
                request_view(
                    "net.tcpdump_sample"@,
                    "tcpdump_sample"@,
                    seq!["-i"@, interface, "-c"@, number(count, 10)],
                ),
            ),
        ),
    )
}

/// The request of `net.logs`. The number of lines is looked at first.
pub open spec fn logs_request(lines: Option<u64>, unit: Option<Seq<char>>) -> Result<
    ToolRequestView,
    NetdiagErrorView,
> {
    errors::guarded(
        range_error(lines, "lines"@, 1, 200),
        errors::guarded(
            optional_unit_error(unit),
            Ok(
                request_view(
                    "net.logs"@,
                    "logs"@,
                    match unit {
                        Some(name) => seq!["-n"@, number(lines, 50), "-u"@, name],
                        None => seq!["-n"@, number(lines, 50)],
                    },
                ),
            ),
        ),
    )
}

/// The request of `sys.service_status`.
pub open spec fn service_status_request(unit: Seq<char>, lines: Option<u64>) -> Result<
    ToolRequestView,
    NetdiagErrorView,
> {
    errors::guarded(
        validators::unit_error(unit),
        errors::guarded(
            range_error(lines, "lines"@, 1, 200),
            Ok(
                request_view(
                    "sys.service_status"@,
                    "service_status"@,
                    seq!["--lines"@, number(lines, 50), unit],
                ),
            ),
        ),
    )
}

// ---- the server -----------------------------------------------------------

/// The server: the runner of commands and, if it could be opened, the audit
/// journal. Without a journal it works on and leaves no rows.
#[derive(Debug)]
pub struct NetdiagServer<R, J> {
    runner: R,
    journal: Option<J>,
}

impl<R, J> NetdiagServer<R, J> {
    /// What carries out the commands.
    pub closed spec fn spec_runner(self) -> R {
        self.runner
    }

    /// The audit journal.
    pub closed spec fn spec_journal(self) -> Option<J> {
        self.journal
    }

    /// A server with `runner` and, if there is one, `journal`.
    pub fn new(runner: R, journal: Option<J>) -> (server: NetdiagServer<R, J>)
        ensures
            server.spec_runner() == runner,
            server.spec_journal() == journal,
    {
        NetdiagServer { runner, journal }
    }

    /// What carries out the commands.
    pub fn runner(&self) -> (runner: &R)
        ensures
            *runner == self.spec_runner(),
    {
        &self.runner
    }

    /// The audit journal.
    pub fn journal(&self) -> (journal: Option<&J>)
        ensures
            match journal {
                Some(j) => self.spec_journal() == Some(*j),
                None => self.spec_journal() is None,
            },
    {
        self.journal.as_ref()
    }

    /// The row to write before a call is dispatched, if there is a journal.
    pub fn call_started(&self, tool: &str, arguments: Option<&Json>) -> (row: Option<JournalEntry>)
        ensures
            row is Some <==> self.spec_journal() is Some,
            row is Some ==> journal::is_row(
                row->0@,
                tool@,
                JournalEntry::DIR_CALL@,
                journal::call_summary_view(
                    match arguments {
                        Some(v) => v@,
                        None => JsonView::Null,
                    },
                ),
            ),
    {
        if self.journal.is_none() {
            return None;
        }
        let summary: Json = match arguments {
            Some(v) => journal::call_summary(v),
            None => journal::call_summary(&Json::Null),
        };
        Some(JournalEntry::new(tool, JournalEntry::DIR_CALL, summary))
    }

    /// The row to write after a call has ended, if there is a journal.
    pub fn call_finished(
        &self,
        tool: &str,
        result: &Result<CallToolResult, protocol::Error>,
    ) -> (row: Option<JournalEntry>)
        ensures
            row is Some <==> self.spec_journal() is Some,
            row is Some ==> journal::is_row(
                row->0@,
                tool@,
                JournalEntry::DIR_RESULT@,
                journal::result_summary_view(answer(*result)),
            ),
    {
        if self.journal.is_none() {
            return None;
        }
        let summary: Json = match result {
            Ok(r) => journal::result_summary(Ok(r)),
            Err(e) => journal::result_summary(Err(e)),
        };
        Some(JournalEntry::new(tool, JournalEntry::DIR_RESULT, summary))
    }

    /// Interface state and counters.
    pub fn if_status(&self, params: InterfaceParams) -> (r: Result<ToolRequest, NetdiagError>)
        ensures
            errors::outcome(r) == interface_request(
                "net.if_status"@,
                "if_status"@,
                params::text_of(params.interface),
            ),
    {
        scoped_request("net.if_status", "if_status", params)
    }

    /// The ARP and neighbor table.
    pub fn neighbors(&self, params: InterfaceParams) -> (r: Result<ToolRequest, NetdiagError>)
        ensures
            errors::outcome(r) == interface_request(
                "net.neighbors"@,
                "neighbors"@,
                params::text_of(params.interface),
            ),
    {
        scoped_request("net.neighbors", "neighbors", params)
    }

    /// Interface addresses.
    pub fn addr(&self, params: InterfaceParams) -> (r: Result<ToolRequest, NetdiagError>)
        ensures
            errors::outcome(r) == interface_request(
                "net.addr"@,
                "addr"@,
                params::text_of(params.interface),
            ),
    {
        scoped_request("net.addr", "addr", params)
    }

    /// Detailed link state.
    pub fn link_detail(&self, params: InterfaceParams) -> (r: Result<ToolRequest, NetdiagError>)
        ensures
            errors::outcome(r) == interface_request(
                "net.link_detail"@,
                "link_detail"@,
                params::text_of(params.interface),
            ),
    {
        scoped_request("net.link_detail", "link_detail", params)
    }

    /// The bridge forwarding entry of a MAC address.
    pub fn mac_lookup(&self, params: MacLookupParams) -> (r: Result<ToolRequest, NetdiagError>)
        ensures
            errors::outcome(r) == mac_request(params.mac@),
    {
        match validate_mac(params.mac.as_str()) {
            Err(e) => {
                return Err(e);
            },
            Ok(()) => {},
        }
        let mut extra: Vec<String> = Vec::new();
        append(&mut extra, "to");
        append(&mut extra, params.mac.as_str());
        assert(extra.deep_view() =~= seq!["to"@, params.mac@]);
        Ok(request("net.mac_lookup", "mac_table", extra))
    }

    /// The route that the kernel picks for a target.
    pub fn route_get(&self, params: TargetParams) -> (r: Result<ToolRequest, NetdiagError>)
        ensures
            errors::outcome(r) == route_get_request(params.target@),
    {
        match validate_ip_or_host(params.target.as_str()) {
            Err(e) => {
                return Err(e);
            },
            Ok(()) => {},
        }
        let mut extra: Vec<String> = Vec::new();
        append(&mut extra, params.target.as_str());
        assert(extra.deep_view() =~= seq![params.target@]);
        Ok(request("net.route_get", "route_get", extra))
    }

    /// Driver and link details of an interface.
    pub fn ethtool(&self, params: RequiredInterfaceParams) -> (r: Result<ToolRequest, NetdiagError>)
        ensures
            errors::outcome(r) == ethtool_request(params.interface@),
    {
        match validate_interface(params.interface.as_str()) {
            Err(e) => {
                return Err(e);
            },
            Ok(()) => {},
        }
        let mut extra: Vec<String> = Vec::new();
        append(&mut extra, params.interface.as_str());
        assert(extra.deep_view() =~= seq![params.interface@]);
        Ok(request("net.ethtool", "ethtool", extra))
    }

    /// A bounded connectivity check.
    pub fn ping(&self, params: PingParams) -> (r: Result<ToolRequest, NetdiagError>)
        ensures
            errors::outcome(r) == ping_request(
                params.target@,
                params.count,
                params.timeout_secs,
            ),
    {
        match validate_ip_or_host(params.target.as_str()) {
            Err(e) => {
                return Err(e);
            },
            Ok(()) => {},
        }
        match bounded(params.count, "count", 1, 10) {
            Err(e) => {
                return Err(e);
            },
            Ok(_) => {},
        }
        match bounded(params.timeout_secs, "timeout_secs", 1, 5) {
            Err(e) => {
                return Err(e);
            },
            Ok(_) => {},
        }
        let mut extra: Vec<String> = Vec::new();
        append(&mut extra, "-c");
        append(&mut extra, number_text(params.count, 3).as_str());
        append(&mut extra, "-W");
        append(&mut extra, number_text(params.timeout_secs, 2).as_str());
        append(&mut extra, params.target.as_str());
        assert(extra.deep_view() =~= seq![
            "-c"@,
            number(params.count, 3),
            "-W"@,
            number(params.timeout_secs, 2),
            params.target@,
        ]);
        Ok(request("net.ping", "ping", extra))
    }

    /// A bounded path diagnosis.
    pub fn traceroute(&self, params: TracerouteParams) -> (r: Result<ToolRequest, NetdiagError>)
        ensures
            errors::outcome(r) == traceroute_request(params.target@, params.max_hops),
    {
        match validate_ip_or_host(params.target.as_str()) {
            Err(e) => {
                return Err(e);
            },
            Ok(()) => {},
        }
        match bounded(params.max_hops, "max_hops", 1, 30) {
            Err(e) => {
                return Err(e);
            },
            Ok(_) => {},
        }
        let mut extra: Vec<String> = Vec::new();
        append(&mut extra, "-m");
        append(&mut extra, number_text(params.max_hops, 12).as_str());
        append(&mut extra, params.target.as_str());
        assert(extra.deep_view() =~= seq!["-m"@, number(params.max_hops, 12), params.target@]);
        Ok(request("net.traceroute", "traceroute", extra))
    }

    /// A bounded packet sample.
    pub fn tcpdump_sample(&self, params: TcpdumpParams) -> (r: Result<ToolRequest, NetdiagError>)
        ensures
            errors::outcome(r) == tcpdump_request(params.interface@, params.count),
    {
        match validate_interface(params.interface.as_str()) {
            Err(e) => {
                return Err(e);
            },
            Ok(()) => {},
        }
        match bounded(params.count, "count", 1, 50) {
            Err(e) => {
                return Err(e);
            },
            Ok(_) => {},
        }
        let mut extra: Vec<String> = Vec::new();
        append(&mut extra, "-i");
        append(&mut extra, params.interface.as_str());
        append(&mut extra, "-c");
        append(&mut extra, number_text(params.count, 10).as_str());
        assert(extra.deep_view() =~= seq![
            "-i"@,
            params.interface@,
            "-c"@,
            number(params.count, 10),
        ]);
        Ok(request("net.tcpdump_sample", "tcpdump_sample", extra))
    }

    /// Recent system logs.
    pub fn logs(&self, params: LogsParams) -> (r: Result<ToolRequest, NetdiagError>)
        ensures
            errors::outcome(r) == logs_request(
                params.lines,
                params::text_of(params.unit),
            ),
    {
        match bounded(params.lines, "lines", 1, 200) {
            Err(e) => {
                return Err(e);
            },
            Ok(_) => {},
        }
        let mut extra: Vec<String> = Vec::new();
        append(&mut extra, "-n");
        append(&mut extra, number_text(params.lines, 50).as_str());
        match &params.unit {
            Some(unit) => {
                match validate_unit(unit.as_str()) {
                    Err(e) => {
                        return Err(e);
                    },
                    Ok(()) => {},
                }
                append(&mut extra, "-u");
                append(&mut extra, unit.as_str());
                assert(extra.deep_view() =~= seq!["-n"@, number(params.lines, 50), "-u"@, unit@]);
            },
            None => {
                assert(extra.deep_view() =~= seq!["-n"@, number(params.lines, 50)]);
            },
        }
        Ok(request("net.logs", "logs", extra))
    }

    /// The status of one systemd unit.
    pub fn service_status(&self, params: ServiceStatusParams) -> (r: Result<
        ToolRequest,
        NetdiagError,
    >)
        ensures
            errors::outcome(r) == service_status_request(params.unit@, params.lines),
    {
        match validate_unit(params.unit.as_str()) {
            Err(e) => {
                return Err(e);
            },
            Ok(()) => {},
        }
        match bounded(params.lines, "lines", 1, 200) {
            Err(e) => {
                return Err(e);
            },
            Ok(_) => {},
        }
        let mut extra: Vec<String> = Vec::new();
        append(&mut extra, "--lines");
        append(&mut extra, number_text(params.lines, 50).as_str());
        append(&mut extra, params.unit.as_str());
        assert(extra.deep_view() =~= seq!["--lines"@, number(params.lines, 50), params.unit@]);
        Ok(request("sys.service_status", "service_status", extra))
    }

    /// The routing table across all tables.
    pub fn routes(&self) -> (r: Result<ToolRequest, NetdiagError>)
        ensures
            errors::outcome(r) == fixed_request("net.routes"@, "routes"@),
    {
        unscoped_request("net.routes", "routes")
    }

    /// The policy routing rules.
    pub fn rules(&self) -> (r: Result<ToolRequest, NetdiagError>)
        ensures
            errors::outcome(r) == fixed_request("net.rules"@, "rules"@),
    {
        unscoped_request("net.rules", "rules")
    }

    /// The TCP and UDP sockets, without process details.
    pub fn sockets(&self) -> (r: Result<ToolRequest, NetdiagError>)
        ensures
            errors::outcome(r) == fixed_request("net.sockets"@, "sockets"@),
    {
        unscoped_request("net.sockets", "sockets")
    }

    /// The state of systemd-resolved.
    pub fn dns_status(&self) -> (r: Result<ToolRequest, NetdiagError>)
        ensures
            errors::outcome(r) == fixed_request("net.dns_status"@, "dns_status"@),
    {
        unscoped_request("net.dns_status", "dns_status")
    }

    /// The resolver configuration file.
    pub fn resolv_conf(&self) -> (r: Result<ToolRequest, NetdiagError>)
        ensures
            errors::outcome(r) == fixed_request("net.resolv_conf"@, "resolv_conf"@),
    {
        unscoped_request("net.resolv_conf", "resolv_conf")
    }

    /// The nftables ruleset.
    pub fn firewall(&self) -> (r: Result<ToolRequest, NetdiagError>)
        ensures
            errors::outcome(r) == fixed_request("net.firewall"@, "firewall"@),
    {
        unscoped_request("net.firewall", "firewall")
    }

    /// The connection tracking table.
    pub fn conntrack(&self) -> (r: Result<ToolRequest, NetdiagError>)
        ensures
            errors::outcome(r) == fixed_request("net.conntrack"@, "conntrack"@),
    {
        unscoped_request("net.conntrack", "conntrack")
    }

    /// The failed systemd units.
    pub fn failed_units(&self) -> (r: Result<ToolRequest, NetdiagError>)
        ensures
            errors::outcome(r) == fixed_request("sys.failed_units"@, "failed_units"@),
    {
        unscoped_request("sys.failed_units", "failed_units")
    }

    /// The kernel ring buffer.
    pub fn dmesg(&self) -> (r: Result<ToolRequest, NetdiagError>)
        ensures
            errors::outcome(r) == fixed_request("sys.dmesg"@, "dmesg"@),
    {
        unscoped_request("sys.dmesg", "dmesg")
    }

    /// Uptime and load.
    pub fn uptime(&self) -> (r: Result<ToolRequest, NetdiagError>)
        ensures
            errors::outcome(r) == fixed_request("sys.uptime"@, "uptime"@),
    {
        unscoped_request("sys.uptime", "uptime")
    }

    /// The memory summary.
    pub fn memory(&self) -> (r: Result<ToolRequest, NetdiagError>)
        ensures
            errors::outcome(r) == fixed_request("sys.memory"@, "memory"@),
    {
        unscoped_request("sys.memory", "memory")
    }

    /// The filesystem usage.
    pub fn filesystems(&self) -> (r: Result<ToolRequest, NetdiagError>)
        ensures
            errors::outcome(r) == fixed_request("sys.filesystems"@, "filesystems"@),
    {
        unscoped_request("sys.filesystems", "filesystems")
    }
}

} // verus!
