//! The compact tool service: seven tools behind plain JSON-RPC.
//!
//! [`ToolService::handle`] answers a request at once where it can. For a tool
//! call it says what is to be run; the caller runs it and hands what came of it
//! to [`ToolService::finish`], which makes the answer.

use vstd::prelude::*;
use vstd::string::*;

use crate::assoc;
use crate::commands::{validate_interface, validate_ip_or_host, validate_mac, CommandRunner};
use crate::errors::{NetdiagError, NetdiagErrorView};
use crate::json::{Json, JsonView};
use crate::mcp::{append, bounded, number_text, request, ToolRequest, ToolRequestView};
use crate::netdiag::commands::{Invocation, InvocationView, OperationView, ProcessOutcome};
use crate::netdiag::laws;
use crate::netdiag::normalize_tool_result;
use crate::protocol;
use crate::protocol::ErrorView;
use crate::text::{listed, same_text};

verus! {

// ---- steps ----------------------------------------------------------------

/// A tool call that waits for its command.
#[derive(Debug)]
pub struct PendingCall {
    /// The name of the tool.
    pub tool: &'static str,
    /// What is to be run.
    pub invocation: Invocation,
}

/// What a request comes to.
#[derive(Debug)]
pub enum Step {
    /// The answer.
    Reply(Json),
    /// A command to be run before there is an answer.
    Run(PendingCall),
}

/// The mathematical model of a [`Step`].
pub enum StepView {
    Reply(JsonView),
    Run { tool: Seq<char>, invocation: InvocationView },
}

impl View for Step {
    type V = StepView;

    open spec fn view(&self) -> StepView {
        match self {
            Step::Reply(reply) => StepView::Reply(reply@),
            Step::Run(call) => StepView::Run { tool: call.tool@, invocation: call.invocation@ },
        }
    }
}

/// A result on the wire, by its model.
pub open spec fn wired<T: View>(r: Result<T, protocol::Error>) -> Result<T::V, ErrorView> {
    match r {
        Ok(v) => Ok(v@),
        Err(e) => Err(e@),
    }
}

/// The error in a result on the wire, if it is one.
pub open spec fn wire_failure<T>(r: Result<T, protocol::Error>) -> Option<ErrorView> {
    match r {
        Ok(_) => None,
        Err(e) => Some(e@),
    }
}

/// `r`, unless there is an error before it.
pub open spec fn wire_guarded<T>(
    error: Option<NetdiagErrorView>,
    r: Result<T, ErrorView>,
) -> Result<T, ErrorView> {
    match error {
        Some(e) => Err(e.wire()),
        None => r,
    }
}

// ---- reading the arguments ------------------------------------------------

/// The error for a missing member of the parameters.
pub open spec fn missing_string(key: Seq<char>) -> ErrorView {
    ErrorView {
        code: protocol::INVALID_PARAMS as int,
        message: "missing string '"@ + key + "'"@,
        data: None,
    }
}

/// The error for a missing argument.
pub open spec fn missing_argument(key: Seq<char>) -> ErrorView {
    ErrorView {
        code: protocol::INVALID_PARAMS as int,
        message: "missing argument '"@ + key + "'"@,
        data: None,
    }
}

/// The string under `key` of `obj`.
pub fn required_str<'a>(obj: &'a Json, key: &str) -> (r: Result<&'a str, protocol::Error>)
    ensures
        wired(r) == (match obj@.str_at(key@) {
            Some(s) => Ok(s),
            None => Err(missing_string(key@)),
        }),
{
    match obj.str_at(key) {
        Some(s) => Ok(s),
        None => Err(
            protocol::Error::new(
                protocol::INVALID_PARAMS,
                "missing string '".to_owned().concat(key).concat("'").as_str(),
            ),
        ),
    }
}

/// The string argument `key` of `args`.
pub fn required_arg_str<'a>(args: &'a Json, key: &str) -> (r: Result<&'a str, protocol::Error>)
    ensures
        wired(r) == (match args@.str_at(key@) {
            Some(s) => Ok(s),
            None => Err(missing_argument(key@)),
        }),
{
    match args.str_at(key) {
        Some(s) => Ok(s),
        None => Err(
            protocol::Error::new(
                protocol::INVALID_PARAMS,
                "missing argument '".to_owned().concat(key).concat("'").as_str(),
            ),
        ),
    }
}

/// The integer argument `key` of `args`, if it is there, held to the inclusive
/// range `[min, max]`. A value that is no integer in the range of `u64` counts
/// as absent.
pub fn bounded_u64(args: &Json, key: &str, min: u64, max: u64) -> (r: Result<
    Option<u64>,
    protocol::Error,
>)
    ensures
        match r {
            Ok(v) => v == args@.u64_at(key@) && crate::mcp::range_error(
                args@.u64_at(key@),
                key@,
                min,
                max,
            ) is None,
            Err(e) => match crate::mcp::range_error(args@.u64_at(key@), key@, min, max) {
                Some(error) => e@ == error.wire(),
                None => false,
            },
        },
{
    match bounded(args.u64_at(key), key, min, max) {
        Ok(v) => Ok(v),
        Err(e) => Err(protocol::Error::from(e)),
    }
}

/// The first key of `entries` that is not in `allowed`.
pub open spec fn first_unknown(
    entries: Seq<(Seq<char>, JsonView)>,
    allowed: Seq<Seq<char>>,
) -> Option<Seq<char>>
    decreases entries.len(),
{
    if entries.len() == 0 {
        None
    } else if allowed.contains(entries[0].0) {
        first_unknown(entries.drop_first(), allowed)
    } else {
        Some(entries[0].0)
    }
}

/// The error for arguments among which there is one that the tool does not
/// know.
pub open spec fn unknown_error(args: JsonView, allowed: Seq<Seq<char>>) -> Option<
    NetdiagErrorView,
> {
    match args {
        JsonView::Object(entries) => match first_unknown(entries, allowed) {
            Some(name) => Some(
                NetdiagErrorView::InvalidParam { name, reason: "unknown argument"@ },
            ),
            None => None,
        },
        _ => None,
    }
}

/// Refuses arguments whose key is not in `allowed`.
pub fn reject_unknown_args(args: &Json, allowed: &[&'static str]) -> (r: Result<
    (),
    protocol::Error,
>)
    ensures
        wire_failure(r) == (match unknown_error(args@, allowed.deep_view()) {
            Some(error) => Some(error.wire()),
            None => None,
        }),
{
    match args {
        Json::Object(entries) => {
            let ghost model = crate::json::entry_models(entries@);
            assert(args@->Object_0 =~= model);
            let mut i: usize = 0;
            assert(model.skip(0) =~= model);
            while i < entries.len()
                invariant
                    i <= entries@.len(),
                    model == crate::json::entry_models(entries@),
                    args@ == JsonView::Object(model),
                    first_unknown(model, allowed.deep_view()) == first_unknown(
                        model.skip(i as int),
                        allowed.deep_view(),
                    ),
                decreases entries@.len() - i,
            {
                let key: &str = entries[i].0.as_str();
                assert(model.skip(i as int)[0] == model[i as int]);
                let known: bool = listed(allowed, key);
                proof {
                    if known {
                        let k = choose|k: int|
                            0 <= k < allowed@.len() && #[trigger] allowed@[k]@ == key@;
                        assert(allowed.deep_view()[k] == key@);
                    } else if allowed.deep_view().contains(key@) {
                        let k = choose|k: int|
                            0 <= k < allowed.deep_view().len() && allowed.deep_view()[k] == key@;
                        assert(allowed@[k]@ == key@);
                    }
                }
                if !known {
                    let error: NetdiagError = NetdiagError::InvalidParam {
                        name: key.to_owned(),
                        reason: "unknown argument".to_owned(),
                    };
                    return Err(protocol::Error::from(error));
                }
                assert(model.skip(i as int).drop_first() =~= model.skip(i + 1));
                i = i + 1;
            }
            Ok(())
        },
        _ => Ok(()),
    }
}

// ---- what each tool asks for ----------------------------------------------

/// The request of a tool that can be restricted to an interface.
pub open spec fn interface_call(tool: Seq<char>, key: Seq<char>, args: JsonView) -> Result<
    ToolRequestView,
    ErrorView,
> {
    let interface = args.str_at("interface"@);
    wire_guarded(
        unknown_error(args, seq!["interface"@]),
        wire_guarded(
            match interface {
                Some(name) => crate::commands::token_error("interface"@, name),
                None => None,
            },
            Ok(crate::mcp::request_view(tool, key, crate::mcp::interface_extra(interface))),
        ),
    )
}

fn scoped_call(tool: &'static str, key: &'static str, args: &Json) -> (r: Result<
    ToolRequest,
    protocol::Error,
>)
    ensures
        wired(r) == interface_call(tool@, key@, args@),
{
    let allowed: &'static [&'static str] = &["interface"];
    assert(allowed.deep_view() =~= seq!["interface"@]);
    match reject_unknown_args(args, allowed) {
        Err(e) => {
            return Err(e);
        },
        Ok(()) => {},
    }
    let mut extra: Vec<String> = Vec::new();
    assert(extra.deep_view() =~= Seq::<Seq<char>>::empty());
    match args.str_at("interface") {
        Some(name) => {
            match validate_interface(name) {
                Err(e) => {
                    return Err(protocol::Error::from(e));
                },
                Ok(()) => {},
            }
            append(&mut extra, "dev");
            append(&mut extra, name);
            assert(extra.deep_view() =~= seq!["dev"@, name@]);
        },
        None => {},
    }
    Ok(request(tool, key, extra))
}

/// The request of `net.mac_lookup`.
pub open spec fn mac_call(args: JsonView) -> Result<ToolRequestView, ErrorView> {
    wire_guarded(
        unknown_error(args, seq!["mac"@]),
        match args.str_at("mac"@) {
            None => Err(missing_argument("mac"@)),
            Some(mac) => wire_guarded(
                crate::netdiag::validators::mac_error(mac),
                Ok(crate::mcp::request_view("net.mac_lookup"@, "mac_table"@, seq!["to"@, mac])),
            ),
        },
    )
}

fn mac_lookup(args: &Json) -> (r: Result<ToolRequest, protocol::Error>)
    ensures
        wired(r) == mac_call(args@),
{
    let allowed: &'static [&'static str] = &["mac"];
    assert(allowed.deep_view() =~= seq!["mac"@]);
    match reject_unknown_args(args, allowed) {
        Err(e) => {
            return Err(e);
        },
        Ok(()) => {},
    }
    let mac: &str = match required_arg_str(args, "mac") {
        Err(e) => {
            return Err(e);
        },
        Ok(s) => s,
    };
    match validate_mac(mac) {
        Err(e) => {
            return Err(protocol::Error::from(e));
        },
        Ok(()) => {},
    }
    let mut extra: Vec<String> = Vec::new();
    append(&mut extra, "to");
    append(&mut extra, mac);
    assert(extra.deep_view() =~= seq!["to"@, mac@]);
    Ok(request("net.mac_lookup", "mac_table", extra))
}

/// The request of `net.routes`.
pub open spec fn routes_call(args: JsonView) -> Result<ToolRequestView, ErrorView> {
    wire_guarded(
        unknown_error(args, Seq::empty()),
        Ok(crate::mcp::request_view("net.routes"@, "routes"@, Seq::empty())),
    )
}

fn routes(args: &Json) -> (r: Result<ToolRequest, protocol::Error>)
    ensures
        wired(r) == routes_call(args@),
{
    let allowed: &'static [&'static str] = &[];
    assert(allowed.deep_view() =~= Seq::<Seq<char>>::empty());
    match reject_unknown_args(args, allowed) {
        Err(e) => {
            return Err(e);
        },
        Ok(()) => {},
    }
    let extra: Vec<String> = Vec::new();
    assert(extra.deep_view() =~= Seq::<Seq<char>>::empty());
    Ok(request("net.routes", "routes", extra))
}

/// The request of `net.ping`. The target is looked at first, then the number
/// of echo requests, then the wait.
pub open spec fn ping_call(args: JsonView) -> Result<ToolRequestView, ErrorView> {
    let count = args.u64_at("count"@);
    let wait = args.u64_at("timeout_secs"@);
    wire_guarded(
        unknown_error(args, seq!["target"@, "count"@, "timeout_secs"@]),
        match args.str_at("target"@) {
            None => Err(missing_argument("target"@)),
            Some(target) => wire_guarded(
                crate::commands::token_error("target"@, target),
                wire_guarded(
                    crate::mcp::range_error(count, "count"@, 1, 10),
                    wire_guarded(
                        crate::mcp::range_error(wait, "timeout_secs"@, 1, 5),
                        Ok(
                            crate::mcp::request_view(
                                "net.ping"@,
                                "ping"@,
                                seq![
                                    "-c"@,
                                    crate::mcp::number(count, 3),
                                    "-W"@,
                                    crate::mcp::number(wait, 2),
                                    target,
                                ],
                            ),
                        ),
                    ),
                ),
            ),
        },
    )
}

fn ping(args: &Json) -> (r: Result<ToolRequest, protocol::Error>)
    ensures
        wired(r) == ping_call(args@),
{
    let allowed: &'static [&'static str] = &["target", "count", "timeout_secs"];
    assert(allowed.deep_view() =~= seq!["target"@, "count"@, "timeout_secs"@]);
    match reject_unknown_args(args, allowed) {
        Err(e) => {
            return Err(e);
        },
        Ok(()) => {},
    }
    let target: &str = match required_arg_str(args, "target") {
        Err(e) => {
            return Err(e);
        },
        Ok(s) => s,
    };
    match validate_ip_or_host(target) {
        Err(e) => {
            return Err(protocol::Error::from(e));
        },
        Ok(()) => {},
    }
    let count: Option<u64> = match bounded_u64(args, "count", 1, 10) {
        Err(e) => {
            return Err(e);
        },
        Ok(v) => v,
    };
    let wait: Option<u64> = match bounded_u64(args, "timeout_secs", 1, 5) {
        Err(e) => {
            return Err(e);
        },
        Ok(v) => v,
    };
    let mut extra: Vec<String> = Vec::new();
    append(&mut extra, "-c");
    append(&mut extra, number_text(count, 3).as_str());
    append(&mut extra, "-W");
    append(&mut extra, number_text(wait, 2).as_str());
    append(&mut extra, target);
    assert(extra.deep_view() =~= seq![
        "-c"@,
        crate::mcp::number(count, 3),
        "-W"@,
        crate::mcp::number(wait, 2),
        target@,
    ]);
    Ok(request("net.ping", "ping", extra))
}

/// The request of `net.traceroute`.
pub open spec fn traceroute_call(args: JsonView) -> Result<ToolRequestView, ErrorView> {
    let hops = args.u64_at("max_hops"@);
    wire_guarded(
        unknown_error(args, seq!["target"@, "max_hops"@]),
        match args.str_at("target"@) {
            None => Err(missing_argument("target"@)),
            Some(target) => wire_guarded(
                crate::commands::token_error("target"@, target),
                wire_guarded(
                    crate::mcp::range_error(hops, "max_hops"@, 1, 30),
                    Ok(
                        crate::mcp::request_view(
                            "net.traceroute"@,
                            "traceroute"@,
                            seq!["-m"@, crate::mcp::number(hops, 12), target],
                        ),
                    ),
                ),
            ),
        },
    )
}

fn traceroute(args: &Json) -> (r: Result<ToolRequest, protocol::Error>)
    ensures
        wired(r) == traceroute_call(args@),
{
    let allowed: &'static [&'static str] = &["target", "max_hops"];
    assert(allowed.deep_view() =~= seq!["target"@, "max_hops"@]);
    match reject_unknown_args(args, allowed) {
        Err(e) => {
            return Err(e);
        },
        Ok(()) => {},
    }
    let target: &str = match required_arg_str(args, "target") {
        Err(e) => {
            return Err(e);
        },
        Ok(s) => s,
    };
    match validate_ip_or_host(target) {
        Err(e) => {
            return Err(protocol::Error::from(e));
        },
        Ok(()) => {},
    }
    let hops: Option<u64> = match bounded_u64(args, "max_hops", 1, 30) {
        Err(e) => {
            return Err(e);
        },
        Ok(v) => v,
    };
    let mut extra: Vec<String> = Vec::new();
    append(&mut extra, "-m");
    append(&mut extra, number_text(hops, 12).as_str());
    append(&mut extra, target);
    assert(extra.deep_view() =~= seq!["-m"@, crate::mcp::number(hops, 12), target@]);
    Ok(request("net.traceroute", "traceroute", extra))
}

/// The request of `net.logs`. The number of lines is looked at first; a unit
/// is held to the rules for an interface name.
pub open spec fn logs_call(args: JsonView) -> Result<ToolRequestView, ErrorView> {
    let lines = args.u64_at("lines"@);
    wire_guarded(
        unknown_error(args, seq!["lines"@, "unit"@]),
        wire_guarded(
            crate::mcp::range_error(lines, "lines"@, 1, 200),
            match args.str_at("unit"@) {
                Some(unit) => wire_guarded(
                    crate::commands::token_error("interface"@, unit),
                    Ok(
                        crate::mcp::request_view(
                            "net.logs"@,
                            "logs"@,
                            seq!["-n"@, crate::mcp::number(lines, 50), "-u"@, unit],
                        ),
                    ),
                ),
                None => Ok(
                    crate::mcp::request_view(
                        "net.logs"@,
                        "logs"@,
                        seq!["-n"@, crate::mcp::number(lines, 50)],
                    ),
                ),
            },
        ),
    )
}

fn logs(args: &Json) -> (r: Result<ToolRequest, protocol::Error>)
    ensures
        wired(r) == logs_call(args@),
{
    let allowed: &'static [&'static str] = &["lines", "unit"];
    assert(allowed.deep_view() =~= seq!["lines"@, "unit"@]);
    match reject_unknown_args(args, allowed) {
        Err(e) => {
            return Err(e);
        },
        Ok(()) => {},
    }
    let lines: Option<u64> = match bounded_u64(args, "lines", 1, 200) {
        Err(e) => {
            return Err(e);
        },
        Ok(v) => v,
    };
    let mut extra: Vec<String> = Vec::new();
    append(&mut extra, "-n");
    append(&mut extra, number_text(lines, 50).as_str());
    match args.str_at("unit") {
        Some(unit) => {
            match validate_interface(unit) {
                Err(e) => {
                    return Err(protocol::Error::from(e));
                },
                Ok(()) => {},
            }
            append(&mut extra, "-u");
            append(&mut extra, unit);
            assert(extra.deep_view() =~= seq![
                "-n"@,
                crate::mcp::number(lines, 50),
                "-u"@,
                unit@,
            ]);
        },
        None => {
            assert(extra.deep_view() =~= seq!["-n"@, crate::mcp::number(lines, 50)]);
        },
    }
    Ok(request("net.logs", "logs", extra))
}

/// The request of the tool `name` with the arguments `args`.
pub open spec fn call_request(name: Seq<char>, args: JsonView) -> Result<
    ToolRequestView,
    ErrorView,
> {
    if name == "net.if_status"@ {
        interface_call("net.if_status"@, "if_status"@, args)
    } else if name == "net.mac_lookup"@ {
        mac_call(args)
    } else if name == "net.neighbors"@ {
        interface_call("net.neighbors"@, "neighbors"@, args)
    } else if name == "net.routes"@ {
        routes_call(args)
    } else if name == "net.ping"@ {
        ping_call(args)
    } else if name == "net.traceroute"@ {
        traceroute_call(args)
    } else if name == "net.logs"@ {
        logs_call(args)
    } else {
        Err(
            ErrorView {
                code: protocol::INVALID_PARAMS as int,
                message: "unknown tool"@,
                data: Some(JsonView::object().with("name"@, JsonView::Str(name))),
            },
        )
    }
}

fn tool_request(name: &str, args: &Json) -> (r: Result<ToolRequest, protocol::Error>)
    ensures
        wired(r) == call_request(name@, args@),
{
    if same_text(name, "net.if_status") {
        scoped_call("net.if_status", "if_status", args)
    } else if same_text(name, "net.mac_lookup") {
        mac_lookup(args)
    } else if same_text(name, "net.neighbors") {
        scoped_call("net.neighbors", "neighbors", args)
    } else if same_text(name, "net.routes") {
        routes(args)
    } else if same_text(name, "net.ping") {
        ping(args)
    } else if same_text(name, "net.traceroute") {
        traceroute(args)
    } else if same_text(name, "net.logs") {
        logs(args)
    } else {
        Err(
            protocol::Error::with_data(
                protocol::INVALID_PARAMS,
                "unknown tool",
                Json::object().with("name", Json::text(name)),
            ),
        )
    }
}

// ---- the fixed replies ----------------------------------------------------

/// The reply to `initialize`.
pub open spec fn initialize_reply() -> JsonView {
    JsonView::object().with("protocolVersion"@, JsonView::Str("2024-11-05"@)).with(
        "serverInfo"@,
        JsonView::object().with("name"@, JsonView::Str("mcp-netdiag-rs"@)).with(
            "version"@,
            JsonView::Str("0.1.0"@),
        ),
    ).with(
        "capabilities"@,
        JsonView::object().with(
            "tools"@,
            JsonView::object().with("listChanged"@, JsonView::Bool(false)),
        ),
    )
}

/// Makes the reply to `initialize`.
pub fn handle_initialize() -> (reply: Json)
    ensures
        reply@ == initialize_reply(),
{
    Json::object().with("protocolVersion", Json::text("2024-11-05")).with(
        "serverInfo",
        Json::object().with("name", Json::text("mcp-netdiag-rs")).with(
            "version",
            Json::text("0.1.0"),
        ),
    ).with(
        "capabilities",
        Json::object().with("tools", Json::object().with("listChanged", Json::Bool(false))),
    )
}

/// The schema of a string.
pub open spec fn string_schema() -> JsonView {
    JsonView::object().with("type"@, JsonView::Str("string"@))
}

fn string_property() -> (schema: Json)
    ensures
        schema@ == string_schema(),
{
    Json::object().with("type", Json::text("string"))
}

/// The schema of an integer in `[min, max]`.
pub open spec fn integer_schema(min: int, max: int) -> JsonView {
    JsonView::object().with("type"@, JsonView::Str("integer"@)).with(
        "minimum"@,
        JsonView::Int(min),
    ).with("maximum"@, JsonView::Int(max))
}

fn integer_property(min: i128, max: i128) -> (schema: Json)
    ensures
        schema@ == integer_schema(min as int, max as int),
{
    Json::object().with("type", Json::text("integer")).with("minimum", Json::Int(min)).with(
        "maximum",
        Json::Int(max),
    )
}

/// The schema of the input of a tool without arguments.
pub open spec fn bare_schema() -> JsonView {
    JsonView::object().with("type"@, JsonView::Str("object"@)).with(
        "additionalProperties"@,
        JsonView::Bool(false),
    )
}

fn bare_input() -> (schema: Json)
    ensures
        schema@ == bare_schema(),
{
    Json::object().with("type", Json::text("object")).with(
        "additionalProperties",
        Json::Bool(false),
    )
}

/// The schema of the input of a tool whose arguments can all be left out.
pub open spec fn open_schema(properties: JsonView) -> JsonView {
    bare_schema().with("properties"@, properties)
}

fn open_input(properties: Json) -> (schema: Json)
    ensures
        schema@ == open_schema(properties@),
{
    bare_input().with("properties", properties)
}

/// The schema of the input of a tool that needs the argument `required`.
pub open spec fn required_schema(required: Seq<char>, properties: JsonView) -> JsonView {
    JsonView::object().with("type"@, JsonView::Str("object"@)).with(
        "required"@,
        JsonView::array().with_item(JsonView::Str(required)),
    ).with("additionalProperties"@, JsonView::Bool(false)).with("properties"@, properties)
}

fn required_input(required: &str, properties: Json) -> (schema: Json)
    ensures
        schema@ == required_schema(required@, properties@),
{
    Json::object().with("type", Json::text("object")).with(
        "required",
        Json::array().with_item(Json::text(required)),
    ).with("additionalProperties", Json::Bool(false)).with("properties", properties)
}

/// A tool in the list.
pub open spec fn tool_entry(
    name: Seq<char>,
    description: Seq<char>,
    schema: JsonView,
) -> JsonView {
    JsonView::object().with("name"@, JsonView::Str(name)).with(
        "description"@,
        JsonView::Str(description),
    ).with("inputSchema"@, schema)
}

fn listed_tool(name: &str, description: &str, schema: Json) -> (entry: Json)
    ensures
        entry@ == tool_entry(name@, description@, schema@),
{
    Json::object().with("name", Json::text(name)).with("description", Json::text(description)).with(
        "inputSchema",
        schema,
    )
}

/// The arguments of a tool that can be restricted to an interface.
pub open spec fn interface_properties() -> JsonView {
    JsonView::object().with("interface"@, string_schema())
}

/// The arguments of `net.mac_lookup`.
pub open spec fn mac_properties() -> JsonView {
    JsonView::object().with("mac"@, string_schema())
}

/// The arguments of `net.ping`.
pub open spec fn ping_properties() -> JsonView {
    JsonView::object().with("target"@, string_schema()).with(
        "count"@,
        integer_schema(1, 10),
    ).with("timeout_secs"@, integer_schema(1, 5))
}

/// The arguments of `net.traceroute`.
pub open spec fn traceroute_properties() -> JsonView {
    JsonView::object().with("target"@, string_schema()).with("max_hops"@, integer_schema(1, 30))
}

/// The arguments of `net.logs`.
pub open spec fn logs_properties() -> JsonView {
    JsonView::object().with("lines"@, integer_schema(1, 200)).with("unit"@, string_schema())
}

/// The seven tools, each with the schema of its input.
pub open spec fn tool_list() -> JsonView {
    JsonView::array().with_item(
        tool_entry(
            "net.if_status"@,
            "Show interface state and counters using ip -j -s link show"@,
            open_schema(interface_properties()),
        ),
    ).with_item(
        tool_entry(
            "net.mac_lookup"@,
            "Lookup a MAC in bridge FDB"@,
            required_schema("mac"@, mac_properties()),
        ),
    ).with_item(
        tool_entry(
            "net.neighbors"@,
            "Show ARP/neighbor state"@,
            open_schema(interface_properties()),
        ),
    ).with_item(
        tool_entry("net.routes"@, "Show routing table state"@, bare_schema()),
    ).with_item(
        tool_entry(
            "net.ping"@,
            "Bounded ping check"@,
            required_schema("target"@, ping_properties()),
        ),
    ).with_item(
        tool_entry(
            "net.traceroute"@,
            "Bounded traceroute check"@,
            required_schema("target"@, traceroute_properties()),
        ),
    ).with_item(
        tool_entry(
            "net.logs"@,
            "Extract recent bounded system logs"@,
            open_schema(logs_properties()),
        ),
    )
}

/// Makes the reply to `tools/list`.
pub fn handle_tools_list() -> (reply: Json)
    ensures
        reply@ == JsonView::object().with("tools"@, tool_list()),
{
    let if_status: Json = listed_tool(
        "net.if_status",
        "Show interface state and counters using ip -j -s link show",
        open_input(Json::object().with("interface", string_property())),
    );
    let mac_lookup: Json = listed_tool(
        "net.mac_lookup",
        "Lookup a MAC in bridge FDB",
        required_input("mac", Json::object().with("mac", string_property())),
    );
    let neighbors: Json = listed_tool(
        "net.neighbors",
        "Show ARP/neighbor state",
        open_input(Json::object().with("interface", string_property())),
    );
    let routes: Json = listed_tool("net.routes", "Show routing table state", bare_input());
    let ping_properties: Json = Json::object().with("target", string_property()).with(
        "count",
        integer_property(1, 10),
    ).with("timeout_secs", integer_property(1, 5));
    let ping: Json = listed_tool(
        "net.ping",
        "Bounded ping check",
        required_input("target", ping_properties),
    );
    let traceroute_properties: Json = Json::object().with("target", string_property()).with(
        "max_hops",
        integer_property(1, 30),
    );
    let traceroute: Json = listed_tool(
        "net.traceroute",
        "Bounded traceroute check",
        required_input("target", traceroute_properties),
    );
    let logs_properties: Json = Json::object().with("lines", integer_property(1, 200)).with(
        "unit",
        string_property(),
    );
    let logs: Json = listed_tool(
        "net.logs",
        "Extract recent bounded system logs",
        open_input(logs_properties),
    );
    let list: Json = Json::array().with_item(if_status).with_item(mac_lookup).with_item(
        neighbors,
    ).with_item(routes).with_item(ping).with_item(traceroute).with_item(logs);
    Json::object().with("tools", list)
}

// ---- the service ----------------------------------------------------------

/// The arguments in the parameters of a tool call; an empty object where there
/// are none.
pub open spec fn call_arguments(params: JsonView) -> JsonView {
    match params.get("arguments"@) {
        Some(v) => v,
        None => JsonView::object(),
    }
}

/// What a tool call comes to.
pub open spec fn tools_call(params: JsonView) -> Result<StepView, ErrorView> {
    match params.str_at("name"@) {
        None => Err(missing_string("name"@)),
        Some(name) => {
            let args = call_arguments(params);
            if args !is Object {
                Err(
                    ErrorView {
                        code: protocol::INVALID_PARAMS as int,
                        message: "arguments must be a JSON object when provided"@,
                        data: None,
                    },
                )
            } else {
                match call_request(name, args) {
                    Err(e) => Err(e),
                    Ok(request) => match crate::commands::decision(request.key, request.extra) {
                        Err(e) => Err(e.wire()),
                        Ok(invocation) => Ok(StepView::Run { tool: request.tool, invocation }),
                    },
                }
            }
        },
    }
}

/// What a request comes to.
pub open spec fn handled(method: Seq<char>, params: JsonView) -> Result<StepView, ErrorView> {
    if method == "initialize"@ {
        Ok(StepView::Reply(initialize_reply()))
    } else if method == "notifications/initialized"@ {
        Ok(StepView::Reply(JsonView::object()))
    } else if method == "tools/list"@ {
        Ok(StepView::Reply(JsonView::object().with("tools"@, tool_list())))
    } else if method == "tools/call"@ {
        tools_call(params)
    } else {
        Err(
            ErrorView {
                code: protocol::METHOD_NOT_FOUND as int,
                message: "method not found"@,
                data: None,
            },
        )
    }
}

/// The answer to a tool call whose command came to `raw`.
pub open spec fn call_reply(tool: Seq<char>, raw: Result<JsonView, NetdiagErrorView>) -> Result<
    JsonView,
    ErrorView,
> {
    match raw {
        Err(e) => Err(e.wire()),
        Ok(v) => Ok(
            JsonView::object().with(
                "content"@,
                JsonView::array().with_item(
                    JsonView::object().with("type"@, JsonView::Str("json"@)).with(
                        "json"@,
                        crate::netdiag::envelope(tool, v),
                    ),
                ),
            ),
        ),
    }
}

/// The compact tool service.
#[derive(Debug, Clone)]
pub struct ToolService {
    runner: CommandRunner,
}

impl Default for ToolService {
    fn default() -> (service: ToolService)
        ensures
            service.table() == crate::commands::command_table(),
    {
        ToolService::new()
    }
}

impl ToolService {
    /// The commands of this service.
    pub closed spec fn table(self) -> Seq<(Seq<char>, OperationView)> {
        self.runner.table()
    }

    /// A service for the seven tools.
    pub fn new() -> (service: ToolService)
        ensures
            service.table() == crate::commands::command_table(),
    {
        ToolService { runner: CommandRunner::new() }
    }

    /// Answers a request, or says what is to be run before it can be answered.
    pub fn handle(&self, req: &protocol::Request) -> (r: Result<Step, protocol::Error>)
        ensures
            wired(r) == handled(req.method@, req.params@),
    {
        let method: &str = req.method.as_str();
        if same_text(method, "initialize") {
            Ok(Step::Reply(handle_initialize()))
        } else if same_text(method, "notifications/initialized") {
            Ok(Step::Reply(Json::object()))
        } else if same_text(method, "tools/list") {
            Ok(Step::Reply(handle_tools_list()))
        } else if same_text(method, "tools/call") {
            self.handle_tools_call(&req.params)
        } else {
            Err(protocol::Error::new(protocol::METHOD_NOT_FOUND, "method not found"))
        }
    }

    /// Says what is to be run for a tool call.
    pub fn handle_tools_call(&self, params: &Json) -> (r: Result<Step, protocol::Error>)
        ensures
            wired(r) == tools_call(params@),
    {
        let name: &str = match required_str(params, "name") {
            Err(e) => {
                return Err(e);
            },
            Ok(s) => s,
        };
        let none: Json = Json::object();
        let args: &Json = match params.get("arguments") {
            Some(v) => v,
            None => &none,
        };
        match args {
            Json::Object(_) => {},
            _ => {
                return Err(
                    protocol::Error::new(
                        protocol::INVALID_PARAMS,
                        "arguments must be a JSON object when provided",
                    ),
                );
            },
        }
        let request: ToolRequest = match tool_request(name, args) {
            Err(e) => {
                return Err(e);
            },
            Ok(request) => request,
        };
        match self.runner.run(request.key, request.extra.as_slice()) {
            Err(e) => Err(protocol::Error::from(e)),
            Ok(invocation) => Ok(Step::Run(PendingCall { tool: request.tool, invocation })),
        }
    }

    /// Answers a tool call, given what came of its command.
    pub fn finish(&self, call: &PendingCall, outcome: ProcessOutcome) -> (r: Result<
        Json,
        protocol::Error,
    >)
        ensures
            wired(r) == call_reply(
                call.tool@,
                crate::netdiag::commands::process_result(outcome),
            ),
    {
        match self.runner.run_process(outcome) {
            Err(e) => Err(protocol::Error::from(e)),
            Ok(raw) => Ok(
                Json::object().with(
                    "content",
                    Json::array().with_item(
                        Json::object().with("type", Json::text("json")).with(
                            "json",
                            normalize_tool_result(call.tool, raw),
                        ),
                    ),
                ),
            ),
        }
    }
}

// ---- what holds of the service as a whole ---------------------------------

// The place of a command of the service in the built-in table.
spec fn builtin_place(i: int) -> int {
    if i <= 3 {
        i
    } else if i <= 5 {
        i + 4
    } else {
        17
    }
}

/// Each of the seven commands is a built-in command, with the same program and
/// the same arguments.
pub proof fn law_commands_are_built_in(i: int)
    requires
        0 <= i < crate::commands::command_table().len(),
    ensures
        crate::netdiag::commands::builtin_table().contains(
            crate::commands::command_table()[i],
        ),
        assoc::lookup(
            crate::commands::command_table(),
            crate::commands::command_table()[i].0,
        ) == Some(crate::commands::command_table()[i].1),
{
    let own = crate::commands::command_table();
    let built_in = crate::netdiag::commands::builtin_table();
    assert(own[0] == built_in[0] && own[1] == built_in[1] && own[2] == built_in[2]);
    assert(own[3] == built_in[3] && own[4] == built_in[8] && own[5] == built_in[9]);
    assert(own[6] == built_in[17]);
    assert(own[i] == built_in[builtin_place(i)]);
    assert forall|a: int, b: int| 0 <= a < b < own.len() implies (#[trigger] own[a]).0 != (
    #[trigger] own[b]).0 by {
        laws::law_builtin_keys_distinct(builtin_place(a), builtin_place(b));
        assert(own[a] == built_in[builtin_place(a)] && own[b] == built_in[builtin_place(b)]);
    }
    assoc::lemma_lookup_distinct(own, i);
}

/// A tool call whose arguments are accepted is never refused afterwards: it
/// comes to running a program under the time limit.
pub proof fn law_accepted_call_runs(params: JsonView, name: Seq<char>)
    requires
        params.str_at("name"@) == Some(name),
        call_arguments(params) is Object,
        call_request(name, call_arguments(params)) is Ok,
    ensures
        match tools_call(params) {
            Ok(StepView::Run { tool, invocation: InvocationView::Spawn { timeout, .. } }) => tool
                == name && timeout == crate::netdiag::commands::time_limit(),
            _ => false,
        },
{
    law_commands_are_built_in(0);
    law_commands_are_built_in(1);
    law_commands_are_built_in(2);
    law_commands_are_built_in(3);
    law_commands_are_built_in(4);
    law_commands_are_built_in(5);
    law_commands_are_built_in(6);
}

/// A request is refused under one of three codes: -32601 for an unknown
/// method, -32602 for parameters of the wrong shape, an unknown tool or a
/// missing argument, and -32010 for an argument that is unknown, malformed or
/// out of range.
pub proof fn law_refusals_have_pinned_codes(method: Seq<char>, params: JsonView)
    ensures
        match handled(method, params) {
            Ok(_) => true,
            Err(e) => e.code == -32601 || e.code == -32602 || e.code == -32010,
        },
{
    law_commands_are_built_in(0);
    law_commands_are_built_in(1);
    law_commands_are_built_in(2);
    law_commands_are_built_in(3);
    law_commands_are_built_in(4);
    law_commands_are_built_in(5);
    law_commands_are_built_in(6);
}

/// Arguments pass if and only if the tool knows every one of them.
pub proof fn law_unknown_arguments_refused(
    entries: Seq<(Seq<char>, JsonView)>,
    allowed: Seq<Seq<char>>,
)
    ensures
        unknown_error(JsonView::Object(entries), allowed) is None <==> forall|i: int|
            0 <= i < entries.len() ==> allowed.contains(#[trigger] entries[i].0),
    decreases entries.len(),
{
    if entries.len() > 0 {
        let rest = entries.drop_first();
        law_unknown_arguments_refused(rest, allowed);
        assert(forall|i: int| 0 <= i < rest.len() ==> rest[i] == #[trigger] entries[i + 1]);
        if unknown_error(JsonView::Object(entries), allowed) is None {
            assert forall|i: int| 0 <= i < entries.len() implies allowed.contains(
                #[trigger] entries[i].0,
            ) by {
                if i > 0 {
                    assert(allowed.contains(rest[i - 1].0));
                }
            }
        }
    }
}

} // verus!
