//! The compact tool service.

use mcp_netdiag_rs::commands::CommandRunner;
use mcp_netdiag_rs::errors::NetdiagError;
use mcp_netdiag_rs::json::Json;
use mcp_netdiag_rs::netdiag::commands::{Invocation, ProcessOutcome};
use mcp_netdiag_rs::protocol::{Error, Request, INVALID_PARAMS, METHOD_NOT_FOUND};
use mcp_netdiag_rs::tools::{
    bounded_u64, handle_tools_list, reject_unknown_args, required_arg_str, required_str,
    PendingCall, Step, ToolService,
};

fn req(method: &str, params: Json) -> Request {
    Request {
        jsonrpc: "2.0".to_string(),
        id: Some(Json::Int(1)),
        method: method.to_string(),
        params,
    }
}

fn call(tool: &str, arguments: Json) -> Result<Step, Error> {
    let params = Json::object()
        .with("name", Json::text(tool))
        .with("arguments", arguments);
    ToolService::new().handle(&req("tools/call", params))
}

fn reply(method: &str) -> Json {
    match ToolService::new().handle(&req(method, Json::object())) {
        Ok(Step::Reply(v)) => v,
        other => panic!("expected a reply, got {other:?}"),
    }
}

fn pending(tool: &str, arguments: Json) -> PendingCall {
    match call(tool, arguments) {
        Ok(Step::Run(p)) => p,
        other => panic!("expected a command, got {other:?}"),
    }
}

fn command_line(tool: &str, arguments: Json) -> String {
    let p = pending(tool, arguments);
    assert_eq!(p.tool, tool);
    match p.invocation {
        Invocation::Spawn { program, args, timeout } => {
            assert_eq!(timeout.as_secs(), 5);
            let mut words = vec![program.to_string()];
            words.extend(args);
            words.join(" ")
        }
        other => panic!("expected a program, got {other:?}"),
    }
}

#[test]
fn handles_initialize() {
    let out = reply("initialize");
    assert_eq!(out.get("serverInfo").unwrap().str_at("name"), Some("mcp-netdiag-rs"));
    assert_eq!(out.get("serverInfo").unwrap().str_at("version"), Some("0.1.0"));
    assert_eq!(out.str_at("protocolVersion"), Some("2024-11-05"));
    let tools = out.get("capabilities").unwrap().get("tools").unwrap();
    assert_eq!(tools.bool_at("listChanged"), Some(false));
}

#[test]
fn rejects_unknown_method() {
    let err = ToolService::new()
        .handle(&req("unknown", Json::object()))
        .unwrap_err();
    assert_eq!(err.code, METHOD_NOT_FOUND);
    assert_eq!(err.message, "method not found");
    assert!(err.data.is_none());
}

#[test]
fn accepts_initialized_notification_method() {
    let out = reply("notifications/initialized");
    assert!(matches!(out, Json::Object(entries) if entries.is_empty()));
}

#[test]
fn rejects_unknown_tool_argument() {
    let err = call("net.routes", Json::object().with("unexpected", Json::Bool(true))).unwrap_err();
    assert_eq!(err.code, -32010);
    let data = err.data.unwrap();
    assert_eq!(data.str_at("name"), Some("unexpected"));
    assert_eq!(data.str_at("reason"), Some("unknown argument"));
}

#[test]
fn lists_seven_tools_with_their_schemas() {
    let out = handle_tools_list();
    let items = match out.get("tools") {
        Some(Json::Array(items)) => items,
        other => panic!("expected a list, got {other:?}"),
    };
    let names: Vec<&str> = items.iter().map(|t| t.str_at("name").unwrap()).collect();
    assert_eq!(
        names,
        [
            "net.if_status",
            "net.mac_lookup",
            "net.neighbors",
            "net.routes",
            "net.ping",
            "net.traceroute",
            "net.logs",
        ],
    );
    for t in items {
        let schema = t.get("inputSchema").unwrap();
        assert_eq!(schema.str_at("type"), Some("object"));
        assert_eq!(schema.bool_at("additionalProperties"), Some(false));
    }
    let ping = items[4].get("inputSchema").unwrap();
    assert!(matches!(ping.get("required"), Some(Json::Array(r)) if r[0].as_str() == Some("target")));
    let count = ping.get("properties").unwrap().get("count").unwrap();
    assert_eq!(count.str_at("type"), Some("integer"));
    assert_eq!(count.u64_at("minimum"), Some(1));
    assert_eq!(count.u64_at("maximum"), Some(10));
    let target = ping.get("properties").unwrap().get("target").unwrap();
    assert_eq!(target.str_at("type"), Some("string"));
    let lines = items[6].get("inputSchema").unwrap().get("properties").unwrap().get("lines").unwrap();
    assert_eq!(lines.u64_at("maximum"), Some(200));
    assert!(items[3].get("inputSchema").unwrap().get("properties").is_none());
    assert!(items[0].get("inputSchema").unwrap().get("required").is_none());
    assert_eq!(
        items[0].str_at("description"),
        Some("Show interface state and counters using ip -j -s link show"),
    );
}

#[test]
fn each_tool_runs_its_command() {
    assert_eq!(command_line("net.if_status", Json::object()), "ip -j -s link show");
    assert_eq!(
        command_line("net.if_status", Json::object().with("interface", Json::text("swp3"))),
        "ip -j -s link show dev swp3",
    );
    assert_eq!(
        command_line("net.mac_lookup", Json::object().with("mac", Json::text("aa:bb:cc:dd:ee:ff"))),
        "bridge -j fdb show to aa:bb:cc:dd:ee:ff",
    );
    assert_eq!(
        command_line("net.neighbors", Json::object().with("interface", Json::text("vlan20"))),
        "ip -j neigh show dev vlan20",
    );
    assert_eq!(command_line("net.routes", Json::object()), "ip -j route show table all");
    assert_eq!(
        command_line(
            "net.ping",
            Json::object()
                .with("target", Json::text("10.10.20.1"))
                .with("count", Json::Int(3)),
        ),
        "ping -n -c 3 -W 2 10.10.20.1",
    );
    assert_eq!(
        command_line("net.traceroute", Json::object().with("target", Json::text("h"))),
        "traceroute -n -m 12 h",
    );
    assert_eq!(
        command_line(
            "net.logs",
            Json::object()
                .with("lines", Json::Int(7))
                .with("unit", Json::text("ssh.service")),
        ),
        "journalctl --no-pager --output=short-iso -n 7 -u ssh.service",
    );
    assert_eq!(
        command_line("net.logs", Json::object()),
        "journalctl --no-pager --output=short-iso -n 50",
    );
}

#[test]
fn arguments_can_be_left_out() {
    let params = Json::object().with("name", Json::text("net.routes"));
    let step = ToolService::default().handle(&req("tools/call", params)).unwrap();
    assert!(matches!(step, Step::Run(p) if p.tool == "net.routes"));
}

#[test]
fn parameters_of_the_wrong_shape_are_refused() {
    let err = ToolService::new()
        .handle(&req("tools/call", Json::Null))
        .unwrap_err();
    assert_eq!(err.code, INVALID_PARAMS);
    assert_eq!(err.message, "missing string 'name'");
    let err = call("net.routes", Json::array()).unwrap_err();
    assert_eq!(err.code, INVALID_PARAMS);
    assert_eq!(err.message, "arguments must be a JSON object when provided");
    let err = call("net.bogus", Json::object()).unwrap_err();
    assert_eq!(err.code, INVALID_PARAMS);
    assert_eq!(err.message, "unknown tool");
    assert_eq!(err.data.unwrap().str_at("name"), Some("net.bogus"));
    let err = call("net.ping", Json::object()).unwrap_err();
    assert_eq!(err.code, INVALID_PARAMS);
    assert_eq!(err.message, "missing argument 'target'");
    let err = call("net.mac_lookup", Json::object().with("mac", Json::Int(1))).unwrap_err();
    assert_eq!(err.message, "missing argument 'mac'");
}

#[test]
fn arguments_out_of_range_are_refused() {
    let target = || Json::object().with("target", Json::text("h"));
    let err = call("net.ping", target().with("count", Json::Int(11))).unwrap_err();
    assert_eq!(err.code, -32010);
    assert_eq!(err.message, "invalid parameter 'count': must be in range [1, 10]");
    let err = call("net.ping", target().with("timeout_secs", Json::Int(0))).unwrap_err();
    assert_eq!(err.message, "invalid parameter 'timeout_secs': must be in range [1, 5]");
    let err = call("net.traceroute", target().with("max_hops", Json::Int(31))).unwrap_err();
    assert_eq!(err.message, "invalid parameter 'max_hops': must be in range [1, 30]");
    let err = call("net.logs", Json::object().with("lines", Json::Int(201))).unwrap_err();
    assert_eq!(err.message, "invalid parameter 'lines': must be in range [1, 200]");
    let err = call("net.logs", Json::object().with("unit", Json::text("a b"))).unwrap_err();
    assert_eq!(err.message, "invalid parameter 'interface': contains unsupported characters");
    let err = call("net.ping", Json::object().with("target", Json::text("a;b"))).unwrap_err();
    assert_eq!(err.message, "invalid parameter 'target': contains unsupported characters");
    let err = call("net.mac_lookup", Json::object().with("mac", Json::text("zz"))).unwrap_err();
    assert_eq!(err.code, -32010);
    let err = call("net.neighbors", Json::object().with("interface", Json::text(""))).unwrap_err();
    assert_eq!(
        err.message,
        "invalid parameter 'interface': must be non-empty and <= 128 chars",
    );
}

#[test]
fn optional_arguments_of_another_type_count_as_absent() {
    assert_eq!(
        command_line(
            "net.ping",
            Json::object()
                .with("target", Json::text("h"))
                .with("count", Json::text("5"))
                .with("timeout_secs", Json::Int(-1)),
        ),
        "ping -n -c 3 -W 2 h",
    );
    assert_eq!(
        command_line("net.if_status", Json::object().with("interface", Json::Null)),
        "ip -j -s link show",
    );
}

#[test]
fn the_outcome_becomes_the_answer() {
    let svc = ToolService::new().clone();
    let p = pending("net.routes", Json::object());
    let out = svc
        .finish(
            &p,
            ProcessOutcome::Exited {
                success: false,
                code: Some(1),
                stdout: b"none".to_vec(),
                stderr: Vec::new(),
            },
        )
        .unwrap();
    let items = match out.get("content") {
        Some(Json::Array(items)) => items,
        other => panic!("expected content, got {other:?}"),
    };
    assert_eq!(items.len(), 1);
    assert_eq!(items[0].str_at("type"), Some("json"));
    let envelope = items[0].get("json").unwrap();
    assert_eq!(envelope.str_at("tool"), Some("net.routes"));
    assert_eq!(envelope.str_at("status"), Some("fail"));
    assert_eq!(envelope.str_at("signal"), Some("routing_state_issue"));
    assert_eq!(envelope.str_at("evidence"), Some("none"));

    let err = svc.finish(&p, ProcessOutcome::TimedOut).unwrap_err();
    assert_eq!(err.code, -32012);
    assert_eq!(err.message, "command execution failed: timeout after 5s");
    let err = svc
        .finish(&p, ProcessOutcome::SpawnFailed { error: "x".to_string() })
        .unwrap_err();
    assert_eq!(err.message, "command execution failed: spawn failed: x");
}

#[test]
fn the_compact_runner_knows_seven_commands() {
    let runner = CommandRunner::default();
    for key in ["if_status", "mac_table", "neighbors", "routes", "ping", "traceroute", "logs"] {
        assert!(runner.run(key, &[]).is_ok(), "{key}");
    }
    for key in ["addr", "dmesg", "uptime", "bogus", ""] {
        assert!(
            matches!(runner.run(key, &[]), Err(NetdiagError::CommandNotAllowed { ref command }) if command == key),
            "{key}",
        );
    }
}

#[test]
fn arguments_are_read_one_by_one() {
    let args = Json::object()
        .with("a", Json::text("x"))
        .with("n", Json::Int(4))
        .with("big", Json::Int(18_446_744_073_709_551_616));
    assert_eq!(required_str(&args, "a").unwrap(), "x");
    assert_eq!(required_str(&args, "n").unwrap_err().message, "missing string 'n'");
    assert_eq!(required_arg_str(&args, "a").unwrap(), "x");
    assert_eq!(required_arg_str(&args, "b").unwrap_err().message, "missing argument 'b'");
    assert_eq!(bounded_u64(&args, "n", 1, 4).unwrap(), Some(4));
    assert_eq!(bounded_u64(&args, "big", 1, 4).unwrap(), None);
    assert_eq!(bounded_u64(&args, "n", 1, 3).unwrap_err().code, -32010);
    assert!(reject_unknown_args(&args, &["a", "n", "big"]).is_ok());
    let err = reject_unknown_args(&args, &["a"]).unwrap_err();
    assert_eq!(err.data.unwrap().str_at("name"), Some("n"));
}
