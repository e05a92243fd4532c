//! The commands of the compact tool service.
//!
//! The service in [`crate::tools`] knows seven commands. None of them needs an
//! opt-in, and the operator cannot narrow them. Their tokens are held to the
//! same length and characters as elsewhere, but may begin with `-`, which a
//! command may read as one of its options: the service is for trusted callers.

use std::time::Duration;

use vstd::prelude::*;
use vstd::string::*;
use vstd::utf8::*;

use crate::config;
use crate::errors::{NetdiagError, NetdiagErrorView};
use crate::json::Json;
use crate::netdiag;
use crate::netdiag::commands::{
    arguments, finish_process, Invocation, InvocationView, OperationView, ProcessOutcome,
};
use crate::netdiag::validators;
use crate::text::{clip_bytes, same_text, to_chars};

verus! {

/// A pinned program invocation.
#[derive(Debug, Clone, Copy)]
pub struct CommandSpec {
    pub program: &'static str,
    pub base_args: &'static [&'static str],
}

impl View for CommandSpec {
    type V = OperationView;

    open spec fn view(&self) -> OperationView {
        netdiag::commands::process_view(self.program@, self.base_args.deep_view())
    }
}

/// The seven commands: every key with its pinned invocation.
pub open spec fn command_table() -> Seq<(Seq<char>, OperationView)> {
    seq![
        (
            "if_status"@,
            netdiag::commands::process_view(
                "ip"@,
                seq!["-j"@, "-s"@, "link"@, "show"@],
            ),
        ),
        ("mac_table"@, netdiag::commands::process_view("bridge"@, seq!["-j"@, "fdb"@, "show"@])),
        ("neighbors"@, netdiag::commands::process_view("ip"@, seq!["-j"@, "neigh"@, "show"@])),
        (
            "routes"@,
            netdiag::commands::process_view(
                "ip"@,
                seq!["-j"@, "route"@, "show"@, "table"@, "all"@],
            ),
        ),
        ("ping"@, netdiag::commands::process_view("ping"@, seq!["-n"@])),
        ("traceroute"@, netdiag::commands::process_view("traceroute"@, seq!["-n"@])),
        (
            "logs"@,
            netdiag::commands::process_view(
                "journalctl"@,
                seq!["--no-pager"@, "--output=short-iso"@],
            ),
        ),
    ]
}

/// The model of a table of commands.
pub open spec fn table_view(table: Seq<(&'static str, CommandSpec)>) -> Seq<
    (Seq<char>, OperationView),
> {
    Seq::new(table.len(), |i: int| (table[i].0@, table[i].1@))
}

/// What is done for `key` with `extra` behind the pinned arguments.
pub open spec fn decision(key: Seq<char>, extra: Seq<Seq<char>>) -> Result<
    InvocationView,
    NetdiagErrorView,
> {
    match crate::assoc::lookup(command_table(), key) {
        None => Err(NetdiagErrorView::CommandNotAllowed { command: key }),
        Some(op) => netdiag::commands::invocation_of(op, extra),
    }
}

/// Resolves command keys to pinned invocations, and outcomes to results.
#[derive(Debug)]
pub struct CommandRunner {
    allowlist: Vec<(&'static str, CommandSpec)>,
    timeout: Duration,
}

impl CommandRunner {
    /// The runner holds the seven commands and the configured time limit.
    #[verifier::type_invariant]
    spec fn well_formed(self) -> bool {
        &&& table_view(self.allowlist@) == command_table()
        &&& self.timeout == netdiag::commands::time_limit()
    }

    /// A runner for the seven commands.
    pub fn new() -> (runner: CommandRunner)
        ensures
            runner.table() == command_table(),
    {
        let mut allowlist: Vec<(&'static str, CommandSpec)> = Vec::new();
        let args: &'static [&'static str] = &["-j", "-s", "link", "show"];
        assert(args.deep_view() =~= seq!["-j"@, "-s"@, "link"@, "show"@]);
        allowlist.push(("if_status", CommandSpec { program: "ip", base_args: args }));
        let args: &'static [&'static str] = &["-j", "fdb", "show"];
        assert(args.deep_view() =~= seq!["-j"@, "fdb"@, "show"@]);
        allowlist.push(("mac_table", CommandSpec { program: "bridge", base_args: args }));
        let args: &'static [&'static str] = &["-j", "neigh", "show"];
        assert(args.deep_view() =~= seq!["-j"@, "neigh"@, "show"@]);
        allowlist.push(("neighbors", CommandSpec { program: "ip", base_args: args }));
        let args: &'static [&'static str] = &["-j", "route", "show", "table", "all"];
        assert(args.deep_view() =~= seq!["-j"@, "route"@, "show"@, "table"@, "all"@]);
        allowlist.push(("routes", CommandSpec { program: "ip", base_args: args }));
        let args: &'static [&'static str] = &["-n"];
        assert(args.deep_view() =~= seq!["-n"@]);
        allowlist.push(("ping", CommandSpec { program: "ping", base_args: args }));
        let args: &'static [&'static str] = &["-n"];
        assert(args.deep_view() =~= seq!["-n"@]);
        allowlist.push(("traceroute", CommandSpec { program: "traceroute", base_args: args }));
        let args: &'static [&'static str] = &["--no-pager", "--output=short-iso"];
        assert(args.deep_view() =~= seq!["--no-pager"@, "--output=short-iso"@]);
        allowlist.push(("logs", CommandSpec { program: "journalctl", base_args: args }));
        assert(table_view(allowlist@) =~= command_table());
        CommandRunner { allowlist, timeout: config::default_timeout() }
    }

    /// The commands of this runner.
    pub closed spec fn table(self) -> Seq<(Seq<char>, OperationView)> {
        table_view(self.allowlist@)
    }

    /// Decides what is done for `key` with the arguments `extra_args`.
    pub fn run(&self, key: &str, extra_args: &[String]) -> (r: Result<Invocation, NetdiagError>)
        ensures
            crate::errors::outcome(r) == decision(key@, extra_args.deep_view()),
    {
        proof {
            use_type_invariant(self);
        }
        let ghost table = table_view(self.allowlist@);
        let mut i: usize = 0;
        assert(table.skip(0) =~= table);
        while i < self.allowlist.len()
            invariant
                i <= self.allowlist@.len(),
                table == table_view(self.allowlist@),
                table == command_table(),
                crate::assoc::lookup(table, key@) == crate::assoc::lookup(
                    table.skip(i as int),
                    key@,
                ),
            decreases self.allowlist@.len() - i,
        {
            let entry: (&'static str, CommandSpec) = self.allowlist[i];
            assert(table.skip(i as int)[0] == table[i as int]);
            if same_text(entry.0, key) {
                return Ok(self.run_spec(&entry.1, extra_args));
            }
            assert(table.skip(i as int).drop_first() =~= table.skip(i + 1));
            i = i + 1;
        }
        Err(NetdiagError::CommandNotAllowed { command: key.to_owned() })
    }

    /// Pins down how `spec` is carried out with `extra_args` appended.
    pub fn run_spec(&self, spec: &CommandSpec, extra_args: &[String]) -> (r: Invocation)
        ensures
            r@ == (InvocationView::Spawn {
                program: spec.program@,
                args: spec.base_args.deep_view() + extra_args.deep_view(),
                timeout: netdiag::commands::time_limit(),
            }),
    {
        proof {
            use_type_invariant(self);
        }
        Invocation::Spawn {
            program: spec.program,
            args: arguments(spec.base_args, extra_args),
            timeout: self.timeout,
        }
    }

    /// The result of a program that was to be started.
    pub fn run_process(&self, outcome: ProcessOutcome) -> (r: Result<Json, NetdiagError>)
        ensures
            crate::errors::outcome(r) == netdiag::commands::process_result(outcome),
            match outcome {
                ProcessOutcome::Exited { stdout, stderr, .. } => {
                    &&& r is Ok
                    &&& netdiag::commands::shows(
                        r->Ok_0@.str_at("stdout"@),
                        stdout@,
                        config::MAX_STDOUT_BYTES as nat,
                    )
                    &&& netdiag::commands::shows(
                        r->Ok_0@.str_at("stderr"@),
                        stderr@,
                        config::MAX_STDERR_BYTES as nat,
                    )
                },
                _ => r is Err,
            },
    {
        proof {
            use_type_invariant(self);
        }
        finish_process(self.timeout, outcome)
    }
}

impl Clone for CommandRunner {
    fn clone(&self) -> (runner: CommandRunner)
        ensures
            runner.table() == self.table(),
    {
        proof {
            use_type_invariant(self);
        }
        CommandRunner::new()
    }
}

impl Default for CommandRunner {
    fn default() -> (runner: CommandRunner)
        ensures
            runner.table() == command_table(),
    {
        CommandRunner::new()
    }
}

/// Clips raw output to `max_bytes` bytes, decodes it, and clips it to
/// `max_lines` lines.
pub fn bounded_text(bytes: &[u8], max_bytes: usize, max_lines: usize) -> (s: String)
    ensures
        s@ == netdiag::commands::bounded(bytes@, max_bytes as nat, max_lines as nat),
{
    netdiag::commands::bounded_text(bytes, max_bytes, max_lines)
}

// ---- validators -----------------------------------------------------------

/// What is wrong with `value` as a token; `None` if it is accepted.
pub open spec fn token_flaw(value: Seq<char>) -> Option<Seq<char>> {
    if value.len() == 0 || encode_utf8(value).len() > validators::MAX_TOKEN_BYTES {
        Some("must be non-empty and <= 128 chars"@)
    } else if exists|i: int|
        0 <= i < value.len() && !validators::is_token_char(#[trigger] value[i]) {
        Some("contains unsupported characters"@)
    } else {
        None
    }
}

/// The error for `value` as the token parameter `name`; `None` if it is
/// accepted.
pub open spec fn token_error(name: Seq<char>, value: Seq<char>) -> Option<NetdiagErrorView> {
    match token_flaw(value) {
        Some(reason) => Some(NetdiagErrorView::InvalidParam { name, reason }),
        None => None,
    }
}

/// Validates an interface name.
pub fn validate_interface(value: &str) -> (r: Result<(), NetdiagError>)
    ensures
        crate::errors::failure(r) == token_error("interface"@, value@),
{
    validate_token("interface", value)
}

/// Validates an IP address or host name.
pub fn validate_ip_or_host(value: &str) -> (r: Result<(), NetdiagError>)
    ensures
        crate::errors::failure(r) == token_error("target"@, value@),
{
    validate_token("target", value)
}

/// Validates a MAC address.
pub fn validate_mac(value: &str) -> (r: Result<(), NetdiagError>)
    ensures
        crate::errors::failure(r) == validators::mac_error(value@),
{
    validators::validate_mac(value)
}

/// Validates the token parameter `name`.
pub fn validate_token(name: &str, value: &str) -> (r: Result<(), NetdiagError>)
    ensures
        crate::errors::failure(r) == token_error(name@, value@),
{
    let chars: Vec<char> = to_chars(value);
    if chars.len() == 0 || !clip_bytes(value, validators::MAX_TOKEN_BYTES).1 {
        return Err(
            NetdiagError::InvalidParam {
                name: name.to_owned(),
                reason: "must be non-empty and <= 128 chars".to_owned(),
            },
        );
    }
    let mut i: usize = 0;
    while i < chars.len()
        invariant
            chars@ == value@,
            0 < chars@.len(),
            encode_utf8(value@).len() <= validators::MAX_TOKEN_BYTES,
            i <= chars@.len(),
            forall|k: int| 0 <= k < i ==> validators::is_token_char(#[trigger] value@[k]),
        decreases chars@.len() - i,
    {
        if !validators::char_is_token_char(chars[i]) {
            assert(!validators::is_token_char(value@[i as int]));
            return Err(
                NetdiagError::InvalidParam {
                    name: name.to_owned(),
                    reason: "contains unsupported characters".to_owned(),
                },
            );
        }
        i = i + 1;
    }
    Ok(())
}

} // verus!
