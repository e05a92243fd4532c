//! The allowlisted commands: the security boundary.
//!
//! Every diagnostic resolves to one entry of a fixed table. An entry pins the
//! program and its base arguments; callers only append validated arguments.
//! The operator's filters narrow the table and open the privileged part of
//! it, and never add a program or an argument.
//!
//! The runner decides what is to be done ([`CommandRunner::run`]) and what the
//! outcome means ([`CommandRunner::run_process`], [`CommandRunner::read_file`]).
//! Starting the process, reading the file and watching the time in between is
//! left to the caller.

use std::time::Duration;

use vstd::prelude::*;
use vstd::slice::slice_subrange;
use vstd::string::*;
use vstd::utf8::*;

use crate::config;
use crate::errors::{NetdiagError, NetdiagErrorView};
use crate::json::{Json, JsonView};
use crate::key_set::KeySet;
use crate::netdiag::validators;
use crate::text::{clip_lines, decimal_text, listed, same_text};

verus! {

// ---- the table of commands ------------------------------------------------

/// A pinned program invocation.
#[derive(Debug, Clone, Copy)]
pub struct CommandSpec {
    pub program: &'static str,
    pub base_args: &'static [&'static str],
}

/// A pinned diagnostic operation.
#[derive(Debug, Clone, Copy)]
pub enum DiagnosticSpec {
    /// Run a program.
    Process(CommandSpec),
    /// Read a file.
    File { path: &'static str },
}

/// The mathematical model of a [`DiagnosticSpec`].
pub enum OperationView {
    Process { program: Seq<char>, base_args: Seq<Seq<char>> },
    File { path: Seq<char> },
}

impl View for DiagnosticSpec {
    type V = OperationView;

    open spec fn view(&self) -> OperationView {
        match self {
            DiagnosticSpec::Process(spec) => OperationView::Process {
                program: spec.program@,
                base_args: spec.base_args.deep_view(),
            },
            DiagnosticSpec::File { path } => OperationView::File { path: path@ },
        }
    }
}

/// The number of built-in commands.
pub const BUILTIN_COMMAND_COUNT: usize = 24;

/// The command keys that need elevated capabilities or put packets on the
/// wire. They are refused unless the operator opts in.
pub const PRIVILEGED_KEYS: [&'static str; 6] = [
    "ping",
    "traceroute",
    "tcpdump_sample",
    "firewall",
    "conntrack",
    "dmesg",
];

/// Running `program` with `base_args`.
pub open spec fn process_view(program: Seq<char>, base_args: Seq<Seq<char>>) -> OperationView {
    OperationView::Process { program, base_args }
}

/// The built-in commands: every key with its pinned operation.
pub open spec fn builtin_table() -> Seq<(Seq<char>, OperationView)> {
    seq![
        ("if_status"@, process_view("ip"@, seq!["-j"@, "-s"@, "link"@, "show"@])),
        ("mac_table"@, process_view("bridge"@, seq!["-j"@, "fdb"@, "show"@])),
        ("neighbors"@, process_view("ip"@, seq!["-j"@, "neigh"@, "show"@])),
        ("routes"@, process_view("ip"@, seq!["-j"@, "route"@, "show"@, "table"@, "all"@])),
        ("addr"@, process_view("ip"@, seq!["-j"@, "addr"@, "show"@])),
        ("link_detail"@, process_view("ip"@, seq!["-j"@, "-d"@, "link"@, "show"@])),
        ("route_get"@, process_view("ip"@, seq!["-j"@, "route"@, "get"@])),
        ("rules"@, process_view("ip"@, seq!["-j"@, "rule"@, "show"@])),
        ("ping"@, process_view("ping"@, seq!["-n"@])),
        ("traceroute"@, process_view("traceroute"@, seq!["-n"@])),
        ("sockets"@, process_view("ss"@, seq!["-H"@, "-tuna"@])),
        ("dns_status"@, process_view("resolvectl"@, seq!["status"@])),
        ("resolv_conf"@, OperationView::File { path: "/etc/resolv.conf"@ }),
        ("ethtool"@, process_view("ethtool"@, Seq::empty())),
        ("firewall"@, process_view("nft"@, seq!["list"@, "ruleset"@])),
        ("conntrack"@, process_view("conntrack"@, seq!["-L"@])),
        ("tcpdump_sample"@, process_view("tcpdump"@, seq!["-nn"@])),
        ("logs"@, process_view("journalctl"@, seq!["--no-pager"@, "--output=short-iso"@])),
        ("failed_units"@, process_view("systemctl"@, seq!["--failed"@, "--no-pager"@, "--plain"@])),
        ("service_status"@, process_view("systemctl"@, seq!["status"@, "--no-pager"@])),
        ("dmesg"@, process_view("dmesg"@, seq!["-T"@])),
        ("uptime"@, process_view("uptime"@, Seq::empty())),
        ("memory"@, process_view("free"@, seq!["-h"@])),
        ("filesystems"@, process_view("df"@, seq!["-h"@])),
    ]
}

/// The model of a table of commands.
pub open spec fn table_view(table: Seq<(&'static str, DiagnosticSpec)>) -> Seq<
    (Seq<char>, OperationView),
> {
    Seq::new(table.len(), |i: int| (table[i].0@, table[i].1@))
}

fn process(program: &'static str, base_args: &'static [&'static str]) -> (spec: DiagnosticSpec)
    ensures
        spec@ == process_view(program@, base_args.deep_view()),
{
    DiagnosticSpec::Process(CommandSpec { program, base_args })
}

/// The full table of built-in commands.
pub fn full_allowlist() -> (table: Vec<(&'static str, DiagnosticSpec)>)
    ensures
        table_view(table@) == builtin_table(),
{
    let mut table: Vec<(&'static str, DiagnosticSpec)> = Vec::new();
    let args: &'static [&'static str] = &["-j", "-s", "link", "show"];
    assert(args.deep_view() =~= seq!["-j"@, "-s"@, "link"@, "show"@]);
    table.push(("if_status", process("ip", args)));
    let args: &'static [&'static str] = &["-j", "fdb", "show"];
    assert(args.deep_view() =~= seq!["-j"@, "fdb"@, "show"@]);
    table.push(("mac_table", process("bridge", args)));
    let args: &'static [&'static str] = &["-j", "neigh", "show"];
    assert(args.deep_view() =~= seq!["-j"@, "neigh"@, "show"@]);
    table.push(("neighbors", process("ip", args)));
    let args: &'static [&'static str] = &["-j", "route", "show", "table", "all"];
    assert(args.deep_view() =~= seq!["-j"@, "route"@, "show"@, "table"@, "all"@]);
    table.push(("routes", process("ip", args)));
    let args: &'static [&'static str] = &["-j", "addr", "show"];
    assert(args.deep_view() =~= seq!["-j"@, "addr"@, "show"@]);
    table.push(("addr", process("ip", args)));
    let args: &'static [&'static str] = &["-j", "-d", "link", "show"];
    assert(args.deep_view() =~= seq!["-j"@, "-d"@, "link"@, "show"@]);
    table.push(("link_detail", process("ip", args)));
    let args: &'static [&'static str] = &["-j", "route", "get"];
    assert(args.deep_view() =~= seq!["-j"@, "route"@, "get"@]);
    table.push(("route_get", process("ip", args)));
    let args: &'static [&'static str] = &["-j", "rule", "show"];
    assert(args.deep_view() =~= seq!["-j"@, "rule"@, "show"@]);
    table.push(("rules", process("ip", args)));
    let args: &'static [&'static str] = &["-n"];
    assert(args.deep_view() =~= seq!["-n"@]);
    table.push(("ping", process("ping", args)));
    let args: &'static [&'static str] = &["-n"];
    assert(args.deep_view() =~= seq!["-n"@]);
    table.push(("traceroute", process("traceroute", args)));
    let args: &'static [&'static str] = &["-H", "-tuna"];
    assert(args.deep_view() =~= seq!["-H"@, "-tuna"@]);
    table.push(("sockets", process("ss", args)));
    let args: &'static [&'static str] = &["status"];
    assert(args.deep_view() =~= seq!["status"@]);
    table.push(("dns_status", process("resolvectl", args)));
    table.push(("resolv_conf", DiagnosticSpec::File { path: "/etc/resolv.conf" }));
    let args: &'static [&'static str] = &[];
    assert(args.deep_view() =~= Seq::<Seq<char>>::empty());
    table.push(("ethtool", process("ethtool", args)));
    let args: &'static [&'static str] = &["list", "ruleset"];
    assert(args.deep_view() =~= seq!["list"@, "ruleset"@]);
    table.push(("firewall", process("nft", args)));
    let args: &'static [&'static str] = &["-L"];
    assert(args.deep_view() =~= seq!["-L"@]);
    table.push(("conntrack", process("conntrack", args)));
    let args: &'static [&'static str] = &["-nn"];
    assert(args.deep_view() =~= seq!["-nn"@]);
    table.push(("tcpdump_sample", process("tcpdump", args)));
    let args: &'static [&'static str] = &["--no-pager", "--output=short-iso"];
    assert(args.deep_view() =~= seq!["--no-pager"@, "--output=short-iso"@]);
    table.push(("logs", process("journalctl", args)));
    let args: &'static [&'static str] = &["--failed", "--no-pager", "--plain"];
    assert(args.deep_view() =~= seq!["--failed"@, "--no-pager"@, "--plain"@]);
    table.push(("failed_units", process("systemctl", args)));
    let args: &'static [&'static str] = &["status", "--no-pager"];
    assert(args.deep_view() =~= seq!["status"@, "--no-pager"@]);
    table.push(("service_status", process("systemctl", args)));
    let args: &'static [&'static str] = &["-T"];
    assert(args.deep_view() =~= seq!["-T"@]);
    table.push(("dmesg", process("dmesg", args)));
    let args: &'static [&'static str] = &[];
    assert(args.deep_view() =~= Seq::<Seq<char>>::empty());
    table.push(("uptime", process("uptime", args)));
    let args: &'static [&'static str] = &["-h"];
    assert(args.deep_view() =~= seq!["-h"@]);
    table.push(("memory", process("free", args)));
    let args: &'static [&'static str] = &["-h"];
    assert(args.deep_view() =~= seq!["-h"@]);
    table.push(("filesystems", process("df", args)));
    assert(table_view(table@) =~= builtin_table());
    table
}

// ---- the gates ------------------------------------------------------------

/// Whether `key` is one of [`PRIVILEGED_KEYS`].
pub open spec fn is_privileged(key: Seq<char>) -> bool {
    exists|i: int| 0 <= i < PRIVILEGED_KEYS@.len() && #[trigger] PRIVILEGED_KEYS@[i]@ == key
}

/// Whether the opt-in set `enabled` lets `key` pass: it is not privileged, or
/// the set names it, or the set holds [`config::PRIVILEGED_ALL_SENTINEL`].
pub open spec fn passes_gate(key: Seq<char>, enabled: Set<Seq<char>>) -> bool {
    !is_privileged(key) || enabled.contains(config::PRIVILEGED_ALL_SENTINEL@) || enabled.contains(
        key,
    )
}

/// The refusal of a privileged `key`; `None` if it passes.
pub open spec fn privileged_error(key: Seq<char>, enabled: Set<Seq<char>>) -> Option<
    NetdiagErrorView,
> {
    if passes_gate(key, enabled) {
        None
    } else {
        Some(NetdiagErrorView::PrivilegedDisabled { key })
    }
}

/// Refuses a privileged key that the opt-in set does not admit.
pub fn check_privileged(key: &str, privileged_enabled: &KeySet) -> (r: Result<(), NetdiagError>)
    ensures
        crate::errors::failure(r) == privileged_error(key@, privileged_enabled@),
{
    let keys: [&'static str; 6] = PRIVILEGED_KEYS;
    if !listed(&keys, key) {
        return Ok(());
    }
    if privileged_enabled.contains(config::PRIVILEGED_ALL_SENTINEL) || privileged_enabled.contains(
        key,
    ) {
        return Ok(());
    }
    Err(NetdiagError::PrivilegedDisabled { key: key.to_owned() })
}

// ---- what is to be done ---------------------------------------------------

/// What the caller is to do to carry out a diagnostic.
#[derive(Debug)]
pub enum Invocation {
    /// Start `program` with exactly `args`, no shell in between, and kill it
    /// after `timeout`.
    Spawn { program: &'static str, args: Vec<String>, timeout: Duration },
    /// Read the file at `path`, and give up after `timeout`.
    Read { path: &'static str, timeout: Duration },
}

/// The mathematical model of an [`Invocation`].
pub enum InvocationView {
    Spawn { program: Seq<char>, args: Seq<Seq<char>>, timeout: Duration },
    Read { path: Seq<char>, timeout: Duration },
}

impl View for Invocation {
    type V = InvocationView;

    open spec fn view(&self) -> InvocationView {
        match self {
            Invocation::Spawn { program, args, timeout } => InvocationView::Spawn {
                program: program@,
                args: args.deep_view(),
                timeout: *timeout,
            },
            Invocation::Read { path, timeout } => InvocationView::Read {
                path: path@,
                timeout: *timeout,
            },
        }
    }
}

/// The wall-clock cap on every diagnostic.
pub open spec fn time_limit() -> Duration {
    crate::clock::duration_from_secs(config::DEFAULT_TIMEOUT_SECS)
}

/// Carrying out `op` with `extra` appended to its arguments. Reading a file
/// takes no arguments.
pub open spec fn invocation_of(op: OperationView, extra: Seq<Seq<char>>) -> Result<
    InvocationView,
    NetdiagErrorView,
> {
    match op {
        OperationView::Process { program, base_args } => Ok(
            InvocationView::Spawn { program, args: base_args + extra, timeout: time_limit() },
        ),
        OperationView::File { path } => if extra.len() > 0 {
            Err(
                NetdiagErrorView::CommandExec {
                    message: "file diagnostics do not accept extra arguments"@,
                },
            )
        } else {
            Ok(InvocationView::Read { path, timeout: time_limit() })
        },
    }
}

/// The mathematical model of a [`CommandRunner`]: the commands that the
/// operator left runnable, and the privileged opt-in set.
pub struct RunnerView {
    pub table: Seq<(Seq<char>, OperationView)>,
    pub privileged: Set<Seq<char>>,
}

impl RunnerView {
    /// What is done for `key` with `extra`. A key outside the table is
    /// refused before the privileged gate is asked.
    pub open spec fn decision(self, key: Seq<char>, extra: Seq<Seq<char>>) -> Result<
        InvocationView,
        NetdiagErrorView,
    > {
        match crate::assoc::lookup(self.table, key) {
            None => Err(NetdiagErrorView::CommandNotAllowed { command: key }),
            Some(op) => match privileged_error(key, self.privileged) {
                Some(e) => Err(e),
                None => invocation_of(op, extra),
            },
        }
    }
}

/// The built-in commands that the filter `enabled` leaves; all of them where
/// there is no filter.
pub open spec fn enabled_table(enabled: Option<Set<Seq<char>>>) -> Seq<
    (Seq<char>, OperationView),
> {
    match enabled {
        Some(keys) => crate::assoc::narrowed(builtin_table(), keys),
        None => builtin_table(),
    }
}

// ---- what the outcome means -----------------------------------------------

/// How the run of a program ended.
#[derive(Debug)]
pub enum ProcessOutcome {
    /// It was killed when its time was up.
    TimedOut,
    /// It could not be started.
    SpawnFailed { error: String },
    /// It ended by itself.
    Exited { success: bool, code: Option<i32>, stdout: Vec<u8>, stderr: Vec<u8> },
}

/// How reading a file ended.
#[derive(Debug)]
pub enum ReadOutcome {
    /// Its time was up.
    TimedOut,
    /// It could not be read.
    Failed { error: String },
    /// Its content.
    Read { bytes: Vec<u8> },
}

/// The text that `String::from_utf8_lossy` makes of bytes.
pub uninterp spec fn utf8_lossy(bytes: Seq<u8>) -> Seq<char>;

/// `String::from_utf8_lossy`: its result is determined by the bytes, and for
/// valid UTF-8 it is the text that they encode.
#[verifier::external_body]
fn decode_lossy(bytes: &[u8]) -> (s: String)
    ensures
        s@ == utf8_lossy(bytes@),
        valid_utf8(bytes@) ==> s@ == decode_utf8(bytes@),
{
    String::from_utf8_lossy(bytes).into_owned()
}

/// Output clipped to its first `max_bytes` bytes, decoded, and clipped to its
/// first `max_lines` lines.
pub open spec fn bounded(bytes: Seq<u8>, max_bytes: nat, max_lines: nat) -> Seq<char> {
    crate::text::clipped_lines(utf8_lossy(crate::text::at_most(bytes, max_bytes)), max_lines)
}

/// Clips raw output to `max_bytes` bytes, decodes it, and clips it to
/// `max_lines` lines.
pub fn bounded_text(bytes: &[u8], max_bytes: usize, max_lines: usize) -> (s: String)
    ensures
        s@ == bounded(bytes@, max_bytes as nat, max_lines as nat),
        valid_utf8(crate::text::at_most(bytes@, max_bytes as nat)) ==> s@
            == crate::text::clipped_lines(
            decode_utf8(crate::text::at_most(bytes@, max_bytes as nat)),
            max_lines as nat,
        ),
{
    let clipped: &[u8] = if bytes.len() > max_bytes {
        slice_subrange(bytes, 0, max_bytes)
    } else {
        bytes
    };
    assert(clipped@ =~= crate::text::at_most(bytes@, max_bytes as nat));
    let text: String = decode_lossy(clipped);
    clip_lines(text.as_str(), max_lines)
}

/// The raw result of a command.
pub open spec fn raw_view(
    ok: bool,
    exit_code: Option<i32>,
    stdout: Seq<char>,
    stderr: Seq<char>,
) -> JsonView {
    JsonView::object().with("ok"@, JsonView::Bool(ok)).with(
        "exit_code"@,
        match exit_code {
            Some(code) => JsonView::Int(code as int),
            None => JsonView::Null,
        },
    ).with("stdout"@, JsonView::Str(stdout)).with("stderr"@, JsonView::Str(stderr))
}

/// Shapes the raw result of a command.
pub fn raw_result(ok: bool, exit_code: Option<i32>, stdout: &str, stderr: &str) -> (raw: Json)
    ensures
        raw@ == raw_view(ok, exit_code, stdout@, stderr@),
{
    let code: Json = match exit_code {
        Some(code) => Json::Int(code as i128),
        None => Json::Null,
    };
    Json::object().with("ok", Json::Bool(ok)).with("exit_code", code).with(
        "stdout",
        Json::text(stdout),
    ).with("stderr", Json::text(stderr))
}

/// The four fields of a raw result, each under its name.
pub proof fn lemma_raw_fields(
    ok: bool,
    exit_code: Option<i32>,
    stdout: Seq<char>,
    stderr: Seq<char>,
)
    ensures
        ({
            let raw = raw_view(ok, exit_code, stdout, stderr);
            &&& raw.bool_at("ok"@) == Some(ok)
            &&& raw.get("exit_code"@) == Some(
                match exit_code {
                    Some(code) => JsonView::Int(code as int),
                    None => JsonView::Null,
                },
            )
            &&& raw.str_at("stdout"@) == Some(stdout)
            &&& raw.str_at("stderr"@) == Some(stderr)
        }),
{
    broadcast use crate::json::lemma_get_with;

    reveal_strlit("ok");
    reveal_strlit("exit_code");
    reveal_strlit("stdout");
    reveal_strlit("stderr");
    assert("ok"@.len() == 2 && "exit_code"@.len() == 9 && "stdout"@.len() == 6);
    assert("stdout"@[3] == 'o' && "stderr"@[3] == 'e' && "stderr"@.len() == 6);
}

/// The error for a diagnostic whose time was up.
pub open spec fn timeout_error() -> NetdiagErrorView {
    NetdiagErrorView::CommandExec {
        message: "timeout after "@ + crate::text::decimal(config::DEFAULT_TIMEOUT_SECS as nat)
            + "s"@,
    }
}

/// What the run of a program amounts to.
pub open spec fn process_result(outcome: ProcessOutcome) -> Result<JsonView, NetdiagErrorView> {
    match outcome {
        ProcessOutcome::TimedOut => Err(timeout_error()),
        ProcessOutcome::SpawnFailed { error } => Err(
            NetdiagErrorView::CommandExec { message: "spawn failed: "@ + error@ },
        ),
        ProcessOutcome::Exited { success, code, stdout, stderr } => Ok(
            raw_view(
                success,
                code,
                bounded(
                    stdout@,
                    config::MAX_STDOUT_BYTES as nat,
                    config::MAX_OUTPUT_LINES as nat,
                ),
                bounded(
                    stderr@,
                    config::MAX_STDERR_BYTES as nat,
                    config::MAX_OUTPUT_LINES as nat,
                ),
            ),
        ),
    }
}

/// Whether `shown` is what is kept of `bytes`, where they are valid UTF-8: the
/// first lines of the text that they encode.
pub open spec fn shows(shown: Option<Seq<char>>, bytes: Seq<u8>, max_bytes: nat) -> bool {
    let kept = crate::text::at_most(bytes, max_bytes);
    valid_utf8(kept) ==> shown == Some(
        crate::text::clipped_lines(decode_utf8(kept), config::MAX_OUTPUT_LINES as nat),
    )
}

/// What reading a file amounts to.
pub open spec fn read_result(outcome: ReadOutcome) -> Result<JsonView, NetdiagErrorView> {
    match outcome {
        ReadOutcome::TimedOut => Err(timeout_error()),
        ReadOutcome::Failed { error } => Err(
            NetdiagErrorView::CommandExec { message: "read failed: "@ + error@ },
        ),
        ReadOutcome::Read { bytes } => Ok(
            raw_view(
                true,
                Some(0),
                bounded(
                    bytes@,
                    config::MAX_STDOUT_BYTES as nat,
                    config::MAX_OUTPUT_LINES as nat,
                ),
                ""@,
            ),
        ),
    }
}

fn timed_out(timeout: Duration) -> (e: NetdiagError)
    requires
        timeout == time_limit(),
    ensures
        e@ == timeout_error(),
{
    NetdiagError::CommandExec {
        message: "timeout after ".to_owned().concat(
            decimal_text(timeout.as_secs()).as_str(),
        ).concat("s"),
    }
}

/// The result of a program that ran under the time limit.
pub(crate) fn finish_process(timeout: Duration, outcome: ProcessOutcome) -> (r: Result<
    Json,
    NetdiagError,
>)
    requires
        timeout == time_limit(),
    ensures
        crate::errors::outcome(r) == process_result(outcome),
        match outcome {
            ProcessOutcome::Exited { stdout, stderr, .. } => {
                &&& r is Ok
                &&& shows(r->Ok_0@.str_at("stdout"@), stdout@, config::MAX_STDOUT_BYTES as nat)
                &&& shows(r->Ok_0@.str_at("stderr"@), stderr@, config::MAX_STDERR_BYTES as nat)
            },
            _ => r is Err,
        },
{
    match outcome {
        ProcessOutcome::TimedOut => Err(timed_out(timeout)),
        ProcessOutcome::SpawnFailed { error } => Err(
            NetdiagError::CommandExec {
                message: "spawn failed: ".to_owned().concat(error.as_str()),
            },
        ),
        ProcessOutcome::Exited { success, code, stdout, stderr } => {
            let out: String = bounded_text(
                stdout.as_slice(),
                config::MAX_STDOUT_BYTES,
                config::MAX_OUTPUT_LINES,
            );
            let err: String = bounded_text(
                stderr.as_slice(),
                config::MAX_STDERR_BYTES,
                config::MAX_OUTPUT_LINES,
            );
            proof {
                lemma_raw_fields(success, code, out@, err@);
            }
            Ok(raw_result(success, code, out.as_str(), err.as_str()))
        },
    }
}

// ---- the runner -----------------------------------------------------------

/// Resolves command keys to pinned operations, and outcomes to results.
#[derive(Debug)]
pub struct CommandRunner {
    allowlist: Vec<(&'static str, DiagnosticSpec)>,
    privileged_enabled: KeySet,
    timeout: Duration,
}

impl View for CommandRunner {
    type V = RunnerView;

    closed spec fn view(&self) -> RunnerView {
        RunnerView {
            table: table_view(self.allowlist@),
            privileged: self.privileged_enabled@,
        }
    }
}

impl CommandRunner {
    /// The wall-clock cap is the configured one.
    #[verifier::type_invariant]
    spec fn capped(self) -> bool {
        self.timeout == time_limit()
    }

    /// A runner for the values of the operator's environment variables
    /// ([`config::ALLOWLIST_ENV`] and [`config::PRIVILEGED_ENABLE_ENV`]), as
    /// far as they are set.
    pub fn new(allowlist: Option<&str>, privileged: Option<&str>) -> (runner: CommandRunner)
        ensures
            runner@ == (RunnerView {
                table: enabled_table(
                    match allowlist {
                        Some(raw) => Some(config::listed_keys(raw@)),
                        None => None,
                    },
                ),
                privileged: match privileged {
                    Some(raw) => config::opted_in_keys(raw@),
                    None => Set::empty(),
                },
            }),
    {
        let enabled: Option<KeySet> = config::enabled_commands(allowlist);
        let opted_in: KeySet = config::privileged_enabled(privileged);
        CommandRunner::with_layers(enabled.as_ref(), &opted_in)
    }

    /// A runner narrowed to the keys in `enabled`, if given, with every
    /// privileged command refused.
    pub fn with_enabled(enabled: Option<&KeySet>) -> (runner: CommandRunner)
        ensures
            runner@ == (RunnerView {
                table: enabled_table(
                    match enabled {
                        Some(keys) => Some(keys@),
                        None => None,
                    },
                ),
                privileged: Set::empty(),
            }),
    {
        CommandRunner::with_layers(enabled, &KeySet::new())
    }

    /// A runner narrowed to the keys in `enabled`, if given, and with the
    /// opt-in set `privileged_enabled`.
    pub fn with_layers(enabled: Option<&KeySet>, privileged_enabled: &KeySet) -> (runner:
        CommandRunner)
        ensures
            runner@ == (RunnerView {
                table: enabled_table(
                    match enabled {
                        Some(keys) => Some(keys@),
                        None => None,
                    },
                ),
                privileged: privileged_enabled@,
            }),
    {
        let full: Vec<(&'static str, DiagnosticSpec)> = full_allowlist();
        let allowlist: Vec<(&'static str, DiagnosticSpec)> = match enabled {
            Some(keys) => retain(full, keys),
            None => full,
        };
        CommandRunner {
            allowlist,
            privileged_enabled: privileged_enabled.clone(),
            timeout: config::default_timeout(),
        }
    }

    /// The number of commands that the allowlist leaves.
    pub fn command_count(&self) -> (n: usize)
        ensures
            n == self@.table.len(),
    {
        self.allowlist.len()
    }

    fn find(&self, key: &str) -> (spec: Option<DiagnosticSpec>)
        ensures
            match spec {
                Some(spec) => crate::assoc::lookup(self@.table, key@) == Some(spec@),
                None => crate::assoc::lookup(self@.table, key@) is None,
            },
    {
        let ghost table = table_view(self.allowlist@);
        let mut i: usize = 0;
        assert(table.skip(0) =~= table);
        while i < self.allowlist.len()
            invariant
                i <= self.allowlist@.len(),
                table == table_view(self.allowlist@),
                crate::assoc::lookup(table, key@) == crate::assoc::lookup(
                    table.skip(i as int),
                    key@,
                ),
            decreases self.allowlist@.len() - i,
        {
            let entry: (&'static str, DiagnosticSpec) = self.allowlist[i];
            assert(table.skip(i as int)[0] == table[i as int]);
            if same_text(entry.0, key) {
                return Some(entry.1);
            }
            assert(table.skip(i as int).drop_first() =~= table.skip(i + 1));
            i = i + 1;
        }
        None
    }

    /// Whether the allowlist leaves `key` runnable.
    pub fn has_command(&self, key: &str) -> (b: bool)
        ensures
            b == crate::assoc::lookup(self@.table, key@) is Some,
    {
        self.find(key).is_some()
    }

    /// Decides what is done for `key` with the validated arguments `extra`.
    ///
    /// A key outside the allowlist is refused first, a privileged key without
    /// opt-in second; nothing is to be started in either case.
    pub fn run(&self, key: &str, extra: &[String]) -> (r: Result<Invocation, NetdiagError>)
        ensures
            crate::errors::outcome(r) == self@.decision(key@, extra.deep_view()),
    {
        match self.find(key) {
            None => Err(NetdiagError::CommandNotAllowed { command: key.to_owned() }),
            Some(spec) => match check_privileged(key, &self.privileged_enabled) {
                Err(e) => Err(e),
                Ok(()) => self.run_spec(&spec, extra),
            },
        }
    }

    /// Pins down how `spec` is carried out with `extra` appended.
    pub fn run_spec(&self, spec: &DiagnosticSpec, extra: &[String]) -> (r: Result<
        Invocation,
        NetdiagError,
    >)
        ensures
            crate::errors::outcome(r) == invocation_of(spec@, extra.deep_view()),
    {
        proof {
            use_type_invariant(self);
        }
        match spec {
            DiagnosticSpec::Process(process) => {
                let args: Vec<String> = arguments(process.base_args, extra);
                Ok(Invocation::Spawn { program: process.program, args, timeout: self.timeout })
            },
            DiagnosticSpec::File { path } => {
                assert(extra.deep_view().len() == extra@.len());
                if extra.len() > 0 {
                    return Err(
                        NetdiagError::CommandExec {
                            message: "file diagnostics do not accept extra arguments".to_owned(),
                        },
                    );
                }
                Ok(Invocation::Read { path: *path, timeout: self.timeout })
            },
        }
    }

    /// The result of a program that was to be started.
    pub fn run_process(&self, outcome: ProcessOutcome) -> (r: Result<Json, NetdiagError>)
        ensures
            crate::errors::outcome(r) == process_result(outcome),
            match outcome {
                ProcessOutcome::Exited { stdout, stderr, .. } => {
                    &&& r is Ok
                    &&& shows(r->Ok_0@.str_at("stdout"@), stdout@, config::MAX_STDOUT_BYTES as nat)
                    &&& shows(r->Ok_0@.str_at("stderr"@), stderr@, config::MAX_STDERR_BYTES as nat)
                },
                _ => r is Err,
            },
    {
        proof {
            use_type_invariant(self);
        }
        finish_process(self.timeout, outcome)
    }

    /// The result of a file that was to be read.
    pub fn read_file(&self, outcome: ReadOutcome) -> (r: Result<Json, NetdiagError>)
        ensures
            crate::errors::outcome(r) == read_result(outcome),
            match outcome {
                ReadOutcome::Read { bytes } => r is Ok && shows(
                    r->Ok_0@.str_at("stdout"@),
                    bytes@,
                    config::MAX_STDOUT_BYTES as nat,
                ),
                _ => r is Err,
            },
    {
        proof {
            use_type_invariant(self);
        }
        match outcome {
            ReadOutcome::TimedOut => Err(timed_out(self.timeout)),
            ReadOutcome::Failed { error } => Err(
                NetdiagError::CommandExec {
                    message: "read failed: ".to_owned().concat(error.as_str()),
                },
            ),
            ReadOutcome::Read { bytes } => {
                let out: String = bounded_text(
                    bytes.as_slice(),
                    config::MAX_STDOUT_BYTES,
                    config::MAX_OUTPUT_LINES,
                );
                proof {
                    lemma_raw_fields(true, Some(0), out@, ""@);
                }
                Ok(raw_result(true, Some(0), out.as_str(), ""))
            },
        }
    }
}

impl Clone for CommandRunner {
    fn clone(&self) -> (runner: CommandRunner)
        ensures
            runner@ == self@,
    {
        proof {
            use_type_invariant(self);
        }
        let mut allowlist: Vec<(&'static str, DiagnosticSpec)> = Vec::new();
        let mut i: usize = 0;
        while i < self.allowlist.len()
            invariant
                i <= self.allowlist@.len(),
                allowlist@ =~= self.allowlist@.take(i as int),
            decreases self.allowlist@.len() - i,
        {
            allowlist.push(self.allowlist[i]);
            i = i + 1;
        }
        assert(allowlist@ =~= self.allowlist@);
        CommandRunner {
            allowlist,
            privileged_enabled: self.privileged_enabled.clone(),
            timeout: self.timeout,
        }
    }
}

fn retain(full: Vec<(&'static str, DiagnosticSpec)>, keys: &KeySet) -> (kept: Vec<
    (&'static str, DiagnosticSpec),
>)
    ensures
        table_view(kept@) == crate::assoc::narrowed(table_view(full@), keys@),
{
    let ghost table = table_view(full@);
    let mut kept: Vec<(&'static str, DiagnosticSpec)> = Vec::new();
    let mut i: usize = 0;
    proof {
        reveal(Seq::filter);
        assert(table.take(0) =~= Seq::<(Seq<char>, OperationView)>::empty());
        assert(table_view(kept@) =~= crate::assoc::narrowed(table.take(0), keys@));
    }
    while i < full.len()
        invariant
            i <= full@.len(),
            table == table_view(full@),
            table_view(kept@) == crate::assoc::narrowed(table.take(i as int), keys@),
        decreases full@.len() - i,
    {
        let entry: (&'static str, DiagnosticSpec) = full[i];
        let ghost before = table_view(kept@);
        proof {
            crate::assoc::lemma_narrowed_step(table, keys@, i as int);
        }
        if keys.contains(entry.0) {
            kept.push(entry);
            assert(table_view(kept@) =~= before.push((entry.0@, entry.1@)));
        }
        i = i + 1;
    }
    assert(table.take(i as int) =~= table);
    kept
}

/// The pinned arguments with the caller's behind them.
pub(crate) fn arguments(base: &'static [&'static str], extra: &[String]) -> (args: Vec<String>)
    ensures
        args.deep_view() == base.deep_view() + extra.deep_view(),
{
    let ghost all = base.deep_view() + extra.deep_view();
    let mut args: Vec<String> = Vec::new();
    let mut i: usize = 0;
    while i < base.len()
        invariant
            i <= base@.len(),
            args.deep_view().len() == i,
            all == base.deep_view() + extra.deep_view(),
            forall|k: int| 0 <= k < i ==> #[trigger] args.deep_view()[k] == all[k],
        decreases base@.len() - i,
    {
        let ghost before = args.deep_view();
        args.push(base[i].to_owned());
        assert(args.deep_view() =~= before.push(all[i as int]));
        i = i + 1;
    }
    let mut j: usize = 0;
    while j < extra.len()
        invariant
            j <= extra@.len(),
            args.deep_view().len() == base@.len() + j,
            all == base.deep_view() + extra.deep_view(),
            forall|k: int| 0 <= k < base@.len() + j ==> #[trigger] args.deep_view()[k] == all[k],
        decreases extra@.len() - j,
    {
        let ghost before = args.deep_view();
        args.push(extra[j].clone());
        assert(args.deep_view() =~= before.push(all[base@.len() + j]));
        j = j + 1;
    }
    assert(args.deep_view() =~= all);
    args
}

// ---- validators -----------------------------------------------------------

/// Validates an interface name.
pub fn validate_interface(value: &str) -> (r: Result<(), NetdiagError>)
    ensures
        crate::errors::failure(r) == validators::interface_error(value@),
{
    validators::validate_interface(value)
}

/// Validates a systemd unit name.
pub fn validate_unit(value: &str) -> (r: Result<(), NetdiagError>)
    ensures
        crate::errors::failure(r) == validators::unit_error(value@),
{
    validators::validate_unit(value)
}

/// Validates an IP address or host name.
pub fn validate_ip_or_host(value: &str) -> (r: Result<(), NetdiagError>)
    ensures
        crate::errors::failure(r) == validators::target_error(value@),
{
    validators::validate_ip_or_host(value)
}

/// Validates a MAC address.
pub fn validate_mac(value: &str) -> (r: Result<(), NetdiagError>)
    ensures
        crate::errors::failure(r) == validators::mac_error(value@),
{
    validators::validate_mac(value)
}

} // verus!
