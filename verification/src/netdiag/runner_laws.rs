//! What the runner does, from the operator's values and the outcome of a
//! command to what the caller gets.

use vstd::prelude::*;
use vstd::utf8::*;

use crate::assoc;
use crate::commands as compact;
use crate::config;
use crate::errors::{NetdiagError, NetdiagErrorView};
use crate::json::{Json, JsonView};
use crate::key_set::KeySet;
use crate::netdiag::commands;
use crate::netdiag::commands::{
    CommandRunner, DiagnosticSpec, Invocation, OperationView, ProcessOutcome, ReadOutcome,
    PRIVILEGED_KEYS,
};
use crate::netdiag::laws;
use crate::text;
use crate::text_laws;

verus! {

// ---- the gates ------------------------------------------------------------

/// The keys of the six privileged commands.
pub open spec fn is_one_of_six(key: Seq<char>) -> bool {
    ||| key == "ping"@
    ||| key == "traceroute"@
    ||| key == "tcpdump_sample"@
    ||| key == "firewall"@
    ||| key == "conntrack"@
    ||| key == "dmesg"@
}

/// The privileged commands are six, and which they are.
pub proof fn law_six_are_privileged(key: Seq<char>)
    ensures
        commands::is_privileged(key) <==> is_one_of_six(key),
{
    let keys = PRIVILEGED_KEYS@;
    assert(keys[0]@ == "ping"@ && keys[1]@ == "traceroute"@ && keys[2]@ == "tcpdump_sample"@);
    assert(keys[3]@ == "firewall"@ && keys[4]@ == "conntrack"@ && keys[5]@ == "dmesg"@);
    if commands::is_privileged(key) {
        let k = choose|k: int| 0 <= k < keys.len() && #[trigger] keys[k]@ == key;
        if k == 0 {
        } else if k == 1 {
        } else if k == 2 {
        } else if k == 3 {
        } else if k == 4 {
        } else {
        }
    }
}

/// A key is let through if and only if it is none of the six privileged ones,
/// or the opt-in set holds it or `all`.
pub proof fn law_privileged_gate(key: &str, opted_in: &KeySet, r: Result<(), NetdiagError>)
    requires
        call_ensures(commands::check_privileged, (key, opted_in), r),
    ensures
        r is Ok <==> !is_one_of_six(key@) || opted_in@.contains(key@) || opted_in@.contains(
            "all"@,
        ),
        r is Err ==> r->Err_0@ == (NetdiagErrorView::PrivilegedDisabled { key: key@ }),
{
    law_six_are_privileged(key@);
}

/// Whether an invocation carries out `op` with `extra` behind its arguments.
pub open spec fn carries_out(
    op: OperationView,
    extra: Seq<Seq<char>>,
    invocation: Invocation,
) -> bool {
    match (op, invocation) {
        (
            OperationView::Process { program, base_args },
            Invocation::Spawn { program: started, args, timeout },
        ) => {
            &&& started@ == program
            &&& args.deep_view().len() == base_args.len() + extra.len()
            &&& forall|i: int|
                0 <= i < base_args.len() ==> #[trigger] args.deep_view()[i] == base_args[i]
            &&& forall|i: int|
                0 <= i < extra.len() ==> #[trigger] args.deep_view()[base_args.len() + i]
                    == extra[i]
            &&& timeout == crate::clock::duration_from_secs(5)
        },
        (OperationView::File { path }, Invocation::Read { path: read, timeout }) => {
            &&& read@ == path
            &&& extra.len() == 0
            &&& timeout == crate::clock::duration_from_secs(5)
        },
        _ => false,
    }
}

/// What a runner does for a key: it refuses a key that is not built in or not
/// left by the filter, then a privileged key without opt-in, then arguments for
/// a file; else it carries out what the table pins, with the arguments behind.
pub proof fn law_runner_decides(
    enabled: Option<&KeySet>,
    opted_in: &KeySet,
    runner: CommandRunner,
    key: &str,
    extra: &[String],
    r: Result<Invocation, NetdiagError>,
)
    requires
        call_ensures(CommandRunner::with_layers, (enabled, opted_in), runner),
        call_ensures(CommandRunner::run, (&runner, key, extra), r),
    ensures
        ({
            let built_in = assoc::lookup(commands::builtin_table(), key@);
            let left = built_in is Some && (enabled is None || enabled->0@.contains(key@));
            let open = !is_one_of_six(key@) || opted_in@.contains(key@) || opted_in@.contains(
                "all"@,
            );
            &&& !left ==> r is Err && r->Err_0@ == (NetdiagErrorView::CommandNotAllowed {
                command: key@,
            })
            &&& left && !open ==> r is Err && r->Err_0@ == (NetdiagErrorView::PrivilegedDisabled {
                key: key@,
            })
            &&& left && open && built_in->0 is File && extra@.len() > 0 ==> r is Err
                && r->Err_0@ is CommandExec
            &&& left && open && (built_in->0 is Process || extra@.len() == 0) ==> r is Ok
                && carries_out(built_in->0, extra.deep_view(), r->Ok_0)
        }),
{
    law_six_are_privileged(key@);
    laws::law_filter_only_narrows(
        match enabled {
            Some(keys) => Some(keys@),
            None => None,
        },
        key@,
    );
    assert(extra.deep_view().len() == extra@.len());
}

/// The same for the values of the operator's variables: the filter leaves the
/// entries of the one, and the entries of the other open their privileged
/// commands.
pub proof fn law_operator_decides(
    allowlist: Option<&str>,
    privileged: Option<&str>,
    runner: CommandRunner,
    key: &str,
    extra: &[String],
    r: Result<Invocation, NetdiagError>,
)
    requires
        call_ensures(CommandRunner::new, (allowlist, privileged), runner),
        call_ensures(CommandRunner::run, (&runner, key, extra), r),
        key@.len() > 0,
    ensures
        ({
            let built_in = assoc::lookup(commands::builtin_table(), key@);
            let left = built_in is Some && (allowlist is None || config::has_entry(
                allowlist->0@,
                key@,
            ));
            let open = !is_one_of_six(key@) || (privileged is Some && text::trimmed(
                privileged->0@,
            ) != "none"@ && (config::has_entry(privileged->0@, key@) || config::has_entry(
                privileged->0@,
                "all"@,
            )));
            &&& !left ==> r is Err && r->Err_0@ == (NetdiagErrorView::CommandNotAllowed {
                command: key@,
            })
            &&& left && !open ==> r is Err && r->Err_0@ == (NetdiagErrorView::PrivilegedDisabled {
                key: key@,
            })
            &&& left && open && (built_in->0 is Process || extra@.len() == 0) ==> r is Ok
                && carries_out(built_in->0, extra.deep_view(), r->Ok_0)
        }),
{
    law_six_are_privileged(key@);
    reveal_strlit("all");
    assert("all"@.len() == 3);
    let filter = match allowlist {
        Some(raw) => Some(config::listed_keys(raw@)),
        None => None,
    };
    laws::law_filter_only_narrows(filter, key@);
    assert(extra.deep_view().len() == extra@.len());
    if allowlist is Some {
        let raw = allowlist->0@;
        assert(config::listed_keys(raw).contains(key@) <==> config::has_entry(raw, key@));
    }
    if privileged is Some {
        let raw = privileged->0@;
        config::law_blanks_around_a_list(raw);
        assert(config::listed_keys(raw).contains(key@) <==> config::has_entry(raw, key@));
        assert(config::listed_keys(raw).contains("all"@) <==> config::has_entry(raw, "all"@));
        if text::trimmed(raw).len() == 0 {
            let empty = Seq::<char>::empty();
            assert(text::trimmed(raw) =~= empty);
            config::law_one_entry(empty);
            assert(text::trimmed(empty) =~= empty);
        }
    }
}

/// A runner knows a command if and only if it is built in and the filter leaves
/// it.
pub proof fn law_runner_knows(
    enabled: Option<&KeySet>,
    opted_in: &KeySet,
    runner: CommandRunner,
    key: &str,
    known: bool,
)
    requires
        call_ensures(CommandRunner::with_layers, (enabled, opted_in), runner),
        call_ensures(CommandRunner::has_command, (&runner, key), known),
    ensures
        known <==> assoc::lookup(commands::builtin_table(), key@) is Some && (enabled is None
            || enabled->0@.contains(key@)),
{
    laws::law_filter_only_narrows(
        match enabled {
            Some(keys) => Some(keys@),
            None => None,
        },
        key@,
    );
}

/// What is carried out for an operation, whatever the runner: the operation
/// with the arguments behind, or, for a file with arguments, nothing.
pub proof fn law_operation_carried_out(
    runner: &CommandRunner,
    spec: &DiagnosticSpec,
    extra: &[String],
    r: Result<Invocation, NetdiagError>,
)
    requires
        call_ensures(CommandRunner::run_spec, (runner, spec, extra), r),
    ensures
        ({
            let fits = spec is Process || extra@.len() == 0;
            &&& fits ==> r is Ok && carries_out(spec@, extra.deep_view(), r->Ok_0)
            &&& !fits ==> r is Err && r->Err_0@ == (NetdiagErrorView::CommandExec {
                message: "file diagnostics do not accept extra arguments"@,
            })
        }),
{
    assert(extra.deep_view().len() == extra@.len());
}

/// The same for the commands of the compact service, which are all programs.
pub proof fn law_compact_operation_carried_out(
    runner: &compact::CommandRunner,
    spec: &compact::CommandSpec,
    extra: &[String],
    r: Invocation,
)
    requires
        call_ensures(compact::CommandRunner::run_spec, (runner, spec, extra), r),
    ensures
        carries_out(
            OperationView::Process {
                program: spec.program@,
                base_args: spec.base_args.deep_view(),
            },
            extra.deep_view(),
            r,
        ),
{
    assert(r@ is Spawn);
}

/// A runner that is only narrowed does what one with nothing opted in does.
pub proof fn law_narrowed_runner_decides(
    enabled: Option<&KeySet>,
    runner: CommandRunner,
    key: &str,
    extra: &[String],
    r: Result<Invocation, NetdiagError>,
)
    requires
        call_ensures(CommandRunner::with_enabled, (enabled,), runner),
        call_ensures(CommandRunner::run, (&runner, key, extra), r),
    ensures
        ({
            let built_in = assoc::lookup(commands::builtin_table(), key@);
            let left = built_in is Some && (enabled is None || enabled->0@.contains(key@));
            &&& !left ==> r is Err && r->Err_0@ == (NetdiagErrorView::CommandNotAllowed {
                command: key@,
            })
            &&& left && is_one_of_six(key@) ==> r is Err && r->Err_0@ == (
            NetdiagErrorView::PrivilegedDisabled { key: key@ })
            &&& left && !is_one_of_six(key@) && (built_in->0 is Process || extra@.len() == 0)
                ==> r is Ok && carries_out(built_in->0, extra.deep_view(), r->Ok_0)
        }),
{
    law_six_are_privileged(key@);
    laws::law_filter_only_narrows(
        match enabled {
            Some(keys) => Some(keys@),
            None => None,
        },
        key@,
    );
    assert(extra.deep_view().len() == extra@.len());
}

// The keys of a table.
spec fn keys_of(table: Seq<(Seq<char>, OperationView)>) -> Seq<Seq<char>> {
    Seq::new(table.len(), |i: int| table[i].0)
}

proof fn lemma_narrowed_keys(
    table: Seq<(Seq<char>, OperationView)>,
    keys: Set<Seq<char>>,
    key: Seq<char>,
)
    requires
        keys_of(table).no_duplicates(),
    ensures
        keys_of(assoc::narrowed(table, keys)).no_duplicates(),
        keys_of(assoc::narrowed(table, keys)).contains(key) <==> keys_of(table).contains(key)
            && keys.contains(key),
    decreases table.len(),
{
    reveal(Seq::filter);
    if table.len() > 0 {
        let less = table.drop_last();
        let last = table.last();
        let kept = assoc::narrowed(less, keys);
        assert(keys_of(table) =~= keys_of(less).push(last.0));
        assert(keys_of(less).no_duplicates()) by {
            assert forall|a: int, b: int|
                0 <= a < b < keys_of(less).len() implies keys_of(less)[a] != keys_of(less)[b] by {
                assert(keys_of(table)[a] != keys_of(table)[b]);
            }
        }
        lemma_narrowed_keys(less, keys, key);
        lemma_narrowed_keys(less, keys, last.0);
        assert(!keys_of(less).contains(last.0)) by {
            if keys_of(less).contains(last.0) {
                let i = choose|i: int| 0 <= i < less.len() && keys_of(less)[i] == last.0;
                assert(keys_of(table)[i] == keys_of(table)[less.len() as int]);
            }
        }
        lemma_push_contains(keys_of(less), last.0, key);
        if keys.contains(last.0) {
            assert(keys_of(kept.push(last)) =~= keys_of(kept).push(last.0));
            lemma_push_contains(keys_of(kept), last.0, key);
            assert forall|a: int, b: int|
                0 <= a < b < keys_of(kept).push(last.0).len() implies keys_of(kept).push(last.0)[a]
                != keys_of(kept).push(last.0)[b] by {
                if b == kept.len() {
                    assert(keys_of(kept).contains(keys_of(kept)[a]));
                }
            }
        }
    }
}

proof fn lemma_push_contains(s: Seq<Seq<char>>, last: Seq<char>, key: Seq<char>)
    ensures
        s.push(last).contains(key) <==> s.contains(key) || key == last,
{
    if s.contains(key) {
        let i = choose|i: int| 0 <= i < s.len() && s[i] == key;
        assert(s.push(last)[i] == key);
    }
    assert(s.push(last)[s.len() as int] == last);
}

/// A runner counts the commands that it knows: 24 without a filter, and with
/// one those of them that the filter leaves, each once.
pub proof fn law_runner_counts(
    enabled: Option<&KeySet>,
    opted_in: &KeySet,
    runner: CommandRunner,
    n: usize,
    key: Seq<char>,
)
    requires
        call_ensures(CommandRunner::with_layers, (enabled, opted_in), runner),
        call_ensures(CommandRunner::command_count, (&runner,), n),
    ensures
        enabled is None ==> n == 24,
        exists|keys: Seq<Seq<char>>|
            {
                &&& n == keys.len()
                &&& #[trigger] keys.no_duplicates()
                &&& keys.contains(key) <==> assoc::lookup(commands::builtin_table(), key) is Some
                    && (enabled is None || enabled->0@.contains(key))
            },
{
    let table = commands::builtin_table();
    assert(table.len() == 24);
    assert(keys_of(table).no_duplicates()) by {
        assert forall|a: int, b: int|
            0 <= a < b < keys_of(table).len() implies keys_of(table)[a] != keys_of(table)[b] by {
            laws::law_builtin_keys_distinct(a, b);
        }
    }
    assoc::lemma_lookup_entry(table, key);
    assert(keys_of(table).contains(key) <==> assoc::lookup(table, key) is Some) by {
        if keys_of(table).contains(key) {
            let i = choose|i: int| 0 <= i < table.len() && keys_of(table)[i] == key;
            assert(table[i].0 == key);
        }
        if assoc::lookup(table, key) is Some {
            let v = assoc::lookup(table, key)->0;
            let i = choose|i: int| 0 <= i < table.len() && table[i] == (key, v);
            assert(keys_of(table)[i] == key);
        }
    }
    match enabled {
        Some(keys) => {
            lemma_narrowed_keys(table, keys@, key);
            let left = keys_of(assoc::narrowed(table, keys@));
            assert(left.no_duplicates() && n == left.len());
        },
        None => {
            let left = keys_of(table);
            assert(left.no_duplicates() && n == left.len());
        },
    }
}

// ---- outcomes -------------------------------------------------------------

/// The four parts of a raw result, each under its name.
pub proof fn law_raw_result(
    ok: bool,
    exit_code: Option<i32>,
    stdout: &str,
    stderr: &str,
    raw: Json,
)
    requires
        call_ensures(commands::raw_result, (ok, exit_code, stdout, stderr), raw),
    ensures
        raw@.bool_at("ok"@) == Some(ok),
        exit_code is Some ==> raw@.get("exit_code"@) == Some(
            JsonView::Int(exit_code->0 as int),
        ),
        exit_code is None ==> raw@.get("exit_code"@) == Some(JsonView::Null),
        raw@.str_at("stdout"@) == Some(stdout@),
        raw@.str_at("stderr"@) == Some(stderr@),
        raw@ is Object && raw@->Object_0.len() == 4,
{
    commands::lemma_raw_fields(ok, exit_code, stdout@, stderr@);
}

/// The time limit is five seconds.
pub proof fn law_time_limit(d: std::time::Duration)
    requires
        call_ensures(config::default_timeout, (), d),
    ensures
        d == crate::clock::duration_from_secs(5),
{
}

/// What a run that ended by itself comes to, whatever its success: the exit
/// status, what is kept of the standard output under `stdout`, and what is kept
/// of the standard error under `stderr`.
pub open spec fn tells(
    raw: JsonView,
    success: bool,
    code: Option<i32>,
    stdout: Seq<u8>,
    stderr: Seq<u8>,
) -> bool {
    &&& raw.bool_at("ok"@) == Some(success)
    &&& code is Some ==> raw.get("exit_code"@) == Some(JsonView::Int(code->0 as int))
    &&& code is None ==> raw.get("exit_code"@) == Some(JsonView::Null)
    &&& raw.str_at("stdout"@) == Some(commands::bounded(stdout, 65_536, 512))
    &&& raw.str_at("stderr"@) == Some(commands::bounded(stderr, 8_192, 512))
}

/// A run that ended by itself is told as it was; one that did not is an error
/// that says why.
pub proof fn law_outcome_told(outcome: ProcessOutcome)
    ensures
        match outcome {
            ProcessOutcome::Exited { success, code, stdout, stderr } => {
                &&& commands::process_result(outcome) is Ok
                &&& tells(commands::process_result(outcome)->Ok_0, success, code, stdout@, stderr@)
            },
            ProcessOutcome::TimedOut => commands::process_result(outcome) == Err::<JsonView, _>(
                NetdiagErrorView::CommandExec { message: "timeout after 5s"@ },
            ),
            ProcessOutcome::SpawnFailed { error } => commands::process_result(outcome) == Err::<
                JsonView,
                _,
            >(NetdiagErrorView::CommandExec { message: "spawn failed: "@ + error@ }),
        },
{
    match outcome {
        ProcessOutcome::Exited { success, code, stdout, stderr } => {
            commands::lemma_raw_fields(
                success,
                code,
                commands::bounded(stdout@, 65_536, 512),
                commands::bounded(stderr@, 8_192, 512),
            );
        },
        _ => {
            lemma_timeout();
        },
    }
}

proof fn lemma_timeout()
    ensures
        commands::timeout_error() == (NetdiagErrorView::CommandExec {
            message: "timeout after 5s"@,
        }),
{
    reveal_strlit("timeout after ");
    reveal_strlit("timeout after 5s");
    reveal_strlit("s");
    assert(text::decimal(5) == seq!['5']);
    assert("timeout after "@ + text::decimal(5) + "s"@ =~= "timeout after 5s"@);
}

/// Both runners tell a run that ended by itself as it was.
pub proof fn law_run_told(
    runner: &CommandRunner,
    other: &compact::CommandRunner,
    outcome: ProcessOutcome,
    r: Result<Json, NetdiagError>,
)
    requires
        call_ensures(CommandRunner::run_process, (runner, outcome), r) || call_ensures(
            compact::CommandRunner::run_process,
            (other, outcome),
            r,
        ),
    ensures
        match outcome {
            ProcessOutcome::Exited { success, code, stdout, stderr } => r is Ok && tells(
                r->Ok_0@,
                success,
                code,
                stdout@,
                stderr@,
            ),
            ProcessOutcome::TimedOut => r is Err && r->Err_0@ == (NetdiagErrorView::CommandExec {
                message: "timeout after 5s"@,
            }),
            ProcessOutcome::SpawnFailed { error } => r is Err && r->Err_0@ == (
            NetdiagErrorView::CommandExec { message: "spawn failed: "@ + error@ }),
        },
{
    law_outcome_told(outcome);
}

/// Whether `bytes` are valid UTF-8 of at most `max` bytes and 512 lines, without
/// carriage returns.
pub open spec fn is_short_text(bytes: Seq<u8>, max: nat) -> bool {
    &&& valid_utf8(bytes)
    &&& bytes.len() <= max
    &&& !decode_utf8(bytes).contains('\r')
    &&& text::lines_of(decode_utf8(bytes)).len() <= 512
}

/// Output that is valid UTF-8, within the limits and without carriage returns
/// is given back whole, but for the blanks at its end: what stood on the
/// standard output under `stdout`, and what stood on the standard error under
/// `stderr`, whatever the success.
pub proof fn law_short_output_given_whole(
    runner: &CommandRunner,
    other: &compact::CommandRunner,
    outcome: ProcessOutcome,
    r: Result<Json, NetdiagError>,
)
    requires
        call_ensures(CommandRunner::run_process, (runner, outcome), r) || call_ensures(
            compact::CommandRunner::run_process,
            (other, outcome),
            r,
        ),
        outcome is Exited,
    ensures
        r is Ok,
        is_short_text(outcome->stdout@, 65_536) ==> r->Ok_0@.str_at("stdout"@) == Some(
            text::trimmed_end(decode_utf8(outcome->stdout@)),
        ),
        is_short_text(outcome->stderr@, 8_192) ==> r->Ok_0@.str_at("stderr"@) == Some(
            text::trimmed_end(decode_utf8(outcome->stderr@)),
        ),
{
    if is_short_text(outcome->stdout@, 65_536) {
        text_laws::law_short_text_kept(decode_utf8(outcome->stdout@), 512);
    }
    if is_short_text(outcome->stderr@, 8_192) {
        text_laws::law_short_text_kept(decode_utf8(outcome->stderr@), 512);
    }
}

/// A file that was read is told as a success with what is kept of its content
/// and nothing else; one that was not is an error that says why.
pub proof fn law_file_told(
    runner: &CommandRunner,
    outcome: ReadOutcome,
    r: Result<Json, NetdiagError>,
)
    requires
        call_ensures(CommandRunner::read_file, (runner, outcome), r),
    ensures
        match outcome {
            ReadOutcome::Read { bytes } => {
                &&& r is Ok
                &&& r->Ok_0@.bool_at("ok"@) == Some(true)
                &&& r->Ok_0@.get("exit_code"@) == Some(JsonView::Int(0))
                &&& r->Ok_0@.str_at("stdout"@) == Some(commands::bounded(bytes@, 65_536, 512))
                &&& r->Ok_0@.str_at("stderr"@) == Some(Seq::<char>::empty())
                &&& valid_utf8(bytes@) && bytes@.len() <= 65_536 && !decode_utf8(bytes@).contains(
                    '\r',
                ) && text::lines_of(decode_utf8(bytes@)).len() <= 512 ==> r->Ok_0@.str_at(
                    "stdout"@,
                ) == Some(text::trimmed_end(decode_utf8(bytes@)))
            },
            ReadOutcome::TimedOut => r is Err && r->Err_0@ == (NetdiagErrorView::CommandExec {
                message: "timeout after 5s"@,
            }),
            ReadOutcome::Failed { error } => r is Err && r->Err_0@ == (
            NetdiagErrorView::CommandExec { message: "read failed: "@ + error@ }),
        },
{
    lemma_timeout();
    match outcome {
        ReadOutcome::Read { bytes } => {
            reveal_strlit("");
            assert(""@ =~= Seq::<char>::empty());
            commands::lemma_raw_fields(
                true,
                Some(0),
                commands::bounded(bytes@, 65_536, 512),
                ""@,
            );
            if text::lines_of(decode_utf8(bytes@)).len() <= 512 && !decode_utf8(bytes@).contains(
                '\r',
            ) {
                text_laws::law_short_text_kept(decode_utf8(bytes@), 512);
            }
        },
        _ => {},
    }
}

/// Output that is cut is what is kept of its first bytes, and lines beyond the
/// limit are dropped.
pub proof fn law_bounded_text(bytes: &[u8], max_bytes: usize, max_lines: usize, s: String)
    requires
        call_ensures(commands::bounded_text, (bytes, max_bytes, max_lines), s) || call_ensures(
            compact::bounded_text,
            (bytes, max_bytes, max_lines),
            s,
        ),
    ensures
        exists|kept: Seq<Seq<char>>|
            {
                let shown = if bytes@.len() <= max_bytes {
                    bytes@
                } else {
                    bytes@.take(max_bytes as int)
                };
                let all = text::lines_of(commands::utf8_lossy(shown));
                &&& kept.is_prefix_of(all)
                &&& kept.len() == (if all.len() < max_lines {
                    all.len()
                } else {
                    max_lines as nat
                })
                &&& s@ == text::trimmed_end(#[trigger] text::terminated(kept))
            },
{
    let shown = if bytes@.len() <= max_bytes {
        bytes@
    } else {
        bytes@.take(max_bytes as int)
    };
    let all = text::lines_of(commands::utf8_lossy(shown));
    let kept = text::at_most(all, max_lines as nat);
    assert(kept.is_prefix_of(all));
    assert(s@ == text::trimmed_end(text::terminated(kept)));
}

} // verus!
