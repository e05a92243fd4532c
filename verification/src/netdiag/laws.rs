//! What holds of the command table, the gates and the results as a whole.

use vstd::prelude::*;
use vstd::utf8::*;

use crate::assoc;
use crate::config;
use crate::errors::NetdiagErrorView;
use crate::json::JsonView;
use crate::netdiag;
use crate::netdiag::commands;
use crate::netdiag::commands::{
    InvocationView, OperationView, ProcessOutcome, ReadOutcome, RunnerView, BUILTIN_COMMAND_COUNT,
    PRIVILEGED_KEYS,
};
use crate::text;

verus! {

// A number that tells the built-in keys apart: length and first letter.
spec fn mark(key: Seq<char>) -> int {
    128 * key.len() + key[0] as int
}

// The place of the built-in key with a given mark.
spec fn place(mark: int) -> int {
    if mark == 1257 {
        0
    } else if mark == 1261 {
        1
    } else if mark == 1262 {
        2
    } else if mark == 882 {
        3
    } else if mark == 609 {
        4
    } else if mark == 1516 {
        5
    } else if mark == 1266 {
        6
    } else if mark == 754 {
        7
    } else if mark == 624 {
        8
    } else if mark == 1396 {
        9
    } else if mark == 1011 {
        10
    } else if mark == 1380 {
        11
    } else if mark == 1522 {
        12
    } else if mark == 997 {
        13
    } else if mark == 1126 {
        14
    } else if mark == 1251 {
        15
    } else if mark == 1908 {
        16
    } else if mark == 620 {
        17
    } else if mark == 1638 {
        18
    } else if mark == 1907 {
        19
    } else if mark == 740 {
        20
    } else if mark == 885 {
        21
    } else if mark == 877 {
        22
    } else if mark == 1510 {
        23
    } else {
        -1
    }
}

proof fn lemma_places()
    ensures
        commands::builtin_table().len() == BUILTIN_COMMAND_COUNT,
        forall|i: int|
            0 <= i < BUILTIN_COMMAND_COUNT ==> place(
                mark((#[trigger] commands::builtin_table()[i]).0),
            ) == i,
{
    let table = commands::builtin_table();
    reveal_strlit("if_status");
    assert(mark(table[0].0) == 1257);
    reveal_strlit("mac_table");
    assert(mark(table[1].0) == 1261);
    reveal_strlit("neighbors");
    assert(mark(table[2].0) == 1262);
    reveal_strlit("routes");
    assert(mark(table[3].0) == 882);
    reveal_strlit("addr");
    assert(mark(table[4].0) == 609);
    reveal_strlit("link_detail");
    assert(mark(table[5].0) == 1516);
    reveal_strlit("route_get");
    assert(mark(table[6].0) == 1266);
    reveal_strlit("rules");
    assert(mark(table[7].0) == 754);
    reveal_strlit("ping");
    assert(mark(table[8].0) == 624);
    reveal_strlit("traceroute");
    assert(mark(table[9].0) == 1396);
    reveal_strlit("sockets");
    assert(mark(table[10].0) == 1011);
    reveal_strlit("dns_status");
    assert(mark(table[11].0) == 1380);
    reveal_strlit("resolv_conf");
    assert(mark(table[12].0) == 1522);
    reveal_strlit("ethtool");
    assert(mark(table[13].0) == 997);
    reveal_strlit("firewall");
    assert(mark(table[14].0) == 1126);
    reveal_strlit("conntrack");
    assert(mark(table[15].0) == 1251);
    reveal_strlit("tcpdump_sample");
    assert(mark(table[16].0) == 1908);
    reveal_strlit("logs");
    assert(mark(table[17].0) == 620);
    reveal_strlit("failed_units");
    assert(mark(table[18].0) == 1638);
    reveal_strlit("service_status");
    assert(mark(table[19].0) == 1907);
    reveal_strlit("dmesg");
    assert(mark(table[20].0) == 740);
    reveal_strlit("uptime");
    assert(mark(table[21].0) == 885);
    reveal_strlit("memory");
    assert(mark(table[22].0) == 877);
    reveal_strlit("filesystems");
    assert(mark(table[23].0) == 1510);
}

/// There are [`BUILTIN_COMMAND_COUNT`] built-in commands, and no two of them
/// share a key.
pub proof fn law_builtin_keys_distinct(a: int, b: int)
    requires
        0 <= a < b < BUILTIN_COMMAND_COUNT,
    ensures
        commands::builtin_table().len() == BUILTIN_COMMAND_COUNT,
        commands::builtin_table()[a].0
            != commands::builtin_table()[b].0,
{
    lemma_places();
    let table = commands::builtin_table();
    assert(place(mark(table[a].0)) == a);
    assert(place(mark(table[b].0)) == b);
}

/// Every entry of the table is found under its key.
pub proof fn law_builtin_entry_found(i: int)
    requires
        0 <= i < BUILTIN_COMMAND_COUNT,
    ensures
        assoc::lookup(
            commands::builtin_table(),
            commands::builtin_table()[i].0,
        ) == Some(commands::builtin_table()[i].1),
{
    lemma_places();
    let table = commands::builtin_table();
    assert forall|a: int, b: int| 0 <= a < b < table.len() implies (#[trigger] table[a]).0 != (
    #[trigger] table[b]).0 by {
        law_builtin_keys_distinct(a, b);
    }
    assoc::lemma_lookup_distinct(table, i);
}

/// Every privileged key is a built-in key.
pub proof fn law_privileged_keys_built_in(key: Seq<char>)
    requires
        commands::is_privileged(key),
    ensures
        assoc::lookup(commands::builtin_table(), key) is Some,
{
    law_builtin_entry_found(8);
    law_builtin_entry_found(9);
    law_builtin_entry_found(16);
    law_builtin_entry_found(14);
    law_builtin_entry_found(15);
    law_builtin_entry_found(20);
}

/// The privileged commands, by their place in the table.
pub open spec fn privileged_places() -> Set<int> {
    set![8int, 9, 14, 15, 16, 20]
}

/// A built-in command is privileged if and only if it stands in one of the
/// privileged places of the table.
pub proof fn law_privileged_commands(i: int)
    requires
        0 <= i < BUILTIN_COMMAND_COUNT,
    ensures
        commands::is_privileged(commands::builtin_table()[i].0)
            <==> privileged_places().contains(i),
{
    lemma_places();
    let table = commands::builtin_table();
    let keys = PRIVILEGED_KEYS@;
    assert(keys[0]@ == table[8].0 && keys[1]@ == table[9].0 && keys[2]@ == table[16].0);
    assert(keys[3]@ == table[14].0 && keys[4]@ == table[15].0 && keys[5]@ == table[20].0);
    if commands::is_privileged(table[i].0) {
        let k = choose|k: int| 0 <= k < keys.len() && #[trigger] keys[k]@ == table[i].0;
        assert(place(mark(table[i].0)) == i);
        if k == 0 {
        } else if k == 1 {
        } else if k == 2 {
        } else if k == 3 {
        } else if k == 4 {
        } else {
        }
    }
}

/// The operator's filter only narrows: a command that is left runs exactly
/// what the built-in table pins for it, a command outside the filter is gone,
/// and a name that is not built in enables nothing.
pub proof fn law_filter_only_narrows(enabled: Option<Set<Seq<char>>>, key: Seq<char>)
    ensures
        assoc::lookup(commands::enabled_table(enabled), key) == (if enabled
            is None || enabled->0.contains(key) {
            assoc::lookup(commands::builtin_table(), key)
        } else {
            None
        }),
{
    match enabled {
        Some(keys) => {
            assoc::lemma_lookup_narrowed(
                commands::builtin_table(),
                keys,
                key,
            );
        },
        None => {},
    }
}

/// Both gates have to let a command pass: it is carried out if and only if it
/// is built in, the filter leaves it, it is not privileged or opted in to, and
/// no argument is handed to the reading of a file.
pub proof fn law_gates_compose(
    enabled: Option<Set<Seq<char>>>,
    privileged: Set<Seq<char>>,
    key: Seq<char>,
    extra: Seq<Seq<char>>,
)
    ensures
        (RunnerView {
            table: commands::enabled_table(enabled),
            privileged,
        }).decision(key, extra) is Ok <==> {
            &&& enabled is None || enabled->0.contains(key)
            &&& commands::passes_gate(key, privileged)
            &&& match assoc::lookup(commands::builtin_table(), key) {
                Some(OperationView::Process { .. }) => true,
                Some(OperationView::File { .. }) => extra.len() == 0,
                None => false,
            }
        },
{
    law_filter_only_narrows(enabled, key);
}

/// Whether `invocation` is what the built-in table pins for `key`, with
/// `extra` behind the pinned arguments.
pub open spec fn pinned(
    key: Seq<char>,
    extra: Seq<Seq<char>>,
    invocation: InvocationView,
) -> bool {
    match invocation {
        InvocationView::Spawn { program, args, timeout } => {
            &&& timeout == commands::time_limit()
            &&& exists|base: Seq<Seq<char>>|
                commands::builtin_table().contains(
                    (key, #[trigger] commands::process_view(program, base)),
                ) && args == base + extra
        },
        InvocationView::Read { path, timeout } => {
            &&& timeout == commands::time_limit()
            &&& commands::builtin_table().contains(
                (key, OperationView::File { path }),
            )
            &&& extra.len() == 0
        },
    }
}

/// What is carried out is pinned: the program and the leading arguments, or
/// the path, are those of the built-in table, the caller's arguments follow,
/// and the time limit is the configured one.
pub proof fn law_invocation_pinned(
    enabled: Option<Set<Seq<char>>>,
    privileged: Set<Seq<char>>,
    key: Seq<char>,
    extra: Seq<Seq<char>>,
)
    ensures
        match (RunnerView {
            table: commands::enabled_table(enabled),
            privileged,
        }).decision(key, extra) {
            Ok(invocation) => pinned(key, extra, invocation),
            Err(_) => true,
        },
{
    law_filter_only_narrows(enabled, key);
    let table = commands::builtin_table();
    assoc::lemma_lookup_entry(table, key);
    match assoc::lookup(table, key) {
        Some(OperationView::Process { program, base_args }) => {
            let op = commands::process_view(program, base_args);
            assert(table.contains((key, op)));
        },
        _ => {},
    }
}

/// The filter is asked first: a command outside it is refused as not allowed,
/// privileged or not, whatever the opt-in set.
pub proof fn law_filter_takes_precedence(
    enabled: Set<Seq<char>>,
    privileged: Set<Seq<char>>,
    key: Seq<char>,
    extra: Seq<Seq<char>>,
)
    requires
        !enabled.contains(key),
    ensures
        (RunnerView {
            table: commands::enabled_table(Some(enabled)),
            privileged,
        }).decision(key, extra) == Err::<InvocationView, _>(
            NetdiagErrorView::CommandNotAllowed { command: key },
        ),
{
    law_filter_only_narrows(Some(enabled), key);
}

/// Without opt-in every privileged command is refused, under the code of a
/// command that is not allowed.
pub proof fn law_privileged_refused_by_default(
    enabled: Option<Set<Seq<char>>>,
    key: Seq<char>,
    extra: Seq<Seq<char>>,
)
    requires
        commands::is_privileged(key),
    ensures
        match (RunnerView {
            table: commands::enabled_table(enabled),
            privileged: Set::empty(),
        }).decision(key, extra) {
            Ok(_) => false,
            Err(e) => e.code() == -32011 && (enabled is None || enabled->0.contains(key) ==> e
                == NetdiagErrorView::PrivilegedDisabled { key }),
        },
{
    law_filter_only_narrows(enabled, key);
    law_privileged_keys_built_in(key);
}

/// A blank opt-in value, and the value `none`, opt in to nothing.
pub proof fn law_blank_value_opts_in_to_nothing(raw: Seq<char>)
    requires
        text::trimmed(raw).len() == 0 || text::trimmed(raw) == "none"@,
    ensures
        config::opted_in_keys(raw) == Set::<Seq<char>>::empty(),
{
}

/// `all` in the opt-in set lets every command through.
pub proof fn law_all_opts_in_to_every_command(privileged: Set<Seq<char>>, key: Seq<char>)
    requires
        privileged.contains(config::PRIVILEGED_ALL_SENTINEL@),
    ensures
        commands::passes_gate(key, privileged),
{
}

/// Opting in to one key opens that key and no other privileged one; a name
/// that is no privileged key changes nothing.
pub proof fn law_opt_in_is_exact(privileged: Set<Seq<char>>, name: Seq<char>, key: Seq<char>)
    requires
        name != config::PRIVILEGED_ALL_SENTINEL@,
    ensures
        commands::passes_gate(key, privileged.insert(name)) <==> key == name
            || commands::passes_gate(key, privileged),
        !commands::is_privileged(name)
            ==> commands::passes_gate(key, privileged.insert(name))
            == commands::passes_gate(key, privileged),
{
}

/// A command that is not privileged needs no opt-in.
pub proof fn law_unprivileged_needs_no_opt_in(privileged: Set<Seq<char>>, key: Seq<char>)
    requires
        !commands::is_privileged(key),
    ensures
        commands::passes_gate(key, privileged),
{
}

/// Every refusal of the runner carries one of two codes: -32011 for a command
/// that is not allowed or not opted in to, -32012 for one that cannot be
/// carried out as asked.
pub proof fn law_refusal_codes(runner: RunnerView, key: Seq<char>, extra: Seq<Seq<char>>)
    ensures
        match runner.decision(key, extra) {
            Ok(_) => true,
            Err(e) => match e {
                NetdiagErrorView::CommandNotAllowed { .. } => e.code() == -32011,
                NetdiagErrorView::PrivilegedDisabled { .. } => e.code() == -32011,
                NetdiagErrorView::CommandExec { .. } => e.code() == -32012,
                NetdiagErrorView::InvalidParam { .. } => false,
            },
        },
{
}

/// What is kept of a command's output depends on its first `max_bytes` bytes
/// alone, and is made of the first `max_lines` lines of their text, or of all
/// of them if there are fewer.
pub proof fn law_output_bounded(bytes: Seq<u8>, max_bytes: nat, max_lines: nat)
    ensures
        commands::bounded(bytes, max_bytes, max_lines) == commands::bounded(
            text::at_most(bytes, max_bytes),
            max_bytes,
            max_lines,
        ),
        bytes.len() > max_bytes ==> commands::bounded(bytes, max_bytes, max_lines)
            == commands::bounded(bytes.take(max_bytes as int), max_bytes, max_lines),
        exists|kept: Seq<Seq<char>>|
            {
                let shown = if bytes.len() > max_bytes {
                    bytes.take(max_bytes as int)
                } else {
                    bytes
                };
                let all = text::lines_of(commands::utf8_lossy(shown));
                &&& kept.len() <= max_lines
                &&& kept.len() == (if all.len() < max_lines {
                    all.len()
                } else {
                    max_lines
                })
                &&& kept.is_prefix_of(all)
                &&& commands::bounded(bytes, max_bytes, max_lines) == text::trimmed_end(
                    #[trigger] text::terminated(kept),
                )
            },
{
    let all = text::lines_of(commands::utf8_lossy(text::at_most(bytes, max_bytes)));
    let kept = text::at_most(all, max_lines);
    assert(kept.is_prefix_of(all));
    assert(commands::bounded(bytes, max_bytes, max_lines) == text::trimmed_end(
        text::terminated(kept),
    ));
}

/// A program that ran to its end gives a result, whatever its exit status;
/// only one that could not be run gives an error, under code -32012.
pub proof fn law_exit_status_is_no_error(outcome: ProcessOutcome)
    ensures
        match commands::process_result(outcome) {
            Ok(raw) => {
                &&& outcome matches ProcessOutcome::Exited { success, .. }
                &&& raw.bool_at("ok"@) == Some(success)
            },
            Err(e) => outcome !is Exited && e.code() == -32012,
        },
{
    reveal_strlit("ok");
    reveal_strlit("exit_code");
    reveal_strlit("stdout");
    reveal_strlit("stderr");
}

/// A file that was read gives a successful result; one that was not gives an
/// error under code -32012.
pub proof fn law_read_result(outcome: ReadOutcome)
    ensures
        match commands::read_result(outcome) {
            Ok(raw) => outcome is Read && raw.bool_at("ok"@) == Some(true),
            Err(e) => outcome !is Read && e.code() == -32012,
        },
{
    reveal_strlit("ok");
    reveal_strlit("exit_code");
    reveal_strlit("stdout");
    reveal_strlit("stderr");
}

/// The envelope has six fields, each under its name, and hands the raw result
/// on unchanged. Its status is `ok` if the raw result tells of success and
/// `fail` if not.
pub proof fn law_envelope_fields(tool: Seq<char>, raw: JsonView)
    ensures
        ({
            let out = netdiag::envelope(tool, raw);
            let ok = netdiag::raw_ok(raw);
            let output = netdiag::raw_output(raw);
            &&& out.str_at("tool"@) == Some(tool)
            &&& out.str_at("status"@) == Some(
                if ok {
                    "ok"@
                } else {
                    "fail"@
                },
            )
            &&& out.str_at("signal"@) == Some(netdiag::signal(tool, ok))
            &&& out.str_at("evidence"@) == Some(
                netdiag::truncated(output, config::EVIDENCE_MAX_CHARS as nat),
            )
            &&& out.str_at("suggested_action"@) == Some(
                netdiag::action(tool, ok, output),
            )
            &&& out.get("raw"@) == Some(raw)
        }),
{
    broadcast use crate::json::lemma_get_with;

    reveal_strlit("tool");
    reveal_strlit("status");
    reveal_strlit("signal");
    reveal_strlit("evidence");
    reveal_strlit("suggested_action");
    reveal_strlit("raw");
    assert("tool"@[0] != "status"@[0]);
    assert("signal"@[1] == 'i' && "status"@[1] == 't' && "suggested_action"@[1] == 'u');
    assert("evidence"@[0] == 'e' && "raw"@[0] == 'r');
}

/// The evidence is the output itself where that has at most `max` bytes of
/// UTF-8, and otherwise a prefix of it, of at most `max` bytes, with an
/// ellipsis.
pub proof fn law_evidence_bounded(text: Seq<char>, max: nat)
    ensures
        encode_utf8(text).len() <= max ==> netdiag::truncated(text, max) == text,
        encode_utf8(text).len() > max ==> exists|n: int|
            {
                &&& 0 <= n < text.len()
                &&& encode_utf8(#[trigger] text.take(n)).len() <= max
                &&& encode_utf8(text.take(n + 1)).len() > max
                &&& netdiag::truncated(text, max) == text.take(n) + "..."@
            },
{
    if encode_utf8(text).len() > max {
        lemma_clipped_prefix(text, max);
        let n = text::clipped_bytes(text, max).len() as int;
        assert(text::clipped_bytes(text, max) == text.take(n));
        assert(text.take(text.len() as int) =~= text);
        assert(0 <= n < text.len() && encode_utf8(text.take(n + 1)).len() > max);
        assert(netdiag::truncated(text, max) == text.take(n) + "..."@);
    }
}

proof fn lemma_clipped_prefix(text: Seq<char>, max: nat)
    ensures
        ({
            let kept = text::clipped_bytes(text, max);
            &&& kept.len() <= text.len()
            &&& kept == text.take(kept.len() as int)
            &&& encode_utf8(kept).len() <= max
            &&& kept.len() < text.len() ==> encode_utf8(
                text.take((kept.len() + 1) as int),
            ).len() > max
        }),
    decreases text.len(),
{
    let kept = text::clipped_bytes(text, max);
    assert(text.take(text.len() as int) =~= text);
    if text.len() > 0 && encode_utf8(text).len() > max {
        let less = text.drop_last();
        lemma_clipped_prefix(less, max);
        assert(less.take(kept.len() as int) =~= text.take(kept.len() as int));
        if kept.len() < less.len() {
            assert(less.take((kept.len() + 1) as int) =~= text.take((kept.len() + 1) as int));
        }
    } else if text.len() == 0 {
        assert(encode_utf8(text).len() == 0);
    }
}

} // verus!
