//! What becomes of a call: its answer and its two rows in the journal.

use vstd::prelude::*;

use crate::clock;
use crate::errors::NetdiagError;
use crate::json::{Json, JsonView};
use crate::mcp::journal;
use crate::mcp::journal::JournalEntry;
use crate::mcp::timestamps;
use crate::mcp::{CallToolResult, NetdiagServer, ToolRequest};
use crate::netdiag;
use crate::netdiag::commands;
use crate::netdiag::commands::{CommandRunner, ProcessOutcome};
use crate::netdiag::envelope_laws;
use crate::netdiag::laws;
use crate::netdiag::runner_laws;
use crate::protocol;

verus! {

// ---- the answer -----------------------------------------------------------

/// A raw result is answered with the envelope that is made of it, and with
/// nothing else.
pub proof fn law_result_is_answered(
    request: &ToolRequest,
    raw: Json,
    r: Result<CallToolResult, protocol::Error>,
    out: Json,
)
    requires
        call_ensures(ToolRequest::complete, (request, Ok(raw)), r),
        call_ensures(netdiag::normalize_tool_result, (request.tool, raw), out),
    ensures
        r is Ok,
        r->Ok_0.structured_content is Some,
        r->Ok_0.structured_content->0@ == out@,
{
    assert(r->Ok_0@ == Some(out@));
}

/// An error is answered as it stands on the wire.
pub proof fn law_error_is_answered(
    request: &ToolRequest,
    error: NetdiagError,
    r: Result<CallToolResult, protocol::Error>,
    wire: protocol::Error,
)
    requires
        call_ensures(ToolRequest::complete, (request, Err(error)), r),
        call_ensures(<protocol::Error as From<NetdiagError>>::from, (error,), wire),
    ensures
        r is Err,
        r->Err_0.code == wire.code,
        r->Err_0.message@ == wire.message@,
        r->Err_0.data is Some && wire.data is Some && r->Err_0.data->0@ == wire.data->0@,
{
    assert(r->Err_0@ == error@.wire() && wire@ == error@.wire());
}

/// From the outcome of a command to the answer: the status tells its success,
/// the evidence is a head of what is kept of its standard output, and the raw
/// result in the envelope tells the whole outcome.
pub proof fn law_outcome_is_answered(
    runner: &CommandRunner,
    request: &ToolRequest,
    outcome: ProcessOutcome,
    raw: Result<Json, NetdiagError>,
    r: Result<CallToolResult, protocol::Error>,
)
    requires
        call_ensures(CommandRunner::run_process, (runner, outcome), raw),
        call_ensures(ToolRequest::complete, (request, raw), r),
    ensures
        match outcome {
            ProcessOutcome::Exited { success, code, stdout, stderr } => {
                let envelope = r->Ok_0.structured_content->0@;
                &&& r is Ok
                &&& r->Ok_0.structured_content is Some
                &&& envelope.str_at("tool"@) == Some(request.tool@)
                &&& envelope.str_at("status"@) == Some(
                    if success {
                        "ok"@
                    } else {
                        "fail"@
                    },
                )
                &&& envelope.str_at("evidence"@) is Some
                &&& envelope_laws::is_head(
                    envelope.str_at("evidence"@)->0,
                    commands::bounded(stdout@, 65_536, 512),
                    500,
                )
                &&& envelope.get("raw"@) is Some
                &&& runner_laws::tells(envelope.get("raw"@)->0, success, code, stdout@, stderr@)
            },
            _ => r is Err && r->Err_0.code == -32012,
        },
{
    runner_laws::law_outcome_told(outcome);
    match outcome {
        ProcessOutcome::Exited { success, code, stdout, stderr } => {
            let view = raw->Ok_0@;
            assert(raw is Ok && view == commands::process_result(outcome)->Ok_0);
            laws::law_envelope_fields(request.tool@, view);
            laws::law_evidence_bounded(commands::bounded(stdout@, 65_536, 512), 500);
            assert(r->Ok_0@ == Some(netdiag::envelope(request.tool@, view)));
            assert(view.bool_at("ok"@) == Some(success));
            assert(view.str_at("stdout"@) == Some(commands::bounded(stdout@, 65_536, 512)));
        },
        _ => {
            assert(r->Err_0@ == raw->Err_0@.wire());
        },
    }
}

// ---- the journal ----------------------------------------------------------

/// A row tells of a moment that the clock showed when it was asked, of the
/// tool and the direction, and has no session.
pub open spec fn is_written_now(
    row: JournalEntry,
    tool: Seq<char>,
    direction: Seq<char>,
    summary: JsonView,
) -> bool {
    &&& row.tool@ == tool
    &&& row.direction@ == direction
    &&& row.session_id@ == "none"@
    &&& row.summary@ == summary
    &&& exists|secs: i64, millis: u32|
        {
            &&& #[trigger] clock::clock_read(secs, millis)
            &&& millis < 1000
            &&& row.ts@ == journal::timestamp(secs as int, millis as nat)
        }
}

proof fn lemma_row(
    row: JournalEntry,
    tool: Seq<char>,
    direction: Seq<char>,
    summary: JsonView,
)
    requires
        journal::is_row(row@, tool, direction, summary),
    ensures
        is_written_now(row, tool, direction, summary),
{
    let (secs, millis) = choose|secs: i64, millis: u32| #[trigger]
        clock::clock_read(secs, millis) && millis < 1000 && row@ == journal::row_at(
            secs as int,
            millis as nat,
            tool,
            direction,
            summary,
        );
    assert(clock::clock_read(secs, millis));
    assert(row@.ts == row.ts@ && row@.tool == row.tool@ && row@.direction == row.direction@);
    assert(row@.session_id == row.session_id@ && row@.summary == row.summary@);
}

/// A new row is written at the moment that the clock shows, with what it is
/// given.
pub proof fn law_new_row_is_of_now(
    tool: &str,
    direction: &'static str,
    summary: Json,
    row: JournalEntry,
)
    requires
        call_ensures(JournalEntry::new, (tool, direction, summary), row),
    ensures
        is_written_now(row, tool@, direction@, summary@),
{
    lemma_row(row, tool@, direction@, summary@);
}

/// The time stamp of a new row, read back in the years 0 to 9999, is what the
/// clock said.
pub proof fn law_new_row_reads_back_to_now(
    tool: &str,
    direction: &'static str,
    summary: Json,
    row: JournalEntry,
)
    requires
        call_ensures(JournalEntry::new, (tool, direction, summary), row),
    ensures
        exists|secs: i64, millis: u32|
            {
                &&& #[trigger] clock::clock_read(secs, millis)
                &&& timestamps::has_four_digit_year(secs as int) ==> timestamps::moment_of(
                    timestamps::fields_in(row.ts@),
                ) == (secs as int, millis as int)
            },
{
    lemma_row(row, tool@, direction@, summary@);
    let (secs, millis) = choose|secs: i64, millis: u32|
        {
            &&& #[trigger] clock::clock_read(secs, millis)
            &&& millis < 1000
            &&& row.ts@ == journal::timestamp(secs as int, millis as nat)
        };
    if timestamps::has_four_digit_year(secs as int) {
        timestamps::law_timestamp_reads_back(secs as int, millis as nat);
    }
    assert(clock::clock_read(secs, millis));
}

/// The present moment as text is that of a reading of the clock.
pub proof fn law_iso8601_now_is_of_the_clock(s: String)
    requires
        call_ensures(journal::iso8601_now, (), s),
    ensures
        exists|secs: i64, millis: u32| #[trigger]
            clock::clock_read(secs, millis) && s@ == journal::timestamp(
                secs as int,
                millis as nat,
            ),
{
}

/// A row of a given moment has the time stamp of that moment and what it is
/// given.
pub proof fn law_row_at_a_moment(
    secs: i64,
    millis: u32,
    tool: &str,
    direction: &'static str,
    summary: Json,
    row: JournalEntry,
    ts: String,
)
    requires
        call_ensures(JournalEntry::at, (secs, millis, tool, direction, summary), row),
        call_ensures(journal::iso8601_from_secs, (secs, millis), ts),
    ensures
        row.ts@ == ts@,
        row.tool@ == tool@,
        row.direction@ == direction@,
        row.session_id@ == "none"@,
        row.summary@ == summary@,
{
    assert(row@.ts == row.ts@ && row@.tool == row.tool@ && row@.direction == row.direction@);
    assert(row@.session_id == row.session_id@ && row@.summary == row.summary@);
}

/// With a journal every call leaves a row before it is dispatched, with the
/// arguments as they came; without one it leaves none.
pub proof fn law_call_leaves_a_row<R, J>(
    runner: R,
    journal: Option<J>,
    server: NetdiagServer<R, J>,
    tool: &str,
    arguments: Option<&Json>,
    row: Option<JournalEntry>,
)
    requires
        call_ensures(NetdiagServer::<R, J>::new, (runner, journal), server),
        call_ensures(NetdiagServer::<R, J>::call_started, (&server, tool, arguments), row),
    ensures
        row is Some <==> journal is Some,
        row is Some ==> {
            let summary = row->0.summary@;
            &&& is_written_now(row->0, tool@, "call"@, summary)
            &&& arguments is Some ==> summary.get("args"@) == Some(arguments->0@)
            &&& arguments is None ==> summary.get("args"@) == Some(JsonView::Null)
        },
{
    broadcast use crate::json::lemma_get_with;

    if row is Some {
        let args = match arguments {
            Some(v) => v@,
            None => JsonView::Null,
        };
        lemma_row(row->0, tool@, "call"@, journal::call_summary_view(args));
    }
}

/// The field of a structured result; null where there is none.
pub open spec fn field_of(content: Option<Json>, key: Seq<char>) -> JsonView {
    if content is Some && content->0@.get(key) is Some {
        content->0@.get(key)->0
    } else {
        JsonView::Null
    }
}

/// Whether `summary` sums up a success: its status, its signal, and the first
/// 128 characters of its evidence, or all of them if there are fewer.
pub open spec fn sums_up_success(summary: JsonView, content: Option<Json>) -> bool {
    let head = summary.str_at("evidence_head"@);
    &&& summary.bool_at("ok"@) == Some(true)
    &&& summary.get("status"@) == Some(field_of(content, "status"@))
    &&& summary.get("signal"@) == Some(field_of(content, "signal"@))
    &&& head is Some
    &&& match field_of(content, "evidence"@) {
        JsonView::Str(evidence) => {
            &&& head->0.is_prefix_of(evidence)
            &&& head->0.len() == (if evidence.len() < 128 {
                evidence.len()
            } else {
                128
            })
        },
        _ => head->0.len() == 0,
    }
}

/// Whether `summary` sums up an error: its code and its message.
pub open spec fn sums_up_error(summary: JsonView, code: int, message: Seq<char>) -> bool {
    &&& summary.bool_at("ok"@) == Some(false)
    &&& summary.get("error_code"@) == Some(JsonView::Int(code))
    &&& summary.str_at("error_message"@) == Some(message)
}

proof fn lemma_error_summary(e: protocol::ErrorView)
    ensures
        sums_up_error(journal::result_summary_view(Err(e)), e.code, e.message),
{
    broadcast use crate::json::lemma_get_with;

    reveal_strlit("ok");
    reveal_strlit("error_code");
    reveal_strlit("error_message");
    assert("ok"@.len() == 2 && "error_code"@.len() == 10 && "error_message"@.len() == 13);
}

proof fn lemma_success_summary(content: Option<Json>)
    ensures
        sums_up_success(
            journal::result_summary_view(
                Ok(
                    match content {
                        Some(v) => Some(v@),
                        None => None,
                    },
                ),
            ),
            content,
        ),
{
    broadcast use crate::json::lemma_get_with;

    reveal_strlit("ok");
    reveal_strlit("status");
    reveal_strlit("signal");
    reveal_strlit("evidence_head");
    assert("ok"@.len() == 2 && "status"@.len() == 6 && "evidence_head"@.len() == 13);
    assert("status"@[1] == 't' && "signal"@[1] == 'i' && "signal"@.len() == 6);
}

/// With a journal every call leaves a row after it has ended, which sums up
/// its success or its error; without one it leaves none.
pub proof fn law_result_leaves_a_row<R, J>(
    runner: R,
    journal: Option<J>,
    server: NetdiagServer<R, J>,
    tool: &str,
    result: Result<CallToolResult, protocol::Error>,
    row: Option<JournalEntry>,
)
    requires
        call_ensures(NetdiagServer::<R, J>::new, (runner, journal), server),
        call_ensures(NetdiagServer::<R, J>::call_finished, (&server, tool, &result), row),
    ensures
        row is Some <==> journal is Some,
        row is Some ==> {
            let summary = row->0.summary@;
            &&& is_written_now(row->0, tool@, "result"@, summary)
            &&& match result {
                Ok(answer) => sums_up_success(summary, answer.structured_content),
                Err(e) => sums_up_error(summary, e.code as int, e.message@),
            }
        },
{
    if row is Some {
        lemma_row(
            row->0,
            tool@,
            "result"@,
            journal::result_summary_view(crate::mcp::answer(result)),
        );
        match result {
            Ok(answer) => {
                lemma_success_summary(answer.structured_content);
            },
            Err(e) => {
                lemma_error_summary(e@);
            },
        }
    }
}

/// The summaries of a call and of a result hold what they sum up.
pub proof fn law_summaries(
    args: &Json,
    call: Json,
    answer: &CallToolResult,
    success: Json,
    e: &protocol::Error,
    failure: Json,
)
    requires
        call_ensures(journal::call_summary, (args,), call),
        call_ensures(journal::result_summary, (Ok(answer),), success),
        call_ensures(journal::result_summary, (Err(e),), failure),
    ensures
        call@.get("args"@) == Some(args@),
        sums_up_success(success@, answer.structured_content),
        sums_up_error(failure@, e.code as int, e.message@),
{
    broadcast use crate::json::lemma_get_with;

    lemma_success_summary(answer.structured_content);
    lemma_error_summary(e@);
}

/// A line of the journal is the row and a newline behind it.
pub proof fn law_journal_line(serialized: Vec<u8>, line: Vec<u8>)
    requires
        call_ensures(journal::journal_line, (serialized,), line),
    ensures
        line@.len() == serialized@.len() + 1,
        line@.last() == 10,
        forall|i: int| 0 <= i < serialized@.len() ==> #[trigger] line@[i] == serialized@[i],
{
}

// ---- the server -----------------------------------------------------------

/// A server hands out the runner and the journal that it was made with.
pub proof fn law_server_keeps_its_parts<R, J>(
    runner: R,
    journal: Option<J>,
    server: NetdiagServer<R, J>,
    kept: &R,
    row_goes_to: Option<&J>,
)
    requires
        call_ensures(NetdiagServer::<R, J>::new, (runner, journal), server),
        call_ensures(NetdiagServer::<R, J>::runner, (&server,), kept),
        call_ensures(NetdiagServer::<R, J>::journal, (&server,), row_goes_to),
    ensures
        *kept == runner,
        row_goes_to is Some <==> journal is Some,
        row_goes_to is Some ==> journal == Some(*row_goes_to->0),
{
}

/// A structured result holds the value that it is made of.
pub proof fn law_structured(value: Json, r: CallToolResult)
    requires
        call_ensures(CallToolResult::structured, (value,), r),
    ensures
        r.structured_content is Some,
        r.structured_content->0@ == value@,
{
    assert(r@ == Some(value@));
}

/// The head of the evidence is its first 128 characters, or all of it if it has
/// no more; without evidence it is empty.
pub proof fn law_evidence_head(structured: Option<&Json>, head: String)
    requires
        call_ensures(journal::evidence_head, (structured,), head),
    ensures
        structured is None ==> head@.len() == 0,
        structured is Some && structured->0@.str_at("evidence"@) is None ==> head@.len() == 0,
        structured is Some && structured->0@.str_at("evidence"@) is Some ==> {
            let evidence = structured->0@.str_at("evidence"@)->0;
            &&& head@.is_prefix_of(evidence)
            &&& evidence.len() <= 128 ==> head@.len() == evidence.len()
            &&& evidence.len() > 128 ==> head@.len() == 128
        },
{
}

} // verus!
