//! The rows of the audit journal.
//!
//! Every tool call leaves two rows: one of direction `call` before it is
//! dispatched, and one of direction `result` after. A row is one line of JSON
//! in an append-only file. The server has no sessions, so the `session_id` of
//! every row is [`JournalEntry::NO_SESSION`].
//!
//! Time stamps are ISO 8601, UTC, with milliseconds.

use vstd::prelude::*;
use vstd::string::*;

use crate::calendar;
use crate::clock::unix_now;
use crate::config;
use crate::json::{Json, JsonView};
use crate::mcp::CallToolResult;
use crate::protocol;
use crate::text::padded_text;

verus! {

/// One row of the journal.
#[derive(Debug, Clone)]
pub struct JournalEntry {
    pub ts: String,
    pub session_id: String,
    pub tool: String,
    pub direction: String,
    pub summary: Json,
}

/// The mathematical model of a [`JournalEntry`].
pub struct JournalEntryView {
    pub ts: Seq<char>,
    pub session_id: Seq<char>,
    pub tool: Seq<char>,
    pub direction: Seq<char>,
    pub summary: JsonView,
}

impl View for JournalEntry {
    type V = JournalEntryView;

    open spec fn view(&self) -> JournalEntryView {
        JournalEntryView {
            ts: self.ts@,
            session_id: self.session_id@,
            tool: self.tool@,
            direction: self.direction@,
            summary: self.summary@,
        }
    }
}

/// The row written at `secs` seconds and `millis` milliseconds after
/// 1970-01-01T00:00:00Z.
pub open spec fn row_at(
    secs: int,
    millis: nat,
    tool: Seq<char>,
    direction: Seq<char>,
    summary: JsonView,
) -> JournalEntryView {
    JournalEntryView {
        ts: timestamp(secs, millis),
        session_id: JournalEntry::NO_SESSION@,
        tool,
        direction,
        summary,
    }
}

/// Whether `row` is the row of a moment that the clock showed.
pub open spec fn is_row(
    row: JournalEntryView,
    tool: Seq<char>,
    direction: Seq<char>,
    summary: JsonView,
) -> bool {
    exists|secs: i64, millis: u32| #[trigger]
        crate::clock::clock_read(secs, millis) && millis < 1000 && row == row_at(
            secs as int,
            millis as nat,
            tool,
            direction,
            summary,
        )
}

impl JournalEntry {
    /// The direction of the row before a call is dispatched.
    pub const DIR_CALL: &'static str = "call";

    /// The direction of the row after a call has ended.
    pub const DIR_RESULT: &'static str = "result";

    /// The session of every row.
    pub const NO_SESSION: &'static str = "none";

    /// A row for the present moment.
    pub fn new(tool: &str, direction: &'static str, summary: Json) -> (row: JournalEntry)
        ensures
            is_row(row@, tool@, direction@, summary@),
    {
        let (secs, millis): (i64, u32) = unix_now();
        let ghost model = row_at(secs as int, millis as nat, tool@, direction@, summary@);
        let row: JournalEntry = JournalEntry::at(secs, millis, tool, direction, summary);
        assert(row@ == model);
        row
    }

    /// A row for the moment `secs` seconds and `millis` milliseconds after
    /// 1970-01-01T00:00:00Z.
    pub fn at(
        secs: i64,
        millis: u32,
        tool: &str,
        direction: &'static str,
        summary: Json,
    ) -> (row: JournalEntry)
        ensures
            row@ == row_at(secs as int, millis as nat, tool@, direction@, summary@),
    {
        JournalEntry {
            ts: iso8601_from_secs(secs, millis),
            session_id: JournalEntry::NO_SESSION.to_owned(),
            tool: tool.to_owned(),
            direction: direction.to_owned(),
            summary,
        }
    }
}

/// The byte that ends a line of the journal.
pub const NEWLINE: u8 = 10;

/// The line that a row takes in the journal, given the row as JSON.
pub fn journal_line(serialized: Vec<u8>) -> (line: Vec<u8>)
    ensures
        line@ == serialized@.push(NEWLINE),
{
    let mut line: Vec<u8> = serialized;
    line.push(NEWLINE);
    line
}

// ---- summaries ------------------------------------------------------------

/// The summary of a call: its arguments, whole.
pub open spec fn call_summary_view(args: JsonView) -> JsonView {
    JsonView::object().with("args"@, args)
}

/// Shapes the summary of a `call` row.
pub fn call_summary(args: &Json) -> (summary: Json)
    ensures
        summary@ == call_summary_view(args@),
{
    Json::object().with("args", args.clone())
}

/// The value under `key` of a structured result; null where there is none.
pub open spec fn field_or_null(structured: Option<JsonView>, key: Seq<char>) -> JsonView {
    match structured {
        Some(v) => match v.get(key) {
            Some(field) => field,
            None => JsonView::Null,
        },
        None => JsonView::Null,
    }
}

/// The first [`config::JOURNAL_HEAD_CHARS`] characters of the evidence in a
/// structured result; empty where there is none.
pub open spec fn evidence_head_view(structured: Option<JsonView>) -> Seq<char> {
    match structured {
        Some(v) => match v.str_at("evidence"@) {
            Some(evidence) => crate::text::at_most(evidence, config::JOURNAL_HEAD_CHARS as nat),
            None => Seq::empty(),
        },
        None => Seq::empty(),
    }
}

/// The summary of a result. An error is summed up by its code and message; a
/// success by its status, its signal and the head of its evidence.
pub open spec fn result_summary_view(
    result: Result<Option<JsonView>, protocol::ErrorView>,
) -> JsonView {
    match result {
        Err(e) => JsonView::object().with("ok"@, JsonView::Bool(false)).with(
            "error_code"@,
            JsonView::Int(e.code),
        ).with("error_message"@, JsonView::Str(e.message)),
        Ok(structured) => JsonView::object().with("ok"@, JsonView::Bool(true)).with(
            "status"@,
            field_or_null(structured, "status"@),
        ).with("signal"@, field_or_null(structured, "signal"@)).with(
            "evidence_head"@,
            JsonView::Str(evidence_head_view(structured)),
        ),
    }
}

/// Shapes the summary of a `result` row.
pub fn result_summary(result: Result<&CallToolResult, &protocol::Error>) -> (summary: Json)
    ensures
        summary@ == result_summary_view(
            match result {
                Ok(r) => Ok(r@),
                Err(e) => Err(e@),
            },
        ),
{
    match result {
        Err(e) => Json::object().with("ok", Json::Bool(false)).with(
            "error_code",
            Json::Int(e.code as i128),
        ).with("error_message", Json::text(e.message.as_str())),
        Ok(r) => {
            let structured: Option<&Json> = r.structured_content.as_ref();
            Json::object().with("ok", Json::Bool(true)).with(
                "status",
                copied_field(structured, "status"),
            ).with("signal", copied_field(structured, "signal")).with(
                "evidence_head",
                Json::Str(evidence_head(structured)),
            )
        },
    }
}

fn copied_field(structured: Option<&Json>, key: &str) -> (field: Json)
    ensures
        field@ == field_or_null(
            match structured {
                Some(v) => Some(v@),
                None => None,
            },
            key@,
        ),
{
    match structured {
        Some(v) => match v.get(key) {
            Some(field) => field.clone(),
            None => Json::Null,
        },
        None => Json::Null,
    }
}

/// The head of the evidence in a structured result.
pub fn evidence_head(structured: Option<&Json>) -> (head: String)
    ensures
        head@ == evidence_head_view(
            match structured {
                Some(v) => Some(v@),
                None => None,
            },
        ),
{
    proof {
        reveal_strlit("");
    }
    let evidence: &str = match structured {
        Some(v) => match v.str_at("evidence") {
            Some(s) => s,
            None => "",
        },
        None => "",
    };
    let len: usize = evidence.unicode_len();
    let head: String = if len <= config::JOURNAL_HEAD_CHARS {
        evidence.to_owned()
    } else {
        evidence.substring_char(0, config::JOURNAL_HEAD_CHARS).to_owned()
    };
    assert(head@ =~= crate::text::at_most(evidence@, config::JOURNAL_HEAD_CHARS as nat));
    head
}

// ---- time stamps ----------------------------------------------------------

/// A year in at least four characters; the sign of a negative one counts.
pub open spec fn year_text(year: int) -> Seq<char> {
    if year >= 0 {
        crate::text::zero_padded(crate::text::decimal(year as nat), 4)
    } else {
        seq!['-'] + crate::text::zero_padded(crate::text::decimal((-year) as nat), 3)
    }
}

/// A number in at least `width` digits.
pub open spec fn padded(n: int, width: nat) -> Seq<char> {
    crate::text::zero_padded(crate::text::decimal(n as nat), width)
}

/// The time stamp `YYYY-MM-DDTHH:MM:SS.sssZ` of a moment.
pub open spec fn timestamp(secs: int, millis: nat) -> Seq<char> {
    let date = calendar::date_of(secs / 86_400);
    let second = secs % 86_400;
    year_text(date.0) + "-"@ + padded(date.1, 2) + "-"@ + padded(date.2, 2) + "T"@ + padded(
        second / 3600,
        2,
    ) + ":"@ + padded((second % 3600) / 60, 2) + ":"@ + padded(second % 60, 2) + "."@ + padded(
        millis as int,
        3,
    ) + "Z"@
}

fn year_digits(year: i64) -> (s: String)
    ensures
        s@ == year_text(year as int),
{
    if year >= 0 {
        padded_text(year as u64, 4)
    } else {
        proof {
            reveal_strlit("-");
            assert("-"@ =~= seq!['-']);
        }
        let magnitude: i128 = -(year as i128);
        "-".to_owned().concat(padded_text(magnitude as u64, 3).as_str())
    }
}

/// Writes the moment `secs` seconds and `millis` milliseconds after
/// 1970-01-01T00:00:00Z as `YYYY-MM-DDTHH:MM:SS.sssZ`.
pub fn iso8601_from_secs(secs: i64, millis: u32) -> (s: String)
    ensures
        s@ == timestamp(secs as int, millis as nat),
{
    let days: i64 = secs.checked_div_euclid(86_400).unwrap();
    let second: i64 = secs.checked_rem_euclid(86_400).unwrap();
    let (year, month, day): (i64, u32, u32) = calendar::civil_from_days(days);
    let hours: u64 = second as u64 / 3600;
    let minutes: u64 = (second as u64 % 3600) / 60;
    let seconds: u64 = second as u64 % 60;
    year_digits(year).concat("-").concat(padded_text(month as u64, 2).as_str()).concat("-").concat(
        padded_text(day as u64, 2).as_str(),
    ).concat("T").concat(padded_text(hours, 2).as_str()).concat(":").concat(
        padded_text(minutes, 2).as_str(),
    ).concat(":").concat(padded_text(seconds, 2).as_str()).concat(".").concat(
        padded_text(millis as u64, 3).as_str(),
    ).concat("Z")
}

/// The present moment as `YYYY-MM-DDTHH:MM:SS.sssZ`.
pub fn iso8601_now() -> (s: String)
    ensures
        exists|secs: i64, millis: u32| #[trigger]
            crate::clock::clock_read(secs, millis) && millis < 1000 && s@ == timestamp(
                secs as int,
                millis as nat,
            ),
{
    let (secs, millis): (i64, u32) = unix_now();
    let s: String = iso8601_from_secs(secs, millis);
    assert(s@ == timestamp(secs as int, millis as nat));
    s
}

} // verus!
