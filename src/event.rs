//! Process events, decoded from the JSON payload of each envelope, and the
//! rule that turns an end event into an exit code.

use crate::error::{Error, INTERNAL_STATUS};
use crate::json::JsonValue;
use crate::text::{find_text, lemma_find_from_found, parse_i32, parse_i32_text, second_piece, trim_text, trimmed};
use vstd::prelude::*;
use vstd::string::StrSliceExecFns;

verus! {

/// The remote process was created.
#[derive(Debug, Clone)]
pub struct ProcessStart {
    pub pid: u32,
}

/// A piece of output; each field is base64 text.
#[derive(Debug, Clone)]
pub struct ProcessData {
    pub stdout: Option<String>,
    pub stderr: Option<String>,
}

/// The process is over.
#[derive(Debug, Clone)]
pub struct ProcessEnd {
    pub exited: bool,
    pub status: String,
    pub exit_code: Option<i32>,
}

/// The three kinds of event on a process stream.
#[derive(Debug, Clone)]
pub enum ProcessEventData {
    Start { start: ProcessStart },
    Data { data: ProcessData },
    End { end: ProcessEnd },
}

/// One event on a process stream.
#[derive(Debug, Clone)]
pub struct ProcessEvent {
    pub event: ProcessEventData,
}

/// Exit code of a result for which no exit code was ever observed.
pub const UNKNOWN_EXIT_CODE: i32 = -1;

/// The text that precedes an exit code in a status line.
pub open spec fn exit_status_marker() -> Seq<char> {
    "exit status "@
}

/// The exit code that a status line such as `exit status 3` gives.
pub open spec fn status_exit_code(status: Seq<char>) -> Option<i32> {
    match second_piece(status, exit_status_marker()) {
        Some(p) => parse_i32(trimmed(p)),
        None => None,
    }
}

/// The exit code of an end event: its numeric field when present, else the
/// code in its status line, else the unknown exit code.
pub open spec fn resolved_exit_code(end: ProcessEnd) -> i32 {
    match end.exit_code {
        Some(c) => c,
        None => match status_exit_code(end.status@) {
            Some(c) => c,
            None => UNKNOWN_EXIT_CODE,
        },
    }
}

/// Reads the exit code out of a status line such as `exit status 3`: the
/// text after the first `exit status ` up to the next one, trimmed and read
/// as an `i32`.
pub fn exit_code_from_status(status: &str) -> (r: Option<i32>)
    ensures
        r == status_exit_code(status@),
{
    let marker = "exit status ";
    let m = marker.unicode_len();
    let n = status.unicode_len();
    match find_text(status, marker, 0) {
        None => None,
        Some(i) => {
            proof {
                lemma_find_from_found(status@, marker@, 0);
            }
            let start = i + m;
            let piece = match find_text(status, marker, start) {
                None => status.substring_char(start, n),
                Some(j) => {
                    proof {
                        lemma_find_from_found(status@, marker@, start as int);
                    }
                    status.substring_char(start, j)
                },
            };
            let t = trim_text(piece);
            parse_i32_text(t)
        },
    }
}

/// The exit code of an end event: its numeric field when present, else the
/// code in its status line, else `-1`.
pub fn resolve_exit_code(end: &ProcessEnd) -> (r: i32)
    ensures
        r == resolved_exit_code(*end),
{
    match end.exit_code {
        Some(c) => c,
        None => match exit_code_from_status(end.status.as_str()) {
            Some(c) => c,
            None => UNKNOWN_EXIT_CODE,
        },
    }
}

/// An optional string member: missing or `null` is `None`, a string is
/// `Some`, and anything else does not fit.
pub open spec fn optional_string(f: Option<JsonValue>) -> Option<Option<String>> {
    match f {
        None => Some(None),
        Some(JsonValue::Null) => Some(None),
        Some(JsonValue::Str(s)) => Some(Some(s)),
        _ => None,
    }
}

/// An optional `i32` member: missing or `null` is `None`, an integer in
/// range is `Some`, and anything else does not fit.
pub open spec fn optional_i32(f: Option<JsonValue>) -> Option<Option<i32>> {
    match f {
        None => Some(None),
        Some(JsonValue::Null) => Some(None),
        Some(JsonValue::Integer(n)) => if i32::MIN <= n && n <= i32::MAX {
            Some(Some(n as i32))
        } else {
            None
        },
        _ => None,
    }
}

/// The start record that a JSON value holds, if it has that shape.
pub open spec fn start_of(v: JsonValue) -> Option<ProcessStart> {
    match v.field("pid"@) {
        Some(JsonValue::Integer(n)) => if 0 <= n && n <= u32::MAX {
            Some(ProcessStart { pid: n as u32 })
        } else {
            None
        },
        _ => None,
    }
}

/// The output record that a JSON value holds, if it has that shape.
pub open spec fn data_of(v: JsonValue) -> Option<ProcessData> {
    if v is Object && optional_string(v.field("stdout"@)) is Some && optional_string(
        v.field("stderr"@),
    ) is Some {
        Some(
            ProcessData {
                stdout: optional_string(v.field("stdout"@))->0,
                stderr: optional_string(v.field("stderr"@))->0,
            },
        )
    } else {
        None
    }
}

/// The end record that a JSON value holds, if it has that shape.
pub open spec fn end_of(v: JsonValue) -> Option<ProcessEnd> {
    match (v.field("exited"@), v.field("status"@)) {
        (Some(JsonValue::Bool(b)), Some(JsonValue::Str(s))) => match optional_i32(
            v.field("exit_code"@),
        ) {
            Some(c) => Some(ProcessEnd { exited: b, status: s, exit_code: c }),
            None => None,
        },
        _ => None,
    }
}

/// The event kind that a JSON value holds: the first of start, output and
/// end whose member is present and has the right shape.
pub open spec fn event_data_of(v: JsonValue) -> Option<ProcessEventData> {
    let start = match v.field("start"@) {
        Some(s) => start_of(s),
        None => None,
    };
    let data = match v.field("data"@) {
        Some(d) => data_of(d),
        None => None,
    };
    let end = match v.field("end"@) {
        Some(e) => end_of(e),
        None => None,
    };
    if start is Some {
        Some(ProcessEventData::Start { start: start->0 })
    } else if data is Some {
        Some(ProcessEventData::Data { data: data->0 })
    } else if end is Some {
        Some(ProcessEventData::End { end: end->0 })
    } else {
        None
    }
}

/// The event that a payload holds, if it has the shape of one.
pub open spec fn event_of(v: JsonValue) -> Option<ProcessEvent> {
    match v.field("event"@) {
        Some(e) => match event_data_of(e) {
            Some(d) => Some(ProcessEvent { event: d }),
            None => None,
        },
        None => None,
    }
}

/// The message of a remote error report: its `message` member when that is
/// a string.
pub open spec fn remote_error_message(e: JsonValue) -> Seq<char> {
    match e.field("message"@) {
        Some(JsonValue::Str(m)) => m@,
        _ => "Unknown error"@,
    }
}

fn optional_string_member(v: &JsonValue, key: &str) -> (r: Result<Option<String>, ()>)
    ensures
        match r {
            Ok(s) => optional_string(v.field(key@)) == Some(s),
            Err(_) => optional_string(v.field(key@)) is None,
        },
{
    match v.get(key) {
        None => Ok(None),
        Some(JsonValue::Null) => Ok(None),
        Some(JsonValue::Str(s)) => Ok(Some(s.clone())),
        Some(_) => Err(()),
    }
}

fn start_from(v: &JsonValue) -> (r: Option<ProcessStart>)
    ensures
        r == start_of(*v),
{
    match v.get("pid") {
        Some(JsonValue::Integer(n)) => if 0 <= *n && *n <= 4294967295 {
            Some(ProcessStart { pid: *n as u32 })
        } else {
            None
        },
        _ => None,
    }
}

fn data_from(v: &JsonValue) -> (r: Option<ProcessData>)
    ensures
        r == data_of(*v),
{
    if let JsonValue::Object(_) = v {
    } else {
        return None;
    }
    let stdout = optional_string_member(v, "stdout");
    let stderr = optional_string_member(v, "stderr");
    match (stdout, stderr) {
        (Ok(o), Ok(e)) => Some(ProcessData { stdout: o, stderr: e }),
        _ => None,
    }
}

fn end_from(v: &JsonValue) -> (r: Option<ProcessEnd>)
    ensures
        r == end_of(*v),
{
    let exited = v.get("exited");
    let status = v.get("status");
    let code = match v.get("exit_code") {
        None => Ok(None),
        Some(JsonValue::Null) => Ok(None),
        Some(JsonValue::Integer(n)) => if -2147483648 <= *n && *n <= 2147483647 {
            Ok(Some(*n as i32))
        } else {
            Err(())
        },
        Some(_) => Err(()),
    };
    match (exited, status, code) {
        (Some(JsonValue::Bool(b)), Some(JsonValue::Str(s)), Ok(c)) => Some(
            ProcessEnd { exited: *b, status: s.clone(), exit_code: c },
        ),
        _ => None,
    }
}

/// Reads the event kind out of the value of an event's `event` member.
pub fn event_data_from(v: &JsonValue) -> (r: Option<ProcessEventData>)
    ensures
        r == event_data_of(*v),
{
    let start = match v.get("start") {
        Some(s) => start_from(s),
        None => None,
    };
    if let Some(s) = start {
        return Some(ProcessEventData::Start { start: s });
    }
    let data = match v.get("data") {
        Some(d) => data_from(d),
        None => None,
    };
    if let Some(d) = data {
        return Some(ProcessEventData::Data { data: d });
    }
    let end = match v.get("end") {
        Some(e) => end_from(e),
        None => None,
    };
    match end {
        Some(e) => Some(ProcessEventData::End { end: e }),
        None => None,
    }
}

/// Turns the JSON payload of one envelope into an event. A payload with an
/// `error` member is a remote error report; one that holds no event fails
/// to decode.
pub fn classify_payload(v: &JsonValue) -> (r: Result<ProcessEvent, Error>)
    ensures
        match v.field("error"@) {
            Some(e) => r matches Err(Error::Api { status, message }) && status == INTERNAL_STATUS
                && message@ == "Server error: "@ + remote_error_message(e),
            None => match event_of(*v) {
                Some(ev) => r == Ok::<ProcessEvent, Error>(ev),
                None => r matches Err(Error::Api { status, .. }) && status == INTERNAL_STATUS,
            },
        },
{
    if let Some(e) = v.get("error") {
        let mut message = String::from_str("Server error: ");
        match e.get("message") {
            Some(JsonValue::Str(m)) => message.append(m.as_str()),
            _ => message.append("Unknown error"),
        }
        return Err(Error::Api { status: INTERNAL_STATUS, message });
    }
    let event = match v.get("event") {
        Some(e) => event_data_from(e),
        None => None,
    };
    match event {
        Some(d) => Ok(ProcessEvent { event: d }),
        None => Err(Error::api(INTERNAL_STATUS, "Failed to parse process event")),
    }
}

} // verus!
