//! Reading the line messages of the code interpreter into an execution
//! record. Each non-blank line of the interpreter's answer is one JSON
//! message; lines that are not JSON are skipped by the caller.

use crate::json::{str_eq, JsonValue};
use crate::listing::{string_members, text_of};
use crate::models::{Execution, ExecutionError, Result};
use std::collections::HashMap;
use vstd::prelude::*;
use vstd::std_specs::hash::{builds_valid_hashers, obeys_key_model};

verus! {

/// The text of the string member `key`, if there is one.
pub open spec fn member_text(v: JsonValue, key: Seq<char>) -> Option<Seq<char>> {
    text_of(v.index_or_null(key))
}

/// The output that a `stdout` or `stderr` message adds: its `text` as it
/// is, else its `line` or its `data` with a line break, else nothing.
pub open spec fn stream_piece(v: JsonValue) -> Seq<char> {
    match member_text(v, "text"@) {
        Some(t) => t,
        None => match member_text(v, "line"@) {
            Some(l) => l.push('\n'),
            None => match member_text(v, "data"@) {
                Some(d) => d.push('\n'),
                None => Seq::empty(),
            },
        },
    }
}

/// The members of a result message's `data` object.
pub open spec fn data_members(v: JsonValue) -> Seq<(String, JsonValue)> {
    match v.index_or_null("data"@) {
        JsonValue::Object(entries) => entries@,
        _ => Seq::empty(),
    }
}

/// Whether a result message carries anything: a `text` string or a string
/// member in its `data` object.
pub open spec fn result_has_data(v: JsonValue) -> bool {
    member_text(v, "text"@) is Some || exists|i: int|
        0 <= i < data_members(v).len() && #[trigger] data_members(v)[i].1 is Str
}

/// Whether a result message is the main result: its `is_main_result`
/// member when that is a boolean, else yes.
pub open spec fn main_result_flag(v: JsonValue) -> bool {
    match v.index_or_null("is_main_result"@) {
        JsonValue::Bool(b) => b,
        _ => true,
    }
}

fn text_member<'a>(v: &'a JsonValue, key: &str) -> (r: Option<&'a String>)
    ensures
        match r {
            Some(s) => member_text(*v, key@) == Some(s@),
            None => member_text(*v, key@) is None,
        },
{
    match v.get(key) {
        Some(JsonValue::Str(s)) => Some(s),
        _ => None,
    }
}

fn text_or(v: &JsonValue, key: &str, fallback: &str) -> (r: String)
    ensures
        r@ == match member_text(*v, key@) {
            Some(t) => t,
            None => fallback@,
        },
{
    match text_member(v, key) {
        Some(s) => s.clone(),
        None => fallback.to_string(),
    }
}

fn piece_of(v: &JsonValue) -> (r: String)
    ensures
        r@ == stream_piece(*v),
{
    match text_member(v, "text") {
        Some(t) => t.clone(),
        None => {
            let line = match text_member(v, "line") {
                Some(l) => Some(l),
                None => text_member(v, "data"),
            };
            match line {
                Some(l) => {
                    let mut out = l.clone();
                    out.append("\n");
                    proof {
                        reveal_strlit("\n");
                    }
                    assert(out@ =~= l@.push('\n'));
                    out
                },
                None => String::new(),
            }
        },
    }
}

/// The result record of a result message: the `text/plain` entry from its
/// `text`, then the string members of its `data` object.
fn result_data(v: &JsonValue) -> (r: (HashMap<String, String>, bool))
    ensures
        r.1 == result_has_data(*v),
        (obeys_key_model::<String>() && builds_valid_hashers::<std::collections::hash_map::RandomState>())
            ==> forall|k: String| #[trigger] string_members(data_members(*v)).contains_key(k)
            ==> r.0@.contains_key(k) && r.0@[k] == string_members(data_members(*v))[k],
{
    let mut data: HashMap<String, String> = HashMap::new();
    let mut any = false;
    match text_member(v, "text") {
        Some(t) => {
            data.insert("text/plain".to_string(), t.clone());
            any = true;
        },
        None => {},
    }
    let ghost first = data@;
    let empty: Vec<(String, JsonValue)> = Vec::new();
    let members: &Vec<(String, JsonValue)> = match v.get("data") {
        Some(JsonValue::Object(e)) => e,
        _ => &empty,
    };
    assert(members@ == data_members(*v));
    let ghost text_found = any;
    let mut seen_string = false;
    let mut i: usize = 0;
    while i < members.len()
        invariant
            i <= members@.len(),
            members@ == data_members(*v),
            text_found == (member_text(*v, "text"@) is Some),
            any == (text_found || seen_string),
            seen_string == exists|j: int| 0 <= j < i && #[trigger] members@[j].1 is Str,
            (obeys_key_model::<String>() && builds_valid_hashers::<std::collections::hash_map::RandomState>())
                ==> data@ == first.union_prefer_right(string_members(members@.subrange(0, i as int))),
        decreases members@.len() - i,
    {
        let ghost prefix = members@.subrange(0, i as int);
        let ghost next = members@.subrange(0, i + 1);
        assert(next.drop_last() =~= prefix);
        match &members[i].1 {
            JsonValue::Str(s) => {
                let ghost before = data@;
                data.insert(members[i].0.clone(), s.clone());
                proof {
                    if obeys_key_model::<String>() && builds_valid_hashers::<std::collections::hash_map::RandomState>() {
                        assert(data@ =~= first.union_prefer_right(string_members(next)));
                    }
                }
                seen_string = true;
                any = true;
            },
            _ => {
                proof {
                    assert(!(members@[i as int].1 is Str));
                }
            },
        }
        proof {
            if !seen_string {
                assert forall|j: int| 0 <= j < i + 1 implies !(#[trigger] members@[j].1 is Str) by {}
            }
        }
        i = i + 1;
    }
    assert(members@.subrange(0, i as int) =~= members@);
    (data, any)
}

/// Adds one interpreter message to an execution record. A `stdout` or
/// `stderr` message adds its piece of output; a `result` or
/// `display_data` message that carries data adds a result of that type
/// and sets whether it is the main result; an `error` message records the
/// error, with `Unknown` and empty texts for missing parts; a message of
/// another type changes nothing; and a message without a type adds its
/// `stdout` and `stderr` strings.
pub fn apply_interpreter_message(execution: &mut Execution, msg: &JsonValue)
    ensures
        match member_text(*msg, "type"@) {
            Some(kind) => if kind == "stdout"@ {
                final(execution).stdout@ == old(execution).stdout@ + stream_piece(*msg)
                    && final(execution).stderr == old(execution).stderr
                    && final(execution).results == old(execution).results
                    && final(execution).error == old(execution).error
                    && final(execution).is_main_result == old(execution).is_main_result
            } else if kind == "stderr"@ {
                final(execution).stderr@ == old(execution).stderr@ + stream_piece(*msg)
                    && final(execution).stdout == old(execution).stdout
                    && final(execution).results == old(execution).results
                    && final(execution).error == old(execution).error
                    && final(execution).is_main_result == old(execution).is_main_result
            } else if kind == "result"@ || kind == "display_data"@ {
                final(execution).stdout == old(execution).stdout
                    && final(execution).stderr == old(execution).stderr
                    && final(execution).error == old(execution).error
                    && if result_has_data(*msg) {
                        final(execution).results@.len() == old(execution).results@.len() + 1
                            && final(execution).results@.drop_last() == old(execution).results@
                            && final(execution).results@.last().result_type@ == kind
                            && ((obeys_key_model::<String>() && builds_valid_hashers::<std::collections::hash_map::RandomState>())
                                ==> forall|k: String| #[trigger] string_members(data_members(*msg)).contains_key(k)
                                ==> final(execution).results@.last().data@.contains_key(k)
                                && final(execution).results@.last().data@[k] == string_members(data_members(*msg))[k])
                            && final(execution).is_main_result == main_result_flag(*msg)
                    } else {
                        final(execution).results == old(execution).results
                            && final(execution).is_main_result == old(execution).is_main_result
                    }
            } else if kind == "error"@ {
                final(execution).stdout == old(execution).stdout
                    && final(execution).stderr == old(execution).stderr
                    && final(execution).results == old(execution).results
                    && final(execution).is_main_result == old(execution).is_main_result
                    && (final(execution).error matches Some(e)
                    && e.name@ == (match member_text(*msg, "name"@) { Some(t) => t, None => "Unknown"@ })
                    && e.value@ == (match member_text(*msg, "value"@) { Some(t) => t, None => Seq::<char>::empty() })
                    && e.traceback@ == (match member_text(*msg, "traceback"@) { Some(t) => t, None => Seq::<char>::empty() }))
            } else {
                *final(execution) == *old(execution)
            },
            None => final(execution).stdout@ == old(execution).stdout@ + (match member_text(*msg, "stdout"@) {
                Some(t) => t,
                None => Seq::<char>::empty(),
            }) && final(execution).stderr@ == old(execution).stderr@ + (match member_text(*msg, "stderr"@) {
                Some(t) => t,
                None => Seq::<char>::empty(),
            }) && final(execution).results == old(execution).results
                && final(execution).error == old(execution).error
                && final(execution).is_main_result == old(execution).is_main_result,
        },
{
    proof {
        reveal_strlit("stdout");
        reveal_strlit("stderr");
        reveal_strlit("result");
        reveal_strlit("display_data");
        reveal_strlit("error");
        reveal_strlit("");
    }
    let kind = match text_member(msg, "type") {
        Some(k) => k,
        None => {
            let out = text_or(msg, "stdout", "");
            let err = text_or(msg, "stderr", "");
            execution.stdout.append(out.as_str());
            execution.stderr.append(err.as_str());
            assert(""@ =~= Seq::<char>::empty());
            return;
        },
    };
    if str_eq(kind.as_str(), "stdout") {
        let piece = piece_of(msg);
        execution.stdout.append(piece.as_str());
    } else if str_eq(kind.as_str(), "stderr") {
        let piece = piece_of(msg);
        execution.stderr.append(piece.as_str());
    } else if str_eq(kind.as_str(), "result") || str_eq(kind.as_str(), "display_data") {
        let (data, any) = result_data(msg);
        if any {
            execution.results.push(Result { result_type: kind.clone(), data });
            execution.is_main_result = match msg.get("is_main_result") {
                Some(JsonValue::Bool(b)) => *b,
                _ => true,
            };
        }
    } else if str_eq(kind.as_str(), "error") {
        let name = text_or(msg, "name", "Unknown");
        let value = text_or(msg, "value", "");
        let traceback = text_or(msg, "traceback", "");
        execution.error = Some(ExecutionError { name, value, traceback });
    }
}

/// An execution record with nothing in it yet.
pub fn empty_execution() -> (r: Execution)
    ensures
        r.stdout@ == Seq::<char>::empty(),
        r.stderr@ == Seq::<char>::empty(),
        r.results@ == Seq::<Result>::empty(),
        r.error is None,
        !r.is_main_result,
{
    Execution {
        stdout: String::new(),
        stderr: String::new(),
        results: Vec::new(),
        error: None,
        is_main_result: false,
    }
}

} // verus!
