//! Reading the answer of the process listing. The answer may be an array
//! of entries, an object with a `processes` array, or an empty object; each
//! entry's fields fall back to empty values when missing or malformed.

use crate::error::{Error, INTERNAL_STATUS};
use crate::json::JsonValue;
use crate::models::ProcessInfo;
use crate::text::{opt_chars, strings_view};
use std::collections::HashMap;
use vstd::prelude::*;
use vstd::std_specs::hash::{builds_valid_hashers, obeys_key_model};

verus! {

/// The entries that a listing answer holds, or nothing when the answer has
/// none of the accepted shapes.
pub open spec fn listing_entries(v: JsonValue) -> Option<Seq<JsonValue>> {
    match v {
        JsonValue::Array(a) => Some(a@),
        _ => match v.index_or_null("processes"@) {
            JsonValue::Array(a) => Some(a@),
            _ => match v {
                JsonValue::Object(entries) => if entries@.len() == 0 {
                    Some(Seq::empty())
                } else {
                    None
                },
                _ => None,
            },
        },
    }
}

/// The process id of an entry: its `pid` as an unsigned 64-bit integer,
/// cut to 32 bits, or 0.
pub open spec fn pid_of(v: JsonValue) -> u32 {
    match v {
        JsonValue::Integer(n) => if 0 <= n && n <= u64::MAX {
            (n % 4294967296) as u32
        } else {
            0
        },
        _ => 0,
    }
}

/// The text of a string value, or nothing.
pub open spec fn text_of(v: JsonValue) -> Option<Seq<char>> {
    match v {
        JsonValue::Str(s) => Some(s@),
        _ => None,
    }
}

/// The strings among some values, in order.
pub open spec fn string_items(items: Seq<JsonValue>) -> Seq<Seq<char>>
    decreases items.len(),
{
    if items.len() == 0 {
        Seq::empty()
    } else {
        let front = string_items(items.drop_last());
        match items.last() {
            JsonValue::Str(s) => front.push(s@),
            _ => front,
        }
    }
}

/// The string-valued members of an object, as a map.
pub open spec fn string_members(entries: Seq<(String, JsonValue)>) -> Map<String, String>
    decreases entries.len(),
{
    if entries.len() == 0 {
        Map::empty()
    } else {
        let front = string_members(entries.drop_last());
        match entries.last().1 {
            JsonValue::Str(s) => front.insert(entries.last().0, s),
            _ => front,
        }
    }
}

/// The arguments of a configuration: the strings of its `args` array.
pub open spec fn args_of(v: JsonValue) -> Seq<Seq<char>> {
    match v {
        JsonValue::Array(a) => string_items(a@),
        _ => Seq::empty(),
    }
}

/// The environment of a configuration: the string members of its `envs`
/// object.
pub open spec fn envs_of(v: JsonValue) -> Map<String, String> {
    match v {
        JsonValue::Object(entries) => string_members(entries@),
        _ => Map::empty(),
    }
}

/// Whether `info` is what the listing entry `p` describes.
pub open spec fn describes(info: ProcessInfo, p: JsonValue) -> bool {
    let config = p.index_or_null("config"@);
    &&& info.pid == pid_of(p.index_or_null("pid"@))
    &&& opt_chars(info.tag) == text_of(p.index_or_null("tag"@))
    &&& info.cmd@ == match text_of(config.index_or_null("cmd"@)) {
        Some(t) => t,
        None => Seq::empty(),
    }
    &&& strings_view(info.args@) == args_of(config.index_or_null("args"@))
    &&& (obeys_key_model::<String>() && builds_valid_hashers::<std::collections::hash_map::RandomState>())
        ==> info.envs@ == envs_of(config.index_or_null("envs"@))
    &&& opt_chars(info.cwd) == text_of(config.index_or_null("cwd"@))
}

fn member_text(v: &JsonValue, key: &str) -> (r: Option<String>)
    ensures
        opt_chars(r) == text_of(v.index_or_null(key@)),
{
    match v.get(key) {
        Some(JsonValue::Str(s)) => Some(s.clone()),
        _ => None,
    }
}

fn strings_in(items: &Vec<JsonValue>) -> (r: Vec<String>)
    ensures
        strings_view(r@) == string_items(items@),
{
    let mut out: Vec<String> = Vec::new();
    let mut i: usize = 0;
    while i < items.len()
        invariant
            i <= items@.len(),
            strings_view(out@) == string_items(items@.subrange(0, i as int)),
        decreases items@.len() - i,
    {
        let ghost prefix = items@.subrange(0, i as int);
        let ghost next = items@.subrange(0, i + 1);
        assert(next.drop_last() =~= prefix);
        let ghost before = out@;
        match &items[i] {
            JsonValue::Str(s) => {
                out.push(s.clone());
                assert(strings_view(out@) =~= strings_view(before).push(s@));
            },
            _ => {},
        }
        i = i + 1;
    }
    assert(items@.subrange(0, i as int) =~= items@);
    out
}

fn string_map(entries: &Vec<(String, JsonValue)>) -> (r: HashMap<String, String>)
    ensures
        (obeys_key_model::<String>() && builds_valid_hashers::<std::collections::hash_map::RandomState>())
            ==> r@ == string_members(entries@),
{
    let mut out: HashMap<String, String> = HashMap::new();
    let mut i: usize = 0;
    while i < entries.len()
        invariant
            i <= entries@.len(),
            (obeys_key_model::<String>() && builds_valid_hashers::<std::collections::hash_map::RandomState>())
                ==> out@ == string_members(entries@.subrange(0, i as int)),
        decreases entries@.len() - i,
    {
        let ghost prefix = entries@.subrange(0, i as int);
        let ghost next = entries@.subrange(0, i + 1);
        assert(next.drop_last() =~= prefix);
        match &entries[i].1 {
            JsonValue::Str(s) => {
                out.insert(entries[i].0.clone(), s.clone());
            },
            _ => {},
        }
        i = i + 1;
    }
    assert(entries@.subrange(0, i as int) =~= entries@);
    out
}

/// Reads one listing entry, with empty values for what is missing or
/// malformed.
pub fn process_info_from(p: &JsonValue) -> (r: ProcessInfo)
    ensures
        describes(r, *p),
{
    let pid: u32 = match p.get("pid") {
        Some(JsonValue::Integer(n)) => if 0 <= *n && *n <= 18446744073709551615 {
            (*n % 4294967296) as u32
        } else {
            0
        },
        _ => 0,
    };
    let tag = member_text(p, "tag");
    let (cmd, args, envs, cwd) = match p.get("config") {
        Some(config) => {
            let cmd = match member_text(config, "cmd") {
                Some(c) => c,
                None => String::new(),
            };
            let args = match config.get("args") {
                Some(JsonValue::Array(a)) => strings_in(a),
                _ => Vec::new(),
            };
            let envs = match config.get("envs") {
                Some(JsonValue::Object(e)) => string_map(e),
                _ => HashMap::new(),
            };
            let cwd = member_text(config, "cwd");
            (cmd, args, envs, cwd)
        },
        None => (String::new(), Vec::new(), HashMap::new(), None),
    };
    proof {
        assert(strings_view(Seq::<String>::empty()) =~= Seq::<Seq<char>>::empty());
    }
    ProcessInfo { pid, tag, cmd, args, envs, cwd }
}

/// Reads the answer of the process listing into one record per entry, in
/// order. Any shape other than an array, an object with a `processes`
/// array, or an empty object is an error.
pub fn parse_process_list(response: &JsonValue) -> (r: core::result::Result<Vec<ProcessInfo>, Error>)
    ensures
        match listing_entries(*response) {
            Some(entries) => r matches Ok(infos) && infos@.len() == entries.len() && forall|i: int|
                0 <= i < entries.len() ==> describes(#[trigger] infos@[i], entries[i]),
            None => r matches Err(Error::Api { status, .. }) && status == INTERNAL_STATUS,
        },
{
    let empty: Vec<JsonValue> = Vec::new();
    let entries: &Vec<JsonValue> = match response {
        JsonValue::Array(a) => a,
        _ => match response.get("processes") {
            Some(JsonValue::Array(a)) => a,
            _ => match response {
                JsonValue::Object(members) => if members.len() == 0 {
                    &empty
                } else {
                    return Err(Error::api(INTERNAL_STATUS, "Invalid response format: expected array or object with 'processes' field"));
                },
                _ => {
                    return Err(Error::api(INTERNAL_STATUS, "Invalid response format: expected array or object with 'processes' field"));
                },
            },
        },
    };
    assert(listing_entries(*response) == Some(entries@));
    let mut out: Vec<ProcessInfo> = Vec::new();
    let mut i: usize = 0;
    while i < entries.len()
        invariant
            i <= entries@.len(),
            out@.len() == i,
            forall|j: int| 0 <= j < i ==> describes(#[trigger] out@[j], entries@[j]),
        decreases entries@.len() - i,
    {
        let info = process_info_from(&entries[i]);
        out.push(info);
        i = i + 1;
    }
    Ok(out)
}

} // verus!
