//! Rules of the filesystem service's bodies: how file content is sent,
//! how binary content is read back, and what a write reports.

use crate::error::{Error, INTERNAL_STATUS};
use crate::json::JsonValue;
use crate::listing::text_of;
use crate::models::{WriteData, WriteInfo};
use crate::text::{base64_decoded, base64_encoded, decode_base64, encode_base64};
use vstd::prelude::*;

verus! {

/// The content and format name that a write sends: text as it is, binary
/// data as base64.
pub fn content_and_format(data: WriteData) -> (r: (String, String))
    requires
        data matches WriteData::Binary(b) ==> b@.len() <= usize::MAX / 2,
    ensures
        match data {
            WriteData::Text(t) => r.0 == t && r.1@ == "text"@,
            WriteData::Binary(b) => r.0@ == base64_encoded(b@) && r.1@ == "binary"@,
        },
{
    match data {
        WriteData::Text(t) => (t, "text".to_string()),
        WriteData::Binary(b) => (encode_base64(b.as_slice()), "binary".to_string()),
    }
}

/// The bytes of binary content that the service sends as base64.
pub fn decode_binary_content(content: &str) -> (r: core::result::Result<Vec<u8>, Error>)
    ensures
        match base64_decoded(content@) {
            Some(b) => r matches Ok(v) && v@ == b,
            None => r matches Err(Error::Api { status, .. }) && status == INTERNAL_STATUS,
        },
{
    match decode_base64(content) {
        Some(v) => Ok(v),
        None => Err(Error::api(INTERNAL_STATUS, "Failed to decode binary content")),
    }
}

/// The size member of a write report, when it is an unsigned 64-bit
/// integer.
pub open spec fn size_of(v: JsonValue) -> Option<u64> {
    match v {
        JsonValue::Integer(n) => if 0 <= n && n <= u64::MAX {
            Some(n as u64)
        } else {
            None
        },
        _ => None,
    }
}

/// Reads what a write reports: its `path` and `size` must be there; its
/// `name` and `type` are taken when they are strings.
pub fn write_info_from(v: &JsonValue) -> (r: core::result::Result<WriteInfo, Error>)
    ensures
        match (text_of(v.index_or_null("path"@)), size_of(v.index_or_null("size"@))) {
            (Some(p), Some(n)) => r matches Ok(info) && info.path@ == p && info.size == Some(n)
                && info.name@ == (match text_of(v.index_or_null("name"@)) {
                Some(t) => t,
                None => Seq::<char>::empty(),
            }) && match (info.entry_type, text_of(v.index_or_null("type"@))) {
                (Some(a), Some(b)) => a@ == b,
                (None, None) => true,
                _ => false,
            },
            _ => r matches Err(Error::Api { status, .. }) && status == INTERNAL_STATUS,
        },
{
    let path = match v.get("path") {
        Some(JsonValue::Str(p)) => p.clone(),
        _ => {
            return Err(Error::api(INTERNAL_STATUS, "Invalid response: missing path"));
        },
    };
    let size: u64 = match v.get("size") {
        Some(JsonValue::Integer(n)) => if 0 <= *n && *n <= 18446744073709551615 {
            *n as u64
        } else {
            return Err(Error::api(INTERNAL_STATUS, "Invalid response: missing size"));
        },
        _ => {
            return Err(Error::api(INTERNAL_STATUS, "Invalid response: missing size"));
        },
    };
    let name = match v.get("name") {
        Some(JsonValue::Str(n)) => n.clone(),
        _ => String::new(),
    };
    let entry_type = match v.get("type") {
        Some(JsonValue::Str(t)) => Some(t.clone()),
        _ => None,
    };
    Ok(WriteInfo { path, name, entry_type, size: Some(size) })
}

} // verus!
