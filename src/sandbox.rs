//! Rules of a created sandbox: where its services are reached, whether it
//! runs the code interpreter, and how its log levels are read.

use crate::error::{Error, INTERNAL_STATUS};
use crate::json::JsonValue;
use crate::models::LogLevel;
use crate::text::{find_from, find_text};
use vstd::prelude::*;
use vstd::string::StrSliceExecFns;

verus! {

/// The host of a sandbox service: `<port>-<sandbox id>.<domain>`, over
/// HTTPS.
pub open spec fn service_url(port: Seq<char>, sandbox_id: Seq<char>, domain: Seq<char>) -> Seq<char> {
    "https://"@ + port + "-"@ + sandbox_id + "."@ + domain
}

/// The port of the process and filesystem service, as text.
pub open spec fn envd_port() -> Seq<char> {
    "49983"@
}

/// The port of the code interpreter service, as text.
pub open spec fn jupyter_port() -> Seq<char> {
    "49999"@
}

fn url_for(port: &str, sandbox_id: &str, domain: &str) -> (r: String)
    ensures
        r@ == service_url(port@, sandbox_id@, domain@),
{
    let mut url = String::from_str("https://");
    url.append(port);
    url.append("-");
    url.append(sandbox_id);
    url.append(".");
    url.append(domain);
    url
}

/// The address of a sandbox's process and filesystem service.
pub fn envd_url(sandbox_id: &str, domain: &str) -> (r: String)
    ensures
        r@ == service_url(envd_port(), sandbox_id@, domain@),
{
    url_for("49983", sandbox_id, domain)
}

/// The address of a sandbox's code interpreter service.
pub fn jupyter_url(sandbox_id: &str, domain: &str) -> (r: String)
    ensures
        r@ == service_url(jupyter_port(), sandbox_id@, domain@),
{
    url_for("49999", sandbox_id, domain)
}

/// The marker of templates that run the code interpreter.
pub open spec fn interpreter_marker() -> Seq<char> {
    "code-interpreter"@
}

/// Whether a sandbox runs the code interpreter: its template id or its
/// alias names it.
pub open spec fn runs_interpreter(template_id: Seq<char>, alias: Option<Seq<char>>) -> bool {
    find_from(template_id, interpreter_marker(), 0) is Some || match alias {
        Some(a) => find_from(a, interpreter_marker(), 0) is Some,
        None => false,
    }
}

/// Whether a sandbox with this template id and alias runs the code
/// interpreter.
pub fn is_code_interpreter(template_id: &str, alias: Option<&str>) -> (r: bool)
    ensures
        r == runs_interpreter(template_id@, match alias {
            Some(a) => Some(a@),
            None => None,
        }),
{
    let marker = "code-interpreter";
    if find_text(template_id, marker, 0).is_some() {
        return true;
    }
    match alias {
        Some(a) => find_text(a, marker, 0).is_some(),
        None => false,
    }
}

/// A text in lower case, as Unicode defines it.
pub uninterp spec fn lower_of(s: Seq<char>) -> Seq<char>;

/// Relies on `str::to_lowercase`: the lower-case form depends on the
/// characters alone.
#[verifier::external_body]
fn lowercase(s: &str) -> (r: String)
    ensures
        r@ == lower_of(s@),
{
    s.to_lowercase()
}

/// The level that a lower-case level name stands for; `Info` for any
/// name it does not know.
pub open spec fn level_named(name: Seq<char>) -> LogLevel {
    if name == "debug"@ {
        LogLevel::Debug
    } else if name == "warn"@ || name == "warning"@ {
        LogLevel::Warn
    } else if name == "error"@ {
        LogLevel::Error
    } else {
        LogLevel::Info
    }
}

/// The level of a lower-case level name.
pub fn level_from_lowercase(name: &str) -> (r: LogLevel)
    ensures
        r == level_named(name@),
{
    if crate::json::str_eq(name, "debug") {
        LogLevel::Debug
    } else if crate::json::str_eq(name, "warn") || crate::json::str_eq(name, "warning") {
        LogLevel::Warn
    } else if crate::json::str_eq(name, "error") {
        LogLevel::Error
    } else {
        LogLevel::Info
    }
}

/// The level of a log line's level name, in any case.
pub fn parse_log_level(level: &str) -> (r: LogLevel)
    ensures
        r == level_named(lower_of(level@)),
{
    let lower = lowercase(level);
    level_from_lowercase(lower.as_str())
}

/// The parts of a sandbox log line that its JSON gives: the level, the
/// message and the service that wrote it.
#[derive(Debug, Clone)]
pub struct LogRecord {
    pub level: LogLevel,
    pub message: String,
    pub source: String,
}

/// The text of the string member `key`, if there is one.
pub open spec fn member_str(v: JsonValue, key: Seq<char>) -> Option<Seq<char>> {
    match v.index_or_null(key) {
        JsonValue::Str(s) => Some(s@),
        _ => None,
    }
}

/// The writer of a structured log entry: the `service` of its `fields`,
/// else their `logger`, else `unknown`.
pub open spec fn log_source(v: JsonValue) -> Seq<char> {
    let fields = v.index_or_null("fields"@);
    match member_str(fields, "service"@) {
        Some(s) => s,
        None => match member_str(fields, "logger"@) {
            Some(l) => l,
            None => "unknown"@,
        },
    }
}

/// Whether `rec` is what the structured log entry `v` says.
pub open spec fn describes_log(rec: LogRecord, v: JsonValue) -> bool {
    &&& rec.level == level_named(lower_of(match member_str(v, "level"@) {
        Some(l) => l,
        None => "info"@,
    }))
    &&& rec.message@ == match member_str(v, "message"@) {
        Some(m) => m,
        None => Seq::<char>::empty(),
    }
    &&& rec.source@ == log_source(v)
}

fn str_member<'a>(v: &'a JsonValue, key: &str) -> (r: Option<&'a String>)
    ensures
        match r {
            Some(s) => member_str(*v, key@) == Some(s@),
            None => member_str(*v, key@) is None,
        },
{
    match v.get(key) {
        Some(JsonValue::Str(s)) => Some(s),
        _ => None,
    }
}

/// Reads a structured log entry: an object whose `level` (default `info`)
/// gives the level, whose `message` (default empty) the message, and whose
/// `fields` name the writer.
pub fn log_record_from(v: &JsonValue) -> (r: core::result::Result<LogRecord, Error>)
    ensures
        match v {
            JsonValue::Object(_) => r matches Ok(rec) && describes_log(rec, *v),
            _ => r matches Err(Error::Api { status, .. }) && status == INTERNAL_STATUS,
        },
{
    if let JsonValue::Object(_) = v {
    } else {
        return Err(Error::api(INTERNAL_STATUS, "Invalid log entry format"));
    }
    let level = match str_member(v, "level") {
        Some(l) => parse_log_level(l.as_str()),
        None => parse_log_level("info"),
    };
    let message = match str_member(v, "message") {
        Some(m) => m.clone(),
        None => String::new(),
    };
    let source = match v.get("fields") {
        Some(fields) => match str_member(fields, "service") {
            Some(s) => s.clone(),
            None => match str_member(fields, "logger") {
                Some(l) => l.clone(),
                None => "unknown".to_string(),
            },
        },
        None => "unknown".to_string(),
    };
    Ok(LogRecord { level, message, source })
}

/// Reads a plain log line: when its text is JSON (`parsed`) holding a
/// structured entry, that entry; else an `Info` record of the line itself,
/// written by `log`.
pub fn line_log_record(line: &str, parsed: Option<&JsonValue>) -> (r: LogRecord)
    ensures
        match parsed {
            Some(p) if p is Object => describes_log(r, *p),
            _ => r.level == LogLevel::Info && r.message@ == line@ && r.source@ == "log"@,
        },
{
    if let Some(p) = parsed {
        if let Ok(rec) = log_record_from(p) {
            return rec;
        }
    }
    LogRecord { level: LogLevel::Info, message: line.to_string(), source: "log".to_string() }
}

} // verus!
