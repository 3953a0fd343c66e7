//! Plain data types that the library hands to callers and takes from them.

use crate::json::JsonValue;
use std::collections::HashMap;
use std::time::Duration;
use vstd::prelude::*;

verus! {

/// Relies on `Duration::from_secs`: a duration of whole seconds.
#[verifier::external_body]
pub(crate) fn duration_from_secs(secs: u64) -> (r: Duration) {
    Duration::from_secs(secs)
}

/// A running process as the listing reports it.
#[derive(Debug, Clone)]
pub struct ProcessInfo {
    pub pid: u32,
    pub tag: Option<String>,
    pub cmd: String,
    pub args: Vec<String>,
    pub envs: HashMap<String, String>,
    pub cwd: Option<String>,
}

/// Everything a finished command produced. `exit_code` is `-1` when no
/// exit code was observed.
#[derive(Debug, Clone)]
pub struct CommandResult {
    pub stdout: String,
    pub stderr: String,
    pub exit_code: i32,
    pub execution_time: Option<Duration>,
}

/// How a command is run.
#[derive(Debug, Clone)]
pub struct CommandOptions {
    pub envs: Option<HashMap<String, String>>,
    pub cwd: Option<String>,
    pub timeout: Option<Duration>,
    pub background: bool,
}

/// Seconds that a command may run by default.
pub const DEFAULT_COMMAND_TIMEOUT_SECS: u64 = 60;

impl Default for CommandOptions {
    /// No environment, no working directory, a one-minute timeout, in the
    /// foreground.
    fn default() -> (r: CommandOptions)
        ensures
            r.envs is None,
            r.cwd is None,
            r.timeout is Some,
            !r.background,
    {
        CommandOptions {
            envs: None,
            cwd: None,
            timeout: Some(duration_from_secs(DEFAULT_COMMAND_TIMEOUT_SECS)),
            background: false,
        }
    }
}

/// What the process service is asked to start.
#[derive(Debug, Clone)]
pub struct ProcessConfig {
    pub cmd: String,
    pub args: Vec<String>,
    pub envs: HashMap<String, String>,
    pub cwd: Option<String>,
}

/// Which stream a piece of output belongs to.
#[derive(Debug, Clone)]
pub enum ProcessOutputData {
    Stdout { data: String },
    Stderr { data: String },
}

/// Messages of the event-based protocol variant.
#[derive(Debug, Clone)]
pub enum RpcMessage {
    ProcessStart { id: String, config: ProcessConfig },
    ProcessOutput { pid: u32, output: ProcessOutputData },
    ProcessExit { pid: u32, exit_code: i32 },
    FilesystemEvent { path: String, event_type: String, timestamp: String },
    Error { message: String, code: Option<i32> },
    Ping,
    Pong,
}

/// A request of the JSON-RPC protocol variant.
#[derive(Debug)]
pub struct RpcRequest {
    pub id: String,
    pub method: String,
    pub params: JsonValue,
}

/// An error of the JSON-RPC protocol variant.
#[derive(Debug)]
pub struct RpcError {
    pub code: i32,
    pub message: String,
    pub data: Option<JsonValue>,
}

/// A response of the JSON-RPC protocol variant.
#[derive(Debug)]
pub struct RpcResponse {
    pub id: String,
    pub result: Option<JsonValue>,
    pub error: Option<RpcError>,
}

/// A request to run code in the interpreter.
#[derive(Debug, Clone)]
pub struct CodeExecutionRequest {
    pub code: String,
    pub language: Option<String>,
    pub context_id: Option<String>,
    pub env_vars: Option<HashMap<String, String>>,
}

/// One rich result of an interpreter run: its type and its data by format.
#[derive(Debug, Clone)]
pub struct Result {
    pub result_type: String,
    pub data: HashMap<String, String>,
}

/// An error raised by interpreted code.
#[derive(Debug, Clone)]
pub struct ExecutionError {
    pub name: String,
    pub value: String,
    pub traceback: String,
}

/// What an interpreter run produced.
#[derive(Debug, Clone)]
pub struct Execution {
    pub stdout: String,
    pub stderr: String,
    pub results: Vec<Result>,
    pub error: Option<ExecutionError>,
    pub is_main_result: bool,
}

/// One line of interpreter output.
#[derive(Debug, Clone)]
pub struct OutputMessage {
    pub line: String,
    pub timestamp: i64,
    pub error: bool,
}

/// An interpreter context.
#[derive(Debug, Clone)]
pub struct Context {
    pub id: String,
    pub language: String,
    pub cwd: String,
}

impl Context {
    pub fn new(id: String, language: String, cwd: String) -> (r: Context)
        ensures
            r.id == id,
            r.language == language,
            r.cwd == cwd,
    {
        Context { id, language, cwd }
    }
}

/// How interpreter code is run.
#[derive(Debug, Clone)]
pub struct CodeInterpreterOptions {
    pub language: Option<String>,
    pub context: Option<Context>,
    pub env_vars: Option<HashMap<String, String>>,
    pub timeout: Option<Duration>,
}

/// Seconds that interpreter code may run by default.
pub const DEFAULT_CODE_TIMEOUT_SECS: u64 = 300;

impl Default for CodeInterpreterOptions {
    /// Python, no context, no extra environment, a five-minute timeout.
    fn default() -> (r: CodeInterpreterOptions)
        ensures
            r.language matches Some(l) && l@ == "python"@,
            r.context is None,
            r.env_vars is None,
            r.timeout is Some,
    {
        CodeInterpreterOptions {
            language: Some("python".to_string()),
            context: None,
            env_vars: None,
            timeout: Some(duration_from_secs(DEFAULT_CODE_TIMEOUT_SECS)),
        }
    }
}

/// What the upload endpoint reports for one written file.
#[derive(Debug, Clone)]
pub struct WriteInfo {
    pub path: String,
    pub name: String,
    pub entry_type: Option<String>,
    pub size: Option<u64>,
}

/// The content of one file to write.
#[derive(Debug, Clone)]
pub enum WriteData {
    Text(String),
    Binary(Vec<u8>),
}

/// One file to write: where, and what.
#[derive(Debug, Clone)]
pub struct WriteEntry {
    pub path: String,
    pub data: WriteData,
}

impl WriteEntry {
    /// A text file.
    pub fn text(path: &str, data: &str) -> (r: WriteEntry)
        ensures
            r.path@ == path@,
            r.data matches WriteData::Text(t) && t@ == data@,
    {
        WriteEntry { path: path.to_string(), data: WriteData::Text(data.to_string()) }
    }

    /// A binary file.
    pub fn binary(path: &str, data: Vec<u8>) -> (r: WriteEntry)
        ensures
            r.path@ == path@,
            r.data == WriteData::Binary(data),
    {
        WriteEntry { path: path.to_string(), data: WriteData::Binary(data) }
    }
}

/// What happened to a watched path.
#[derive(Debug, Clone)]
pub enum FilesystemEventType {
    Create,
    Modify,
    Delete,
    Move,
}

/// How a file is read.
#[derive(Debug, Clone)]
pub enum ReadFormat {
    Text,
    Binary,
}

/// The content of a read file.
#[derive(Debug, Clone)]
pub enum ReadResult {
    Text(String),
    Binary(Vec<u8>),
}

/// The team of a sandbox record that names none.
pub fn default_team_id() -> (r: String)
    ensures
        r@ == "default"@,
{
    "default".to_string()
}

/// The default of a flag that is on unless stated.
pub fn default_true() -> (r: bool)
    ensures
        r,
{
    true
}

/// Severity of a sandbox log line.
#[derive(Debug, Clone)]
pub enum LogLevel {
    Debug,
    Info,
    Warn,
    Error,
}

/// A request to create a template.
#[derive(Debug, Clone)]
pub struct TemplateCreateRequest {
    pub name: String,
    pub description: Option<String>,
    pub dockerfile: String,
    pub start_cmd: Option<String>,
    pub cpu_count: Option<u32>,
    pub memory_mb: Option<u32>,
    pub disk_mb: Option<u32>,
}

/// State of a template build.
#[derive(Debug, Clone)]
pub enum BuildStatus {
    Building,
    Ready,
    Error,
    Canceled,
}

/// Severity of a template build log line.
#[derive(Debug, Clone)]
pub enum BuildLogLevel {
    Info,
    Error,
    Debug,
}

} // verus!
