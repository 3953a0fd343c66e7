//! The rules of a command session: how a command line becomes a process
//! configuration, how the events of its stream are drained into a result
//! (waiting, or in the background), and how the answers of the process
//! control calls are read.

use crate::error::{Error, BAD_REQUEST_STATUS, INTERNAL_STATUS, NOT_FOUND_STATUS};
use crate::event::{resolve_exit_code, resolved_exit_code, ProcessEvent, ProcessEventData, UNKNOWN_EXIT_CODE};
use crate::models::{CommandOptions, CommandResult, ProcessConfig};
use crate::text::{
    base64_decoded, base64_encoded, decode_output, decoded_output, encode_base64, opt_chars, split_words,
    strings_view, whitespace_words,
};
use std::collections::HashMap;
use vstd::prelude::*;
use vstd::string::{StrSliceExecFns, StringSliceAdditionalSpecFns};

verus! {

/// Characters that only a shell gives their meaning: redirection, pipes,
/// quoting, substitution and control operators.
pub open spec fn is_shell_meta(c: char) -> bool {
    c == '|' || c == '&' || c == ';' || c == '<' || c == '>' || c == '(' || c == ')' || c == '$'
        || c == '`' || c == '\\' || c == '"' || c == '\'' || c == '\n'
}

/// Whether a command line needs a shell to mean what it says.
pub open spec fn needs_shell(cmd: Seq<char>) -> bool {
    exists|i: int| 0 <= i < cmd.len() && is_shell_meta(#[trigger] cmd[i])
}

/// The shell that command lines with shell syntax run under.
pub open spec fn shell_program() -> Seq<char> {
    "/bin/bash"@
}

/// The arguments that make the shell run `cmd` as a login shell.
pub open spec fn shell_args(cmd: Seq<char>) -> Seq<Seq<char>> {
    seq!["-l"@, "-c"@, cmd]
}

/// Whether `(program, args)` runs `cmd`, given the words of `cmd`: through
/// the shell when `cmd` has shell syntax or no words, else as its first
/// word with the other words as arguments.
pub open spec fn invocation_of(
    cmd: Seq<char>,
    words: Seq<Seq<char>>,
    program: Seq<char>,
    args: Seq<Seq<char>>,
) -> bool {
    if needs_shell(cmd) || words.len() == 0 {
        program == shell_program() && args == shell_args(cmd)
    } else {
        program == words[0] && args == words.drop_first()
    }
}

/// Whether a command line has a character that needs a shell.
pub fn has_shell_syntax(cmd: &str) -> (r: bool)
    ensures
        r == needs_shell(cmd@),
{
    let n = cmd.unicode_len();
    let mut i: usize = 0;
    while i < n
        invariant
            n == cmd@.len(),
            i <= n,
            forall|j: int| 0 <= j < i ==> !is_shell_meta(#[trigger] cmd@[j]),
        decreases n - i,
    {
        let c = cmd.get_char(i);
        if c == '|' || c == '&' || c == ';' || c == '<' || c == '>' || c == '(' || c == ')' || c
            == '$' || c == '`' || c == '\\' || c == '"' || c == '\'' || c == '\n' {
            assert(is_shell_meta(cmd@[i as int]));
            return true;
        }
        i = i + 1;
    }
    false
}

/// The program and arguments that run `cmd`, given its words: the shell
/// with `-l -c cmd` when `cmd` has shell syntax (or no words), else the
/// first word with the others as arguments.
pub fn shell_invocation(cmd: &str, words: Vec<String>) -> (r: (String, Vec<String>))
    ensures
        invocation_of(cmd@, strings_view(words@), r.0@, strings_view(r.1@)),
{
    let mut words = words;
    if has_shell_syntax(cmd) || words.len() == 0 {
        let mut args: Vec<String> = Vec::new();
        args.push("-l".to_string());
        args.push("-c".to_string());
        args.push(cmd.to_string());
        assert(strings_view(args@) =~= shell_args(cmd@));
        ("/bin/bash".to_string(), args)
    } else {
        let ghost before = words@;
        let program = words.remove(0);
        assert(strings_view(words@) =~= strings_view(before).drop_first());
        (program, words)
    }
}

/// The program and arguments that run a command line: simple commands run
/// directly, split at white space; anything with shell syntax runs under
/// `/bin/bash -l -c`.
pub fn build_shell_command(cmd: &str) -> (r: (String, Vec<String>))
    ensures
        invocation_of(cmd@, whitespace_words(cmd@), r.0@, strings_view(r.1@)),
{
    let words = split_words(cmd);
    shell_invocation(cmd, words)
}

/// The process configuration that starts `cmd` with the given options.
pub fn process_config(cmd: &str, options: &CommandOptions) -> (r: ProcessConfig)
    ensures
        invocation_of(cmd@, whitespace_words(cmd@), r.cmd@, strings_view(r.args@)),
        r.envs@ == match options.envs {
            Some(m) => m@,
            None => Map::<String, String>::empty(),
        },
        r.cwd == options.cwd,
{
    let (command, args) = build_shell_command(cmd);
    let envs = match &options.envs {
        Some(m) => m.clone(),
        None => HashMap::new(),
    };
    let cwd = match &options.cwd {
        Some(c) => Some(c.clone()),
        None => None,
    };
    ProcessConfig { cmd: command, args, envs, cwd }
}

/// Refuses options that ask for a background run where a waiting run was
/// called for.
pub fn check_foreground(options: &CommandOptions) -> (r: core::result::Result<(), Error>)
    ensures
        options.background ==> (r matches Err(Error::Api { status, .. }) && status == BAD_REQUEST_STATUS),
        !options.background ==> r is Ok,
{
    if options.background {
        Err(Error::api(BAD_REQUEST_STATUS, "Use run_background for background commands"))
    } else {
        Ok(())
    }
}

/// The base64 text sent as a process's standard input.
pub fn stdin_payload(data: &str) -> (r: String)
    requires
        data.spec_bytes().len() <= usize::MAX / 2,
    ensures
        r@ == base64_encoded(data.spec_bytes()),
        base64_decoded(r@) == Some(data.spec_bytes()),
{
    encode_base64(data.as_bytes())
}

/// What a kill call answers: `true` when the signal was delivered, `false`
/// when the remote does not know the process; any other failure is passed
/// on.
pub fn kill_outcome(sent: core::result::Result<(), Error>) -> (r: core::result::Result<bool, Error>)
    ensures
        match sent {
            Ok(_) => r == Ok::<bool, Error>(true),
            Err(Error::Api { status, message }) => if status == NOT_FOUND_STATUS {
                r == Ok::<bool, Error>(false)
            } else {
                r == Err::<bool, Error>(Error::Api { status, message })
            },
            Err(e) => r == Err::<bool, Error>(e),
        },
{
    match sent {
        Ok(_) => Ok(true),
        Err(Error::Api { status, message }) => if status == NOT_FOUND_STATUS {
            Ok(false)
        } else {
            Err(Error::Api { status, message })
        },
        Err(e) => Err(e),
    }
}

/// What a background start does with one event before the process is
/// known: a start event gives the process id, output is passed over, and an
/// end event means the process ended before it started.
pub fn start_step(event: &ProcessEvent) -> (r: core::result::Result<Option<u32>, Error>)
    ensures
        match event.event {
            ProcessEventData::Start { start } => r == Ok::<Option<u32>, Error>(Some(start.pid)),
            ProcessEventData::Data { .. } => r == Ok::<Option<u32>, Error>(None),
            ProcessEventData::End { .. } => r matches Err(Error::Api { status, message }) && status
                == INTERNAL_STATUS && message@ == "Process ended immediately after start"@,
        },
{
    match &event.event {
        ProcessEventData::Start { start } => Ok(Some(start.pid)),
        ProcessEventData::Data { .. } => Ok(None),
        ProcessEventData::End { .. } => Err(
            Error::api(INTERNAL_STATUS, "Process ended immediately after start"),
        ),
    }
}

/// The error of a background start whose stream ended without a start
/// event.
pub fn no_pid_error() -> (r: Error)
    ensures
        r matches Error::Api { status, message } && status == INTERNAL_STATUS && message@
            == "Failed to start process: no PID received"@,
{
    Error::api(INTERNAL_STATUS, "Failed to start process: no PID received")
}

/// The text that an optional base64 output field adds: nothing when the
/// field is absent, its decoded text when it decodes, and no value when it
/// does not.
pub open spec fn output_piece(field: Option<String>) -> Option<Seq<char>> {
    match field {
        None => Some(Seq::empty()),
        Some(s) => decoded_output(s@),
    }
}

/// What a drain has gathered so far.
pub struct DrainView {
    pub stdout: Seq<char>,
    pub stderr: Seq<char>,
    pub exit_code: Option<i32>,
    pub pid: Option<u32>,
    pub ended: bool,
}

/// Output of one event that a background drain passes on to its
/// listeners, one piece per stream.
#[derive(Debug, Clone)]
pub struct Forwarded {
    pub stdout: Option<String>,
    pub stderr: Option<String>,
}

/// The accumulated state of one command session: the output so far, the
/// process id once known, and the exit code once the end event came.
pub struct SessionDrain {
    stdout: String,
    stderr: String,
    exit_code: Option<i32>,
    pid: Option<u32>,
    ended: bool,
}

impl View for SessionDrain {
    type V = DrainView;

    closed spec fn view(&self) -> DrainView {
        DrainView {
            stdout: self.stdout@,
            stderr: self.stderr@,
            exit_code: self.exit_code,
            pid: self.pid,
            ended: self.ended,
        }
    }
}

fn decode_field(field: &Option<String>) -> (r: Option<String>)
    ensures
        opt_chars(r) == output_piece(*field),
{
    match field {
        None => {
            let e = String::new();
            Some(e)
        },
        Some(s) => decode_output(s.as_str()),
    }
}

impl SessionDrain {
    /// A drain that has seen nothing.
    pub fn new() -> (r: SessionDrain)
        ensures
            r@ == (DrainView {
                stdout: Seq::empty(),
                stderr: Seq::empty(),
                exit_code: None,
                pid: None,
                ended: false,
            }),
    {
        SessionDrain {
            stdout: String::new(),
            stderr: String::new(),
            exit_code: None,
            pid: None,
            ended: false,
        }
    }

    /// Whether the end event has been seen.
    pub fn is_ended(&self) -> (r: bool)
        ensures
            r == self@.ended,
    {
        self.ended
    }

    /// The process id, once a start event has given it.
    pub fn pid(&self) -> (r: Option<u32>)
        ensures
            r == self@.pid,
    {
        self.pid
    }

    /// Takes one event of a waiting run. A start event records the process
    /// id; an output event appends its decoded text to each stream, and
    /// fails the run, leaving the drain as it was, when a field is not
    /// base64 of UTF-8 text; the end event records the exit code and ends
    /// the drain.
    pub fn apply(&mut self, event: &ProcessEvent) -> (r: core::result::Result<(), Error>)
        ensures
            match event.event {
                ProcessEventData::Start { start } => r is Ok && final(self)@ == DrainView {
                    pid: Some(start.pid),
                    ..old(self)@
                },
                ProcessEventData::Data { data } => match (
                    output_piece(data.stdout),
                    output_piece(data.stderr),
                ) {
                    (Some(o), Some(e)) => r is Ok && final(self)@ == DrainView {
                        stdout: old(self)@.stdout + o,
                        stderr: old(self)@.stderr + e,
                        ..old(self)@
                    },
                    _ => r matches Err(Error::Api { status, .. }) && status == INTERNAL_STATUS
                        && final(self)@ == old(self)@,
                },
                ProcessEventData::End { end } => r is Ok && final(self)@ == DrainView {
                    exit_code: Some(resolved_exit_code(end)),
                    ended: true,
                    ..old(self)@
                },
            },
    {
        match &event.event {
            ProcessEventData::Start { start } => {
                self.pid = Some(start.pid);
                Ok(())
            },
            ProcessEventData::Data { data } => {
                let out = decode_field(&data.stdout);
                let err = decode_field(&data.stderr);
                match (out, err) {
                    (Some(o), Some(e)) => {
                        self.stdout.append(o.as_str());
                        self.stderr.append(e.as_str());
                        Ok(())
                    },
                    (None, _) => Err(Error::api(INTERNAL_STATUS, "Failed to decode stdout")),
                    (_, None) => Err(Error::api(INTERNAL_STATUS, "Failed to decode stderr")),
                }
            },
            ProcessEventData::End { end } => {
                self.exit_code = Some(resolve_exit_code(end));
                self.ended = true;
                Ok(())
            },
        }
    }

    /// Takes one event of a background run. Output that decodes is appended
    /// and handed back to be passed on. An output event with a field that
    /// is not base64 of UTF-8 text ends the drain with no exit code, so
    /// the result keeps the output gathered before it and the exit code
    /// `-1`. A start event changes nothing; the end event records the exit
    /// code and ends the drain.
    pub fn apply_background(&mut self, event: &ProcessEvent) -> (r: Forwarded)
        ensures
            match event.event {
                ProcessEventData::Data { data } => match (
                    output_piece(data.stdout),
                    output_piece(data.stderr),
                ) {
                    (Some(o), Some(e)) => {
                        &&& opt_chars(r.stdout) == (if data.stdout is Some { Some(o) } else { None })
                        &&& opt_chars(r.stderr) == (if data.stderr is Some { Some(e) } else { None })
                        &&& final(self)@ == DrainView {
                            stdout: old(self)@.stdout + o,
                            stderr: old(self)@.stderr + e,
                            ..old(self)@
                        }
                    },
                    _ => r.stdout is None && r.stderr is None && final(self)@ == DrainView {
                        exit_code: None,
                        ended: true,
                        ..old(self)@
                    },
                },
                ProcessEventData::Start { .. } => r.stdout is None && r.stderr is None
                    && final(self)@ == old(self)@,
                ProcessEventData::End { end } => r.stdout is None && r.stderr is None
                    && final(self)@ == DrainView {
                    exit_code: Some(resolved_exit_code(end)),
                    ended: true,
                    ..old(self)@
                },
            },
    {
        match &event.event {
            ProcessEventData::Data { data } => {
                let out = decode_field(&data.stdout);
                let err = decode_field(&data.stderr);
                match (out, err) {
                    (Some(o), Some(e)) => {
                        self.stdout.append(o.as_str());
                        self.stderr.append(e.as_str());
                        let fwd_out = if data.stdout.is_some() { Some(o) } else { None };
                        let fwd_err = if data.stderr.is_some() { Some(e) } else { None };
                        Forwarded { stdout: fwd_out, stderr: fwd_err }
                    },
                    _ => {
                        self.exit_code = None;
                        self.ended = true;
                        Forwarded { stdout: None, stderr: None }
                    },
                }
            },
            ProcessEventData::Start { .. } => Forwarded { stdout: None, stderr: None },
            ProcessEventData::End { end } => {
                self.exit_code = Some(resolve_exit_code(end));
                self.ended = true;
                Forwarded { stdout: None, stderr: None }
            },
        }
    }

    /// The result of the session: the output gathered, and the exit code of
    /// the end event, or `-1` when none came.
    pub fn finish(&self) -> (r: CommandResult)
        ensures
            r.stdout@ == self@.stdout,
            r.stderr@ == self@.stderr,
            r.exit_code == match self@.exit_code {
                Some(c) => c,
                None => UNKNOWN_EXIT_CODE,
            },
            r.execution_time is None,
    {
        CommandResult {
            stdout: self.stdout.clone(),
            stderr: self.stderr.clone(),
            exit_code: match self.exit_code {
                Some(c) => c,
                None => UNKNOWN_EXIT_CODE,
            },
            execution_time: None,
        }
    }
}

} // verus!
