//! The handle of a background command: its process id and, once each, the
//! receiving ends of its output channels and of its result.

use crate::models::CommandResult;
use vstd::prelude::*;

verus! {

/// tokio's bounded channel receiver, carried through opaque.
#[verifier::external_type_specification]
#[verifier::external_body]
#[verifier::reject_recursive_types(T)]
pub struct ExOutputReceiver<T>(tokio::sync::mpsc::Receiver<T>);

/// tokio's single-value channel receiver, carried through opaque.
#[verifier::external_type_specification]
#[verifier::external_body]
#[verifier::reject_recursive_types(T)]
pub struct ExResultReceiver<T>(tokio::sync::oneshot::Receiver<T>);

/// The error of tokio's single-value receiver, which its `Future` impl
/// names; never used here.
#[verifier::external_type_specification]
#[verifier::external_body]
pub struct ExResultRecvError(tokio::sync::oneshot::error::RecvError);

/// One piece of output of a background command, with the time it was
/// received, in milliseconds since the Unix epoch (UTC).
#[derive(Debug, Clone)]
pub struct CommandOutput {
    pub data: String,
    pub timestamp: i64,
}

/// A running command. The output channels and the result exist only for a
/// command started in the background by this client; each can be taken
/// once, and a second take gives nothing.
#[derive(Debug)]
pub struct CommandHandle {
    pub pid: u32,
    stdout: Option<tokio::sync::mpsc::Receiver<CommandOutput>>,
    stderr: Option<tokio::sync::mpsc::Receiver<CommandOutput>>,
    result: Option<tokio::sync::oneshot::Receiver<CommandResult>>,
}

impl CommandHandle {
    /// The id of the process.
    pub closed spec fn process_id(&self) -> u32 {
        self.pid
    }

    /// The standard output channel, while it has not been taken.
    pub closed spec fn stdout_slot(&self) -> Option<tokio::sync::mpsc::Receiver<CommandOutput>> {
        self.stdout
    }

    /// The standard error channel, while it has not been taken.
    pub closed spec fn stderr_slot(&self) -> Option<tokio::sync::mpsc::Receiver<CommandOutput>> {
        self.stderr
    }

    /// The result, while it has not been taken.
    pub closed spec fn result_slot(&self) -> Option<tokio::sync::oneshot::Receiver<CommandResult>> {
        self.result
    }

    /// The handle of a command started in the background, with everything
    /// still to take.
    pub fn new(
        pid: u32,
        stdout: tokio::sync::mpsc::Receiver<CommandOutput>,
        stderr: tokio::sync::mpsc::Receiver<CommandOutput>,
        result: tokio::sync::oneshot::Receiver<CommandResult>,
    ) -> (r: CommandHandle)
        ensures
            r.process_id() == pid,
            r.stdout_slot() == Some(stdout),
            r.stderr_slot() == Some(stderr),
            r.result_slot() == Some(result),
    {
        CommandHandle { pid, stdout: Some(stdout), stderr: Some(stderr), result: Some(result) }
    }

    /// The handle of a process that runs already: its id and nothing to
    /// take.
    pub fn from_pid(pid: u32) -> (r: CommandHandle)
        ensures
            r.process_id() == pid,
            r.stdout_slot() is None,
            r.stderr_slot() is None,
            r.result_slot() is None,
    {
        CommandHandle { pid, stdout: None, stderr: None, result: None }
    }

    pub fn pid(&self) -> (r: u32)
        ensures
            r == self.process_id(),
    {
        self.pid
    }

    /// Takes the standard output channel; nothing once it was taken.
    pub fn take_stdout(&mut self) -> (r: Option<tokio::sync::mpsc::Receiver<CommandOutput>>)
        ensures
            r == old(self).stdout_slot(),
            final(self).stdout_slot() is None,
            final(self).stderr_slot() == old(self).stderr_slot(),
            final(self).result_slot() == old(self).result_slot(),
            final(self).process_id() == old(self).process_id(),
    {
        let r = self.stdout.take();
        r
    }

    /// Takes the standard error channel; nothing once it was taken.
    pub fn take_stderr(&mut self) -> (r: Option<tokio::sync::mpsc::Receiver<CommandOutput>>)
        ensures
            r == old(self).stderr_slot(),
            final(self).stderr_slot() is None,
            final(self).stdout_slot() == old(self).stdout_slot(),
            final(self).result_slot() == old(self).result_slot(),
            final(self).process_id() == old(self).process_id(),
    {
        let r = self.stderr.take();
        r
    }

    /// Takes the result; nothing once it was taken.
    pub fn take_result(&mut self) -> (r: Option<tokio::sync::oneshot::Receiver<CommandResult>>)
        ensures
            r == old(self).result_slot(),
            final(self).result_slot() is None,
            final(self).stdout_slot() == old(self).stdout_slot(),
            final(self).stderr_slot() == old(self).stderr_slot(),
            final(self).process_id() == old(self).process_id(),
    {
        let r = self.result.take();
        r
    }
}

} // verus!
