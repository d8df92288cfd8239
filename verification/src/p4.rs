//! The execution backend for Perforce commands.
//!
//! A handler is bound to one of two strategies when it is made. The mock
//! strategy answers at once. The real strategy needs a process to be run:
//! the handler says which one, whoever drives it runs the process, and
//! [`P4Handler::conclude`] turns what the process left into the result.

pub mod commands;
pub mod mock;

use vstd::prelude::*;
pub use crate::p4::commands::{CommandView, P4Command};
use crate::p4::mock::{mock_output, mock_reply};
use crate::text::{lossy_string, texts, utf8_lossy};

verus! {

/// A program to run, with its arguments in order.
#[derive(Debug, Clone, PartialEq, Eq)]
pub struct Invocation {
    pub program: String,
    pub args: Vec<String>,
}

pub struct InvocationView {
    pub program: Seq<char>,
    pub args: Seq<Seq<char>>,
}

impl View for Invocation {
    type V = InvocationView;

    open spec fn view(&self) -> InvocationView {
        InvocationView { program: self.program@, args: texts(self.args@) }
    }
}

/// What the handler makes of a command: the reply itself, or the process
/// whose output will be the reply.
#[derive(Debug, Clone, PartialEq, Eq)]
pub enum Execution {
    Done(String),
    Spawn(Invocation),
}

pub enum ExecutionView {
    Done(Seq<char>),
    Spawn(InvocationView),
}

impl View for Execution {
    type V = ExecutionView;

    open spec fn view(&self) -> ExecutionView {
        match *self {
            Execution::Done(text) => ExecutionView::Done(text@),
            Execution::Spawn(invocation) => ExecutionView::Spawn(invocation@),
        }
    }
}

/// How a process ended: it could not be started, or it ran and left an exit
/// status and its two output streams.
#[derive(Debug, Clone, PartialEq, Eq)]
pub enum ProcessOutcome {
    SpawnFailed { reason: String },
    Exited { success: bool, stdout: Vec<u8>, stderr: Vec<u8> },
}

/// Why a command gave no text.
#[derive(Debug, Clone, PartialEq, Eq)]
pub enum ExecutionError {
    /// The process ran and reported failure; the text is what it wrote to
    /// its standard error.
    ToolFailed(String),
    /// The process could not be started; the text is the reason.
    SpawnFailed(String),
}

pub enum ExecutionErrorView {
    ToolFailed(Seq<char>),
    SpawnFailed(Seq<char>),
}

impl View for ExecutionError {
    type V = ExecutionErrorView;

    open spec fn view(&self) -> ExecutionErrorView {
        match *self {
            ExecutionError::ToolFailed(text) => ExecutionErrorView::ToolFailed(text@),
            ExecutionError::SpawnFailed(text) => ExecutionErrorView::SpawnFailed(text@),
        }
    }
}

/// What the given strategy makes of a command.
pub open spec fn execution_of(mock_mode: bool, command: CommandView) -> ExecutionView {
    if mock_mode {
        ExecutionView::Done(mock_reply(command))
    } else {
        ExecutionView::Spawn(
            InvocationView { program: CommandView::program(), args: command.args() },
        )
    }
}

/// The result that a finished process stands for.
pub open spec fn conclusion_of(outcome: ProcessOutcome) -> Result<Seq<char>, ExecutionErrorView> {
    match outcome {
        ProcessOutcome::SpawnFailed { reason } => Err(ExecutionErrorView::SpawnFailed(reason@)),
        ProcessOutcome::Exited { success, stdout, stderr } => if success {
            Ok(utf8_lossy(stdout@))
        } else {
            Err(ExecutionErrorView::ToolFailed(utf8_lossy(stderr@)))
        },
    }
}

/// The view of a result of [`P4Handler::conclude`].
pub open spec fn conclusion_view(result: Result<String, ExecutionError>) -> Result<
    Seq<char>,
    ExecutionErrorView,
> {
    match result {
        Ok(text) => Ok(text@),
        Err(error) => Err(error@),
    }
}

/// The execution backend, bound to its strategy for good.
#[derive(Debug, Clone, Copy, PartialEq, Eq)]
pub struct P4Handler {
    mock_mode: bool,
}

impl P4Handler {
    /// Whether the handler answers with canned text.
    pub closed spec fn is_mock(&self) -> bool {
        self.mock_mode
    }

    /// Makes a handler with the mock strategy if `mock_mode` is set, and
    /// with the real one otherwise.
    pub fn new(mock_mode: bool) -> (r: P4Handler)
        ensures
            r.is_mock() == mock_mode,
    {
        P4Handler { mock_mode }
    }

    /// Whether the handler answers with canned text.
    pub fn mock_mode(&self) -> (r: bool)
        ensures
            r == self.is_mock(),
    {
        self.mock_mode
    }

    /// Starts a command. The mock strategy gives its reply; the real one
    /// gives the process to run. The handler itself is left as it was.
    pub fn execute(&mut self, command: P4Command) -> (r: Execution)
        ensures
            *final(self) == *old(self),
            r@ == execution_of(old(self).is_mock(), command@),
    {
        if self.mock_mode {
            Execution::Done(mock_output(&command))
        } else {
            let (program, args) = command.to_command_args();
            Execution::Spawn(Invocation { program, args })
        }
    }

    /// The result of a process that ran to its end: its output if it
    /// succeeded, and its diagnostics as an error if it did not.
    pub fn result_of_exit(success: bool, output: String, diagnostics: String) -> (r: Result<
        String,
        ExecutionError,
    >)
        ensures
            conclusion_view(r) == if success {
                Ok::<Seq<char>, ExecutionErrorView>(output@)
            } else {
                Err::<Seq<char>, ExecutionErrorView>(ExecutionErrorView::ToolFailed(diagnostics@))
            },
    {
        if success {
            Ok(output)
        } else {
            Err(ExecutionError::ToolFailed(diagnostics))
        }
    }

    /// Turns the end of a process into the result of the command: the
    /// standard output of a process that succeeded, and an error otherwise.
    /// Bytes that are not UTF-8 are read as `String::from_utf8_lossy` reads
    /// them.
    pub fn conclude(outcome: ProcessOutcome) -> (r: Result<String, ExecutionError>)
        ensures
            conclusion_view(r) == conclusion_of(outcome),
    {
        match outcome {
            ProcessOutcome::SpawnFailed { reason } => Err(ExecutionError::SpawnFailed(reason)),
            ProcessOutcome::Exited { success, stdout, stderr } => P4Handler::result_of_exit(
                success,
                lossy_string(&stdout),
                lossy_string(&stderr),
            ),
        }
    }
}

/// Running the same command twice on a mock handler gives the same text,
/// because the reply depends on the command alone and running it leaves the
/// handler unchanged.
pub proof fn lemma_mock_is_idempotent(
    handler: P4Handler,
    first: P4Command,
    second: P4Command,
)
    requires
        handler.is_mock(),
        first@ == second@,
    ensures
        execution_of(handler.is_mock(), first@) is Done,
        execution_of(handler.is_mock(), first@) == execution_of(handler.is_mock(), second@),
{
}

} // verus!
