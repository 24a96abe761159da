//! How outside work can end, and what the runner makes of it.

use crate::text::{decimal, decimal_text};
use vstd::prelude::*;

verus! {

/// A command that could not be run to its end: it could not be started, or it
/// could not be waited for.
#[derive(Debug, PartialEq, Eq)]
pub struct LaunchError {
    /// What the system said when it refused.
    pub reason: String,
}

/// A file that could not be written or removed.
#[derive(Debug, PartialEq, Eq)]
pub struct IoError {
    /// What the system said when it refused.
    pub reason: String,
}

/// What made a task fail.
#[derive(Debug, PartialEq, Eq)]
pub enum TaskError {
    /// A command could not be run to its end.
    Launch(LaunchError),
    /// The scratch file could not be written or removed.
    Io(IoError),
}

/// The failure of a task as plain values: its kind and the system's words.
pub enum TaskErrorView {
    Launch(Seq<char>),
    Io(Seq<char>),
}

impl View for TaskError {
    type V = TaskErrorView;

    open spec fn view(&self) -> TaskErrorView {
        match self {
            TaskError::Launch(error) => TaskErrorView::Launch(error.reason@),
            TaskError::Io(error) => TaskErrorView::Io(error.reason@),
        }
    }
}

impl TaskErrorView {
    /// The system's words, whatever the kind of failure.
    pub open spec fn reason(self) -> Seq<char> {
        match self {
            TaskErrorView::Launch(reason) => reason,
            TaskErrorView::Io(reason) => reason,
        }
    }
}

impl TaskError {
    /// The system's words, whatever the kind of failure.
    pub fn reason(&self) -> (reason: &str)
        ensures
            reason@ == self@.reason(),
    {
        match self {
            TaskError::Launch(error) => error.reason.as_str(),
            TaskError::Io(error) => error.reason.as_str(),
        }
    }
}

/// How the launch of one command went.
#[derive(Debug, PartialEq, Eq)]
pub enum Outcome {
    /// The process could not be started or could not be waited for.
    Failed(LaunchError),
    /// The process ran to its end and left this exit code.
    Exited(i32),
}

/// The outcome of a launch as plain values.
pub enum OutcomeView {
    Failed(Seq<char>),
    Exited(i32),
}

impl View for Outcome {
    type V = OutcomeView;

    open spec fn view(&self) -> OutcomeView {
        match self {
            Outcome::Failed(error) => OutcomeView::Failed(error.reason@),
            Outcome::Exited(code) => OutcomeView::Exited(*code),
        }
    }
}

/// The line that reports the exit code of a command: the code stands in
/// decimal between the brackets.
pub open spec fn exit_notice(code: int) -> Seq<char> {
    "コマンドは ["@ + decimal(code) + "] で終了しました"@
}

impl OutcomeView {
    /// Running a command succeeds whenever its process ran to its end, whatever
    /// the exit code; it fails where the launch did, and only there.
    pub open spec fn result(self) -> Result<(), Seq<char>> {
        match self {
            OutcomeView::Failed(reason) => Err(reason),
            OutcomeView::Exited(_) => Ok(()),
        }
    }

    /// An exit code other than zero is reported, and nothing else is.
    pub open spec fn notice(self) -> Option<Seq<char>> {
        match self {
            OutcomeView::Exited(code) if code != 0 => Some(exit_notice(code as int)),
            _ => None,
        }
    }
}

/// A line for the user, where there is one, as plain values.
pub open spec fn line_view(line: Option<String>) -> Option<Seq<char>> {
    match line {
        Some(line) => Some(line@),
        None => None,
    }
}

/// The result of running a command as plain values.
pub open spec fn launch_result_view(result: Result<(), LaunchError>) -> Result<(), Seq<char>> {
    match result {
        Ok(_) => Ok(()),
        Err(error) => Err(error.reason@),
    }
}

/// The result of a file operation as plain values.
pub open spec fn io_result_view(result: Result<(), IoError>) -> Result<(), Seq<char>> {
    match result {
        Ok(_) => Ok(()),
        Err(error) => Err(error.reason@),
    }
}

/// What running one command comes to: the result that its caller gets, and
/// the line to show the user, if there is one.
#[derive(Debug, PartialEq, Eq)]
pub struct Settlement {
    pub result: Result<(), LaunchError>,
    pub notice: Option<String>,
}

/// Writes the line that reports the exit code `code`.
pub fn exit_notice_line(code: i32) -> (line: String)
    ensures
        line@ == exit_notice(code as int),
{
    let mut line = String::from_str("コマンドは [");
    let number = decimal_text(code);
    line.append(number.as_str());
    line.append("] で終了しました");
    line
}

/// Settles the run of one command once the outside has said how its launch
/// went. A launch that failed is an error. A process that ran to its end is a
/// success, and an exit code other than zero is reported without being fatal.
pub fn settle(outcome: Outcome) -> (settlement: Settlement)
    ensures
        launch_result_view(settlement.result) == outcome@.result(),
        line_view(settlement.notice) == outcome@.notice(),
{
    match outcome {
        Outcome::Failed(error) => Settlement { result: Err(error), notice: None },
        Outcome::Exited(code) => {
            if code != 0 {
                Settlement { result: Ok(()), notice: Some(exit_notice_line(code)) }
            } else {
                Settlement { result: Ok(()), notice: None }
            }
        },
    }
}

} // verus!
