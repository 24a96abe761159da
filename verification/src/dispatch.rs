//! From the command line to a task, and from a run to its closing report.

use crate::invocation::texts;
use crate::outcome::{line_view, TaskErrorView};
use crate::run::Run;
use crate::task::{build, build_installer, build_steps, installer_steps, Task, TaskView};
use vstd::prelude::*;

verus! {

/// What the user asked for.
#[derive(Clone, Copy, Debug, PartialEq, Eq, Structural)]
pub enum Request {
    /// Build the application.
    Build,
    /// Build the application and its installer.
    Installer,
    /// Clean up; accepted, and nothing is done for it.
    Clean,
    /// Show help; accepted, and nothing is done for it.
    Help,
    /// Anything else.
    Invalid,
}

/// The request that the selector `token` stands for. Selectors are compared
/// letter for letter; each request has a long and a short one.
pub open spec fn request_of(token: Seq<char>) -> Request {
    if token == "--build"@ || token == "b"@ {
        Request::Build
    } else if token == "--installer"@ || token == "i"@ {
        Request::Installer
    } else if token == "--clean"@ || token == "c"@ {
        Request::Clean
    } else if token == "--help"@ || token == "h"@ {
        Request::Help
    } else {
        Request::Invalid
    }
}

/// The request of a command line: that of its first argument, the selector;
/// none where there is no argument at all. Later arguments are not read.
pub open spec fn selection(args: Seq<Seq<char>>) -> Option<Request> {
    if args.len() == 0 {
        None
    } else {
        Some(request_of(args[0]))
    }
}

/// The task that serves `request`.
pub open spec fn task_for(request: Request) -> TaskView {
    match request {
        Request::Build => TaskView::plain(build_steps()),
        Request::Installer => TaskView::plain(installer_steps()),
        _ => TaskView::plain(Seq::empty()),
    }
}

/// The line that answers `request` before anything is run: only a request
/// that is not understood gets one.
pub open spec fn notice_for(request: Request) -> Option<Seq<char>> {
    match request {
        Request::Invalid => Some("Invalid request"@),
        _ => None,
    }
}

/// The task that the command line `args` asks for. Without arguments, and
/// for a selector that is not understood, it is a task that asks for nothing.
pub open spec fn dispatched_task(args: Seq<Seq<char>>) -> TaskView {
    match selection(args) {
        Some(request) => task_for(request),
        None => TaskView::plain(Seq::empty()),
    }
}

/// The line that answers the command line `args` before anything is run.
/// Without arguments nothing is said.
pub open spec fn dispatched_notice(args: Seq<Seq<char>>) -> Option<Seq<char>> {
    match selection(args) {
        Some(request) => notice_for(request),
        None => None,
    }
}

/// The line that reports a failed task, given the system's words.
pub open spec fn failure_report(reason: Seq<char>) -> Seq<char> {
    "ERROR: Failed to build. reason: ["@ + reason + "]"@
}

/// The closing report of a run that ended with `failure`.
pub open spec fn closing_report(failure: Option<TaskErrorView>) -> Option<Seq<char>> {
    match failure {
        Some(failure) => Some(failure_report(failure.reason())),
        None => None,
    }
}

/// What a command line comes to: the task to run, and the line to show the
/// user first, if there is one.
#[derive(Debug, PartialEq, Eq)]
pub struct Dispatch {
    pub task: Task,
    pub notice: Option<String>,
}

/// Whether `token` and `word` are the same text.
fn same_text(token: &str, word: &str) -> (same: bool)
    ensures
        same == (token@ == word@),
{
    let left = token.to_owned();
    let right = word.to_owned();
    left == right
}

/// Reads a selector.
pub fn parse_request(token: &str) -> (request: Request)
    ensures
        request == request_of(token@),
{
    if same_text(token, "--build") || same_text(token, "b") {
        Request::Build
    } else if same_text(token, "--installer") || same_text(token, "i") {
        Request::Installer
    } else if same_text(token, "--clean") || same_text(token, "c") {
        Request::Clean
    } else if same_text(token, "--help") || same_text(token, "h") {
        Request::Help
    } else {
        Request::Invalid
    }
}

/// Reads the command line, given without the program's own name. Without
/// arguments there is nothing to run and nothing to say. A selector that is
/// not understood gets a line saying so and nothing to run.
pub fn dispatch(args: &Vec<String>) -> (dispatch: Dispatch)
    ensures
        dispatch.task@ == dispatched_task(texts(args@)),
        line_view(dispatch.notice) == dispatched_notice(texts(args@)),
{
    let idle = Task { scratch: None, steps: Vec::new() };
    assert(idle@.steps =~= Seq::empty());
    if args.len() == 0 {
        return Dispatch { task: idle, notice: None };
    }
    match parse_request(args[0].as_str()) {
        Request::Build => Dispatch { task: build(), notice: None },
        Request::Installer => Dispatch { task: build_installer(), notice: None },
        Request::Clean => Dispatch { task: idle, notice: None },
        Request::Help => Dispatch { task: idle, notice: None },
        Request::Invalid => Dispatch {
            task: idle,
            notice: Some("Invalid request".to_owned()),
        },
    }
}

/// The closing report of a run: the line that tells the user why the task
/// failed, and nothing where it did not fail.
pub fn conclude(run: &Run) -> (report: Option<String>)
    ensures
        line_view(report) == closing_report(run@.failure),
{
    match run.failure() {
        Some(failure) => {
            let mut line = String::from_str("ERROR: Failed to build. reason: [");
            line.append(failure.reason());
            line.append("]");
            Some(line)
        },
        None => None,
    }
}

} // verus!
