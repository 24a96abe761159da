//! Tasks: what a run is made of, and the tasks that this runner knows.

use crate::eraser::FileEraser;
use crate::invocation::Invocation;
use vstd::prelude::*;

verus! {

/// A file that exists only while a task runs: it is written before the first
/// command and released when the task is over, however the task ends.
#[derive(Debug, PartialEq, Eq)]
pub struct Scratch {
    /// The handle that owns the file's path.
    pub eraser: FileEraser,
    /// What the file holds while the task runs.
    pub content: String,
}

/// A scratch file as plain values.
pub struct ScratchView {
    pub path: Seq<char>,
    pub content: Seq<char>,
}

impl View for Scratch {
    type V = ScratchView;

    open spec fn view(&self) -> ScratchView {
        ScratchView { path: self.eraser@, content: self.content@ }
    }
}

/// A fixed list of commands to run one after the other, with or without a
/// scratch file around them.
#[derive(Debug, PartialEq, Eq)]
pub struct Task {
    pub scratch: Option<Scratch>,
    pub steps: Vec<Invocation>,
}

/// A task as plain values.
pub struct TaskView {
    pub scratch: Option<ScratchView>,
    pub steps: Seq<Seq<Seq<char>>>,
}

/// The words of each invocation of a list, in order.
pub open spec fn step_views(steps: Seq<Invocation>) -> Seq<Seq<Seq<char>>> {
    Seq::new(steps.len(), |i: int| steps[i]@)
}

impl View for Task {
    type V = TaskView;

    open spec fn view(&self) -> TaskView {
        TaskView {
            scratch: match self.scratch {
                Some(scratch) => Some(scratch@),
                None => None,
            },
            steps: step_views(self.steps@),
        }
    }
}

impl TaskView {
    /// The task of running `steps` in order, without a scratch file.
    pub open spec fn plain(steps: Seq<Seq<Seq<char>>>) -> TaskView {
        TaskView { scratch: None, steps }
    }

    /// A task that asks for nothing at all.
    pub open spec fn is_idle(self) -> bool {
        self.scratch is None && self.steps.len() == 0
    }
}

/// Where the scratch script of a shell task is kept.
pub open spec fn script_path() -> Seq<char> {
    ".tmp.bat"@
}

/// The command that has the shell run the script at `path`.
pub open spec fn shell_step(path: Seq<char>) -> Seq<Seq<char>> {
    seq!["cmd"@, "/C"@, path]
}

/// The commands of a build: install the dependencies, then compile.
pub open spec fn build_steps() -> Seq<Seq<Seq<char>>> {
    seq![seq!["yarn.cmd"@, "install"@], seq!["yarn.cmd"@, "tsc"@, "--build"@]]
}

/// The command that opens the directory `path` in the file browser.
pub open spec fn explorer_step(path: Seq<char>) -> Seq<Seq<char>> {
    seq!["explorer.exe"@, path]
}

/// The command that packages the installer.
pub open spec fn packaging_step() -> Seq<Seq<char>> {
    seq![
        "yarn.cmd"@,
        "electron-builder"@,
        "--win"@,
        "--x64"@,
        "-c.nsis.oneClick=false"@,
        "-c.nsis.perMachine=false"@,
        "-c.nsis.allowToChangeInstallationDirectory=true"@,
        "-c.nsis.include=build\\install.nsh"@,
    ]
}

/// The commands that make the installer: those of a build, the packaging, and
/// at the end the opening of the output directory.
pub open spec fn installer_steps() -> Seq<Seq<Seq<char>>> {
    build_steps() + seq![packaging_step(), explorer_step("OUT"@)]
}

/// The task that runs `command` through the shell: the text is written to a
/// scratch script, the shell is started on that script, and the script is
/// released when the task is over.
pub fn execute_string_on_shell(command: &str) -> (task: Task)
    ensures
        task@.scratch == Some(ScratchView { path: script_path(), content: command@ }),
        task@.steps == seq![shell_step(script_path())],
{
    let path = ".tmp.bat";
    let eraser = FileEraser::new(path);
    let mut steps: Vec<Invocation> = Vec::new();
    steps.push(Invocation::new("cmd").arg("/C").arg(path));
    let task = Task { scratch: Some(Scratch { eraser, content: command.to_owned() }), steps };
    assert(task@.steps =~~= seq![shell_step(script_path())]);
    task
}

/// The task that builds the application.
pub fn build() -> (task: Task)
    ensures
        task@ == TaskView::plain(build_steps()),
{
    let mut steps: Vec<Invocation> = Vec::new();
    steps.push(Invocation::new("yarn.cmd").arg("install"));
    steps.push(Invocation::new("yarn.cmd").arg("tsc").arg("--build"));
    let task = Task { scratch: None, steps };
    assert(task@.steps =~~= build_steps());
    task
}

/// The task that opens the directory `path` in the file browser.
pub fn open_explorer(path: &str) -> (task: Task)
    ensures
        task@ == TaskView::plain(seq![explorer_step(path@)]),
{
    let mut steps: Vec<Invocation> = Vec::new();
    steps.push(Invocation::new("explorer.exe").arg(path));
    let task = Task { scratch: None, steps };
    assert(task@.steps =~~= seq![explorer_step(path@)]);
    task
}

/// The task that builds the application, packages its installer and then
/// opens the directory that holds the result.
pub fn build_installer() -> (task: Task)
    ensures
        task@ == TaskView::plain(installer_steps()),
{
    let building = build();
    let opening = open_explorer("OUT");
    let ghost built = building.steps@;
    let ghost opened = opening.steps@;
    let mut steps = building.steps;
    steps.push(
        Invocation::new("yarn.cmd").arg("electron-builder").arg("--win").arg("--x64").arg(
            "-c.nsis.oneClick=false",
        ).arg("-c.nsis.perMachine=false").arg(
            "-c.nsis.allowToChangeInstallationDirectory=true",
        ).arg("-c.nsis.include=build\\install.nsh"),
    );
    let mut rest = opening.steps;
    steps.append(&mut rest);
    proof {
        assert(step_views(built).len() == 2);
        assert(step_views(built)[0] == built[0]@);
        assert(step_views(built)[1] == built[1]@);
        assert(step_views(opened).len() == 1);
        assert(step_views(opened)[0] == opened[0]@);
    }
    let task = Task { scratch: None, steps };
    assert(task@.steps =~~= installer_steps());
    task
}

} // verus!
