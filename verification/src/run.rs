//! The run of a task: a machine that asks for one piece of outside work at a
//! time and is told how it went.

use crate::eraser::{release_for, Release};
use crate::invocation::Invocation;
use crate::outcome::{
    io_result_view, line_view, settle, IoError, Outcome, OutcomeView, TaskError, TaskErrorView,
};
use crate::task::{Task, TaskView};
use vstd::prelude::*;

verus! {

/// Where a run stands.
#[derive(Clone, Copy, Debug, PartialEq, Eq, Structural)]
pub enum Phase {
    /// The scratch file is to be written.
    Writing,
    /// The next command is to be launched.
    Launching,
    /// Somebody has to look whether the scratch file is there.
    Probing,
    /// The scratch file is to be removed.
    Removing,
    /// Nothing is left to do.
    Finished,
}

/// One piece of outside work that a run asks for.
#[derive(Debug, PartialEq, Eq)]
pub enum Effect<'a> {
    /// Write `content` to the file at `path`, in place of whatever it held.
    Write { path: &'a str, content: &'a str },
    /// Start the command and wait until its process has ended.
    Launch(&'a Invocation),
    /// Look whether there is a file at `path`.
    Probe { path: &'a str },
    /// Remove the file at `path`.
    Remove { path: &'a str },
}

/// A piece of outside work as plain values.
pub enum EffectView {
    Write { path: Seq<char>, content: Seq<char> },
    Launch(Seq<Seq<char>>),
    Probe { path: Seq<char> },
    Remove { path: Seq<char> },
}

impl<'a> View for Effect<'a> {
    type V = EffectView;

    open spec fn view(&self) -> EffectView {
        match self {
            Effect::Write { path, content } => EffectView::Write { path: path@, content: content@ },
            Effect::Launch(invocation) => EffectView::Launch(invocation@),
            Effect::Probe { path } => EffectView::Probe { path: path@ },
            Effect::Remove { path } => EffectView::Remove { path: path@ },
        }
    }
}

/// How a piece of outside work went.
#[derive(Debug, PartialEq, Eq)]
pub enum Event {
    /// The scratch file was written, or could not be.
    Written(Result<(), IoError>),
    /// A command was launched, with this outcome.
    Launched(Outcome),
    /// The scratch file was looked for: `true` where it is there.
    Probed(bool),
    /// The scratch file was removed, or could not be.
    Removed(Result<(), IoError>),
}

/// A report on outside work as plain values.
pub enum EventView {
    Written(Result<(), Seq<char>>),
    Launched(OutcomeView),
    Probed(bool),
    Removed(Result<(), Seq<char>>),
}

impl View for Event {
    type V = EventView;

    open spec fn view(&self) -> EventView {
        match self {
            Event::Written(result) => EventView::Written(io_result_view(*result)),
            Event::Launched(outcome) => EventView::Launched(outcome@),
            Event::Probed(present) => EventView::Probed(*present),
            Event::Removed(result) => EventView::Removed(io_result_view(*result)),
        }
    }
}

/// A run as plain values: its task, where it stands, how many commands have
/// been launched, and what made it fail, if anything did.
pub struct RunView {
    pub task: TaskView,
    pub phase: Phase,
    pub done: nat,
    pub failure: Option<TaskErrorView>,
}

impl RunView {
    /// What holds of every run that was started and then only stepped.
    pub open spec fn wf(self) -> bool {
        &&& self.done <= self.task.steps.len()
        &&& self.phase is Launching ==> self.done < self.task.steps.len()
        &&& self.phase is Writing ==> self.done == 0
        &&& self.phase is Writing || self.phase is Launching ==> self.failure is None
        &&& self.phase is Writing || self.phase is Probing || self.phase is Removing
            ==> self.task.scratch is Some
    }

    /// The phase that comes when no command is launched any more: the release
    /// of the scratch file where the task has one, the end where it has none.
    pub open spec fn closing_phase(self) -> Phase {
        if self.task.scratch is Some {
            Phase::Probing
        } else {
            Phase::Finished
        }
    }

    /// The phase of a run that has `done` commands behind it, none of which
    /// failed to launch.
    pub open spec fn phase_after(self, done: nat) -> Phase {
        if done < self.task.steps.len() {
            Phase::Launching
        } else {
            self.closing_phase()
        }
    }

    /// The run of `task` before anything has happened.
    pub open spec fn start(task: TaskView) -> RunView {
        let idle = RunView { task, phase: Phase::Finished, done: 0, failure: None };
        RunView {
            phase: if task.scratch is Some {
                Phase::Writing
            } else {
                idle.phase_after(0)
            },
            ..idle
        }
    }

    /// The outside work that the run asks for now; none once it is finished.
    pub open spec fn effect(self) -> Option<EffectView> {
        match self.phase {
            Phase::Writing => Some(
                EffectView::Write {
                    path: self.task.scratch->0.path,
                    content: self.task.scratch->0.content,
                },
            ),
            Phase::Launching => Some(EffectView::Launch(self.task.steps[self.done as int])),
            Phase::Probing => Some(EffectView::Probe { path: self.task.scratch->0.path }),
            Phase::Removing => Some(EffectView::Remove { path: self.task.scratch->0.path }),
            Phase::Finished => None,
        }
    }

    /// The failure of a run in which `later` went wrong: what failed first stays.
    pub open spec fn first_failure(self, later: TaskErrorView) -> Option<TaskErrorView> {
        if self.failure is Some {
            self.failure
        } else {
            Some(later)
        }
    }

    /// The run after `event`. An event that does not answer what the run asked
    /// for changes nothing.
    ///
    /// - A scratch file that could not be written fails the task: no command
    ///   is launched and the release follows at once.
    /// - A command that could not be launched fails the task: no other
    ///   command is launched after it.
    /// - A command that ran to its end lets the task go on, whatever its exit
    ///   code.
    /// - At the release the scratch file is removed if and only if it is there.
    /// - A removal that fails makes the task fail, unless it had failed before.
    pub open spec fn step(self, event: EventView) -> RunView {
        match (self.phase, event) {
            (Phase::Writing, EventView::Written(Ok(_))) => RunView {
                phase: self.phase_after(0),
                ..self
            },
            (Phase::Writing, EventView::Written(Err(reason))) => RunView {
                phase: Phase::Probing,
                failure: Some(TaskErrorView::Io(reason)),
                ..self
            },
            (Phase::Launching, EventView::Launched(outcome)) => match outcome.result() {
                Ok(_) => RunView {
                    phase: self.phase_after(self.done + 1),
                    done: self.done + 1,
                    ..self
                },
                Err(reason) => RunView {
                    phase: self.closing_phase(),
                    done: self.done + 1,
                    failure: Some(TaskErrorView::Launch(reason)),
                    ..self
                },
            },
            (Phase::Probing, EventView::Probed(present)) => RunView {
                phase: match release_for(present) {
                    Release::Remove => Phase::Removing,
                    Release::Nothing => Phase::Finished,
                },
                ..self
            },
            (Phase::Removing, EventView::Removed(Ok(_))) => RunView {
                phase: Phase::Finished,
                ..self
            },
            (Phase::Removing, EventView::Removed(Err(reason))) => RunView {
                phase: Phase::Finished,
                failure: self.first_failure(TaskErrorView::Io(reason)),
                ..self
            },
            _ => self,
        }
    }

    /// The line to show the user when `event` arrives: the exit code of a
    /// command that the run had asked for and that ended with another code
    /// than zero.
    pub open spec fn notice(self, event: EventView) -> Option<Seq<char>> {
        match (self.phase, event) {
            (Phase::Launching, EventView::Launched(outcome)) => outcome.notice(),
            _ => None,
        }
    }

    /// The run after each of `events`, in order.
    pub open spec fn after(self, events: Seq<EventView>) -> RunView
        decreases events.len(),
    {
        if events.len() == 0 {
            self
        } else {
            self.step(events.first()).after(events.drop_first())
        }
    }

    /// The run after the first `count` of `events`.
    pub open spec fn at(self, events: Seq<EventView>, count: int) -> RunView {
        self.after(events.take(count))
    }

    /// Whether `event` reports on the work that the run asks for now.
    pub open spec fn answers(self, event: EventView) -> bool {
        match (self.phase, event) {
            (Phase::Writing, EventView::Written(_)) => true,
            (Phase::Launching, EventView::Launched(_)) => true,
            (Phase::Probing, EventView::Probed(_)) => true,
            (Phase::Removing, EventView::Removed(_)) => true,
            _ => false,
        }
    }

    /// The most reports that the run can still take before it is finished.
    pub open spec fn distance(self) -> nat {
        match self.phase {
            Phase::Writing => self.task.steps.len() + 3,
            Phase::Launching => (self.task.steps.len() - self.done + 2) as nat,
            Phase::Probing => 2,
            Phase::Removing => 1,
            Phase::Finished => 0,
        }
    }

    /// Whether the run asks for a command to be launched.
    pub open spec fn asks_launch(self) -> bool {
        self.effect() matches Some(EffectView::Launch(_))
    }

    /// Whether the run asks for anything at all.
    pub open spec fn asks_anything(self) -> bool {
        self.effect() is Some
    }
}

/// The work that a run asks for, as plain values.
pub open spec fn effect_view(effect: Option<Effect>) -> Option<EffectView> {
    match effect {
        Some(effect) => Some(effect@),
        None => None,
    }
}

/// The failure of a run, as plain values.
pub open spec fn failure_view(failure: Option<&TaskError>) -> Option<TaskErrorView> {
    match failure {
        Some(failure) => Some(failure@),
        None => None,
    }
}

/// The run of one task.
#[derive(Debug)]
pub struct Run {
    task: Task,
    phase: Phase,
    done: usize,
    failure: Option<TaskError>,
}

impl View for Run {
    type V = RunView;

    closed spec fn view(&self) -> RunView {
        RunView {
            task: self.task@,
            phase: self.phase,
            done: self.done as nat,
            failure: match self.failure {
                Some(failure) => Some(failure@),
                None => None,
            },
        }
    }
}

impl Run {
    #[verifier::type_invariant]
    spec fn well_formed(self) -> bool {
        self@.wf()
    }

    /// Starts the run of `task`. Nothing has happened yet.
    pub fn start(task: Task) -> (run: Run)
        ensures
            run@ == RunView::start(task@),
            run@.wf(),
    {
        let phase = if task.scratch.is_some() {
            Phase::Writing
        } else if task.steps.len() > 0 {
            Phase::Launching
        } else {
            Phase::Finished
        };
        Run { task, phase, done: 0, failure: None }
    }

    /// The outside work that the run asks for now; none once it is finished.
    pub fn effect(&self) -> (effect: Option<Effect<'_>>)
        ensures
            effect_view(effect) == self@.effect(),
    {
        proof {
            use_type_invariant(self);
        }
        match (self.phase, &self.task.scratch) {
            (Phase::Launching, _) => Some(Effect::Launch(&self.task.steps[self.done])),
            (Phase::Writing, Some(scratch)) => Some(
                Effect::Write { path: scratch.eraser.path(), content: scratch.content.as_str() },
            ),
            (Phase::Probing, Some(scratch)) => Some(Effect::Probe { path: scratch.eraser.path() }),
            (Phase::Removing, Some(scratch)) => Some(
                Effect::Remove { path: scratch.eraser.path() },
            ),
            _ => None,
        }
    }

    /// Whether nothing is left to do.
    pub fn finished(&self) -> (finished: bool)
        ensures
            finished == (self@.phase is Finished),
            finished == !self@.asks_anything(),
    {
        match self.phase {
            Phase::Finished => true,
            _ => false,
        }
    }

    /// How many commands the run has launched so far.
    pub fn launched(&self) -> (count: usize)
        ensures
            count == self@.done,
    {
        self.done
    }

    /// What made the task fail, if anything has.
    pub fn failure(&self) -> (failure: Option<&TaskError>)
        ensures
            failure_view(failure) == self@.failure,
    {
        self.failure.as_ref()
    }

    /// Takes note of how the work that the run asked for went, and moves on.
    /// Returns the line to show the user, if the event calls for one.
    pub fn step(&mut self, event: Event) -> (notice: Option<String>)
        ensures
            final(self)@ == old(self)@.step(event@),
            final(self)@.wf(),
            line_view(notice) == old(self)@.notice(event@),
    {
        proof {
            use_type_invariant(&*self);
        }
        let closing = if self.task.scratch.is_some() {
            Phase::Probing
        } else {
            Phase::Finished
        };
        match (self.phase, event) {
            (Phase::Writing, Event::Written(Ok(_))) => {
                self.phase = if self.task.steps.len() > 0 {
                    Phase::Launching
                } else {
                    closing
                };
                None
            },
            (Phase::Writing, Event::Written(Err(error))) => {
                self.phase = Phase::Probing;
                self.failure = Some(TaskError::Io(error));
                None
            },
            (Phase::Launching, Event::Launched(outcome)) => {
                assert(self.done < self.task.steps.len());
                let settlement = settle(outcome);
                match settlement.result {
                    Ok(_) => {
                        if self.done + 1 < self.task.steps.len() {
                            self.done = self.done + 1;
                        } else {
                            self.phase = closing;
                            self.done = self.done + 1;
                        }
                    },
                    Err(error) => {
                        self.phase = closing;
                        self.done = self.done + 1;
                        self.failure = Some(TaskError::Launch(error));
                    },
                }
                settlement.notice
            },
            (Phase::Probing, Event::Probed(present)) => {
                let release = match &self.task.scratch {
                    Some(scratch) => scratch.eraser.destroy(present),
                    None => Release::Nothing,
                };
                self.phase = match release {
                    Release::Remove => Phase::Removing,
                    Release::Nothing => Phase::Finished,
                };
                None
            },
            (Phase::Removing, Event::Removed(Ok(_))) => {
                self.phase = Phase::Finished;
                None
            },
            (Phase::Removing, Event::Removed(Err(error))) => {
                self.phase = Phase::Finished;
                if self.failure.is_none() {
                    self.failure = Some(TaskError::Io(error));
                }
                None
            },
            _ => None,
        }
    }
}

} // verus!
