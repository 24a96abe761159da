//! What holds of every run, whatever the outside reports.

use crate::dispatch::{dispatched_notice, dispatched_task, request_of};
use crate::outcome::{exit_notice, OutcomeView, TaskErrorView};
use crate::run::{EffectView, EventView, Phase, RunView};
use crate::task::TaskView;
use vstd::prelude::*;

verus! {

/// A run that has just been started is well formed.
pub proof fn start_is_well_formed(task: TaskView)
    ensures
        RunView::start(task).wf(),
{
}

/// A step keeps a run well formed.
pub proof fn step_keeps_well_formed(run: RunView, event: EventView)
    requires
        run.wf(),
    ensures
        run.step(event).wf(),
{
}

/// Once a task has failed it launches nothing any more. Whatever is reported
/// afterwards, the run asks for no command, the number of commands launched
/// stays what it was, and the failure stays the one that came first.
pub proof fn failed_run_launches_nothing(run: RunView, events: Seq<EventView>)
    requires
        run.wf(),
        run.failure is Some,
    ensures
        !run.after(events).asks_launch(),
        run.after(events).done == run.done,
        run.after(events).failure == run.failure,
    decreases events.len(),
{
    if events.len() > 0 {
        failed_run_launches_nothing(run.step(events.first()), events.drop_first());
    }
}

/// A command that cannot be launched fails the task with its error, and no
/// later command of the task is launched, whatever is reported afterwards.
pub proof fn launch_failure_ends_task(run: RunView, reason: Seq<char>, events: Seq<EventView>)
    requires
        run.wf(),
        run.asks_launch(),
    ensures
        ({
            let failed = run.step(EventView::Launched(OutcomeView::Failed(reason)));
            &&& failed.failure == Some(TaskErrorView::Launch(reason))
            &&& failed.done == run.done + 1
            &&& !failed.after(events).asks_launch()
            &&& failed.after(events).done == run.done + 1
            &&& failed.after(events).failure == Some(TaskErrorView::Launch(reason))
        }),
{
    let failed = run.step(EventView::Launched(OutcomeView::Failed(reason)));
    failed_run_launches_nothing(failed, events);
}

/// A report that the run did not ask for changes nothing.
pub proof fn unasked_report_changes_nothing(run: RunView, event: EventView)
    requires
        !run.answers(event),
    ensures
        run.step(event) == run,
        run.notice(event) is None,
{
}

/// Every report that the run asked for brings it closer to its end: no
/// request is made twice, and a run is finished after at most three reports
/// more than its task has commands.
pub proof fn answer_brings_end_closer(run: RunView, event: EventView)
    requires
        run.wf(),
        run.answers(event),
    ensures
        run.step(event).distance() < run.distance(),
        run.distance() <= run.task.steps.len() + 3,
        run.distance() == 0 <==> run.phase is Finished,
{
}

/// A finished run stays as it is, whatever is reported to it.
pub proof fn finished_run_stays(run: RunView, events: Seq<EventView>)
    requires
        run.phase is Finished,
    ensures
        run.after(events) == run,
    decreases events.len(),
{
    if events.len() > 0 {
        finished_run_stays(run, events.drop_first());
    }
}

/// The reports of launches that went as `outcomes` say, one after the other.
pub open spec fn launch_reports(outcomes: Seq<OutcomeView>) -> Seq<EventView> {
    Seq::new(outcomes.len(), |i: int| EventView::Launched(outcomes[i]))
}

/// Whether the first `count` of `outcomes` are processes that ran to their end.
pub open spec fn all_exited(outcomes: Seq<OutcomeView>, count: int) -> bool {
    forall|j: int| 0 <= j < count ==> (#[trigger] outcomes[j]) is Exited
}

/// What the rest of a task without scratch file comes to when the commands
/// that are left are launched with `outcomes`.
proof fn rest_stops_at_first_launch_failure(run: RunView, outcomes: Seq<OutcomeView>)
    requires
        run.wf(),
        run.task.scratch is None,
        run.failure is None,
        run.phase == run.phase_after(run.done),
        outcomes.len() == run.task.steps.len() - run.done,
    ensures
        ({
            let end = run.after(launch_reports(outcomes));
            &&& end.phase is Finished
            &&& all_exited(outcomes, outcomes.len() as int) ==> end.done == run.task.steps.len()
                && end.failure is None
            &&& forall|k: int|
                0 <= k < outcomes.len() && (#[trigger] outcomes[k]) is Failed && all_exited(
                    outcomes,
                    k,
                ) ==> end.done == run.done + k + 1 && end.failure == Some(
                    TaskErrorView::Launch(outcomes[k]->Failed_0),
                )
        }),
    decreases outcomes.len(),
{
    let reports = launch_reports(outcomes);
    let end = run.after(reports);
    if outcomes.len() > 0 {
        let next = run.step(reports.first());
        let rest = outcomes.drop_first();
        assert(reports.drop_first() =~= launch_reports(rest));
        match outcomes[0] {
            OutcomeView::Failed(reason) => {
                finished_run_stays(next, launch_reports(rest));
                assert forall|k: int|
                    0 <= k < outcomes.len() && (#[trigger] outcomes[k]) is Failed && all_exited(
                        outcomes,
                        k,
                    ) implies k == 0 by {
                    if k > 0 {
                        assert(outcomes[0] is Exited);
                    }
                }
            },
            OutcomeView::Exited(_) => {
                rest_stops_at_first_launch_failure(next, rest);
                if all_exited(outcomes, outcomes.len() as int) {
                    assert forall|j: int| 0 <= j < rest.len() implies (#[trigger] rest[j])
                        is Exited by {
                        assert(outcomes[j + 1] is Exited);
                    }
                }
                assert forall|k: int|
                    0 <= k < outcomes.len() && (#[trigger] outcomes[k]) is Failed && all_exited(
                        outcomes,
                        k,
                    ) implies end.done == run.done + k + 1 && end.failure == Some(
                    TaskErrorView::Launch(outcomes[k]->Failed_0),
                ) by {
                    assert(rest[k - 1] == outcomes[k]);
                    assert forall|j: int| 0 <= j < k - 1 implies (#[trigger] rest[j])
                        is Exited by {
                        assert(outcomes[j + 1] is Exited);
                    }
                }
            },
        }
    }
}

/// A task without scratch file launches its commands in order and stops at
/// the first that cannot be launched, and only there. With the outcomes of
/// the launches given one for each command:
/// - where every process ran to its end, all commands are launched and the
///   task does not fail, whatever the exit codes;
/// - where the launch of command `k` is the first to fail, `k + 1` commands
///   are launched and the task fails with that launch's error.
/// Either way the run is finished.
pub proof fn task_stops_at_first_launch_failure(
    steps: Seq<Seq<Seq<char>>>,
    outcomes: Seq<OutcomeView>,
)
    requires
        outcomes.len() == steps.len(),
    ensures
        ({
            let end = RunView::start(TaskView::plain(steps)).after(launch_reports(outcomes));
            &&& end.phase is Finished
            &&& all_exited(outcomes, outcomes.len() as int) ==> end.done == steps.len()
                && end.failure is None
            &&& forall|k: int|
                0 <= k < outcomes.len() && (#[trigger] outcomes[k]) is Failed && all_exited(
                    outcomes,
                    k,
                ) ==> end.done == k + 1 && end.failure == Some(
                    TaskErrorView::Launch(outcomes[k]->Failed_0),
                )
        }),
{
    rest_stops_at_first_launch_failure(RunView::start(TaskView::plain(steps)), outcomes);
}

/// A command that ends with an exit code other than zero is reported with
/// that code and does not fail the task: the run goes on exactly as after an
/// exit code of zero, with the next command where there is one.
pub proof fn nonzero_exit_is_reported_not_fatal(run: RunView, code: i32)
    requires
        run.wf(),
        run.asks_launch(),
        code != 0,
    ensures
        ({
            let event = EventView::Launched(OutcomeView::Exited(code));
            let next = run.step(event);
            &&& run.notice(event) == Some(exit_notice(code as int))
            &&& next.failure is None
            &&& next.done == run.done + 1
            &&& next == run.step(EventView::Launched(OutcomeView::Exited(0)))
            &&& run.done + 1 < run.task.steps.len() ==> next.effect() == Some(
                EffectView::Launch(run.task.steps[(run.done + 1) as int]),
            )
        }),
{
}

/// The run of a task with a scratch file comes to its end only through the
/// release of that file: from the look at the path when the file is not
/// there, or from its removal. This holds however the task went before.
pub proof fn finish_goes_through_release(run: RunView, event: EventView)
    requires
        run.wf(),
        run.task.scratch is Some,
        !(run.phase is Finished),
        run.step(event).phase is Finished,
    ensures
        (run.phase is Probing && event == EventView::Probed(false)) || (run.phase is Removing
            && event is Removed),
{
}

/// At the release the removal of the scratch file is asked for if and only
/// if the file was seen to be there, and for the path of the task's handle.
pub proof fn removal_follows_presence(run: RunView, present: bool)
    requires
        run.wf(),
        run.phase is Probing,
    ensures
        ({
            let next = run.step(EventView::Probed(present));
            &&& present ==> next.effect() == Some(
                EffectView::Remove { path: run.task.scratch->0.path },
            )
            &&& !present ==> next.phase is Finished
            &&& next.failure == run.failure
        }),
{
}

/// The removal is never asked for without the look at the path that comes
/// before it.
pub proof fn removal_only_after_probe(run: RunView, event: EventView)
    requires
        run.wf(),
        !(run.phase is Removing),
        run.step(event).phase is Removing,
    ensures
        run.phase is Probing,
        event == EventView::Probed(true),
{
}

/// The run after no report is the run itself, and the run after all of them
/// is where the reports lead.
pub proof fn at_ends(run: RunView, events: Seq<EventView>)
    ensures
        run.at(events, 0) == run,
        run.at(events, events.len() as int) == run.after(events),
{
    assert(events.take(0).len() == 0);
    assert(events.take(events.len() as int) =~= events);
}

/// The run after one report more is the step from the run before it.
pub proof fn at_next_is_step(run: RunView, events: Seq<EventView>, count: int)
    requires
        0 <= count < events.len(),
    ensures
        run.at(events, count + 1) == run.at(events, count).step(events[count]),
    decreases count,
{
    let first = run.step(events[0]);
    let rest = events.drop_first();
    assert(events.take(count + 1).first() == events[0]);
    assert(events.take(count + 1).drop_first() =~= rest.take(count));
    assert(run.at(events, count + 1) == first.at(rest, count));
    if count == 0 {
        at_ends(first, rest);
        at_ends(run, events);
    } else {
        assert(events.take(count).first() == events[0]);
        assert(events.take(count).drop_first() =~= rest.take(count - 1));
        assert(run.at(events, count) == first.at(rest, count - 1));
        at_next_is_step(first, rest, count - 1);
    }
}

/// A run stays well formed, and keeps its task, through any reports.
pub proof fn at_keeps_well_formed(run: RunView, events: Seq<EventView>, count: int)
    requires
        run.wf(),
        0 <= count <= events.len(),
    ensures
        run.at(events, count).wf(),
        run.at(events, count).task == run.task,
    decreases count,
{
    if count > 0 {
        at_keeps_well_formed(run, events, count - 1);
        at_next_is_step(run, events, count - 1);
    } else {
        at_ends(run, events);
    }
}

/// Where a run is not in `phase` after `low` reports and is in it after
/// `high`, one of the reports between them brings it there.
proof fn entry_into(
    run: RunView,
    events: Seq<EventView>,
    phase: Phase,
    low: int,
    high: int,
) -> (count: int)
    requires
        0 <= low < high <= events.len(),
        run.at(events, low).phase != phase,
        run.at(events, high).phase == phase,
    ensures
        low <= count < high,
        run.at(events, count).phase != phase,
        run.at(events, count + 1).phase == phase,
    decreases high - low,
{
    if run.at(events, high - 1).phase == phase {
        entry_into(run, events, phase, low, high - 1)
    } else {
        high - 1
    }
}

/// Where a run is in `phase` after `low` reports and is not after `high`,
/// one of the reports between them takes it out of there.
proof fn exit_from(
    run: RunView,
    events: Seq<EventView>,
    phase: Phase,
    low: int,
    high: int,
) -> (count: int)
    requires
        0 <= low < high <= events.len(),
        run.at(events, low).phase == phase,
        run.at(events, high).phase != phase,
    ensures
        low <= count < high,
        run.at(events, count).phase == phase,
        run.at(events, count + 1).phase != phase,
    decreases high - low,
{
    if run.at(events, high - 1).phase == phase {
        high - 1
    } else {
        exit_from(run, events, phase, low, high - 1)
    }
}

/// The look at the path among the reports that finished a run.
proof fn look_among_reports(task: TaskView, events: Seq<EventView>) -> (look: int)
    requires
        task.scratch is Some,
        RunView::start(task).after(events).phase is Finished,
    ensures
        0 <= look < events.len(),
        events[look] is Probed,
        RunView::start(task).at(events, look).phase is Probing,
{
    let run = RunView::start(task);
    at_ends(run, events);
    let last = entry_into(run, events, Phase::Finished, 0, events.len() as int);
    at_next_is_step(run, events, last);
    at_keeps_well_formed(run, events, last);
    finish_goes_through_release(run.at(events, last), events[last]);
    if run.at(events, last).phase is Removing {
        let look = entry_into(run, events, Phase::Removing, 0, last);
        at_next_is_step(run, events, look);
        at_keeps_well_formed(run, events, look);
        removal_only_after_probe(run.at(events, look), events[look]);
        look
    } else {
        last
    }
}

/// The report on the removal that follows a look which found the file there.
proof fn removal_among_reports(
    task: TaskView,
    events: Seq<EventView>,
    look: int,
) -> (removal: int)
    requires
        task.scratch is Some,
        RunView::start(task).after(events).phase is Finished,
        0 <= look < events.len(),
        events[look] == EventView::Probed(true),
        RunView::start(task).at(events, look).phase is Probing,
    ensures
        look < removal < events.len(),
        events[removal] is Removed,
        RunView::start(task).at(events, removal).phase is Removing,
{
    let run = RunView::start(task);
    at_ends(run, events);
    at_next_is_step(run, events, look);
    at_keeps_well_formed(run, events, look);
    removal_follows_presence(run.at(events, look), true);
    let removal = exit_from(run, events, Phase::Removing, look + 1, events.len() as int);
    at_next_is_step(run, events, removal);
    if !run.at(events, removal).answers(events[removal]) {
        unasked_report_changes_nothing(run.at(events, removal), events[removal]);
    }
    removal
}

/// However a task with a scratch file went, its run is not over before the
/// release was made. Among the reports that brought the run to its end there
/// is the look at the path, made when the run asked for it; and where a look
/// found the file there, the report on its removal follows, made when the
/// run asked for that.
pub proof fn finished_run_has_released(task: TaskView, events: Seq<EventView>)
    requires
        task.scratch is Some,
        RunView::start(task).after(events).phase is Finished,
    ensures
        exists|i: int|
            0 <= i < events.len() && events[i] is Probed && (#[trigger] RunView::start(task).at(
                events,
                i,
            )).phase is Probing,
        forall|i: int|
            0 <= i < events.len() && events[i] == EventView::Probed(true) && (
            #[trigger] RunView::start(task).at(events, i)).phase is Probing ==> exists|j: int|
                i < j < events.len() && events[j] is Removed && (#[trigger] RunView::start(
                    task,
                ).at(events, j)).phase is Removing,
{
    let run = RunView::start(task);
    let look = look_among_reports(task, events);
    assert(events[look] is Probed && run.at(events, look).phase is Probing);
    assert forall|i: int|
        0 <= i < events.len() && events[i] == EventView::Probed(true) && (#[trigger] run.at(
            events,
            i,
        )).phase is Probing implies exists|j: int|
        i < j < events.len() && events[j] is Removed && (#[trigger] run.at(events, j)).phase
            is Removing by {
        let removal = removal_among_reports(task, events, i);
        assert(events[removal] is Removed && run.at(events, removal).phase is Removing);
    }
}

/// The run of a task that asks for nothing is over before it starts, and no
/// report changes that: it never asks for any outside work.
pub proof fn idle_task_asks_nothing(task: TaskView, events: Seq<EventView>)
    requires
        task.is_idle(),
    ensures
        RunView::start(task).after(events) == RunView::start(task),
        !RunView::start(task).after(events).asks_anything(),
    decreases events.len(),
{
    if events.len() > 0 {
        idle_task_asks_nothing(task, events.drop_first());
    }
}

/// Without arguments nothing is done and nothing is said: the task asks
/// for no outside work at all, whatever is reported to its run, and no line
/// is shown.
pub proof fn no_arguments_nothing_to_do(events: Seq<EventView>)
    ensures
        dispatched_task(Seq::empty()).is_idle(),
        dispatched_notice(Seq::empty()) is None,
        !RunView::start(dispatched_task(Seq::empty())).after(events).asks_anything(),
{
    idle_task_asks_nothing(dispatched_task(Seq::empty()), events);
}

/// A selector that is not understood never leads to a launch: its task asks
/// for no outside work at all, whatever is reported to its run. All there is
/// for it is the line that says so.
pub proof fn unrecognized_selector_launches_nothing(
    args: Seq<Seq<char>>,
    events: Seq<EventView>,
)
    requires
        args.len() > 0,
        request_of(args[0]) is Invalid,
    ensures
        dispatched_task(args).is_idle(),
        dispatched_notice(args) == Some("Invalid request"@),
        !RunView::start(dispatched_task(args)).after(events).asks_anything(),
{
    idle_task_asks_nothing(dispatched_task(args), events);
}

} // verus!
