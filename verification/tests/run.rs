use task_runner::invocation::Invocation;
use task_runner::outcome::{IoError, LaunchError, Outcome, TaskError};
use task_runner::run::{Effect, Event, Run};
use task_runner::task::{build, build_installer, execute_string_on_shell, open_explorer, Task};

fn not_found() -> Outcome {
    Outcome::Failed(LaunchError { reason: "program not found".to_string() })
}

fn io_error(reason: &str) -> IoError {
    IoError { reason: reason.to_string() }
}

fn launch_words(run: &Run) -> Option<Vec<String>> {
    match run.effect() {
        Some(Effect::Launch(invocation)) => {
            let mut words = vec![invocation.program().to_string()];
            words.extend(invocation.args().iter().cloned());
            Some(words)
        }
        _ => None,
    }
}

fn strings(words: &[&str]) -> Vec<String> {
    words.iter().map(|word| word.to_string()).collect()
}

#[test]
fn run_of_an_idle_task_is_finished_at_once() {
    let run = Run::start(Task { scratch: None, steps: Vec::new() });
    assert!(run.finished());
    assert_eq!(run.effect(), None);
    assert_eq!(run.launched(), 0);
    assert_eq!(run.failure(), None);
}

#[test]
fn run_of_an_idle_task_ignores_every_report() {
    let mut run = Run::start(Task { scratch: None, steps: Vec::new() });
    assert_eq!(run.step(Event::Launched(Outcome::Exited(1))), None);
    assert_eq!(run.step(Event::Launched(not_found())), None);
    assert_eq!(run.step(Event::Written(Err(io_error("disk full")))), None);
    assert_eq!(run.step(Event::Probed(true)), None);
    assert_eq!(run.step(Event::Removed(Err(io_error("busy")))), None);
    assert!(run.finished());
    assert_eq!(run.effect(), None);
    assert_eq!(run.launched(), 0);
    assert_eq!(run.failure(), None);
}

#[test]
fn run_asks_for_the_commands_in_task_order() {
    let mut run = Run::start(build());
    assert!(!run.finished());
    assert_eq!(run.effect(), Some(Effect::Launch(&Invocation::new("yarn.cmd").arg("install"))));
    assert_eq!(run.step(Event::Launched(Outcome::Exited(0))), None);
    assert_eq!(run.launched(), 1);
    assert_eq!(
        run.effect(),
        Some(Effect::Launch(&Invocation::new("yarn.cmd").arg("tsc").arg("--build")))
    );
    assert_eq!(run.step(Event::Launched(Outcome::Exited(0))), None);
    assert_eq!(run.launched(), 2);
    assert!(run.finished());
    assert_eq!(run.effect(), None);
    assert_eq!(run.failure(), None);
}

#[test]
fn run_stops_at_a_command_that_cannot_be_launched() {
    let mut run = Run::start(build());
    assert_eq!(run.step(Event::Launched(not_found())), None);
    assert!(run.finished());
    assert_eq!(run.effect(), None);
    assert_eq!(run.launched(), 1);
    assert_eq!(
        run.failure(),
        Some(&TaskError::Launch(LaunchError { reason: "program not found".to_string() }))
    );
}

#[test]
fn run_that_failed_never_launches_again() {
    let mut run = Run::start(build_installer());
    run.step(Event::Launched(Outcome::Exited(0)));
    run.step(Event::Launched(not_found()));
    assert_eq!(run.launched(), 2);
    for _ in 0..5 {
        assert_eq!(run.step(Event::Launched(Outcome::Exited(0))), None);
        assert_eq!(run.step(Event::Launched(Outcome::Exited(7))), None);
        assert_eq!(run.step(Event::Probed(false)), None);
        assert_eq!(launch_words(&run), None);
        assert!(run.finished());
        assert_eq!(run.launched(), 2);
    }
    assert_eq!(
        run.failure(),
        Some(&TaskError::Launch(LaunchError { reason: "program not found".to_string() }))
    );
}

#[test]
fn run_reports_a_nonzero_exit_and_goes_on() {
    let mut run = Run::start(build());
    let notice = run.step(Event::Launched(Outcome::Exited(2)));
    assert_eq!(notice, Some("コマンドは [2] で終了しました".to_string()));
    assert!(!run.finished());
    assert_eq!(run.failure(), None);
    assert_eq!(launch_words(&run), Some(strings(&["yarn.cmd", "tsc", "--build"])));
    let notice = run.step(Event::Launched(Outcome::Exited(-3)));
    assert_eq!(notice, Some("コマンドは [-3] で終了しました".to_string()));
    assert!(run.finished());
    assert_eq!(run.failure(), None);
    assert_eq!(run.launched(), 2);
}

#[test]
fn selector_b_runs_install_then_build() {
    let args = vec!["b".to_string()];
    let dispatch = task_runner::dispatch::dispatch(&args);
    assert_eq!(dispatch.notice, None);
    let mut run = Run::start(dispatch.task);
    assert_eq!(launch_words(&run), Some(strings(&["yarn.cmd", "install"])));
    run.step(Event::Launched(Outcome::Exited(0)));
    assert_eq!(launch_words(&run), Some(strings(&["yarn.cmd", "tsc", "--build"])));
    run.step(Event::Launched(Outcome::Exited(0)));
    assert!(run.finished());
    assert_eq!(run.launched(), 2);
    assert_eq!(task_runner::dispatch::conclude(&run), None);
}

#[test]
fn selector_b_never_builds_when_install_cannot_launch() {
    let args = vec!["b".to_string()];
    let dispatch = task_runner::dispatch::dispatch(&args);
    let mut run = Run::start(dispatch.task);
    assert_eq!(launch_words(&run), Some(strings(&["yarn.cmd", "install"])));
    assert_eq!(run.step(Event::Launched(not_found())), None);
    assert_eq!(launch_words(&run), None);
    assert!(run.finished());
    assert_eq!(run.launched(), 1);
    assert_eq!(
        task_runner::dispatch::conclude(&run),
        Some("ERROR: Failed to build. reason: [program not found]".to_string())
    );
}

#[test]
fn selector_i_opens_the_output_even_when_packaging_exits_nonzero() {
    let args = vec!["i".to_string()];
    let dispatch = task_runner::dispatch::dispatch(&args);
    assert_eq!(dispatch.notice, None);
    let mut run = Run::start(dispatch.task);
    let mut launched: Vec<Vec<String>> = Vec::new();
    let mut notices: Vec<String> = Vec::new();
    while let Some(words) = launch_words(&run) {
        launched.push(words);
        let code = if launched.len() == 3 { 1 } else { 0 };
        if let Some(notice) = run.step(Event::Launched(Outcome::Exited(code))) {
            notices.push(notice);
        }
    }
    assert!(run.finished());
    assert_eq!(launched.len(), 4);
    assert_eq!(launched[0], strings(&["yarn.cmd", "install"]));
    assert_eq!(launched[1], strings(&["yarn.cmd", "tsc", "--build"]));
    assert_eq!(launched[2][..2], strings(&["yarn.cmd", "electron-builder"])[..]);
    assert_eq!(launched[3], strings(&["explorer.exe", "OUT"]));
    assert_eq!(notices, vec!["コマンドは [1] で終了しました".to_string()]);
    assert_eq!(run.failure(), None);
    assert_eq!(task_runner::dispatch::conclude(&run), None);
}

#[test]
fn selector_i_stops_when_packaging_cannot_launch() {
    let mut run = Run::start(build_installer());
    run.step(Event::Launched(Outcome::Exited(0)));
    run.step(Event::Launched(Outcome::Exited(0)));
    assert_eq!(launch_words(&run).map(|words| words[1].clone()), Some("electron-builder".to_string()));
    run.step(Event::Launched(not_found()));
    assert!(run.finished());
    assert_eq!(run.launched(), 3);
    assert_eq!(launch_words(&run), None);
}

#[test]
fn run_ignores_a_report_it_did_not_ask_for() {
    let mut run = Run::start(open_explorer("OUT"));
    assert_eq!(run.step(Event::Written(Ok(()))), None);
    assert_eq!(run.step(Event::Written(Err(io_error("disk full")))), None);
    assert_eq!(run.step(Event::Probed(true)), None);
    assert_eq!(run.step(Event::Removed(Ok(()))), None);
    assert_eq!(run.step(Event::Removed(Err(io_error("busy")))), None);
    assert!(!run.finished());
    assert_eq!(run.launched(), 0);
    assert_eq!(run.failure(), None);
    assert_eq!(launch_words(&run), Some(strings(&["explorer.exe", "OUT"])));
}

#[test]
fn shell_run_writes_launches_and_releases() {
    let mut run = Run::start(execute_string_on_shell("echo hello"));
    assert_eq!(run.effect(), Some(Effect::Write { path: ".tmp.bat", content: "echo hello" }));
    assert_eq!(run.step(Event::Written(Ok(()))), None);
    assert_eq!(launch_words(&run), Some(strings(&["cmd", "/C", ".tmp.bat"])));
    assert_eq!(run.step(Event::Launched(Outcome::Exited(0))), None);
    assert_eq!(run.effect(), Some(Effect::Probe { path: ".tmp.bat" }));
    assert_eq!(run.step(Event::Probed(true)), None);
    assert_eq!(run.effect(), Some(Effect::Remove { path: ".tmp.bat" }));
    assert!(!run.finished());
    assert_eq!(run.step(Event::Removed(Ok(()))), None);
    assert!(run.finished());
    assert_eq!(run.effect(), None);
    assert_eq!(run.failure(), None);
    assert_eq!(run.launched(), 1);
}

#[test]
fn shell_run_does_not_launch_before_the_script_is_written() {
    let mut run = Run::start(execute_string_on_shell("echo hello"));
    assert_eq!(run.step(Event::Launched(Outcome::Exited(0))), None);
    assert_eq!(run.step(Event::Launched(Outcome::Exited(9))), None);
    assert_eq!(run.launched(), 0);
    assert_eq!(run.effect(), Some(Effect::Write { path: ".tmp.bat", content: "echo hello" }));
}

#[test]
fn shell_run_leaves_an_absent_script_alone() {
    let mut run = Run::start(execute_string_on_shell("del .tmp.bat"));
    run.step(Event::Written(Ok(())));
    run.step(Event::Launched(Outcome::Exited(0)));
    assert_eq!(run.effect(), Some(Effect::Probe { path: ".tmp.bat" }));
    run.step(Event::Probed(false));
    assert!(run.finished());
    assert_eq!(run.effect(), None);
    assert_eq!(run.failure(), None);
}

#[test]
fn shell_run_releases_the_script_when_it_could_not_be_written() {
    let mut run = Run::start(execute_string_on_shell("echo hello"));
    assert_eq!(run.step(Event::Written(Err(io_error("disk full")))), None);
    assert_eq!(run.failure(), Some(&TaskError::Io(io_error("disk full"))));
    assert_eq!(run.launched(), 0);
    assert_eq!(run.effect(), Some(Effect::Probe { path: ".tmp.bat" }));
    run.step(Event::Probed(true));
    assert_eq!(run.effect(), Some(Effect::Remove { path: ".tmp.bat" }));
    run.step(Event::Removed(Ok(())));
    assert!(run.finished());
    assert_eq!(run.launched(), 0);
    assert_eq!(run.failure(), Some(&TaskError::Io(io_error("disk full"))));
}

#[test]
fn shell_run_releases_the_script_when_the_shell_cannot_be_launched() {
    let mut run = Run::start(execute_string_on_shell("echo hello"));
    run.step(Event::Written(Ok(())));
    assert_eq!(run.step(Event::Launched(not_found())), None);
    assert!(!run.finished());
    assert_eq!(run.effect(), Some(Effect::Probe { path: ".tmp.bat" }));
    run.step(Event::Probed(true));
    assert_eq!(run.effect(), Some(Effect::Remove { path: ".tmp.bat" }));
    run.step(Event::Removed(Ok(())));
    assert!(run.finished());
    assert_eq!(
        run.failure(),
        Some(&TaskError::Launch(LaunchError { reason: "program not found".to_string() }))
    );
}

#[test]
fn shell_run_releases_the_script_after_a_nonzero_exit() {
    let mut run = Run::start(execute_string_on_shell("exit 4"));
    run.step(Event::Written(Ok(())));
    let notice = run.step(Event::Launched(Outcome::Exited(4)));
    assert_eq!(notice, Some("コマンドは [4] で終了しました".to_string()));
    assert_eq!(run.effect(), Some(Effect::Probe { path: ".tmp.bat" }));
    run.step(Event::Probed(true));
    run.step(Event::Removed(Ok(())));
    assert!(run.finished());
    assert_eq!(run.failure(), None);
}

#[test]
fn shell_run_fails_when_only_the_removal_fails() {
    let mut run = Run::start(execute_string_on_shell("echo hello"));
    run.step(Event::Written(Ok(())));
    run.step(Event::Launched(Outcome::Exited(0)));
    run.step(Event::Probed(true));
    assert_eq!(run.step(Event::Removed(Err(io_error("file is in use")))), None);
    assert!(run.finished());
    assert_eq!(run.failure(), Some(&TaskError::Io(io_error("file is in use"))));
}

#[test]
fn shell_run_keeps_the_first_failure_when_the_removal_fails_too() {
    let mut run = Run::start(execute_string_on_shell("echo hello"));
    run.step(Event::Written(Ok(())));
    run.step(Event::Launched(not_found()));
    run.step(Event::Probed(true));
    run.step(Event::Removed(Err(io_error("file is in use"))));
    assert!(run.finished());
    assert_eq!(
        run.failure(),
        Some(&TaskError::Launch(LaunchError { reason: "program not found".to_string() }))
    );
}

#[test]
fn scratch_task_without_commands_still_writes_and_releases() {
    let scratch = execute_string_on_shell("echo hello").scratch;
    let mut run = Run::start(Task { scratch, steps: Vec::new() });
    assert_eq!(run.effect(), Some(Effect::Write { path: ".tmp.bat", content: "echo hello" }));
    run.step(Event::Written(Ok(())));
    assert_eq!(run.effect(), Some(Effect::Probe { path: ".tmp.bat" }));
    run.step(Event::Probed(false));
    assert!(run.finished());
    assert_eq!(run.launched(), 0);
}
