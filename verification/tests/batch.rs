use pdfshrink::{
    advance, dry_run_command, gs_command, resolve_output, select_mode, start_file, Action,
    ConfigError, Event, ExecutionOutcome, FailReason, FileState, OutputMode, SkipReason, Step,
};
use std::path::PathBuf;

fn rename() -> OutputMode {
    OutputMode::Rename(String::from("shrunk"))
}

fn subdirectory(name: &str) -> OutputMode {
    OutputMode::Subdirectory(String::from(name))
}

fn done(outcome: ExecutionOutcome) -> Step {
    Step { state: FileState::Done(outcome), action: Action::Record(outcome) }
}

fn all_events() -> Vec<Event> {
    vec![
        Event::DirectoryCreated,
        Event::DirectoryFailed,
        Event::ProcessFinished,
        Event::LaunchFailed,
    ]
}

#[test]
fn no_mode_means_rename_with_shrunk() {
    assert_eq!(select_mode(false, false, None), Ok(rename()));
    assert_eq!(select_mode(false, true, None), Ok(rename()));
}

#[test]
fn subdirectory_mode_keeps_its_name() {
    assert_eq!(select_mode(false, false, Some(String::from("out"))), Ok(subdirectory("out")));
}

#[test]
fn two_modes_are_a_conflict() {
    let conflict = Err(ConfigError::MutuallyExclusiveModeConflict);
    assert_eq!(select_mode(true, true, None), conflict);
    assert_eq!(select_mode(true, false, Some(String::from("out"))), conflict);
    assert_eq!(select_mode(false, true, Some(String::from("out"))), conflict);
    assert_eq!(select_mode(true, true, Some(String::from("out"))), conflict);
}

#[test]
fn in_place_mode_is_unsupported() {
    assert_eq!(select_mode(true, false, None), Err(ConfigError::UnsupportedMode));
}

#[test]
fn output_follows_the_mode() {
    assert_eq!(
        resolve_output(&rename(), "docs/report.pdf").map(PathBuf::from),
        Ok("docs/report.shrunk.pdf".into())
    );
    assert_eq!(
        resolve_output(&OutputMode::LegacyRename, "docs/report.pdf").map(PathBuf::from),
        Ok("docs/report.cmp.pdf".into())
    );
    assert_eq!(
        resolve_output(&subdirectory("out"), "docs/report.pdf").map(PathBuf::from),
        Ok("docs/out/report.pdf".into())
    );
    assert_eq!(
        resolve_output(&OutputMode::InPlace, "docs/report.pdf"),
        Err(ExecutionOutcome::Failed(FailReason::UnsupportedMode))
    );
}

#[test]
fn suffix_with_a_separator_gives_no_path() {
    let unresolvable = Err(ExecutionOutcome::Skipped(SkipReason::UnresolvableOutputPath));
    assert_eq!(
        resolve_output(&OutputMode::Rename(String::from("a/b")), "docs/report.pdf"),
        unresolvable
    );
    assert_eq!(
        resolve_output(&OutputMode::Rename(String::from("a\\b")), "docs/report.pdf"),
        unresolvable
    );
    assert_eq!(
        start_file(&OutputMode::Rename(String::from("/")), false, "docs/report.pdf"),
        done(ExecutionOutcome::Skipped(SkipReason::UnresolvableOutputPath))
    );
}

#[test]
fn input_without_extension_is_skipped_in_every_mode() {
    let skipped = ExecutionOutcome::Skipped(SkipReason::InvalidExtension);
    let modes = vec![
        rename(),
        OutputMode::Rename(String::from("a/b")),
        OutputMode::LegacyRename,
        subdirectory("out"),
        OutputMode::InPlace,
    ];
    for mode in &modes {
        for dry_run in &[false, true] {
            for input in &["report", ".pdf", "report.txt", ""] {
                assert_eq!(resolve_output(mode, input), Err(skipped));
                assert_eq!(start_file(mode, *dry_run, input), done(skipped));
            }
        }
    }
}

#[test]
fn skipped_file_does_not_stop_the_next() {
    let mode = rename();
    let first = start_file(&mode, false, "report");
    assert_eq!(first, done(ExecutionOutcome::Skipped(SkipReason::InvalidExtension)));
    let second = start_file(&mode, false, "report.pdf");
    assert_eq!(
        second,
        Step {
            state: FileState::Running,
            action: Action::Run(gs_command("report.pdf", "report.shrunk.pdf")),
        }
    );
}

#[test]
fn rename_mode_runs_the_command_at_once() {
    let step = start_file(&rename(), false, "docs/report.pdf");
    assert_eq!(step.state, FileState::Running);
    match step.action {
        Action::Run(cmd) => {
            assert_eq!(cmd.program, "gs");
            assert_eq!(cmd.args.len(), 16);
            assert_eq!(
                PathBuf::from(cmd.args[14].strip_prefix("-sOutputFile=").unwrap()),
                PathBuf::from("docs/report.shrunk.pdf")
            );
            assert_eq!(cmd.args[15], "docs/report.pdf");
        }
        other => panic!("unexpected action {:?}", other),
    }
}

#[test]
fn in_place_mode_fails_the_file() {
    assert_eq!(
        start_file(&OutputMode::InPlace, false, "docs/report.pdf"),
        done(ExecutionOutcome::Failed(FailReason::UnsupportedMode))
    );
}

#[test]
fn subdirectory_mode_asks_for_the_directory_first() {
    let step = start_file(&subdirectory("out"), false, "docs/report.pdf");
    match &step.action {
        Action::CreateDirectory(dir) => assert_eq!(PathBuf::from(dir), PathBuf::from("docs/out")),
        other => panic!("unexpected action {:?}", other),
    }
    let held = match &step.state {
        FileState::AwaitingDirectory(cmd) => cmd.clone(),
        other => panic!("unexpected state {:?}", other),
    };
    assert_eq!(held.program, "gs");
    assert_eq!(held.args[15], "docs/report.pdf");
    assert_eq!(
        PathBuf::from(held.args[14].strip_prefix("-sOutputFile=").unwrap()),
        PathBuf::from("docs/out/report.pdf")
    );

    let next = advance(step.state, Event::DirectoryCreated).unwrap();
    assert_eq!(next, Step { state: FileState::Running, action: Action::Run(held) });
    let last = advance(next.state, Event::ProcessFinished).unwrap();
    assert_eq!(last, done(ExecutionOutcome::Completed));
}

#[test]
fn directory_failure_skips_the_file() {
    let step = start_file(&subdirectory("out"), false, "docs/report.pdf");
    assert_eq!(
        advance(step.state, Event::DirectoryFailed),
        Some(done(ExecutionOutcome::Skipped(SkipReason::DirectoryCreationFailure)))
    );
}

#[test]
fn dry_run_creates_no_directory() {
    let step = start_file(&subdirectory("out"), true, "docs/report.pdf");
    assert_eq!(step.state, FileState::Running);
    match step.action {
        Action::Run(cmd) => {
            assert_eq!(cmd.program, "args");
            assert_eq!(cmd.args[15], "docs/report.pdf");
            assert_eq!(
                PathBuf::from(cmd.args[14].strip_prefix("-sOutputFile=").unwrap()),
                PathBuf::from("docs/out/report.pdf")
            );
        }
        other => panic!("unexpected action {:?}", other),
    }
}

#[test]
fn dry_run_uses_the_stand_in() {
    let step = start_file(&rename(), true, "a.pdf");
    assert_eq!(
        step,
        Step {
            state: FileState::Running,
            action: Action::Run(dry_run_command("a.pdf", "a.shrunk.pdf")),
        }
    );
}

#[test]
fn finished_process_completes_the_file() {
    assert_eq!(
        advance(FileState::Running, Event::ProcessFinished),
        Some(done(ExecutionOutcome::Completed))
    );
}

#[test]
fn launch_failure_fails_the_file() {
    assert_eq!(
        advance(FileState::Running, Event::LaunchFailed),
        Some(done(ExecutionOutcome::Failed(FailReason::ProcessLaunchFailure)))
    );
}

#[test]
fn events_out_of_turn_are_refused() {
    let cmd = gs_command("a.pdf", "sub/a.pdf");
    assert_eq!(advance(FileState::Running, Event::DirectoryCreated), None);
    assert_eq!(advance(FileState::Running, Event::DirectoryFailed), None);
    assert_eq!(advance(FileState::AwaitingDirectory(cmd.clone()), Event::ProcessFinished), None);
    assert_eq!(advance(FileState::AwaitingDirectory(cmd), Event::LaunchFailed), None);
}

#[test]
fn finished_file_takes_no_more_events() {
    let outcomes = vec![
        ExecutionOutcome::Completed,
        ExecutionOutcome::Skipped(SkipReason::InvalidExtension),
        ExecutionOutcome::Skipped(SkipReason::UnresolvableOutputPath),
        ExecutionOutcome::Skipped(SkipReason::DirectoryCreationFailure),
        ExecutionOutcome::Failed(FailReason::UnsupportedMode),
        ExecutionOutcome::Failed(FailReason::ProcessLaunchFailure),
    ];
    for outcome in &outcomes {
        for event in all_events() {
            assert_eq!(advance(FileState::Done(*outcome), event), None);
        }
    }
}
