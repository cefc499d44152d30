//! What a batch run does with each input file, one decision at a time.
//!
//! The run itself (creating directories, starting processes) belongs to the
//! caller. This module picks the output mode for the whole run, and for each
//! file says what to do next: `start_file` gives the first action, and
//! `advance` takes the news of how that action went and gives the one after,
//! until the file's outcome is recorded. A file that cannot be handled is
//! skipped, and the run goes on with the next one.

use crate::command::{
    dry_run_command, dry_run_command_text, gs_command, gs_command_text, CommandSpec, CommandText,
};
use crate::path::{is_separator_free, path_file_name, path_join, separator_free};
use crate::resolve::{
    has_pdf_extension, is_pdf, pdf_into_subdir, pdf_subdir, pdf_to_cmp_pdf, pdf_with_suffix,
    rename_target, subdir_of, target_in_subdir,
};
use vstd::prelude::*;
use vstd::string::StringExecFns;

verus! {

/// Where the shrunk copy of each file is written.
#[derive(Debug, Clone, PartialEq, Eq)]
pub enum OutputMode {
    /// Beside the input, with this suffix put before `.pdf`.
    Rename(String),
    /// Beside the input, with the older suffix `cmp`.
    LegacyRename,
    /// Under the input's name, in the directory of this name beside it.
    Subdirectory(String),
    /// Over the input. Reserved: no run supports it.
    InPlace,
}

/// An output mode as text: what `OutputMode` stands for.
pub enum OutputModeText {
    Rename(Seq<char>),
    LegacyRename,
    Subdirectory(Seq<char>),
    InPlace,
}

impl View for OutputMode {
    type V = OutputModeText;

    open spec fn view(&self) -> OutputModeText {
        match self {
            OutputMode::Rename(suffix) => OutputModeText::Rename(suffix@),
            OutputMode::LegacyRename => OutputModeText::LegacyRename,
            OutputMode::Subdirectory(name) => OutputModeText::Subdirectory(name@),
            OutputMode::InPlace => OutputModeText::InPlace,
        }
    }
}

/// Why a run cannot start at all.
#[derive(Debug, Clone, Copy, PartialEq, Eq, Structural)]
pub enum ConfigError {
    /// More than one output mode was asked for.
    MutuallyExclusiveModeConflict,
    /// The mode asked for is the reserved in-place mode.
    UnsupportedMode,
}

/// Why a file was passed over.
#[derive(Debug, Clone, Copy, PartialEq, Eq, Structural)]
pub enum SkipReason {
    /// The input's extension is not `pdf`.
    InvalidExtension,
    /// No output path can be made for the input.
    UnresolvableOutputPath,
    /// The directory for the output could not be created.
    DirectoryCreationFailure,
}

/// Why work on a file broke off.
#[derive(Debug, Clone, Copy, PartialEq, Eq, Structural)]
pub enum FailReason {
    /// The output mode is the reserved in-place mode.
    UnsupportedMode,
    /// The command could not be started.
    ProcessLaunchFailure,
}

/// How the work on one file ended.
#[derive(Debug, Clone, Copy, PartialEq, Eq, Structural)]
pub enum ExecutionOutcome {
    Completed,
    Skipped(SkipReason),
    Failed(FailReason),
}

/// What the caller reports after carrying out an action.
#[derive(Debug, Clone, Copy, PartialEq, Eq, Structural)]
pub enum Event {
    /// The directory asked for exists now.
    DirectoryCreated,
    /// The directory asked for could not be created.
    DirectoryFailed,
    /// The command was started and has run to its end.
    ProcessFinished,
    /// The command could not be started.
    LaunchFailed,
}

/// Where the work on one file stands.
#[derive(Debug, Clone, PartialEq, Eq)]
pub enum FileState {
    /// The output directory has been asked for; this command follows once it
    /// exists.
    AwaitingDirectory(CommandSpec),
    /// The command has been handed out.
    Running,
    /// The work has ended.
    Done(ExecutionOutcome),
}

/// A state as text: what `FileState` stands for.
pub enum FileStateText {
    AwaitingDirectory(CommandText),
    Running,
    Done(ExecutionOutcome),
}

impl View for FileState {
    type V = FileStateText;

    open spec fn view(&self) -> FileStateText {
        match self {
            FileState::AwaitingDirectory(cmd) => FileStateText::AwaitingDirectory(cmd@),
            FileState::Running => FileStateText::Running,
            FileState::Done(outcome) => FileStateText::Done(*outcome),
        }
    }
}

/// What the caller is to do next.
#[derive(Debug, Clone, PartialEq, Eq)]
pub enum Action {
    /// Create this directory and every missing directory above it; one that
    /// exists already counts as created.
    CreateDirectory(String),
    /// Start this command and wait for it to end.
    Run(CommandSpec),
    /// Note this outcome; nothing more is to be done for the file.
    Record(ExecutionOutcome),
}

/// An action as text: what `Action` stands for.
pub enum ActionText {
    CreateDirectory(Seq<char>),
    Run(CommandText),
    Record(ExecutionOutcome),
}

impl View for Action {
    type V = ActionText;

    open spec fn view(&self) -> ActionText {
        match self {
            Action::CreateDirectory(dir) => ActionText::CreateDirectory(dir@),
            Action::Run(cmd) => ActionText::Run(cmd@),
            Action::Record(outcome) => ActionText::Record(*outcome),
        }
    }
}

/// One decision: the state the file is in now, and what to do next.
#[derive(Debug, Clone, PartialEq, Eq)]
pub struct Step {
    pub state: FileState,
    pub action: Action,
}

/// A decision as text: what `Step` stands for.
pub struct StepText {
    pub state: FileStateText,
    pub action: ActionText,
}

impl View for Step {
    type V = StepText;

    open spec fn view(&self) -> StepText {
        StepText { state: self.state@, action: self.action@ }
    }
}

/// One for a mode that was asked for, zero for one that was not.
pub open spec fn asked(mode: bool) -> nat {
    if mode {
        1
    } else {
        0
    }
}

/// How many output modes were asked for.
pub open spec fn modes_requested(inplace: bool, rename: bool, subdir: bool) -> nat {
    asked(inplace) + asked(rename) + asked(subdir)
}

/// The mode of a run: a conflict where more than one was asked for, no
/// support for the in-place mode, the subdirectory mode where a name was
/// given, and renaming with the suffix `shrunk` otherwise.
pub open spec fn selected_mode(inplace: bool, rename: bool, subdir: Option<Seq<char>>) -> Result<
    OutputModeText,
    ConfigError,
> {
    if modes_requested(inplace, rename, subdir is Some) > 1 {
        Err(ConfigError::MutuallyExclusiveModeConflict)
    } else if inplace {
        Err(ConfigError::UnsupportedMode)
    } else {
        match subdir {
            Some(name) => Ok(OutputModeText::Subdirectory(name)),
            None => Ok(OutputModeText::Rename("shrunk"@)),
        }
    }
}

/// The output path of `input` under `mode`, or the outcome that ends the work
/// on it. The extension is looked at first, whatever the mode.
pub open spec fn resolved_output(mode: OutputModeText, input: Seq<char>) -> Result<
    Seq<char>,
    ExecutionOutcome,
> {
    if !has_pdf_extension(input) {
        Err(ExecutionOutcome::Skipped(SkipReason::InvalidExtension))
    } else {
        match mode {
            OutputModeText::Rename(suffix) => if separator_free(suffix) {
                Ok(rename_target(input, suffix).unwrap())
            } else {
                Err(ExecutionOutcome::Skipped(SkipReason::UnresolvableOutputPath))
            },
            OutputModeText::LegacyRename => Ok(rename_target(input, "cmp"@).unwrap()),
            OutputModeText::Subdirectory(name) => Ok(target_in_subdir(input, name).unwrap()),
            OutputModeText::InPlace => Err(ExecutionOutcome::Failed(FailReason::UnsupportedMode)),
        }
    }
}

/// The decision that ends the work on a file.
pub open spec fn finished(outcome: ExecutionOutcome) -> StepText {
    StepText { state: FileStateText::Done(outcome), action: ActionText::Record(outcome) }
}

/// True of a decision that records an outcome exactly when it ends the work,
/// and then records the outcome that the state holds.
pub open spec fn recorded_at_end(step: StepText) -> bool {
    match (step.state, step.action) {
        (FileStateText::Done(reached), ActionText::Record(noted)) => reached == noted,
        (FileStateText::Done(_), _) => false,
        (_, ActionText::Record(_)) => false,
        _ => true,
    }
}

/// The first decision for `input`. Where no output path can be made, the work
/// ends at once. In the subdirectory mode of a real run the directory is
/// asked for first and the command is held back; in every other case the
/// command goes out directly: the real one, or in a dry run its stand-in.
pub open spec fn first_step(mode: OutputModeText, dry_run: bool, input: Seq<char>) -> StepText {
    match resolved_output(mode, input) {
        Err(outcome) => finished(outcome),
        Ok(output) => match mode {
            OutputModeText::Subdirectory(name) if !dry_run => StepText {
                state: FileStateText::AwaitingDirectory(gs_command_text(input, output)),
                action: ActionText::CreateDirectory(subdir_of(input, name).unwrap()),
            },
            _ => StepText {
                state: FileStateText::Running,
                action: ActionText::Run(
                    if dry_run {
                        dry_run_command_text(input, output)
                    } else {
                        gs_command_text(input, output)
                    },
                ),
            },
        },
    }
}

/// The decision that follows `event` in `state`, or `None` where the event
/// does not answer what the state waits for.
pub open spec fn step_after(state: FileStateText, event: Event) -> Option<StepText> {
    match (state, event) {
        (FileStateText::AwaitingDirectory(cmd), Event::DirectoryCreated) => Some(
            StepText { state: FileStateText::Running, action: ActionText::Run(cmd) },
        ),
        (FileStateText::AwaitingDirectory(_), Event::DirectoryFailed) => Some(
            finished(ExecutionOutcome::Skipped(SkipReason::DirectoryCreationFailure)),
        ),
        (FileStateText::Running, Event::ProcessFinished) => Some(
            finished(ExecutionOutcome::Completed),
        ),
        (FileStateText::Running, Event::LaunchFailed) => Some(
            finished(ExecutionOutcome::Failed(FailReason::ProcessLaunchFailure)),
        ),
        _ => None,
    }
}

/// An input whose extension is missing or is not `pdf` is skipped at once,
/// whatever the mode and whether the run is real or dry.
pub proof fn lemma_other_extensions_are_skipped(
    mode: OutputModeText,
    dry_run: bool,
    input: Seq<char>,
)
    requires
        !has_pdf_extension(input),
    ensures
        first_step(mode, dry_run, input) == finished(
            ExecutionOutcome::Skipped(SkipReason::InvalidExtension),
        ),
{
}

/// A directory is asked for only in the subdirectory mode of a real run, and
/// there no command goes out before the directory: a dry run creates nothing.
pub proof fn lemma_directory_comes_first(mode: OutputModeText, dry_run: bool, input: Seq<char>)
    ensures
        first_step(mode, dry_run, input).action is CreateDirectory <==> !dry_run
            && mode is Subdirectory && has_pdf_extension(input),
        first_step(mode, dry_run, input).action is Run ==> dry_run || !(mode is Subdirectory),
        first_step(mode, dry_run, input).action is CreateDirectory ==> first_step(
            mode,
            dry_run,
            input,
        ).state is AwaitingDirectory,
{
}

/// The directory that is asked for is the one the output goes into: the
/// command held back writes to that directory joined with the file name of
/// the input.
pub proof fn lemma_output_lies_in_created_directory(subdir: Seq<char>, input: Seq<char>)
    requires
        has_pdf_extension(input),
    ensures
        ({
            let start = first_step(OutputModeText::Subdirectory(subdir), false, input);
            &&& start.action is CreateDirectory
            &&& start.state is AwaitingDirectory
            &&& start.state->AwaitingDirectory_0 == gs_command_text(
                input,
                path_join(start.action->CreateDirectory_0, path_file_name(input).unwrap()),
            )
        }),
{
}

/// Once the directory exists, the command that was held back goes out; where
/// it could not be created, the file is skipped and no command goes out.
pub proof fn lemma_directory_decides(cmd: CommandText)
    ensures
        step_after(FileStateText::AwaitingDirectory(cmd), Event::DirectoryCreated) == Some(
            StepText { state: FileStateText::Running, action: ActionText::Run(cmd) },
        ),
        step_after(FileStateText::AwaitingDirectory(cmd), Event::DirectoryFailed) == Some(
            finished(ExecutionOutcome::Skipped(SkipReason::DirectoryCreationFailure)),
        ),
{
}

/// An outcome is recorded exactly when the work on the file has ended, and it
/// is the outcome that the state holds.
pub proof fn lemma_record_ends_the_work(
    mode: OutputModeText,
    dry_run: bool,
    input: Seq<char>,
    state: FileStateText,
    event: Event,
)
    ensures
        recorded_at_end(first_step(mode, dry_run, input)),
        step_after(state, event) matches Some(next) ==> recorded_at_end(next),
{
}

/// Nothing is tried twice: whatever the caller reports, the work on a file
/// has ended after two events at the latest.
pub proof fn lemma_two_events_end_the_work(
    mode: OutputModeText,
    dry_run: bool,
    input: Seq<char>,
    first: Event,
    second: Event,
)
    ensures
        ({
            let start = first_step(mode, dry_run, input);
            start.state is Done || (step_after(start.state, first) matches Some(next) ==> next.state
                is Done || (step_after(next.state, second) matches Some(last) ==> last.state
                is Done))
        }),
{
}

/// A file whose work has ended waits for nothing: no event moves it on.
pub proof fn lemma_done_is_final(outcome: ExecutionOutcome, event: Event)
    ensures
        step_after(FileStateText::Done(outcome), event) is None,
{
}

/// Asking for two or more output modes is a conflict, whichever they are.
pub proof fn lemma_two_modes_conflict(inplace: bool, rename: bool, subdir: Option<Seq<char>>)
    requires
        modes_requested(inplace, rename, subdir is Some) >= 2,
    ensures
        selected_mode(inplace, rename, subdir) == Err::<OutputModeText, ConfigError>(
            ConfigError::MutuallyExclusiveModeConflict,
        ),
{
}

/// Picks the output mode of a run from what was asked for: the in-place
/// mode, the rename mode, and the subdirectory mode with its name.
///
/// Asking for more than one is an error, and so is asking for the in-place
/// mode. Asking for none means renaming, with the suffix `shrunk`.
pub fn select_mode(inplace: bool, rename: bool, subdir: Option<String>) -> (mode: Result<
    OutputMode,
    ConfigError,
>)
    ensures
        match mode {
            Ok(m) => selected_mode(inplace, rename, subdir.deep_view()) == Ok::<
                OutputModeText,
                ConfigError,
            >(m@),
            Err(e) => selected_mode(inplace, rename, subdir.deep_view()) == Err::<
                OutputModeText,
                ConfigError,
            >(e),
        },
{
    let given = subdir.is_some();
    if (inplace && rename) || (inplace && given) || (rename && given) {
        Err(ConfigError::MutuallyExclusiveModeConflict)
    } else if inplace {
        Err(ConfigError::UnsupportedMode)
    } else {
        match subdir {
            Some(name) => Ok(OutputMode::Subdirectory(name)),
            None => Ok(OutputMode::Rename(String::from_str("shrunk"))),
        }
    }
}

/// Works out the output path of `input` under `mode`.
///
/// An input without the extension `pdf` is skipped, whatever the mode. A
/// suffix that holds a path separator gives no path, and the in-place mode
/// gives none either.
pub fn resolve_output(mode: &OutputMode, input: &str) -> (output: Result<String, ExecutionOutcome>)
    ensures
        match output {
            Ok(path) => resolved_output(mode@, input@) == Ok::<Seq<char>, ExecutionOutcome>(path@),
            Err(outcome) => resolved_output(mode@, input@) == Err::<Seq<char>, ExecutionOutcome>(
                outcome,
            ),
        },
{
    if !is_pdf(input) {
        return Err(ExecutionOutcome::Skipped(SkipReason::InvalidExtension));
    }
    let resolved = match mode {
        OutputMode::Rename(suffix) => {
            if !is_separator_free(suffix.as_str()) {
                return Err(ExecutionOutcome::Skipped(SkipReason::UnresolvableOutputPath));
            }
            pdf_with_suffix(input, suffix.as_str())
        },
        OutputMode::LegacyRename => pdf_to_cmp_pdf(input),
        OutputMode::Subdirectory(name) => pdf_into_subdir(input, name.as_str()),
        OutputMode::InPlace => {
            return Err(ExecutionOutcome::Failed(FailReason::UnsupportedMode));
        },
    };
    match resolved {
        Some(path) => Ok(path),
        None => Err(ExecutionOutcome::Skipped(SkipReason::InvalidExtension)),
    }
}

/// Ends the work on a file with `outcome`.
fn finish(outcome: ExecutionOutcome) -> (step: Step)
    ensures
        step@ == finished(outcome),
{
    Step { state: FileState::Done(outcome), action: Action::Record(outcome) }
}

/// Takes up `input` and gives the first decision for it.
pub fn start_file(mode: &OutputMode, dry_run: bool, input: &str) -> (step: Step)
    ensures
        step@ == first_step(mode@, dry_run, input@),
{
    let output = match resolve_output(mode, input) {
        Ok(path) => path,
        Err(outcome) => {
            return finish(outcome);
        },
    };
    if dry_run {
        return Step {
            state: FileState::Running,
            action: Action::Run(dry_run_command(input, output.as_str())),
        };
    }
    let cmd = gs_command(input, output.as_str());
    match mode {
        OutputMode::Subdirectory(name) => match pdf_subdir(input, name.as_str()) {
            Some(dir) => Step {
                state: FileState::AwaitingDirectory(cmd),
                action: Action::CreateDirectory(dir),
            },
            None => finish(ExecutionOutcome::Skipped(SkipReason::UnresolvableOutputPath)),
        },
        _ => Step { state: FileState::Running, action: Action::Run(cmd) },
    }
}

/// Takes the news of how the last action went and gives the next decision.
///
/// The answer is `None` where `event` is not news of what `state` waits for;
/// a file whose work has ended waits for nothing.
pub fn advance(state: FileState, event: Event) -> (step: Option<Step>)
    ensures
        match step {
            Some(next) => step_after(state@, event) == Some(next@),
            None => step_after(state@, event) is None,
        },
{
    match state {
        FileState::AwaitingDirectory(cmd) => match event {
            Event::DirectoryCreated => Some(
                Step { state: FileState::Running, action: Action::Run(cmd) },
            ),
            Event::DirectoryFailed => Some(
                finish(ExecutionOutcome::Skipped(SkipReason::DirectoryCreationFailure)),
            ),
            _ => None,
        },
        FileState::Running => match event {
            Event::ProcessFinished => Some(finish(ExecutionOutcome::Completed)),
            Event::LaunchFailed => Some(
                finish(ExecutionOutcome::Failed(FailReason::ProcessLaunchFailure)),
            ),
            _ => None,
        },
        FileState::Done(_) => None,
    }
}

} // verus!
