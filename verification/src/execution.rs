//! The execution engine: what to start for a selection, and what came of it.
//!
//! Starting a child process is not done here. The engine describes the
//! process as an [`Invocation`], the caller starts it and waits, and the
//! engine turns what the caller saw into an [`ExecutionResult`].

use vstd::prelude::*;
use crate::descriptor::clone_strings;
use crate::availability::{SelectionResult, SelectionView};

verus! {

/// How a child process is to be started.
#[derive(Debug, Clone, Copy, PartialEq, Eq, Structural)]
pub enum Launcher {
    /// Start the program itself.
    Direct,
    /// Start the program through the platform's privilege-elevation launcher.
    Elevated,
}

/// Mathematical model of an [`Invocation`].
pub struct InvocationView {
    pub launcher: Launcher,
    pub program: Seq<char>,
    pub args: Seq<Seq<char>>,
}

/// One child process to start: a program, its arguments, and the launcher.
#[derive(Debug)]
pub struct Invocation {
    pub launcher: Launcher,
    /// The program to start: a resolved path, or a name for the search path.
    pub program: String,
    /// The arguments, in order.
    pub args: Vec<String>,
}

impl View for Invocation {
    type V = InvocationView;

    open spec fn view(&self) -> InvocationView {
        InvocationView {
            launcher: self.launcher,
            program: self.program@,
            args: self.args.deep_view(),
        }
    }
}

/// The launcher that an elevation requirement asks for.
pub open spec fn launcher_for(requires_elevation: bool) -> Launcher {
    if requires_elevation {
        Launcher::Elevated
    } else {
        Launcher::Direct
    }
}

/// The invocation that runs a selection: its resolved path with the
/// descriptor's update arguments, elevated exactly when the descriptor
/// requires elevation.
pub open spec fn invocation_of(selection: SelectionView) -> InvocationView {
    InvocationView {
        launcher: launcher_for(selection.descriptor.requires_elevation),
        program: selection.path,
        args: selection.descriptor.update_args,
    }
}

/// The items of `items` with `separator` between neighbours.
pub open spec fn joined(items: Seq<Seq<char>>, separator: Seq<char>) -> Seq<char>
    decreases items.len(),
{
    if items.len() == 0 {
        Seq::empty()
    } else if items.len() == 1 {
        items[0]
    } else {
        joined(items.drop_last(), separator) + separator + items.last()
    }
}

/// The command line of an invocation as it is shown to a reader: the program,
/// a space, and the arguments separated by spaces.
pub open spec fn command_line_of(invocation: InvocationView) -> Seq<char> {
    invocation.program + " "@ + joined(invocation.args, " "@)
}

impl Invocation {
    /// The command line as it is shown to a reader.
    pub fn command_line(&self) -> (line: String)
        ensures
            line@ == command_line_of(self@),
    {
        let ghost args = self.args.deep_view();
        let mut rest = String::new();
        let mut i: usize = 0;
        while i < self.args.len()
            invariant
                i <= self.args.len(),
                args == self.args.deep_view(),
                rest@ == joined(args.take(i as int), " "@),
            decreases self.args.len() - i,
        {
            assert(args.take(i + 1).drop_last() == args.take(i as int));
            assert(args.take(i + 1).last() == self.args[i as int]@);
            if i > 0 {
                rest.append(" ");
            }
            rest.append(self.args[i].as_str());
            i += 1;
        }
        assert(args.take(i as int) == args);
        let line = self.program.clone();
        let line = line.concat(" ");
        line.concat(rest.as_str())
    }
}

impl Clone for Invocation {
    fn clone(&self) -> (copy: Invocation)
        ensures
            copy@ == self@,
    {
        Invocation {
            launcher: self.launcher,
            program: self.program.clone(),
            args: clone_strings(&self.args),
        }
    }
}

/// Describes the process that runs `program_name` with `program_args`,
/// elevated exactly when `sudo` is set.
pub fn execute_update(sudo: bool, program_name: &str, program_args: &Vec<String>) -> (invocation:
    Invocation)
    ensures
        invocation@ == (InvocationView {
            launcher: launcher_for(sudo),
            program: program_name@,
            args: program_args.deep_view(),
        }),
{
    Invocation {
        launcher: if sudo {
            Launcher::Elevated
        } else {
            Launcher::Direct
        },
        program: String::from_str(program_name),
        args: clone_strings(program_args),
    }
}

/// Describes the process that runs a selection.
pub fn execute(selection: &SelectionResult) -> (invocation: Invocation)
    ensures
        invocation@ == invocation_of(selection@),
{
    execute_update(
        selection.descriptor.requires_elevation,
        selection.path.as_str(),
        &selection.descriptor.update_args,
    )
}

/// How a child process ended.
#[derive(Debug, Clone, Copy, PartialEq, Eq, Structural)]
pub enum ExitStatus {
    /// The process exited with code zero.
    Success,
    /// The process exited with this non-zero code.
    Failure(i32),
    /// The process was ended by a signal and left no exit code.
    Signaled,
}

/// The status that an exit code stands for; no code means a signal.
pub open spec fn status_of(code: Option<i32>) -> ExitStatus {
    match code {
        Some(value) => if value == 0 {
            ExitStatus::Success
        } else {
            ExitStatus::Failure(value)
        },
        None => ExitStatus::Signaled,
    }
}

/// The exit code that a status stands for; a signal has none.
pub open spec fn code_of(status: ExitStatus) -> Option<i32> {
    match status {
        ExitStatus::Success => Some(0i32),
        ExitStatus::Failure(value) => Some(value),
        ExitStatus::Signaled => None,
    }
}

impl ExitStatus {
    /// The status for the exit code that the platform reported.
    pub fn from_code(code: Option<i32>) -> (status: ExitStatus)
        ensures
            status == status_of(code),
    {
        match code {
            Some(value) => if value == 0 {
                ExitStatus::Success
            } else {
                ExitStatus::Failure(value)
            },
            None => ExitStatus::Signaled,
        }
    }

    /// The exit code, if the process left one.
    pub fn code(&self) -> (code: Option<i32>)
        ensures
            code == code_of(*self),
    {
        match self {
            ExitStatus::Success => Some(0),
            ExitStatus::Failure(value) => Some(*value),
            ExitStatus::Signaled => None,
        }
    }

    /// Whether the process reported success.
    pub fn success(&self) -> (ok: bool)
        ensures
            ok == (*self == ExitStatus::Success),
    {
        match self {
            ExitStatus::Success => true,
            _ => false,
        }
    }
}

/// Mathematical model of an [`ExecutionResult`].
pub struct ExecutionView {
    pub status: ExitStatus,
    pub stdout: Option<Seq<u8>>,
}

/// The outcome of one process that was started and has ended.
#[derive(Debug)]
pub struct ExecutionResult {
    pub status: ExitStatus,
    /// What the process wrote to standard output, where it was captured.
    pub stdout: Option<Vec<u8>>,
}

impl View for ExecutionResult {
    type V = ExecutionView;

    open spec fn view(&self) -> ExecutionView {
        ExecutionView {
            status: self.status,
            stdout: match self.stdout {
                Some(bytes) => Some(bytes@),
                None => None,
            },
        }
    }
}

impl ExecutionResult {
    /// The result for a process that ended with `code` (none after a signal)
    /// and, where its output was captured, wrote `stdout`.
    pub fn from_exit(code: Option<i32>, stdout: Option<Vec<u8>>) -> (result: ExecutionResult)
        ensures
            result@ == (ExecutionView {
                status: status_of(code),
                stdout: match stdout {
                    Some(bytes) => Some(bytes@),
                    None => None,
                },
            }),
    {
        ExecutionResult { status: ExitStatus::from_code(code), stdout }
    }

    /// Whether the process reported success.
    pub fn succeeded(&self) -> (ok: bool)
        ensures
            ok == (self@.status == ExitStatus::Success),
    {
        self.status.success()
    }
}

/// Why a process could not be started at all.
#[derive(Debug, Clone, Copy, PartialEq, Eq, Structural)]
pub enum SpawnFailure {
    /// The resolved path no longer names a program.
    NotFound,
    /// The caller may not start the program.
    PermissionDenied,
    /// The privilege-elevation launcher is not available.
    ElevationUnavailable,
    /// The platform refused for another reason.
    Other,
}

/// Why the platform did not start a process, as the caller saw it.
#[derive(Debug, Clone, Copy, PartialEq, Eq, Structural)]
pub enum StartError {
    /// The platform found nothing to start.
    NotFound,
    /// The platform refused for want of permission.
    PermissionDenied,
    /// The platform refused for another reason.
    Other,
}

/// The failure that a refusal of the platform amounts to. With the elevated
/// launcher it is the launcher that the platform looks for, so finding
/// nothing means that elevation is not available.
pub open spec fn failure_of(launcher: Launcher, error: StartError) -> SpawnFailure {
    match error {
        StartError::NotFound => match launcher {
            Launcher::Elevated => SpawnFailure::ElevationUnavailable,
            Launcher::Direct => SpawnFailure::NotFound,
        },
        StartError::PermissionDenied => SpawnFailure::PermissionDenied,
        StartError::Other => SpawnFailure::Other,
    }
}

/// The model of what became of an invocation that was started with
/// `launcher`, when the caller saw `exit`: the exit code of the process that
/// ended (none after a signal), or the refusal of the platform.
pub open spec fn observed(
    launcher: Launcher,
    exit: Result<Option<i32>, StartError>,
    stdout: Option<Seq<u8>>,
) -> Result<ExecutionView, SpawnFailure> {
    match exit {
        Ok(code) => Ok(ExecutionView { status: status_of(code), stdout }),
        Err(error) => Err(failure_of(launcher, error)),
    }
}

/// Turns what the caller saw of an invocation into its outcome. A process
/// that ended is a result whatever its exit code; only a process that never
/// started is a failure.
pub fn observe(
    launcher: Launcher,
    exit: Result<Option<i32>, StartError>,
    stdout: Option<Vec<u8>>,
) -> (outcome: Result<ExecutionResult, SpawnFailure>)
    ensures
        match outcome {
            Ok(result) => Ok::<ExecutionView, SpawnFailure>(result@),
            Err(failure) => Err::<ExecutionView, SpawnFailure>(failure),
        } == observed(
            launcher,
            exit,
            match stdout {
                Some(bytes) => Some(bytes@),
                None => None,
            },
        ),
{
    match exit {
        Ok(code) => Ok(ExecutionResult::from_exit(code, stdout)),
        Err(error) => Err(
            match error {
                StartError::NotFound => match launcher {
                    Launcher::Elevated => SpawnFailure::ElevationUnavailable,
                    Launcher::Direct => SpawnFailure::NotFound,
                },
                StartError::PermissionDenied => SpawnFailure::PermissionDenied,
                StartError::Other => SpawnFailure::Other,
            },
        ),
    }
}

/// An exit code round-trips through its status.
pub proof fn lemma_status_keeps_code(code: Option<i32>)
    ensures
        code_of(status_of(code)) == code,
        (status_of(code) == ExitStatus::Success) == (code == Some(0i32)),
{
}

} // verus!
