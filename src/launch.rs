//! The command line that opens a file in an IDE, and what a finished run of
//! it means.
use vstd::prelude::*;
use vstd::string::StringExecFns;

use crate::text::{decimal, push_decimal};

verus! {

/// A native IDE that can open a file at a line.
#[derive(Clone, Copy, Debug, PartialEq, Eq, Structural)]
pub enum Ide {
    /// Xcode, through its `xed` launcher.
    Xcode,
    /// Android Studio, through its `studio` launcher.
    AndroidStudio,
}

/// The launcher binary of an IDE.
pub open spec fn ide_program(ide: Ide) -> Seq<char> {
    match ide {
        Ide::Xcode => "xed"@,
        Ide::AndroidStudio => "studio"@,
    }
}

/// The option that an IDE's launcher takes before a line number.
pub open spec fn ide_line_flag(ide: Ide) -> Seq<char> {
    match ide {
        Ide::Xcode => "-l"@,
        Ide::AndroidStudio => "--line"@,
    }
}

impl Ide {
    /// The launcher binary, looked up on `PATH`.
    pub fn program(&self) -> (r: &'static str)
        ensures
            r@ == ide_program(*self),
    {
        match self {
            Ide::Xcode => "xed",
            Ide::AndroidStudio => "studio",
        }
    }

    /// The option that precedes the line number.
    pub fn line_flag(&self) -> (r: &'static str)
        ensures
            r@ == ide_line_flag(*self),
    {
        match self {
            Ide::Xcode => "-l",
            Ide::AndroidStudio => "--line",
        }
    }
}

/// An external process to run: a program and its arguments.
#[derive(Clone, Debug, PartialEq, Eq)]
pub struct LaunchCommand {
    pub ide: Ide,
    pub program: String,
    pub args: Vec<String>,
}

/// The texts of a list of strings.
pub open spec fn strings_of(v: Seq<String>) -> Seq<Seq<char>> {
    v.map_values(|s: String| s@)
}

/// The arguments that open `path` at `line`: the line option, the line in
/// decimal, then the path.
pub open spec fn launch_args(ide: Ide, path: Seq<char>, line: u32) -> Seq<Seq<char>> {
    seq![ide_line_flag(ide), decimal(line as nat), path]
}

/// Whether `c` runs the launcher of `ide` on `path` at `line`.
pub open spec fn is_launch_of(c: LaunchCommand, ide: Ide, path: Seq<char>, line: u32) -> bool {
    &&& c.ide == ide
    &&& c.program@ == ide_program(ide)
    &&& strings_of(c.args@) == launch_args(ide, path, line)
}

/// The command that opens `file_path` at `line` in `ide`
/// (`xed -l <line> <path>`, `studio --line <line> <path>`).
pub fn launch_command(ide: Ide, file_path: &str, line: u32) -> (r: LaunchCommand)
    ensures
        is_launch_of(r, ide, file_path@, line),
{
    let mut line_text = String::new();
    push_decimal(&mut line_text, line);
    let mut args: Vec<String> = Vec::new();
    args.push(String::from_str(ide.line_flag()));
    args.push(line_text);
    args.push(String::from_str(file_path));
    let r = LaunchCommand { ide, program: String::from_str(ide.program()), args };
    assert(strings_of(r.args@) =~= launch_args(ide, file_path@, line));
    r
}

/// How a run of a launch command ended, as the process runner saw it.
#[derive(Clone, Debug, PartialEq, Eq)]
pub enum RunReport {
    /// The process could not be started; the operating system's error text.
    NotStarted { os_error: String },
    /// The process ran to its end: its exit code (none where a signal ended
    /// it) and what it wrote to standard error.
    Finished { exit_code: Option<i32>, stderr: String },
}

/// Why opening a file in an IDE failed.
#[derive(Clone, Debug, PartialEq, Eq)]
pub enum LaunchError {
    /// The launcher could not be started.
    SpawnFailed { program: String, os_error: String },
    /// The launcher ran and ended other than with exit code 0.
    ProcessFailed { program: String, stderr: String },
}

/// What a run of the launcher of `ide` that ended as `report` amounts to.
pub open spec fn launch_outcome_spec(ide: Ide, report: RunReport, r: Result<(), LaunchError>) -> bool {
    match report {
        RunReport::NotStarted { os_error } => match r {
            Err(LaunchError::SpawnFailed { program, os_error: e }) => program@ == ide_program(ide)
                && e@ == os_error@,
            _ => false,
        },
        RunReport::Finished { exit_code, stderr } => if exit_code == Some(0i32) {
            r is Ok
        } else {
            match r {
                Err(LaunchError::ProcessFailed { program, stderr: e }) => program@ == ide_program(
                    ide,
                ) && e@ == stderr@,
                _ => false,
            }
        },
    }
}

/// The result of a run of the launcher of `ide`: success exactly when the
/// process exited with code 0.
pub fn launch_outcome(ide: Ide, report: RunReport) -> (r: Result<(), LaunchError>)
    ensures
        launch_outcome_spec(ide, report, r),
{
    match report {
        RunReport::NotStarted { os_error } => Err(
            LaunchError::SpawnFailed { program: String::from_str(ide.program()), os_error },
        ),
        RunReport::Finished { exit_code, stderr } => {
            match exit_code {
                Some(0i32) => Ok(()),
                _ => Err(
                    LaunchError::ProcessFailed { program: String::from_str(ide.program()), stderr },
                ),
            }
        },
    }
}

/// The text shown for a launch error.
pub open spec fn launch_error_text(e: LaunchError) -> Seq<char> {
    match e {
        LaunchError::SpawnFailed { program, os_error } => "Failed to execute "@ + program@ + ": "@
            + os_error@,
        LaunchError::ProcessFailed { program, stderr } => program@ + " failed: "@ + stderr@,
    }
}

impl LaunchError {
    /// The text shown to the user, which carries the operating system's error
    /// or the launcher's standard error.
    pub fn message(&self) -> (r: String)
        ensures
            r@ == launch_error_text(*self),
    {
        match self {
            LaunchError::SpawnFailed { program, os_error } => {
                let mut m = String::from_str("Failed to execute ");
                m.append(program.as_str());
                m.append(": ");
                m.append(os_error.as_str());
                m
            },
            LaunchError::ProcessFailed { program, stderr } => {
                let mut m = program.clone();
                m.append(" failed: ");
                m.append(stderr.as_str());
                m
            },
        }
    }
}

} // verus!
