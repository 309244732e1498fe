//! What the adapters share: building the command line, as text and as a
//! process to launch, and reading the outcome of the launch.

use super::types::{command_line, launch_args, Invocation, PackageOptions};
use crate::text::{extend_from, join, texts};
use crate::utils::error::{Error, ErrorView};
use vstd::prelude::*;

verus! {

/// How the launch of a tool ended.
#[derive(Debug)]
pub enum LaunchOutcome {
    /// Nothing was launched, because the run was a dry run.
    Skipped,
    /// The process could not be started; `reason` says why.
    NotStarted { reason: String },
    /// The process ran to its end. `code` is its exit status, or `None` if a
    /// signal ended it.
    Exited { code: Option<i32> },
}

/// The exit status that is reported for a process that ended: its own, or -1
/// if it had none.
pub open spec fn reported_code(code: Option<i32>) -> i32 {
    match code {
        Some(c) => c,
        None => -1i32,
    }
}

/// The command line as it is shown: the manager's name, its subcommand
/// words, the packages and the options, separated by single spaces.
pub fn format_command_string(
    manager_name: &str,
    command_args: Vec<String>,
    packages: &[String],
    options: &PackageOptions,
) -> (line: String)
    ensures
        line@ == command_line(
            manager_name@,
            texts(command_args@),
            texts(packages@),
            texts(options.args@),
        ),
{
    let mut args: Vec<String> = Vec::new();
    args.push(manager_name.to_owned());
    assert(texts(args@) =~= seq![manager_name@]);
    extend_from(&mut args, command_args.as_slice());
    extend_from(&mut args, packages);
    extend_from(&mut args, options.args.as_slice());
    assert(texts(args@) =~= seq![manager_name@] + launch_args(
        texts(command_args@),
        texts(packages@),
        texts(options.args@),
    ));
    join(args.as_slice(), " ")
}

/// The process that runs a command: the manager's binary with its
/// subcommand words, the packages and the options, in that order.
pub fn invocation(
    manager_name: &str,
    command_args: Vec<String>,
    packages: &[String],
    options: &PackageOptions,
) -> (launch: Invocation)
    ensures
        launch.program@ == manager_name@,
        texts(launch.args@) == launch_args(
            texts(command_args@),
            texts(packages@),
            texts(options.args@),
        ),
{
    let mut args: Vec<String> = command_args;
    extend_from(&mut args, packages);
    extend_from(&mut args, options.args.as_slice());
    Invocation { program: manager_name.to_owned(), args }
}

/// The process to launch for a command, or `None` in a dry run, in which
/// nothing is launched.
pub fn execute_command(
    manager_name: &str,
    command_args: Vec<String>,
    packages: &[String],
    options: &PackageOptions,
    dry_run: bool,
) -> (launch: Option<Invocation>)
    ensures
        launch is None <==> dry_run,
        launch matches Some(invocation) ==> {
            &&& invocation.program@ == manager_name@
            &&& texts(invocation.args@) == launch_args(
                texts(command_args@),
                texts(packages@),
                texts(options.args@),
            )
        },
{
    if dry_run {
        None
    } else {
        Some(invocation(manager_name, command_args, packages, options))
    }
}

/// Folds the outcome of a launch into the result of the command: success for
/// exit status zero and for a dry run, and for nothing else.
pub fn command_result(manager_name: &str, full_command: String, outcome: LaunchOutcome) -> (result:
    Result<(), Error>)
    ensures
        match outcome {
            LaunchOutcome::Skipped => result is Ok,
            LaunchOutcome::NotStarted { reason } => result matches Err(e) && e@
                == (ErrorView::ManagerNotInstalled { manager: manager_name@, source: reason@ }),
            LaunchOutcome::Exited { code } => if code == Some(0i32) {
                result is Ok
            } else {
                result matches Err(e) && e@ == (ErrorView::CommandFailed {
                    command: full_command@,
                    code: reported_code(code),
                })
            },
        },
{
    match outcome {
        LaunchOutcome::Skipped => Ok(()),
        LaunchOutcome::NotStarted { reason } => Err(
            Error::ManagerNotInstalled { manager: manager_name.to_owned(), source: reason },
        ),
        LaunchOutcome::Exited { code } => {
            match code {
                Some(c) => {
                    if c == 0 {
                        Ok(())
                    } else {
                        Err(Error::CommandFailed { command: full_command, code: c })
                    }
                },
                None => Err(Error::CommandFailed { command: full_command, code: -1 }),
            }
        },
    }
}

} // verus!
