//! The built-in adapters as one type, and the dispatch of one command.

use super::analyze::{
    dependency_nodes, header_lines, header_of, node_views, parse_dependencies, DependencyNode,
};
use super::bun::Bun;
use super::cargo::Cargo;
use super::helpers::{command_result, reported_code, LaunchOutcome};
use super::npm::Npm;
use super::pdm::Pdm;
use super::pip::Pip;
use super::pnpm::Pnpm;
use super::poetry::Poetry;
use super::types::{
    command_line, launch_args, Invocation, ManagerType, PackageManager, PackageOptions,
};
use super::yarn::Yarn;
use crate::text::{joined, texts};
use crate::utils::error::{Error, ErrorView};
use vstd::prelude::*;

verus! {

/// Any one of the built-in adapters.
#[derive(Debug, Clone, Copy, PartialEq, Eq)]
pub enum Manager {
    Cargo(Cargo),
    Npm(Npm),
    Pnpm(Pnpm),
    Bun(Bun),
    Yarn(Yarn),
    Pip(Pip),
    Pdm(Pdm),
    Poetry(Poetry),
}

impl Manager {
    /// The kind of tool this adapter drives.
    pub open spec fn kind(&self) -> ManagerType {
        match *self {
            Manager::Cargo(_) => ManagerType::Cargo,
            Manager::Npm(_) => ManagerType::Npm,
            Manager::Pnpm(_) => ManagerType::Pnpm,
            Manager::Bun(_) => ManagerType::Bun,
            Manager::Yarn(_) => ManagerType::Yarn,
            Manager::Pip(_) => ManagerType::Pip,
            Manager::Pdm(_) => ManagerType::Pdm,
            Manager::Poetry(_) => ManagerType::Poetry,
        }
    }

    /// The built-in adapter of a kind.
    pub fn of(manager_type: ManagerType) -> (manager: Manager)
        ensures
            manager.kind() == manager_type,
    {
        match manager_type {
            ManagerType::Cargo => Manager::Cargo(Cargo),
            ManagerType::Npm => Manager::Npm(Npm),
            ManagerType::Pnpm => Manager::Pnpm(Pnpm),
            ManagerType::Bun => Manager::Bun(Bun),
            ManagerType::Yarn => Manager::Yarn(Yarn),
            ManagerType::Pip => Manager::Pip(Pip),
            ManagerType::Pdm => Manager::Pdm(Pdm),
            ManagerType::Poetry => Manager::Poetry(Poetry),
        }
    }

    /// The kind of tool this adapter drives.
    pub fn manager_type(&self) -> (manager_type: ManagerType)
        ensures
            manager_type == self.kind(),
    {
        match self {
            Manager::Cargo(_) => ManagerType::Cargo,
            Manager::Npm(_) => ManagerType::Npm,
            Manager::Pnpm(_) => ManagerType::Pnpm,
            Manager::Bun(_) => ManagerType::Bun,
            Manager::Yarn(_) => ManagerType::Yarn,
            Manager::Pip(_) => ManagerType::Pip,
            Manager::Pdm(_) => ManagerType::Pdm,
            Manager::Poetry(_) => ManagerType::Poetry,
        }
    }
}

impl Manager {
    /// The process whose output lists the dependencies: the analyze verb
    /// with no packages and no options.
    pub fn listing_command(&self) -> (launch: Invocation)
        ensures
            launch.program@ == self.tool_name(),
            texts(launch.args@) == self.subcommand("analyze"@),
    {
        let none: Vec<String> = Vec::new();
        let options = PackageOptions::new(Vec::new());
        assert(texts(none@) =~= Seq::<Seq<char>>::empty());
        assert(texts(options.args@) =~= Seq::<Seq<char>>::empty());
        let launch = self.execute_command("analyze", none.as_slice(), &options);
        assert(texts(launch.args@) =~= self.subcommand("analyze"@));
        launch
    }

    /// Reads what the listing command printed. A listing in which no entry
    /// can be read is an error, not an empty result.
    pub fn analyze(&self, output: &str) -> (parsed: Result<Vec<DependencyNode>, Error>)
        ensures
            match parsed {
                Ok(nodes) => nodes@.len() > 0 && node_views(nodes@) == dependency_nodes(
                    output@,
                    header_of(self.kind()),
                ),
                Err(e) => dependency_nodes(output@, header_of(self.kind())).len() == 0 && e@
                    == (ErrorView::NoDependenciesParsed { manager: self.tool_name() }),
            },
    {
        parse_dependencies(self.name(), output, header_lines(self.manager_type()))
    }
}

impl PackageManager for Manager {
    open spec fn tool_name(&self) -> Seq<char> {
        match *self {
            Manager::Cargo(m) => m.tool_name(),
            Manager::Npm(m) => m.tool_name(),
            Manager::Pnpm(m) => m.tool_name(),
            Manager::Bun(m) => m.tool_name(),
            Manager::Yarn(m) => m.tool_name(),
            Manager::Pip(m) => m.tool_name(),
            Manager::Pdm(m) => m.tool_name(),
            Manager::Poetry(m) => m.tool_name(),
        }
    }

    open spec fn subcommand(&self, command: Seq<char>) -> Seq<Seq<char>> {
        match *self {
            Manager::Cargo(m) => m.subcommand(command),
            Manager::Npm(m) => m.subcommand(command),
            Manager::Pnpm(m) => m.subcommand(command),
            Manager::Bun(m) => m.subcommand(command),
            Manager::Yarn(m) => m.subcommand(command),
            Manager::Pip(m) => m.subcommand(command),
            Manager::Pdm(m) => m.subcommand(command),
            Manager::Poetry(m) => m.subcommand(command),
        }
    }

    fn name(&self) -> (name: &'static str) {
        match self {
            Manager::Cargo(m) => m.name(),
            Manager::Npm(m) => m.name(),
            Manager::Pnpm(m) => m.name(),
            Manager::Bun(m) => m.name(),
            Manager::Yarn(m) => m.name(),
            Manager::Pip(m) => m.name(),
            Manager::Pdm(m) => m.name(),
            Manager::Poetry(m) => m.name(),
        }
    }

    fn format_command(&self, command: &str, packages: &[String], options: &PackageOptions) -> (line:
        String) {
        match self {
            Manager::Cargo(m) => m.format_command(command, packages, options),
            Manager::Npm(m) => m.format_command(command, packages, options),
            Manager::Pnpm(m) => m.format_command(command, packages, options),
            Manager::Bun(m) => m.format_command(command, packages, options),
            Manager::Yarn(m) => m.format_command(command, packages, options),
            Manager::Pip(m) => m.format_command(command, packages, options),
            Manager::Pdm(m) => m.format_command(command, packages, options),
            Manager::Poetry(m) => m.format_command(command, packages, options),
        }
    }

    fn execute_command(
        &self,
        command: &str,
        packages: &[String],
        options: &PackageOptions,
    ) -> (launch: Invocation) {
        match self {
            Manager::Cargo(m) => m.execute_command(command, packages, options),
            Manager::Npm(m) => m.execute_command(command, packages, options),
            Manager::Pnpm(m) => m.execute_command(command, packages, options),
            Manager::Bun(m) => m.execute_command(command, packages, options),
            Manager::Yarn(m) => m.execute_command(command, packages, options),
            Manager::Pip(m) => m.execute_command(command, packages, options),
            Manager::Pdm(m) => m.execute_command(command, packages, options),
            Manager::Poetry(m) => m.execute_command(command, packages, options),
        }
    }
}

/// What is shown and done for one command: the manager in use, the generic
/// verb, the command line as text, and the process to launch. In a dry run
/// there is none.
#[derive(Debug)]
pub struct Prompt {
    pub manager_name: &'static str,
    pub command: String,
    pub full_command: String,
    pub launch: Option<Invocation>,
}

/// How a command that succeeded is reported.
#[derive(Debug)]
pub struct Completion {
    /// The command took unusually long.
    pub long_running: bool,
}

/// An error of a command, with the verb and the manager it arose under.
#[derive(Debug)]
pub struct Failure {
    pub command: String,
    pub manager: String,
    pub error: Error,
}

/// A command counts as long-running when it took more than this many whole
/// seconds.
pub const LONG_RUNNING_SECS: u64 = 3;

/// `prompt` is what a manager shows and launches for a command: its name,
/// the command line as text and, outside a dry run, the process whose
/// arguments are that command line word for word.
pub open spec fn is_prompt_of<M: PackageManager>(
    prompt: Prompt,
    manager: M,
    command: Seq<char>,
    packages: Seq<Seq<char>>,
    options: Seq<Seq<char>>,
    dry_run: bool,
) -> bool {
    &&& prompt.manager_name@ == manager.tool_name()
    &&& prompt.command@ == command
    &&& prompt.full_command@ == command_line(
        manager.tool_name(),
        manager.subcommand(command),
        packages,
        options,
    )
    &&& prompt.launch is None <==> dry_run
    &&& prompt.launch matches Some(invocation) ==> {
        &&& invocation.program@ == manager.tool_name()
        &&& texts(invocation.args@) == launch_args(manager.subcommand(command), packages, options)
    }
}

/// What is shown is what is launched: outside a dry run, the command line of
/// a prompt is the program and the arguments of its process, separated by
/// single spaces.
pub proof fn lemma_shown_is_launched<M: PackageManager>(
    prompt: Prompt,
    manager: M,
    command: Seq<char>,
    packages: Seq<Seq<char>>,
    options: Seq<Seq<char>>,
)
    requires
        is_prompt_of(prompt, manager, command, packages, options, false),
    ensures
        prompt.launch matches Some(invocation) && prompt.full_command@ == joined(
            seq![invocation.program@] + texts(invocation.args@),
            " "@,
        ),
{
}

/// The command line is a function of the manager, the verb, the packages and
/// the options: two prompts for the same request show the same text.
pub proof fn lemma_command_line_repeats<M: PackageManager>(
    first: Prompt,
    second: Prompt,
    manager: M,
    command: Seq<char>,
    packages: Seq<Seq<char>>,
    options: Seq<Seq<char>>,
    first_dry: bool,
    second_dry: bool,
)
    requires
        is_prompt_of(first, manager, command, packages, options, first_dry),
        is_prompt_of(second, manager, command, packages, options, second_dry),
    ensures
        first.full_command@ == second.full_command@,
{
}

/// Prepares one command: which manager is used, the command line to show,
/// and the process to launch. A dry run launches nothing; otherwise the
/// process is exactly the command line that is shown.
pub fn execute_with_prompt<M: PackageManager>(
    manager: &M,
    command: &str,
    packages: &[String],
    options: &PackageOptions,
    dry_run: bool,
) -> (prompt: Prompt)
    ensures
        is_prompt_of(
            prompt,
            *manager,
            command@,
            texts(packages@),
            texts(options.args@),
            dry_run,
        ),
{
    let manager_name = manager.name();
    let full_command = manager.format_command(command, packages, options);
    let launch = if dry_run {
        None
    } else {
        Some(manager.execute_command(command, packages, options))
    };
    Prompt { manager_name, command: command.to_owned(), full_command, launch }
}

/// Closes one command after its launch. Success is reported with a note on
/// whether the command took long. Any failure is handed on at once, under
/// the verb and the manager it arose under, with the error unchanged:
/// nothing is tried a second time.
pub fn finish_with_prompt(
    manager_name: &str,
    command: &str,
    full_command: String,
    outcome: LaunchOutcome,
    elapsed_secs: u64,
) -> (finished: Result<Completion, Failure>)
    ensures
        match outcome {
            LaunchOutcome::Skipped => finished matches Ok(done) && done.long_running == (
            elapsed_secs > LONG_RUNNING_SECS),
            LaunchOutcome::NotStarted { reason } => finished matches Err(failure) && {
                &&& failure.command@ == command@
                &&& failure.manager@ == manager_name@
                &&& failure.error@ == (ErrorView::ManagerNotInstalled {
                    manager: manager_name@,
                    source: reason@,
                })
            },
            LaunchOutcome::Exited { code } => if code == Some(0i32) {
                finished matches Ok(done) && done.long_running == (elapsed_secs
                    > LONG_RUNNING_SECS)
            } else {
                finished matches Err(failure) && {
                    &&& failure.command@ == command@
                    &&& failure.manager@ == manager_name@
                    &&& failure.error@ == (ErrorView::CommandFailed {
                        command: full_command@,
                        code: reported_code(code),
                    })
                }
            },
        },
{
    match command_result(manager_name, full_command, outcome) {
        Ok(_) => Ok(Completion { long_running: elapsed_secs > LONG_RUNNING_SECS }),
        Err(error) => Err(
            Failure { command: command.to_owned(), manager: manager_name.to_owned(), error },
        ),
    }
}

} // verus!
