//! The commands of the command line, as values.

pub mod add;
pub mod analyze;
pub mod common;
pub mod fs;
pub mod install;
pub mod remove;
pub mod upgrade;

use crate::pkgm::detect::cache::DetectionCache;
use crate::pkgm::manager::Prompt;
use crate::pkgm::registry::ManagerRegistry;
use crate::pkgm::types::PackageManager;
use crate::text::texts;
use crate::utils::error::{Error, ErrorView};
use common::{is_command_outcome, is_request_outcome, Workspace};
use fs::{FsAction, PathFacts};
use vstd::prelude::*;

verus! {

/// One command of the command line.
#[derive(Debug)]
pub enum CliCommand {
    /// Install all packages.
    Install(install::InstallArgs),
    /// Add packages.
    Add(add::AddArgs),
    /// Remove packages.
    Remove(remove::RemoveArgs),
    /// Upgrade packages.
    Upgrade(upgrade::UpgradeArgs),
    /// Analyze dependencies.
    Analyze(analyze::AnalyzeArgs),
    /// Work on files and directories.
    Fs(fs::FsCommand),
}

/// What a command asks its caller to do.
#[derive(Debug)]
pub enum Step {
    /// Show the prompt and launch its process.
    Run(Prompt),
    /// Carry out the operations on the file system, in order.
    Files(Vec<FsAction>),
}

/// The outcome of a package command, as far as the outcome is one.
pub open spec fn as_run(outcome: Result<Step, Error>) -> Option<Result<Prompt, Error>> {
    match outcome {
        Ok(Step::Run(prompt)) => Some(Ok(prompt)),
        Ok(Step::Files(_)) => None,
        Err(e) => Some(Err(e)),
    }
}

/// The outcome of a file command, as far as the outcome is one.
pub open spec fn as_files(outcome: Result<Step, Error>) -> Option<Result<Seq<FsAction>, ErrorView>> {
    match outcome {
        Ok(Step::Run(_)) => None,
        Ok(Step::Files(actions)) => Some(Ok(actions@)),
        Err(e) => Some(Err(e@)),
    }
}

impl CliCommand {
    /// Hands the command to the part that carries it. A package command
    /// looks at the registry, the cache and the workspace; a file command
    /// looks at the facts of its path and at nothing else.
    pub fn execute<M: PackageManager + Copy>(
        &self,
        registry: &ManagerRegistry<M>,
        cache: &mut DetectionCache,
        workspace: &Workspace,
        facts: &PathFacts,
        dry_run: bool,
    ) -> (outcome: Result<Step, Error>)
        ensures
            match *self {
                CliCommand::Install(cmd) => as_run(outcome) matches Some(run) && {
                    &&& is_request_outcome(
                        run,
                        registry@,
                        workspace.kind(old(cache)@),
                        "install"@,
                        Seq::<Seq<char>>::empty(),
                        texts(cmd.raw_args@),
                        dry_run,
                    )
                    &&& final(cache)@ == workspace.cache_next(old(cache)@)
                },
                CliCommand::Add(cmd) => as_run(outcome) matches Some(run) && is_command_outcome(
                    "add"@,
                    texts(cmd.raw_args@),
                    true,
                    run,
                    registry@,
                    old(cache)@,
                    final(cache)@,
                    *workspace,
                    dry_run,
                ),
                CliCommand::Remove(cmd) => as_run(outcome) matches Some(run)
                    && is_command_outcome(
                    "remove"@,
                    texts(cmd.raw_args@),
                    true,
                    run,
                    registry@,
                    old(cache)@,
                    final(cache)@,
                    *workspace,
                    dry_run,
                ),
                CliCommand::Upgrade(cmd) => as_run(outcome) matches Some(run)
                    && is_command_outcome(
                    "upgrade"@,
                    texts(cmd.raw_args@),
                    false,
                    run,
                    registry@,
                    old(cache)@,
                    final(cache)@,
                    *workspace,
                    dry_run,
                ),
                CliCommand::Analyze(cmd) => as_run(outcome) matches Some(run)
                    && is_command_outcome(
                    "analyze"@,
                    texts(cmd.raw_args@),
                    false,
                    run,
                    registry@,
                    old(cache)@,
                    final(cache)@,
                    *workspace,
                    dry_run,
                ),
                CliCommand::Fs(cmd) => {
                    &&& as_files(outcome) == Some(cmd.planned(*facts))
                    &&& final(cache)@ == old(cache)@
                },
            },
    {
        let run = match self {
            CliCommand::Add(cmd) => cmd.execute(registry, cache, workspace, dry_run),
            CliCommand::Install(cmd) => cmd.execute(registry, cache, workspace, dry_run),
            CliCommand::Remove(cmd) => cmd.execute(registry, cache, workspace, dry_run),
            CliCommand::Upgrade(cmd) => cmd.execute(registry, cache, workspace, dry_run),
            CliCommand::Analyze(cmd) => cmd.execute(registry, cache, workspace, dry_run),
            CliCommand::Fs(cmd) => {
                return match cmd.execute(facts) {
                    Ok(actions) => Ok(Step::Files(actions)),
                    Err(e) => Err(e),
                };
            },
        };
        match run {
            Ok(prompt) => Ok(Step::Run(prompt)),
            Err(e) => Err(e),
        }
    }
}

} // verus!
