//! The remove command.

use super::common::{is_command_outcome, PackageCommand, Workspace};
use crate::pkgm::detect::cache::DetectionCache;
use crate::pkgm::manager::Prompt;
use crate::pkgm::registry::ManagerRegistry;
use crate::pkgm::types::PackageManager;
use crate::text::texts;
use crate::utils::error::Error;
use vstd::prelude::*;

verus! {

/// Removes packages.
#[derive(Debug)]
pub struct RemoveArgs {
    pub raw_args: Vec<String>,
}

impl PackageCommand for RemoveArgs {
    open spec fn verb(&self) -> Seq<char> {
        "remove"@
    }

    open spec fn arguments(&self) -> Seq<Seq<char>> {
        texts(self.raw_args@)
    }

    open spec fn checks_packages(&self) -> bool {
        true
    }

    fn command_name(&self) -> (name: &'static str) {
        "remove"
    }

    fn raw_args(&self) -> (args: &[String]) {
        self.raw_args.as_slice()
    }

    fn requires_packages(&self) -> (yes: bool) {
        true
    }
}

impl RemoveArgs {
    /// Prepares the command for the manager that governs the project.
    pub fn execute<M: PackageManager + Copy>(
        &self,
        registry: &ManagerRegistry<M>,
        cache: &mut DetectionCache,
        workspace: &Workspace,
        dry_run: bool,
    ) -> (outcome: Result<Prompt, Error>)
        ensures
            is_command_outcome(
                "remove"@,
                texts(self.raw_args@),
                true,
                outcome,
                registry@,
                old(cache)@,
                final(cache)@,
                *workspace,
                dry_run,
            ),
    {
        PackageCommand::execute(self, registry, cache, workspace, dry_run)
    }
}

} // verus!
