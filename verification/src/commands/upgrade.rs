//! The upgrade command.

use super::common::{is_command_outcome, PackageCommand, Workspace};
use crate::pkgm::detect::cache::DetectionCache;
use crate::pkgm::manager::Prompt;
use crate::pkgm::registry::ManagerRegistry;
use crate::pkgm::types::PackageManager;
use crate::text::texts;
use crate::utils::error::Error;
use vstd::prelude::*;

verus! {

/// Upgrades the packages named, or all where none is named.
#[derive(Debug)]
pub struct UpgradeArgs {
    pub raw_args: Vec<String>,
}

impl PackageCommand for UpgradeArgs {
    open spec fn verb(&self) -> Seq<char> {
        "upgrade"@
    }

    open spec fn arguments(&self) -> Seq<Seq<char>> {
        texts(self.raw_args@)
    }

    open spec fn checks_packages(&self) -> bool {
        false
    }

    fn command_name(&self) -> (name: &'static str) {
        "upgrade"
    }

    fn raw_args(&self) -> (args: &[String]) {
        self.raw_args.as_slice()
    }

    /// Naming a package is optional here, so what is named is not checked.
    fn requires_packages(&self) -> (yes: bool) {
        false
    }
}

impl UpgradeArgs {
    /// Prepares the command for the manager that governs the project.
    pub fn execute<M: PackageManager + Copy>(
        &self,
        registry: &ManagerRegistry<M>,
        cache: &mut DetectionCache,
        workspace: &Workspace,
        dry_run: bool,
    ) -> (outcome: Result<Prompt, Error>)
        ensures
            is_command_outcome(
                "upgrade"@,
                texts(self.raw_args@),
                false,
                outcome,
                registry@,
                old(cache)@,
                final(cache)@,
                *workspace,
                dry_run,
            ),
    {
        PackageCommand::execute(self, registry, cache, workspace, dry_run)
    }
}

} // verus!
