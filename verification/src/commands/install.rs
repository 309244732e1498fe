//! The install command.

use super::common::{is_request_outcome, request, Workspace};
use crate::pkgm::detect::cache::DetectionCache;
use crate::pkgm::manager::Prompt;
use crate::pkgm::registry::ManagerRegistry;
use crate::pkgm::types::{PackageManager, PackageOptions};
use crate::text::{copy_all, texts};
use crate::utils::error::Error;
use vstd::prelude::*;

verus! {

/// Installs what the project asks for. All arguments are passed through.
#[derive(Debug)]
pub struct InstallArgs {
    pub raw_args: Vec<String>,
}

impl InstallArgs {
    /// Prepares the command for the manager that governs the project: no
    /// packages, and every argument passed through.
    pub fn execute<M: PackageManager + Copy>(
        &self,
        registry: &ManagerRegistry<M>,
        cache: &mut DetectionCache,
        workspace: &Workspace,
        dry_run: bool,
    ) -> (outcome: Result<Prompt, Error>)
        ensures
            is_request_outcome(
                outcome,
                registry@,
                workspace.kind(old(cache)@),
                "install"@,
                Seq::<Seq<char>>::empty(),
                texts(self.raw_args@),
                dry_run,
            ),
            final(cache)@ == workspace.cache_next(old(cache)@),
    {
        let options = PackageOptions::new(copy_all(self.raw_args.as_slice()));
        let packages: Vec<String> = Vec::new();
        assert(texts(packages@) =~= Seq::<Seq<char>>::empty());
        request("install", packages.as_slice(), &options, registry, cache, workspace, dry_run)
    }
}

} // verus!
