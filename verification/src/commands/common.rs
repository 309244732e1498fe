//! What the package commands have in common: from raw arguments to the
//! command line of the manager that governs the project.

use crate::pkgm::detect::cache::DetectionCache;
use crate::pkgm::detect::config::builtin_rules;
use crate::pkgm::detect::finder::{cache_after, detect, detected_kind};
use crate::pkgm::detect::path::{Listing, TreePath};
use crate::pkgm::manager::{execute_with_prompt, is_prompt_of, Prompt};
use crate::pkgm::registry::ManagerRegistry;
use crate::pkgm::types::{type_label, ManagerType, PackageManager, PackageOptions};
use crate::text::texts;
use crate::utils::args_parser::{packages_of, passthrough_of, ArgsParser};
use crate::utils::error::{Error, ErrorView};
use crate::utils::validator::{first_rejection, PackageValidator};
use vstd::prelude::*;

verus! {

/// What a command is run in: the override of the manager, if the
/// configuration has one, the working directory, and the files that were
/// found to exist there and above.
#[derive(Debug)]
pub struct Workspace {
    pub manager_override: Option<String>,
    pub current_dir: TreePath,
    pub files: Listing,
}

impl Workspace {
    /// The override, as a character sequence.
    pub open spec fn override_text(&self) -> Option<Seq<char>> {
        match self.manager_override {
            Some(name) => Some(name@),
            None => None,
        }
    }

    /// The kind that detection settles on in this workspace.
    pub open spec fn kind(&self, cache: Option<(Seq<Seq<char>>, ManagerType)>) -> Option<
        ManagerType,
    > {
        detected_kind(
            builtin_rules(),
            self.override_text(),
            cache,
            self.current_dir@,
            self.files@,
        )
    }

    /// The cache after detection in this workspace.
    pub open spec fn cache_next(&self, cache: Option<(Seq<Seq<char>>, ManagerType)>) -> Option<
        (Seq<Seq<char>>, ManagerType),
    > {
        cache_after(builtin_rules(), self.override_text(), cache, self.current_dir@, self.files@)
    }
}

/// `outcome` is what a request for `command` on `packages` with `options`
/// comes to: the prompt of the detected manager or, where none is detected
/// or the detected kind has no adapter, the report of that.
pub open spec fn is_request_outcome<M: PackageManager>(
    outcome: Result<Prompt, Error>,
    registry: Map<ManagerType, M>,
    kind: Option<ManagerType>,
    command: Seq<char>,
    packages: Seq<Seq<char>>,
    options: Seq<Seq<char>>,
    dry_run: bool,
) -> bool {
    match kind {
        Some(k) => if registry.contains_key(k) {
            outcome matches Ok(prompt) && is_prompt_of(
                prompt,
                registry[k],
                command,
                packages,
                options,
                dry_run,
            )
        } else {
            outcome matches Err(e) && e@ == (ErrorView::UnsupportedManager {
                name: type_label(k),
            })
        },
        None => outcome matches Err(e) && e@ == ErrorView::ManagerNotDetected,
    }
}

/// `outcome` and the cache `after` are what a command comes to. Where the
/// command checks its packages and one is refused, the outcome is the error of
/// the first that is refused, and the cache stays as it was `before`: nothing
/// is detected. Otherwise the manager is detected, the cache is what
/// detection leaves, and the outcome is that of the request for the packages
/// and the passthrough arguments.
pub open spec fn is_command_outcome<M: PackageManager>(
    verb: Seq<char>,
    arguments: Seq<Seq<char>>,
    checks_packages: bool,
    outcome: Result<Prompt, Error>,
    registry: Map<ManagerType, M>,
    before: Option<(Seq<Seq<char>>, ManagerType)>,
    after: Option<(Seq<Seq<char>>, ManagerType)>,
    workspace: Workspace,
    dry_run: bool,
) -> bool {
    if checks_packages && first_rejection(packages_of(arguments)) is Some {
        &&& outcome matches Err(e) && Some(e@) == first_rejection(packages_of(arguments))
        &&& after == before
    } else {
        &&& is_request_outcome(
            outcome,
            registry,
            workspace.kind(before),
            verb,
            packages_of(arguments),
            passthrough_of(arguments),
            dry_run,
        )
        &&& after == workspace.cache_next(before)
    }
}

/// Detects the manager and prepares the command for it. Where detection
/// fails, nothing is prepared and nothing will be launched.
pub fn request<M: PackageManager + Copy>(
    command: &str,
    packages: &[String],
    options: &PackageOptions,
    registry: &ManagerRegistry<M>,
    cache: &mut DetectionCache,
    workspace: &Workspace,
    dry_run: bool,
) -> (outcome: Result<Prompt, Error>)
    ensures
        is_request_outcome(
            outcome,
            registry@,
            workspace.kind(old(cache)@),
            command@,
            texts(packages@),
            texts(options.args@),
            dry_run,
        ),
        final(cache)@ == workspace.cache_next(old(cache)@),
{
    let manager_override = match &workspace.manager_override {
        Some(name) => Some(name.as_str()),
        None => None,
    };
    match detect(registry, manager_override, cache, &workspace.current_dir, &workspace.files) {
        Ok(manager) => Ok(execute_with_prompt(&manager, command, packages, options, dry_run)),
        Err(e) => Err(e),
    }
}

/// A command on packages: its verb, its raw arguments, and whether what
/// stands before the first flag is checked as package names.
pub trait PackageCommand {
    /// The generic verb.
    spec fn verb(&self) -> Seq<char>;

    /// The raw arguments.
    spec fn arguments(&self) -> Seq<Seq<char>>;

    /// Whether the packages are checked before anything else is done.
    spec fn checks_packages(&self) -> bool;

    fn command_name(&self) -> (name: &'static str)
        ensures
            name@ == self.verb(),
    ;

    fn raw_args(&self) -> (args: &[String])
        ensures
            texts(args@) == self.arguments(),
    ;

    fn requires_packages(&self) -> (yes: bool)
        ensures
            yes == self.checks_packages(),
    ;

    /// Splits the raw arguments, checks the packages where the command asks
    /// for it, detects the manager and prepares the command. A package that
    /// is refused ends the command before detection: the cache stays as it
    /// was.
    fn execute<M: PackageManager + Copy>(
        &self,
        registry: &ManagerRegistry<M>,
        cache: &mut DetectionCache,
        workspace: &Workspace,
        dry_run: bool,
    ) -> (outcome: Result<Prompt, Error>)
        ensures
            is_command_outcome(
                self.verb(),
                self.arguments(),
                self.checks_packages(),
                outcome,
                registry@,
                old(cache)@,
                final(cache)@,
                *workspace,
                dry_run,
            ),
    {
        let (packages, manager_args) = ArgsParser::parse(self.raw_args());
        if self.requires_packages() && packages.len() > 0 {
            match PackageValidator::validate_packages(packages.as_slice()) {
                Ok(_) => {},
                Err(e) => {
                    return Err(e);
                },
            }
        }
        let options = PackageOptions::new(manager_args);
        request(
            self.command_name(),
            packages.as_slice(),
            &options,
            registry,
            cache,
            workspace,
            dry_run,
        )
    }
}

} // verus!
