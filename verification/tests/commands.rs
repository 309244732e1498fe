use mg::commands::add::AddArgs;
use mg::commands::analyze::AnalyzeArgs;
use mg::commands::common::{request, PackageCommand, Workspace};
use mg::commands::fs::create::CreateArgs;
use mg::commands::fs::{FsAction, FsCommand, PathFacts};
use mg::commands::install::InstallArgs;
use mg::commands::remove::RemoveArgs;
use mg::commands::upgrade::UpgradeArgs;
use mg::commands::{CliCommand, Step};
use mg::pkgm::detect::cache::{get_cached_manager, DetectionCache};
use mg::pkgm::detect::path::{Listing, TreePath};
use mg::pkgm::manager::finish_with_prompt;
use mg::pkgm::helpers::LaunchOutcome;
use mg::pkgm::registry::ManagerRegistry;
use mg::pkgm::types::{ManagerType, PackageOptions};
use mg::utils::error::Error;

fn path(parts: &[&str]) -> TreePath {
    TreePath::new(parts.iter().map(|p| p.to_string()).collect())
}

fn workspace(marker: Option<&str>, manager_override: Option<&str>) -> Workspace {
    let mut paths = Vec::new();
    if let Some(name) = marker {
        paths.push(path(&["work", "project", name]));
    }
    Workspace {
        manager_override: manager_override.map(|m| m.to_string()),
        current_dir: path(&["work", "project"]),
        files: Listing::new(paths),
    }
}

fn strings(items: &[&str]) -> Vec<String> {
    items.iter().map(|s| s.to_string()).collect()
}

fn facts() -> PathFacts {
    PathFacts { exists: false, is_file: false, is_dir: false, parent_exists: None, separator: '/' }
}

#[test]
fn command_names_and_checks() {
    let add = AddArgs { raw_args: strings(&["a"]) };
    let remove = RemoveArgs { raw_args: strings(&["a"]) };
    let upgrade = UpgradeArgs { raw_args: strings(&["a"]) };
    let analyze = AnalyzeArgs { raw_args: strings(&["a"]) };
    assert_eq!(add.command_name(), "add");
    assert_eq!(remove.command_name(), "remove");
    assert_eq!(upgrade.command_name(), "upgrade");
    assert_eq!(analyze.command_name(), "analyze");
    assert!(add.requires_packages());
    assert!(remove.requires_packages());
    assert!(!upgrade.requires_packages());
    assert!(!analyze.requires_packages());
    assert_eq!(add.raw_args(), ["a".to_string()]);
}

#[test]
fn add_in_a_cargo_project() {
    let registry = ManagerRegistry::builtin();
    let mut cache = DetectionCache::new();
    let ws = workspace(Some("Cargo.toml"), None);
    let add = AddArgs { raw_args: strings(&["serde"]) };
    let prompt = add.execute(&registry, &mut cache, &ws, false).unwrap();
    assert_eq!(prompt.manager_name, "cargo");
    assert_eq!(prompt.full_command, "cargo add serde");
    let launch = prompt.launch.unwrap();
    assert_eq!(launch.program, "cargo");
    assert_eq!(launch.args, vec!["add", "serde"]);
    assert_eq!(get_cached_manager(&cache, &ws.current_dir), Some(ManagerType::Cargo));
}

#[test]
fn add_splits_packages_from_passthrough() {
    let registry = ManagerRegistry::builtin();
    let mut cache = DetectionCache::new();
    let ws = workspace(Some("package-lock.json"), None);
    let add = AddArgs { raw_args: strings(&["lodash", "react", "-D", "--save-exact"]) };
    let prompt = add.execute(&registry, &mut cache, &ws, false).unwrap();
    assert_eq!(prompt.full_command, "npm install lodash react -D --save-exact");
    assert_eq!(
        prompt.launch.unwrap().args,
        vec!["install", "lodash", "react", "-D", "--save-exact"]
    );
}

#[test]
fn refused_package_ends_the_command_before_detection() {
    let registry = ManagerRegistry::builtin();
    let mut cache = DetectionCache::new();
    let ws = workspace(Some("Cargo.toml"), None);
    let add = AddArgs { raw_args: strings(&["serde", ".hidden", "--dev"]) };
    match add.execute(&registry, &mut cache, &ws, false) {
        Err(Error::InvalidPackageName { name }) => {
            assert_eq!(name, ".hidden (cannot start with '.')")
        }
        other => panic!("expected a refused name, got {:?}", other),
    }
    assert!(cache.entry.is_none());
    let remove = RemoveArgs { raw_args: strings(&["  "]) };
    match remove.execute(&registry, &mut cache, &ws, false) {
        Err(Error::InvalidPackageName { name }) => assert_eq!(name, "  "),
        other => panic!("expected a refused name, got {:?}", other),
    }
}

#[test]
fn upgrade_and_analyze_do_not_check_packages() {
    let registry = ManagerRegistry::builtin();
    let mut cache = DetectionCache::new();
    let ws = workspace(Some("requirements.txt"), None);
    let upgrade = UpgradeArgs { raw_args: strings(&[".hidden"]) };
    let prompt = upgrade.execute(&registry, &mut cache, &ws, false).unwrap();
    assert_eq!(prompt.full_command, "pip install --upgrade .hidden");
    let analyze = AnalyzeArgs { raw_args: strings(&[]) };
    let prompt = analyze.execute(&registry, &mut cache, &ws, false).unwrap();
    assert_eq!(prompt.full_command, "pip list");
    let upgrade_all = UpgradeArgs { raw_args: strings(&[]) };
    let prompt = upgrade_all.execute(&registry, &mut cache, &ws, true).unwrap();
    assert_eq!(prompt.full_command, "pip install --upgrade");
    assert!(prompt.launch.is_none());
}

#[test]
fn flags_after_a_flag_are_not_checked_as_packages() {
    let registry = ManagerRegistry::builtin();
    let mut cache = DetectionCache::new();
    let ws = workspace(Some("yarn.lock"), None);
    let remove = RemoveArgs { raw_args: strings(&["left-pad", "--flag", ".hidden"]) };
    let prompt = remove.execute(&registry, &mut cache, &ws, false).unwrap();
    assert_eq!(prompt.full_command, "yarn remove left-pad --flag .hidden");
}

#[test]
fn install_passes_every_argument_through() {
    let registry = ManagerRegistry::builtin();
    let mut cache = DetectionCache::new();
    let ws = workspace(Some("pnpm-lock.yaml"), None);
    let install = InstallArgs { raw_args: strings(&["pkg", "--frozen-lockfile"]) };
    let prompt = install.execute(&registry, &mut cache, &ws, false).unwrap();
    assert_eq!(prompt.manager_name, "pnpm");
    assert_eq!(prompt.full_command, "pnpm install pkg --frozen-lockfile");
    let ws = workspace(Some("Cargo.toml"), None);
    let mut cache = DetectionCache::new();
    let install = InstallArgs { raw_args: strings(&[]) };
    let prompt = install.execute(&registry, &mut cache, &ws, false).unwrap();
    assert_eq!(prompt.full_command, "cargo check");
}

#[test]
fn without_a_marker_nothing_is_launched() {
    let registry = ManagerRegistry::builtin();
    let mut cache = DetectionCache::new();
    let ws = workspace(None, None);
    let add = AddArgs { raw_args: strings(&["serde"]) };
    match add.execute(&registry, &mut cache, &ws, false) {
        Err(Error::ManagerNotDetected) => {}
        other => panic!("expected no manager, got {:?}", other),
    }
    let options = PackageOptions::new(vec![]);
    match request("install", &[], &options, &registry, &mut cache, &ws, false) {
        Err(Error::ManagerNotDetected) => {}
        other => panic!("expected no manager, got {:?}", other),
    }
    assert!(cache.entry.is_none());
}

#[test]
fn override_in_the_workspace_decides() {
    let registry = ManagerRegistry::builtin();
    let mut cache = DetectionCache::new();
    let ws = workspace(Some("Cargo.toml"), Some("Bun"));
    let add = AddArgs { raw_args: strings(&["zod"]) };
    let prompt = add.execute(&registry, &mut cache, &ws, false).unwrap();
    assert_eq!(prompt.full_command, "bun add zod");
    let ws = workspace(Some("Cargo.toml"), Some("nix"));
    let mut cache = DetectionCache::new();
    let prompt = add.execute(&registry, &mut cache, &ws, false).unwrap();
    assert_eq!(prompt.full_command, "cargo add zod");
}

#[test]
fn a_failed_command_is_reported_with_the_shown_command() {
    let registry = ManagerRegistry::builtin();
    let mut cache = DetectionCache::new();
    let ws = workspace(Some("Cargo.toml"), None);
    let add = AddArgs { raw_args: strings(&["serde"]) };
    let prompt = add.execute(&registry, &mut cache, &ws, false).unwrap();
    let shown = prompt.full_command.clone();
    let outcome = LaunchOutcome::Exited { code: Some(1) };
    let failure =
        finish_with_prompt(prompt.manager_name, "add", prompt.full_command, outcome, 1).unwrap_err();
    match failure.error {
        Error::CommandFailed { command, code } => {
            assert_eq!(command, shown);
            assert_eq!(command, "cargo add serde");
            assert_eq!(code, 1);
        }
        other => panic!("expected a failed command, got {:?}", other),
    }
}

#[test]
fn cli_command_hands_on_to_its_part() {
    let registry = ManagerRegistry::builtin();
    let mut cache = DetectionCache::new();
    let ws = workspace(Some("Cargo.toml"), None);
    let cases = vec![
        (CliCommand::Add(AddArgs { raw_args: strings(&["a"]) }), "cargo add a"),
        (CliCommand::Remove(RemoveArgs { raw_args: strings(&["a"]) }), "cargo remove a"),
        (CliCommand::Upgrade(UpgradeArgs { raw_args: strings(&[]) }), "cargo update"),
        (CliCommand::Analyze(AnalyzeArgs { raw_args: strings(&[]) }), "cargo tree"),
        (CliCommand::Install(InstallArgs { raw_args: strings(&["-q"]) }), "cargo check -q"),
    ];
    for (command, shown) in cases {
        match command.execute(&registry, &mut cache, &ws, &facts(), false) {
            Ok(Step::Run(prompt)) => assert_eq!(prompt.full_command, shown),
            other => panic!("expected a prompt, got {:?}", other),
        }
    }
    let create = CliCommand::Fs(FsCommand::Create(CreateArgs {
        path: "a/b.txt".to_string(),
        recursive: true,
    }));
    let mut cache = DetectionCache::new();
    let known = PathFacts { parent_exists: Some(false), ..facts() };
    match create.execute(&registry, &mut cache, &workspace(None, None), &known, false) {
        Ok(Step::Files(actions)) => {
            assert_eq!(actions, vec![FsAction::CreateParentDirs, FsAction::CreateFile])
        }
        other => panic!("expected file operations, got {:?}", other),
    }
    assert!(cache.entry.is_none());
}
