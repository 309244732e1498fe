use mg::pkgm::bun::Bun;
use mg::pkgm::cargo::Cargo;
use mg::pkgm::manager::{
    execute_with_prompt, finish_with_prompt, Manager, LONG_RUNNING_SECS,
};
use mg::pkgm::helpers::LaunchOutcome;
use mg::pkgm::npm::Npm;
use mg::pkgm::pdm::Pdm;
use mg::pkgm::pip::Pip;
use mg::pkgm::pnpm::Pnpm;
use mg::pkgm::poetry::Poetry;
use mg::pkgm::types::{ManagerType, PackageManager, PackageOptions};
use mg::pkgm::yarn::Yarn;
use mg::utils::error::Error;

fn line<M: PackageManager>(manager: &M, verb: &str) -> String {
    manager.format_command(verb, &[], &PackageOptions::new(vec![]))
}

#[test]
fn cargo_verbs() {
    assert_eq!(Cargo.name(), "cargo");
    assert_eq!(line(&Cargo, "add"), "cargo add");
    assert_eq!(line(&Cargo, "install"), "cargo check");
    assert_eq!(line(&Cargo, "remove"), "cargo remove");
    assert_eq!(line(&Cargo, "upgrade"), "cargo update");
    assert_eq!(line(&Cargo, "analyze"), "cargo tree");
    assert_eq!(line(&Cargo, "publish"), "cargo publish");
}

#[test]
fn npm_verbs() {
    assert_eq!(Npm.name(), "npm");
    assert_eq!(line(&Npm, "add"), "npm install");
    assert_eq!(line(&Npm, "install"), "npm install");
    assert_eq!(line(&Npm, "remove"), "npm uninstall");
    assert_eq!(line(&Npm, "upgrade"), "npm update");
    assert_eq!(line(&Npm, "analyze"), "npm list");
    assert_eq!(line(&Npm, "audit"), "npm audit");
}

#[test]
fn pnpm_verbs() {
    assert_eq!(Pnpm.name(), "pnpm");
    assert_eq!(line(&Pnpm, "add"), "pnpm add");
    assert_eq!(line(&Pnpm, "install"), "pnpm install");
    assert_eq!(line(&Pnpm, "remove"), "pnpm remove");
    assert_eq!(line(&Pnpm, "upgrade"), "pnpm update");
    assert_eq!(line(&Pnpm, "analyze"), "pnpm list");
    assert_eq!(line(&Pnpm, "dlx"), "pnpm dlx");
}

#[test]
fn yarn_verbs() {
    assert_eq!(Yarn.name(), "yarn");
    assert_eq!(line(&Yarn, "add"), "yarn add");
    assert_eq!(line(&Yarn, "install"), "yarn install");
    assert_eq!(line(&Yarn, "remove"), "yarn remove");
    assert_eq!(line(&Yarn, "upgrade"), "yarn upgrade");
    assert_eq!(line(&Yarn, "analyze"), "yarn tree");
    assert_eq!(line(&Yarn, "why"), "yarn why");
}

#[test]
fn bun_verbs() {
    assert_eq!(Bun.name(), "bun");
    assert_eq!(line(&Bun, "add"), "bun add");
    assert_eq!(line(&Bun, "install"), "bun install");
    assert_eq!(line(&Bun, "remove"), "bun remove");
    assert_eq!(line(&Bun, "upgrade"), "bun update");
    assert_eq!(line(&Bun, "analyze"), "bun list");
    assert_eq!(line(&Bun, "x"), "bun x");
}

#[test]
fn pip_verbs() {
    assert_eq!(Pip.name(), "pip");
    assert_eq!(line(&Pip, "add"), "pip install");
    assert_eq!(line(&Pip, "install"), "pip install");
    assert_eq!(line(&Pip, "remove"), "pip uninstall");
    assert_eq!(line(&Pip, "upgrade"), "pip install --upgrade");
    assert_eq!(line(&Pip, "analyze"), "pip list");
    assert_eq!(line(&Pip, "freeze"), "pip freeze");
}

#[test]
fn pdm_verbs() {
    assert_eq!(Pdm.name(), "pdm");
    assert_eq!(line(&Pdm, "add"), "pdm add");
    assert_eq!(line(&Pdm, "install"), "pdm install");
    assert_eq!(line(&Pdm, "remove"), "pdm remove");
    assert_eq!(line(&Pdm, "upgrade"), "pdm update");
    assert_eq!(line(&Pdm, "analyze"), "pdm list");
    assert_eq!(line(&Pdm, "lock"), "pdm lock");
}

#[test]
fn poetry_verbs() {
    assert_eq!(Poetry.name(), "poetry");
    assert_eq!(line(&Poetry, "add"), "poetry add");
    assert_eq!(line(&Poetry, "install"), "poetry install");
    assert_eq!(line(&Poetry, "remove"), "poetry remove");
    assert_eq!(line(&Poetry, "upgrade"), "poetry update");
    assert_eq!(line(&Poetry, "analyze"), "poetry show --tree");
    assert_eq!(line(&Poetry, "lock"), "poetry lock");
}

#[test]
fn verbs_are_matched_letter_for_letter() {
    assert_eq!(line(&Npm, "Add"), "npm Add");
    assert_eq!(line(&Npm, ""), "npm ");
    assert_eq!(line(&Pip, "upgrade "), "pip upgrade ");
}

#[test]
fn every_builtin_adapter_has_the_kind_it_was_made_for() {
    let kinds = [
        ManagerType::Cargo,
        ManagerType::Npm,
        ManagerType::Pnpm,
        ManagerType::Bun,
        ManagerType::Yarn,
        ManagerType::Pip,
        ManagerType::Pdm,
        ManagerType::Poetry,
    ];
    let labels = ["Cargo", "Npm", "Pnpm", "Bun", "Yarn", "Pip", "Pdm", "Poetry"];
    for (kind, label) in kinds.iter().zip(labels) {
        assert_eq!(Manager::of(*kind).manager_type(), *kind);
        assert_eq!(kind.label(), label);
        assert_eq!(format!("{:?}", kind), label);
    }
}

#[test]
fn shown_command_is_the_launched_command() {
    let kinds = [
        ManagerType::Cargo,
        ManagerType::Npm,
        ManagerType::Pnpm,
        ManagerType::Bun,
        ManagerType::Yarn,
        ManagerType::Pip,
        ManagerType::Pdm,
        ManagerType::Poetry,
    ];
    let packages = vec!["lodash".to_string(), "react".to_string()];
    let options = PackageOptions::new(vec!["-D".to_string(), "--save-exact".to_string()]);
    for kind in kinds {
        for verb in ["add", "install", "remove", "upgrade", "analyze", "other"] {
            let manager = Manager::of(kind);
            let shown = manager.format_command(verb, &packages, &options);
            let again = manager.format_command(verb, &packages, &options);
            assert_eq!(shown, again);
            let launch = manager.execute_command(verb, &packages, &options);
            let mut words = vec![launch.program.clone()];
            words.extend(launch.args.clone());
            assert_eq!(shown, words.join(" "));
            assert_eq!(launch.program, manager.name());
            let bare = manager.format_command(verb, &packages, &PackageOptions::new(vec![]));
            assert!(shown.starts_with(&bare));
        }
    }
}

#[test]
fn prompt_for_a_command() {
    let options = PackageOptions::new(vec!["--dev".to_string()]);
    let packages = vec!["left-pad".to_string()];
    let prompt = execute_with_prompt(&Yarn, "add", &packages, &options, false);
    assert_eq!(prompt.manager_name, "yarn");
    assert_eq!(prompt.full_command, "yarn add left-pad --dev");
    let launch = prompt.launch.unwrap();
    assert_eq!(launch.program, "yarn");
    assert_eq!(launch.args, vec!["add", "left-pad", "--dev"]);
}

#[test]
fn prompt_in_a_dry_run_has_no_launch() {
    let options = PackageOptions::new(vec![]);
    let prompt = execute_with_prompt(&Manager::of(ManagerType::Pip), "upgrade", &[], &options, true);
    assert_eq!(prompt.manager_name, "pip");
    assert_eq!(prompt.full_command, "pip install --upgrade");
    assert!(prompt.launch.is_none());
}

#[test]
fn exit_code_one_is_reported_with_the_command() {
    let outcome = LaunchOutcome::Exited { code: Some(1) };
    let failure =
        finish_with_prompt("cargo", "add", "cargo add serde".to_string(), outcome, 0).unwrap_err();
    assert_eq!(failure.command, "add");
    assert_eq!(failure.manager, "cargo");
    match failure.error {
        Error::CommandFailed { command, code } => {
            assert_eq!(command, "cargo add serde");
            assert_eq!(code, 1);
        }
        other => panic!("expected a failed command, got {:?}", other),
    }
}

#[test]
fn missing_tool_is_reported_under_verb_and_manager() {
    let outcome = LaunchOutcome::NotStarted { reason: "not found".to_string() };
    let failure =
        finish_with_prompt("bun", "remove", "bun remove x".to_string(), outcome, 9).unwrap_err();
    assert_eq!(failure.command, "remove");
    assert_eq!(failure.manager, "bun");
    match failure.error {
        Error::ManagerNotInstalled { manager, source } => {
            assert_eq!(manager, "bun");
            assert_eq!(source, "not found");
        }
        other => panic!("expected a missing manager, got {:?}", other),
    }
}

#[test]
fn long_runs_are_flagged_after_three_seconds() {
    assert_eq!(LONG_RUNNING_SECS, 3);
    let ok = || LaunchOutcome::Exited { code: Some(0) };
    let done = finish_with_prompt("npm", "install", "npm install".to_string(), ok(), 3).unwrap();
    assert!(!done.long_running);
    let done = finish_with_prompt("npm", "install", "npm install".to_string(), ok(), 4).unwrap();
    assert!(done.long_running);
    let done =
        finish_with_prompt("npm", "install", "npm install".to_string(), LaunchOutcome::Skipped, 0)
            .unwrap();
    assert!(!done.long_running);
}
