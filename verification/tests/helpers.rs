use mg::pkgm::helpers::{
    command_result, execute_command, format_command_string, invocation, LaunchOutcome,
};
use mg::pkgm::types::PackageOptions;
use mg::utils::error::Error;

#[test]
fn test_format_command_string() {
    let options = PackageOptions::new(vec!["-D".to_string(), "--save-exact".to_string()]);
    let packages = vec!["lodash".to_string(), "react".to_string()];
    let command_args = vec!["install".to_string()];

    let result = format_command_string("npm", command_args, &packages, &options);
    assert_eq!(result, "npm install lodash react -D --save-exact");
}

#[test]
fn test_format_command_string_no_packages() {
    let options = PackageOptions::new(vec![]);
    let command_args = vec!["install".to_string()];

    let result = format_command_string("npm", command_args, &[], &options);
    assert_eq!(result, "npm install");
}

#[test]
fn test_format_command_string_no_options() {
    let options = PackageOptions::new(vec![]);
    let packages = vec!["serde".to_string()];
    let command_args = vec!["add".to_string()];

    let result = format_command_string("cargo", command_args, &packages, &options);
    assert_eq!(result, "cargo add serde");
}

#[test]
fn format_keeps_empty_words_as_they_are() {
    let options = PackageOptions::new(vec!["".to_string()]);
    let result = format_command_string("pip", vec![], &["a b".to_string()], &options);
    assert_eq!(result, "pip a b ");
}

#[test]
fn invocation_orders_subcommand_packages_options() {
    let options = PackageOptions::new(vec!["-D".to_string()]);
    let launch = invocation(
        "pip",
        vec!["install".to_string(), "--upgrade".to_string()],
        &["requests".to_string()],
        &options,
    );
    assert_eq!(launch.program, "pip");
    assert_eq!(launch.args, vec!["install", "--upgrade", "requests", "-D"]);
}

#[test]
fn dry_run_launches_nothing() {
    let options = PackageOptions::new(vec![]);
    let dry = execute_command("npm", vec!["install".to_string()], &[], &options, true);
    assert!(dry.is_none());
    let wet = execute_command("npm", vec!["install".to_string()], &[], &options, false);
    let launch = wet.unwrap();
    assert_eq!(launch.program, "npm");
    assert_eq!(launch.args, vec!["install"]);
}

#[test]
fn exit_status_zero_is_success() {
    let outcome = LaunchOutcome::Exited { code: Some(0) };
    assert!(command_result("npm", "npm install".to_string(), outcome).is_ok());
    assert!(command_result("npm", "npm install".to_string(), LaunchOutcome::Skipped).is_ok());
}

#[test]
fn nonzero_exit_is_command_failed() {
    let outcome = LaunchOutcome::Exited { code: Some(1) };
    match command_result("cargo", "cargo add serde".to_string(), outcome) {
        Err(Error::CommandFailed { command, code }) => {
            assert_eq!(command, "cargo add serde");
            assert_eq!(code, 1);
        }
        other => panic!("expected a failed command, got {:?}", other),
    }
}

#[test]
fn exit_without_status_is_reported_as_minus_one() {
    let outcome = LaunchOutcome::Exited { code: None };
    match command_result("yarn", "yarn add x".to_string(), outcome) {
        Err(Error::CommandFailed { command, code }) => {
            assert_eq!(command, "yarn add x");
            assert_eq!(code, -1);
        }
        other => panic!("expected a failed command, got {:?}", other),
    }
}

#[test]
fn failed_launch_is_manager_not_installed() {
    let outcome = LaunchOutcome::NotStarted { reason: "No such file or directory".to_string() };
    match command_result("pnpm", "pnpm add x".to_string(), outcome) {
        Err(Error::ManagerNotInstalled { manager, source }) => {
            assert_eq!(manager, "pnpm");
            assert_eq!(source, "No such file or directory");
        }
        other => panic!("expected a missing manager, got {:?}", other),
    }
}
