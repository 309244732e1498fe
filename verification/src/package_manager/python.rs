//! Commands for Python projects.

use super::{task, Task, TaskView};
use crate::text::{concat_str, texts};
use crate::utils::{error_message, is_error_line};
use vstd::prelude::*;

verus! {

/// A word, and after it a package where one is named.
pub open spec fn with_optional(words: Seq<Seq<char>>, package: Option<Seq<char>>) -> Seq<Seq<char>> {
    match package {
        Some(name) => words.push(name),
        None => words,
    }
}

/// Installs what `requirements.txt` lists. The exit status counts.
pub fn install() -> (planned: Result<Task, String>)
    ensures
        planned matches Ok(task) && task@ == (TaskView {
            program: "pip"@,
            args: seq!["install"@, "-r"@, "requirements.txt"@],
            success: "Python dependencies installed"@,
            exit_failure: Some("Installation failed"@),
            launch_failure: "Failed to install"@,
        }),
{
    let mut args: Vec<String> = Vec::new();
    args.push("install".to_owned());
    args.push("-r".to_owned());
    args.push("requirements.txt".to_owned());
    assert(texts(args@) =~= seq!["install"@, "-r"@, "requirements.txt"@]);
    Ok(task("pip", args, "Python dependencies installed".to_owned(), Some("Installation failed"), "Failed to install"))
}

/// Adds a package. Development dependencies are not handled and are
/// refused.
pub fn add_package(package: &str, dev: bool) -> (planned: Result<Task, String>)
    ensures
        if dev {
            planned matches Err(line) && is_error_line(
                line@,
                "Python dev dependencies require manual handling"@,
            )
        } else {
            planned matches Ok(task) && task@ == (TaskView {
                program: "pip"@,
                args: seq!["install"@, package@],
                success: "Added package: "@ + package@,
                exit_failure: None,
                launch_failure: "Failed to add package"@,
            })
        },
{
    if dev {
        return Err(error_message("Python dev dependencies require manual handling"));
    }
    let mut args: Vec<String> = Vec::new();
    args.push("install".to_owned());
    args.push(package.to_owned());
    assert(texts(args@) =~= seq!["install"@, package@]);
    Ok(task("pip", args, concat_str("Added package: ", package), None, "Failed to add package"))
}

/// Upgrades one package, or nothing in particular where none is named.
pub fn upgrade_package(package: Option<&str>) -> (planned: Result<Task, String>)
    ensures
        planned matches Ok(task) && task@ == (TaskView {
            program: "pip"@,
            args: with_optional(
                seq!["install"@, "--upgrade"@],
                match package {
                    Some(name) => Some(name@),
                    None => None,
                },
            ),
            success: "Packages upgraded"@,
            exit_failure: None,
            launch_failure: "Upgrade failed"@,
        }),
{
    let mut args: Vec<String> = Vec::new();
    args.push("install".to_owned());
    args.push("--upgrade".to_owned());
    match package {
        Some(name) => {
            args.push(name.to_owned());
            assert(texts(args@) =~= seq!["install"@, "--upgrade"@].push(name@));
        },
        None => {
            assert(texts(args@) =~= seq!["install"@, "--upgrade"@]);
        },
    }
    Ok(task("pip", args, "Packages upgraded".to_owned(), None, "Upgrade failed"))
}

/// Removes a package.
pub fn remove_package(package: &str) -> (planned: Result<Task, String>)
    ensures
        planned matches Ok(task) && task@ == (TaskView {
            program: "pip"@,
            args: seq!["uninstall"@, package@],
            success: "Removed package: "@ + package@,
            exit_failure: None,
            launch_failure: "Remove failed"@,
        }),
{
    let mut args: Vec<String> = Vec::new();
    args.push("uninstall".to_owned());
    args.push(package.to_owned());
    assert(texts(args@) =~= seq!["uninstall"@, package@]);
    Ok(task("pip", args, concat_str("Removed package: ", package), None, "Remove failed"))
}

/// Lists the installed packages.
pub fn analyze_dependencies() -> (planned: Result<Task, String>)
    ensures
        planned matches Ok(task) && task@ == (TaskView {
            program: "pip"@,
            args: seq!["list"@],
            success: "Dependencies analyzed"@,
            exit_failure: None,
            launch_failure: "Analyze failed"@,
        }),
{
    let mut args: Vec<String> = Vec::new();
    args.push("list".to_owned());
    assert(texts(args@) =~= seq!["list"@]);
    Ok(task("pip", args, "Dependencies analyzed".to_owned(), None, "Analyze failed"))
}

} // verus!
