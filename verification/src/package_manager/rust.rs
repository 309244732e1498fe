//! Commands for Rust projects.

use super::{task, Task, TaskView};
use crate::text::{concat_str, texts};
use vstd::prelude::*;

verus! {

/// A word, and after it a package where one is named.
pub open spec fn with_optional(words: Seq<Seq<char>>, package: Option<Seq<char>>) -> Seq<Seq<char>> {
    match package {
        Some(name) => words.push(name),
        None => words,
    }
}

/// Builds the project, which fetches what it depends on.
pub fn install() -> (planned: Result<Task, String>)
    ensures
        planned matches Ok(task) && task@ == (TaskView {
            program: "cargo"@,
            args: seq!["build"@],
            success: "Rust dependencies installed"@,
            exit_failure: None,
            launch_failure: "Build failed"@,
        }),
{
    let mut args: Vec<String> = Vec::new();
    args.push("build".to_owned());
    assert(texts(args@) =~= seq!["build"@]);
    Ok(task("cargo", args, "Rust dependencies installed".to_owned(), None, "Build failed"))
}

/// Adds a crate.
pub fn add_package(package: &str) -> (planned: Result<Task, String>)
    ensures
        planned matches Ok(task) && task@ == (TaskView {
            program: "cargo"@,
            args: seq!["add"@, package@],
            success: "Added crate: "@ + package@,
            exit_failure: None,
            launch_failure: "Failed to add crate"@,
        }),
{
    let mut args: Vec<String> = Vec::new();
    args.push("add".to_owned());
    args.push(package.to_owned());
    assert(texts(args@) =~= seq!["add"@, package@]);
    Ok(task("cargo", args, concat_str("Added crate: ", package), None, "Failed to add crate"))
}

/// Upgrades one crate, or all where none is named.
pub fn upgrade_package(package: Option<&str>) -> (planned: Result<Task, String>)
    ensures
        planned matches Ok(task) && task@ == (TaskView {
            program: "cargo"@,
            args: with_optional(
                seq!["upgrade"@],
                match package {
                    Some(name) => Some(name@),
                    None => None,
                },
            ),
            success: "Crates upgraded"@,
            exit_failure: None,
            launch_failure: "Upgrade failed"@,
        }),
{
    let mut args: Vec<String> = Vec::new();
    args.push("upgrade".to_owned());
    match package {
        Some(name) => {
            args.push(name.to_owned());
            assert(texts(args@) =~= seq!["upgrade"@].push(name@));
        },
        None => {
            assert(texts(args@) =~= seq!["upgrade"@]);
        },
    }
    Ok(task("cargo", args, "Crates upgraded".to_owned(), None, "Upgrade failed"))
}

/// Removes a crate.
pub fn remove_package(package: &str) -> (planned: Result<Task, String>)
    ensures
        planned matches Ok(task) && task@ == (TaskView {
            program: "cargo"@,
            args: seq!["remove"@, package@],
            success: "Removed crate: "@ + package@,
            exit_failure: None,
            launch_failure: "Remove failed"@,
        }),
{
    let mut args: Vec<String> = Vec::new();
    args.push("remove".to_owned());
    args.push(package.to_owned());
    assert(texts(args@) =~= seq!["remove"@, package@]);
    Ok(task("cargo", args, concat_str("Removed crate: ", package), None, "Remove failed"))
}

/// Shows the tree of dependencies.
pub fn analyze_dependencies() -> (planned: Result<Task, String>)
    ensures
        planned matches Ok(task) && task@ == (TaskView {
            program: "cargo"@,
            args: seq!["tree"@],
            success: "Dependencies analyzed"@,
            exit_failure: None,
            launch_failure: "Analyze failed"@,
        }),
{
    let mut args: Vec<String> = Vec::new();
    args.push("tree".to_owned());
    assert(texts(args@) =~= seq!["tree"@]);
    Ok(task("cargo", args, "Dependencies analyzed".to_owned(), None, "Analyze failed"))
}

} // verus!
