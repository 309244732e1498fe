use mg::package_manager::{
    add_package, analyze_dependencies, detect_manager, finish_task, install_dependencies,
    remove_package, task, upgrade_package, Task,
};
use mg::package_manager::python;
use mg::package_manager::rust;
use mg::pkgm::detect::path::{Listing, TreePath};
use mg::pkgm::helpers::LaunchOutcome;

fn path(parts: &[&str]) -> TreePath {
    TreePath::new(parts.iter().map(|p| p.to_string()).collect())
}

fn dir() -> TreePath {
    path(&["app"])
}

fn files(names: &[&str]) -> Listing {
    Listing::new(names.iter().map(|n| path(&["app", n])).collect())
}

fn plain() {
    colored::control::set_override(false);
}

fn launched(task: &Task) -> (String, Vec<String>) {
    (task.launch.program.clone(), task.launch.args.clone())
}

fn expect(task: &Task, program: &str, args: &[&str]) {
    let (p, a) = launched(task);
    assert_eq!(p, program);
    assert_eq!(a, args);
}

#[test]
fn lock_files_name_their_manager_in_order() {
    assert_eq!(detect_manager(&dir(), &files(&[])), None);
    assert_eq!(detect_manager(&dir(), &files(&["package-lock.json"])), Some("npm"));
    assert_eq!(detect_manager(&dir(), &files(&["package-lock.json", "yarn.lock"])), Some("yarn"));
    assert_eq!(
        detect_manager(&dir(), &files(&["yarn.lock", "pnpm-lock.yaml", "package-lock.json"])),
        Some("pnpm")
    );
    assert_eq!(
        detect_manager(&dir(), &files(&["yarn.lock", "pnpm-lock.yaml", "bun.lockb"])),
        Some("bun")
    );
    // A lock file above the directory does not count here.
    assert_eq!(detect_manager(&path(&["app", "sub"]), &files(&["yarn.lock"])), None);
}

#[test]
fn install_needs_a_package_json() {
    plain();
    assert_eq!(
        install_dependencies(false, &dir(), &files(&["yarn.lock"])).unwrap_err(),
        "❌ No package.json file found "
    );
}

#[test]
fn install_by_manager() {
    let t = install_dependencies(false, &dir(), &files(&["package.json"])).unwrap();
    expect(&t, "npm", &["install"]);
    assert_eq!(t.success, "Dependencies installed successfully");
    assert_eq!(t.exit_failure.as_deref(), Some("Failed to install dependencies"));
    assert_eq!(t.launch_failure, "Failed to execute command");
    let t = install_dependencies(true, &dir(), &files(&["package.json"])).unwrap();
    expect(&t, "npm", &["install", "--frozen-lockfile"]);
    let t = install_dependencies(true, &dir(), &files(&["package.json", "bun.lockb"])).unwrap();
    expect(&t, "bun", &["install", "--frozen-lockfile"]);
    let t = install_dependencies(true, &dir(), &files(&["package.json", "pnpm-lock.yaml"])).unwrap();
    expect(&t, "pnpm", &["install", "--frozen-lockfile"]);
    let t = install_dependencies(false, &dir(), &files(&["package.json", "yarn.lock"])).unwrap();
    expect(&t, "yarn", &["install"]);
    let t = install_dependencies(true, &dir(), &files(&["package.json", "yarn.lock"])).unwrap();
    expect(&t, "yarn", &["install --immutable"]);
}

#[test]
fn add_by_manager() {
    let t = add_package("zod", false, &dir(), &files(&[])).unwrap();
    expect(&t, "npm", &["install", "zod"]);
    assert_eq!(t.success, "Package added successfully");
    assert_eq!(t.exit_failure.as_deref(), Some("Failed to add package"));
    let t = add_package("zod", true, &dir(), &files(&["bun.lockb"])).unwrap();
    expect(&t, "bun", &["install", "zod", "--save-dev"]);
    let t = add_package("zod", true, &dir(), &files(&["pnpm-lock.yaml"])).unwrap();
    expect(&t, "pnpm", &["add", "zod", "--save-dev"]);
    let t = add_package("zod", false, &dir(), &files(&["pnpm-lock.yaml"])).unwrap();
    expect(&t, "pnpm", &["add", "zod"]);
    let t = add_package("zod", true, &dir(), &files(&["yarn.lock"])).unwrap();
    expect(&t, "yarn", &["add", "zod", "--dev"]);
}

#[test]
fn upgrade_by_manager() {
    let t = upgrade_package(None, &dir(), &files(&["package-lock.json"])).unwrap();
    expect(&t, "npm", &["install"]);
    assert_eq!(t.success, "Package upgraded successfully");
    assert_eq!(t.exit_failure.as_deref(), Some("Failed to upgrade package"));
    let t = upgrade_package(Some("zod"), &dir(), &files(&["bun.lockb"])).unwrap();
    expect(&t, "bun", &["install", "zod"]);
    let t = upgrade_package(Some("zod"), &dir(), &files(&["pnpm-lock.yaml"])).unwrap();
    expect(&t, "pnpm", &["upgrade", "zod"]);
    let t = upgrade_package(None, &dir(), &files(&["yarn.lock"])).unwrap();
    expect(&t, "yarn", &["upgrade"]);
}

#[test]
fn remove_and_analyze_by_manager() {
    let t = remove_package("zod", &dir(), &files(&[])).unwrap();
    expect(&t, "npm", &["uninstall", "zod"]);
    assert_eq!(t.success, "Package removed successfully");
    assert_eq!(t.exit_failure.as_deref(), Some("Failed to remove package"));
    let t = remove_package("zod", &dir(), &files(&["bun.lockb"])).unwrap();
    expect(&t, "bun", &["uninstall", "zod"]);
    let t = remove_package("zod", &dir(), &files(&["pnpm-lock.yaml"])).unwrap();
    expect(&t, "pnpm", &["remove", "zod"]);
    let t = remove_package("zod", &dir(), &files(&["yarn.lock"])).unwrap();
    expect(&t, "yarn", &["remove", "zod"]);
    for lock in ["bun.lockb", "pnpm-lock.yaml", "yarn.lock", "package-lock.json"] {
        let t = analyze_dependencies(&dir(), &files(&[lock])).unwrap();
        assert_eq!(t.launch.args, vec!["list"]);
        assert_eq!(t.success, "Dependencies analyzed successfully");
        assert_eq!(t.exit_failure.as_deref(), Some("Failed to analyze dependencies"));
    }
}

#[test]
fn a_task_is_finished_by_its_outcome() {
    plain();
    let t = add_package("zod", false, &dir(), &files(&[])).unwrap();
    assert_eq!(
        finish_task(&t, LaunchOutcome::Exited { code: Some(0) }).unwrap(),
        "✅ Package added successfully"
    );
    assert_eq!(
        finish_task(&t, LaunchOutcome::Exited { code: Some(2) }).unwrap_err(),
        "❌ Failed to add package "
    );
    assert_eq!(
        finish_task(&t, LaunchOutcome::Exited { code: None }).unwrap_err(),
        "❌ Failed to add package "
    );
    assert_eq!(
        finish_task(&t, LaunchOutcome::NotStarted { reason: "not found".to_string() }).unwrap_err(),
        "❌ Failed to execute command: not found "
    );
    assert_eq!(finish_task(&t, LaunchOutcome::Skipped).unwrap(), "✅ Package added successfully");
}

#[test]
fn a_task_without_exit_failure_does_not_look_at_the_status() {
    plain();
    let t = task("cargo", vec!["tree".to_string()], "Seen".to_string(), None, "Not seen");
    assert_eq!(finish_task(&t, LaunchOutcome::Exited { code: Some(7) }).unwrap(), "✅ Seen");
    assert_eq!(
        finish_task(&t, LaunchOutcome::NotStarted { reason: "gone".to_string() }).unwrap_err(),
        "❌ Not seen: gone "
    );
}

#[test]
fn python_tasks() {
    plain();
    let t = python::install().unwrap();
    expect(&t, "pip", &["install", "-r", "requirements.txt"]);
    assert_eq!(t.success, "Python dependencies installed");
    assert_eq!(t.exit_failure.as_deref(), Some("Installation failed"));
    assert_eq!(t.launch_failure, "Failed to install");
    let t = python::add_package("requests", false).unwrap();
    expect(&t, "pip", &["install", "requests"]);
    assert_eq!(t.success, "Added package: requests");
    assert_eq!(t.exit_failure, None);
    assert_eq!(t.launch_failure, "Failed to add package");
    assert_eq!(
        python::add_package("requests", true).unwrap_err(),
        "❌ Python dev dependencies require manual handling "
    );
    let t = python::upgrade_package(Some("requests")).unwrap();
    expect(&t, "pip", &["install", "--upgrade", "requests"]);
    assert_eq!((t.success.as_str(), t.launch_failure.as_str()), ("Packages upgraded", "Upgrade failed"));
    let t = python::upgrade_package(None).unwrap();
    expect(&t, "pip", &["install", "--upgrade"]);
    let t = python::remove_package("requests").unwrap();
    expect(&t, "pip", &["uninstall", "requests"]);
    assert_eq!((t.success.as_str(), t.launch_failure.as_str()), (
        "Removed package: requests",
        "Remove failed"
    ));
    let t = python::analyze_dependencies().unwrap();
    expect(&t, "pip", &["list"]);
    assert_eq!((t.success.as_str(), t.launch_failure.as_str()), (
        "Dependencies analyzed",
        "Analyze failed"
    ));
}

#[test]
fn rust_tasks() {
    let t = rust::install().unwrap();
    expect(&t, "cargo", &["build"]);
    assert_eq!((t.success.as_str(), t.launch_failure.as_str()), (
        "Rust dependencies installed",
        "Build failed"
    ));
    assert_eq!(t.exit_failure, None);
    let t = rust::add_package("serde").unwrap();
    expect(&t, "cargo", &["add", "serde"]);
    assert_eq!((t.success.as_str(), t.launch_failure.as_str()), (
        "Added crate: serde",
        "Failed to add crate"
    ));
    let t = rust::upgrade_package(None).unwrap();
    expect(&t, "cargo", &["upgrade"]);
    let t = rust::upgrade_package(Some("serde")).unwrap();
    expect(&t, "cargo", &["upgrade", "serde"]);
    assert_eq!((t.success.as_str(), t.launch_failure.as_str()), ("Crates upgraded", "Upgrade failed"));
    let t = rust::remove_package("serde").unwrap();
    expect(&t, "cargo", &["remove", "serde"]);
    assert_eq!((t.success.as_str(), t.launch_failure.as_str()), (
        "Removed crate: serde",
        "Remove failed"
    ));
    let t = rust::analyze_dependencies().unwrap();
    expect(&t, "cargo", &["tree"]);
    assert_eq!((t.success.as_str(), t.launch_failure.as_str()), (
        "Dependencies analyzed",
        "Analyze failed"
    ));
}
