//! Commands for JavaScript projects by their lock file, and for Python and
//! Rust projects: which process to launch, and what to report when it has
//! ended.

pub mod python;
pub mod rust;

use crate::pkgm::detect::path::{Listing, TreePath};
use crate::pkgm::helpers::LaunchOutcome;
use crate::pkgm::types::Invocation;
use crate::text::{concat_str, str_eq, texts};
use crate::utils::{error_message, is_error_line, is_success_line, success_message};
use vstd::prelude::*;
use vstd::string::*;

verus! {

/// One process to launch, with what is reported once it has ended.
#[derive(Debug)]
pub struct Task {
    pub launch: Invocation,
    /// Reported when the process has run to a good end.
    pub success: String,
    /// Reported when the process exits with a status other than zero. Where
    /// there is none, the exit status is not looked at.
    pub exit_failure: Option<String>,
    /// Reported, followed by the cause, when the process cannot be started.
    pub launch_failure: String,
}

/// A [`Task`] with its texts as character sequences.
pub struct TaskView {
    pub program: Seq<char>,
    pub args: Seq<Seq<char>>,
    pub success: Seq<char>,
    pub exit_failure: Option<Seq<char>>,
    pub launch_failure: Seq<char>,
}

impl View for Task {
    type V = TaskView;

    open spec fn view(&self) -> TaskView {
        TaskView {
            program: self.launch.program@,
            args: texts(self.launch.args@),
            success: self.success@,
            exit_failure: match self.exit_failure {
                Some(text) => Some(text@),
                None => None,
            },
            launch_failure: self.launch_failure@,
        }
    }
}

/// A plan or the line it is refused with, with the task as its view.
pub open spec fn planned_view(planned: Result<Task, String>) -> Result<TaskView, Seq<char>> {
    match planned {
        Ok(task) => Ok(task@),
        Err(line) => Err(line@),
    }
}

/// Puts a task together.
pub fn task(
    program: &str,
    args: Vec<String>,
    success: String,
    exit_failure: Option<&str>,
    launch_failure: &str,
) -> (task: Task)
    ensures
        task@ == (TaskView {
            program: program@,
            args: texts(args@),
            success: success@,
            exit_failure: match exit_failure {
                Some(text) => Some(text@),
                None => None,
            },
            launch_failure: launch_failure@,
        }),
{
    Task {
        launch: Invocation { program: program.to_owned(), args },
        success,
        exit_failure: match exit_failure {
            Some(text) => Some(text.to_owned()),
            None => None,
        },
        launch_failure: launch_failure.to_owned(),
    }
}

/// Whether a launch that ended so counts as a good end for a task: the
/// process ran and, where the task looks at the exit status, exited with
/// zero.
pub open spec fn good_end(task: TaskView, outcome: LaunchOutcome) -> bool {
    match outcome {
        LaunchOutcome::Skipped => true,
        LaunchOutcome::NotStarted { reason } => false,
        LaunchOutcome::Exited { code } => code == Some(0i32) || task.exit_failure is None,
    }
}

/// What is reported for a task whose launch has ended: the line of success,
/// or the line of the error.
pub fn finish_task(task: &Task, outcome: LaunchOutcome) -> (report: Result<String, String>)
    ensures
        match report {
            Ok(line) => good_end(task@, outcome) && is_success_line(line@, task@.success),
            Err(line) => !good_end(task@, outcome) && match outcome {
                LaunchOutcome::NotStarted { reason } => is_error_line(
                    line@,
                    task@.launch_failure + ": "@ + reason@,
                ),
                _ => task@.exit_failure matches Some(text) && is_error_line(line@, text),
            },
        },
{
    match outcome {
        LaunchOutcome::Skipped => Ok(success_message(task.success.as_str())),
        LaunchOutcome::NotStarted { reason } => {
            let mut msg = concat_str(task.launch_failure.as_str(), ": ");
            msg.append(reason.as_str());
            Err(error_message(msg.as_str()))
        },
        LaunchOutcome::Exited { code } => {
            let zero = match code {
                Some(c) => c == 0,
                None => false,
            };
            match &task.exit_failure {
                Some(text) => {
                    if zero {
                        Ok(success_message(task.success.as_str()))
                    } else {
                        Err(error_message(text.as_str()))
                    }
                },
                None => Ok(success_message(task.success.as_str())),
            }
        },
    }
}

/// The manager whose lock file lies in the directory. Where several lie
/// there, Bun comes before pnpm, pnpm before Yarn, and Yarn before npm.
pub open spec fn lock_manager(dir: Seq<Seq<char>>, files: Set<Seq<Seq<char>>>) -> Option<
    Seq<char>,
> {
    if files.contains(dir.push("bun.lockb"@)) {
        Some("bun"@)
    } else if files.contains(dir.push("pnpm-lock.yaml"@)) {
        Some("pnpm"@)
    } else if files.contains(dir.push("yarn.lock"@)) {
        Some("yarn"@)
    } else if files.contains(dir.push("package-lock.json"@)) {
        Some("npm"@)
    } else {
        None
    }
}

/// The manager that is used in a directory: that of its lock file, or npm
/// where there is none.
pub open spec fn manager_in(dir: Seq<Seq<char>>, files: Set<Seq<Seq<char>>>) -> Seq<char> {
    match lock_manager(dir, files) {
        Some(manager) => manager,
        None => "npm"@,
    }
}

/// The manager whose lock file lies in the current directory.
pub fn detect_manager(current_dir: &TreePath, files: &Listing) -> (manager: Option<&'static str>)
    ensures
        match manager {
            Some(name) => lock_manager(current_dir@, files@) == Some(name@),
            None => lock_manager(current_dir@, files@) is None,
        },
{
    if files.has(&current_dir.join("bun.lockb")) {
        Some("bun")
    } else if files.has(&current_dir.join("pnpm-lock.yaml")) {
        Some("pnpm")
    } else if files.has(&current_dir.join("yarn.lock")) {
        Some("yarn")
    } else if files.has(&current_dir.join("package-lock.json")) {
        Some("npm")
    } else {
        None
    }
}

fn manager_or_npm(current_dir: &TreePath, files: &Listing) -> (manager: &'static str)
    ensures
        manager@ == manager_in(current_dir@, files@),
{
    match detect_manager(current_dir, files) {
        Some(name) => name,
        None => "npm",
    }
}

/// What is asked of a manager.
pub enum Request {
    Install { frozen: bool },
    Add { package: Seq<char>, dev: bool },
    Upgrade { named: Option<Seq<char>> },
    Remove { package: Seq<char> },
    Analyze,
}

/// A word, and after it a package where one is named.
pub open spec fn with_package(word: Seq<char>, package: Option<Seq<char>>) -> Seq<Seq<char>> {
    match package {
        Some(name) => seq![word, name],
        None => seq![word],
    }
}

/// Some words, and after them a flag where it is set.
pub open spec fn with_flag(words: Seq<Seq<char>>, set: bool, flag: Seq<char>) -> Seq<Seq<char>> {
    if set {
        words.push(flag)
    } else {
        words
    }
}

/// The arguments that a manager is launched with for a request. npm and Bun
/// share their words; pnpm and Yarn have their own. A frozen install with
/// Yarn is the one argument `install --immutable`.
pub open spec fn words_for(manager: Seq<char>, request: Request) -> Option<Seq<Seq<char>>> {
    if manager == "npm"@ || manager == "bun"@ {
        Some(
            match request {
                Request::Install { frozen } => with_flag(
                    seq!["install"@],
                    frozen,
                    "--frozen-lockfile"@,
                ),
                Request::Add { package, dev } => with_flag(
                    seq!["install"@, package],
                    dev,
                    "--save-dev"@,
                ),
                Request::Upgrade { named } => with_package("install"@, named),
                Request::Remove { package } => seq!["uninstall"@, package],
                Request::Analyze => seq!["list"@],
            },
        )
    } else if manager == "pnpm"@ {
        Some(
            match request {
                Request::Install { frozen } => with_flag(
                    seq!["install"@],
                    frozen,
                    "--frozen-lockfile"@,
                ),
                Request::Add { package, dev } => with_flag(
                    seq!["add"@, package],
                    dev,
                    "--save-dev"@,
                ),
                Request::Upgrade { named } => with_package("upgrade"@, named),
                Request::Remove { package } => seq!["remove"@, package],
                Request::Analyze => seq!["list"@],
            },
        )
    } else if manager == "yarn"@ {
        Some(
            match request {
                Request::Install { frozen } => if frozen {
                    seq!["install --immutable"@]
                } else {
                    seq!["install"@]
                },
                Request::Add { package, dev } => with_flag(seq!["add"@, package], dev, "--dev"@),
                Request::Upgrade { named } => with_package("upgrade"@, named),
                Request::Remove { package } => seq!["remove"@, package],
                Request::Analyze => seq!["list"@],
            },
        )
    } else {
        None
    }
}

/// What is reported for a request that went well, and for one whose process
/// exited with another status than zero.
pub open spec fn reports_for(request: Request) -> (Seq<char>, Seq<char>) {
    match request {
        Request::Install { frozen } => (
            "Dependencies installed successfully"@,
            "Failed to install dependencies"@,
        ),
        Request::Add { package, dev } => ("Package added successfully"@, "Failed to add package"@),
        Request::Upgrade { named } => (
            "Package upgraded successfully"@,
            "Failed to upgrade package"@,
        ),
        Request::Remove { package } => (
            "Package removed successfully"@,
            "Failed to remove package"@,
        ),
        Request::Analyze => (
            "Dependencies analyzed successfully"@,
            "Failed to analyze dependencies"@,
        ),
    }
}

/// `planned` is the plan for a request with a manager: the task that
/// launches the manager with its words for the request, or, for a name that
/// is none of the four managers, the line that says so.
pub open spec fn is_plan_for(
    planned: Result<Task, String>,
    manager: Seq<char>,
    request: Request,
) -> bool {
    match words_for(manager, request) {
        Some(words) => planned matches Ok(task) && task@ == (TaskView {
            program: manager,
            args: words,
            success: reports_for(request).0,
            exit_failure: Some(reports_for(request).1),
            launch_failure: "Failed to execute command"@,
        }),
        None => planned matches Err(line) && is_error_line(line@, "Unsupported package manager"@),
    }
}

fn words(first: &str, second: Option<&str>, flag: Option<&str>) -> (words: Vec<String>)
    ensures
        texts(words@) == with_flag(
            with_package(
                first@,
                match second {
                    Some(s) => Some(s@),
                    None => None,
                },
            ),
            flag is Some,
            match flag {
                Some(f) => f@,
                None => Seq::empty(),
            },
        ),
{
    let mut words: Vec<String> = Vec::new();
    words.push(first.to_owned());
    match second {
        Some(s) => {
            words.push(s.to_owned());
        },
        None => {},
    }
    match flag {
        Some(f) => {
            words.push(f.to_owned());
        },
        None => {},
    }
    assert(texts(words@) =~= with_flag(
        with_package(
            first@,
            match second {
                Some(s) => Some(s@),
                None => None,
            },
        ),
        flag is Some,
        match flag {
            Some(f) => f@,
            None => Seq::empty(),
        },
    ));
    words
}

fn plan(manager: &str, args: Option<Vec<String>>, success: &str, failure: &str) -> (planned: Result<
    Task,
    String,
>)
    ensures
        match args {
            Some(words) => planned matches Ok(task) && task@ == (TaskView {
                program: manager@,
                args: texts(words@),
                success: success@,
                exit_failure: Some(failure@),
                launch_failure: "Failed to execute command"@,
            }),
            None => planned matches Err(line) && is_error_line(
                line@,
                "Unsupported package manager"@,
            ),
        },
{
    match args {
        Some(words) => Ok(
            task(manager, words, success.to_owned(), Some(failure), "Failed to execute command"),
        ),
        None => Err(error_message("Unsupported package manager")),
    }
}

/// Installs the dependencies of the project in the current directory. A
/// directory without `package.json` is refused.
pub fn install_dependencies(frozen: bool, current_dir: &TreePath, files: &Listing) -> (planned:
    Result<Task, String>)
    ensures
        if files@.contains(current_dir@.push("package.json"@)) {
            is_plan_for(
                planned,
                manager_in(current_dir@, files@),
                Request::Install { frozen },
            )
        } else {
            planned matches Err(line) && is_error_line(line@, "No package.json file found"@)
        },
{
    if !files.has(&current_dir.join("package.json")) {
        return Err(error_message("No package.json file found"));
    }
    let manager = manager_or_npm(current_dir, files);
    let flag = if frozen {
        Some("--frozen-lockfile")
    } else {
        None
    };
    let args = if str_eq(manager, "npm") || str_eq(manager, "bun") {
        Some(words("install", None, flag))
    } else if str_eq(manager, "pnpm") {
        Some(words("install", None, flag))
    } else if str_eq(manager, "yarn") {
        if frozen {
            Some(words("install --immutable", None, None))
        } else {
            Some(words("install", None, None))
        }
    } else {
        None
    };
    plan(manager, args, "Dependencies installed successfully", "Failed to install dependencies")
}

/// Adds a package, as a development dependency where `dev` is set.
pub fn add_package(package: &str, dev: bool, current_dir: &TreePath, files: &Listing) -> (planned:
    Result<Task, String>)
    ensures
        is_plan_for(
            planned,
            manager_in(current_dir@, files@),
            Request::Add { package: package@, dev },
        ),
{
    let manager = manager_or_npm(current_dir, files);
    let args = if str_eq(manager, "npm") || str_eq(manager, "bun") {
        Some(
            words(
                "install",
                Some(package),
                if dev {
                    Some("--save-dev")
                } else {
                    None
                },
            ),
        )
    } else if str_eq(manager, "pnpm") {
        Some(
            words(
                "add",
                Some(package),
                if dev {
                    Some("--save-dev")
                } else {
                    None
                },
            ),
        )
    } else if str_eq(manager, "yarn") {
        Some(
            words(
                "add",
                Some(package),
                if dev {
                    Some("--dev")
                } else {
                    None
                },
            ),
        )
    } else {
        None
    };
    plan(manager, args, "Package added successfully", "Failed to add package")
}

/// Upgrades one package, or all where none is named.
pub fn upgrade_package(package: Option<&str>, current_dir: &TreePath, files: &Listing) -> (planned:
    Result<Task, String>)
    ensures
        is_plan_for(
            planned,
            manager_in(current_dir@, files@),
            Request::Upgrade {
                named: match package {
                    Some(name) => Some(name@),
                    None => None,
                },
            },
        ),
{
    let manager = manager_or_npm(current_dir, files);
    let args = if str_eq(manager, "npm") || str_eq(manager, "bun") {
        Some(words("install", package, None))
    } else if str_eq(manager, "pnpm") {
        Some(words("upgrade", package, None))
    } else if str_eq(manager, "yarn") {
        Some(words("upgrade", package, None))
    } else {
        None
    };
    plan(manager, args, "Package upgraded successfully", "Failed to upgrade package")
}

/// Removes a package.
pub fn remove_package(package: &str, current_dir: &TreePath, files: &Listing) -> (planned: Result<
    Task,
    String,
>)
    ensures
        is_plan_for(
            planned,
            manager_in(current_dir@, files@),
            Request::Remove { package: package@ },
        ),
{
    let manager = manager_or_npm(current_dir, files);
    let args = if str_eq(manager, "npm") || str_eq(manager, "bun") {
        Some(words("uninstall", Some(package), None))
    } else if str_eq(manager, "pnpm") {
        Some(words("remove", Some(package), None))
    } else if str_eq(manager, "yarn") {
        Some(words("remove", Some(package), None))
    } else {
        None
    };
    plan(manager, args, "Package removed successfully", "Failed to remove package")
}

/// Lists the dependencies.
pub fn analyze_dependencies(current_dir: &TreePath, files: &Listing) -> (planned: Result<
    Task,
    String,
>)
    ensures
        is_plan_for(planned, manager_in(current_dir@, files@), Request::Analyze),
{
    let manager = manager_or_npm(current_dir, files);
    let args = if str_eq(manager, "npm") || str_eq(manager, "bun") {
        Some(words("list", None, None))
    } else if str_eq(manager, "pnpm") {
        Some(words("list", None, None))
    } else if str_eq(manager, "yarn") {
        Some(words("list", None, None))
    } else {
        None
    };
    plan(manager, args, "Dependencies analyzed successfully", "Failed to analyze dependencies")
}

} // verus!
