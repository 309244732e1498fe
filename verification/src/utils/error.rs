//! The one error type of the library, and the text each error is shown with.

use crate::text::{concat_str, decimal, int_to_string};
use vstd::prelude::*;
use vstd::string::*;

verus! {

/// Everything that can go wrong between a request and the end of the tool's
/// process. Paths and underlying causes are kept as text.
#[derive(Debug)]
pub enum Error {
    /// No detection rule matched anywhere up the directory tree.
    ManagerNotDetected,
    /// A manager was asked for that is not registered.
    UnsupportedManager { name: String },
    /// The tool ran and exited with a status other than zero.
    CommandFailed { command: String, code: i32 },
    /// The tool's process could not be started.
    ManagerNotInstalled { manager: String, source: String },
    ConfigReadFailed { path: String, source: String },
    ConfigParseFailed { path: String, source: String },
    /// A package identifier failed the sanity checks.
    InvalidPackageName { name: String },
    /// The listing of a tool held no entry that could be read.
    NoDependenciesParsed { manager: String },
    CurrentDirFailed { source: String },
    IoError { path: String, source: String },
    CreateDirFailed { path: String, source: String },
    CreateFileFailed { path: String, source: String },
    RemoveFailed { path: String, source: String },
    CopyFailed { from: String, to: String, source: String },
    MoveFailed { from: String, to: String, source: String },
    PathNotFound { path: String },
}

/// An [`Error`] with its texts as character sequences.
pub enum ErrorView {
    ManagerNotDetected,
    UnsupportedManager { name: Seq<char> },
    CommandFailed { command: Seq<char>, code: i32 },
    ManagerNotInstalled { manager: Seq<char>, source: Seq<char> },
    ConfigReadFailed { path: Seq<char>, source: Seq<char> },
    ConfigParseFailed { path: Seq<char>, source: Seq<char> },
    InvalidPackageName { name: Seq<char> },
    NoDependenciesParsed { manager: Seq<char> },
    CurrentDirFailed { source: Seq<char> },
    IoError { path: Seq<char>, source: Seq<char> },
    CreateDirFailed { path: Seq<char>, source: Seq<char> },
    CreateFileFailed { path: Seq<char>, source: Seq<char> },
    RemoveFailed { path: Seq<char>, source: Seq<char> },
    CopyFailed { from: Seq<char>, to: Seq<char>, source: Seq<char> },
    MoveFailed { from: Seq<char>, to: Seq<char>, source: Seq<char> },
    PathNotFound { path: Seq<char> },
}

impl View for Error {
    type V = ErrorView;

    open spec fn view(&self) -> ErrorView {
        match *self {
            Error::ManagerNotDetected => ErrorView::ManagerNotDetected,
            Error::UnsupportedManager { name } => ErrorView::UnsupportedManager { name: name@ },
            Error::CommandFailed { command, code } => ErrorView::CommandFailed {
                command: command@,
                code,
            },
            Error::ManagerNotInstalled { manager, source } => ErrorView::ManagerNotInstalled {
                manager: manager@,
                source: source@,
            },
            Error::ConfigReadFailed { path, source } => ErrorView::ConfigReadFailed {
                path: path@,
                source: source@,
            },
            Error::ConfigParseFailed { path, source } => ErrorView::ConfigParseFailed {
                path: path@,
                source: source@,
            },
            Error::InvalidPackageName { name } => ErrorView::InvalidPackageName { name: name@ },
            Error::NoDependenciesParsed { manager } => ErrorView::NoDependenciesParsed {
                manager: manager@,
            },
            Error::CurrentDirFailed { source } => ErrorView::CurrentDirFailed { source: source@ },
            Error::IoError { path, source } => ErrorView::IoError { path: path@, source: source@ },
            Error::CreateDirFailed { path, source } => ErrorView::CreateDirFailed {
                path: path@,
                source: source@,
            },
            Error::CreateFileFailed { path, source } => ErrorView::CreateFileFailed {
                path: path@,
                source: source@,
            },
            Error::RemoveFailed { path, source } => ErrorView::RemoveFailed {
                path: path@,
                source: source@,
            },
            Error::CopyFailed { from, to, source } => ErrorView::CopyFailed {
                from: from@,
                to: to@,
                source: source@,
            },
            Error::MoveFailed { from, to, source } => ErrorView::MoveFailed {
                from: from@,
                to: to@,
                source: source@,
            },
            Error::PathNotFound { path } => ErrorView::PathNotFound { path: path@ },
        }
    }
}

/// The line an error is reported with.
pub open spec fn message_of(e: ErrorView) -> Seq<char> {
    match e {
        ErrorView::ManagerNotDetected => "Package manager not detected in current directory"@,
        ErrorView::UnsupportedManager { name } => "Unsupported package manager: "@ + name,
        ErrorView::CommandFailed { command, code } => "Command execution failed: "@ + command
            + " (exit code: "@ + decimal(code as int) + ")"@,
        ErrorView::ManagerNotInstalled { manager, source } => "Package manager '"@ + manager
            + "' not found. Please install it first"@,
        ErrorView::ConfigReadFailed { path, source } => "Failed to read config file at "@ + path
            + ": "@ + source,
        ErrorView::ConfigParseFailed { path, source } => "Failed to parse config file at "@ + path
            + ": "@ + source,
        ErrorView::InvalidPackageName { name } => "Invalid package name: "@ + name,
        ErrorView::NoDependenciesParsed { manager } => "No dependencies parsed from the output of "@
            + manager,
        ErrorView::CurrentDirFailed { source } => "Failed to get current directory: "@ + source,
        ErrorView::IoError { path, source } => "I/O error at "@ + path + ": "@ + source,
        ErrorView::CreateDirFailed { path, source } => "Failed to create directory at "@ + path
            + ": "@ + source,
        ErrorView::CreateFileFailed { path, source } => "Failed to create file at "@ + path + ": "@
            + source,
        ErrorView::RemoveFailed { path, source } => "Failed to remove path at "@ + path + ": "@
            + source,
        ErrorView::CopyFailed { from, to, source } => "Failed to copy from "@ + from + " to "@ + to
            + ": "@ + source,
        ErrorView::MoveFailed { from, to, source } => "Failed to move from "@ + from + " to "@ + to
            + ": "@ + source,
        ErrorView::PathNotFound { path } => "Path not found: "@ + path,
    }
}

fn at_path(lead: &str, path: &str, source: &str) -> (line: String)
    ensures
        line@ == lead@ + path@ + ": "@ + source@,
{
    let mut line = concat_str(lead, path);
    line.append(": ");
    line.append(source);
    line
}

fn between(lead: &str, from: &str, to: &str, source: &str) -> (line: String)
    ensures
        line@ == lead@ + from@ + " to "@ + to@ + ": "@ + source@,
{
    let mut line = concat_str(lead, from);
    line.append(" to ");
    line.append(to);
    line.append(": ");
    line.append(source);
    line
}

impl Error {
    /// The line this error is reported with.
    pub fn message(&self) -> (line: String)
        ensures
            line@ == message_of(self@),
    {
        match self {
            Error::ManagerNotDetected => "Package manager not detected in current directory"
                .to_owned(),
            Error::UnsupportedManager { name } => concat_str(
                "Unsupported package manager: ",
                name.as_str(),
            ),
            Error::CommandFailed { command, code } => {
                let mut line = concat_str("Command execution failed: ", command.as_str());
                line.append(" (exit code: ");
                let digits = int_to_string(*code);
                line.append(digits.as_str());
                line.append(")");
                line
            },
            Error::ManagerNotInstalled { manager, source } => {
                let mut line = concat_str("Package manager '", manager.as_str());
                line.append("' not found. Please install it first");
                line
            },
            Error::ConfigReadFailed { path, source } => at_path(
                "Failed to read config file at ",
                path.as_str(),
                source.as_str(),
            ),
            Error::ConfigParseFailed { path, source } => at_path(
                "Failed to parse config file at ",
                path.as_str(),
                source.as_str(),
            ),
            Error::InvalidPackageName { name } => concat_str("Invalid package name: ", name.as_str()),
            Error::NoDependenciesParsed { manager } => concat_str(
                "No dependencies parsed from the output of ",
                manager.as_str(),
            ),
            Error::CurrentDirFailed { source } => concat_str(
                "Failed to get current directory: ",
                source.as_str(),
            ),
            Error::IoError { path, source } => at_path(
                "I/O error at ",
                path.as_str(),
                source.as_str(),
            ),
            Error::CreateDirFailed { path, source } => at_path(
                "Failed to create directory at ",
                path.as_str(),
                source.as_str(),
            ),
            Error::CreateFileFailed { path, source } => at_path(
                "Failed to create file at ",
                path.as_str(),
                source.as_str(),
            ),
            Error::RemoveFailed { path, source } => at_path(
                "Failed to remove path at ",
                path.as_str(),
                source.as_str(),
            ),
            Error::CopyFailed { from, to, source } => between(
                "Failed to copy from ",
                from.as_str(),
                to.as_str(),
                source.as_str(),
            ),
            Error::MoveFailed { from, to, source } => between(
                "Failed to move from ",
                from.as_str(),
                to.as_str(),
                source.as_str(),
            ),
            Error::PathNotFound { path } => concat_str("Path not found: ", path.as_str()),
        }
    }
}

} // verus!
