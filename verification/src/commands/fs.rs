//! The commands on files and directories. Each one decides, from what is
//! known of its path, which operations are to be carried out; carrying them
//! out is left to the caller.

pub mod copy;
pub mod create;
pub mod moves;
pub mod remove;
pub mod rename;

use crate::utils::error::{Error, ErrorView};
use vstd::prelude::*;

verus! {

/// What the file system says of the path a command works on: for a copy,
/// its source.
#[derive(Debug, Clone, Copy)]
pub struct PathFacts {
    pub exists: bool,
    pub is_file: bool,
    pub is_dir: bool,
    /// Whether the parent exists, for a path that has a parent.
    pub parent_exists: Option<bool>,
    /// The character that separates the components of a path here.
    pub separator: char,
}

/// One operation on the file system. The paths are those of the command
/// that asks for it.
#[derive(Debug, Clone, Copy, PartialEq, Eq, Structural)]
pub enum FsAction {
    /// Create the path as a directory, with the directories above it.
    CreateDirAll,
    /// Create the path as a directory below a parent that exists.
    CreateDir,
    /// Create the parent of the path, with the directories above it.
    CreateParentDirs,
    /// Create the path as an empty file.
    CreateFile,
    /// Remove the directory with all that is in it.
    RemoveDirAll,
    /// Remove the directory, which must be empty.
    RemoveDir,
    RemoveFile,
    /// Copy the source file to the destination.
    CopyFile,
    /// Copy the source directory, with all that is in it, to the destination.
    CopyDirAll,
    /// Read what a directory holds, in the course of copying it.
    ReadDir,
    /// Rename the source to the destination.
    Rename,
}

/// The error that an operation fails with. `path` is the path worked on,
/// which for a copy and a rename is the source and for the creation of a
/// parent is that parent; `dest` is the destination of a copy or a rename;
/// `source` is what the file system reported. A directory that cannot be
/// read while it is copied is reported like one that cannot be created.
pub open spec fn failure_of(
    action: FsAction,
    path: Seq<char>,
    dest: Seq<char>,
    source: Seq<char>,
) -> ErrorView {
    match action {
        FsAction::CreateDirAll => ErrorView::CreateDirFailed { path, source },
        FsAction::CreateDir => ErrorView::CreateDirFailed { path, source },
        FsAction::ReadDir => ErrorView::CreateDirFailed { path, source },
        FsAction::CreateParentDirs => ErrorView::CreateDirFailed { path, source },
        FsAction::CreateFile => ErrorView::CreateFileFailed { path, source },
        FsAction::RemoveDirAll => ErrorView::RemoveFailed { path, source },
        FsAction::RemoveDir => ErrorView::RemoveFailed { path, source },
        FsAction::RemoveFile => ErrorView::RemoveFailed { path, source },
        FsAction::CopyFile => ErrorView::CopyFailed { from: path, to: dest, source },
        FsAction::CopyDirAll => ErrorView::CopyFailed { from: path, to: dest, source },
        FsAction::Rename => ErrorView::MoveFailed { from: path, to: dest, source },
    }
}

impl FsAction {
    /// The error that this operation fails with.
    pub fn failure(&self, path: &str, dest: &str, source: String) -> (error: Error)
        ensures
            error@ == failure_of(*self, path@, dest@, source@),
    {
        match self {
            FsAction::CreateDirAll => Error::CreateDirFailed { path: path.to_owned(), source },
            FsAction::CreateDir => Error::CreateDirFailed { path: path.to_owned(), source },
            FsAction::ReadDir => Error::CreateDirFailed { path: path.to_owned(), source },
            FsAction::CreateParentDirs => Error::CreateDirFailed { path: path.to_owned(), source },
            FsAction::CreateFile => Error::CreateFileFailed { path: path.to_owned(), source },
            FsAction::RemoveDirAll => Error::RemoveFailed { path: path.to_owned(), source },
            FsAction::RemoveDir => Error::RemoveFailed { path: path.to_owned(), source },
            FsAction::RemoveFile => Error::RemoveFailed { path: path.to_owned(), source },
            FsAction::CopyFile => Error::CopyFailed {
                from: path.to_owned(),
                to: dest.to_owned(),
                source,
            },
            FsAction::CopyDirAll => Error::CopyFailed {
                from: path.to_owned(),
                to: dest.to_owned(),
                source,
            },
            FsAction::Rename => Error::MoveFailed {
                from: path.to_owned(),
                to: dest.to_owned(),
                source,
            },
        }
    }
}

/// A plan or an error, with the texts of the error as character sequences.
pub open spec fn plan_view(plan: Result<Vec<FsAction>, Error>) -> Result<Seq<FsAction>, ErrorView> {
    match plan {
        Ok(actions) => Ok(actions@),
        Err(e) => Err(e@),
    }
}

/// A command on files: what it asks for, given what is known of its path.
pub trait FsCommandExecute {
    /// The operations this command asks for, in order, or the error it ends
    /// with before anything is done.
    spec fn planned(&self, facts: PathFacts) -> Result<Seq<FsAction>, ErrorView>;

    fn execute(&self, facts: &PathFacts) -> (plan: Result<Vec<FsAction>, Error>)
        ensures
            plan_view(plan) == self.planned(*facts),
    ;
}

/// The commands on files and directories.
#[derive(Debug)]
pub enum FsCommand {
    /// Create a directory or a file.
    Create(create::CreateArgs),
    /// Remove a directory or a file.
    Remove(remove::RemoveArgs),
    /// Copy a directory or a file.
    Copy(copy::CopyArgs),
    /// Move or rename a directory or a file.
    Moves(moves::MoveArgs),
}

impl FsCommand {
    /// The operations the command asks for.
    pub open spec fn planned(&self, facts: PathFacts) -> Result<Seq<FsAction>, ErrorView> {
        match *self {
            FsCommand::Create(cmd) => cmd.planned(facts),
            FsCommand::Remove(cmd) => cmd.planned(facts),
            FsCommand::Copy(cmd) => cmd.planned(facts),
            FsCommand::Moves(cmd) => cmd.planned(facts),
        }
    }

    pub fn execute(&self, facts: &PathFacts) -> (plan: Result<Vec<FsAction>, Error>)
        ensures
            plan_view(plan) == self.planned(*facts),
    {
        match self {
            FsCommand::Create(cmd) => cmd.execute(facts),
            FsCommand::Remove(cmd) => cmd.execute(facts),
            FsCommand::Copy(cmd) => cmd.execute(facts),
            FsCommand::Moves(cmd) => cmd.execute(facts),
        }
    }
}

/// How an entry of a directory is copied: a directory with all that is in
/// it, anything else as a file.
pub fn copy_entry(is_dir: bool) -> (action: FsAction)
    ensures
        action == if is_dir {
            FsAction::CopyDirAll
        } else {
            FsAction::CopyFile
        },
{
    if is_dir {
        FsAction::CopyDirAll
    } else {
        FsAction::CopyFile
    }
}

/// A list of one operation.
pub fn single(action: FsAction) -> (actions: Vec<FsAction>)
    ensures
        actions@ == seq![action],
{
    let mut actions: Vec<FsAction> = Vec::new();
    actions.push(action);
    actions
}

} // verus!
