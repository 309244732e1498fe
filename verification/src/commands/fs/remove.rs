//! Removing a directory or a file.

use super::{single, FsAction, FsCommandExecute, PathFacts};
use crate::utils::error::{Error, ErrorView};
use vstd::prelude::*;

verus! {

#[derive(Debug)]
pub struct RemoveArgs {
    /// The path to remove.
    pub path: String,
    /// Whether a directory is removed with all that is in it.
    pub recursive: bool,
}

impl FsCommandExecute for RemoveArgs {
    /// A path that does not exist is not found. A directory is removed with
    /// its contents if the command is recursive, and else only if it is
    /// empty; anything else is removed as a file.
    open spec fn planned(&self, facts: PathFacts) -> Result<Seq<FsAction>, ErrorView> {
        if !facts.exists {
            Err(ErrorView::PathNotFound { path: self.path@ })
        } else if facts.is_dir {
            if self.recursive {
                Ok(seq![FsAction::RemoveDirAll])
            } else {
                Ok(seq![FsAction::RemoveDir])
            }
        } else {
            Ok(seq![FsAction::RemoveFile])
        }
    }

    fn execute(&self, facts: &PathFacts) -> (plan: Result<Vec<FsAction>, Error>) {
        if !facts.exists {
            return Err(Error::PathNotFound { path: self.path.clone() });
        }
        if facts.is_dir {
            if self.recursive {
                Ok(single(FsAction::RemoveDirAll))
            } else {
                Ok(single(FsAction::RemoveDir))
            }
        } else {
            Ok(single(FsAction::RemoveFile))
        }
    }
}

} // verus!
