//! Copying a directory or a file.

use super::{single, FsAction, FsCommandExecute, PathFacts};
use crate::utils::error::{Error, ErrorView};
use vstd::prelude::*;

verus! {

#[derive(Debug)]
pub struct CopyArgs {
    /// The path to copy from.
    pub src: String,
    /// The path to copy to.
    pub dest: String,
    /// Whether a directory is copied with all that is in it.
    pub recursive: bool,
}

impl FsCommandExecute for CopyArgs {
    /// A source that does not exist is not found. A file is copied as a
    /// file. A directory is copied with its contents if the command is
    /// recursive, and is not found if it is not. For a source that is
    /// neither, nothing is done.
    open spec fn planned(&self, facts: PathFacts) -> Result<Seq<FsAction>, ErrorView> {
        if !facts.exists {
            Err(ErrorView::PathNotFound { path: self.src@ })
        } else if facts.is_file {
            Ok(seq![FsAction::CopyFile])
        } else if facts.is_dir {
            if self.recursive {
                Ok(seq![FsAction::CopyDirAll])
            } else {
                Err(ErrorView::PathNotFound { path: self.src@ })
            }
        } else {
            Ok(Seq::empty())
        }
    }

    fn execute(&self, facts: &PathFacts) -> (plan: Result<Vec<FsAction>, Error>) {
        if !facts.exists {
            return Err(Error::PathNotFound { path: self.src.clone() });
        }
        if facts.is_file {
            Ok(single(FsAction::CopyFile))
        } else if facts.is_dir {
            if !self.recursive {
                return Err(Error::PathNotFound { path: self.src.clone() });
            }
            Ok(single(FsAction::CopyDirAll))
        } else {
            Ok(Vec::new())
        }
    }
}

} // verus!
