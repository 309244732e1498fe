//! Renaming a directory or a file.

use super::{single, FsAction, FsCommandExecute, PathFacts};
use crate::utils::error::{Error, ErrorView};
use vstd::prelude::*;

verus! {

#[derive(Debug)]
pub struct RenameArgs {
    /// The path to move from.
    pub src: String,
    /// The path to move to.
    pub dest: String,
}

impl FsCommandExecute for RenameArgs {
    /// The source is renamed to the destination, whatever is known of it.
    open spec fn planned(&self, facts: PathFacts) -> Result<Seq<FsAction>, ErrorView> {
        Ok(seq![FsAction::Rename])
    }

    fn execute(&self, facts: &PathFacts) -> (plan: Result<Vec<FsAction>, Error>) {
        Ok(single(FsAction::Rename))
    }
}

} // verus!
