//! Creating a directory or a file.

use super::{single, FsAction, FsCommandExecute, PathFacts};
use crate::text::ends_with;
use crate::utils::error::{Error, ErrorView};
use vstd::prelude::*;

verus! {

#[derive(Debug)]
pub struct CreateArgs {
    /// The path to create.
    pub path: String,
    /// Whether the directories above a file are created with it.
    pub recursive: bool,
}

impl FsCommandExecute for CreateArgs {
    /// A path that ends with the separator, or that is a directory already,
    /// is created as a directory. Any other path is created as a file, after
    /// its parent where that is missing and the command is recursive.
    open spec fn planned(&self, facts: PathFacts) -> Result<Seq<FsAction>, ErrorView> {
        if (self.path@.len() > 0 && self.path@.last() == facts.separator) || facts.is_dir {
            Ok(seq![FsAction::CreateDirAll])
        } else if facts.parent_exists == Some(false) && self.recursive {
            Ok(seq![FsAction::CreateParentDirs, FsAction::CreateFile])
        } else {
            Ok(seq![FsAction::CreateFile])
        }
    }

    fn execute(&self, facts: &PathFacts) -> (plan: Result<Vec<FsAction>, Error>) {
        if ends_with(self.path.as_str(), facts.separator) || facts.is_dir {
            Ok(single(FsAction::CreateDirAll))
        } else {
            let mut actions: Vec<FsAction> = Vec::new();
            let parent_missing = match facts.parent_exists {
                Some(exists) => !exists,
                None => false,
            };
            if parent_missing && self.recursive {
                actions.push(FsAction::CreateParentDirs);
            }
            actions.push(FsAction::CreateFile);
            proof {
                if facts.parent_exists == Some(false) && self.recursive {
                    assert(actions@ =~= seq![FsAction::CreateParentDirs, FsAction::CreateFile]);
                } else {
                    assert(actions@ =~= seq![FsAction::CreateFile]);
                }
            }
            Ok(actions)
        }
    }
}

} // verus!
