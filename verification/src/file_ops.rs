//! Plain operations on directories and files: which operation a request
//! comes to, and the lines that report how it went.

use crate::commands::fs::FsAction;
use crate::text::concat_str;
use crate::utils::{error_message, is_error_line, is_success_line, success_message};
use vstd::prelude::*;
use vstd::string::*;

verus! {

/// Creating a directory: with the directories above it if `parents` is set.
pub fn create_fir(parents: bool) -> (action: FsAction)
    ensures
        action == if parents {
            FsAction::CreateDirAll
        } else {
            FsAction::CreateDir
        },
{
    if parents {
        FsAction::CreateDirAll
    } else {
        FsAction::CreateDir
    }
}

/// Removing a directory: with all that is in it if `force` is set.
pub fn remove_dir(force: bool) -> (action: FsAction)
    ensures
        action == if force {
            FsAction::RemoveDirAll
        } else {
            FsAction::RemoveDir
        },
{
    if force {
        FsAction::RemoveDirAll
    } else {
        FsAction::RemoveDir
    }
}

/// The message for a path in single quotes between a lead and a trail.
pub open spec fn quoted(lead: Seq<char>, path: Seq<char>, trail: Seq<char>) -> Seq<char> {
    lead + "'"@ + path + "'"@ + trail
}

fn quote(lead: &str, path: &str, trail: &str) -> (msg: String)
    ensures
        msg@ == quoted(lead@, path@, trail@),
{
    let mut msg = concat_str(lead, "'");
    msg.append(path);
    msg.append("'");
    msg.append(trail);
    msg
}

/// Copying a directory. The source must exist and the destination must not;
/// else the copy is refused with the line that says which of the two it is.
pub fn copy_dir(src: &str, dest: &str, src_exists: bool, dest_exists: bool) -> (planned: Result<
    FsAction,
    String,
>)
    ensures
        match planned {
            Ok(action) => src_exists && !dest_exists && action == FsAction::CopyDirAll,
            Err(line) => if !src_exists {
                is_error_line(line@, quoted("Source director "@, src@, " does not exist"@))
            } else {
                dest_exists && is_error_line(
                    line@,
                    quoted("Destination director "@, dest@, " already exists"@),
                )
            },
        },
{
    if !src_exists {
        let msg = quote("Source director ", src, " does not exist");
        return Err(error_message(msg.as_str()));
    }
    if dest_exists {
        let msg = quote("Destination director ", dest, " already exists");
        return Err(error_message(msg.as_str()));
    }
    Ok(FsAction::CopyDirAll)
}

/// The line for an operation that failed: what failed, and the cause.
pub fn failed(what: &str, cause: &str) -> (line: String)
    ensures
        is_error_line(line@, what@ + ": "@ + cause@),
{
    let mut msg = concat_str(what, ": ");
    msg.append(cause);
    error_message(msg.as_str())
}

/// The line for an operation that went well: what was done, and behind it
/// the path or paths it was done to.
pub fn done(what: &str, paths: &str) -> (line: String)
    ensures
        exists|head: Seq<char>| #[trigger]
            is_success_line(head, what@) && line@ == head + " "@ + paths@,
{
    let head = success_message(what);
    let mut line = concat_str(head.as_str(), " ");
    line.append(paths);
    assert(is_success_line(head@, what@) && line@ == head@ + " "@ + paths@);
    line
}

} // verus!
