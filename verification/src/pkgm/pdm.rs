//! The adapter for PDM.

use super::helpers::{format_command_string, invocation};
use super::types::{Invocation, PackageManager, PackageOptions};
use crate::text::{str_eq, texts};
use vstd::prelude::*;

verus! {

#[derive(Debug, Clone, Copy, PartialEq, Eq)]
pub struct Pdm;

/// PDM's own words for each generic verb. A verb outside the generic
/// vocabulary is handed to the tool as it is.
pub open spec fn command_args(cmd: Seq<char>) -> Seq<Seq<char>> {
    if cmd == "add"@ {
        seq!["add"@]
    } else if cmd == "install"@ {
        seq!["install"@]
    } else if cmd == "remove"@ {
        seq!["remove"@]
    } else if cmd == "upgrade"@ {
        seq!["update"@]
    } else if cmd == "analyze"@ {
        seq!["list"@]
    } else {
        seq![cmd]
    }
}

fn get_command_args(cmd: &str) -> (args: Vec<String>)
    ensures
        texts(args@) == command_args(cmd@),
{
    let mut args: Vec<String> = Vec::new();
    if str_eq(cmd, "add") {
        args.push("add".to_owned());
    } else if str_eq(cmd, "install") {
        args.push("install".to_owned());
    } else if str_eq(cmd, "remove") {
        args.push("remove".to_owned());
    } else if str_eq(cmd, "upgrade") {
        args.push("update".to_owned());
    } else if str_eq(cmd, "analyze") {
        args.push("list".to_owned());
    } else {
        args.push(cmd.to_owned());
    }
    assert(texts(args@) =~= command_args(cmd@));
    args
}

impl PackageManager for Pdm {
    open spec fn tool_name(&self) -> Seq<char> {
        "pdm"@
    }

    open spec fn subcommand(&self, command: Seq<char>) -> Seq<Seq<char>> {
        command_args(command)
    }

    fn name(&self) -> (name: &'static str) {
        "pdm"
    }

    fn format_command(&self, command: &str, packages: &[String], options: &PackageOptions) -> (line:
        String) {
        format_command_string("pdm", get_command_args(command), packages, options)
    }

    fn execute_command(
        &self,
        command: &str,
        packages: &[String],
        options: &PackageOptions,
    ) -> (launch: Invocation) {
        invocation("pdm", get_command_args(command), packages, options)
    }
}

} // verus!
