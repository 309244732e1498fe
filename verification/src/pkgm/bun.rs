//! The adapter for Bun.

use super::helpers::{format_command_string, invocation};
use super::types::{Invocation, PackageManager, PackageOptions};
use crate::text::{str_eq, texts};
use vstd::prelude::*;

verus! {

#[derive(Debug, Clone, Copy, PartialEq, Eq)]
pub struct Bun;

/// Bun's own word for each generic verb. A verb outside the generic
/// vocabulary is handed to the tool as it is.
pub open spec fn command_word(cmd: Seq<char>) -> Seq<char> {
    if cmd == "add"@ {
        "add"@
    } else if cmd == "install"@ {
        "install"@
    } else if cmd == "remove"@ {
        "remove"@
    } else if cmd == "upgrade"@ {
        "update"@
    } else if cmd == "analyze"@ {
        "list"@
    } else {
        cmd
    }
}

fn get_command(cmd: &str) -> (word: String)
    ensures
        word@ == command_word(cmd@),
{
    if str_eq(cmd, "add") {
        "add".to_owned()
    } else if str_eq(cmd, "install") {
        "install".to_owned()
    } else if str_eq(cmd, "remove") {
        "remove".to_owned()
    } else if str_eq(cmd, "upgrade") {
        "update".to_owned()
    } else if str_eq(cmd, "analyze") {
        "list".to_owned()
    } else {
        cmd.to_owned()
    }
}

fn get_command_args(cmd: &str) -> (args: Vec<String>)
    ensures
        texts(args@) == seq![command_word(cmd@)],
{
    let mut args: Vec<String> = Vec::new();
    args.push(get_command(cmd));
    assert(texts(args@) =~= seq![command_word(cmd@)]);
    args
}

impl PackageManager for Bun {
    open spec fn tool_name(&self) -> Seq<char> {
        "bun"@
    }

    open spec fn subcommand(&self, command: Seq<char>) -> Seq<Seq<char>> {
        seq![command_word(command)]
    }

    fn name(&self) -> (name: &'static str) {
        "bun"
    }

    fn format_command(&self, command: &str, packages: &[String], options: &PackageOptions) -> (line:
        String) {
        format_command_string(self.name(), get_command_args(command), packages, options)
    }

    fn execute_command(
        &self,
        command: &str,
        packages: &[String],
        options: &PackageOptions,
    ) -> (launch: Invocation) {
        invocation(self.name(), get_command_args(command), packages, options)
    }
}

} // verus!
