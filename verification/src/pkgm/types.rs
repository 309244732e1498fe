//! The vocabulary shared by all adapters.

use crate::text::{joined, lemma_joined_prefix, texts};
use vstd::prelude::*;

verus! {

/// The tools that are supported.
#[derive(Debug, Clone, Copy, PartialEq, Eq, Hash, Structural)]
pub enum ManagerType {
    Cargo,
    Npm,
    Pnpm,
    Bun,
    Yarn,
    Pip,
    Pdm,
    Poetry,
}

/// The name a kind is written with where a kind is reported.
pub open spec fn type_label(manager_type: ManagerType) -> Seq<char> {
    match manager_type {
        ManagerType::Cargo => "Cargo"@,
        ManagerType::Npm => "Npm"@,
        ManagerType::Pnpm => "Pnpm"@,
        ManagerType::Bun => "Bun"@,
        ManagerType::Yarn => "Yarn"@,
        ManagerType::Pip => "Pip"@,
        ManagerType::Pdm => "Pdm"@,
        ManagerType::Poetry => "Poetry"@,
    }
}

impl ManagerType {
    /// The name this kind is written with where a kind is reported.
    pub fn label(&self) -> (label: &'static str)
        ensures
            label@ == type_label(*self),
    {
        match self {
            ManagerType::Cargo => "Cargo",
            ManagerType::Npm => "Npm",
            ManagerType::Pnpm => "Pnpm",
            ManagerType::Bun => "Bun",
            ManagerType::Yarn => "Yarn",
            ManagerType::Pip => "Pip",
            ManagerType::Pdm => "Pdm",
            ManagerType::Poetry => "Poetry",
        }
    }
}

/// Arguments that are handed to the tool unchanged, after the packages.
#[derive(Debug)]
pub struct PackageOptions {
    pub args: Vec<String>,
}

impl PackageOptions {
    pub fn new(args: Vec<String>) -> (options: Self)
        ensures
            options.args == args,
    {
        Self { args }
    }
}

/// One process to launch: the tool's binary and its arguments.
#[derive(Debug)]
pub struct Invocation {
    pub program: String,
    pub args: Vec<String>,
}

/// The arguments a tool is launched with: its own subcommand words, then the
/// packages, then the passthrough options.
pub open spec fn launch_args(
    subcommand: Seq<Seq<char>>,
    packages: Seq<Seq<char>>,
    options: Seq<Seq<char>>,
) -> Seq<Seq<char>> {
    subcommand + packages + options
}

/// The command line as it is shown: the tool's name and its arguments,
/// separated by single spaces.
pub open spec fn command_line(
    name: Seq<char>,
    subcommand: Seq<Seq<char>>,
    packages: Seq<Seq<char>>,
    options: Seq<Seq<char>>,
) -> Seq<char> {
    joined(seq![name] + launch_args(subcommand, packages, options), " "@)
}

/// What every adapter offers: its name, the command line for a generic verb
/// as text, and the same command line as a process to launch.
pub trait PackageManager {
    /// The tool's name, which is also its binary.
    spec fn tool_name(&self) -> Seq<char>;

    /// The tool's own subcommand words for a generic verb.
    spec fn subcommand(&self, command: Seq<char>) -> Seq<Seq<char>>;

    fn name(&self) -> (name: &'static str)
        ensures
            name@ == self.tool_name(),
    ;

    /// The command line that `execute_command` launches, as one string.
    fn format_command(&self, command: &str, packages: &[String], options: &PackageOptions) -> (line:
        String)
        ensures
            line@ == command_line(
                self.tool_name(),
                self.subcommand(command@),
                texts(packages@),
                texts(options.args@),
            ),
    ;

    /// The process that carries out a generic verb on the given packages.
    fn execute_command(
        &self,
        command: &str,
        packages: &[String],
        options: &PackageOptions,
    ) -> (launch: Invocation)
        ensures
            launch.program@ == self.tool_name(),
            texts(launch.args@) == launch_args(
                self.subcommand(command@),
                texts(packages@),
                texts(options.args@),
            ),
    ;
}

/// The command line that an adapter shows is the one it launches: for the
/// same verb, packages and options, the text of `format_command` is the
/// program and the arguments of `execute_command`, separated by single
/// spaces. It is a function of these and of nothing else, so that the same
/// request is shown the same way every time.
pub proof fn lemma_format_is_launch<M: PackageManager>(
    manager: M,
    command: Seq<char>,
    packages: Seq<Seq<char>>,
    options: Seq<Seq<char>>,
    line: Seq<char>,
    program: Seq<char>,
    args: Seq<Seq<char>>,
)
    requires
        line == command_line(
            manager.tool_name(),
            manager.subcommand(command),
            packages,
            options,
        ),
        program == manager.tool_name(),
        args == launch_args(manager.subcommand(command), packages, options),
    ensures
        line == joined(seq![program] + args, " "@),
{
}

/// More options only add to the end of the command line: the line without
/// them is the beginning of the line with them.
pub proof fn lemma_command_line_grows(
    name: Seq<char>,
    subcommand: Seq<Seq<char>>,
    packages: Seq<Seq<char>>,
    options: Seq<Seq<char>>,
    more: Seq<Seq<char>>,
)
    ensures
        command_line(name, subcommand, packages, options).is_prefix_of(
            command_line(name, subcommand, packages, options + more),
        ),
{
    let words = seq![name] + launch_args(subcommand, packages, options);
    lemma_joined_prefix(words, more, " "@);
    assert(words + more =~= seq![name] + launch_args(subcommand, packages, options + more));
}

} // verus!
