//! Command dispatch.
//!
//! A command line is a command word and its arguments. Dispatch is pure: it
//! names what is to be done and leaves the doing to the caller.

pub mod init;

use crate::controller::init::{clean, forced, rebuild_full, InitCommand, InitFlow, Phase};
use crate::text::same_text;
use vstd::prelude::*;
use vstd::slice::slice_subrange;

verus! {

/// What a command line asks for.
#[derive(Clone, Copy, Debug, PartialEq, Eq, Structural)]
pub enum Command {
    /// `down`: accepted, and not implemented.
    Down,
    /// `init` and its subcommands.
    Init(InitFlow),
    /// `up`: accepted, and not implemented.
    Up,
    /// `watch`: accepted, and not implemented.
    Watch,
    /// `status`: accepted, and not implemented.
    Status,
    /// `-v` or `--version`: print the tool's and the project's version.
    Version,
    /// Anything else: print the general usage.
    Help,
}

/// The command of the `init` family that `args` asks for: none for the
/// reconciliation, `rebuild` and `clean` with the force flag that may follow
/// them, and the usage for anything else.
pub open spec fn init_command(args: Seq<String>) -> InitCommand {
    if args.len() == 0 {
        InitCommand::Reconcile
    } else if args[0]@ == "rebuild"@ {
        InitCommand::Rebuild { force: forced(args.skip(1)) }
    } else if args[0]@ == "clean"@ {
        InitCommand::Clean { force: forced(args.skip(1)) }
    } else {
        InitCommand::Help
    }
}

/// What the command word `command` with the arguments `args` asks for.
pub open spec fn command_of(command: Seq<char>, args: Seq<String>) -> Command {
    if command == "down"@ {
        Command::Down
    } else if command == "init"@ {
        Command::Init(InitFlow { command: init_command(args), phase: Phase::Start })
    } else if command == "up"@ {
        Command::Up
    } else if command == "watch"@ {
        Command::Watch
    } else if command == "status"@ {
        Command::Status
    } else if command == "-v"@ || command == "--version"@ {
        Command::Version
    } else {
        Command::Help
    }
}

/// Dispatches a command word and its arguments.
pub fn run(command: &str, args: &[String]) -> (asked: Command)
    ensures
        asked == command_of(command@, args@),
{
    if same_text(command, "down") {
        Command::Down
    } else if same_text(command, "init") {
        Command::Init(init(args))
    } else if same_text(command, "up") {
        Command::Up
    } else if same_text(command, "watch") {
        Command::Watch
    } else if same_text(command, "status") {
        Command::Status
    } else if same_text(command, "-v") || same_text(command, "--version") {
        Command::Version
    } else {
        Command::Help
    }
}

/// Dispatches the arguments of `init`.
pub fn init(args: &[String]) -> (flow: InitFlow)
    ensures
        flow == (InitFlow { command: init_command(args@), phase: Phase::Start }),
{
    if args.len() == 0 {
        InitFlow::new(InitCommand::Reconcile)
    } else {
        let rest = slice_subrange(args, 1, args.len());
        assert(rest@ == args@.skip(1));
        if same_text(args[0].as_str(), "rebuild") {
            rebuild_full(rest)
        } else if same_text(args[0].as_str(), "clean") {
            clean(rest)
        } else {
            InitFlow::new(InitCommand::Help)
        }
    }
}

} // verus!
