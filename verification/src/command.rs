//! The command line's arguments.

use vstd::prelude::*;
use vstd::string::*;

use crate::text::{characters, has_prefix, parse_unsigned};

verus! {

/// Seconds between two frames where the arguments do not say.
pub const DEFAULT_INTERVAL: u64 = 1;

/// What the arguments ask for.
#[derive(Debug, Clone, Copy, PartialEq, Eq, Structural)]
pub enum Command {
    /// List the Java processes.
    Discover,
    /// Explain the usage.
    Help,
    /// Nothing, because the process ID is not a number.
    InvalidPid,
    /// Nothing, because the frames would come without a pause.
    ZeroInterval,
    /// Monitor a process.
    Monitor {
        /// Process ID.
        pid: u32,
        /// Seconds between two frames.
        interval: u64,
    },
}

/// The seconds that the third argument asks for.
pub open spec fn interval_of(args: Seq<Seq<char>>) -> int {
    if args.len() >= 3 {
        match crate::text::unsigned_value(args[2], u64::MAX as int) {
            Some(interval) => interval,
            None => DEFAULT_INTERVAL as int,
        }
    } else {
        DEFAULT_INTERVAL as int
    }
}

/// What arguments ask for, the first of which is the name of the program.
pub open spec fn command_of(args: Seq<Seq<char>>) -> Command {
    if args.len() < 2 {
        Command::Discover
    } else if args[1] == "--help"@ || args[1] == "-h"@ {
        Command::Help
    } else {
        match crate::text::unsigned_value(args[1], u32::MAX as int) {
            None => Command::InvalidPid,
            Some(pid) => if interval_of(args) == 0 {
                Command::ZeroInterval
            } else {
                Command::Monitor { pid: pid as u32, interval: interval_of(args) as u64 }
            },
        }
    }
}

/// Whether two texts are the same.
fn same_text(first: &str, second: &str) -> (same: bool)
    ensures
        same == (first@ == second@),
{
    let text: Vec<char> = characters(first);
    if text.len() != second.unicode_len() {
        return false;
    }
    let same: bool = has_prefix(text.as_slice(), second);
    assert(first@.subrange(0, second@.len() as int) =~= first@);
    same
}

/// Reads a number.
fn parse_number(text: &str, maximum: u64) -> (value: Option<u64>)
    ensures
        match value {
            Some(value) => crate::text::unsigned_value(text@, maximum as int) == Some(value as int),
            None => crate::text::unsigned_value(text@, maximum as int) is None,
        },
        value is Some ==> value->0 <= maximum,
{
    let digits: Vec<char> = characters(text);
    parse_unsigned(digits.as_slice(), maximum)
}

/// Reads the arguments, the first of which is the name of the program.
pub fn parse_arguments(args: &Vec<String>) -> (command: Command)
    ensures
        command == command_of(args@.map_values(|arg: String| arg@)),
{
    if args.len() < 2 {
        return Command::Discover;
    }
    let first: &str = args[1].as_str();
    if same_text(first, "--help") || same_text(first, "-h") {
        return Command::Help;
    }
    let pid: u32 = match parse_number(first, u32::MAX as u64) {
        Some(pid) => pid as u32,
        None => return Command::InvalidPid,
    };
    let interval: u64 = if args.len() >= 3 {
        match parse_number(args[2].as_str(), u64::MAX) {
            Some(interval) => interval,
            None => DEFAULT_INTERVAL,
        }
    } else {
        DEFAULT_INTERVAL
    };
    if interval == 0 {
        Command::ZeroInterval
    } else {
        Command::Monitor { pid, interval }
    }
}

} // verus!
