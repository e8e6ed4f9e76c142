//! Command lines for the system tools the watchers use, and the outcome of
//! a command that was run to completion.
use vstd::prelude::*;
use crate::text::{decimal, decimal_string};

verus! {

/// A program to start, with its arguments.
pub struct CommandLine {
    pub program: String,
    pub args: Vec<String>,
}

impl CommandLine {
    /// The program followed by its arguments.
    pub open spec fn words(&self) -> Seq<Seq<char>> {
        seq![self.program@] + self.args@.map_values(|a: String| a@)
    }
}

fn owned(s: &str) -> (r: String)
    ensures
        r@ == s@,
{
    String::from_str(s)
}

/// The query that lists the process `pid`: `ps -o pid= -p <pid>`. With
/// the header left out it prints one line while the process lives, and
/// nothing once it is gone.
pub fn pid_query(pid: u32) -> (r: CommandLine)
    ensures
        r.words() == seq!["ps"@, "-o"@, "pid="@, "-p"@, decimal(pid as nat)],
{
    let mut args: Vec<String> = Vec::new();
    args.push(owned("-o"));
    args.push(owned("pid="));
    args.push(owned("-p"));
    args.push(decimal_string(pid));
    let r = CommandLine { program: owned("ps"), args };
    assert(r.words() =~= seq!["ps"@, "-o"@, "pid="@, "-p"@, decimal(pid as nat)]);
    r
}

/// The lookup of the processes called `name`: `pgrep <name>`. It prints
/// the id of each match on a line of its own.
pub fn name_query(name: &str) -> (r: CommandLine)
    ensures
        r.words() == seq!["pgrep"@, name@],
{
    let mut args: Vec<String> = Vec::new();
    args.push(owned(name));
    let r = CommandLine { program: owned("pgrep"), args };
    assert(r.words() =~= seq!["pgrep"@, name@]);
    r
}

/// Runs `command` through the shell: `sh -c <command>`.
pub fn shell_command(command: &str) -> (r: CommandLine)
    ensures
        r.words() == seq!["sh"@, "-c"@, command@],
{
    let mut args: Vec<String> = Vec::new();
    args.push(owned("-c"));
    args.push(owned(command));
    let r = CommandLine { program: owned("sh"), args };
    assert(r.words() =~= seq!["sh"@, "-c"@, command@]);
    r
}

/// The end of a watch.
pub enum WatchResult {
    /// The watched process, or every process of the watched name, is gone.
    Terminated,
    /// The command ran and exited with status zero.
    Succeeded,
    /// The command ran and exited otherwise: with this status code, or with
    /// none when a signal ended it.
    Failed(Option<i32>),
    /// The watch could not go on, for this reason.
    Error(String),
}

impl WatchResult {
    /// Whether the result reports a command that succeeded.
    pub fn is_success(&self) -> (r: bool)
        ensures
            r == (self is Succeeded),
    {
        match self {
            WatchResult::Succeeded => true,
            _ => false,
        }
    }
}

/// Classifies how waiting for a command's child ended: `Ok` with its exit
/// code (`None` when a signal ended it), or `Err` with the reason the wait
/// failed. Only exit code zero is success.
pub fn command_result(wait: Result<Option<i32>, String>) -> (r: WatchResult)
    ensures
        match wait {
            Ok(Some(c)) => if c == 0 {
                r is Succeeded
            } else {
                r == WatchResult::Failed(Some(c))
            },
            Ok(None) => r == WatchResult::Failed(None),
            Err(e) => r == WatchResult::Error(e),
        },
{
    match wait {
        Ok(Some(c)) => {
            if c == 0 {
                WatchResult::Succeeded
            } else {
                WatchResult::Failed(Some(c))
            }
        },
        Ok(None) => WatchResult::Failed(None),
        Err(e) => WatchResult::Error(e),
    }
}

} // verus!
