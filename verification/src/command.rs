//! Commands that the agent runs, and what they report.

use crate::text::texts;
use std::collections::HashMap;
use vstd::prelude::*;
use vstd::string::StringExecFns;

verus! {

/// A command line, and variables to set in its environment.
#[derive(Debug, Clone)]
pub struct CommandSpec {
    pub program: String,
    pub args: Vec<String>,
    pub env: Option<HashMap<String, String>>,
}

/// What a command that ran to its end reports.
#[derive(Debug, Clone)]
pub struct CommandOutput {
    pub success: bool,
    /// The exit code, where the command was not ended by a signal.
    pub code: Option<i32>,
    pub stdout: Vec<u8>,
    pub stderr: Vec<u8>,
}

/// The exit code that is reported where there is none.
pub const NO_EXIT_CODE: i32 = -1;

/// The exit code that is reported.
pub open spec fn reported_code(code: Option<i32>) -> i32 {
    match code {
        Some(c) => c,
        None => NO_EXIT_CODE,
    }
}

/// The exit code that is reported.
pub fn exit_code(code: Option<i32>) -> (c: i32)
    ensures
        c == reported_code(code),
{
    match code {
        Some(c) => c,
        None => NO_EXIT_CODE,
    }
}

/// What each string of a list holds.
pub open spec fn words_of(list: Seq<&str>) -> Seq<Seq<char>> {
    list.map_values(|s: &str| s@)
}

impl CommandSpec {
    /// Whether this is the command line of that program and those arguments.
    pub open spec fn calls(self, program: Seq<char>, args: Seq<Seq<char>>) -> bool {
        self.program@ == program && texts(self.args@) == args
    }

    /// A command line without variables.
    pub fn new(program: &str, args: &Vec<&str>) -> (command: CommandSpec)
        ensures
            command.calls(program@, words_of(args@)),
            command.env is None,
    {
        let n = args.len();
        let mut list: Vec<String> = Vec::new();
        let mut i: usize = 0;
        while i < n
            invariant
                n == args@.len(),
                i <= n,
                list@.len() == i,
                forall|j: int| 0 <= j < i ==> (#[trigger] list@[j])@ == args@[j]@,
            decreases n - i,
        {
            list.push(String::from_str(args[i]));
            i += 1;
        }
        assert(texts(list@) =~= words_of(args@));
        CommandSpec { program: String::from_str(program), args: list, env: None }
    }
}

/// Whether an optional flag is set; an absent flag is not.
pub open spec fn flag(value: Option<bool>) -> bool {
    value == Some(true)
}

/// Whether an optional flag is set; an absent flag is not.
pub fn is_set(value: Option<bool>) -> (yes: bool)
    ensures
        yes == flag(value),
{
    match value {
        Some(yes) => yes,
        None => false,
    }
}

/// The program that runs a shell command, as root or not.
pub open spec fn shell_program(sudo: bool) -> Seq<char> {
    if sudo {
        "sudo"@
    } else {
        "sh"@
    }
}

/// The arguments with which a shell command is run. As root it is run without
/// asking for a password.
pub open spec fn shell_args(command: Seq<char>, sudo: bool) -> Seq<Seq<char>> {
    if sudo {
        seq!["-n"@, "sh"@, "-c"@, command]
    } else {
        seq!["-c"@, command]
    }
}

/// The command line that runs a shell command, as root or not.
pub fn shell_command(command: &str, sudo: bool) -> (r: CommandSpec)
    ensures
        r.calls(shell_program(sudo), shell_args(command@, sudo)),
        r.env is None,
{
    if sudo {
        let args = vec!["-n", "sh", "-c", command];
        assert(words_of(args@) =~= shell_args(command@, sudo));
        CommandSpec::new("sudo", &args)
    } else {
        let args = vec!["-c", command];
        assert(words_of(args@) =~= shell_args(command@, sudo));
        CommandSpec::new("sh", &args)
    }
}

} // verus!
