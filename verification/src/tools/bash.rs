//! The shell tool: what is reported of a finished command.

use vstd::prelude::*;
use crate::text::{ends_with_seq, starts_with_seq, trim, trim_seq};

verus! {

/// Arguments of the shell tool.
pub struct BashArgs {
    pub command: String,
}

/// Reply when the user refuses to let the command run.
pub const BASH_DENIED: &'static str = "User denied permission to execute the bash command.";

/// Schema of the shell tool's arguments (JSON text).
pub const BASH_SCHEMA: &'static str = "{\"type\":\"object\",\"properties\":{\"command\":{\"type\":\"string\",\"description\":\"The bash command to execute\"}},\"required\":[\"command\"]}";

/// The report of a command from its output texts (untrimmed), whether it
/// succeeded, and its exit status as text.
pub open spec fn bash_report(stdout: Seq<char>, stderr: Seq<char>, success: bool, status: Seq<char>) -> Seq<char> {
    let out = trim_seq(stdout);
    let err = trim_seq(stderr);
    let a = if out.len() > 0 { "STDOUT:\n"@ + out + "\n"@ } else { Seq::empty() };
    let b = if err.len() > 0 { (if a.len() > 0 { "\n"@ } else { Seq::empty() }) + "STDERR:\n"@ + err + "\n"@ } else { Seq::empty() };
    if (a + b).len() > 0 {
        a + b
    } else if success {
        "Command executed successfully with no output."@
    } else {
        "Command failed with exit code: "@ + status
    }
}

/// Runs bash commands.
pub struct BashTool;

impl BashTool {
    pub fn new() -> Self {
        BashTool
    }

    pub fn name(&self) -> (r: &'static str)
        ensures
            r@ == "Bash"@,
    {
        "Bash"
    }

    pub fn description(&self) -> (r: &'static str)
        ensures
            r@ == "Executes a bash command in the terminal. Returns the output (stdout and stderr) of the command."@,
    {
        "Executes a bash command in the terminal. Returns the output (stdout and stderr) of the command."
    }

    pub fn input_schema(&self) -> (r: &'static str)
        ensures
            r@ == BASH_SCHEMA@,
    {
        BASH_SCHEMA
    }

    /// The error when the command could not be started.
    pub fn launch_failure(&self, command: &str) -> (r: String)
        ensures
            r@ == "Failed to execute bash command: "@ + command@,
    {
        crate::text::concat("Failed to execute bash command: ", command)
    }

    /// The report of a finished command.
    pub fn report(&self, stdout: &str, stderr: &str, success: bool, status: &str) -> (r: String)
        ensures
            r@ == bash_report(stdout@, stderr@, success, status@),
    {
        let out = trim(stdout);
        let err = trim(stderr);
        let mut result = String::new();
        if !out.as_str().is_empty() {
            result.append("STDOUT:\n");
            result.append(out.as_str());
            result.append("\n");
        }
        if !err.as_str().is_empty() {
            if !result.as_str().is_empty() {
                result.append("\n");
            }
            result.append("STDERR:\n");
            result.append(err.as_str());
            result.append("\n");
        }
        if result.as_str().is_empty() {
            if success {
                result.append("Command executed successfully with no output.");
            } else {
                result.append("Command failed with exit code: ");
                result.append(status);
            }
        }
        result
    }
}

/// A command's output is reported whether or not it succeeded: non-empty
/// (trimmed) standard output opens the report under `STDOUT:`, non-empty
/// standard error closes it under `STDERR:`, and then the outcome changes
/// nothing. Only when both are empty does the report speak of the outcome:
/// success, or the exit status.
pub proof fn law_output_reported_whatever_the_outcome(stdout: Seq<char>, stderr: Seq<char>, success: bool, status: Seq<char>)
    ensures
        trim_seq(stdout).len() > 0 ==> starts_with_seq(
            bash_report(stdout, stderr, success, status),
            "STDOUT:\n"@ + trim_seq(stdout) + "\n"@,
        ),
        trim_seq(stderr).len() > 0 ==> ends_with_seq(
            bash_report(stdout, stderr, success, status),
            "STDERR:\n"@ + trim_seq(stderr) + "\n"@,
        ),
        trim_seq(stdout).len() > 0 || trim_seq(stderr).len() > 0 ==>
            bash_report(stdout, stderr, success, status) == bash_report(stdout, stderr, !success, status),
        trim_seq(stdout).len() == 0 && trim_seq(stderr).len() == 0 ==> bash_report(stdout, stderr, success, status) == (
            if success { "Command executed successfully with no output."@ } else { "Command failed with exit code: "@ + status }),
{
    let out = trim_seq(stdout);
    let err = trim_seq(stderr);
    let opening: Seq<char> = if out.len() > 0 { "STDOUT:\n"@ + out + "\n"@ } else { Seq::empty() };
    let closing: Seq<char> = if err.len() > 0 {
        (if opening.len() > 0 { "\n"@ } else { Seq::empty() }) + "STDERR:\n"@ + err + "\n"@
    } else {
        Seq::empty()
    };
    let r = bash_report(stdout, stderr, success, status);
    if out.len() > 0 {
        assert(opening.len() > 0);
        assert((opening + closing).len() > 0);
        assert(r == opening + closing);
        assert(r.subrange(0, opening.len() as int) =~= opening);
    }
    if err.len() > 0 {
        let e = "STDERR:\n"@ + err + "\n"@;
        assert(closing.len() > 0);
        assert(r == opening + closing);
        assert(r.subrange(r.len() - e.len(), r.len() as int) =~= e);
    }
    if out.len() == 0 && err.len() == 0 {
        assert((opening + closing).len() == 0);
    }
}

} // verus!
