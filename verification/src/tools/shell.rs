//! The tool that runs a shell command: what is checked before the command
//! runs, and how what it printed becomes the result.

use vstd::prelude::*;
use crate::text::{
    concat, concat3, extend_chars, extend_str, from_chars, owned, signed_decimal,
    signed_decimal_chars, to_chars, trim_end, trimmed_end,
};
use crate::tools::builtin::RunShellCommand;
use crate::tools::utils::{command_verdict, sanitize_shell_command, verdict_view};
use crate::tools::{IoFailure, IoKind};

verus! {

/// What the check of a call's arguments gives: the value to go on with, or
/// the text that is the result of the call.
pub open spec fn checked_command(command: Option<Seq<char>>) -> Result<Seq<char>, Seq<char>> {
    match command {
        None => Err("Error: 'command' parameter is required"@),
        Some(c) => match command_verdict(c) {
            Ok(clean) => Ok(clean),
            Err(e) => Err("Error: "@ + e),
        },
    }
}

/// The question that asks the user whether a command may run.
pub open spec fn command_question(command: Seq<char>) -> Seq<char> {
    "run command '"@ + command + "'"@
}

/// The result of a command that ran: a note of its failure, what it wrote to
/// its output and to its error output, without trailing white space; and a
/// note where there is nothing to show.
pub open spec fn command_result(
    success: bool,
    code: Option<i32>,
    stdout: Seq<char>,
    stderr: Seq<char>,
) -> Seq<char> {
    let failure = if success {
        Seq::<char>::empty()
    } else {
        "Command failed with exit code: "@ + signed_decimal(
            match code {
                Some(c) => c as int,
                None => -1,
            },
        ) + "\n"@
    };
    let output = if stdout.len() > 0 {
        "Output:\n"@ + stdout
    } else {
        Seq::<char>::empty()
    };
    let errors = if stderr.len() > 0 {
        (if stdout.len() > 0 {
            "\n"@
        } else {
            Seq::<char>::empty()
        }) + "Error output:\n"@ + stderr
    } else {
        Seq::<char>::empty()
    };
    let all = failure + output + errors;
    if all.len() == 0 {
        "Command executed successfully (no output)"@
    } else {
        trim_end(all)
    }
}

impl RunShellCommand {
    /// Checks the arguments of a call: the command must be given and must
    /// pass [`sanitize_shell_command`].
    pub fn check(&self, command: Option<&str>) -> (out: Result<String, String>)
        ensures
            verdict_view(out) == checked_command(
                match command {
                    Some(c) => Some(c@),
                    None => None,
                },
            ),
    {
        match command {
            None => Err(owned("Error: 'command' parameter is required")),
            Some(c) => match sanitize_shell_command(c) {
                Ok(clean) => Ok(clean),
                Err(e) => Err(concat("Error: ", e.as_str())),
            },
        }
    }

    /// The question that asks the user whether the command may run.
    pub fn question(&self, command: &str) -> (text: String)
        ensures
            text@ == command_question(command@),
    {
        concat3("run command '", command, "'")
    }

    /// The result of a call that does not run: because the user refused, or
    /// because tools only describe what they would do. `None` says: run.
    pub fn answer_without_running(&self, command: &str, confirmed: bool, dry_run: bool) -> (out:
        Option<String>)
        ensures
            !confirmed ==> out.deep_view() == Some("Command not confirmed."@),
            confirmed && dry_run ==> out.deep_view() == Some(
                "Dry-run: Would execute command: "@ + command@,
            ),
            confirmed && !dry_run ==> out is None,
    {
        if !confirmed {
            Some(owned("Command not confirmed."))
        } else if dry_run {
            Some(concat("Dry-run: Would execute command: ", command))
        } else {
            None
        }
    }

    /// The result of a command that ran.
    pub fn render_output(&self, success: bool, code: Option<i32>, stdout: &str, stderr: &str)
        -> (text: String)
        ensures
            text@ == command_result(success, code, stdout@, stderr@),
    {
        let out_chars = to_chars(stdout);
        let err_chars = to_chars(stderr);
        let mut all: Vec<char> = Vec::new();
        if !success {
            extend_str(&mut all, "Command failed with exit code: ");
            let number = signed_decimal_chars(
                match code {
                    Some(c) => c as i64,
                    None => -1,
                },
            );
            extend_chars(&mut all, number.as_slice());
            extend_str(&mut all, "\n");
        }
        let ghost failure = all@;
        if out_chars.len() > 0 {
            extend_str(&mut all, "Output:\n");
            extend_chars(&mut all, out_chars.as_slice());
        }
        let ghost with_output = all@;
        if err_chars.len() > 0 {
            if out_chars.len() > 0 {
                extend_str(&mut all, "\n");
            }
            extend_str(&mut all, "Error output:\n");
            extend_chars(&mut all, err_chars.as_slice());
        }
        proof {
            let output = if stdout@.len() > 0 {
                "Output:\n"@ + stdout@
            } else {
                Seq::<char>::empty()
            };
            let errors = if stderr@.len() > 0 {
                (if stdout@.len() > 0 {
                    "\n"@
                } else {
                    Seq::<char>::empty()
                }) + "Error output:\n"@ + stderr@
            } else {
                Seq::<char>::empty()
            };
            assert(with_output =~= failure + output);
            assert(all@ =~= failure + output + errors);
        }
        if all.len() == 0 {
            owned("Command executed successfully (no output)")
        } else {
            let shown = trimmed_end(all.as_slice());
            from_chars(shown.as_slice())
        }
    }

    /// The result of a command that could not be started.
    pub fn render_failure(&self, failure: &IoFailure) -> (text: String)
        ensures
            text@ == match failure.kind {
                IoKind::NotFound => "Error: 'sh' command not found. Shell might not be available."@,
                IoKind::PermissionDenied => "Error: Permission denied executing shell command"@,
                IoKind::Other => "Error running command: "@ + failure.detail@,
            },
    {
        match failure.kind {
            IoKind::NotFound => owned(
                "Error: 'sh' command not found. Shell might not be available.",
            ),
            IoKind::PermissionDenied => owned("Error: Permission denied executing shell command"),
            IoKind::Other => concat("Error running command: ", failure.detail.as_str()),
        }
    }
}

} // verus!
