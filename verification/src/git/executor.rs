//! What a run of git gave.

use vstd::prelude::*;
use vstd::string::StringExecFns;
use crate::errors::GrovError;

verus! {

/// The result of a run of git: what it printed, both trimmed, whether it
/// succeeded, and its exit status as text.
#[derive(Debug, Clone, PartialEq, Eq)]
pub struct GitOutput {
    pub stdout: String,
    pub stderr: String,
    pub success: bool,
    pub status: String,
}

/// The first `n` of `parts` with `sep` between them.
pub open spec fn joined(parts: Seq<Seq<char>>, sep: Seq<char>, n: int) -> Seq<char>
    decreases n,
{
    if n <= 0 {
        Seq::empty()
    } else if n == 1 {
        parts[0]
    } else {
        joined(parts, sep, n - 1) + sep + parts[n - 1]
    }
}

/// The texts of a slice of string slices.
pub open spec fn arg_texts(args: Seq<&str>) -> Seq<Seq<char>> {
    args.map_values(|s: &str| s@)
}

/// What is said of a failed run that printed no error: the command and
/// its exit status.
pub open spec fn exit_message(args: Seq<Seq<char>>, status: Seq<char>) -> Seq<char> {
    "git "@ + joined(args, " "@, args.len() as int) + " exited with "@ + status
}

/// The standard output of a run that succeeded. A run that failed is an
/// error with what it printed as error, or, where it printed none, with
/// the command and its exit status.
pub fn run_git_ok(output: GitOutput, args: &[&str]) -> (result: Result<String, GrovError>)
    ensures
        output.success ==> result == Ok::<String, GrovError>(output.stdout),
        !output.success ==> (result matches Err(GrovError::GitCommandFailed(msg)) && msg@
            == if output.stderr@.len() > 0 {
            output.stderr@
        } else {
            exit_message(arg_texts(args@), output.status@)
        }),
{
    if output.success {
        Ok(output.stdout)
    } else {
        let msg = if output.stderr.as_str().is_empty() {
            let mut text = "git ".to_owned();
            let ghost head = text@;
            let mut i: usize = 0;
            while i < args.len()
                invariant
                    i <= args@.len(),
                    text@ == head + joined(arg_texts(args@), " "@, i as int),
                decreases args@.len() - i,
            {
                if i > 0 {
                    text.append(" ");
                }
                text.append(args[i]);
                i += 1;
            }
            text.append(" exited with ");
            text.append(output.status.as_str());
            text
        } else {
            output.stderr
        };
        Err(GrovError::GitCommandFailed(msg))
    }
}

} // verus!
