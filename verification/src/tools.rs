//! The shell-tool collaborator's pure side: its input description and the
//! shaping of a finished command's output. Running the command itself is
//! process work that stays with the caller; what is verified here is how the
//! two captured streams are combined into the one string handed back.

use vstd::prelude::*;
use vstd::string::StringExecFns;

verus! {

/// The input of the shell tool: the command to execute as a one-liner.
pub struct BashToolInput {
    /// The command to execute.
    pub command: String,
}

/// The shell tool: executes a one-liner and returns the combined output.
pub struct BashTool;

impl BashTool {
    /// The tool's name.
    pub fn name(&self) -> (r: String)
        ensures
            r@ == "bash"@,
    {
        String::from_str("bash")
    }

    /// Combines a finished command's two captured streams into one string:
    /// whichever stream is empty is dropped; two non-empty streams are
    /// joined with one newline, output first.
    pub fn combine_output(&self, output: String, errors: String) -> (r: String)
        ensures
            errors@.len() == 0 ==> r@ == output@,
            errors@.len() > 0 && output@.len() == 0 ==> r@ == errors@,
            errors@.len() > 0 && output@.len() > 0 ==> r@ == output@ + "\n"@ + errors@,
    {
        if errors.as_str().is_empty() {
            output
        } else if output.as_str().is_empty() {
            errors
        } else {
            let mut combined = output;
            combined.append("\n");
            combined.append(errors.as_str());
            combined
        }
    }
}

} // verus!
