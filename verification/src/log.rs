//! The output of a command.
use crate::text::push_str;
use vstd::prelude::*;

verus! {

/// The standard output and standard error of a command.
#[derive(Debug)]
pub struct LogOutput {
    pub stdout: String,
    pub stderr: String,
}

/// The text of a log output: a `## stderr:` section, then a `## stdout:` section.
pub open spec fn log_output_text(stdout: Seq<char>, stderr: Seq<char>) -> Seq<char> {
    "## stderr:\n\n"@ + stderr + "\n## stdout:\n\n"@ + stdout + "\n"@
}

impl LogOutput {
    /// Empty output.
    pub fn default() -> (r: Self)
        ensures
            r.stdout@.len() == 0,
            r.stderr@.len() == 0,
    {
        LogOutput { stdout: String::new(), stderr: String::new() }
    }

    /// The output as text.
    pub fn to_string(&self) -> (r: String)
        ensures
            r@ == log_output_text(self.stdout@, self.stderr@),
    {
        let mut s = String::new();
        push_str(&mut s, "## stderr:\n\n");
        push_str(&mut s, self.stderr.as_str());
        push_str(&mut s, "\n## stdout:\n\n");
        push_str(&mut s, self.stdout.as_str());
        push_str(&mut s, "\n");
        s
    }
}

} // verus!
