//! Names for test resources and the errors of running external commands.
use crate::log::LogOutput;
use crate::text::{decimal, push_char, push_decimal, push_str};
use vstd::prelude::*;

verus! {

/// The binary of the CNB launcher in a built image.
pub fn cnb_launcher_binary() -> (r: &'static str)
    ensures
        r@ == "launcher"@,
{
    "launcher"
}

/// A random lowercase ASCII letter (`fastrand::lowercase`).
///
/// Claimed, as its documentation says: the letter is in `a`-`z`. Which letter comes is left
/// to chance.
#[verifier::external_body]
fn random_lowercase() -> (c: char)
    ensures
        'a' <= c <= 'z',
{
    fastrand::lowercase()
}

/// A random name for a Docker image or container: `libcnbtest_` and twelve random
/// lowercase letters.
pub fn random_docker_identifier() -> (r: String)
    ensures
        r@.len() == 23,
        r@.take(11) == "libcnbtest_"@,
        forall|i: int| 11 <= i < 23 ==> 'a' <= #[trigger] r@[i] <= 'z',
{
    let mut r = String::new();
    push_str(&mut r, "libcnbtest_");
    proof {
        reveal_strlit("libcnbtest_");
    }
    let mut i: usize = 0;
    while i < 12
        invariant
            0 <= i <= 12,
            r@.len() == 11 + i,
            r@.take(11) == "libcnbtest_"@,
            forall|j: int| 11 <= j < 11 + i ==> 'a' <= #[trigger] r@[j] <= 'z',
        decreases 12 - i,
    {
        let c = random_lowercase();
        let ghost before = r@;
        push_char(&mut r, c);
        assert(r@.take(11) =~= before.take(11));
        i += 1;
    }
    r
}

/// The decimal numeral of an integer, with a `-` before a negative one.
pub open spec fn signed_decimal(n: int) -> Seq<char> {
    if n < 0 {
        seq!['-'] + decimal((-n) as nat)
    } else {
        decimal(n as nat)
    }
}

/// The error of running an external command.
#[derive(Debug)]
pub enum CommandError {
    /// The process could not be spawned.
    Io { message: String, program: String },
    /// The program was not found.
    NotFound { program: String },
    /// The program exited with a failure status.
    NonZeroExitCode { exit_code: Option<i32>, program: String, stdout: String, stderr: String },
}

/// The message of a command error.
pub open spec fn command_error_text(e: CommandError) -> Seq<char> {
    match e {
        CommandError::Io { message, program } => "Couldn't spawn external `"@ + program@ + "` process: "@
            + message@,
        CommandError::NotFound { program } => "Couldn't find external program `"@ + program@
            + "`. Ensure it is installed and on PATH."@,
        CommandError::NonZeroExitCode { exit_code, program, stdout, stderr } => program@
            + " command failed with exit code "@ + match exit_code {
            Some(c) => signed_decimal(c as int),
            None => "<unknown>"@,
        } + "!\n\n## stderr:\n\n"@ + stderr@ + "\n## stdout:\n\n"@ + stdout@ + "\n"@,
    }
}

/// The outcome of a command that ran to completion: its output where it exited with
/// success, and otherwise the error that carries the exit code and the output.
pub fn command_outcome(
    program: &str,
    success: bool,
    exit_code: Option<i32>,
    stdout: String,
    stderr: String,
) -> (r: Result<LogOutput, CommandError>)
    ensures
        success ==> (r matches Ok(o) && o.stdout@ == stdout@ && o.stderr@ == stderr@),
        !success ==> (r matches Err(CommandError::NonZeroExitCode { exit_code: c, program: p, stdout: out, stderr: err })
            && c == exit_code && p@ == program@ && out@ == stdout@ && err@ == stderr@),
{
    if success {
        Ok(LogOutput { stdout, stderr })
    } else {
        Err(CommandError::NonZeroExitCode { exit_code, program: program.to_owned(), stdout, stderr })
    }
}

/// The error of a command that could not be spawned: `NotFound` where the program was not
/// found, and otherwise the message of the failure.
pub fn spawn_error(program: &str, not_found: bool, message: String) -> (r: CommandError)
    ensures
        not_found ==> (r matches CommandError::NotFound { program: p } && p@ == program@),
        !not_found ==> (r matches CommandError::Io { message: m, program: p } && m@ == message@
            && p@ == program@),
{
    if not_found {
        CommandError::NotFound { program: program.to_owned() }
    } else {
        CommandError::Io { message, program: program.to_owned() }
    }
}

/// Appends the decimal numeral of an `i32`.
fn push_signed(s: &mut String, n: i32)
    ensures
        final(s)@ == old(s)@ + signed_decimal(n as int),
{
    if n < 0 {
        push_char(s, '-');
        let m: u64 = (0i64 - (n as i64)) as u64;
        push_decimal(s, m);
        assert(final(s)@ =~= old(s)@ + signed_decimal(n as int));
    } else {
        push_decimal(s, n as u64);
    }
}

impl CommandError {
    /// The message of the error.
    pub fn to_string(&self) -> (r: String)
        ensures
            r@ == command_error_text(*self),
    {
        let mut s = String::new();
        match self {
            CommandError::Io { message, program } => {
                push_str(&mut s, "Couldn't spawn external `");
                push_str(&mut s, program.as_str());
                push_str(&mut s, "` process: ");
                push_str(&mut s, message.as_str());
            },
            CommandError::NotFound { program } => {
                push_str(&mut s, "Couldn't find external program `");
                push_str(&mut s, program.as_str());
                push_str(&mut s, "`. Ensure it is installed and on PATH.");
            },
            CommandError::NonZeroExitCode { exit_code, program, stdout, stderr } => {
                push_str(&mut s, program.as_str());
                push_str(&mut s, " command failed with exit code ");
                match exit_code {
                    Some(c) => push_signed(&mut s, *c),
                    None => push_str(&mut s, "<unknown>"),
                }
                push_str(&mut s, "!\n\n## stderr:\n\n");
                push_str(&mut s, stderr.as_str());
                push_str(&mut s, "\n## stdout:\n\n");
                push_str(&mut s, stdout.as_str());
                push_str(&mut s, "\n");
            },
        }
        s
    }
}

} // verus!
