//! Command invocations and the interpretation of what a finished command
//! reports. Running the command is left to the caller.

use vstd::prelude::*;
use vstd::utf8::{decode_utf8, valid_utf8};

use crate::text::{concat, text_result_view, trim, trim_str};

verus! {

/// How many seconds a control command may run before it is killed.
pub const COMMAND_TIMEOUT_SECS: u64 = 10;

/// The arguments that ask Niri to quit through its own logout confirmation.
pub const NIRI_LOGOUT_ARGS: [&'static str; 3] = ["msg", "action", "quit"];

/// A program and its arguments; no shell is involved.
#[derive(Debug)]
pub struct Invocation {
    pub program: String,
    pub args: Vec<String>,
}

/// The arguments of an invocation, each taken by its characters.
pub open spec fn args_view(args: Seq<String>) -> Seq<Seq<char>> {
    args.map_values(|a: String| a@)
}

impl Invocation {
    /// Whether this invocation runs `program` with exactly `args`.
    pub open spec fn runs(&self, program: Seq<char>, args: Seq<Seq<char>>) -> bool {
        self.program@ == program && args_view(self.args@) == args
    }
}

/// What a command that ran to its end reported.
#[derive(Debug)]
pub struct CommandOutput {
    /// The exit code; `None` when a signal ended the process.
    pub code: Option<i32>,
    /// How the exit status reads in a message, such as "exit status: 1".
    pub status: String,
    pub stdout: Vec<u8>,
    pub stderr: Vec<u8>,
}

/// A command output with its text fields taken by their characters.
pub struct OutputView {
    pub code: Option<i32>,
    pub status: Seq<char>,
    pub stdout: Seq<u8>,
    pub stderr: Seq<u8>,
}

impl View for CommandOutput {
    type V = OutputView;

    open spec fn view(&self) -> OutputView {
        OutputView {
            code: self.code,
            status: self.status@,
            stdout: self.stdout@,
            stderr: self.stderr@,
        }
    }
}

/// The outcome of trying to run a command: its output, or why it could not
/// be run to its end (it failed to start, or timed out).
pub open spec fn outcome_view(outcome: Result<CommandOutput, String>) -> Result<
    OutputView,
    Seq<char>,
> {
    match outcome {
        Ok(out) => Ok(out@),
        Err(e) => Err(e@),
    }
}

/// The text that `String::from_utf8_lossy` makes of `bytes`.
pub uninterp spec fn utf8_lossy(bytes: Seq<u8>) -> Seq<char>;

/// Calls `String::from_utf8_lossy`. Claimed: the result is `utf8_lossy` of the
/// bytes, and valid UTF-8 is decoded unchanged. What replaces invalid
/// sequences is left unsaid beyond the name.
#[verifier::external_body]
fn decode_lossy(bytes: &[u8]) -> (s: String)
    ensures
        s@ == utf8_lossy(bytes@),
        valid_utf8(bytes@) ==> s@ == decode_utf8(bytes@),
{
    String::from_utf8_lossy(bytes).into_owned()
}

/// The exit status counts as success: the process exited with code 0.
pub open spec fn succeeded(out: OutputView) -> bool {
    out.code == Some(0i32)
}

/// The message for a command that `program` ran and that failed: its trimmed
/// stderr, else its trimmed stdout, else its exit status.
pub open spec fn spec_output_error(program: Seq<char>, out: OutputView) -> Seq<char> {
    let stderr = trim(utf8_lossy(out.stderr));
    let stdout = trim(utf8_lossy(out.stdout));
    if stderr.len() != 0 {
        program + ": "@ + stderr
    } else if stdout.len() == 0 {
        program + " exited with "@ + out.status
    } else {
        program + ": "@ + stdout
    }
}

/// The trimmed stdout of a command that succeeded, or the error for one that
/// could not run or failed.
pub open spec fn spec_checked(program: Seq<char>, outcome: Result<OutputView, Seq<char>>) -> Result<
    Seq<char>,
    Seq<char>,
> {
    match outcome {
        Err(e) => Err(e),
        Ok(out) => if succeeded(out) {
            Ok(trim(utf8_lossy(out.stdout)))
        } else {
            Err(spec_output_error(program, out))
        },
    }
}

/// A command that did not exit with code 0 never counts as done: its outcome
/// is the error built from what it printed.
pub proof fn law_failure_is_error(program: Seq<char>, out: OutputView)
    requires
        !succeeded(out),
    ensures
        spec_checked(program, Ok(out)) == Err::<Seq<char>, Seq<char>>(
            spec_output_error(program, out),
        ),
{
}

/// Success is the exit status alone: a command that exited with code 0
/// succeeds whatever it printed on stderr, and its outcome is its trimmed
/// stdout.
pub proof fn law_exit_zero_is_success(program: Seq<char>, out: OutputView)
    ensures
        succeeded(out) <==> out.code == Some(0i32),
        out.code == Some(0i32) ==> spec_checked(program, Ok(out)) == Ok::<Seq<char>, Seq<char>>(
            trim(utf8_lossy(out.stdout)),
        ),
{
}

impl CommandOutput {
    pub fn success(&self) -> (b: bool)
        ensures
            b == succeeded(self@),
    {
        match self.code {
            Some(code) => code == 0,
            None => false,
        }
    }

    /// The stdout as text, without leading and trailing whitespace.
    pub fn trimmed_stdout(&self) -> (s: String)
        ensures
            s@ == trim(utf8_lossy(self.stdout@)),
    {
        let text = decode_lossy(self.stdout.as_slice());
        trim_str(text.as_str())
    }

    /// The stderr as text, without leading and trailing whitespace.
    pub fn trimmed_stderr(&self) -> (s: String)
        ensures
            s@ == trim(utf8_lossy(self.stderr@)),
    {
        let text = decode_lossy(self.stderr.as_slice());
        trim_str(text.as_str())
    }
}

/// The message for a failed command.
pub fn output_error(program: &str, output: &CommandOutput) -> (s: String)
    ensures
        s@ == spec_output_error(program@, output@),
{
    let stderr = output.trimmed_stderr();
    if stderr.as_str().unicode_len() != 0 {
        let head = concat(program, ": ");
        concat(head.as_str(), stderr.as_str())
    } else {
        let stdout = output.trimmed_stdout();
        if stdout.as_str().unicode_len() == 0 {
            let head = concat(program, " exited with ");
            concat(head.as_str(), output.status.as_str())
        } else {
            let head = concat(program, ": ");
            concat(head.as_str(), stdout.as_str())
        }
    }
}

/// The trimmed stdout of `program` if it ran and succeeded, else the error.
pub fn checked_stdout(program: &str, outcome: Result<CommandOutput, String>) -> (r: Result<
    String,
    String,
>)
    ensures
        text_result_view(r) == spec_checked(program@, outcome_view(outcome)),
{
    match outcome {
        Err(e) => Err(e),
        Ok(output) => {
            if !output.success() {
                Err(output_error(program, &output))
            } else {
                Ok(output.trimmed_stdout())
            }
        },
    }
}

/// An invocation of `program` with the given arguments.
pub fn invocation(program: &str, args: &[&str]) -> (inv: Invocation)
    ensures
        inv.program@ == program@,
        inv.args@.len() == args@.len(),
        forall|i: int| 0 <= i < args@.len() ==> #[trigger] inv.args@[i]@ == args@[i]@,
        args_view(inv.args@) == args@.map_values(|a: &str| a@),
{
    let mut out: Vec<String> = Vec::new();
    let mut k: usize = 0;
    while k < args.len()
        invariant
            k <= args@.len(),
            out@.len() == k,
            forall|i: int| 0 <= i < k ==> #[trigger] out@[i]@ == args@[i]@,
        decreases args@.len() - k,
    {
        out.push(args[k].to_owned());
        k = k + 1;
    }
    let inv = Invocation { program: program.to_owned(), args: out };
    assert(args_view(inv.args@) =~= args@.map_values(|a: &str| a@));
    inv
}

} // verus!
