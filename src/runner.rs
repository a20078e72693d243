//! Preparing a saved command for execution, and the status shown after it
//! ran.

use vstd::prelude::*;
use vstd::string::*;
use crate::text::{signed_decimal, signed_decimal_text};

verus! {

/// The words of a command line as shell-style splitting gives them (quotes
/// respected, no expansion), or `None` when the quoting is unbalanced.
pub uninterp spec fn shell_words_of(s: Seq<char>) -> Option<Seq<Seq<char>>>;

#[verifier::external_type_specification]
#[verifier::external_body]
pub struct ExParseError(shell_words::ParseError);

/// Relies on shell_words::split: the words of a command line, or an error
/// when its quoting is not closed.
#[verifier::external_body]
fn shell_split(s: &str) -> (r: Result<Vec<String>, shell_words::ParseError>)
    ensures
        r matches Ok(w) ==> shell_words_of(s@) == Some(w.deep_view()),
        r is Err ==> shell_words_of(s@) is None,
{
    shell_words::split(s)
}

/// Why a saved command cannot be run.
#[derive(Clone, Copy, Debug, PartialEq, Eq, Structural)]
pub enum RunError {
    /// The command line's quoting is not closed.
    Unparsable,
    /// The command line has no words.
    EmptyCommand,
}

impl RunError {
    /// The message shown for this error.
    pub fn message(&self) -> (r: &'static str)
        ensures
            *self == RunError::Unparsable ==> r@ == "Failed to parse command"@,
            *self == RunError::EmptyCommand ==> r@ == "Empty command"@,
    {
        match self {
            RunError::Unparsable => "Failed to parse command",
            RunError::EmptyCommand => "Empty command",
        }
    }
}

/// The program and its arguments from the words of a command line: an
/// error when there are no words.
pub fn args_from_words(words: Vec<String>) -> (r: Result<Vec<String>, RunError>)
    ensures
        words@.len() == 0 ==> r == Err::<Vec<String>, RunError>(RunError::EmptyCommand),
        words@.len() > 0 ==> r == Ok::<Vec<String>, RunError>(words),
{
    if words.len() == 0 {
        Err(RunError::EmptyCommand)
    } else {
        Ok(words)
    }
}

/// The program and its arguments for a command line, split as a shell
/// would split it: the first word is the program.
pub fn command_args(command: &str) -> (r: Result<Vec<String>, RunError>)
    ensures
        shell_words_of(command@) is None ==> r == Err::<Vec<String>, RunError>(RunError::Unparsable),
        shell_words_of(command@) matches Some(w) ==> (w.len() == 0 ==> r == Err::<Vec<String>, RunError>(RunError::EmptyCommand)),
        shell_words_of(command@) matches Some(w) ==> (w.len() > 0 ==> (r matches Ok(a) && a.deep_view() == w)),
{
    match shell_split(command) {
        Ok(words) => args_from_words(words),
        Err(_) => Err(RunError::Unparsable),
    }
}

/// How running a command ended.
#[derive(Clone, Debug)]
pub enum ExecOutcome {
    /// The program ran and exited with the code.
    Exited(i32),
    /// The program could not be run; the text says why.
    Failed(String),
}

/// The status line after running a command.
pub open spec fn exec_status_text(outcome: ExecOutcome) -> Seq<char> {
    match outcome {
        ExecOutcome::Exited(code) => if code == 0 {
            "✓ Command executed successfully"@
        } else {
            "⚠ Command exited with code "@ + signed_decimal(code as int)
        },
        ExecOutcome::Failed(m) => "✗ Error: "@ + m@,
    }
}

/// The status line after running a command.
pub fn exec_status(outcome: &ExecOutcome) -> (r: String)
    ensures
        r@ == exec_status_text(*outcome),
{
    match outcome {
        ExecOutcome::Exited(code) => {
            if *code == 0 {
                String::from_str("✓ Command executed successfully")
            } else {
                let mut s = String::from_str("⚠ Command exited with code ");
                let digits = signed_decimal_text(*code);
                s.append(digits.as_str());
                s
            }
        },
        ExecOutcome::Failed(m) => {
            let mut s = String::from_str("✗ Error: ");
            s.append(m.as_str());
            s
        },
    }
}

} // verus!
