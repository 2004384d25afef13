//! Reading the outcome of a desktop command.

use crate::error::{Error, ErrorView};
use crate::text::{trim, trimmed};
use vstd::prelude::*;
use vstd::utf8::{decode_utf8, valid_utf8};

verus! {

/// The error of `String::from_utf8`. It is taken note of and never looked
/// into.
#[verifier::external_type_specification]
#[verifier::external_body]
pub struct ExFromUtf8Error(std::string::FromUtf8Error);

/// Calls `String::from_utf8`, which checks that the bytes are valid UTF-8
/// and, where they are, hands them out as the string that they encode.
#[verifier::external_body]
fn string_from_utf8(bytes: Vec<u8>) -> (r: Result<String, std::string::FromUtf8Error>)
    ensures
        r is Ok <==> valid_utf8(bytes@),
        r matches Ok(text) ==> text@ == decode_utf8(bytes@),
{
    String::from_utf8(bytes)
}

/// What became of a command that the caller ran.
#[derive(Debug, PartialEq, Eq)]
pub enum Execution {
    /// The command could not be started; the text says why.
    Unstarted(String),
    /// The command ran to an end. `code` is its exit code, or `None` where
    /// a signal ended it; `stdout` is what it wrote to standard output.
    Exited { code: Option<i32>, stdout: Vec<u8> },
}

/// What an [`Execution`] holds, as mathematical values.
pub enum ExecutionView {
    Unstarted(Seq<char>),
    Exited { code: Option<i32>, stdout: Seq<u8> },
}

impl View for Execution {
    type V = ExecutionView;

    open spec fn view(&self) -> ExecutionView {
        match *self {
            Execution::Unstarted(detail) => ExecutionView::Unstarted(detail@),
            Execution::Exited { code, stdout } => ExecutionView::Exited { code, stdout: stdout@ },
        }
    }
}

/// The failure for a command that reported failure by its exit code. A
/// command that a signal ended counts as having exited with -1.
pub open spec fn exit_failure(command: Seq<char>, code: Option<i32>) -> ErrorView {
    ErrorView::BackendError {
        command,
        exit_code: Some(
            match code {
                Some(c) => c,
                None => -1i32,
            },
        ),
        detail: Seq::empty(),
    }
}

impl ExecutionView {
    /// The answer of `command`: what it wrote to standard output, without
    /// the white space around it, where it exited with code 0 and wrote
    /// valid UTF-8.
    pub open spec fn answer(self, command: Seq<char>) -> Result<Seq<char>, ErrorView> {
        match self {
            ExecutionView::Unstarted(detail) => Err(
                ErrorView::BackendError { command, exit_code: None, detail },
            ),
            ExecutionView::Exited { code, stdout } => if code != Some(0i32) {
                Err(exit_failure(command, code))
            } else if valid_utf8(stdout) {
                Ok(trimmed(decode_utf8(stdout)))
            } else {
                Err(
                    ErrorView::BackendError {
                        command,
                        exit_code: None,
                        detail: "output is not valid UTF-8"@,
                    },
                )
            },
        }
    }
}

/// The trimmed standard output of `command`, given how running it ended.
pub fn get_stdout(command: &str, execution: Execution) -> (r: Result<String, Error>)
    ensures
        match r {
            Ok(text) => execution@.answer(command@) == Ok::<Seq<char>, ErrorView>(text@),
            Err(e) => execution@.answer(command@) == Err::<Seq<char>, ErrorView>(e@),
        },
{
    match execution {
        Execution::Unstarted(detail) => Err(
            Error::BackendError { command: command.to_owned(), exit_code: None, detail },
        ),
        Execution::Exited { code, stdout } => match code {
            Some(0) => match string_from_utf8(stdout) {
                Ok(text) => Ok(trim(text.as_str())),
                Err(_) => Err(
                    Error::BackendError {
                        command: command.to_owned(),
                        exit_code: None,
                        detail: "output is not valid UTF-8".to_owned(),
                    },
                ),
            },
            Some(c) => Err(
                Error::BackendError {
                    command: command.to_owned(),
                    exit_code: Some(c),
                    detail: String::new(),
                },
            ),
            None => Err(
                Error::BackendError {
                    command: command.to_owned(),
                    exit_code: Some(-1),
                    detail: String::new(),
                },
            ),
        },
    }
}

/// Whether `command` succeeded, given how running it ended. What it wrote
/// is read as in [`get_stdout`] and then dropped.
pub fn run(command: &str, execution: Execution) -> (r: Result<(), Error>)
    ensures
        match r {
            Ok(_) => execution@.answer(command@) is Ok,
            Err(e) => execution@.answer(command@) == Err::<Seq<char>, ErrorView>(e@),
        },
{
    get_stdout(command, execution)?;
    Ok(())
}

} // verus!
