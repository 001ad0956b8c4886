//! How a run ends: what it prints of the lines found, the line that
//! tells of a failure, and the exit status.

use vstd::prelude::*;
use vstd::string::StringExecFns;
use crate::config::ArgumentError;

verus! {

/// The exit status of a run that read its file, whatever it found there.
pub const EXIT_SUCCESS: i32 = 0;

/// The exit status of a run that failed.
pub const EXIT_FAILURE: i32 = 1;

/// Why a run failed. Neither kind is tried again.
#[derive(Debug)]
pub enum Failure {
    /// The argument list gave no configuration.
    Argument(ArgumentError),
    /// The file could not be read. The field holds the operating
    /// system's account of it, as it came.
    Io(String),
}

impl Failure {
    /// The characters of the line that reports this failure.
    pub open spec fn report_text(self) -> Seq<char> {
        match self {
            Failure::Argument(error) => "Problem parsing arguments: "@ + error.message_text(),
            Failure::Io(detail) => "Application error: "@ + detail@,
        }
    }

    /// The line that reports this failure, without a line ending.
    pub fn report(&self) -> (line: String)
        ensures
            line@ == self.report_text(),
    {
        match self {
            Failure::Argument(error) => {
                String::from_str("Problem parsing arguments: ").concat(error.message())
            },
            Failure::Io(detail) => String::from_str("Application error: ").concat(detail.as_str()),
        }
    }
}

/// The characters that a run prints for `lines`: each line in turn,
/// with a line feed after it and nothing else.
pub open spec fn printed_text(lines: Seq<Seq<char>>) -> Seq<char>
    decreases lines.len(),
{
    if lines.len() == 0 {
        Seq::empty()
    } else {
        printed_text(lines.drop_last()) + lines.last() + seq!['\n']
    }
}

/// The text that a run prints for the lines `found`: each line in turn,
/// with a line feed after it. Where nothing was found it is empty.
pub fn printed(found: &Vec<&str>) -> (text: String)
    ensures
        text@ == printed_text(found.deep_view()),
{
    let mut text = String::new();
    let mut i: usize = 0;
    while i < found.len()
        invariant
            i <= found.len(),
            text@ == printed_text(found.deep_view().take(i as int)),
        decreases found.len() - i,
    {
        text.append(found[i]);
        text.append("\n");
        proof {
            reveal_strlit("\n");
            assert(found.deep_view().take(i + 1).drop_last() =~= found.deep_view().take(i as int));
        }
        i += 1;
    }
    assert(found.deep_view().take(found.len() as int) =~= found.deep_view());
    text
}

/// The exit status for the outcome of a run: success where the file was
/// read, also where no line matched; failure otherwise.
pub fn exit_status(outcome: &Result<(), Failure>) -> (status: i32)
    ensures
        status == if outcome is Ok {
            EXIT_SUCCESS
        } else {
            EXIT_FAILURE
        },
{
    match outcome {
        Ok(_) => EXIT_SUCCESS,
        Err(_) => EXIT_FAILURE,
    }
}

} // verus!
