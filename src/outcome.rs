use vstd::prelude::*;

verus! {

#[verifier::external_type_specification]
#[verifier::external_body]
pub struct ExIoError(std::io::Error);

#[verifier::external_type_specification]
#[verifier::external_body]
pub struct ExEditorError(rustyline::error::ReadlineError);

/// The cause carried by a failed history operation or by a read failure that
/// fits none of the other outcomes. The original error value is kept whole.
pub enum OtherError {
    Io(std::io::Error),
    Editor(rustyline::error::ReadlineError),
}

/// How one attempt to read a line ended. Exactly one variant describes it;
/// only `Line` carries text that the user entered.
pub enum ReadlineResult {
    Line(String),
    EOF,
    Interrupt,
    IO(std::io::Error),
    EncodingError,
    Other(OtherError),
}

/// Result of a history operation.
pub type OtherResult<T> = Result<T, OtherError>;

/// A read failure, sorted into the classes that callers tell apart.
pub enum ReadFailure {
    /// The user sent an interrupt.
    Interrupted,
    /// The input ended.
    EndOfInput,
    /// The input was not valid text.
    Encoding,
    /// A low-level I/O fault.
    Io(std::io::Error),
    /// Anything else the line editor reported.
    Other(OtherError),
}

impl ReadlineResult {
    /// The outcome that a classified read failure stands for.
    pub open spec fn spec_from_failure(f: ReadFailure) -> ReadlineResult {
        match f {
            ReadFailure::Interrupted => ReadlineResult::Interrupt,
            ReadFailure::EndOfInput => ReadlineResult::EOF,
            ReadFailure::Encoding => ReadlineResult::EncodingError,
            ReadFailure::Io(e) => ReadlineResult::IO(e),
            ReadFailure::Other(e) => ReadlineResult::Other(e),
        }
    }

    /// Maps a classified read failure to the outcome handed to the caller.
    pub fn from_failure(f: ReadFailure) -> (r: ReadlineResult)
        ensures
            r == Self::spec_from_failure(f),
            r !is Line,
            f is EndOfInput <==> r is EOF,
            f is Encoding <==> r is EncodingError,
            f is Interrupted <==> r is Interrupt,
    {
        match f {
            ReadFailure::Interrupted => ReadlineResult::Interrupt,
            ReadFailure::EndOfInput => ReadlineResult::EOF,
            ReadFailure::Encoding => ReadlineResult::EncodingError,
            ReadFailure::Io(e) => ReadlineResult::IO(e),
            ReadFailure::Other(e) => ReadlineResult::Other(e),
        }
    }

    /// The outcome of a read that either produced a line or failed.
    pub fn from_read(r: Result<String, ReadFailure>) -> (out: ReadlineResult)
        ensures
            r matches Ok(line) ==> out == ReadlineResult::Line(line),
            r matches Err(f) ==> out == Self::spec_from_failure(f),
    {
        match r {
            Ok(line) => ReadlineResult::Line(line),
            Err(f) => Self::from_failure(f),
        }
    }

    pub fn is_line(&self) -> (r: bool)
        ensures
            r == (*self is Line),
    {
        matches!(self, ReadlineResult::Line(_))
    }

    /// The entered text, for a `Line`.
    pub fn line(&self) -> (r: Option<&String>)
        ensures
            *self is Line <==> r is Some,
            *self matches ReadlineResult::Line(l) ==> r == Some(&l),
    {
        match self {
            ReadlineResult::Line(l) => Some(l),
            _ => None,
        }
    }
}

} // verus!
