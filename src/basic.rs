use vstd::prelude::*;
use crate::outcome::{OtherResult, ReadlineResult};

verus! {

#[verifier::external_type_specification]
#[verifier::external_body]
pub struct ExPath(std::path::Path);

/// Any type can serve as the helper of the basic backend: it has no
/// completion, hints, highlighting or validation to customise.
pub trait Helper {}

impl<T> Helper for T {}

/// The fallback backend for settings without terminal control. It keeps no
/// history: every history operation succeeds and changes nothing.
pub struct Readline<H: Helper> {
    helper: H,
}

impl<H: Helper> Readline<H> {
    pub closed spec fn helper(&self) -> H {
        self.helper
    }

    pub fn new(helper: H) -> (r: Self)
        ensures
            r.helper() == helper,
    {
        Readline { helper }
    }

    pub fn load_history(&mut self, _path: &std::path::Path) -> (r: OtherResult<()>)
        ensures
            r is Ok,
            *final(self) == *old(self),
    {
        Ok(())
    }

    pub fn save_history(&mut self, _path: &std::path::Path) -> (r: OtherResult<()>)
        ensures
            r is Ok,
            *final(self) == *old(self),
    {
        Ok(())
    }

    pub fn add_history_entry(&mut self, _entry: &str) -> (r: OtherResult<()>)
        ensures
            r is Ok,
            *final(self) == *old(self),
    {
        Ok(())
    }
}

#[verifier::external_type_specification]
pub struct ExErrorKind(std::io::ErrorKind);

/// Relies on std::io::Error::kind, which reports the category of an I/O error.
pub assume_specification[ std::io::Error::kind ](e: &std::io::Error) -> std::io::ErrorKind;

/// The outcome of a failed read of the input stream, decided by the error's
/// kind: an interrupt, invalid text, or else an I/O fault carrying the error.
pub fn stream_failure(kind: std::io::ErrorKind, e: std::io::Error) -> (r: ReadlineResult)
    ensures
        kind == std::io::ErrorKind::Interrupted ==> r is Interrupt,
        kind == std::io::ErrorKind::InvalidData ==> r is EncodingError,
        kind != std::io::ErrorKind::Interrupted && kind != std::io::ErrorKind::InvalidData
            ==> r == ReadlineResult::IO(e),
{
    match kind {
        std::io::ErrorKind::Interrupted => ReadlineResult::Interrupt,
        std::io::ErrorKind::InvalidData => ReadlineResult::EncodingError,
        _ => ReadlineResult::IO(e),
    }
}

/// What becomes of a read once the prompt has been flushed: `None` when the
/// flush succeeded and the line is to be read, else the outcome, with no read.
pub fn after_prompt(flushed: Result<(), std::io::Error>) -> (r: Option<ReadlineResult>)
    ensures
        flushed is Ok <==> r is None,
        flushed matches Err(e) ==> r == Some(ReadlineResult::IO(e)),
{
    match flushed {
        Ok(()) => None,
        Err(e) => Some(ReadlineResult::IO(e)),
    }
}

/// The outcome of taking the next line of the input stream: no line at all
/// means the end of the input; a stream error is decided by its kind, as
/// `stream_failure` states, and is never a line.
pub fn line_outcome(next: Option<Result<String, std::io::Error>>) -> (r: ReadlineResult)
    ensures
        next is None ==> r is EOF,
        next matches Some(Ok(line)) ==> r == ReadlineResult::Line(line),
        next matches Some(Err(e)) ==> (r is Interrupt || r is EncodingError || r == ReadlineResult::IO(e)),
{
    match next {
        None => ReadlineResult::EOF,
        Some(Ok(line)) => ReadlineResult::Line(line),
        Some(Err(e)) => {
            let kind = e.kind();
            stream_failure(kind, e)
        },
    }
}

} // verus!
