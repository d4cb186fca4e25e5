use vstd::prelude::*;
use crate::outcome::{OtherError, OtherResult};
use rustyline::error::ReadlineError;

verus! {

/// The directory to create before the history is saved: the parent of the
/// history file, but only when that file does not exist yet.
pub fn directory_to_create<'a>(exists: bool, parent: Option<&'a std::path::Path>) -> (r: Option<&'a std::path::Path>)
    ensures
        exists ==> r is None,
        !exists ==> r == parent,
{
    if exists {
        None
    } else {
        parent
    }
}

/// The result of loading the history: a file that does not exist yet means
/// an empty history, so the load succeeds whatever the editor reported;
/// otherwise the editor's result, its error kept whole.
pub fn load_outcome(exists: bool, loaded: Result<(), ReadlineError>) -> (out: OtherResult<()>)
    ensures
        !exists ==> out is Ok,
        exists ==> (loaded is Ok <==> out is Ok),
        exists ==> (loaded matches Err(e) ==> out == Err::<(), OtherError>(OtherError::Editor(e))),
{
    if exists {
        from_editor(loaded)
    } else {
        Ok(())
    }
}

/// The result of a history operation of the line editor, its error kept whole.
pub fn from_editor(r: Result<(), ReadlineError>) -> (out: OtherResult<()>)
    ensures
        r is Ok <==> out is Ok,
        r matches Err(e) ==> out == Err::<(), OtherError>(OtherError::Editor(e)),
{
    match r {
        Ok(()) => Ok(()),
        Err(e) => Err(OtherError::Editor(e)),
    }
}

/// The result of a file-system step of a history operation, its error kept whole.
pub fn from_io(r: Result<(), std::io::Error>) -> (out: OtherResult<()>)
    ensures
        r is Ok <==> out is Ok,
        r matches Err(e) ==> out == Err::<(), OtherError>(OtherError::Io(e)),
{
    match r {
        Ok(()) => Ok(()),
        Err(e) => Err(OtherError::Io(e)),
    }
}

} // verus!
