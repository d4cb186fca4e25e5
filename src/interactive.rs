use vstd::prelude::*;
use crate::outcome::{OtherError, ReadFailure, ReadlineResult};
use rustyline::config::{Builder, CompletionType, Config};
use rustyline::error::ReadlineError;

verus! {

#[verifier::external_type_specification]
#[verifier::external_body]
pub struct ExConfig(rustyline::config::Config);

#[verifier::external_type_specification]
#[verifier::external_body]
pub struct ExBuilder(rustyline::config::Builder);

#[verifier::external_type_specification]
pub struct ExCompletionType(rustyline::config::CompletionType);

/// The completion style a configuration builder holds.
pub uninterp spec fn builder_completion(b: Builder) -> CompletionType;

/// The tab width a configuration builder holds.
pub uninterp spec fn builder_tab_stop(b: Builder) -> usize;

/// Whether a configuration builder has bracketed paste on.
pub uninterp spec fn builder_paste(b: Builder) -> bool;

/// The completion style of an editor configuration.
pub uninterp spec fn config_completion(c: Config) -> CompletionType;

/// The tab width of an editor configuration.
pub uninterp spec fn config_tab_stop(c: Config) -> usize;

/// Whether an editor configuration has bracketed paste on.
pub uninterp spec fn config_paste(c: Config) -> bool;

/// Relies on rustyline's Config::builder, which starts from the defaults.
pub assume_specification[ Config::builder ]() -> Builder;

/// Relies on rustyline's Builder::completion_type, which sets the completion
/// style and nothing else.
pub assume_specification[ Builder::completion_type ](b: Builder, completion_type: CompletionType) -> (r: Builder)
    ensures
        builder_completion(r) == completion_type,
        builder_tab_stop(r) == builder_tab_stop(b),
        builder_paste(r) == builder_paste(b),
;

/// Relies on rustyline's Builder::tab_stop, which sets the tab width and
/// nothing else.
pub assume_specification[ Builder::tab_stop ](b: Builder, tab_stop: usize) -> (r: Builder)
    ensures
        builder_tab_stop(r) == tab_stop,
        builder_completion(r) == builder_completion(b),
        builder_paste(r) == builder_paste(b),
;

/// Relies on rustyline's Builder::bracketed_paste, which switches bracketed
/// paste and nothing else.
pub assume_specification[ Builder::bracketed_paste ](b: Builder, enabled: bool) -> (r: Builder)
    ensures
        builder_paste(r) == enabled,
        builder_completion(r) == builder_completion(b),
        builder_tab_stop(r) == builder_tab_stop(b),
;

/// Relies on rustyline's Builder::build, which hands out the configuration
/// the builder holds.
pub assume_specification[ Builder::build ](b: Builder) -> (r: Config)
    ensures
        config_completion(r) == builder_completion(b),
        config_tab_stop(r) == builder_tab_stop(b),
        config_paste(r) == builder_paste(b),
;

/// How the line editor presents completion candidates.
pub enum Completion {
    /// Cycle through the candidates one at a time.
    Circular,
    /// Complete the longest common prefix, then list the candidates.
    List,
}

/// The fixed settings of the interactive line editor.
pub struct EditorSettings {
    pub completion: Completion,
    pub tab_stop: usize,
    pub bracketed_paste: bool,
}

/// Tab stops of the interactive editor, in columns.
pub const TAB_STOP: usize = 8;

/// The settings of a REPL session: candidates shown as a list, tab stops
/// every eight columns, and bracketed paste off, so that pasted text arrives
/// one line per read.
pub fn repl_settings() -> (s: EditorSettings)
    ensures
        s.completion is List,
        s.tab_stop == 8,
        !s.bracketed_paste,
{
    EditorSettings { completion: Completion::List, tab_stop: TAB_STOP, bracketed_paste: false }
}

/// The line editor's configuration for the given settings.
pub fn editor_config(s: &EditorSettings) -> (c: Config)
    ensures
        config_completion(c) == (match s.completion {
            Completion::Circular => CompletionType::Circular,
            Completion::List => CompletionType::List,
        }),
        config_tab_stop(c) == s.tab_stop,
        config_paste(c) == s.bracketed_paste,
{
    let completion = match s.completion {
        Completion::Circular => CompletionType::Circular,
        Completion::List => CompletionType::List,
    };
    Config::builder()
        .completion_type(completion)
        .tab_stop(s.tab_stop)
        .bracketed_paste(s.bracketed_paste)
        .build()
}

/// The line editor's configuration for a REPL session: list completion, tab
/// stops every eight columns, bracketed paste off.
pub fn repl_config() -> (c: Config)
    ensures
        config_completion(c) == CompletionType::List,
        config_tab_stop(c) == 8,
        !config_paste(c),
{
    editor_config(&repl_settings())
}

/// Relies on the variants of rustyline's ReadlineError: an interrupt, the end
/// of input, an I/O fault and invalid UTF-8 each have their own variant; any
/// other error is kept whole.
#[verifier::external_body]
fn classify_editor_error(e: ReadlineError) -> (r: ReadFailure)
    ensures
        r is Interrupted || r is EndOfInput || r is Encoding || r is Io
            || r == ReadFailure::Other(OtherError::Editor(e)),
{
    match e {
        ReadlineError::Interrupted => ReadFailure::Interrupted,
        ReadlineError::Eof => ReadFailure::EndOfInput,
        ReadlineError::Io(inner) => ReadFailure::Io(inner),
        ReadlineError::Utf8Error => ReadFailure::Encoding,
        other => ReadFailure::Other(OtherError::Editor(other)),
    }
}

/// The outcome of one read of the line editor.
pub fn editor_outcome(r: Result<String, ReadlineError>) -> (out: ReadlineResult)
    ensures
        r matches Ok(line) ==> out == ReadlineResult::Line(line),
        r is Err ==> out !is Line,
        r matches Err(e) ==> (out is Interrupt || out is EOF || out is EncodingError || out is IO
            || out == ReadlineResult::Other(OtherError::Editor(e))),
{
    match r {
        Ok(line) => ReadlineResult::Line(line),
        Err(e) => ReadlineResult::from_failure(classify_editor_error(e)),
    }
}

} // verus!
