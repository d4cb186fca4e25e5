pub mod basic;
pub mod history;
pub mod interactive;
pub mod outcome;

pub use outcome::{OtherError, OtherResult, ReadFailure, ReadlineResult};
