//! Process supervision: the lifecycle unit, its manager, command
//! construction and stat bookkeeping.

pub mod command;
pub mod manager;

pub mod process;
pub mod stats;

use vstd::prelude::*;

verus! {

/// Why a process operation was refused.
#[derive(Debug, Clone, Copy, PartialEq, Eq, Structural)]
pub enum ProcError {
    /// A command line could not be split into shell words.
    BadCommandString,
    /// Neither an image nor a non-empty command was specified.
    MissingCommand,
    /// No process with the requested name exists.
    NotFound,
}

impl ProcError {
    /// The operator-facing description of the error.
    pub fn message(&self) -> (r: String)
        ensures
            self is BadCommandString ==> r@ == "Bad command string"@,
            self is MissingCommand ==> r@ == "Must specify command if no image"@,
            self is NotFound ==> r@ == "No such process"@,
    {
        match self {
            ProcError::BadCommandString => "Bad command string".to_owned(),
            ProcError::MissingCommand => "Must specify command if no image".to_owned(),
            ProcError::NotFound => "No such process".to_owned(),
        }
    }
}

} // verus!
