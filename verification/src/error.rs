//! The engine's error taxonomy.
//!
//! Schema-construction failures surface synchronously to the registering
//! code; dispatch-time failures flow to the host's error handler. Malformed
//! argument input and unresolved help topics never use this type: they are
//! reported as plain diagnostics and the loop continues.

use vstd::prelude::*;
use vstd::string::*;

verus! {

/// An error raised by the engine itself.
#[derive(Debug)]
pub enum Error {
    /// Dispatch could not resolve a command name that is neither registered
    /// nor one of the built-ins `help` / `exit`.
    UnknownCommand(String),
    /// Schema construction tried to mark a parameter required after a
    /// default was already set for it.
    IllegalRequiredError(String),
    /// Schema construction tried to set a default on a required parameter.
    IllegalDefaultError(String),
}

/// The mathematical shape of an [`Error`]: the same three kinds over
/// character sequences.
pub enum ErrorModel {
    UnknownCommand(Seq<char>),
    IllegalRequiredError(Seq<char>),
    IllegalDefaultError(Seq<char>),
}

impl View for Error {
    type V = ErrorModel;

    open spec fn view(&self) -> ErrorModel {
        match self {
            Error::UnknownCommand(n) => ErrorModel::UnknownCommand(n@),
            Error::IllegalRequiredError(n) => ErrorModel::IllegalRequiredError(n@),
            Error::IllegalDefaultError(n) => ErrorModel::IllegalDefaultError(n@),
        }
    }
}

/// The display form of an error, over character sequences.
pub open spec fn spec_message(e: ErrorModel) -> Seq<char> {
    match e {
        ErrorModel::UnknownCommand(n) => "Unknown command: "@ + n,
        ErrorModel::IllegalRequiredError(n) => "Parameter '"@ + n
            + "' cannot be required: it already has a default"@,
        ErrorModel::IllegalDefaultError(n) => "Parameter '"@ + n
            + "' cannot have a default: it is required"@,
    }
}

impl Error {
    /// The display form of the error, fit for the error stream.
    pub fn message(&self) -> (r: String)
        ensures
            r@ == spec_message(self@),
    {
        let mut out = String::new();
        match self {
            Error::UnknownCommand(n) => {
                out.append("Unknown command: ");
                out.append(n.as_str());
            },
            Error::IllegalRequiredError(n) => {
                out.append("Parameter '");
                out.append(n.as_str());
                out.append("' cannot be required: it already has a default");
            },
            Error::IllegalDefaultError(n) => {
                out.append("Parameter '");
                out.append(n.as_str());
                out.append("' cannot have a default: it is required");
            },
        }
        out
    }
}

} // verus!
