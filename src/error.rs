//! The failures that the library's operations report.
use vstd::prelude::*;

verus! {

#[verifier::external_type_specification]
#[verifier::external_body]
pub struct ExHttpError(reqwest::Error);

/// One failure value for every operation of the library.
#[derive(Debug)]
pub enum PveError {
    /// The HTTP client could not be set up.
    Http(reqwest::Error),
    /// No cluster resource matches the identifier, by id or by name.
    NotFound(String),
    /// A task stopped with an exit status other than `OK` (or none).
    TaskFailed(Option<String>),
    /// A task reported a status other than `running` or `stopped`.
    UnknownTaskStatus(String),
    /// Every candidate host failed its probe.
    AllHostsFailed,
}

} // verus!
