//! The error type shared by the whole tool.

use vstd::prelude::*;

verus! {

/// An I/O error, carried through unchanged.
#[verifier::external_type_specification]
#[verifier::external_body]
pub struct ExIoError(std::io::Error);

/// An error of an interactive prompt, carried through unchanged.
#[verifier::external_type_specification]
#[verifier::external_body]
pub struct ExDialogError(dialoguer::Error);

/// Everything that can go wrong in the tool.
#[derive(Debug)]
pub enum CatoolsError {
    IoError(std::io::Error),
    UciError(String),
    NetworkError(String),
    ValidationError(String),
    ApiError(String),
    ConfigError(String),
    CommandError(String),
    DialogError(dialoguer::Error),
}

/// The error is a validation error whose message is `msg`.
pub open spec fn is_validation_error(e: CatoolsError, msg: Seq<char>) -> bool {
    e matches CatoolsError::ValidationError(m) && m@ == msg
}

} // verus!
