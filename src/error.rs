//! The errors that starting a worker can meet.

use vstd::prelude::*;

verus! {

#[verifier::external_type_specification]
#[verifier::external_body]
pub struct ExIoError(std::io::Error);

#[verifier::external_type_specification]
#[verifier::external_body]
#[verifier::reject_recursive_types(T)]
pub struct ExSendError<T>(std::sync::mpsc::SendError<T>);

/// The base error type of `PromptBuffer`
pub enum PromptBufferError {
    /// Error variant for IO errors
    IO(std::io::Error),
    /// Error variant for channel send errors
    SendError(std::sync::mpsc::SendError<()>),
}

/// Convenience wrapper for `Result<T, PromptBufferError>`
pub type PromptBufferResult<T> = Result<T, PromptBufferError>;

} // verus!
