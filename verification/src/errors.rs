//! The error kinds of the tool. All are terminal: a run that meets one
//! aborts without retrying.

use vstd::prelude::*;

verus! {

/// Every way a run can fail.
#[derive(Clone, Copy, Debug, PartialEq, Eq, Structural)]
pub enum AppError {
    /// The input does not split into exactly two non-empty segments.
    MalformedIdentifier,
    /// No token came from the flag, the environment, or a local config file.
    MissingCredential,
    /// A transport-level failure on either API call.
    RequestFailed,
    /// A response body does not match the expected JSON shape.
    DecodeFailed,
    /// The metadata response lacks a default branch value.
    MissingDefaultBranch,
    /// The destination file cannot be created or written.
    OutputWriteFailed,
}

/// The human-readable message of each error kind.
pub open spec fn message_spec(e: AppError) -> Seq<char> {
    match e {
        AppError::MalformedIdentifier => "Repository name must be in the format 'username/repo'"@,
        AppError::MissingCredential => "GitHub token not provided. Set it as an argument, in the GITHUB_TOKEN environment variable, or in a .env file as GITHUB_TOKEN"@,
        AppError::RequestFailed => "Request to the API failed"@,
        AppError::DecodeFailed => "Failed to decode the API response"@,
        AppError::MissingDefaultBranch => "Default branch not found"@,
        AppError::OutputWriteFailed => "Failed to write the output file"@,
    }
}

impl AppError {
    /// The message printed when the run aborts with this error.
    pub fn message(&self) -> (res: &'static str)
        ensures
            res@ == message_spec(*self),
    {
        match self {
            AppError::MalformedIdentifier => "Repository name must be in the format 'username/repo'",
            AppError::MissingCredential => "GitHub token not provided. Set it as an argument, in the GITHUB_TOKEN environment variable, or in a .env file as GITHUB_TOKEN",
            AppError::RequestFailed => "Request to the API failed",
            AppError::DecodeFailed => "Failed to decode the API response",
            AppError::MissingDefaultBranch => "Default branch not found",
            AppError::OutputWriteFailed => "Failed to write the output file",
        }
    }
}

} // verus!
