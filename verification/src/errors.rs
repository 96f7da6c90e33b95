//! The publish pipeline's failure taxonomy and its mapping to HTTP responses.

use vstd::prelude::*;
use vstd::string::StringExecFns;

verus! {

/// Every way a publish attempt can fail.
///
/// The first three are client-caused rejections with no side effects;
/// the last two are server-side failures reported after side effects
/// may have begun.
#[derive(Clone, Copy, Debug, PartialEq, Eq, Structural)]
pub enum PublishError {
    /// No "file" field was found in the request.
    MissingFile,
    /// The payload exceeds the configured maximum size.
    PayloadTooLarge,
    /// The payload is not a recognised image, or failed to decode.
    InvalidMediaFormat,
    /// The object store refused or could not be reached; no record was made.
    StorageUnavailable,
    /// The object was stored but the metadata insert failed; the object is
    /// orphaned and its key is reported for out-of-band reconciliation.
    MetadataCommitFailed,
}

/// Failure reported by the object store client on `put` or `delete`.
pub struct StoreError {
    /// Operator-facing detail; logged, never echoed to the client.
    pub detail: String,
}

/// Failure reported by the relational store on the metadata insert.
pub struct CommitError {
    /// Operator-facing detail; logged, never echoed to the client.
    pub detail: String,
}

impl PublishError {
    /// The HTTP status for each failure: 400 for client-caused rejections,
    /// 413 specifically for an oversized payload, 500 for server-side failures.
    pub open spec fn status_code_spec(self) -> u16 {
        match self {
            PublishError::MissingFile => 400,
            PublishError::PayloadTooLarge => 413,
            PublishError::InvalidMediaFormat => 400,
            PublishError::StorageUnavailable => 500,
            PublishError::MetadataCommitFailed => 500,
        }
    }

    pub fn status_code(&self) -> (c: u16)
        ensures
            c == self.status_code_spec(),
    {
        match self {
            PublishError::MissingFile => 400,
            PublishError::PayloadTooLarge => 413,
            PublishError::InvalidMediaFormat => 400,
            PublishError::StorageUnavailable => 500,
            PublishError::MetadataCommitFailed => 500,
        }
    }

    /// The generic message shown to the client. Internal details never
    /// cross the trust boundary; only the classified reason does.
    pub open spec fn client_message_spec(self) -> Seq<char> {
        match self {
            PublishError::MissingFile => "File is empty"@,
            PublishError::PayloadTooLarge => "Request payload too large"@,
            PublishError::InvalidMediaFormat => "Invalid image format"@,
            PublishError::StorageUnavailable => "Internal server error"@,
            PublishError::MetadataCommitFailed => "Internal server error"@,
        }
    }

    pub fn client_message(&self) -> (m: String)
        ensures
            m@ == self.client_message_spec(),
    {
        match self {
            PublishError::MissingFile => String::from_str("File is empty"),
            PublishError::PayloadTooLarge => String::from_str("Request payload too large"),
            PublishError::InvalidMediaFormat => String::from_str("Invalid image format"),
            PublishError::StorageUnavailable => String::from_str("Internal server error"),
            PublishError::MetadataCommitFailed => String::from_str("Internal server error"),
        }
    }
}

} // verus!
