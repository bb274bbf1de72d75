use vstd::prelude::*;

verus! {

/// Why the backing store refused a write.
#[derive(Debug, Clone, Copy, PartialEq, Eq, Structural)]
pub enum StorageFault {
    /// The identifier is already the key of a stored entity of that kind.
    DuplicateKey,
    /// The parent identifier names no stored entity.
    MissingParent,
    /// The store itself could not run the operation.
    Unavailable,
}

/// The failures that the store's operations report to their callers.
#[derive(Debug, Clone, Copy, PartialEq, Eq, Structural)]
pub enum ApiError {
    DatabaseError(StorageFault),
    UnsupportedMedia,
    MalformedIdentifier,
    DataIntegrity,
}

/// The body sent back to a client for a failed request.
pub struct ErrorBody {
    pub error: String,
    pub status_code: u16,
}

pub open spec fn status_of(e: ApiError) -> u16 {
    match e {
        ApiError::DatabaseError(_) => 500,
        ApiError::UnsupportedMedia => 415,
        ApiError::MalformedIdentifier => 400,
        ApiError::DataIntegrity => 500,
    }
}

pub open spec fn message_of(e: ApiError) -> Seq<char> {
    match e {
        ApiError::DatabaseError(_) => "An error has occured in the database."@,
        ApiError::UnsupportedMedia => "Unsupported media provided."@,
        ApiError::MalformedIdentifier => "Malformed identifier provided."@,
        ApiError::DataIntegrity => "Stored data is corrupt."@,
    }
}

impl ApiError {
    /// The HTTP status under which this error is reported.
    pub fn status_code(&self) -> (r: u16)
        ensures
            r == status_of(*self),
    {
        match self {
            ApiError::DatabaseError(_) => 500,
            ApiError::UnsupportedMedia => 415,
            ApiError::MalformedIdentifier => 400,
            ApiError::DataIntegrity => 500,
        }
    }

    /// The text shown to a client for this error.
    pub fn message(&self) -> (r: String)
        ensures
            r@ == message_of(*self),
    {
        match self {
            ApiError::DatabaseError(_) => "An error has occured in the database.".to_string(),
            ApiError::UnsupportedMedia => "Unsupported media provided.".to_string(),
            ApiError::MalformedIdentifier => "Malformed identifier provided.".to_string(),
            ApiError::DataIntegrity => "Stored data is corrupt.".to_string(),
        }
    }

    /// The response body for this error.
    pub fn to_body(&self) -> (r: ErrorBody)
        ensures
            r.error@ == message_of(*self),
            r.status_code == status_of(*self),
    {
        ErrorBody { error: self.message(), status_code: self.status_code() }
    }
}

} // verus!
