use vstd::prelude::*;

verus! {

/// Transport-level classification of a failed call.
#[derive(Clone, Copy, Debug, PartialEq, Eq, Structural)]
pub enum Code {
    InvalidArgument,
    NotFound,
    AlreadyExists,
    Internal,
    DeadlineExceeded,
    Unavailable,
}

/// A classified failure handed back to the caller.
#[derive(Clone, Debug, PartialEq, Eq)]
pub struct Status {
    pub code: Code,
    pub message: String,
}

/// A failure reported by the coordinator.
#[derive(Clone, Debug, PartialEq, Eq)]
pub enum StorageError {
    BadInput { description: String },
    NotFound { description: String },
    AlreadyExists { description: String },
    ServiceError { description: String },
    Timeout { description: String },
    Unavailable { description: String },
}

impl StorageError {
    /// The fixed table from coordinator failures to transport codes.
    pub open spec fn spec_code(&self) -> Code {
        match self {
            StorageError::BadInput { .. } => Code::InvalidArgument,
            StorageError::NotFound { .. } => Code::NotFound,
            StorageError::AlreadyExists { .. } => Code::AlreadyExists,
            StorageError::ServiceError { .. } => Code::Internal,
            StorageError::Timeout { .. } => Code::DeadlineExceeded,
            StorageError::Unavailable { .. } => Code::Unavailable,
        }
    }

    pub open spec fn spec_description(&self) -> String {
        match self {
            StorageError::BadInput { description } => *description,
            StorageError::NotFound { description } => *description,
            StorageError::AlreadyExists { description } => *description,
            StorageError::ServiceError { description } => *description,
            StorageError::Timeout { description } => *description,
            StorageError::Unavailable { description } => *description,
        }
    }

    /// The transport code this failure is reported under.
    pub fn code(&self) -> (r: Code)
        ensures
            r == self.spec_code(),
    {
        match self {
            StorageError::BadInput { .. } => Code::InvalidArgument,
            StorageError::NotFound { .. } => Code::NotFound,
            StorageError::AlreadyExists { .. } => Code::AlreadyExists,
            StorageError::ServiceError { .. } => Code::Internal,
            StorageError::Timeout { .. } => Code::DeadlineExceeded,
            StorageError::Unavailable { .. } => Code::Unavailable,
        }
    }
}

/// `a` and `b` are failures of the same kind, whatever their descriptions.
pub open spec fn same_kind(a: StorageError, b: StorageError) -> bool {
    match (a, b) {
        (StorageError::BadInput { .. }, StorageError::BadInput { .. }) => true,
        (StorageError::NotFound { .. }, StorageError::NotFound { .. }) => true,
        (StorageError::AlreadyExists { .. }, StorageError::AlreadyExists { .. }) => true,
        (StorageError::ServiceError { .. }, StorageError::ServiceError { .. }) => true,
        (StorageError::Timeout { .. }, StorageError::Timeout { .. }) => true,
        (StorageError::Unavailable { .. }, StorageError::Unavailable { .. }) => true,
        _ => false,
    }
}

/// The classification keeps the kind of a coordinator failure: two failures get
/// the same transport code exactly when they are of the same kind, so no failure
/// is folded into another's class.
pub proof fn lemma_code_identifies_kind(a: StorageError, b: StorageError)
    ensures
        a.spec_code() == b.spec_code() <==> same_kind(a, b),
{
}

/// The status a coordinator failure is reported as: its code from the fixed
/// table and its description as the message.
pub open spec fn status_of(e: StorageError) -> Status {
    Status { code: e.spec_code(), message: e.spec_description() }
}

/// Classifies a coordinator failure.
pub fn error_to_status(e: StorageError) -> (r: Status)
    ensures
        r == status_of(e),
{
    let code = e.code();
    let message = match e {
        StorageError::BadInput { description } => description,
        StorageError::NotFound { description } => description,
        StorageError::AlreadyExists { description } => description,
        StorageError::ServiceError { description } => description,
        StorageError::Timeout { description } => description,
        StorageError::Unavailable { description } => description,
    };
    Status { code, message }
}

} // verus!
