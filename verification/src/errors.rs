use vstd::prelude::*;

verus! {

/// Result type shared by every operation of the platform.
pub type StudiFiResult<T> = Result<T, StudiFiError>;

/// Error kinds shared across the platform. Each carries a human-readable
/// message; the kind, not the text, is what callers branch on.
#[derive(Clone, Debug, PartialEq, Eq)]
pub enum StudiFiError {
    NotFound(String),
    AlreadyExists(String),
    Unauthorized(String),
    InvalidInput(String),
    InternalError(String),
    InsufficientFunds(String),
    Expired(String),
    NetworkError(String),
    ExternalServiceError(String),
    SystemError(String),
}

impl StudiFiError {
    /// The message carried by the error, without its kind label.
    pub fn message(&self) -> (r: &String)
        ensures
            r@ == self.spec_message(),
    {
        match self {
            StudiFiError::NotFound(m) => m,
            StudiFiError::AlreadyExists(m) => m,
            StudiFiError::Unauthorized(m) => m,
            StudiFiError::InvalidInput(m) => m,
            StudiFiError::InternalError(m) => m,
            StudiFiError::InsufficientFunds(m) => m,
            StudiFiError::Expired(m) => m,
            StudiFiError::NetworkError(m) => m,
            StudiFiError::ExternalServiceError(m) => m,
            StudiFiError::SystemError(m) => m,
        }
    }

    /// The message of the error as a mathematical character sequence.
    pub open spec fn spec_message(&self) -> Seq<char> {
        match self {
            StudiFiError::NotFound(m) => m@,
            StudiFiError::AlreadyExists(m) => m@,
            StudiFiError::Unauthorized(m) => m@,
            StudiFiError::InvalidInput(m) => m@,
            StudiFiError::InternalError(m) => m@,
            StudiFiError::InsufficientFunds(m) => m@,
            StudiFiError::Expired(m) => m@,
            StudiFiError::NetworkError(m) => m@,
            StudiFiError::ExternalServiceError(m) => m@,
            StudiFiError::SystemError(m) => m@,
        }
    }

    /// True when the error is the same kind as `other`, whatever the texts say.
    pub fn same_kind(&self, other: &StudiFiError) -> (r: bool)
        ensures
            r == self.spec_same_kind(other),
    {
        match (self, other) {
            (StudiFiError::NotFound(_), StudiFiError::NotFound(_)) => true,
            (StudiFiError::AlreadyExists(_), StudiFiError::AlreadyExists(_)) => true,
            (StudiFiError::Unauthorized(_), StudiFiError::Unauthorized(_)) => true,
            (StudiFiError::InvalidInput(_), StudiFiError::InvalidInput(_)) => true,
            (StudiFiError::InternalError(_), StudiFiError::InternalError(_)) => true,
            (StudiFiError::InsufficientFunds(_), StudiFiError::InsufficientFunds(_)) => true,
            (StudiFiError::Expired(_), StudiFiError::Expired(_)) => true,
            (StudiFiError::NetworkError(_), StudiFiError::NetworkError(_)) => true,
            (StudiFiError::ExternalServiceError(_), StudiFiError::ExternalServiceError(_)) => true,
            (StudiFiError::SystemError(_), StudiFiError::SystemError(_)) => true,
            _ => false,
        }
    }

    /// Kind equality, ignoring the carried message.
    pub open spec fn spec_same_kind(&self, other: &StudiFiError) -> bool {
        match (self, other) {
            (StudiFiError::NotFound(_), StudiFiError::NotFound(_)) => true,
            (StudiFiError::AlreadyExists(_), StudiFiError::AlreadyExists(_)) => true,
            (StudiFiError::Unauthorized(_), StudiFiError::Unauthorized(_)) => true,
            (StudiFiError::InvalidInput(_), StudiFiError::InvalidInput(_)) => true,
            (StudiFiError::InternalError(_), StudiFiError::InternalError(_)) => true,
            (StudiFiError::InsufficientFunds(_), StudiFiError::InsufficientFunds(_)) => true,
            (StudiFiError::Expired(_), StudiFiError::Expired(_)) => true,
            (StudiFiError::NetworkError(_), StudiFiError::NetworkError(_)) => true,
            (StudiFiError::ExternalServiceError(_), StudiFiError::ExternalServiceError(_)) => true,
            (StudiFiError::SystemError(_), StudiFiError::SystemError(_)) => true,
            _ => false,
        }
    }
}

} // verus!
