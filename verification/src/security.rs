//! Errors shared by the authentication, authorization, secrets and audit modules.
use vstd::prelude::*;

verus! {

/// Security error types.
#[derive(Debug)]
pub enum SecurityError {
    AuthenticationFailed(String),
    AuthorizationDenied(String),
    InvalidToken(String),
    SecretNotFound(String),
    EncryptionError(String),
    AuditError(String),
}

/// Result type for security operations.
pub type SecurityResult<T> = Result<T, SecurityError>;

impl SecurityError {
    /// The text that the error displays: its kind, a colon, and its detail.
    pub fn message(&self) -> (s: String)
        ensures
            s@ == self.message_spec(),
    {
        let (prefix, detail) = match self {
            SecurityError::AuthenticationFailed(d) => ("Authentication failed: ", d),
            SecurityError::AuthorizationDenied(d) => ("Authorization denied: ", d),
            SecurityError::InvalidToken(d) => ("Invalid token: ", d),
            SecurityError::SecretNotFound(d) => ("Secret not found: ", d),
            SecurityError::EncryptionError(d) => ("Encryption error: ", d),
            SecurityError::AuditError(d) => ("Audit error: ", d),
        };
        let mut s = crate::text::owned(prefix);
        crate::text::push_str(&mut s, detail.as_str());
        s
    }

    pub open spec fn message_spec(&self) -> Seq<char> {
        match self {
            SecurityError::AuthenticationFailed(d) => "Authentication failed: "@ + d@,
            SecurityError::AuthorizationDenied(d) => "Authorization denied: "@ + d@,
            SecurityError::InvalidToken(d) => "Invalid token: "@ + d@,
            SecurityError::SecretNotFound(d) => "Secret not found: "@ + d@,
            SecurityError::EncryptionError(d) => "Encryption error: "@ + d@,
            SecurityError::AuditError(d) => "Audit error: "@ + d@,
        }
    }
}

} // verus!
