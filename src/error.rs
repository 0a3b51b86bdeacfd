use vstd::prelude::*;

verus! {

/// The kinds of failure of the certificate-issuance client.
#[derive(Debug)]
pub enum AcmeError {
    /// Incomplete or malformed input from the operator; never retried.
    Configuration(String),
    /// A request that the server rejected, or an answer it should not give.
    Protocol(String),
    /// The network could not be reached; the caller decides on a retry.
    Transport(String),
    /// The order ended as `invalid`, with the reason the server gave.
    OrderFailed(String),
    /// The signing key could not sign a request.
    Signing(String),
}

impl AcmeError {
    /// Whether this is a configuration error.
    pub fn is_configuration(&self) -> (r: bool)
        ensures
            r == (self is Configuration),
    {
        matches!(self, AcmeError::Configuration(_))
    }

    /// Whether this is a protocol error.
    pub fn is_protocol(&self) -> (r: bool)
        ensures
            r == (self is Protocol),
    {
        matches!(self, AcmeError::Protocol(_))
    }

    /// The detail that the error carries.
    pub fn message(&self) -> (r: &String)
        ensures
            match self {
                AcmeError::Configuration(m) => r == m,
                AcmeError::Protocol(m) => r == m,
                AcmeError::Transport(m) => r == m,
                AcmeError::OrderFailed(m) => r == m,
                AcmeError::Signing(m) => r == m,
            },
    {
        match self {
            AcmeError::Configuration(m) => m,
            AcmeError::Protocol(m) => m,
            AcmeError::Transport(m) => m,
            AcmeError::OrderFailed(m) => m,
            AcmeError::Signing(m) => m,
        }
    }
}

} // verus!
