use vstd::prelude::*;

verus! {

/// The failures that the authentication subsystem surfaces to its caller.
///
/// Every failure of the flow is one of these variants; the caller only needs
/// to display them, except that `Denied` and `Expired` mean the flow is dead
/// and a fresh start is required.
#[derive(Debug, Clone, PartialEq, Eq)]
pub enum AuthError {
    /// Transport or connection failure while talking to the provider.
    NetworkError(String),
    /// Non-success status, or an explicit provider error that is not part of
    /// the device-flow protocol, with the cause as reported.
    ProviderError(String),
    /// The user rejected the authorization request. Fatal for this flow.
    Denied,
    /// The device code's lifetime elapsed before the user approved. Fatal.
    Expired,
    /// The local callback port could not be bound.
    BindError,
    /// The provider's response body did not have the expected shape.
    MalformedResponse(String),
}

/// What `describe` returns for each variant.
pub open spec fn spec_describe(e: AuthError) -> Seq<char> {
    match e {
        AuthError::NetworkError(_) => "network failure while contacting the provider"@,
        AuthError::ProviderError(_) => "the provider reported an error"@,
        AuthError::Denied => "the user denied the authorization request"@,
        AuthError::Expired => "the device code expired before approval"@,
        AuthError::BindError => "the local callback port is unavailable"@,
        AuthError::MalformedResponse(_) => "the provider response was malformed"@,
    }
}

impl AuthError {
    /// A short human-readable description of the failure, one per variant.
    pub fn describe(&self) -> (r: &'static str)
        ensures
            r@ == spec_describe(*self),
    {
        match self {
            AuthError::NetworkError(_) => "network failure while contacting the provider",
            AuthError::ProviderError(_) => "the provider reported an error",
            AuthError::Denied => "the user denied the authorization request",
            AuthError::Expired => "the device code expired before approval",
            AuthError::BindError => "the local callback port is unavailable",
            AuthError::MalformedResponse(_) => "the provider response was malformed",
        }
    }

    /// The cause string carried by the variants that record one.
    pub fn cause(&self) -> (r: Option<&String>)
        ensures
            match *self {
                AuthError::NetworkError(c) => r matches Some(s) && *s == c,
                AuthError::ProviderError(c) => r matches Some(s) && *s == c,
                AuthError::MalformedResponse(c) => r matches Some(s) && *s == c,
                _ => r is None,
            },
    {
        match self {
            AuthError::NetworkError(c) => Some(c),
            AuthError::ProviderError(c) => Some(c),
            AuthError::MalformedResponse(c) => Some(c),
            _ => None,
        }
    }
}

} // verus!
