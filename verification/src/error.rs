//! The failure kinds of the sign-on flow.

use vstd::prelude::*;

verus! {

/// Why no signing key could be had.
#[derive(Clone, Copy, Debug, PartialEq, Eq, Structural)]
pub enum KeyFault {
    /// A request to the identity provider failed.
    ProviderUnreachable,
    /// The provider answered, but not with a document of the expected shape.
    MalformedProviderResponse,
    /// The key set holds no key for the verification algorithm.
    NoUsableKey,
}

/// Why a step of the sign-on flow was refused.
#[derive(Clone, Copy, Debug, PartialEq, Eq, Structural)]
pub enum SsoError {
    /// The signature does not verify under the selected key.
    InvalidSignature,
    /// The token names another issuer than the expected one.
    InvalidIssuer,
    /// The token names another audience than the expected one.
    InvalidAudience,
    /// The token's expiry is not in the future.
    TokenExpired,
    /// The token cannot be taken apart, or a required claim is missing.
    MalformedToken,
    /// No key to verify with; the cause is carried along.
    KeyUnavailable(KeyFault),
    /// The authorization code could not be exchanged for a token.
    TokenExchangeFailed,
    /// The redirect URL is not a URL.
    InvalidRedirectUrl,
    /// The state that came back is not the state that was sent.
    CsrfStateMismatch,
}

} // verus!
