//! RS256 signature verification. The arithmetic is the `jsonwebtoken` crate's;
//! this module gives its results a name so that contracts can speak of them.

use vstd::prelude::*;

verus! {

/// The error type of the `jsonwebtoken` crate, carried through unopened.
#[verifier::external_type_specification]
#[verifier::external_body]
pub struct ExJwtError(jsonwebtoken::errors::Error);

/// Whether `jsonwebtoken::DecodingKey::from_rsa_components` accepts the modulus
/// `n` and the exponent `e`, both given as text.
pub uninterp spec fn rsa_components_decodable(n: Seq<char>, e: Seq<char>) -> bool;

/// What `jsonwebtoken::crypto::verify` answers for RS256 on the signature text
/// `signature` over `message`, under the key with modulus `n` and exponent `e`:
/// `Some(true)` where the signature verifies, `Some(false)` where it does not,
/// `None` where the call fails.
pub uninterp spec fn rs256_outcome(
    signature: Seq<char>,
    message: Seq<char>,
    n: Seq<char>,
    e: Seq<char>,
) -> Option<bool>;

/// Calls `jsonwebtoken::DecodingKey::from_rsa_components` and drops the key.
/// Trusted: the call succeeds exactly where `rsa_components_decodable` says so;
/// nothing else is claimed of it.
#[verifier::external_body]
pub(crate) fn check_rsa_components(n: &str, e: &str) -> (res: Result<
    (),
    jsonwebtoken::errors::Error,
>)
    ensures
        res is Ok <==> rsa_components_decodable(n@, e@),
{
    jsonwebtoken::DecodingKey::from_rsa_components(n, e).map(|_| ())
}

/// Calls `jsonwebtoken::crypto::verify` with `Algorithm::RS256`, on a key made by
/// `jsonwebtoken::DecodingKey::from_rsa_components`. Trusted: the answer is
/// `rs256_outcome` of the four texts, a failure of either call being `None`.
#[verifier::external_body]
pub(crate) fn rs256_verify(signature: &str, message: &str, n: &str, e: &str) -> (res: Result<
    bool,
    jsonwebtoken::errors::Error,
>)
    ensures
        res matches Ok(valid) ==> rs256_outcome(signature@, message@, n@, e@) == Some(valid),
        res is Err ==> rs256_outcome(signature@, message@, n@, e@) is None,
{
    let key = jsonwebtoken::DecodingKey::from_rsa_components(n, e)?;
    jsonwebtoken::crypto::verify(signature, message.as_bytes(), &key, jsonwebtoken::Algorithm::RS256)
}

} // verus!
