//! The documents exchanged with the identity provider, as plain data.

use vstd::prelude::*;

verus! {

/// The provider's discovery document.
#[derive(Clone, Debug, PartialEq, Eq)]
pub struct EveSsoMetaData {
    pub authorization_endpoint: String,
    pub code_challenge_methods_supported: Vec<String>,
    pub issuer: String,
    pub jwks_uri: String,
    pub response_types_supported: Vec<String>,
    pub revocation_endpoint: String,
    pub revocation_endpoint_auth_methods_supported: Vec<String>,
    pub token_endpoint: String,
    pub token_endpoint_auth_methods_supported: Vec<String>,
    pub token_endpoint_auth_signing_alg_values_supported: Vec<String>,
}

/// The provider's key set document.
#[derive(Clone, Debug, PartialEq, Eq)]
pub struct EveJwtKeys {
    pub skip_unresolved_json_web_keys: bool,
    pub keys: Vec<EveJwtKey>,
}

/// One public key of the provider, tagged by its algorithm.
#[derive(Clone, Debug, PartialEq, Eq)]
pub enum EveJwtKey {
    RS256 { e: String, kid: String, kty: String, n: String, usage: String },
    ES256 { crv: String, kid: String, kty: String, usage: String, x: String, y: String },
}

/// The claims of a token that passed every check.
#[derive(Clone, Debug, PartialEq, Eq)]
pub struct EveJwtClaims {
    pub scp: Option<Vec<String>>,
    pub jti: String,
    pub kid: String,
    pub sub: String,
    pub azp: String,
    pub tenant: String,
    pub tier: String,
    pub region: String,
    pub aud: String,
    pub name: String,
    pub owner: String,
    pub exp: u64,
    pub iat: u64,
    pub iss: String,
}

} // verus!
