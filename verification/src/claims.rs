//! The claims of an identity token and the checks they must pass.

use vstd::prelude::*;
use crate::error::SsoError;
use crate::models::EveJwtClaims;

verus! {

/// The payload of a token as it was decoded: every claim may be absent.
#[derive(Clone, Debug, PartialEq, Eq)]
pub struct RawClaims {
    pub scp: Option<Vec<String>>,
    pub jti: Option<String>,
    pub kid: Option<String>,
    pub sub: Option<String>,
    pub azp: Option<String>,
    pub tenant: Option<String>,
    pub tier: Option<String>,
    pub region: Option<String>,
    pub aud: Option<String>,
    pub name: Option<String>,
    pub owner: Option<String>,
    pub exp: Option<u64>,
    pub iat: Option<u64>,
    pub iss: Option<String>,
}

/// What a token must say to be accepted.
#[derive(Clone, Debug, PartialEq, Eq)]
pub struct TokenPolicy {
    /// The issuer that the token must name.
    pub issuer: String,
    /// The audience that the token must name.
    pub audience: String,
    /// Seconds past its expiry during which a token still counts as live, to
    /// allow for clocks that disagree. Zero allows for none.
    pub leeway: u64,
}

/// The issuer of EVE Online's tokens.
pub const EVE_ISSUER: &'static str = "https://login.eveonline.com";

/// The audience that EVE Online's tokens name.
pub const EVE_AUDIENCE: &'static str = "EVE Online";

impl TokenPolicy {
    /// What a token of EVE Online must say, with the given leeway in seconds.
    pub fn eve_online(leeway: u64) -> (policy: TokenPolicy)
        ensures
            policy.issuer@ == EVE_ISSUER@,
            policy.audience@ == EVE_AUDIENCE@,
            policy.leeway == leeway,
    {
        TokenPolicy { issuer: EVE_ISSUER.to_owned(), audience: EVE_AUDIENCE.to_owned(), leeway }
    }
}

/// Every claim but `scp` is required.
pub open spec fn is_complete(raw: RawClaims) -> bool {
    &&& raw.jti is Some
    &&& raw.kid is Some
    &&& raw.sub is Some
    &&& raw.azp is Some
    &&& raw.tenant is Some
    &&& raw.tier is Some
    &&& raw.region is Some
    &&& raw.aud is Some
    &&& raw.name is Some
    &&& raw.owner is Some
    &&& raw.exp is Some
    &&& raw.iat is Some
    &&& raw.iss is Some
}

/// The claims that a complete payload states, each as it was decoded.
pub open spec fn stated_claims(raw: RawClaims) -> EveJwtClaims {
    EveJwtClaims {
        scp: raw.scp,
        jti: raw.jti->0,
        kid: raw.kid->0,
        sub: raw.sub->0,
        azp: raw.azp->0,
        tenant: raw.tenant->0,
        tier: raw.tier->0,
        region: raw.region->0,
        aud: raw.aud->0,
        name: raw.name->0,
        owner: raw.owner->0,
        exp: raw.exp->0,
        iat: raw.iat->0,
        iss: raw.iss->0,
    }
}

/// A token is live at `now` while its expiry, extended by the leeway, lies
/// strictly in the future.
pub open spec fn is_live(exp: u64, leeway: u64, now: u64) -> bool {
    exp + leeway > now
}

/// The verdict on a decoded payload at time `now`. The checks run in a fixed
/// order and the first that fails decides: the issuer, the audience, the
/// expiry, and last that no required claim is missing. A claim that a check
/// needs and that is absent makes the token malformed at that check.
pub open spec fn claims_verdict(payload: Option<RawClaims>, policy: TokenPolicy, now: u64) -> Result<
    EveJwtClaims,
    SsoError,
> {
    if payload is None {
        Err(SsoError::MalformedToken)
    } else if payload->0.iss is None {
        Err(SsoError::MalformedToken)
    } else if payload->0.iss->0@ != policy.issuer@ {
        Err(SsoError::InvalidIssuer)
    } else if payload->0.aud is None {
        Err(SsoError::MalformedToken)
    } else if payload->0.aud->0@ != policy.audience@ {
        Err(SsoError::InvalidAudience)
    } else if payload->0.exp is None {
        Err(SsoError::MalformedToken)
    } else if !is_live(payload->0.exp->0, policy.leeway, now) {
        Err(SsoError::TokenExpired)
    } else if !is_complete(payload->0) {
        Err(SsoError::MalformedToken)
    } else {
        Ok(stated_claims(payload->0))
    }
}

/// The verdict on a token whose signature check answered `signature`: `None`
/// where the signature could not be decoded, else whether it verifies. Only a
/// token whose signature verifies has its claims looked at.
pub open spec fn token_verdict(
    signature: Option<bool>,
    payload: Option<RawClaims>,
    policy: TokenPolicy,
    now: u64,
) -> Result<EveJwtClaims, SsoError> {
    match signature {
        None => Err(SsoError::MalformedToken),
        Some(false) => Err(SsoError::InvalidSignature),
        Some(true) => claims_verdict(payload, policy, now),
    }
}

/// Whether a token that expires at `exp` is live at `now`.
pub fn check_live(exp: u64, leeway: u64, now: u64) -> (live: bool)
    ensures
        live == is_live(exp, leeway, now),
{
    exp > now || now - exp < leeway
}

/// Turns a payload with no required claim missing into claims.
pub fn complete_claims(raw: RawClaims) -> (res: Option<EveJwtClaims>)
    ensures
        res is Some <==> is_complete(raw),
        res matches Some(claims) ==> claims == stated_claims(raw),
{
    if raw.jti.is_none() || raw.kid.is_none() || raw.sub.is_none() || raw.azp.is_none()
        || raw.tenant.is_none() || raw.tier.is_none() || raw.region.is_none() || raw.aud.is_none()
        || raw.name.is_none() || raw.owner.is_none() || raw.exp.is_none() || raw.iat.is_none()
        || raw.iss.is_none() {
        return None;
    }
    Some(
        EveJwtClaims {
            scp: raw.scp,
            jti: raw.jti.unwrap(),
            kid: raw.kid.unwrap(),
            sub: raw.sub.unwrap(),
            azp: raw.azp.unwrap(),
            tenant: raw.tenant.unwrap(),
            tier: raw.tier.unwrap(),
            region: raw.region.unwrap(),
            aud: raw.aud.unwrap(),
            name: raw.name.unwrap(),
            owner: raw.owner.unwrap(),
            exp: raw.exp.unwrap(),
            iat: raw.iat.unwrap(),
            iss: raw.iss.unwrap(),
        },
    )
}

/// Checks a decoded payload against the policy at time `now`.
pub fn check_claims(payload: Option<RawClaims>, policy: &TokenPolicy, now: u64) -> (res: Result<
    EveJwtClaims,
    SsoError,
>)
    ensures
        res == claims_verdict(payload, *policy, now),
{
    let raw = match payload {
        None => { return Err(SsoError::MalformedToken); },
        Some(raw) => raw,
    };
    match &raw.iss {
        None => { return Err(SsoError::MalformedToken); },
        Some(iss) => {
            if *iss != policy.issuer {
                return Err(SsoError::InvalidIssuer);
            }
        },
    }
    match &raw.aud {
        None => { return Err(SsoError::MalformedToken); },
        Some(aud) => {
            if *aud != policy.audience {
                return Err(SsoError::InvalidAudience);
            }
        },
    }
    match raw.exp {
        None => { return Err(SsoError::MalformedToken); },
        Some(exp) => {
            if !check_live(exp, policy.leeway, now) {
                return Err(SsoError::TokenExpired);
            }
        },
    }
    match complete_claims(raw) {
        None => Err(SsoError::MalformedToken),
        Some(claims) => Ok(claims),
    }
}

/// Gives the verdict on a token from the answer of its signature check and
/// its decoded payload.
pub fn judge_token(
    signature: Option<bool>,
    payload: Option<RawClaims>,
    policy: &TokenPolicy,
    now: u64,
) -> (res: Result<EveJwtClaims, SsoError>)
    ensures
        res == token_verdict(signature, payload, *policy, now),
{
    match signature {
        None => Err(SsoError::MalformedToken),
        Some(false) => Err(SsoError::InvalidSignature),
        Some(true) => check_claims(payload, policy, now),
    }
}

} // verus!
