//! Client side of the EVE Online single sign-on: the login request, the
//! provider's key set and the verification of identity tokens.

use vstd::prelude::*;

pub mod claims;
pub mod error;
pub mod keycache;
pub mod login;
pub mod models;
pub mod signature;
pub mod subject;
pub mod token;

pub use crate::login::AuthenticationData;

use crate::claims::{
    is_complete, is_live, judge_token, stated_claims, token_verdict, RawClaims, TokenPolicy,
};
use crate::error::{KeyFault, SsoError};
use crate::login::{
    authorize_url_text, is_state_token, login_request_with_state, random_state, AUTHORIZE_URL,
};
use crate::models::{EveJwtClaims, EveJwtKey, EveJwtKeys};
use crate::signature::{
    check_rsa_components, rs256_outcome, rs256_verify, rsa_components_decodable,
};
use crate::token::{signature_of, signing_input_of, split_token, well_framed};

verus! {

/// Builds the request that sends a user to the provider's login: the
/// authorization URL for an authorization code request, and a fresh random
/// state to compare with the one that comes back.
///
/// The URL carries the client id, the redirect URL, the scopes and the state.
/// The client secret is no part of it; it is needed only when the code is
/// exchanged. Nothing is sent anywhere.
pub fn create_login_url(
    client_id: String,
    client_secret: String,
    redirect_url: String,
    scopes: Vec<String>,
) -> (res: Result<AuthenticationData, SsoError>)
    ensures
        res matches Ok(data) ==> is_state_token(data.state@) && authorize_url_text(
            AUTHORIZE_URL@,
            client_id@,
            redirect_url@,
            scopes.deep_view(),
            data.state@,
        ) == Some(data.login_url@),
        res matches Err(e) ==> e == SsoError::InvalidRedirectUrl && exists|state: Seq<char>|
            is_state_token(state) && (#[trigger] authorize_url_text(
                AUTHORIZE_URL@,
                client_id@,
                redirect_url@,
                scopes.deep_view(),
                state,
            )) is None,
{
    let state = random_state();
    login_request_with_state(client_id.as_str(), redirect_url.as_str(), &scopes, state)
}

/// `i` is the position of the first RS256 key in `keys`.
pub open spec fn is_first_rs256(keys: Seq<EveJwtKey>, i: int) -> bool {
    &&& 0 <= i < keys.len()
    &&& keys[i] is RS256
    &&& forall|j: int| 0 <= j < i ==> !(#[trigger] keys[j] is RS256)
}

/// The key that verification uses: the first RS256 key of the set, if it has one.
pub open spec fn selected_key(keys: Seq<EveJwtKey>) -> Option<EveJwtKey> {
    if exists|i: int| is_first_rs256(keys, i) {
        Some(keys[choose|i: int| is_first_rs256(keys, i)])
    } else {
        None
    }
}

/// Two positions that are both the first RS256 key are the same position.
pub proof fn lemma_first_rs256_unique(keys: Seq<EveJwtKey>, i: int, j: int)
    requires
        is_first_rs256(keys, i),
        is_first_rs256(keys, j),
    ensures
        i == j,
{
    if i < j {
        assert(!(keys[i] is RS256));
    } else if j < i {
        assert(!(keys[j] is RS256));
    }
}

/// Picks the key to verify with: the first RS256 key in the order of the set.
pub fn select_key(keys: Vec<EveJwtKey>) -> (res: Option<EveJwtKey>)
    ensures
        res == selected_key(keys@),
        res is Some <==> exists|i: int| 0 <= i < keys@.len() && keys@[i] is RS256,
        res matches Some(key) ==> key is RS256,
{
    let mut rest = keys;
    let mut i: usize = 0;
    while i < rest.len()
        invariant
            rest@ == keys@,
            i <= rest.len(),
            forall|j: int| 0 <= j < i ==> !(#[trigger] keys@[j] is RS256),
        decreases rest.len() - i,
    {
        let found = match &rest[i] {
            EveJwtKey::RS256 { .. } => true,
            EveJwtKey::ES256 { .. } => false,
        };
        if found {
            proof {
                assert(is_first_rs256(keys@, i as int));
                lemma_first_rs256_unique(keys@, i as int, choose|k: int| is_first_rs256(keys@, k));
            }
            let key = rest.remove(i);
            return Some(key);
        }
        i = i + 1;
    }
    assert forall|k: int| !is_first_rs256(keys@, k) by {
        if 0 <= k < keys@.len() {
            assert(!(keys@[k] is RS256));
        }
    }
    None
}

/// What validation answers for a token, given the key set that was obtained (or
/// why none was), the payload as decoded, the policy and the time.
///
/// A key set that could not be had, or that holds no RS256 key, or whose
/// selected key has components that cannot be decoded, leaves no key to verify
/// with. Then the token must be well framed, then its signature must verify
/// under the selected key, and then its claims must pass.
pub open spec fn validation_outcome(
    token: Seq<char>,
    keys: Result<EveJwtKeys, KeyFault>,
    payload: Option<RawClaims>,
    policy: TokenPolicy,
    now: u64,
) -> Result<EveJwtClaims, SsoError> {
    match keys {
        Err(fault) => Err(SsoError::KeyUnavailable(fault)),
        Ok(set) => match selected_key(set.keys@) {
            None => Err(SsoError::KeyUnavailable(KeyFault::NoUsableKey)),
            Some(key) => if !rsa_components_decodable(key->n@, key->e@) {
                Err(SsoError::KeyUnavailable(KeyFault::MalformedProviderResponse))
            } else if !well_framed(token) {
                Err(SsoError::MalformedToken)
            } else {
                token_verdict(
                    rs256_outcome(signature_of(token), signing_input_of(token), key->n@, key->e@),
                    payload,
                    policy,
                    now,
                )
            },
        },
    }
}

/// Validates an identity token against the provider's key set.
///
/// `keys` is the key set as the key cache gave it, `payload` the token's
/// payload segment as decoded by the caller (`None` where it could not be
/// decoded), `now` the time in seconds since the epoch. The claims come back
/// only if the signature verifies under the selected key and issuer, audience
/// and expiry are as the policy asks.
pub fn validate_token(
    token: String,
    keys: Result<EveJwtKeys, KeyFault>,
    payload: Option<RawClaims>,
    policy: &TokenPolicy,
    now: u64,
) -> (res: Result<EveJwtClaims, SsoError>)
    ensures
        res == validation_outcome(token@, keys, payload, *policy, now),
{
    let set = match keys {
        Err(fault) => { return Err(SsoError::KeyUnavailable(fault)); },
        Ok(set) => set,
    };
    let key = match select_key(set.keys) {
        None => { return Err(SsoError::KeyUnavailable(KeyFault::NoUsableKey)); },
        Some(key) => key,
    };
    match key {
        EveJwtKey::ES256 { .. } => Err(SsoError::KeyUnavailable(KeyFault::NoUsableKey)),
        EveJwtKey::RS256 { n, e, .. } => {
            if check_rsa_components(n.as_str(), e.as_str()).is_err() {
                return Err(SsoError::KeyUnavailable(KeyFault::MalformedProviderResponse));
            }
            let parts = match split_token(token.as_str()) {
                None => { return Err(SsoError::MalformedToken); },
                Some(parts) => parts,
            };
            let signature = match rs256_verify(
                parts.signature,
                parts.signing_input,
                n.as_str(),
                e.as_str(),
            ) {
                Ok(valid) => Some(valid),
                Err(_) => None,
            };
            judge_token(signature, payload, policy, now)
        },
    }
}

/// The selected key of `set` can verify, and `token` carries a signature that
/// verifies under it.
pub open spec fn verifies_under_selected_key(token: Seq<char>, set: EveJwtKeys) -> bool {
    &&& selected_key(set.keys@) matches Some(key)
    &&& rsa_components_decodable(key->n@, key->e@)
    &&& well_framed(token)
    &&& rs256_outcome(signature_of(token), signing_input_of(token), key->n@, key->e@) == Some(
        true,
    )
}

/// A token whose signature verifies under the selected key, and whose payload
/// states every required claim, the expected issuer and audience and an expiry
/// that is still live, is accepted, and the claims returned are those of the
/// payload.
pub proof fn lemma_valid_token_accepted(
    token: Seq<char>,
    set: EveJwtKeys,
    raw: RawClaims,
    policy: TokenPolicy,
    now: u64,
)
    requires
        is_complete(raw),
        raw.iss->0@ == policy.issuer@,
        raw.aud->0@ == policy.audience@,
        is_live(raw.exp->0, policy.leeway, now),
    ensures
        verifies_under_selected_key(token, set) ==> validation_outcome(
            token,
            Ok(set),
            Some(raw),
            policy,
            now,
        ) == Ok::<EveJwtClaims, SsoError>(stated_claims(raw)),
{
}

/// A well-framed token whose signature does not verify under the selected key
/// is refused as `InvalidSignature`, whatever its payload says.
pub proof fn lemma_foreign_signature_refused(
    token: Seq<char>,
    set: EveJwtKeys,
    payload: Option<RawClaims>,
    policy: TokenPolicy,
    now: u64,
)
    requires
        well_framed(token),
    ensures
        selected_key(set.keys@) matches Some(key) && rsa_components_decodable(key->n@, key->e@)
            && rs256_outcome(signature_of(token), signing_input_of(token), key->n@, key->e@)
            == Some(false) ==> validation_outcome(token, Ok(set), payload, policy, now) == Err::<
            EveJwtClaims,
            SsoError,
        >(SsoError::InvalidSignature),
{
}

/// A token that names the expected issuer and audience but whose expiry,
/// extended by the leeway, is not after `now` is refused as `TokenExpired`,
/// though its signature verifies.
pub proof fn lemma_expired_token_refused(
    token: Seq<char>,
    set: EveJwtKeys,
    raw: RawClaims,
    policy: TokenPolicy,
    now: u64,
)
    requires
        raw.iss is Some && raw.iss->0@ == policy.issuer@,
        raw.aud is Some && raw.aud->0@ == policy.audience@,
        raw.exp is Some && raw.exp->0 + policy.leeway <= now,
    ensures
        verifies_under_selected_key(token, set) ==> validation_outcome(
            token,
            Ok(set),
            Some(raw),
            policy,
            now,
        ) == Err::<EveJwtClaims, SsoError>(SsoError::TokenExpired),
{
}

/// A token that names another issuer than the expected one is refused as
/// `InvalidIssuer`, though its signature verifies.
pub proof fn lemma_wrong_issuer_refused(
    token: Seq<char>,
    set: EveJwtKeys,
    raw: RawClaims,
    policy: TokenPolicy,
    now: u64,
)
    requires
        raw.iss is Some && raw.iss->0@ != policy.issuer@,
    ensures
        verifies_under_selected_key(token, set) ==> validation_outcome(
            token,
            Ok(set),
            Some(raw),
            policy,
            now,
        ) == Err::<EveJwtClaims, SsoError>(SsoError::InvalidIssuer),
{
}

/// A token that names the expected issuer but another audience than the
/// expected one is refused as `InvalidAudience`, though its signature verifies.
pub proof fn lemma_wrong_audience_refused(
    token: Seq<char>,
    set: EveJwtKeys,
    raw: RawClaims,
    policy: TokenPolicy,
    now: u64,
)
    requires
        raw.iss is Some && raw.iss->0@ == policy.issuer@,
        raw.aud is Some && raw.aud->0@ != policy.audience@,
    ensures
        verifies_under_selected_key(token, set) ==> validation_outcome(
            token,
            Ok(set),
            Some(raw),
            policy,
            now,
        ) == Err::<EveJwtClaims, SsoError>(SsoError::InvalidAudience),
{
}

/// Claims are handed out only for a token that passed every check: a key set
/// was there, the signature verifies under its selected key, the payload
/// states every required claim, issuer and audience are the expected ones, and
/// the expiry is live. The claims are then those of the payload.
pub proof fn lemma_accepted_token_passed_every_check(
    token: Seq<char>,
    keys: Result<EveJwtKeys, KeyFault>,
    payload: Option<RawClaims>,
    policy: TokenPolicy,
    now: u64,
)
    ensures
        validation_outcome(token, keys, payload, policy, now) is Ok ==> {
            &&& keys is Ok
            &&& verifies_under_selected_key(token, keys->Ok_0)
            &&& payload is Some
            &&& is_complete(payload->0)
            &&& payload->0.iss->0@ == policy.issuer@
            &&& payload->0.aud->0@ == policy.audience@
            &&& is_live(payload->0.exp->0, policy.leeway, now)
            &&& validation_outcome(token, keys, payload, policy, now) == Ok::<
                EveJwtClaims,
                SsoError,
            >(stated_claims(payload->0))
        },
{
}

} // verus!
