//! A login from the first request for keys to the id of the character.

use eve_oauth2::claims::{RawClaims, TokenPolicy};
use eve_oauth2::error::{KeyFault, SsoError};
use eve_oauth2::keycache::{CacheAction, CacheEvent, KeyCache, DEFAULT_TTL};
use eve_oauth2::models::{EveJwtKey, EveJwtKeys, EveSsoMetaData};
use eve_oauth2::subject::character_id;
use eve_oauth2::validate_token;

/// Modulus of the key that the provider publishes as `k1`.
const PUBLISHED_N: &str = "zrnQ3zO2fikJ4A-8M5kyyfwQ1kZeOBiDN32QlK4NCU4L89Q-X6FrN6ax0kPWl1owA4FzSM42AxOk\
     93kVGm81p1d4WVqXzVR6lkPFolezunsRA7VFPQTUXBCcTV0NKgmqOtrF8QE0OoLPyK8wsxcUYWtc\
     HiO-dlTyb8vt1P8kwTkD34MwMgl3jVbL--2e5Me1Xaf1oYkmquOmWK9nRl45n7zVWD0NsVLVka6j\
     0f__2vH-SfSZPv8hfjZ5ceQohEIgdxhOiaLuCOsWtdwLw0NK4nLwnvn7zdgd5xOD4LLWyF8_9UU6\
     uQ7b7qnk0IyMe1yE-QKEbKVlwm54vuvX3w10wQ";
/// Header `{"alg":"RS256","typ":"JWT","kid":"k1"}`.
const HEADER_K1: &str = "eyJhbGciOiJSUzI1NiIsInR5cCI6IkpXVCIsImtpZCI6ImsxIn0";
/// Header `{"alg":"RS256","typ":"JWT","kid":"k2"}`.
const HEADER_K2: &str = "eyJhbGciOiJSUzI1NiIsInR5cCI6IkpXVCIsImtpZCI6ImsyIn0";
/// The claims of `payload()`, as JSON.
const PAYLOAD: &str = "eyJzY3AiOlsicHVibGljRGF0YSJdLCJqdGkiOiJqdGktMSIsImtpZCI6ImsxIiwic3ViIjoiQ0hB\
     UkFDVEVSOkVWRToxMjM0NSIsImF6cCI6ImNsaWVudCIsInRlbmFudCI6InRyYW5xdWlsaXR5Iiwi\
     dGllciI6ImxpdmUiLCJyZWdpb24iOiJ3b3JsZCIsImF1ZCI6IkVWRSBPbmxpbmUiLCJuYW1lIjoi\
     VGVzdCBQaWxvdCIsIm93bmVyIjoib3duZXItaGFzaCIsImV4cCI6MjAwMDAwMDAwMCwiaWF0Ijox\
     NzAwMDAwMDAwLCJpc3MiOiJodHRwczovL2xvZ2luLmV2ZW9ubGluZS5jb20ifQ";
/// Signature of the published key over `HEADER_K1.PAYLOAD`.
const SIGNATURE_K1: &str = "egkn_I9pkDbKzi5HQlme5iSdPzATVurmNf1WJRycUAJAxR_pNQKlIP0akTH-MveUvVKtUOXMlMBB\
     vDDqc8GgJsXfdi_fisXgdpWcHnVE5_t4y0BrFqEmr2ueeWzD6Yto6oxY4bOTgHlSWUNWpsvD2KMx\
     Qut_2w-oNOpYFjp0CO8sLC8YXn6eBhuJSIClBjLQlCWbA2D022w9CnNZYKFhmmM3mrdGosW7Zyml\
     aWDYO7ssnDHpnfqiQiVzpTmbrkZx50EPns9xiLzlQ8kJFruQR9syCccKI7ndrbn3jfnUhMMQtF8B\
     Exh7-P_duyFsbuxEFjtTa20w0AsfGEzoQ_yMxw";
/// Signature of a key that is not published over `HEADER_K2.PAYLOAD`.
const SIGNATURE_K2: &str = "F-Raf-JhkJsJiAieDE6aNfKHxFDgjjDzgqUVXgFy34C6MDylZqjEVza7aIacvFt6r_oay2zlFZWR\
     OnTwpBdclZ5vMyFj_7LP2Ny89-xA4wFJkmPNdPD61JzlyWIiqSRhKnS-DuboHM-m1if20PAA7THO\
     vEf8kEY2Xy8d3VJ_tLkWYYUgm9HL0SUIce1oGuGTUuGKXA_Qc7Kl3i7-a8kXjLXaz5r1gZXIIcv5\
     9B_EjytkvAwaBRZ8sUcEj9qXcAlqaUvuhyc4kndlGtf5DZbA2pzcgIQm-olReaSVvMR4KNg3GOO6\
     x5G-A5h64_u_At7WQ0knqNNGAQ3273kvCcKSdQ";

fn discovery() -> EveSsoMetaData {
    EveSsoMetaData {
        authorization_endpoint: "https://idp.example/authorize".to_string(),
        code_challenge_methods_supported: Vec::new(),
        issuer: "https://login.eveonline.com".to_string(),
        jwks_uri: "https://idp.example/keys".to_string(),
        response_types_supported: Vec::new(),
        revocation_endpoint: "https://idp.example/revoke".to_string(),
        revocation_endpoint_auth_methods_supported: Vec::new(),
        token_endpoint: "https://idp.example/token".to_string(),
        token_endpoint_auth_methods_supported: Vec::new(),
        token_endpoint_auth_signing_alg_values_supported: Vec::new(),
    }
}

fn jwks() -> EveJwtKeys {
    EveJwtKeys {
        skip_unresolved_json_web_keys: false,
        keys: vec![EveJwtKey::RS256 {
            e: "AQAB".to_string(),
            kid: "k1".to_string(),
            kty: "RSA".to_string(),
            n: PUBLISHED_N.to_string(),
            usage: "sig".to_string(),
        }],
    }
}

fn payload(sub: &str) -> RawClaims {
    RawClaims {
        scp: Some(vec!["publicData".to_string()]),
        jti: Some("jti-1".to_string()),
        kid: Some("k1".to_string()),
        sub: Some(sub.to_string()),
        azp: Some("client".to_string()),
        tenant: Some("tranquility".to_string()),
        tier: Some("live".to_string()),
        region: Some("world".to_string()),
        aud: Some("EVE Online".to_string()),
        name: Some("Test Pilot".to_string()),
        owner: Some("owner-hash".to_string()),
        exp: Some(2_000_000_000),
        iat: Some(1_700_000_000),
        iss: Some("https://login.eveonline.com".to_string()),
    }
}

/// Runs the refresh that a first request sets off, with the provider
/// answering as `discovery()` and `jwks()` say, and hands out the keys.
fn fetched_keys(cache: &mut KeyCache, now: u64) -> Result<EveJwtKeys, KeyFault> {
    assert_eq!(cache.step(CacheEvent::Request, now), CacheAction::FetchMetadata);
    let next = cache.step(CacheEvent::Metadata(Ok(discovery())), now);
    assert_eq!(next, CacheAction::FetchKeys("https://idp.example/keys".to_string()));
    assert_eq!(cache.step(CacheEvent::Keys(Ok(jwks())), now), CacheAction::Serve);
    cache.keys().cloned().ok_or(KeyFault::NoUsableKey)
}

#[test]
fn token_of_another_key_is_refused_with_invalid_signature() {
    let mut cache = KeyCache::new(DEFAULT_TTL);
    let keys = fetched_keys(&mut cache, 1_700_000_000);
    assert_eq!(keys, Ok(jwks()));
    let token = format!("{}.{}.{}", HEADER_K2, PAYLOAD, SIGNATURE_K2);
    let res = validate_token(
        token,
        keys,
        Some(payload("CHARACTER:EVE:12345")),
        &TokenPolicy::eve_online(0),
        1_700_000_100,
    );
    assert_eq!(res, Err(SsoError::InvalidSignature));
}

#[test]
fn token_of_the_published_key_names_its_character() {
    let mut cache = KeyCache::new(DEFAULT_TTL);
    let keys = fetched_keys(&mut cache, 1_700_000_000);
    let token = format!("{}.{}.{}", HEADER_K1, PAYLOAD, SIGNATURE_K1);
    let claims = validate_token(
        token,
        keys,
        Some(payload("CHARACTER:EVE:12345")),
        &TokenPolicy::eve_online(0),
        1_700_000_100,
    )
    .expect("the token is valid");
    assert_eq!(claims.name, "Test Pilot");
    assert_eq!(claims.sub, "CHARACTER:EVE:12345");
    assert_eq!(character_id(&claims), Ok(12345));
}

#[test]
fn second_validation_within_the_ttl_fetches_nothing() {
    let mut cache = KeyCache::new(DEFAULT_TTL);
    let first = fetched_keys(&mut cache, 1_700_000_000);
    assert_eq!(cache.step(CacheEvent::Request, 1_700_000_000 + DEFAULT_TTL), CacheAction::Serve);
    assert_eq!(cache.keys().cloned().ok_or(KeyFault::NoUsableKey), first);
}

#[test]
fn unreachable_provider_leaves_no_key_to_verify_with() {
    let mut cache = KeyCache::new(DEFAULT_TTL);
    assert_eq!(cache.step(CacheEvent::Request, 5), CacheAction::FetchMetadata);
    let failed = cache.step(CacheEvent::Metadata(Err(KeyFault::ProviderUnreachable)), 6);
    assert_eq!(failed, CacheAction::Fail(KeyFault::ProviderUnreachable));
    let token = format!("{}.{}.{}", HEADER_K1, PAYLOAD, SIGNATURE_K1);
    let res = validate_token(
        token,
        Err(KeyFault::ProviderUnreachable),
        Some(payload("CHARACTER:EVE:12345")),
        &TokenPolicy::eve_online(0),
        1_700_000_100,
    );
    assert_eq!(res, Err(SsoError::KeyUnavailable(KeyFault::ProviderUnreachable)));
}
