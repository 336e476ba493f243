//! The id in the subject claim.

use eve_oauth2::error::SsoError;
use eve_oauth2::models::EveJwtClaims;
use eve_oauth2::subject::{character_id, subject_id};

fn claims_of(sub: &str) -> EveJwtClaims {
    EveJwtClaims {
        scp: None,
        jti: "id".to_string(),
        kid: "key".to_string(),
        sub: sub.to_string(),
        azp: "client".to_string(),
        tenant: "tranquility".to_string(),
        tier: "live".to_string(),
        region: "world".to_string(),
        aud: "EVE Online".to_string(),
        name: "Pilot".to_string(),
        owner: "owner".to_string(),
        exp: 2,
        iat: 1,
        iss: "https://login.eveonline.com".to_string(),
    }
}

#[test]
fn character_id_is_the_third_part_of_the_subject() {
    assert_eq!(character_id(&claims_of("CHARACTER:EVE:12345")), Ok(12345));
    assert_eq!(character_id(&claims_of("CHARACTER:EVE:2112625428")), Ok(2_112_625_428));
}

#[test]
fn character_id_of_a_malformed_subject_is_an_error() {
    assert_eq!(character_id(&claims_of("malformed")), Err(SsoError::MalformedToken));
    assert_eq!(character_id(&claims_of("")), Err(SsoError::MalformedToken));
    assert_eq!(character_id(&claims_of("CHARACTER:EVE:pilot")), Err(SsoError::MalformedToken));
}

#[test]
fn subject_id_needs_three_parts() {
    assert_eq!(subject_id(""), None);
    assert_eq!(subject_id("12345"), None);
    assert_eq!(subject_id("EVE:12345"), None);
    assert_eq!(subject_id(":"), None);
    assert_eq!(subject_id("::"), None);
    assert_eq!(subject_id("CHARACTER:EVE:"), None);
    assert_eq!(subject_id("::7"), Some(7));
}

#[test]
fn subject_id_ignores_what_follows_the_third_part() {
    assert_eq!(subject_id("CHARACTER:EVE:12345:extra"), Some(12345));
    assert_eq!(subject_id("CHARACTER:EVE:12345:"), Some(12345));
    assert_eq!(subject_id("CHARACTER:EVE::12345"), None);
    assert_eq!(subject_id("A:B:1:x:y:z"), Some(1));
}

#[test]
fn subject_id_reads_decimal_digits_only() {
    assert_eq!(subject_id("A:B:0"), Some(0));
    assert_eq!(subject_id("A:B:007"), Some(7));
    assert_eq!(subject_id("A:B:12a"), None);
    assert_eq!(subject_id("A:B:a12"), None);
    assert_eq!(subject_id("A:B: 12"), None);
    assert_eq!(subject_id("A:B:12 "), None);
    assert_eq!(subject_id("A:B:1_000"), None);
    assert_eq!(subject_id("A:B:0x10"), None);
    assert_eq!(subject_id("A:B:1.5"), None);
    assert_eq!(subject_id("A:B:\u{661}\u{662}"), None);
}

#[test]
fn subject_id_takes_one_sign_before_the_digits() {
    assert_eq!(subject_id("A:B:+7"), Some(7));
    assert_eq!(subject_id("A:B:-7"), Some(-7));
    assert_eq!(subject_id("A:B:-0"), Some(0));
    assert_eq!(subject_id("A:B:+"), None);
    assert_eq!(subject_id("A:B:-"), None);
    assert_eq!(subject_id("A:B:--7"), None);
    assert_eq!(subject_id("A:B:+-7"), None);
    assert_eq!(subject_id("A:B:7-"), None);
}

#[test]
fn subject_id_must_fit_thirty_two_bits() {
    assert_eq!(subject_id("A:B:2147483647"), Some(i32::MAX));
    assert_eq!(subject_id("A:B:2147483648"), None);
    assert_eq!(subject_id("A:B:-2147483648"), Some(i32::MIN));
    assert_eq!(subject_id("A:B:-2147483649"), None);
    assert_eq!(subject_id("A:B:00000000000000000000012"), Some(12));
    assert_eq!(subject_id("A:B:99999999999999999999999999999999999999"), None);
    assert_eq!(subject_id("A:B:21474836470"), None);
}

#[test]
fn subject_id_agrees_with_the_parser_of_the_standard_library() {
    for text in ["12345", "+1", "-1", "", "+", "-", "1a", "2147483647", "2147483648", "-2147483648", "-2147483649", "000", " 1"] {
        let subject = format!("CHARACTER:EVE:{}", text);
        assert_eq!(subject_id(&subject), text.parse::<i32>().ok());
    }
}

#[test]
fn subject_id_counts_characters_not_bytes() {
    assert_eq!(subject_id("CAPSUL\u{c9}ER:\u{c8}VE:42"), Some(42));
    assert_eq!(subject_id("\u{1f680}:\u{1f680}:42:\u{1f680}"), Some(42));
}
