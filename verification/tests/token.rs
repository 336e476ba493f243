//! Taking a token apart.

use eve_oauth2::token::{split_token, TokenParts};

#[test]
fn split_token_parts_at_the_two_dots() {
    let parts = split_token("head.body.sig");
    assert_eq!(
        parts,
        Some(TokenParts {
            header: "head",
            payload: "body",
            signature: "sig",
            signing_input: "head.body",
        })
    );
}

#[test]
fn split_token_keeps_empty_segments() {
    assert_eq!(
        split_token(".."),
        Some(TokenParts { header: "", payload: "", signature: "", signing_input: "." })
    );
    assert_eq!(
        split_token("a.b."),
        Some(TokenParts { header: "a", payload: "b", signature: "", signing_input: "a.b" })
    );
    assert_eq!(
        split_token(".b.c"),
        Some(TokenParts { header: "", payload: "b", signature: "c", signing_input: ".b" })
    );
}

#[test]
fn split_token_refuses_fewer_than_two_dots() {
    assert_eq!(split_token(""), None);
    assert_eq!(split_token("token"), None);
    assert_eq!(split_token("head.body"), None);
    assert_eq!(split_token("."), None);
}

#[test]
fn split_token_refuses_more_than_two_dots() {
    assert_eq!(split_token("a.b.c.d"), None);
    assert_eq!(split_token("..."), None);
    assert_eq!(split_token("a.b.c."), None);
}

#[test]
fn split_token_refuses_text_that_is_not_ascii() {
    assert_eq!(split_token("h\u{e9}ad.body.sig"), None);
    assert_eq!(split_token("head.body.s\u{1f600}g"), None);
}

#[test]
fn split_token_takes_any_ascii_between_the_dots() {
    let parts = split_token("a b.c=d.e/f+g");
    assert_eq!(
        parts,
        Some(TokenParts {
            header: "a b",
            payload: "c=d",
            signature: "e/f+g",
            signing_input: "a b.c=d",
        })
    );
}
