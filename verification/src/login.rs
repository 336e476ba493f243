//! The login request: the provider's authorization URL and the state that
//! guards the callback. The URL is built by the `oauth2` crate.

use vstd::prelude::*;
use crate::error::SsoError;

verus! {

/// The error type of the `url` crate, as `oauth2` hands it on, carried through
/// unopened.
#[verifier::external_type_specification]
#[verifier::external_body]
pub struct ExUrlParseError(oauth2::url::ParseError);

/// Where the provider takes authorization requests.
pub const AUTHORIZE_URL: &'static str = "https://login.eveonline.com/v2/oauth/authorize/";

/// Where the provider exchanges an authorization code for a token.
pub const TOKEN_URL: &'static str = "https://login.eveonline.com/v2/oauth/token";

/// A login request: where to send the user, and the state to expect back.
#[derive(Clone, Debug, PartialEq, Eq)]
pub struct AuthenticationData {
    pub login_url: String,
    pub state: String,
}

/// The authorization URL that `oauth2` builds for an authorization code
/// request to `endpoint` with the given client id, redirect URL, scopes and
/// state; `None` where `oauth2` takes `endpoint` or `redirect_url` for no URL.
pub uninterp spec fn authorize_url_text(
    endpoint: Seq<char>,
    client_id: Seq<char>,
    redirect_url: Seq<char>,
    scopes: Seq<Seq<char>>,
    state: Seq<char>,
) -> Option<Seq<char>>;

/// A character of the URL-safe base64 alphabet.
pub open spec fn is_url_safe(c: char) -> bool {
    ||| 'A' <= c <= 'Z'
    ||| 'a' <= c <= 'z'
    ||| '0' <= c <= '9'
    ||| c == '-'
    ||| c == '_'
}

/// The shape of a state token: 128 bits in URL-safe base64, which is 22
/// characters.
pub open spec fn is_state_token(state: Seq<char>) -> bool {
    &&& state.len() == 22
    &&& forall|i: int| 0 <= i < state.len() ==> is_url_safe(#[trigger] state[i])
}

/// Calls `oauth2::CsrfToken::new_random` and takes the token's text. Trusted:
/// the text is 16 random bytes in unpadded URL-safe base64. Nothing is claimed
/// of which bytes: two calls may give any two tokens.
#[verifier::external_body]
pub(crate) fn random_state() -> (state: String)
    ensures
        is_state_token(state@),
{
    oauth2::CsrfToken::new_random().secret().clone()
}

/// Builds the authorization URL with `oauth2`: a `BasicClient` for `endpoint`
/// and `client_id`, with `redirect_url` set by `set_redirect_uri`, then
/// `authorize_url` with `state` as the state, `add_scopes` and `url`. The two
/// URLs go through `AuthUrl::new` and `RedirectUrl::new`, which refuse text that
/// does not parse as a URL. Trusted: the text of the URL that comes out is
/// `authorize_url_text` of the arguments, and a refusal is `None`.
#[verifier::external_body]
pub(crate) fn authorize_url(
    endpoint: &str,
    client_id: &str,
    redirect_url: &str,
    scopes: &Vec<String>,
    state: &str,
) -> (res: Result<String, oauth2::url::ParseError>)
    ensures
        res matches Ok(url) ==> authorize_url_text(
            endpoint@,
            client_id@,
            redirect_url@,
            scopes.deep_view(),
            state@,
        ) == Some(url@),
        res is Err ==> authorize_url_text(
            endpoint@,
            client_id@,
            redirect_url@,
            scopes.deep_view(),
            state@,
        ) is None,
{
    let auth = oauth2::AuthUrl::new(endpoint.to_string())?;
    let redirect = oauth2::RedirectUrl::new(redirect_url.to_string())?;
    let id = oauth2::ClientId::new(client_id.to_string());
    let client = oauth2::basic::BasicClient::new(id, None, auth, None).set_redirect_uri(redirect);
    let token = oauth2::CsrfToken::new(state.to_string());
    let scopes = scopes.iter().cloned().map(oauth2::Scope::new);
    let (url, _) = client.authorize_url(|| token).add_scopes(scopes).url();
    Ok(url.to_string())
}

/// Makes the login request out of the URL that was built, if one was, and the
/// state that went into it.
pub fn login_request_from(url: Option<String>, state: String) -> (res: Result<
    AuthenticationData,
    SsoError,
>)
    ensures
        url is Some ==> res == Ok::<AuthenticationData, SsoError>(
            AuthenticationData { login_url: url->0, state },
        ),
        url is None ==> res == Err::<AuthenticationData, SsoError>(SsoError::InvalidRedirectUrl),
{
    match url {
        Some(login_url) => Ok(AuthenticationData { login_url, state }),
        None => Err(SsoError::InvalidRedirectUrl),
    }
}

/// Builds the login request that carries `state`.
///
/// The URL is the one `oauth2` builds for the provider's authorization
/// endpoint. The request is refused as `InvalidRedirectUrl` exactly where
/// `oauth2` builds none, which it does for a URL that does not parse.
pub fn login_request_with_state(
    client_id: &str,
    redirect_url: &str,
    scopes: &Vec<String>,
    state: String,
) -> (res: Result<AuthenticationData, SsoError>)
    ensures
        match authorize_url_text(
            AUTHORIZE_URL@,
            client_id@,
            redirect_url@,
            scopes.deep_view(),
            state@,
        ) {
            Some(text) => res matches Ok(data) && data.login_url@ == text && data.state == state,
            None => res == Err::<AuthenticationData, SsoError>(SsoError::InvalidRedirectUrl),
        },
{
    let url = match authorize_url(AUTHORIZE_URL, client_id, redirect_url, scopes, state.as_str()) {
        Ok(url) => Some(url),
        Err(_) => None,
    };
    login_request_from(url, state)
}

/// Checks the state that came back with the callback against the state that
/// was sent: they must be the same text.
pub fn check_state(sent: &String, returned: &String) -> (res: Result<(), SsoError>)
    ensures
        sent@ == returned@ ==> res == Ok::<(), SsoError>(()),
        sent@ != returned@ ==> res == Err::<(), SsoError>(SsoError::CsrfStateMismatch),
{
    if *sent == *returned {
        Ok(())
    } else {
        Err(SsoError::CsrfStateMismatch)
    }
}

} // verus!
