//! Asking the token service for a Bearer token: what to ask, and what to
//! make of the answer.

use crate::config::DockerHubCredentials;
use crate::error::ProxyError;
use crate::text::join;
use vstd::prelude::*;

verus! {

/// The realm of Docker Hub's token service.
pub const AUTH_REALM: &'static str = "https://auth.docker.io/token";

/// The service name under which Docker Hub's registry asks for tokens.
pub const AUTH_SERVICE: &'static str = "registry.docker.io";

/// What the token service answers: either field may hold the token.
#[derive(Debug)]
pub struct TokenResponse {
    pub token: String,
    pub access_token: String,
}

/// A request to the token service: a GET of `url`, with HTTP Basic
/// credentials where there are any.
#[derive(Debug)]
pub struct TokenRequest {
    pub url: String,
    pub basic_auth: Option<(String, String)>,
}

/// A token request as plain values.
#[verifier::ext_equal]
pub struct TokenRequestModel {
    pub url: Seq<char>,
    pub basic_auth: Option<(Seq<char>, Seq<char>)>,
}

impl TokenRequest {
    pub open spec fn model(&self) -> TokenRequestModel {
        TokenRequestModel {
            url: self.url@,
            basic_auth: match self.basic_auth {
                Some(pair) => Some((pair.0@, pair.1@)),
                None => None,
            },
        }
    }
}

/// Whether a status stands for success: 200 to 299.
pub open spec fn is_success(status: u16) -> bool {
    200 <= status && status < 300
}

/// Whether a status stands for success: 200 to 299.
pub fn status_is_success(status: u16) -> (r: bool)
    ensures
        r == is_success(status),
{
    200 <= status && status < 300
}

/// The address at which a token for `scope` is asked for. The scope is
/// named even where it is empty.
pub open spec fn token_url(realm: Seq<char>, service: Seq<char>, scope: Seq<char>) -> Seq<char> {
    realm + "?service="@ + service + "&scope="@ + scope
}

/// The name and password that go with token requests: those of the account,
/// where one is configured.
pub open spec fn basic_auth_of(credentials: DockerHubCredentials) -> Option<
    (Seq<char>, Seq<char>),
> {
    if credentials.configured() {
        Some((credentials.username->0@, credentials.password->0@))
    } else {
        None
    }
}

/// The token request for `scope`, as plain values.
pub open spec fn token_request_model(
    basic_auth: Option<(Seq<char>, Seq<char>)>,
    realm: Seq<char>,
    service: Seq<char>,
    scope: Seq<char>,
) -> TokenRequestModel {
    TokenRequestModel { url: token_url(realm, service, scope), basic_auth }
}

/// The request that asks the token service at `realm` for a token.
/// It carries credentials if and only if an account is configured.
pub fn token_request(
    credentials: &DockerHubCredentials,
    realm: &str,
    service: &str,
    scope: &str,
) -> (out: TokenRequest)
    ensures
        out.model() == token_request_model(basic_auth_of(*credentials), realm@, service@, scope@),
{
    let a = join(realm, "?service=");
    let b = join(a.as_str(), service);
    let c = join(b.as_str(), "&scope=");
    let url = join(c.as_str(), scope);
    let basic_auth = if credentials.is_configured() {
        match (&credentials.username, &credentials.password) {
            (Some(user), Some(password)) => Some((user.clone(), password.clone())),
            _ => None,
        }
    } else {
        None
    };
    TokenRequest { url, basic_auth }
}

/// The token that an answer holds: `token` where it is not empty, else
/// `access_token`.
pub open spec fn chosen_token(response: TokenResponse) -> Seq<char> {
    if response.token@.len() > 0 {
        response.token@
    } else {
        response.access_token@
    }
}

/// What a token exchange yields, from the status of the answer and its
/// decoded body, if it could be decoded.
pub open spec fn token_outcome(status: u16, body: Option<TokenResponse>) -> Result<
    Seq<char>,
    ProxyError,
> {
    if !is_success(status) {
        Err(ProxyError::TokenRequestFailed(status))
    } else {
        match body {
            Some(response) => if chosen_token(response).len() > 0 {
                Ok(chosen_token(response))
            } else {
                Err(ProxyError::TokenMissing)
            },
            None => Err(ProxyError::TokenMissing),
        }
    }
}

/// Reads the token out of the token service's answer. A token that is
/// handed out is never empty.
pub fn read_token(status: u16, body: Option<TokenResponse>) -> (out: Result<String, ProxyError>)
    ensures
        match out {
            Ok(token) => token_outcome(status, body) == Ok::<Seq<char>, ProxyError>(token@)
                && token@.len() > 0,
            Err(e) => token_outcome(status, body) == Err::<Seq<char>, ProxyError>(e),
        },
{
    if !status_is_success(status) {
        return Err(ProxyError::TokenRequestFailed(status));
    }
    match body {
        Some(response) => {
            if !response.token.as_str().is_empty() {
                Ok(response.token)
            } else if !response.access_token.as_str().is_empty() {
                Ok(response.access_token)
            } else {
                Err(ProxyError::TokenMissing)
            }
        },
        None => Err(ProxyError::TokenMissing),
    }
}

} // verus!
