//! The API client's decisions: the configuration read once at startup, the
//! request parts (URL and header values), what counts as a successful
//! status, and what the listing call returns for each combination of status
//! and decode outcome. Sending the request itself is the binary's job.

use vstd::prelude::*;
use vstd::string::*;
use crate::repo::Repo;

verus! {

/// The configuration constructed once at process start and passed to every
/// component that issues requests.
#[derive(Clone)]
pub struct Config {
    pub token: String,
}

/// The errors that abort a run: a missing token before any request is made,
/// a non-success status from the listing endpoint (carrying the raw response
/// body), or a listing body that failed to decode.
pub enum ApiError {
    MissingToken,
    Api { body: String },
    Decode,
}

impl ApiError {
    /// The description printed when the error aborts the run.
    pub fn message(&self) -> (r: String)
        ensures
            self is MissingToken ==> r@ == "'GITHUB_TOKEN' environment variable missing"@,
            self matches ApiError::Api { body: b } ==> r@ == b@,
            self is Decode ==> r@ == "failed to decode the repository listing"@,
    {
        match self {
            ApiError::MissingToken => String::from_str("'GITHUB_TOKEN' environment variable missing"),
            ApiError::Api { body } => body.clone(),
            ApiError::Decode => String::from_str("failed to decode the repository listing"),
        }
    }
}

/// Fail fast when the token is absent from the environment; otherwise the
/// configuration holds exactly that token.
pub fn config_from_token(token: Option<String>) -> (r: Result<Config, ApiError>)
    ensures
        token is None ==> (r matches Err(e) && e is MissingToken),
        token matches Some(t) ==> (r matches Ok(c) && c.token == t),
{
    match token {
        None => Err(ApiError::MissingToken),
        Some(t) => Ok(Config { token: t }),
    }
}

/// The URL that lists a user's public repositories.
pub fn repos_url(user: &str) -> (r: String)
    ensures
        r@ == "https://api.github.com/users/"@ + user@ + "/repos"@,
{
    let mut u = String::from_str("https://api.github.com/users/");
    u.append(user);
    u.append("/repos");
    u
}

/// The fixed media-type header every request carries.
pub fn accept_header() -> (r: String)
    ensures
        r@ == "application/vnd.github.v3+json"@,
{
    String::from_str("application/vnd.github.v3+json")
}

/// The fixed identifying user agent every request carries.
pub fn user_agent() -> (r: String)
    ensures
        r@ == "rust"@,
{
    String::from_str("rust")
}

/// The authorization header value built from the configured token.
pub fn auth_header(token: &str) -> (r: String)
    ensures
        r@ == "token "@ + token@,
{
    let mut h = String::from_str("token ");
    h.append(token);
    h
}

/// A status code in the HTTP success range.
pub open spec fn status_ok(status: u16) -> bool {
    200 <= status < 300
}

pub fn is_success(status: u16) -> (r: bool)
    ensures
        r == status_ok(status),
{
    200 <= status && status < 300
}

/// What the repository listing call returns: on a non-success status the
/// raw body as an error; on a success status the decoded records, or a
/// decode error when the body was malformed.
pub fn list_repos_outcome(status: u16, decoded: Option<Vec<Repo>>, body: String) -> (r: Result<
    Vec<Repo>,
    ApiError,
>)
    ensures
        !status_ok(status) ==> (r matches Err(ApiError::Api { body: b }) && b == body),
        status_ok(status) && decoded is None ==> (r matches Err(e) && e is Decode),
        decoded matches Some(v) ==> (status_ok(status) ==> (r matches Ok(w) && w == v)),
{
    if !is_success(status) {
        Err(ApiError::Api { body })
    } else {
        match decoded {
            None => Err(ApiError::Decode),
            Some(v) => Ok(v),
        }
    }
}

/// What the per-repository language call hands the resolver: the decoded
/// byte-count table only when the status was a success, nothing otherwise.
/// Unlike the listing call this is never an error; the resolver turns an
/// absent table into the fallback token.
pub fn languages_outcome(status: u16, decoded: Option<Vec<(String, u32)>>) -> (r: Option<
    Vec<(String, u32)>,
>)
    ensures
        !status_ok(status) ==> r is None,
        status_ok(status) ==> r == decoded,
{
    if is_success(status) {
        decoded
    } else {
        None
    }
}

} // verus!
