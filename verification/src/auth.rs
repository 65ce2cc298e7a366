//! Configuration and oauth authentication: the cookie kept for a logged in user, what a
//! request's cookie decides, and the page shown when authorization fails.

use vstd::prelude::*;

verus! {

/// The configuration for the application.
#[derive(Clone, Debug)]
pub struct Config {
    /// Token to authenticate the bot with discord.
    pub token: String,
    /// Oauth client secret.
    pub client_secret: String,
    /// Oauth redirect url.
    pub redirect_url: String,
    /// Name of the authentication cookie.
    pub auth_cookie_name: String,
}

/// The cookie containing oauth authentication information for a user.
#[derive(Clone, Debug)]
pub struct OauthCookie {
    /// Access token to be used when making requests to the API on the user's behalf.
    pub access_token: String,
    /// Number of seconds from issuing that the access token is valid.
    pub expires_in: u64,
    /// Refresh token to exchange for another access token and refresh token pair.
    pub refresh_token: String,
    /// The seconds since the unix epoch that this oauth token was created.
    pub created_at: u64,
    /// The user's id.
    pub user_id: u64,
}

impl OauthCookie {
    /// The cookie for a token exchange response, once the user's id is known, created at
    /// `created_at` seconds since the unix epoch.
    pub fn create(access_token: String, expires_in: u64, refresh_token: String, user_id: u64, created_at: u64) -> (c: OauthCookie)
        ensures
            c.access_token == access_token,
            c.expires_in == expires_in,
            c.refresh_token == refresh_token,
            c.user_id == user_id,
            c.created_at == created_at,
    {
        OauthCookie { access_token, expires_in, refresh_token, created_at, user_id }
    }

    /// The value of the `Authorization` header of requests made on the user's behalf.
    pub fn authorization(&self) -> (r: String)
        ensures
            r@ == "Bearer "@ + self.access_token@,
    {
        bearer_authorization(self.access_token.as_str())
    }
}

/// The value of the `Authorization` header of requests made with an oauth access token.
pub fn bearer_authorization(access_token: &str) -> (r: String)
    ensures
        r@ == "Bearer "@ + access_token@,
{
    let mut r = String::new();
    r.append("Bearer ");
    r.append(access_token);
    r
}

/// What the authentication cookie of a request turned out to be.
#[derive(Clone, Debug)]
pub enum CookieRead {
    /// The request carries no authentication cookie.
    Absent,
    /// The cookie is there but does not hold an oauth cookie.
    Malformed,
    /// The cookie holds this oauth cookie.
    Parsed(OauthCookie),
}

/// What becomes of a request that asks for an authenticated user.
#[derive(Clone, Debug)]
pub enum AuthOutcome {
    /// The request fails with this HTTP status code.
    Failure { status: u16 },
    /// The request goes on to the next matching route; when `clear_cookie`, the malformed
    /// cookie is removed first.
    Forward { clear_cookie: bool },
    /// The user is authenticated by this cookie.
    Success(OauthCookie),
}

/// An authenticated oauth user.
#[derive(Clone, Debug)]
pub struct OauthUser {
    /// The authentication information stored in the cookie for the user.
    pub cookie: OauthCookie,
}

/// HTTP status code of an internal server error.
pub const INTERNAL_SERVER_ERROR: u16 = 500;

impl OauthUser {
    /// Decides a request that asks for an authenticated user: it fails when the configuration
    /// is not mounted; without a cookie it goes on to the next route; with a malformed cookie
    /// it does too, and the cookie is cleared; with a good one the user is authenticated.
    pub fn from_request(config_mounted: bool, cookie: CookieRead) -> (r: AuthOutcome)
        ensures
            !config_mounted ==> r == (AuthOutcome::Failure { status: INTERNAL_SERVER_ERROR }),
            config_mounted && cookie is Absent ==> r == (AuthOutcome::Forward { clear_cookie: false }),
            config_mounted && cookie is Malformed ==> r == (AuthOutcome::Forward { clear_cookie: true }),
            config_mounted ==> (cookie matches CookieRead::Parsed(c) ==> r == AuthOutcome::Success(c)),
    {
        if !config_mounted {
            return AuthOutcome::Failure { status: INTERNAL_SERVER_ERROR };
        }
        match cookie {
            CookieRead::Absent => AuthOutcome::Forward { clear_cookie: false },
            CookieRead::Malformed => AuthOutcome::Forward { clear_cookie: true },
            CookieRead::Parsed(c) => AuthOutcome::Success(c),
        }
    }

    /// The message of the failure when the configuration is not mounted.
    pub fn failure_message() -> (m: &'static str)
        ensures
            m@ == "Config was not mounted on the rocket"@,
    {
        "Config was not mounted on the rocket"
    }
}

/// The page shown when the oauth provider reports an error: the error as a heading, its
/// description as preformatted text, and a link back to where the user came from.
pub open spec fn failure_page(error: Seq<char>, description: Seq<char>, back: Seq<char>) -> Seq<char> {
    "<h1>"@ + error + "</h1><pre>"@ + description + "</pre><a href=\""@ + back + "\">Go back to <b>"@ + back
        + "<b></a>"@
}

/// The page shown when the oauth provider reports an error (see `failure_page`).
pub fn authorize_failure_page(error: &str, error_description: &str, back: &str) -> (r: String)
    ensures
        r@ == failure_page(error@, error_description@, back@),
{
    let mut r = String::new();
    r.append("<h1>");
    r.append(error);
    r.append("</h1><pre>");
    r.append(error_description);
    r.append("</pre><a href=\"");
    r.append(back);
    r.append("\">Go back to <b>");
    r.append(back);
    r.append("<b></a>");
    r
}

/// The percent-encoding of `s` that `urlencoding::encode` gives: every byte of its UTF-8
/// form but ASCII letters, digits and `-`, `_`, `.`, `~` written as `%` and two upper-case
/// hexadecimal digits.
pub uninterp spec fn url_encoded(s: Seq<char>) -> Seq<char>;

/// `urlencoding::encode`: the percent-encoding of `s`, as the name `url_encoded` gives it.
#[verifier::external_body]
fn url_encode(s: &str) -> (r: String)
    ensures
        r@ == url_encoded(s@),
{
    urlencoding::encode(s).into_owned()
}

/// The `state` that the oauth login hands to discord, which discord hands back on the
/// authorize callback: the page the user came from, percent-encoded.
pub fn login_state(from: &str) -> (r: String)
    ensures
        r@ == url_encoded(from@),
{
    url_encode(from)
}

} // verus!
