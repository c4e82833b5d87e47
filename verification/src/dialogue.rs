//! The per-user login dialogue: its two states, the transition taken on the
//! login command, and the transition taken when text arrives while a code is
//! awaited. The catalog's OAuth client computes the authorization URL and
//! parses the pasted redirect; both calls are taken on trust at their
//! stated, I/O-free behaviour, and every decision around them is verified.

use vstd::prelude::*;
use vstd::string::*;

use rspotify::prelude::OAuthClient;

verus! {

/// The dialogue state of one user: at rest, or awaiting an authorization code.
#[derive(Clone, Copy, PartialEq, Eq, Debug)]
pub enum State {
    Start,
    SpotifyLogin,
}

impl Default for State {
    fn default() -> (r: Self)
        ensures
            r is Start,
    {
        State::Start
    }
}

#[verifier::external_type_specification]
#[verifier::external_body]
pub struct ExAuthCodeSpotify(rspotify::AuthCodeSpotify);

/// Relies on rspotify's `AuthCodeSpotify::get_authorize_url`: builds the
/// user-facing authorization URL from the client's credentials, scopes and
/// state parameter; no I/O. The error is carried as its report.
#[verifier::external_body]
fn authorize_url(client: &rspotify::AuthCodeSpotify) -> (r: Result<String, String>) {
    client.get_authorize_url(false).map_err(|e| e.to_string())
}

/// Relies on rspotify's `OAuthClient::parse_response_code`: extracts the
/// `code` query parameter from a pasted redirect URL when its `state`
/// parameter matches the client's; no I/O.
#[verifier::external_body]
fn parse_response_code(client: &rspotify::AuthCodeSpotify, text: &str) -> (r: Option<String>) {
    client.parse_response_code(text)
}

/// The prompt sent with a fresh authorization URL.
pub open spec fn spec_login_prompt(url: Seq<char>) -> Seq<char> {
    "Spotify Login\nOpen this URL in the browser and allow Spotify access: "@ + url
        + "\nThen paste and send the redirected URL here."@
}

/// The reply when no authorization URL could be built.
pub open spec fn spec_login_error(err: Seq<char>) -> Seq<char> {
    "Spotify link error: "@ + err
}

/// The login-command transition, given the outcome of building the
/// authorization URL: on success the dialogue awaits the code and the actor
/// is prompted with the URL; on failure it stays at rest with the report.
pub fn login_command_step(auth: Result<String, String>) -> (r: (State, String))
    ensures
        auth matches Ok(url) ==> r.0 is SpotifyLogin && r.1@ == spec_login_prompt(url@),
        auth matches Err(e) ==> r.0 is Start && r.1@ == spec_login_error(e@),
{
    match auth {
        Ok(url) => {
            let mut s = String::from_str(
                "Spotify Login\nOpen this URL in the browser and allow Spotify access: ",
            );
            s.append(url.as_str());
            s.append("\nThen paste and send the redirected URL here.");
            (State::SpotifyLogin, s)
        },
        Err(e) => {
            let s = String::from_str("Spotify link error: ");
            (State::Start, s.concat(e.as_str()))
        },
    }
}

/// Runs the login command against the catalog client: whatever the client
/// answers, the next state and the reply follow `login_command_step`.
pub fn spotify_login(client: &rspotify::AuthCodeSpotify) -> (r: (State, String))
    ensures
        r.0 is SpotifyLogin ==> exists|u: Seq<char>| r.1@ == spec_login_prompt(u),
        r.0 is Start ==> exists|e: Seq<char>| r.1@ == spec_login_error(e),
{
    let auth = authorize_url(client);
    let ghost a = auth;
    let r = login_command_step(auth);
    proof {
        match a {
            Ok(url) => {
                assert(r.1@ == spec_login_prompt(url@));
            },
            Err(e) => {
                assert(r.1@ == spec_login_error(e@));
            },
        }
    }
    r
}

/// What follows a text received while a code is awaited: exchange the parsed
/// code, or reject the input.
#[derive(Clone, PartialEq, Eq, Debug)]
pub enum LoginTextStep {
    /// A code parsed: exchange it for a token and persist the token.
    ExchangeCode { code: String },
    /// Nothing parsed: tell the actor the input was invalid.
    RejectInput,
}

/// The awaiting-code transition: the dialogue returns to rest after one
/// attempt, whatever the text held; a parsed code is handed on for exchange,
/// anything else is rejected.
pub fn login_text_step(code: Option<String>) -> (r: (State, LoginTextStep))
    ensures
        r.0 is Start,
        code matches Some(c) ==> r.1 matches LoginTextStep::ExchangeCode { code: c2 } && c2@
            == c@,
        code is None ==> r.1 is RejectInput,
{
    match code {
        Some(c) => (State::Start, LoginTextStep::ExchangeCode { code: c }),
        None => (State::Start, LoginTextStep::RejectInput),
    }
}

/// Handles a message that arrived while a code was awaited: parses it with
/// the catalog client and applies `login_text_step`. The dialogue always
/// returns to rest; a message without text is always rejected.
pub fn spotify_login_token(client: &rspotify::AuthCodeSpotify, text: Option<&String>) -> (r: (
    State,
    LoginTextStep,
))
    ensures
        r.0 is Start,
        text is None ==> r.1 is RejectInput,
{
    let code = match text {
        Some(t) => parse_response_code(client, t.as_str()),
        None => None,
    };
    login_text_step(code)
}

/// The acknowledgement after a successful code exchange.
pub fn token_saved_reply() -> (r: String)
    ensures
        r@ == "Token saved"@,
{
    String::from_str("Token saved")
}

/// The notice after a text that did not parse as an authorization code.
pub fn invalid_code_reply() -> (r: String)
    ensures
        r@ == "Invalid Code/URL"@,
{
    String::from_str("Invalid Code/URL")
}

} // verus!
