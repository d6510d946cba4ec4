use vstd::prelude::*;

use crate::broadcast::OAuthResponse;

verus! {

/// The platform's token endpoint.
pub const TOKEN_URL: &'static str = "https://id.twitch.tv/oauth2/token";

/// The live-stream listing, before the login to look up.
pub const STREAMS_BY_LOGIN: &'static str = "https://api.twitch.tv/helix/streams?user_login=";

/// The live-stream listing, before the user id to look up.
pub const STREAMS_BY_USER_ID: &'static str = "https://api.twitch.tv/helix/streams?user_id=";

/// The user lookup, before the login to look up.
pub const USERS_BY_LOGIN: &'static str = "https://api.twitch.tv/helix/users?login=";

/// Why a call to the platform brought no list.
#[derive(Clone, Debug)]
pub enum TwitchAPIError {
    /// The request failed in transport or the platform answered with an error status.
    Transport { status: Option<u16> },
    /// The answer's body was not the expected JSON.
    Parse { detail: String },
}

/// The platform's signal that the credential has expired or is invalid.
pub open spec fn is_unauthorized(e: TwitchAPIError) -> bool {
    e matches TwitchAPIError::Transport { status: Some(code) } && code == 401
}

impl TwitchAPIError {
    /// Whether this failure says the credential was rejected (HTTP 401).
    pub fn is_unauthorized(&self) -> (r: bool)
        ensures
            r == is_unauthorized(*self),
    {
        match self {
            TwitchAPIError::Transport { status: Some(code) } => *code == 401,
            _ => false,
        }
    }
}

/// The form body of a client-credentials token request.
pub open spec fn token_body_of(client_id: Seq<char>, client_secret: Seq<char>) -> Seq<char> {
    "client_id="@ + client_id + "&client_secret="@ + client_secret
        + "&grant_type=client_credentials"@
}

/// The form body that exchanges the client's credentials for a bearer credential.
pub fn token_request_body(client_id: &str, client_secret: &str) -> (r: String)
    ensures
        r@ == token_body_of(client_id@, client_secret@),
{
    let mut out = String::from_str("client_id=");
    out.append(client_id);
    out.append("&client_secret=");
    out.append(client_secret);
    out.append("&grant_type=client_credentials");
    out
}

/// `base` followed by `arg`.
pub fn joined(base: &str, arg: &str) -> (r: String)
    ensures
        r@ == base@ + arg@,
{
    let mut out = String::from_str(base);
    out.append(arg);
    out
}

/// The live-stream listing of the user with login `username`.
pub fn streams_by_name_url(username: &str) -> (r: String)
    ensures
        r@ == STREAMS_BY_LOGIN@ + username@,
{
    joined(STREAMS_BY_LOGIN, username)
}

/// The live-stream listing of the user with id `user_id`.
pub fn streams_by_user_id_url(user_id: &str) -> (r: String)
    ensures
        r@ == STREAMS_BY_USER_ID@ + user_id@,
{
    joined(STREAMS_BY_USER_ID, user_id)
}

/// The profile lookup of the user with login `login`.
pub fn user_by_login_url(login: &str) -> (r: String)
    ensures
        r@ == USERS_BY_LOGIN@ + login@,
{
    joined(USERS_BY_LOGIN, login)
}

/// What an authenticated platform call carries: the credential and the client id.
pub struct TwitchAPI {
    pub auth: OAuthResponse,
    pub client_id: String,
}

impl TwitchAPI {
    pub fn new(auth: OAuthResponse, client_id: String) -> (r: Self)
        ensures
            r.auth == auth,
            r.client_id == client_id,
    {
        TwitchAPI { auth, client_id }
    }

    /// The headers of every authenticated call, as (name, value) pairs: the client id and
    /// the bearer credential.
    pub fn headers(&self) -> (r: Vec<(String, String)>)
        ensures
            r@.len() == 2,
            r@[0].0@ == "Client-ID"@,
            r@[0].1@ == self.client_id@,
            r@[1].0@ == "Authorization"@,
            r@[1].1@ == "Bearer "@ + self.auth.access_token@,
    {
        let mut out: Vec<(String, String)> = Vec::new();
        out.push((String::from_str("Client-ID"), self.client_id.clone()));
        out.push((String::from_str("Authorization"), joined("Bearer ", self.auth.access_token.as_str())));
        out
    }
}

} // verus!
