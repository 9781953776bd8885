//! The settings of the OAuth2 authorization-code flow, and what is reported
//! once the code has been exchanged.
use vstd::prelude::*;
use crate::config::Config;
use crate::text::{decimal, decimal_string, opt_view};

verus! {

/// What the OAuth2 client is set up with: the client's credentials, the two
/// endpoints, where the user is sent back to, and the scopes asked for.
pub struct AuthSettings {
    pub client_id: String,
    pub client_secret: String,
    pub auth_url: String,
    pub token_url: String,
    pub redirect_url: String,
    pub scopes: Vec<String>,
}

/// The scopes every authorization asks for: reading and writing.
pub open spec fn requested_scopes() -> Seq<Seq<char>> {
    seq!["read"@, "write"@]
}

/// The OAuth2 settings of `config`: its client id in decimal, its secret and
/// endpoints, its blog as the redirect address, and the scopes `read`, `write`.
pub fn auth_settings(config: Config) -> (r: AuthSettings)
    ensures
        r.client_id@ == decimal(config.client_id as nat),
        r.client_secret@ == config.client_secret@,
        r.auth_url@ == config.auth_url@,
        r.token_url@ == config.token_url@,
        r.redirect_url@ == config.blog_url@,
        r.scopes@.map_values(|s: String| s@) == requested_scopes(),
{
    let mut scopes: Vec<String> = Vec::new();
    scopes.push(String::from_str("read"));
    scopes.push(String::from_str("write"));
    assert(scopes@.map_values(|s: String| s@) =~= requested_scopes());
    AuthSettings {
        client_id: decimal_string(config.client_id),
        client_secret: config.client_secret,
        auth_url: config.auth_url,
        token_url: config.token_url,
        redirect_url: config.blog_url,
        scopes,
    }
}

/// The lines reported after the exchange: the access token with a reminder
/// to store it, or a notice that no token came back.
pub open spec fn token_report_of(token: Option<Seq<char>>) -> Seq<Seq<char>> {
    match token {
        Some(t) => seq!["Update wprs.conf with token"@, "Token: "@ + t],
        None => seq!["Error fetching token"@],
    }
}

/// The lines reported once the authorization code has been exchanged, given
/// the access token the exchange returned, if any.
pub fn token_report(token: Option<String>) -> (r: Vec<String>)
    ensures
        r@.map_values(|s: String| s@) == token_report_of(opt_view(token)),
{
    let mut lines: Vec<String> = Vec::new();
    match token {
        Some(t) => {
            lines.push(String::from_str("Update wprs.conf with token"));
            let mut s = String::from_str("Token: ");
            s.append(t.as_str());
            lines.push(s);
        },
        None => {
            lines.push(String::from_str("Error fetching token"));
        },
    }
    assert(lines@.map_values(|s: String| s@) =~= token_report_of(opt_view(token)));
    lines
}

} // verus!
