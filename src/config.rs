//! The settings the client runs with.
use vstd::prelude::*;

verus! {

/// The client's settings: the author of new posts, the OAuth2 endpoints and
/// credentials, the blog, and the access token issued for it.
#[derive(Clone)]
pub struct Config {
    pub author: String,
    pub auth_url: String,
    pub token_url: String,
    pub blog_id: u32,
    pub blog_url: String,
    pub client_id: u32,
    pub client_secret: String,
    pub token: String,
}

} // verus!
