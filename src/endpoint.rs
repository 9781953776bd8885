//! Addresses of the WordPress.com REST endpoints the client uses.
use vstd::prelude::*;
use crate::text::{decimal, push_decimal};

verus! {

/// The base address shared by every endpoint.
pub open spec fn api_base() -> Seq<char> {
    "https://public-api.wordpress.com/rest/v1.1"@
}

/// The address of a blog's site resource.
pub open spec fn site_url_of(blog_id: nat) -> Seq<char> {
    api_base() + "/sites/"@ + decimal(blog_id)
}

/// The address that creates a new post on a blog.
pub open spec fn new_post_url_of(blog_id: nat) -> Seq<char> {
    site_url_of(blog_id) + "/posts/new"@
}

/// The site resource of blog `blog_id`, which the connectivity check reads.
pub fn site_url(blog_id: u32) -> (r: String)
    ensures
        r@ == site_url_of(blog_id as nat),
{
    let mut s = String::from_str("https://public-api.wordpress.com/rest/v1.1");
    s.append("/sites/");
    push_decimal(&mut s, blog_id);
    s
}

/// The endpoint that creates a post on blog `blog_id`.
pub fn new_post_url(blog_id: u32) -> (r: String)
    ensures
        r@ == new_post_url_of(blog_id as nat),
{
    let mut s = site_url(blog_id);
    s.append("/posts/new");
    s
}

} // verus!
