//! A small WordPress.com client: endpoint addresses, the posts it submits,
//! and the settings of its OAuth2 flow, each built from the configuration
//! with a stated result.
pub mod auth;
pub mod config;
pub mod endpoint;
pub mod posts;
pub mod text;
