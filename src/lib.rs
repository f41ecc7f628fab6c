//! Client-side logic for a cloud-drive OAuth2 and file API: when a cached token must be
//! refreshed, how token exchanges and file requests are validated and built, how a large
//! file is cut into parts and uploaded step by step, and how a token is stored as text.
pub mod bridge;
pub mod codec;
pub mod common;
pub mod error;
pub mod oauth;
pub mod requests;
pub mod responses;
pub mod session;
pub mod token;
pub mod upload;
