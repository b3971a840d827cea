//! Client library for a music play-history web service: desktop
//! authentication, "now playing" notifications and batched scrobbles.
pub mod params;
pub mod signature;
pub mod auth;
pub mod scrobble;
pub mod json;
pub mod number;
pub mod error;
pub mod auth_mode;
pub mod client;
pub mod track;
