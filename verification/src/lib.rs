//! Verified core of a bot that relays events of a Shimmie image board
//! (new posts, comments and users) to Discord channels.

pub mod text;
pub mod errors;
pub mod media;
pub mod models;
pub mod embed;
pub mod effects;
pub mod handlers;
pub mod relay;
pub mod laws;
