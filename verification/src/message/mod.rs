//! Messages sent over the Streaming API.

pub mod direct_message;
pub mod entities;
pub mod event;
pub mod geometry;
pub mod list;
pub mod place;
pub mod record;
pub mod stream;
pub mod tweet;
pub mod user;
pub mod warning;
