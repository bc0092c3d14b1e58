//! A chat bot's webhook logic: it reads a video link from a message, resolves it
//! to a direct media link through the mirror sites of four platforms, and sends
//! the video back, caching the media id that the chat platform hands out.
//!
//! All outside work (HTTP, the chat platform, the cache) is left to the caller:
//! `session::Session` and `resolver::Resolution` are state machines that say
//! what to do next and take back what came of it.
pub mod db;
pub mod decoder;
pub mod http;
pub mod patterns;
pub mod platform;
pub mod resolver;
pub mod session;
pub mod shorts;
pub mod snap;
pub mod telegram;
pub mod text;
pub mod twitter;
pub mod weburl;
