//! Verified core of a small question-and-answer web service: query parsing,
//! error replies, response classification for the profanity filter and the
//! decisions that the request handlers take between their outside calls.

pub mod decimal;
pub mod error;
pub mod pagination;

pub use vstd::hash_map::StringHashMap;
pub mod question;
pub mod account;
pub mod profanity;
pub mod reply;
pub mod flow;
