//! Verified core of a conversational front-end to Dresden's public transport
//! data: the per-session cache of the last route results, the derived keys by
//! which routes and legs are found again, their human-readable summaries, and
//! the small decision rules of the surrounding server.

pub mod coords;
pub mod elicit;
pub mod instant;
pub mod key;
pub mod optional;
pub mod request;
pub mod resource;
pub mod route;
pub mod route_cache;
pub mod session;
pub mod snapshot;
pub mod summary;
mod text;
pub mod user_context;
