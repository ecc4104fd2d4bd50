//! A PocketBase client library: realtime subscriptions over a server-sent
//! event stream, with the reconnect policy, subscription registry, handshake
//! and registration protocol verified.

pub mod client;
pub mod errors;
pub mod policy;
pub mod realtime;
pub mod records;
pub mod registry;
mod strutil;
pub mod user;
pub mod wire;
