//! Talking to the hosting service: what travels on the wire, how a payload is
//! decoded, when to wait, and the run that fetches a repository's files.

pub mod backoff;
pub mod behaviour;
pub mod client;
pub mod content;
pub mod decoder;
pub mod request;
pub mod tree;
pub mod types;
