//! The synchronization core of a client for a social network: the session
//! and the operations against the service, the cache that holds each post
//! once, and the worker that serves the commands of the presentation layer.

pub mod backend;
pub mod bridge;
pub mod defs;
pub mod frontend;
pub mod settings;
