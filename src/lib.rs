//! Startup-notification engine: activation tokens, the completion message and
//! its 20-byte chunks, the proxy-endpoint send session, and the pending
//! activation state of an event loop.

pub mod activation;
pub mod clipboard;
pub mod message;
pub mod proxy;
pub mod token;
