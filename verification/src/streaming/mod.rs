//! Streaming: what is subscribed to, what a server sends, and what is made of
//! it.
pub mod events;
pub mod message;
pub mod subscription;
pub mod session;
pub mod manager;
pub mod polling;
pub mod emitter;
