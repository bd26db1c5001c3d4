//! A durable, ordered message-bus adapter: messages published through the
//! adapter are appended to an external append-only log and read back, in
//! order, by a background stream reader that hands them to a consumer
//! through a bounded channel.

pub mod adapter;
pub mod bytebuf;
pub mod channel;
pub mod codec;
pub mod config;
pub mod envelope;
pub mod errors;
pub mod identity;
pub mod reader;
pub mod session;
pub mod text;
