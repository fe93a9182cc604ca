//! A unified abstraction layer over message-passing channels.
//!
//! Structurally different channel backends (bounded and unbounded
//! multi-producer channels, single-consumer channels, one-shot channels)
//! are exposed through a small set of capability traits, while each
//! backend's failure vocabulary is normalized into one error taxonomy.
//! The receiving side lives under [`receiver`], the sending side under
//! [`sender`].

pub mod receiver;
pub mod sender;
