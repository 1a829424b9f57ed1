//! A minimal greeting server, with its per-connection logic verified.
//!
//! The server accepts TCP connections and, for each one, repeatedly reads a
//! request, logs its text, and answers with a fixed greeting until the peer
//! disconnects (the persistent-exchange policy).  The socket handling itself
//! lives outside this crate; what stands here is everything the handler
//! decides and computes: the lossy UTF-8 sanitisation of request bytes, the
//! fixed message texts, and the handler's state machine.

pub mod messages;
pub mod session;
pub mod utf8;
