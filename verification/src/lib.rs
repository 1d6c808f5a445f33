//! Client side of a password-authenticated registration exchange.
//!
//! A client registers password-derived material with an identity service,
//! logs in with the same password straight away and receives an access
//! token, all over one lock-step stream of messages. This crate holds the
//! message taxonomy, the adapter over the PAKE primitive and the state
//! machine that orders the exchange; moving messages over a transport is
//! left to the caller.

pub mod error;
pub mod messages;
pub mod primitives;
pub mod protocol;

