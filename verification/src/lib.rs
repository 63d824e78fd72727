//! Port forwarding over an identity-addressed transport.
//!
//! A client reaches a TCP service on a server's loopback interface through
//! an encrypted connection that is addressed by the server's public
//! identity. This crate holds the protocol and the decisions of both
//! peers, free of input and output: its callers own the connections,
//! perform what they are asked to, and report what happened.
//!
//! - [`wire`]: the two-byte port header that opens every stream.
//! - [`allow`]: the set of ports a server forwards to.
//! - [`server`]: a server's session, from the request to the close.
//! - [`client`]: a client's run, and the one outcome that ends it.
//! - [`peers`]: what one peer does and the other sees, end to end.
//! - [`relay`]: the verdict on the two directions of a relay.
//! - [`close`]: close codes and reasons, as sent and as observed.
//! - [`error`]: the failures of a session.
//! - [`identity`]: the secret seed and the identity derived from it.
//! - [`text`]: numerals and the encoding of reasons.

pub mod allow;
pub mod client;
pub mod close;
pub mod error;
pub mod identity;
pub mod peers;
pub mod relay;
pub mod server;
pub mod text;
pub mod wire;
