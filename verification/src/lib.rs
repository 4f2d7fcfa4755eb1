//! A point-to-point encrypted data pipe: one side reads a byte stream from a
//! local source and sends it over an encrypted transport to a peer, which
//! writes the received bytes to a local sink.
//!
//! This crate holds the verified core: translating named tuning options into
//! a transport configuration, the chunked stream pump that moves the bytes,
//! the session and channel lifecycle, and the certificate trust policy.
//! The surrounding process (argument handling, sockets, the async runtime)
//! lives outside and drives these pieces.

pub mod errors;
pub mod identity;
pub mod pump;
pub mod session;
pub mod settings;
pub mod transport;
pub mod trust;
