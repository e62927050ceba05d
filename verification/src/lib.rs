//! Responder side of the Lightning transport: the three-act Noise handshake,
//! the encrypted frame channel that follows it, and a dispatcher that turns
//! decrypted messages into readable reports. The initiating side of the
//! handshake stands beside it, as the peer that a responder agrees with.

pub mod buf;
pub mod primitives;
pub mod symmetric;
pub mod text;
pub mod keys;
pub mod channel;
pub mod handshake;
pub mod initiator;
pub mod dispatch;
pub mod connection;
