//! Ping/pong liveness protocol: signed tokens, their fixed binary encoding,
//! the ECDH-keyed envelope that carries them, the session store that
//! correlates pings with pongs, and the engine that ties them together.

pub mod bytes;
pub mod error;
pub mod identity;
mod platform;
pub mod key_exchange;
pub mod envelope;
pub mod hex_id;
pub mod token;
pub mod codec;
pub mod session;
pub mod engine;
pub mod onion;
