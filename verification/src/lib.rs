//! Client-side protocol stack for a Bluetooth Low-Energy fitness band:
//! the byte-exact record codecs, the chunked-transfer framing, the
//! challenge-response authentication state machine, the bus-session
//! object classification and service resolution, and the per-band
//! configuration store. All I/O stays with the surrounding application;
//! this crate holds the verified logic between the bytes and the calls.

pub mod auth;
pub mod chunked;
pub mod client;
pub mod codec;
pub mod errors;
pub mod media;
pub mod notifications;
pub mod session;
pub mod store;
pub mod time;
pub mod utils;
