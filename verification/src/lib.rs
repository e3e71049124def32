//! A symmetric RPC and publish/subscribe transport over a reliable byte
//! stream, as a set of verified codecs and state machines.
//!
//! `dialog` frames messages and correlates responses with requests; `sim`
//! addresses requests by topic and keeps the subscriber sets; `framed` buffers
//! outgoing frames; `util` holds an in-memory duplex pipe.
pub mod buffer;
pub mod dialog;
pub mod framed;
pub mod sim;
pub mod util;
