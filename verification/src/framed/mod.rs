//! The write side of a framed transport: frames are encoded into a buffer,
//! which is written out to the stream piece by piece.
pub mod framed_write;

pub use self::framed_write::{framed_write2, framed_write2_with_buffer, FramedWrite2, WriteError};
