//! An in-memory duplex stream: two ends, each of which reads what the other
//! wrote.
pub mod pair_io;

pub use self::pair_io::{FlushPoll, Notify, OneEndIO, PairIO, Pipe, ReadPoll, Wake};
