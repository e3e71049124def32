//! Correlated request/response exchange over one byte stream: the frame
//! model, its wire codec, the id allocator and the per-connection
//! correlation table.
pub mod caller;
pub mod codec;
pub mod frame;
pub mod handler;

pub use self::caller::Caller;
pub use self::codec::Codec;
pub use self::frame::{Frame, TypeLabel};
pub use self::handler::{Action, Handler};
