use crate::buffer::{bytes_mut_seq, bytes_mut_slice};
use crate::dialog::codec::{encode_frame, HEADER_LEN};
use crate::dialog::{Codec, Frame};
use bytes::BytesMut;
use vstd::prelude::*;

verus! {

/// The room that a write buffer starts with.
pub const INITIAL_CAPACITY: usize = 8 * 1024;

/// The amount of buffered data from which on no further frame is taken
/// before the buffer has been written out.
pub const BACKPRESSURE_BOUNDARY: usize = INITIAL_CAPACITY;

/// A stream together with the buffer of what is still to be written to it.
pub struct FramedWrite2<T> {
    inner: T,
    buffer: BytesMut,
}

/// What can go wrong while the buffer is written out.
#[derive(Clone, Copy, Debug, PartialEq, Eq, Structural)]
pub enum WriteError {
    /// The stream took no byte of what was pending.
    WriteZero,
}

/// Wraps `inner` with an empty write buffer.
pub fn framed_write2<T>(inner: T) -> (framed: FramedWrite2<T>)
    ensures
        framed.inner() == inner,
        framed.buffered() == Seq::<u8>::empty(),
{
    FramedWrite2 { inner: inner, buffer: BytesMut::with_capacity(INITIAL_CAPACITY) }
}

/// Wraps `inner` with `buf` as its write buffer: what `buf` holds is written
/// out first.
pub fn framed_write2_with_buffer<T>(inner: T, buf: BytesMut) -> (framed: FramedWrite2<T>)
    requires
        bytes_mut_seq(buf).len() + INITIAL_CAPACITY <= isize::MAX,
    ensures
        framed.inner() == inner,
        framed.buffered() == bytes_mut_seq(buf),
{
    let mut buf = buf;
    let capacity = buf.capacity();
    if capacity < INITIAL_CAPACITY {
        let bytes_to_reserve = INITIAL_CAPACITY - capacity;
        buf.reserve(bytes_to_reserve);
    }
    FramedWrite2 { inner: inner, buffer: buf }
}

impl<T> FramedWrite2<T> {
    /// The stream.
    pub closed spec fn inner(&self) -> T {
        self.inner
    }

    /// What is still to be written to the stream.
    pub closed spec fn buffered(&self) -> Seq<u8> {
        bytes_mut_seq(self.buffer)
    }

    pub fn get_ref(&self) -> (inner: &T)
        ensures
            *inner == self.inner(),
    {
        &self.inner
    }

    pub fn into_inner(self) -> (inner: T)
        ensures
            inner == self.inner(),
    {
        self.inner
    }

    pub fn into_parts(self) -> (parts: (T, BytesMut))
        ensures
            parts.0 == self.inner(),
            bytes_mut_seq(parts.1) == self.buffered(),
    {
        (self.inner, self.buffer)
    }

    pub fn get_mut(&mut self) -> (inner: &mut T)
        ensures
            *inner == old(self).inner(),
            final(self).inner() == *final(inner),
            final(self).buffered() == old(self).buffered(),
    {
        &mut self.inner
    }

    /// Whether a further frame is taken now: it is while less than
    /// `BACKPRESSURE_BOUNDARY` bytes are buffered. Where it is not, the
    /// buffer is to be written out first; if that leaves it over the boundary
    /// still, the sink is not ready.
    pub fn poll_ready(&self) -> (ready: bool)
        ensures
            ready == (self.buffered().len() < BACKPRESSURE_BOUNDARY),
    {
        self.buffer.len() < BACKPRESSURE_BOUNDARY
    }

    /// Takes a frame: its wire form joins the buffer.
    pub fn start_send(&mut self, item: Frame)
        requires
            old(self).buffered().len() + HEADER_LEN + item@.payload.len() <= isize::MAX,
        ensures
            final(self).inner() == old(self).inner(),
            final(self).buffered() == old(self).buffered() + encode_frame(item@),
    {
        let mut codec = Codec;
        let _ = codec.encode(item, &mut self.buffer);
    }

    /// What is to be written to the stream next: all that is buffered.
    pub fn pending(&self) -> (bytes: &[u8])
        ensures
            bytes@ == self.buffered(),
    {
        bytes_mut_slice(&self.buffer)
    }

    /// Takes note that the stream took the first `n` bytes of what was
    /// pending, and says whether the buffer is now empty, so that the stream
    /// itself is to be flushed. A stream that took nothing is an error, and
    /// leaves the buffer as it is.
    pub fn written(&mut self, n: usize) -> (flushed: Result<bool, WriteError>)
        requires
            n <= old(self).buffered().len(),
        ensures
            final(self).inner() == old(self).inner(),
            n == 0 ==> final(self).buffered() == old(self).buffered() && flushed == Err::<
                bool,
                WriteError,
            >(WriteError::WriteZero),
            n > 0 ==> final(self).buffered() == old(self).buffered().skip(n as int)
                && flushed == Ok::<bool, WriteError>(final(self).buffered().len() == 0),
    {
        if n == 0 {
            return Err(WriteError::WriteZero);
        }
        let _ = self.buffer.split_to(n);
        assert(bytes_mut_seq(self.buffer) =~= old(self).buffered().skip(n as int));
        Ok(self.buffer.len() == 0)
    }
}

} // verus!
