use vstd::prelude::*;
use vstd::slice::{slice_subrange, slice_to_vec};

verus! {

/// One direction of the stream: the bytes that one end wrote and the other
/// has yet to finish reading.
pub struct Pipe {
    data: Vec<u8>,
}

impl View for Pipe {
    type V = Seq<u8>;

    closed spec fn view(&self) -> Seq<u8> {
        self.data@
    }
}

impl Pipe {
    /// An empty pipe.
    pub fn new() -> (pipe: Pipe)
        ensures
            pipe@ == Seq::<u8>::empty(),
    {
        Pipe { data: Vec::new() }
    }

    /// The number of bytes in the pipe.
    pub fn len(&self) -> (n: usize)
        ensures
            n == self@.len(),
    {
        self.data.len()
    }
}

/// What the wake-up channel of an end gave when it was polled.
#[derive(Clone, Copy, Debug, PartialEq, Eq, Structural)]
pub enum Wake {
    /// The peer flushed: there may be something to read.
    Ready,
    /// The peer closed its end.
    Closed,
    /// Nothing yet.
    Pending,
    /// The channel failed.
    Broken,
}

/// The outcome of a poll for reading.
pub enum ReadPoll {
    /// These bytes were read; none at the end of the stream.
    Ready { bytes: Vec<u8> },
    Pending,
    /// The wake-up channel could not be read.
    BrokenPipe,
}

/// What came of telling the peer that there is something to read.
#[derive(Clone, Copy, Debug, PartialEq, Eq, Structural)]
pub enum Notify {
    /// The peer was told.
    Flushed,
    /// The channel is not ready yet.
    Pending,
    /// The channel is full: the peer has a wake-up waiting already.
    Full,
    /// The peer is gone.
    Disconnected,
}

/// The outcome of a poll for flushing.
#[derive(Clone, Copy, Debug, PartialEq, Eq, Structural)]
pub enum FlushPoll {
    Ready,
    Pending,
    /// The peer could not be told.
    BrokenPipe,
}

/// The smaller of two numbers.
pub open spec fn min(a: int, b: int) -> int {
    if a <= b {
        a
    } else {
        b
    }
}

/// One end of the stream: how far it has read in the pipe that it reads
/// from, whether it has written since it last told the peer, and whether the
/// pipe held more than it last read.
pub struct OneEndIO {
    in_pos: usize,
    flush: bool,
    read_pending: bool,
}

impl OneEndIO {
    /// The number of bytes of its pipe that this end has read.
    pub closed spec fn in_pos(&self) -> int {
        self.in_pos as int
    }

    /// Whether this end has written since it last told the peer.
    pub closed spec fn unflushed(&self) -> bool {
        self.flush
    }

    /// Whether the pipe held more than this end last read.
    pub closed spec fn pending(&self) -> bool {
        self.read_pending
    }

    /// The number of bytes of its pipe that this end has read.
    pub fn position(&self) -> (n: usize)
        ensures
            n == self.in_pos(),
    {
        self.in_pos
    }

    /// Whether this end has written since it last told the peer: whether a
    /// flush has anything to do.
    pub fn needs_flush(&self) -> (flush: bool)
        ensures
            flush == self.unflushed(),
    {
        self.flush
    }

    /// Whether the pipe held more than this end last read: whether a read
    /// goes ahead without waiting for a wake-up.
    pub fn read_pending(&self) -> (pending: bool)
        ensures
            pending == self.pending(),
    {
        self.read_pending
    }

    /// Reads up to `max` bytes from where this end stands in `in_io`. Once
    /// it has read all there is, the pipe is emptied and the end stands at
    /// its start again.
    pub fn read(&mut self, in_io: &mut Pipe, max: usize) -> (bytes: Vec<u8>)
        requires
            old(self).in_pos() <= old(in_io)@.len(),
        ensures
            final(self).unflushed() == old(self).unflushed(),
            bytes@ == old(in_io)@.subrange(
                old(self).in_pos(),
                old(self).in_pos() + min(max as int, old(in_io)@.len() - old(self).in_pos()),
            ),
            old(self).in_pos() + bytes@.len() == old(in_io)@.len() ==> {
                &&& final(in_io)@ == Seq::<u8>::empty()
                &&& final(self).in_pos() == 0
                &&& !final(self).pending()
            },
            old(self).in_pos() + bytes@.len() != old(in_io)@.len() ==> {
                &&& final(in_io)@ == old(in_io)@
                &&& final(self).in_pos() == old(self).in_pos() + bytes@.len()
                &&& final(self).pending()
            },
    {
        let old_pos = in_io.data.len();
        let available = old_pos - self.in_pos;
        let n = if max <= available {
            max
        } else {
            available
        };
        let bytes = slice_to_vec(slice_subrange(in_io.data.as_slice(), self.in_pos, self.in_pos + n));
        self.in_pos = self.in_pos + n;
        if self.in_pos == old_pos {
            in_io.data.clear();
            self.in_pos = 0;
            self.read_pending = false;
        } else {
            self.read_pending = true;
        }
        bytes
    }

    /// A poll for reading, given what the wake-up channel gave. An end that
    /// knows of more to read reads at once, whatever the channel gave; any
    /// other reads when woken, is at the end of the stream when the peer has
    /// closed, and otherwise waits or fails as the channel does.
    pub fn poll_read(&mut self, in_io: &mut Pipe, wake: Wake, max: usize) -> (poll: ReadPoll)
        requires
            old(self).in_pos() <= old(in_io)@.len(),
        ensures
            final(self).unflushed() == old(self).unflushed(),
            final(self).in_pos() <= final(in_io)@.len(),
            old(self).pending() || wake == Wake::Ready ==> {
                &&& poll matches ReadPoll::Ready { bytes }
                &&& bytes@ == old(in_io)@.subrange(
                    old(self).in_pos(),
                    old(self).in_pos() + min(max as int, old(in_io)@.len() - old(self).in_pos()),
                )
                &&& final(self).pending() == (old(self).in_pos() + bytes@.len() != old(in_io)@.len())
                &&& final(self).pending() ==> final(in_io)@ == old(in_io)@ && final(self).in_pos()
                    == old(self).in_pos() + bytes@.len()
                &&& !final(self).pending() ==> final(in_io)@ == Seq::<u8>::empty() && final(self).in_pos() == 0
            },
            !old(self).pending() && wake != Wake::Ready ==> {
                &&& final(in_io)@ == old(in_io)@
                &&& final(self).in_pos() == old(self).in_pos()
                &&& !final(self).pending()
                &&& match wake {
                    Wake::Closed => poll matches ReadPoll::Ready { bytes } && bytes@.len() == 0,
                    Wake::Pending => poll is Pending,
                    _ => poll is BrokenPipe,
                }
            },
    {
        if self.read_pending {
            ReadPoll::Ready { bytes: self.read(in_io, max) }
        } else {
            match wake {
                Wake::Ready => ReadPoll::Ready { bytes: self.read(in_io, max) },
                Wake::Closed => ReadPoll::Ready { bytes: Vec::new() },
                Wake::Pending => ReadPoll::Pending,
                Wake::Broken => ReadPoll::BrokenPipe,
            }
        }
    }

    /// Writes `buf` to the end of `out_io`, all of it, and remembers that
    /// the peer is to be told.
    pub fn poll_write(&mut self, out_io: &mut Pipe, buf: &[u8]) -> (written: usize)
        requires
            old(out_io)@.len() + buf@.len() <= usize::MAX,
        ensures
            written == buf@.len(),
            final(out_io)@ == old(out_io)@ + buf@,
            final(self).unflushed(),
            final(self).in_pos() == old(self).in_pos(),
            final(self).pending() == old(self).pending(),
    {
        out_io.data.extend_from_slice(buf);
        self.flush = true;
        buf.len()
    }

    /// A poll for flushing, given what came of telling the peer. With
    /// nothing written there is nothing to do. Otherwise the flush is done
    /// once the peer was told; a full channel counts as done too, but leaves
    /// the peer to be told again.
    pub fn poll_flush(&mut self, notify: Notify) -> (poll: FlushPoll)
        ensures
            final(self).in_pos() == old(self).in_pos(),
            final(self).pending() == old(self).pending(),
            !old(self).unflushed() ==> poll == FlushPoll::Ready && !final(self).unflushed(),
            old(self).unflushed() ==> match notify {
                Notify::Flushed => poll == FlushPoll::Ready && !final(self).unflushed(),
                Notify::Pending => poll == FlushPoll::Pending && final(self).unflushed(),
                Notify::Full => poll == FlushPoll::Ready && final(self).unflushed(),
                Notify::Disconnected => poll == FlushPoll::BrokenPipe && final(self).unflushed(),
            },
    {
        if !self.flush {
            return FlushPoll::Ready;
        }
        match notify {
            Notify::Flushed => {
                self.flush = false;
                FlushPoll::Ready
            },
            Notify::Pending => FlushPoll::Pending,
            Notify::Full => FlushPoll::Ready,
            Notify::Disconnected => FlushPoll::BrokenPipe,
        }
    }
}

/// The maker of the two ends of a stream.
pub struct PairIO;

impl PairIO {
    /// Two ends that have read and written nothing. Each reads from the pipe
    /// that the other writes to.
    pub fn new() -> (ends: (OneEndIO, OneEndIO))
        ensures
            ends.0.in_pos() == 0 && !ends.0.unflushed() && !ends.0.pending(),
            ends.1.in_pos() == 0 && !ends.1.unflushed() && !ends.1.pending(),
    {
        (
            OneEndIO { in_pos: 0, flush: false, read_pending: false },
            OneEndIO { in_pos: 0, flush: false, read_pending: false },
        )
    }
}

} // verus!
