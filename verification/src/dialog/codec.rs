use super::frame::{Frame, FrameView, TypeLabel};
use crate::buffer::{bytes_mut_seq, bytes_mut_slice, bytes_slice, put_u64_le, put_u8, read_u64_le};
use bytes::BytesMut;
use vstd::bytes::{
    lemma_auto_spec_u64_to_from_le_bytes, spec_u64_from_le_bytes, spec_u64_to_le_bytes,
};
use vstd::prelude::*;
use vstd::slice::slice_subrange;

verus! {

/// The length of a frame's header: one byte for the label, eight for the
/// payload's length and eight for the id.
pub const HEADER_LEN: usize = 17;

/// A frame on the wire: the label's byte, the payload's length and the id,
/// both as eight bytes with the low byte first, then the payload.
pub open spec fn encode_frame(f: FrameView) -> Seq<u8> {
    seq![f.t.code()] + spec_u64_to_le_bytes(f.payload.len() as u64) + spec_u64_to_le_bytes(f.id)
        + f.payload
}

/// The payload length that the header at the start of `s` announces.
pub open spec fn announced_len(s: Seq<u8>) -> int
    recommends
        s.len() >= HEADER_LEN,
{
    spec_u64_from_le_bytes(s.subrange(1, 9)) as int
}

/// Whether `s` starts with a whole frame: the header is there, and as many
/// payload bytes as it announces.
pub open spec fn has_frame(s: Seq<u8>) -> bool {
    s.len() >= HEADER_LEN && s.len() >= HEADER_LEN + announced_len(s)
}

/// The number of bytes that the frame at the start of `s` takes.
pub open spec fn frame_len(s: Seq<u8>) -> int
    recommends
        has_frame(s),
{
    HEADER_LEN + announced_len(s)
}

/// The frame at the start of `s`.
pub open spec fn decode_frame(s: Seq<u8>) -> FrameView
    recommends
        has_frame(s),
{
    FrameView {
        t: TypeLabel::of_code(s[0]),
        id: spec_u64_from_le_bytes(s.subrange(9, 17)),
        payload: s.subrange(HEADER_LEN as int, frame_len(s)),
    }
}

/// What goes in front of a frame's payload is `HEADER_LEN` bytes long, so the
/// whole frame takes `HEADER_LEN` bytes more than its payload.
pub proof fn lemma_encode_len(f: FrameView)
    ensures
        encode_frame(f).len() == HEADER_LEN + f.payload.len(),
{
    lemma_auto_spec_u64_to_from_le_bytes();
}

/// Decoding undoes encoding: whatever follows an encoded frame in the
/// stream, the bytes start with a whole frame, that frame is the one that was
/// encoded, and it takes exactly the bytes that encoding produced.
pub proof fn lemma_decode_encode(f: FrameView, rest: Seq<u8>)
    requires
        f.payload.len() <= u64::MAX,
    ensures
        has_frame(encode_frame(f) + rest),
        frame_len(encode_frame(f) + rest) == encode_frame(f).len(),
        decode_frame(encode_frame(f) + rest) == f,
{
    lemma_auto_spec_u64_to_from_le_bytes();
    f.t.lemma_code_roundtrip();
    let n = f.payload.len() as u64;
    let s = encode_frame(f) + rest;
    assert(s.subrange(1, 9) =~= spec_u64_to_le_bytes(n));
    assert(s.subrange(9, 17) =~= spec_u64_to_le_bytes(f.id));
    assert(s[0] == f.t.code());
    assert(s.subrange(HEADER_LEN as int, HEADER_LEN + n) =~= f.payload);
}

/// The wire codec of the dialog layer.
pub struct Codec;

impl Codec {
    /// Takes one frame off the front of `buf` if a whole one is there, and
    /// otherwise leaves `buf` as it is and asks for more. It never fails.
    pub fn decode(&mut self, buf: &mut BytesMut) -> (r: Result<Option<Frame>, std::io::Error>)
        ensures
            r is Ok,
            has_frame(bytes_mut_seq(*old(buf))) ==> {
                &&& r->Ok_0 is Some
                &&& r->Ok_0->Some_0@ == decode_frame(bytes_mut_seq(*old(buf)))
                &&& bytes_mut_seq(*final(buf)) == bytes_mut_seq(*old(buf)).skip(
                    frame_len(bytes_mut_seq(*old(buf))),
                )
            },
            !has_frame(bytes_mut_seq(*old(buf))) ==> {
                &&& r->Ok_0 is None
                &&& bytes_mut_seq(*final(buf)) == bytes_mut_seq(*old(buf))
            },
    {
        let len = buf.len();
        if len >= HEADER_LEN {
            let s = bytes_mut_slice(buf);
            let message_len = read_u64_le(slice_subrange(s, 1, 9));
            assert(s@.subrange(1, 9).subrange(0, 8) =~= s@.subrange(1, 9));
            if (len - HEADER_LEN) as u64 >= message_len {
                let message_type = TypeLabel::from(s[0]);
                let id = read_u64_le(slice_subrange(s, 9, 17));
                assert(s@.subrange(9, 17).subrange(0, 8) =~= s@.subrange(9, 17));
                let _ = buf.split_to(HEADER_LEN);
                let payload = buf.split_to(message_len as usize);
                proof {
                    let all = bytes_mut_seq(*old(buf));
                    let after = all.subrange(HEADER_LEN as int, all.len() as int);
                    assert(after.subrange(0, message_len as int) =~= all.subrange(
                        HEADER_LEN as int,
                        frame_len(all),
                    ));
                    assert(after.subrange(message_len as int, after.len() as int) =~= all.skip(
                        frame_len(all),
                    ));
                }
                Ok(Some(Frame::new(message_type, id, payload.freeze())))
            } else {
                Ok(None)
            }
        } else {
            Ok(None)
        }
    }

    /// Appends the frame's wire form to `buf`. It never fails.
    pub fn encode(&mut self, frame: Frame, buf: &mut BytesMut) -> (r: Result<(), std::io::Error>)
        requires
            bytes_mut_seq(*old(buf)).len() + HEADER_LEN + frame@.payload.len() <= isize::MAX,
        ensures
            r is Ok,
            bytes_mut_seq(*final(buf)) == bytes_mut_seq(*old(buf)) + encode_frame(frame@),
    {
        proof {
            lemma_auto_spec_u64_to_from_le_bytes();
        }
        let (t, id, payload) = frame.into();
        let len = payload.len() + HEADER_LEN;
        buf.reserve(len);
        put_u8(buf, u8::from(t));
        put_u64_le(buf, payload.len() as u64);
        put_u64_le(buf, id);
        buf.extend_from_slice(bytes_slice(&payload));
        assert(bytes_mut_seq(*buf) =~= bytes_mut_seq(*old(buf)) + encode_frame(frame@));
        Ok(())
    }
}

} // verus!
