use crate::buffer::{bytes_mut_seq, bytes_seq, bytes_slice, put_u16_le, put_u8, read_u16_le};
use bytes::{Bytes, BytesMut};
use vstd::bytes::{
    lemma_auto_spec_u16_to_from_le_bytes, spec_u16_from_le_bytes, spec_u16_to_le_bytes,
};
use vstd::prelude::*;

verus! {

/// The longest topic that the envelope can carry: its length travels in two
/// bytes.
pub const MAX_TOPIC_LEN: usize = 65535;

/// What a request asks of the peer.
#[derive(Clone, Copy, Debug, PartialEq, Eq, Structural)]
pub enum RequestType {
    Rpc,
    Subscription,
    Unsubscription,
    Notification,
}

impl RequestType {
    /// The byte that stands for this kind in the envelope.
    pub open spec fn code(self) -> u8 {
        match self {
            RequestType::Rpc => 0,
            RequestType::Subscription => 1,
            RequestType::Unsubscription => 2,
            RequestType::Notification => 3,
        }
    }

    /// The kind that an envelope byte stands for, if it stands for one.
    pub open spec fn of_code(b: u8) -> Option<RequestType> {
        if b == 0 {
            Some(RequestType::Rpc)
        } else if b == 1 {
            Some(RequestType::Subscription)
        } else if b == 2 {
            Some(RequestType::Unsubscription)
        } else if b == 3 {
            Some(RequestType::Notification)
        } else {
            None
        }
    }

    pub fn from(b: u8) -> (kind: Option<RequestType>)
        ensures
            kind == RequestType::of_code(b),
    {
        match b {
            0 => Some(RequestType::Rpc),
            1 => Some(RequestType::Subscription),
            2 => Some(RequestType::Unsubscription),
            3 => Some(RequestType::Notification),
            _ => None,
        }
    }
}

impl From<RequestType> for u8 {
    fn from(k: RequestType) -> (byte: u8)
        ensures
            byte == k.code(),
    {
        match k {
            RequestType::Rpc => 0,
            RequestType::Subscription => 1,
            RequestType::Unsubscription => 2,
            RequestType::Notification => 3,
        }
    }
}

impl vstd::std_specs::convert::FromSpecImpl<RequestType> for u8 {
    open spec fn obeys_from_spec() -> bool {
        true
    }

    open spec fn from_spec(k: RequestType) -> u8 {
        k.code()
    }
}

/// A request as a mathematical value.
pub struct RequestView {
    pub kind: RequestType,
    pub topic: Seq<u8>,
    pub message: Seq<u8>,
}

/// A request addressed to a topic.
pub struct Request {
    pub kind: RequestType,
    pub topic: Bytes,
    pub message: Bytes,
}

impl View for Request {
    type V = RequestView;

    open spec fn view(&self) -> RequestView {
        RequestView {
            kind: self.kind,
            topic: bytes_seq(self.topic),
            message: bytes_seq(self.message),
        }
    }
}

/// A request's envelope: the kind's byte, the topic's length as two bytes
/// with the low byte first, the topic, and then the message up to the end.
pub open spec fn encode_request(r: RequestView) -> Seq<u8>
    recommends
        r.topic.len() <= MAX_TOPIC_LEN,
{
    seq![r.kind.code()] + spec_u16_to_le_bytes(r.topic.len() as u16) + r.topic + r.message
}

/// The topic length that the envelope `s` announces.
pub open spec fn announced_topic_len(s: Seq<u8>) -> int
    recommends
        s.len() >= 3,
{
    spec_u16_from_le_bytes(s.subrange(1, 3)) as int
}

/// The request that the envelope `s` holds. There is none where `s` is too
/// short for the three leading bytes, where its first byte stands for no
/// kind, or where it announces a longer topic than the bytes that follow.
pub open spec fn parse_request(s: Seq<u8>) -> Option<RequestView> {
    if s.len() < 3 {
        None
    } else if RequestType::of_code(s[0]) is None {
        None
    } else if 3 + announced_topic_len(s) > s.len() {
        None
    } else {
        Some(
            RequestView {
                kind: RequestType::of_code(s[0])->Some_0,
                topic: s.subrange(3, 3 + announced_topic_len(s)),
                message: s.subrange(3 + announced_topic_len(s), s.len() as int),
            },
        )
    }
}

/// An envelope is three bytes longer than its topic and message together.
pub proof fn lemma_encode_request_len(r: RequestView)
    ensures
        encode_request(r).len() == 3 + r.topic.len() + r.message.len(),
{
    lemma_auto_spec_u16_to_from_le_bytes();
}

/// Parsing undoes encoding: the envelope of a request whose topic fits holds
/// that request.
pub proof fn lemma_parse_encode_request(r: RequestView)
    requires
        r.topic.len() <= MAX_TOPIC_LEN,
    ensures
        parse_request(encode_request(r)) == Some(r),
{
    lemma_auto_spec_u16_to_from_le_bytes();
    let s = encode_request(r);
    let n = r.topic.len() as u16;
    assert(s.subrange(1, 3) =~= spec_u16_to_le_bytes(n));
    assert(s[0] == r.kind.code());
    assert(RequestType::of_code(r.kind.code()) == Some(r.kind));
    assert(s.subrange(3, 3 + n) =~= r.topic);
    assert(s.subrange(3 + n, s.len() as int) =~= r.message);
}

impl Request {
    pub fn new(k: RequestType, topic: Bytes, message: Bytes) -> (request: Request)
        requires
            bytes_seq(topic).len() <= MAX_TOPIC_LEN,
        ensures
            request.kind == k,
            request.topic == topic,
            request.message == message,
    {
        Request { kind: k, topic, message }
    }

    /// Reads a request out of its envelope.
    pub fn from_bytes(b: Bytes) -> (request: Option<Request>)
        ensures
            match parse_request(bytes_seq(b)) {
                Some(parsed) => request is Some && request->Some_0@ == parsed,
                None => request is None,
            },
    {
        let ghost all = bytes_seq(b);
        let mut rest = b;
        if rest.len() < 3 {
            return None;
        }
        let head = rest.split_to(1);
        let kind = match RequestType::from(bytes_slice(&head)[0]) {
            Some(kind) => kind,
            None => {
                return None;
            },
        };
        let len_bytes = rest.split_to(2);
        let topic_len = read_u16_le(bytes_slice(&len_bytes)) as usize;
        proof {
            assert(bytes_seq(len_bytes).subrange(0, 2) =~= all.subrange(1, 3));
            assert(bytes_seq(rest) =~= all.subrange(3, all.len() as int));
        }
        if topic_len > rest.len() {
            return None;
        }
        let topic = rest.split_to(topic_len);
        let message = rest;
        proof {
            assert(bytes_seq(topic) =~= all.subrange(3, 3 + topic_len));
            assert(bytes_seq(message) =~= all.subrange(3 + topic_len, all.len() as int));
        }
        Some(Request { kind, topic, message })
    }

    /// Appends the request's envelope to `b`.
    pub fn write(&self, b: &mut BytesMut)
        requires
            self@.topic.len() <= MAX_TOPIC_LEN,
            bytes_mut_seq(*old(b)).len() + 3 + self@.topic.len() + self@.message.len()
                <= isize::MAX,
        ensures
            bytes_mut_seq(*final(b)) == bytes_mut_seq(*old(b)) + encode_request(self@),
            bytes_mut_seq(*final(b)).len() == bytes_mut_seq(*old(b)).len() + 3
                + self@.topic.len() + self@.message.len(),
    {
        proof {
            lemma_auto_spec_u16_to_from_le_bytes();
        }
        b.reserve(3 + self.topic.len() + self.message.len());
        put_u8(b, u8::from(self.kind));
        put_u16_le(b, self.topic.len() as u16);
        b.extend_from_slice(bytes_slice(&self.topic));
        b.extend_from_slice(bytes_slice(&self.message));
        assert(bytes_mut_seq(*b) =~= bytes_mut_seq(*old(b)) + encode_request(self@));
    }
}

} // verus!
