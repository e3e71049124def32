use crate::buffer::bytes_seq;
use bytes::Bytes;
use vstd::prelude::*;

verus! {

/// What a frame carries: a request, the response to one, or a health probe
/// and its echo.
#[derive(Clone, Copy, Debug, PartialEq, Eq, Structural)]
pub enum TypeLabel {
    Request,
    Response,
    Ping,
    Pong,
}

impl TypeLabel {
    /// The byte that stands for this label on the wire.
    pub open spec fn code(self) -> u8 {
        match self {
            TypeLabel::Request => 0,
            TypeLabel::Response => 1,
            TypeLabel::Ping => 2,
            TypeLabel::Pong => 3,
        }
    }

    /// The label that a wire byte stands for. A byte that stands for none is
    /// read as a request.
    pub open spec fn of_code(byte: u8) -> TypeLabel {
        if byte == 1 {
            TypeLabel::Response
        } else if byte == 2 {
            TypeLabel::Ping
        } else if byte == 3 {
            TypeLabel::Pong
        } else {
            TypeLabel::Request
        }
    }

    /// Reading back the byte of a label gives the label.
    pub proof fn lemma_code_roundtrip(self)
        ensures
            TypeLabel::of_code(self.code()) == self,
            self.code() <= 3,
    {
    }
}

impl From<TypeLabel> for u8 {
    fn from(ftype: TypeLabel) -> (byte: u8)
        ensures
            byte == ftype.code(),
    {
        match ftype {
            TypeLabel::Request => 0,
            TypeLabel::Response => 1,
            TypeLabel::Ping => 2,
            TypeLabel::Pong => 3,
        }
    }
}

impl vstd::std_specs::convert::FromSpecImpl<TypeLabel> for u8 {
    open spec fn obeys_from_spec() -> bool {
        true
    }

    open spec fn from_spec(ftype: TypeLabel) -> u8 {
        ftype.code()
    }
}

impl From<u8> for TypeLabel {
    fn from(byte: u8) -> (label: TypeLabel)
        ensures
            label == TypeLabel::of_code(byte),
    {
        match byte {
            0 => TypeLabel::Request,
            1 => TypeLabel::Response,
            2 => TypeLabel::Ping,
            3 => TypeLabel::Pong,
            _ => TypeLabel::Request,
        }
    }
}

impl vstd::std_specs::convert::FromSpecImpl<u8> for TypeLabel {
    open spec fn obeys_from_spec() -> bool {
        true
    }

    open spec fn from_spec(byte: u8) -> TypeLabel {
        TypeLabel::of_code(byte)
    }
}

/// A frame as a mathematical value: its label, its correlation id and its
/// payload.
pub struct FrameView {
    pub t: TypeLabel,
    pub id: u64,
    pub payload: Seq<u8>,
}

/// One message of the dialog layer.
pub struct Frame {
    t: TypeLabel,
    id: u64,
    payload: Bytes,
}

impl View for Frame {
    type V = FrameView;

    closed spec fn view(&self) -> FrameView {
        FrameView { t: self.t, id: self.id, payload: bytes_seq(self.payload) }
    }
}

impl Frame {
    pub fn new(t: TypeLabel, id: u64, payload: Bytes) -> (frame: Frame)
        ensures
            frame@.t == t,
            frame@.id == id,
            frame@.payload == bytes_seq(payload),
    {
        Frame { t, id, payload }
    }

    /// Takes the frame apart.
    pub fn into(self) -> (parts: (TypeLabel, u64, Bytes))
        ensures
            parts.0 == self@.t,
            parts.1 == self@.id,
            bytes_seq(parts.2) == self@.payload,
    {
        let Frame { t, id, payload } = self;
        (t, id, payload)
    }
}

} // verus!
