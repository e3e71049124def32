use super::frame::{Frame, FrameView, TypeLabel};
use crate::buffer::bytes_seq;
use bytes::Bytes;
use std::collections::HashMap;
use vstd::prelude::*;

verus! {

/// The frame that carries a request out under the id `id`.
pub open spec fn request_frame(id: u64, message: Seq<u8>) -> FrameView {
    FrameView { t: TypeLabel::Request, id, payload: message }
}

/// The frame that answers the request that came in under the id `id` with
/// `result`: a response under that same id.
pub open spec fn reply_frame(id: u64, result: Seq<u8>) -> FrameView {
    FrameView { t: TypeLabel::Response, id, payload: result }
}

/// The frame that answers the probe `ping`: the same id and payload, sent
/// back as a pong.
pub open spec fn pong_frame(ping: FrameView) -> FrameView {
    FrameView { t: TypeLabel::Pong, id: ping.id, payload: ping.payload }
}

/// The slot that the inbound frame `frame` is delivered to: the one that
/// waits under the frame's id, if the frame is a response and a slot waits
/// there.
pub open spec fn routed<S>(table: Map<u64, S>, frame: FrameView) -> Option<S> {
    if frame.t == TypeLabel::Response && table.contains_key(frame.id) {
        Some(table[frame.id])
    } else {
        None
    }
}

/// The correlation table once the inbound frame `frame` has been handled: a
/// response clears the entry under its id, and any other frame leaves the
/// table alone.
pub open spec fn table_after<S>(table: Map<u64, S>, frame: FrameView) -> Map<u64, S> {
    if frame.t == TypeLabel::Response {
        table.remove(frame.id)
    } else {
        table
    }
}

/// A response reaches the call that it answers: when a request goes out
/// under some id while its slot waits in the table, the peer's reply to that
/// request carries the same id and is delivered to that slot.
pub proof fn lemma_reply_reaches_its_call<S>(
    table: Map<u64, S>,
    id: u64,
    slot: S,
    message: Seq<u8>,
    result: Seq<u8>,
)
    ensures
        reply_frame(request_frame(id, message).id, result).id == id,
        routed(table.insert(id, slot), reply_frame(request_frame(id, message).id, result))
            == Some(slot),
{
}

/// Calls in flight under different ids never receive each other's
/// responses: a response is delivered to the slot that waits under its own
/// id, whatever else is in the table, and every other slot stays where it was.
pub proof fn lemma_no_cross_delivery<S>(
    table: Map<u64, S>,
    a: u64,
    slot_a: S,
    b: u64,
    slot_b: S,
    response: FrameView,
)
    requires
        a != b,
        response.t == TypeLabel::Response,
        response.id == a,
    ensures
        routed(table.insert(a, slot_a).insert(b, slot_b), response) == Some(slot_a),
        routed(table.insert(b, slot_b).insert(a, slot_a), response) == Some(slot_a),
        table_after(table.insert(a, slot_a).insert(b, slot_b), response).contains_key(b),
        table_after(table.insert(a, slot_a).insert(b, slot_b), response)[b] == slot_b,
        !table_after(table.insert(a, slot_a).insert(b, slot_b), response).contains_key(a),
{
}

/// What the connection's task does about an inbound frame.
pub enum Action<S> {
    /// Hand `payload` to the request handler, and send the frame that
    /// `Handler::reply` makes of `id` and the handler's result.
    Serve { id: u64, payload: Bytes },
    /// Fulfil `slot` with `payload`: the call that waits on it resolves.
    Fulfil { slot: S, payload: Bytes },
    /// Send `frame`.
    Send { frame: Frame },
    /// Nothing.
    Nothing,
}

/// The state of one connection: the table of the response slots that wait
/// for their responses, each under the id of its request.
pub struct Handler<S> {
    slots: HashMap<u64, S>,
}

impl<S> View for Handler<S> {
    type V = Map<u64, S>;

    closed spec fn view(&self) -> Map<u64, S> {
        self.slots@
    }
}

impl<S> Handler<S> {
    /// The state of a fresh connection: no call is in flight.
    pub fn new() -> (handler: Handler<S>)
        ensures
            handler@ == Map::<u64, S>::empty(),
    {
        Handler { slots: HashMap::new() }
    }

    /// Takes a call from the caller: records its slot under its id, and makes
    /// the request frame that goes out.
    pub fn request(&mut self, id: u64, slot: S, message: Bytes) -> (frame: Frame)
        ensures
            final(self)@ == old(self)@.insert(id, slot),
            frame@ == request_frame(id, bytes_seq(message)),
    {
        self.slots.insert(id, slot);
        Frame::new(TypeLabel::Request, id, message)
    }

    /// Decides what to do about an inbound frame. A request is served, a
    /// response is delivered to the slot that waits under its id and dropped
    /// if none does, a ping is answered by a pong, and a pong is ignored.
    pub fn receiver(&mut self, message: Frame) -> (action: Action<S>)
        ensures
            final(self)@ == table_after(old(self)@, message@),
            match message@.t {
                TypeLabel::Request => action matches Action::Serve { id, payload } && id
                    == message@.id && bytes_seq(payload) == message@.payload,
                TypeLabel::Response => match routed(old(self)@, message@) {
                    Some(waiting) => action matches Action::Fulfil { slot, payload } && slot
                        == waiting && bytes_seq(payload) == message@.payload,
                    None => action is Nothing,
                },
                TypeLabel::Ping => action matches Action::Send { frame } && frame@ == pong_frame(
                    message@,
                ),
                TypeLabel::Pong => action is Nothing,
            },
    {
        let (t, id, payload) = message.into();
        match t {
            TypeLabel::Request => Action::Serve { id, payload },
            TypeLabel::Response => {
                match self.slots.remove(&id) {
                    Some(slot) => Action::Fulfil { slot, payload },
                    None => Action::Nothing,
                }
            },
            TypeLabel::Ping => Action::Send { frame: Frame::new(TypeLabel::Pong, id, payload) },
            TypeLabel::Pong => Action::Nothing,
        }
    }

    /// The frame that carries the request handler's result back to the peer:
    /// a response under the id of the request that was served.
    pub fn reply(id: u64, result: Bytes) -> (frame: Frame)
        ensures
            frame@ == reply_frame(id, bytes_seq(result)),
    {
        Frame::new(TypeLabel::Response, id, result)
    }
}

} // verus!
