use super::message::request::{encode_request, RequestView, MAX_TOPIC_LEN};
use super::message::response::{lemma_narrowing, parse_response};
use super::message::{
    Request, RequestType, Response, RpcResponse, SubscriptionResponse, UnsubscriptionResponse,
};
use super::topics::TopicMap;
use crate::buffer::bytes_seq;
use crate::dialog::caller::id_after;
use crate::dialog::Caller;
use bytes::{Bytes, BytesMut};
use vstd::prelude::*;

verus! {

/// The client's end of a connection at the level of topics: the table of
/// the subscriptions that this connection holds, which gives each subscribed
/// topic the sender of its receiver queue. `R` is the type of such a sender.
/// Requests go out through the connection's caller, which allots their ids.
pub struct Requestor<R> {
    subs: TopicMap<R>,
}

impl<R> Requestor<R> {
    /// The subscriptions that this connection holds.
    pub closed spec fn subscriptions(&self) -> Map<Seq<u8>, R> {
        self.subs@
    }

    /// The table of subscriptions is sound.
    pub closed spec fn wf(&self) -> bool {
        self.subs.wf()
    }

    pub fn new(subs: TopicMap<R>) -> (requestor: Requestor<R>)
        requires
            subs.wf(),
        ensures
            requestor.wf(),
            requestor.subscriptions() == subs@,
    {
        Requestor { subs }
    }

    /// The table of subscriptions, as inbound notifications are routed by it.
    pub fn subs(&self) -> (subs: &TopicMap<R>)
        requires
            self.wf(),
        ensures
            subs.wf(),
            subs@ == self.subscriptions(),
    {
        &self.subs
    }

    /// Issues a request of kind `kind`: the id it goes out under, and the
    /// payload that carries it.
    fn issue(caller: &mut Caller, kind: RequestType, topic: Bytes, data: Bytes) -> (issued: (
        u64,
        Bytes,
    ))
        requires
            bytes_seq(topic).len() <= MAX_TOPIC_LEN,
            3 + bytes_seq(topic).len() + bytes_seq(data).len() <= isize::MAX,
        ensures
            issued.0 == old(caller).next_id(),
            bytes_seq(issued.1) == encode_request(
                RequestView { kind, topic: bytes_seq(topic), message: bytes_seq(data) },
            ),
            final(caller).next_id() == id_after(old(caller).next_id(), 1),
    {
        let mut request = BytesMut::new();
        Request::new(kind, topic, data).write(&mut request);
        caller.call(request.freeze())
    }

    /// Issues an RPC request on `topic`: the id it goes out under, and the
    /// payload that carries it.
    pub fn rpc(caller: &mut Caller, topic: Bytes, data: Bytes) -> (issued: (u64, Bytes))
        requires
            bytes_seq(topic).len() <= MAX_TOPIC_LEN,
            3 + bytes_seq(topic).len() + bytes_seq(data).len() <= isize::MAX,
        ensures
            issued.0 == old(caller).next_id(),
            bytes_seq(issued.1) == encode_request(
                RequestView {
                    kind: RequestType::Rpc,
                    topic: bytes_seq(topic),
                    message: bytes_seq(data),
                },
            ),
            final(caller).next_id() == id_after(old(caller).next_id(), 1),
    {
        Self::issue(caller, RequestType::Rpc, topic, data)
    }

    /// Reads the answer to an RPC request out of the response's payload.
    pub fn rpc_response(response: Bytes) -> (answer: RpcResponse)
        ensures
            answer.widen()@ == parse_response(bytes_seq(response)).only_if(
                parse_response(bytes_seq(response)).admits_rpc(),
            ),
    {
        let response = Response::from_bytes(response);
        proof {
            lemma_narrowing(response);
        }
        RpcResponse::from(response)
    }

    /// Issues a subscription request on `topic`: the id it goes out under,
    /// and the payload that carries it.
    pub fn sub(caller: &mut Caller, topic: Bytes, data: Bytes) -> (issued: (u64, Bytes))
        requires
            bytes_seq(topic).len() <= MAX_TOPIC_LEN,
            3 + bytes_seq(topic).len() + bytes_seq(data).len() <= isize::MAX,
        ensures
            issued.0 == old(caller).next_id(),
            bytes_seq(issued.1) == encode_request(
                RequestView {
                    kind: RequestType::Subscription,
                    topic: bytes_seq(topic),
                    message: bytes_seq(data),
                },
            ),
            final(caller).next_id() == id_after(old(caller).next_id(), 1),
    {
        Self::issue(caller, RequestType::Subscription, topic, data)
    }

    /// Reads the answer to a subscription request on `topic` out of the
    /// response's payload. Where the answer is `Accepted`, the subscription
    /// is entered in the table with `sender`; otherwise the table stays as
    /// it is and `sender` is handed back.
    pub fn sub_response(&mut self, topic: Bytes, response: Bytes, sender: R) -> (answer: (
        SubscriptionResponse,
        Option<R>,
    ))
        requires
            old(self).wf(),
        ensures
            final(self).wf(),
            answer.0.widen()@ == parse_response(bytes_seq(response)).only_if(
                parse_response(bytes_seq(response)).admits_subscription(),
            ),
            parse_response(bytes_seq(response)) is Accepted ==> {
                &&& final(self).subscriptions() == old(self).subscriptions().insert(
                    bytes_seq(topic),
                    sender,
                )
                &&& answer.1 is None
            },
            !(parse_response(bytes_seq(response)) is Accepted) ==> {
                &&& final(self).subscriptions() == old(self).subscriptions()
                &&& answer.1 == Some(sender)
            },
    {
        let response = Response::from_bytes(response);
        proof {
            lemma_narrowing(response);
        }
        let response = SubscriptionResponse::from(response);
        let unused = match response {
            SubscriptionResponse::Accepted(_) => {
                self.subs.insert(topic, sender);
                None
            },
            _ => Some(sender),
        };
        (response, unused)
    }

    /// Issues an unsubscription request on `topic`: the id it goes out
    /// under, and the payload that carries it.
    pub fn unsub(caller: &mut Caller, topic: Bytes, data: Bytes) -> (issued: (u64, Bytes))
        requires
            bytes_seq(topic).len() <= MAX_TOPIC_LEN,
            3 + bytes_seq(topic).len() + bytes_seq(data).len() <= isize::MAX,
        ensures
            issued.0 == old(caller).next_id(),
            bytes_seq(issued.1) == encode_request(
                RequestView {
                    kind: RequestType::Unsubscription,
                    topic: bytes_seq(topic),
                    message: bytes_seq(data),
                },
            ),
            final(caller).next_id() == id_after(old(caller).next_id(), 1),
    {
        Self::issue(caller, RequestType::Unsubscription, topic, data)
    }

    /// Reads the answer to an unsubscription request on `topic` out of the
    /// response's payload. Where the answer is `Accepted`, the subscription
    /// leaves the table.
    pub fn unsub_response(&mut self, topic: &Bytes, response: Bytes) -> (answer:
        UnsubscriptionResponse)
        requires
            old(self).wf(),
        ensures
            final(self).wf(),
            answer.widen()@ == parse_response(bytes_seq(response)).only_if(
                parse_response(bytes_seq(response)).admits_unsubscription(),
            ),
            parse_response(bytes_seq(response)) is Accepted ==> final(self).subscriptions() == old(self).subscriptions().remove(bytes_seq(*topic)),
            !(parse_response(bytes_seq(response)) is Accepted) ==> final(self).subscriptions()
                == old(self).subscriptions(),
    {
        let response = Response::from_bytes(response);
        proof {
            lemma_narrowing(response);
        }
        let response = UnsubscriptionResponse::from(response);
        match response {
            UnsubscriptionResponse::Accepted(_) => {
                let _ = self.subs.remove(topic);
            },
            _ => {},
        }
        response
    }

    /// Answers an inbound notification on `topic` once it was put on the
    /// receiver's queue, or could not be: a delivered one is answered
    /// `Notified`; one whose receiver is gone ends the subscription and is
    /// answered `NotSubscribed`.
    pub fn notified(&mut self, topic: &Bytes, delivered: bool) -> (response: Response)
        requires
            old(self).wf(),
        ensures
            final(self).wf(),
            delivered ==> response == Response::Notified && final(self).subscriptions() == old(self).subscriptions(),
            !delivered ==> response == Response::NotSubscribed && final(self).subscriptions()
                == old(self).subscriptions().remove(bytes_seq(*topic)),
    {
        if delivered {
            Response::Notified
        } else {
            let _ = self.subs.remove(topic);
            Response::NotSubscribed
        }
    }
}

} // verus!
