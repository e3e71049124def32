use super::handler::Handler;
use super::message::request::parse_request;
use super::message::response::{encode_response, ResponseView};
use super::message::{Request, RequestType, Response};
use super::subscribers::{is_member, removed_from};
use super::topics::TopicMap;
use crate::buffer::bytes_seq;
use bytes::{Bytes, BytesMut};
use vstd::prelude::*;

verus! {

/// What the endpoint does about an inbound request.
pub enum Dispatch<'a, H> {
    /// Call `handler` with `message`. What is answered once it has resolved
    /// depends on `kind`: see `Sim::rpc_served`, `Sim::sub_served` and
    /// `Sim::unsub_served`.
    Invoke { kind: RequestType, handler: &'a H, topic: Bytes, message: Bytes },
    /// Answer `response` at once.
    Reply { response: Response },
}

/// What the endpoint does about an inbound notification.
pub enum Delivery<'a, R> {
    /// Put `message` on `receiver`'s queue, and answer what
    /// `Requestor::notified` makes of the outcome.
    Enqueue { receiver: &'a R, topic: Bytes, message: Bytes },
    /// Answer `response` at once.
    Reply { response: Response },
}

/// What the endpoint does about an inbound payload: a notification goes to
/// a receiver of this connection, and every other request to the registry.
pub enum Inbound<'a, H, R> {
    Request { dispatch: Dispatch<'a, H> },
    Notification { delivery: Delivery<'a, R> },
}

/// An endpoint: a registry of handlers, which serves every connection that
/// is attached to it.
pub struct Sim<H, C> {
    handler: Handler<H, C>,
}

impl<H, C> Sim<H, C> {
    /// The endpoint's registry.
    pub closed spec fn registry(&self) -> Handler<H, C> {
        self.handler
    }

    pub fn new(h: Handler<H, C>) -> (sim: Sim<H, C>)
        ensures
            sim.registry() == h,
    {
        Sim { handler: h }
    }

    /// The endpoint's registry, to look handlers up in.
    pub fn handler(&self) -> (h: &Handler<H, C>)
        ensures
            *h == self.registry(),
    {
        &self.handler
    }

    /// The endpoint's registry, to change the subscriber sets in.
    pub fn handler_mut(&mut self) -> (h: &mut Handler<H, C>)
        ensures
            *h == old(self).registry(),
            final(self).registry() == *final(h),
    {
        &mut self.handler
    }

    /// Gives the registry back.
    pub fn into_handler(self) -> (h: Handler<H, C>)
        ensures
            h == self.registry(),
    {
        self.handler
    }

    /// An RPC request: the topic's handler is called, and an unknown topic
    /// is answered `TopicNotFound`.
    pub fn rpc_handler<'a>(handler: &'a Handler<H, C>, topic: Bytes, message: Bytes) -> (d:
        Dispatch<'a, H>)
        requires
            handler.wf(),
        ensures
            handler.rpc_handlers().contains_key(bytes_seq(topic)) ==> d == (Dispatch::Invoke {
                kind: RequestType::Rpc,
                handler: &handler.rpc_handlers()[bytes_seq(topic)],
                topic,
                message,
            }),
            !handler.rpc_handlers().contains_key(bytes_seq(topic)) ==> (d matches Dispatch::Reply { response } && response == Response::TopicNotFound),
    {
        match handler.get_rpc(&topic) {
            Some(call_handler) => Dispatch::Invoke {
                kind: RequestType::Rpc,
                handler: call_handler,
                topic,
                message,
            },
            None => Dispatch::Reply { response: Response::TopicNotFound },
        }
    }

    /// A subscription request: the topic's subscription handler is called,
    /// and a topic that cannot be subscribed to is answered `TopicNotFound`.
    pub fn sub_handler<'a>(handler: &'a Handler<H, C>, topic: Bytes, message: Bytes) -> (d:
        Dispatch<'a, H>)
        requires
            handler.wf(),
        ensures
            handler.sub_handlers().contains_key(bytes_seq(topic)) ==> d == (Dispatch::Invoke {
                kind: RequestType::Subscription,
                handler: &handler.sub_handlers()[bytes_seq(topic)].0,
                topic,
                message,
            }),
            !handler.sub_handlers().contains_key(bytes_seq(topic)) ==> (d matches Dispatch::Reply { response } && response == Response::TopicNotFound),
    {
        match handler.get_subs(&topic) {
            Some(call_handler) => Dispatch::Invoke {
                kind: RequestType::Subscription,
                handler: call_handler,
                topic,
                message,
            },
            None => Dispatch::Reply { response: Response::TopicNotFound },
        }
    }

    /// An unsubscription request: the topic's unsubscription handler is
    /// called, and a topic that cannot be subscribed to is answered
    /// `TopicNotFound`.
    pub fn unsub_handler<'a>(handler: &'a Handler<H, C>, topic: Bytes, message: Bytes) -> (d:
        Dispatch<'a, H>)
        requires
            handler.wf(),
        ensures
            handler.sub_handlers().contains_key(bytes_seq(topic)) ==> d == (Dispatch::Invoke {
                kind: RequestType::Unsubscription,
                handler: &handler.sub_handlers()[bytes_seq(topic)].1,
                topic,
                message,
            }),
            !handler.sub_handlers().contains_key(bytes_seq(topic)) ==> (d matches Dispatch::Reply { response } && response == Response::TopicNotFound),
    {
        match handler.get_unsubs(&topic) {
            Some(call_handler) => Dispatch::Invoke {
                kind: RequestType::Unsubscription,
                handler: call_handler,
                topic,
                message,
            },
            None => Dispatch::Reply { response: Response::TopicNotFound },
        }
    }

    /// The answer to an RPC request whose handler resolved with `result`.
    pub fn rpc_served(result: Bytes) -> (response: Response)
        ensures
            response == Response::Accepted(result),
    {
        Response::Accepted(result)
    }

    /// The answer to a subscription request of the peer `ident` whose
    /// handler resolved with `result`: the peer joins the topic's subscribers
    /// and is answered `Accepted`, unless it is subscribed already, which is
    /// answered `AlreadySubscribed`, or the topic cannot be subscribed to.
    pub fn sub_served(
        handler: &mut Handler<H, C>,
        topic: &Bytes,
        ident: u64,
        caller: C,
        result: Bytes,
    ) -> (response: Response)
        requires
            old(handler).wf(),
        ensures
            final(handler).wf(),
            final(handler).rpc_handlers() == old(handler).rpc_handlers(),
            final(handler).sub_handlers() == old(handler).sub_handlers(),
            !old(handler).subscribers().contains_key(bytes_seq(*topic)) ==> {
                &&& response == Response::TopicNotFound
                &&& final(handler).subscribers() == old(handler).subscribers()
            },
            old(handler).subscribers().contains_key(bytes_seq(*topic)) && is_member(
                old(handler).subscribers()[bytes_seq(*topic)],
                ident,
            ) ==> {
                &&& response == Response::AlreadySubscribed
                &&& final(handler).subscribers() == old(handler).subscribers()
            },
            old(handler).subscribers().contains_key(bytes_seq(*topic)) && !is_member(
                old(handler).subscribers()[bytes_seq(*topic)],
                ident,
            ) ==> {
                &&& response == Response::Accepted(result)
                &&& final(handler).subscribers() == old(handler).subscribers().insert(
                    bytes_seq(*topic),
                    old(handler).subscribers()[bytes_seq(*topic)].push((ident, caller)),
                )
            },
    {
        match handler.add_notify_caller(topic, ident, caller) {
            Some(true) => Response::Accepted(result),
            Some(false) => Response::AlreadySubscribed,
            None => Response::TopicNotFound,
        }
    }

    /// The answer to an unsubscription request of the peer `ident` whose
    /// handler resolved with `result`: the peer leaves the topic's
    /// subscribers and is answered `Accepted`, or `TopicNotFound` where the
    /// topic cannot be subscribed to.
    pub fn unsub_served(handler: &mut Handler<H, C>, topic: &Bytes, ident: u64, result: Bytes) -> (response:
        Response)
        requires
            old(handler).wf(),
        ensures
            final(handler).wf(),
            final(handler).rpc_handlers() == old(handler).rpc_handlers(),
            final(handler).sub_handlers() == old(handler).sub_handlers(),
            final(handler).subscribers().dom() == old(handler).subscribers().dom(),
            forall|u: Seq<u8>|
                u != bytes_seq(*topic) && old(handler).subscribers().contains_key(u)
                    ==> #[trigger] final(handler).subscribers()[u] == old(handler).subscribers()[u],
            old(handler).subscribers().contains_key(bytes_seq(*topic)) ==> {
                &&& response == Response::Accepted(result)
                &&& !is_member(final(handler).subscribers()[bytes_seq(*topic)], ident)
                &&& removed_from(
                    old(handler).subscribers()[bytes_seq(*topic)],
                    final(handler).subscribers()[bytes_seq(*topic)],
                    ident,
                )
            },
            !old(handler).subscribers().contains_key(bytes_seq(*topic)) ==> {
                &&& response == Response::TopicNotFound
                &&& final(handler).subscribers() == old(handler).subscribers()
            },
    {
        match handler.remove_notify_caller(topic, ident) {
            Some(_) => Response::Accepted(result),
            None => Response::TopicNotFound,
        }
    }

    /// A notification: it goes to the receiver that this connection's
    /// subscription to the topic has, and is answered `TopicNotFound` where
    /// the connection has no such subscription.
    pub fn notify_handler<'a, R>(subs_map: &'a TopicMap<R>, topic: Bytes, message: Bytes) -> (d:
        Delivery<'a, R>)
        requires
            subs_map.wf(),
        ensures
            subs_map@.contains_key(bytes_seq(topic)) ==> d == (Delivery::Enqueue {
                receiver: &subs_map@[bytes_seq(topic)],
                topic,
                message,
            }),
            !subs_map@.contains_key(bytes_seq(topic)) ==> (d matches Delivery::Reply { response } && response == Response::TopicNotFound),
    {
        match subs_map.get(&topic) {
            Some(receiver) => Delivery::Enqueue { receiver, topic, message },
            None => Delivery::Reply { response: Response::TopicNotFound },
        }
    }

    /// Decides what to do about an inbound request: reads it out of its
    /// envelope and goes by its kind. What is no request is answered
    /// `InvalidRequest`.
    pub fn dispatch<'a, R>(&'a self, subs_map: &'a TopicMap<R>, request: Bytes) -> (d: Inbound<
        'a,
        H,
        R,
    >)
        requires
            self.registry().wf(),
            subs_map.wf(),
        ensures
            match parse_request(bytes_seq(request)) {
                None => d matches Inbound::Request { dispatch: Dispatch::Reply { response } }
                    && response == Response::InvalidRequest,
                Some(parsed) => match parsed.kind {
                    RequestType::Notification => d is Notification && match d->delivery {
                        Delivery::Enqueue { receiver, topic, message } => subs_map@.contains_key(
                            parsed.topic,
                        ) && *receiver == subs_map@[parsed.topic] && bytes_seq(topic)
                            == parsed.topic && bytes_seq(message) == parsed.message,
                        Delivery::Reply { response } => !subs_map@.contains_key(parsed.topic)
                            && response == Response::TopicNotFound,
                    },
                    kind => d is Request && match d->dispatch {
                        Dispatch::Invoke { kind: invoked, handler, topic, message } => {
                            &&& invoked == kind
                            &&& bytes_seq(topic) == parsed.topic
                            &&& bytes_seq(message) == parsed.message
                            &&& match kind {
                                RequestType::Rpc => self.registry().rpc_handlers().contains_key(
                                    parsed.topic,
                                ) && *handler == self.registry().rpc_handlers()[parsed.topic],
                                RequestType::Subscription => self.registry().sub_handlers().contains_key(
                                    parsed.topic,
                                ) && *handler == self.registry().sub_handlers()[parsed.topic].0,
                                _ => self.registry().sub_handlers().contains_key(parsed.topic)
                                    && *handler == self.registry().sub_handlers()[parsed.topic].1,
                            }
                        },
                        Dispatch::Reply { response } => response == Response::TopicNotFound
                            && match kind {
                            RequestType::Rpc => !self.registry().rpc_handlers().contains_key(
                                parsed.topic,
                            ),
                            _ => !self.registry().sub_handlers().contains_key(parsed.topic),
                        },
                    },
                },
            },
    {
        match Request::from_bytes(request) {
            Some(Request { kind, topic, message }) => match kind {
                RequestType::Rpc => Inbound::Request {
                    dispatch: Self::rpc_handler(&self.handler, topic, message),
                },
                RequestType::Subscription => Inbound::Request {
                    dispatch: Self::sub_handler(&self.handler, topic, message),
                },
                RequestType::Unsubscription => Inbound::Request {
                    dispatch: Self::unsub_handler(&self.handler, topic, message),
                },
                RequestType::Notification => Inbound::Notification {
                    delivery: Self::notify_handler(subs_map, topic, message),
                },
            },
            None => Inbound::Request {
                dispatch: Dispatch::Reply { response: Response::InvalidRequest },
            },
        }
    }

    /// The payload that carries `response` back to the peer.
    pub fn respond(response: &Response) -> (payload: Bytes)
        requires
            !(response@ is InvalidResponse),
            encode_response(response@).len() <= isize::MAX,
        ensures
            bytes_seq(payload) == encode_response(response@),
    {
        let mut resp_message = BytesMut::new();
        response.write(&mut resp_message);
        resp_message.freeze()
    }
}

} // verus!
