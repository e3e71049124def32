use super::message::request::{encode_request, RequestView, MAX_TOPIC_LEN};
use super::message::{Request, RequestType};
use super::subscribers::{distinct_members, is_member, removed_from, Subscribers};
use super::topics::TopicMap;
use crate::buffer::bytes_seq;
use bytes::{Bytes, BytesMut};
use vstd::prelude::*;

verus! {

/// The members of each subscriber set in `m`, by topic.
pub open spec fn members_by_topic<C>(m: Map<Seq<u8>, Subscribers<C>>) -> Map<
    Seq<u8>,
    Seq<(u64, C)>,
> {
    Map::new(|t: Seq<u8>| m.contains_key(t), |t: Seq<u8>| m[t]@)
}

/// What an endpoint serves: a handler for each RPC topic, a pair of
/// handlers for each topic that can be subscribed to, and the peers that are
/// subscribed to each such topic. `H` is the type of a handler and `C` that
/// of the handle through which a subscribed peer is notified.
pub struct Handler<H, C> {
    call_handler: TopicMap<H>,
    sub_handler: TopicMap<(H, H)>,
    notify_map: TopicMap<Subscribers<C>>,
}

impl<H, C> Handler<H, C> {
    /// The handler of each RPC topic.
    pub closed spec fn rpc_handlers(&self) -> Map<Seq<u8>, H> {
        self.call_handler@
    }

    /// The subscription handler and the unsubscription handler of each
    /// topic that can be subscribed to.
    pub closed spec fn sub_handlers(&self) -> Map<Seq<u8>, (H, H)> {
        self.sub_handler@
    }

    /// The subscribers of each topic that can be subscribed to, in the order
    /// in which they subscribed.
    pub closed spec fn subscribers(&self) -> Map<Seq<u8>, Seq<(u64, C)>> {
        members_by_topic(self.notify_map@)
    }

    /// The registry is sound: the topics that can be subscribed to are those
    /// that have a subscriber set, and no set holds a peer twice.
    pub closed spec fn wf(&self) -> bool {
        &&& self.call_handler.wf()
        &&& self.sub_handler.wf()
        &&& self.notify_map.wf()
        &&& self.notify_map@.dom() == self.sub_handler@.dom()
        &&& forall|t: Seq<u8>| #[trigger]
            self.notify_map@.contains_key(t) ==> self.notify_map@[t].wf()
    }

    /// In a sound registry every topic that can be subscribed to has a
    /// subscriber set, and a subscriber set holds each peer at most once: two
    /// positions of one set that hold the same peer are one position.
    pub proof fn lemma_subscribed_at_most_once(&self, topic: Seq<u8>, i: int, j: int)
        requires
            self.wf(),
            self.subscribers().contains_key(topic),
            0 <= i < self.subscribers()[topic].len(),
            0 <= j < self.subscribers()[topic].len(),
            self.subscribers()[topic][i].0 == self.subscribers()[topic][j].0,
        ensures
            i == j,
            distinct_members(self.subscribers()[topic]),
            self.sub_handlers().contains_key(topic),
    {
        assert(self.notify_map@.contains_key(topic));
        assert(self.notify_map@.dom().contains(topic));
    }

    /// A registry that serves nothing.
    pub fn new() -> (handler: Handler<H, C>)
        ensures
            handler.wf(),
            handler.rpc_handlers() == Map::<Seq<u8>, H>::empty(),
            handler.sub_handlers() == Map::<Seq<u8>, (H, H)>::empty(),
            handler.subscribers() == Map::<Seq<u8>, Seq<(u64, C)>>::empty(),
    {
        let handler = Handler {
            call_handler: TopicMap::new(),
            sub_handler: TopicMap::new(),
            notify_map: TopicMap::new(),
        };
        assert(handler.subscribers() =~= Map::<Seq<u8>, Seq<(u64, C)>>::empty());
        handler
    }

    /// Registers `handler` for RPC requests on `topic`.
    pub fn on_rpc(&mut self, topic: Bytes, handler: H)
        requires
            old(self).wf(),
        ensures
            final(self).wf(),
            final(self).rpc_handlers() == old(self).rpc_handlers().insert(bytes_seq(topic), handler),
            final(self).sub_handlers() == old(self).sub_handlers(),
            final(self).subscribers() == old(self).subscribers(),
    {
        self.call_handler.insert(topic, handler);
    }

    /// Opens `topic` for subscription: registers the two handlers, and
    /// starts the topic with no subscriber.
    pub fn on_subs(&mut self, topic: Bytes, sub_handler: H, unsub_handler: H)
        requires
            old(self).wf(),
        ensures
            final(self).wf(),
            final(self).rpc_handlers() == old(self).rpc_handlers(),
            final(self).sub_handlers() == old(self).sub_handlers().insert(
                bytes_seq(topic),
                (sub_handler, unsub_handler),
            ),
            final(self).subscribers() == old(self).subscribers().insert(
                bytes_seq(topic),
                Seq::<(u64, C)>::empty(),
            ),
    {
        let ghost t = bytes_seq(topic);
        let set: Subscribers<C> = Subscribers::new();
        self.sub_handler.insert(topic.clone(), (sub_handler, unsub_handler));
        self.notify_map.insert(topic, set);
        proof {
            assert(self.notify_map@.dom() =~= self.sub_handler@.dom());
            assert(self.subscribers() =~= old(self).subscribers().insert(
                t,
                Seq::<(u64, C)>::empty(),
            ));
        }
    }

    /// Subscribes the peer `ident` to `topic`, to be notified through
    /// `caller`. `None` where the topic cannot be subscribed to; otherwise
    /// whether the peer was added, which it is unless it was subscribed
    /// already.
    pub fn add_notify_caller(&mut self, topic: &Bytes, ident: u64, caller: C) -> (added: Option<
        bool,
    >)
        requires
            old(self).wf(),
        ensures
            final(self).wf(),
            final(self).rpc_handlers() == old(self).rpc_handlers(),
            final(self).sub_handlers() == old(self).sub_handlers(),
            added is Some == old(self).subscribers().contains_key(bytes_seq(*topic)),
            added is Some ==> added->Some_0 == !is_member(
                old(self).subscribers()[bytes_seq(*topic)],
                ident,
            ),
            added == Some(true) ==> final(self).subscribers() == old(self).subscribers().insert(
                bytes_seq(*topic),
                old(self).subscribers()[bytes_seq(*topic)].push((ident, caller)),
            ),
            added != Some(true) ==> final(self).subscribers() == old(self).subscribers(),
    {
        let ghost t = bytes_seq(*topic);
        let ghost before = self.notify_map@;
        match self.notify_map.remove(topic) {
            Some(set) => {
                let mut set = set;
                let added = set.insert(ident, caller);
                self.notify_map.insert(topic.clone(), set);
                proof {
                    assert(self.notify_map@ =~= before.insert(t, set));
                    assert(self.notify_map@.dom() =~= before.dom());
                    if added {
                        assert(self.subscribers() =~= old(self).subscribers().insert(
                            t,
                            old(self).subscribers()[t].push((ident, caller)),
                        ));
                    } else {
                        assert(self.subscribers() =~= old(self).subscribers());
                    }
                }
                Some(added)
            },
            None => {
                proof {
                    assert(self.notify_map@ =~= before);
                }
                None
            },
        }
    }

    /// Ends the subscription of the peer `ident` to `topic`. `None` where
    /// the topic cannot be subscribed to; otherwise whether the peer was
    /// subscribed. Afterwards it is not.
    pub fn remove_notify_caller(&mut self, topic: &Bytes, ident: u64) -> (removed: Option<bool>)
        requires
            old(self).wf(),
        ensures
            final(self).wf(),
            final(self).rpc_handlers() == old(self).rpc_handlers(),
            final(self).sub_handlers() == old(self).sub_handlers(),
            final(self).subscribers().dom() == old(self).subscribers().dom(),
            forall|u: Seq<u8>|
                u != bytes_seq(*topic) && old(self).subscribers().contains_key(u)
                    ==> #[trigger] final(self).subscribers()[u] == old(self).subscribers()[u],
            removed is Some == old(self).subscribers().contains_key(bytes_seq(*topic)),
            removed is Some ==> {
                &&& removed->Some_0 == is_member(old(self).subscribers()[bytes_seq(*topic)], ident)
                &&& !is_member(final(self).subscribers()[bytes_seq(*topic)], ident)
                &&& removed_from(
                    old(self).subscribers()[bytes_seq(*topic)],
                    final(self).subscribers()[bytes_seq(*topic)],
                    ident,
                )
            },
            removed is None ==> final(self).subscribers() == old(self).subscribers(),
    {
        let ghost t = bytes_seq(*topic);
        let ghost before = self.notify_map@;
        match self.notify_map.remove(topic) {
            Some(set) => {
                let mut set = set;
                let ghost members = set@;
                let removed = set.remove(ident).is_some();
                self.notify_map.insert(topic.clone(), set);
                proof {
                    assert(self.notify_map@ =~= before.insert(t, set));
                    assert(self.notify_map@.dom() =~= before.dom());
                    assert(self.subscribers().dom() =~= old(self).subscribers().dom());
                    assert(self.subscribers()[t] == set@);
                    assert(old(self).subscribers()[t] == members);
                }
                Some(removed)
            },
            None => {
                proof {
                    assert(self.notify_map@ =~= before);
                }
                None
            },
        }
    }

    /// Ends every subscription of the peer `ident`, as when its connection
    /// is gone: the peer leaves the subscribers of each topic.
    pub fn remove_caller(&mut self, ident: u64)
        requires
            old(self).wf(),
        ensures
            final(self).wf(),
            final(self).rpc_handlers() == old(self).rpc_handlers(),
            final(self).sub_handlers() == old(self).sub_handlers(),
            final(self).subscribers().dom() == old(self).subscribers().dom(),
            forall|t: Seq<u8>| #[trigger]
                old(self).subscribers().contains_key(t) ==> {
                    &&& !is_member(final(self).subscribers()[t], ident)
                    &&& removed_from(
                        old(self).subscribers()[t],
                        final(self).subscribers()[t],
                        ident,
                    )
                },
    {
        let topics = self.notify_map.topics();
        let ghost dom = self.subscribers().dom();
        assert(forall|t: Seq<u8>| dom.contains(t) <==> self.notify_map@.contains_key(t));
        let mut k: usize = 0;
        while k < topics.len()
            invariant
                k <= topics@.len(),
                self.wf(),
                self.rpc_handlers() == old(self).rpc_handlers(),
                self.sub_handlers() == old(self).sub_handlers(),
                self.subscribers().dom() == dom,
                old(self).subscribers().dom() == dom,
                forall|t: Seq<u8>| #[trigger]
                    dom.contains(t) ==> self.subscribers()[t] == old(self).subscribers()[t] || (
                    !is_member(self.subscribers()[t], ident) && removed_from(
                        old(self).subscribers()[t],
                        self.subscribers()[t],
                        ident,
                    )),
                forall|j: int|
                    0 <= j < k && dom.contains(bytes_seq(#[trigger] topics@[j])) ==> !is_member(
                        self.subscribers()[bytes_seq(topics@[j])],
                        ident,
                    ),
            decreases topics@.len() - k,
        {
            let ghost before = self.subscribers();
            let ghost u = bytes_seq(topics@[k as int]);
            let _ = self.remove_notify_caller(&topics[k], ident);
            proof {
                assert forall|t: Seq<u8>| #[trigger] dom.contains(t) implies self.subscribers()[t]
                    == old(self).subscribers()[t] || (!is_member(self.subscribers()[t], ident)
                    && removed_from(old(self).subscribers()[t], self.subscribers()[t], ident)) by {
                    assert(before.contains_key(t));
                    if t != u {
                        assert(self.subscribers()[t] == before[t]);
                    }
                }
                assert forall|j: int|
                    0 <= j < k + 1 && dom.contains(
                        bytes_seq(#[trigger] topics@[j]),
                    ) implies !is_member(self.subscribers()[bytes_seq(topics@[j])], ident) by {
                    let t = bytes_seq(topics@[j]);
                    assert(before.contains_key(t));
                    if t != u {
                        assert(self.subscribers()[t] == before[t]);
                    }
                }
            }
            k += 1;
        }
        proof {
            assert forall|t: Seq<u8>| #[trigger]
                old(self).subscribers().contains_key(t) implies !is_member(
                self.subscribers()[t],
                ident,
            ) && removed_from(old(self).subscribers()[t], self.subscribers()[t], ident) by {
                assert(dom.contains(t));
                assert(self.notify_map@.contains_key(t));
                let j = choose|j: int| 0 <= j < topics@.len() && bytes_seq(#[trigger] topics@[j]) == t;
                assert(!is_member(self.subscribers()[bytes_seq(topics@[j])], ident));
            }
        }
    }

    /// The handler of the RPC topic `topic`, if it has one.
    pub fn get_rpc(&self, topic: &Bytes) -> (handler: Option<&H>)
        requires
            self.wf(),
        ensures
            handler is Some == self.rpc_handlers().contains_key(bytes_seq(*topic)),
            handler is Some ==> *handler->Some_0 == self.rpc_handlers()[bytes_seq(*topic)],
    {
        self.call_handler.get(topic)
    }

    /// The subscription handler of `topic`, if the topic can be subscribed
    /// to.
    pub fn get_subs(&self, topic: &Bytes) -> (handler: Option<&H>)
        requires
            self.wf(),
        ensures
            handler is Some == self.sub_handlers().contains_key(bytes_seq(*topic)),
            handler is Some ==> *handler->Some_0 == self.sub_handlers()[bytes_seq(*topic)].0,
    {
        match self.sub_handler.get(topic) {
            Some(pair) => Some(&pair.0),
            None => None,
        }
    }

    /// The unsubscription handler of `topic`, if the topic can be
    /// subscribed to.
    pub fn get_unsubs(&self, topic: &Bytes) -> (handler: Option<&H>)
        requires
            self.wf(),
        ensures
            handler is Some == self.sub_handlers().contains_key(bytes_seq(*topic)),
            handler is Some ==> *handler->Some_0 == self.sub_handlers()[bytes_seq(*topic)].1,
    {
        match self.sub_handler.get(topic) {
            Some(pair) => Some(&pair.1),
            None => None,
        }
    }

    /// The subscribers of `topic`, if the topic can be subscribed to: the
    /// peers that a notification on the topic goes out to.
    pub fn get_subscribers(&self, topic: &Bytes) -> (set: Option<&Subscribers<C>>)
        requires
            self.wf(),
        ensures
            set is Some == self.subscribers().contains_key(bytes_seq(*topic)),
            set is Some ==> set->Some_0@ == self.subscribers()[bytes_seq(*topic)]
                && set->Some_0.wf(),
    {
        self.notify_map.get(topic)
    }

    /// The request that carries the notification `notification` on `topic`
    /// to a subscriber.
    pub fn notification(topic: &Bytes, notification: Bytes) -> (request: Bytes)
        requires
            bytes_seq(*topic).len() <= MAX_TOPIC_LEN,
            3 + bytes_seq(*topic).len() + bytes_seq(notification).len() <= isize::MAX,
        ensures
            bytes_seq(request) == encode_request(
                RequestView {
                    kind: RequestType::Notification,
                    topic: bytes_seq(*topic),
                    message: bytes_seq(notification),
                },
            ),
    {
        let mut notify_request = BytesMut::new();
        Request::new(RequestType::Notification, topic.clone(), notification).write(
            &mut notify_request,
        );
        notify_request.freeze()
    }
}

} // verus!
