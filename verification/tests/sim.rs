use bytes::{Bytes, BytesMut};
use simproto::dialog::Caller;
use simproto::sim::{
    Delivery, Dispatch, Handler, Inbound, RequestType, Requestor, Response, RpcResponse, Sim,
    Subscribers, SubscriptionResponse, TopicMap, UnsubscriptionResponse,
};
use std::sync::mpsc::{sync_channel, Receiver, SyncSender};

type RequestHandler = Box<dyn Fn(Bytes) -> Bytes>;

type Endpoint = Sim<RequestHandler, &'static str>;

type Client = Requestor<SyncSender<Bytes>>;

fn new_client() -> Client {
    Requestor::new(TopicMap::new())
}

fn echo() -> RequestHandler {
    Box::new(|req| req)
}

/// What is left to do once the handler or the receiver has had its turn.
enum Plan {
    Done(Response),
    Served(RequestType, Bytes, Bytes),
    Delivered(Bytes, bool),
}

/// Serves one inbound payload at an endpoint, for the peer `ident`, whose
/// own subscriptions are `local`, and gives the payload of the response.
fn serve(
    sim: &mut Endpoint,
    local: &mut Client,
    ident: u64,
    name: &'static str,
    payload: Bytes,
) -> Bytes {
    let plan = match sim.dispatch(local.subs(), payload) {
        Inbound::Request { dispatch: Dispatch::Reply { response } } => Plan::Done(response),
        Inbound::Request { dispatch: Dispatch::Invoke { kind, handler, topic, message } } => {
            Plan::Served(kind, topic, handler(message))
        }
        Inbound::Notification { delivery: Delivery::Reply { response } } => Plan::Done(response),
        Inbound::Notification { delivery: Delivery::Enqueue { receiver, topic, message } } => {
            Plan::Delivered(topic, receiver.try_send(message).is_ok())
        }
    };
    let response = match plan {
        Plan::Done(response) => response,
        Plan::Served(RequestType::Rpc, _, result) => Endpoint::rpc_served(result),
        Plan::Served(RequestType::Subscription, topic, result) => {
            Endpoint::sub_served(sim.handler_mut(), &topic, ident, name, result)
        }
        Plan::Served(RequestType::Unsubscription, topic, result) => {
            Endpoint::unsub_served(sim.handler_mut(), &topic, ident, result)
        }
        Plan::Served(RequestType::Notification, _, _) => unreachable!(),
        Plan::Delivered(topic, delivered) => local.notified(&topic, delivered),
    };
    Endpoint::respond(&response)
}

fn bytes(s: &str) -> Bytes {
    BytesMut::from(s).freeze()
}

#[test]
fn simple_rpc() {
    let mut handler = Handler::new();
    let topic_echo = BytesMut::from(r"echo").freeze();
    let topic_del = BytesMut::from(r"del").freeze();
    handler.on_rpc(topic_echo.clone(), echo());
    handler.on_rpc(
        topic_del.clone(),
        Box::new(|_| BytesMut::from(&[] as &[u8]).freeze()) as RequestHandler,
    );
    let mut sim: Endpoint = Sim::new(handler);
    let mut caller1 = Caller::new();
    let mut req2 = new_client();

    let hello = BytesMut::from(r"hello").freeze();
    let (id1, f1) = Client::rpc(&mut caller1, topic_del, hello.clone());
    let (id2, f2) = Client::rpc(&mut caller1, BytesMut::from(r"new").freeze(), hello.clone());
    let (id3, f3) = Client::rpc(&mut caller1, topic_echo, hello.clone());
    assert_eq!((id1, id2, id3), (0, 1, 2));

    let resp = Client::rpc_response(serve(&mut sim, &mut req2, 1, "io1", f1));
    assert_eq!(resp, RpcResponse::Accepted(BytesMut::from(&[] as &[u8]).freeze()));
    let resp = Client::rpc_response(serve(&mut sim, &mut req2, 1, "io1", f2));
    assert_eq!(resp, RpcResponse::TopicNotFound);
    let resp = Client::rpc_response(serve(&mut sim, &mut req2, 1, "io1", f3));
    assert_eq!(resp, RpcResponse::Accepted(hello.clone()));
}

#[test]
fn simple_notify() {
    let mut handler = Handler::new();
    let topic_once = BytesMut::from(r"once").freeze();
    handler.on_subs(topic_once.clone(), echo(), echo());
    let mut sim: Endpoint = Sim::new(handler);
    let mut caller1 = Caller::new();
    let mut req1 = new_client();
    let mut req2 = new_client();

    let (_, request) =
        Client::sub(&mut caller1, topic_once.clone(), BytesMut::from(&[] as &[u8]).freeze());
    let response = serve(&mut sim, &mut req2, 1, "io1", request);
    let (sender, receiver): (SyncSender<Bytes>, Receiver<Bytes>) = sync_channel(1);
    let (resp, unused) = req1.sub_response(topic_once.clone(), response, sender);
    assert_eq!(
        resp,
        SubscriptionResponse::Accepted(BytesMut::from(&[] as &[u8]).freeze())
    );
    assert!(unused.is_none());

    let notification = BytesMut::from(b"Hello" as &[u8]).freeze();
    let mut sent = Vec::new();
    {
        let subscribers = sim.handler().get_subscribers(&topic_once).unwrap();
        for i in 0..subscribers.len() {
            let request = Handler::<RequestHandler, &'static str>::notification(
                &topic_once,
                notification.clone(),
            );
            sent.push((subscribers.ident(i), *subscribers.caller(i), request));
        }
    }
    assert_eq!(sent.len(), 1);
    for (ident, name, request) in sent {
        assert_eq!((ident, name), (1, "io1"));
        let answer = Response::from_bytes(serve(&mut sim, &mut req1, 2, "io2", request));
        assert_eq!(answer, Response::Notified);
    }
    let got: Vec<Bytes> = receiver.try_iter().collect();
    assert_eq!(got.len(), 1);
    for x in got {
        assert_eq!(x, BytesMut::from(r"Hello").freeze());
    }
}

#[test]
fn unknown_topic_on_an_empty_registry() {
    let mut sim: Endpoint = Sim::new(Handler::new());
    let mut local = new_client();
    let mut client = new_client();
    let mut caller = Caller::new();
    let (_, request) = Client::rpc(&mut caller, bytes("missing"), bytes("x"));
    let resp = Client::rpc_response(serve(&mut sim, &mut local, 1, "a", request));
    assert_eq!(resp, RpcResponse::TopicNotFound);
    let (_, request) = Client::sub(&mut caller, bytes("missing"), bytes("x"));
    let response = serve(&mut sim, &mut local, 1, "a", request);
    let (sender, _receiver) = sync_channel(1);
    let (resp, unused) = client.sub_response(bytes("missing"), response, sender);
    assert_eq!(resp, SubscriptionResponse::TopicNotFound);
    assert!(unused.is_some());
    assert!(!client.subs().contains_key(&bytes("missing")));
    let (_, request) = Client::unsub(&mut caller, bytes("missing"), bytes("x"));
    let response = serve(&mut sim, &mut local, 1, "a", request);
    let resp = client.unsub_response(&bytes("missing"), response);
    assert_eq!(resp, UnsubscriptionResponse::TopicNotFound);
}

#[test]
fn what_is_no_request_is_answered_invalid_request() {
    let mut sim: Endpoint = Sim::new(Handler::new());
    let mut local = new_client();
    for payload in [&[0u8; 0][..], &[0u8][..], &[9u8, 0, 0][..], &[0u8, 4, 0, b'a'][..]] {
        let response = serve(&mut sim, &mut local, 1, "a", Bytes::from(payload));
        assert_eq!(&response[..], &[6u8]);
        assert_eq!(Response::from_bytes(response), Response::InvalidRequest);
    }
}

#[test]
fn rpc_request_is_three_bytes_longer_than_topic_and_data() {
    let mut client = new_client();
    let mut caller = Caller::new();
    let (_, request) = Client::rpc(&mut caller, bytes("echo"), bytes("hello"));
    assert_eq!(request.len(), 3 + 4 + 5);
    assert_eq!(
        &request[..],
        &[0u8, 4, 0, b'e', b'c', b'h', b'o', b'h', b'e', b'l', b'l', b'o']
    );
    let (_, request) = Client::sub(&mut caller, bytes("t"), Bytes::new());
    assert_eq!(&request[..], &[1u8, 1, 0, b't']);
    let (_, request) = Client::unsub(&mut caller, bytes("t"), bytes("!"));
    assert_eq!(&request[..], &[2u8, 1, 0, b't', b'!']);
}

#[test]
fn notification_request_exact_bytes() {
    let request =
        Handler::<RequestHandler, &'static str>::notification(&bytes("once"), bytes("Hello"));
    assert_eq!(
        &request[..],
        &[3u8, 4, 0, b'o', b'n', b'c', b'e', b'H', b'e', b'l', b'l', b'o']
    );
}

#[test]
fn subscribing_twice_is_answered_already_subscribed() {
    let mut handler = Handler::new();
    handler.on_subs(bytes("news"), echo(), echo());
    let mut sim: Endpoint = Sim::new(handler);
    let mut local = new_client();
    let mut client = new_client();
    let mut caller = Caller::new();

    let (_, request) = Client::sub(&mut caller, bytes("news"), bytes("hi"));
    let response = serve(&mut sim, &mut local, 7, "seven", request);
    assert_eq!(Response::from_bytes(response), Response::Accepted(bytes("hi")));
    let (_, request) = Client::sub(&mut caller, bytes("news"), bytes("hi"));
    let response = serve(&mut sim, &mut local, 7, "seven", request);
    assert_eq!(Response::from_bytes(response.clone()), Response::AlreadySubscribed);
    let (sender, _receiver) = sync_channel(1);
    let (resp, unused) = client.sub_response(bytes("news"), response, sender);
    assert_eq!(resp, SubscriptionResponse::AlreadySubscribed);
    assert!(unused.is_some());

    let (_, request) = Client::sub(&mut caller, bytes("news"), bytes("hi"));
    let response = serve(&mut sim, &mut local, 8, "eight", request);
    assert_eq!(Response::from_bytes(response), Response::Accepted(bytes("hi")));

    let subscribers = sim.handler().get_subscribers(&bytes("news")).unwrap();
    assert_eq!(subscribers.len(), 2);
    assert_eq!((subscribers.ident(0), *subscribers.caller(0)), (7, "seven"));
    assert_eq!((subscribers.ident(1), *subscribers.caller(1)), (8, "eight"));
}

#[test]
fn unsubscribing_leaves_the_subscribers() {
    let mut handler = Handler::new();
    handler.on_subs(
        bytes("news"),
        echo(),
        Box::new(|_| Bytes::from(&b"bye"[..])) as RequestHandler,
    );
    let mut sim: Endpoint = Sim::new(handler);
    let mut local = new_client();
    let mut client = new_client();
    let mut caller = Caller::new();

    let (_, request) = Client::sub(&mut caller, bytes("news"), Bytes::new());
    let response = serve(&mut sim, &mut local, 7, "seven", request);
    let (sender, _receiver) = sync_channel(1);
    let (resp, _) = client.sub_response(bytes("news"), response, sender);
    assert_eq!(resp, SubscriptionResponse::Accepted(Bytes::new()));
    assert!(client.subs().contains_key(&bytes("news")));
    assert_eq!(sim.handler().get_subscribers(&bytes("news")).unwrap().len(), 1);

    let (_, request) = Client::unsub(&mut caller, bytes("news"), Bytes::new());
    let response = serve(&mut sim, &mut local, 7, "seven", request);
    let resp = client.unsub_response(&bytes("news"), response);
    assert_eq!(resp, UnsubscriptionResponse::Accepted(bytes("bye")));
    assert!(!client.subs().contains_key(&bytes("news")));
    assert_eq!(sim.handler().get_subscribers(&bytes("news")).unwrap().len(), 0);

    let (_, request) = Client::sub(&mut caller, bytes("news"), Bytes::new());
    let response = serve(&mut sim, &mut local, 7, "seven", request);
    assert_eq!(Response::from_bytes(response), Response::Accepted(Bytes::new()));
}

#[test]
fn notification_without_a_subscription_is_answered_topic_not_found() {
    let mut sim: Endpoint = Sim::new(Handler::new());
    let mut local = new_client();
    let request =
        Handler::<RequestHandler, &'static str>::notification(&bytes("once"), bytes("Hello"));
    let response = serve(&mut sim, &mut local, 1, "a", request);
    assert_eq!(Response::from_bytes(response), Response::TopicNotFound);
}

#[test]
fn notification_to_a_dropped_receiver_ends_the_subscription() {
    let mut sim: Endpoint = Sim::new(Handler::new());
    let mut local = new_client();
    let (sender, receiver) = sync_channel(1);
    let (resp, _) = local.sub_response(bytes("once"), Bytes::from(&[0u8][..]), sender);
    assert_eq!(resp, SubscriptionResponse::Accepted(Bytes::new()));
    drop(receiver);
    let request =
        Handler::<RequestHandler, &'static str>::notification(&bytes("once"), bytes("Hello"));
    let response = serve(&mut sim, &mut local, 1, "a", request.clone());
    assert_eq!(Response::from_bytes(response), Response::NotSubscribed);
    assert!(!local.subs().contains_key(&bytes("once")));
    let response = serve(&mut sim, &mut local, 1, "a", request);
    assert_eq!(Response::from_bytes(response), Response::TopicNotFound);
}

#[test]
fn notifications_arrive_in_the_order_they_were_sent() {
    let mut sim: Endpoint = Sim::new(Handler::new());
    let mut local = new_client();
    let (sender, receiver) = sync_channel(8);
    let _ = local.sub_response(bytes("t"), Bytes::from(&[0u8][..]), sender);
    for message in ["one", "two", "three"] {
        let request =
            Handler::<RequestHandler, &'static str>::notification(&bytes("t"), bytes(message));
        let response = serve(&mut sim, &mut local, 1, "a", request);
        assert_eq!(Response::from_bytes(response), Response::Notified);
    }
    let got: Vec<Bytes> = receiver.try_iter().collect();
    assert_eq!(got, vec![bytes("one"), bytes("two"), bytes("three")]);
}

#[test]
fn registry_lookups() {
    let mut handler: Handler<u8, u8> = Handler::new();
    handler.on_rpc(bytes("a"), 1);
    handler.on_rpc(bytes("b"), 2);
    handler.on_subs(bytes("a"), 3, 4);
    assert_eq!(handler.get_rpc(&bytes("a")), Some(&1));
    assert_eq!(handler.get_rpc(&bytes("b")), Some(&2));
    assert_eq!(handler.get_rpc(&bytes("c")), None);
    assert_eq!(handler.get_subs(&bytes("a")), Some(&3));
    assert_eq!(handler.get_unsubs(&bytes("a")), Some(&4));
    assert_eq!(handler.get_subs(&bytes("b")), None);
    assert_eq!(handler.get_unsubs(&bytes("b")), None);
    assert!(handler.get_subscribers(&bytes("b")).is_none());
    handler.on_rpc(bytes("a"), 9);
    assert_eq!(handler.get_rpc(&bytes("a")), Some(&9));
    assert_eq!(handler.get_rpc(&bytes("b")), Some(&2));
}

#[test]
fn subscriber_is_in_the_set_at_most_once() {
    let mut handler: Handler<u8, u8> = Handler::new();
    handler.on_subs(bytes("a"), 0, 0);
    handler.on_subs(bytes("b"), 0, 0);
    assert_eq!(handler.add_notify_caller(&bytes("a"), 5, 50), Some(true));
    assert_eq!(handler.add_notify_caller(&bytes("a"), 5, 51), Some(false));
    assert_eq!(handler.add_notify_caller(&bytes("a"), 6, 60), Some(true));
    assert_eq!(handler.add_notify_caller(&bytes("b"), 5, 52), Some(true));
    assert_eq!(handler.add_notify_caller(&bytes("c"), 5, 53), None);
    let set = handler.get_subscribers(&bytes("a")).unwrap();
    assert_eq!(set.len(), 2);
    assert_eq!((set.ident(0), *set.caller(0)), (5, 50));
    assert_eq!((set.ident(1), *set.caller(1)), (6, 60));
    assert_eq!(handler.get_subscribers(&bytes("b")).unwrap().len(), 1);

    assert_eq!(handler.remove_notify_caller(&bytes("a"), 5), Some(true));
    assert_eq!(handler.remove_notify_caller(&bytes("a"), 5), Some(false));
    assert_eq!(handler.remove_notify_caller(&bytes("c"), 5), None);
    let set = handler.get_subscribers(&bytes("a")).unwrap();
    assert_eq!(set.len(), 1);
    assert_eq!((set.ident(0), *set.caller(0)), (6, 60));
    assert_eq!(handler.get_subscribers(&bytes("b")).unwrap().len(), 1);
}

#[test]
fn subscribers_set() {
    let mut set: Subscribers<&'static str> = Subscribers::new();
    assert_eq!(set.len(), 0);
    assert!(set.insert(3, "three"));
    assert!(set.insert(1, "one"));
    assert!(!set.insert(3, "again"));
    assert!(set.contains(1));
    assert!(set.contains(3));
    assert!(!set.contains(2));
    assert_eq!(set.len(), 2);
    assert_eq!(set.remove(2), None);
    assert_eq!(set.remove(3), Some("three"));
    assert!(!set.contains(3));
    assert_eq!(set.len(), 1);
    assert_eq!((set.ident(0), *set.caller(0)), (1, "one"));
}

#[test]
fn topic_map() {
    let mut map: TopicMap<u32> = TopicMap::new();
    assert!(map.get(&bytes("a")).is_none());
    map.insert(bytes("a"), 1);
    map.insert(bytes("ab"), 2);
    map.insert(Bytes::new(), 3);
    assert_eq!(map.get(&bytes("a")), Some(&1));
    assert_eq!(map.get(&bytes("ab")), Some(&2));
    assert_eq!(map.get(&Bytes::new()), Some(&3));
    assert!(map.get(&bytes("b")).is_none());
    map.insert(bytes("a"), 10);
    assert_eq!(map.get(&bytes("a")), Some(&10));
    assert_eq!(map.remove(&bytes("a")), Some(10));
    assert_eq!(map.remove(&bytes("a")), None);
    assert!(!map.contains_key(&bytes("a")));
    assert!(map.contains_key(&bytes("ab")));
    assert_eq!(map.get(&bytes("ab")), Some(&2));
}

#[test]
fn resubscribing_a_topic_starts_it_without_subscribers() {
    let mut handler: Handler<u8, u8> = Handler::new();
    handler.on_subs(bytes("a"), 1, 2);
    assert_eq!(handler.add_notify_caller(&bytes("a"), 5, 50), Some(true));
    handler.on_subs(bytes("a"), 3, 4);
    assert_eq!(handler.get_subs(&bytes("a")), Some(&3));
    assert_eq!(handler.get_subscribers(&bytes("a")).unwrap().len(), 0);
}

#[test]
fn peer_that_is_gone_leaves_every_topic() {
    let mut handler: Handler<u8, u8> = Handler::new();
    handler.on_rpc(bytes("r"), 1);
    handler.on_subs(bytes("a"), 0, 0);
    handler.on_subs(bytes("b"), 0, 0);
    handler.on_subs(bytes("c"), 0, 0);
    assert_eq!(handler.add_notify_caller(&bytes("a"), 5, 50), Some(true));
    assert_eq!(handler.add_notify_caller(&bytes("a"), 6, 60), Some(true));
    assert_eq!(handler.add_notify_caller(&bytes("b"), 6, 61), Some(true));
    assert_eq!(handler.add_notify_caller(&bytes("b"), 5, 51), Some(true));
    assert_eq!(handler.add_notify_caller(&bytes("b"), 7, 71), Some(true));
    handler.remove_caller(5);
    let a = handler.get_subscribers(&bytes("a")).unwrap();
    assert_eq!(a.len(), 1);
    assert_eq!((a.ident(0), *a.caller(0)), (6, 60));
    let b = handler.get_subscribers(&bytes("b")).unwrap();
    assert_eq!(b.len(), 2);
    assert_eq!((b.ident(0), *b.caller(0)), (6, 61));
    assert_eq!((b.ident(1), *b.caller(1)), (7, 71));
    assert_eq!(handler.get_subscribers(&bytes("c")).unwrap().len(), 0);
    assert_eq!(handler.get_rpc(&bytes("r")), Some(&1));
    assert_eq!(handler.get_subs(&bytes("a")), Some(&0));
    handler.remove_caller(5);
    assert_eq!(handler.get_subscribers(&bytes("a")).unwrap().len(), 1);
    assert_eq!(handler.add_notify_caller(&bytes("a"), 5, 52), Some(true));
}

#[test]
fn topic_map_lists_its_topics() {
    let mut map: TopicMap<u32> = TopicMap::new();
    assert!(map.topics().is_empty());
    map.insert(bytes("a"), 1);
    map.insert(bytes("b"), 2);
    map.insert(bytes("a"), 3);
    let mut topics = map.topics();
    topics.sort();
    assert_eq!(topics, vec![bytes("a"), bytes("b")]);
}
