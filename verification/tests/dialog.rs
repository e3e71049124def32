use bytes::{Bytes, BytesMut};
use simproto::dialog::{Action, Caller, Codec, Frame, Handler, TypeLabel};
use simproto::sim::{Requestor, Sim};

fn is_sync<T: Sync>() {}

fn is_send<T: Send>() {}

/// Decodes every frame that `inbound` holds and acts on it: requests are
/// answered by `f` on `outbound`, and fulfilled slots are noted in `done`.
fn pump(
    handler: &mut Handler<u32>,
    inbound: &mut BytesMut,
    outbound: &mut BytesMut,
    f: &dyn Fn(Bytes) -> Bytes,
    done: &mut Vec<(u32, Bytes)>,
) {
    while let Some(frame) = Codec.decode(inbound).unwrap() {
        match handler.receiver(frame) {
            Action::Serve { id, payload } => {
                let reply = Handler::<u32>::reply(id, f(payload));
                Codec.encode(reply, outbound).unwrap();
            }
            Action::Fulfil { slot, payload } => done.push((slot, payload)),
            Action::Send { frame } => Codec.encode(frame, outbound).unwrap(),
            Action::Nothing => {}
        }
    }
}

#[test]
fn mod_test_bounds() {
    is_send::<Frame>();
    is_send::<Caller>();
    is_send::<Handler<u32>>();
    is_sync::<Frame>();
    is_sync::<Caller>();
    is_sync::<Handler<u32>>();
    is_send::<simproto::sim::Handler<fn(Bytes) -> Bytes, u32>>();
    is_send::<Requestor<u32>>();
    is_send::<Sim<fn(Bytes) -> Bytes, u32>>();
    is_sync::<simproto::sim::Handler<fn(Bytes) -> Bytes, u32>>();
    is_sync::<Requestor<u32>>();
    is_sync::<Sim<fn(Bytes) -> Bytes, u32>>();
}

#[test]
fn simple_call() {
    let mut assert_count = 0;
    let echo = |req: Bytes| req;
    let del = |_: Bytes| Bytes::new();
    let (mut caller_echo, mut handler_echo) = (Caller::new(), Handler::<u32>::new());
    let (mut caller_del, mut handler_del) = (Caller::new(), Handler::<u32>::new());
    let mut to_del = BytesMut::new();
    let mut to_echo = BytesMut::new();

    let buf = Bytes::from(&b"asdf"[..]);
    let (id, request) = caller_echo.call(buf);
    let frame = handler_echo.request(id, 1, request);
    Codec.encode(frame, &mut to_del).unwrap();

    let buf = Bytes::from(&b"123"[..]);
    let (id, request) = caller_del.call(buf.clone());
    let frame = handler_del.request(id, 2, request);
    Codec.encode(frame, &mut to_echo).unwrap();

    let mut done_echo = Vec::new();
    let mut done_del = Vec::new();
    pump(&mut handler_del, &mut to_del, &mut to_echo, &del, &mut done_del);
    pump(&mut handler_echo, &mut to_echo, &mut to_del, &echo, &mut done_echo);
    pump(&mut handler_del, &mut to_del, &mut to_echo, &del, &mut done_del);

    assert_eq!(done_echo.len(), 1);
    for (slot, resp) in done_echo {
        assert_eq!(slot, 1);
        assert_eq!(resp, Bytes::new());
        assert_count += 1;
    }
    assert_eq!(done_del.len(), 1);
    for (slot, resp) in done_del {
        assert_eq!(slot, 2);
        assert_eq!(resp, buf);
        assert_count += 1;
    }
    assert_eq!(assert_count, 2);
    assert!(to_del.is_empty());
    assert!(to_echo.is_empty());
}

#[test]
fn caller_allots_ids_in_order() {
    let mut caller = Caller::new();
    for expected in 0..5u64 {
        let payload = Bytes::from(vec![expected as u8]);
        let (id, request) = caller.call(payload.clone());
        assert_eq!(id, expected);
        assert_eq!(request, payload);
    }
}

#[test]
fn request_goes_out_under_its_id() {
    let mut handler = Handler::<u32>::new();
    let (t, id, payload) = handler.request(77, 0, Bytes::from(&b"q"[..])).into();
    assert_eq!(t, TypeLabel::Request);
    assert_eq!(id, 77);
    assert_eq!(&payload[..], b"q");
}

#[test]
fn reply_carries_the_id_of_the_request() {
    let mut handler = Handler::<u32>::new();
    let request = Frame::new(TypeLabel::Request, 0xdead_beef, Bytes::from(&b"in"[..]));
    match handler.receiver(request) {
        Action::Serve { id, payload } => {
            assert_eq!(id, 0xdead_beef);
            assert_eq!(&payload[..], b"in");
            let (t, reply_id, result) =
                Handler::<u32>::reply(id, Bytes::from(&b"out"[..])).into();
            assert_eq!(t, TypeLabel::Response);
            assert_eq!(reply_id, 0xdead_beef);
            assert_eq!(&result[..], b"out");
        }
        _ => panic!("a request is served"),
    }
}

#[test]
fn responses_out_of_order_reach_their_calls() {
    let mut caller = Caller::new();
    let mut client = Handler::<u32>::new();
    let mut server = Handler::<u32>::new();
    let mut served = Vec::new();
    let mut n = 2u8;
    for message in [1u8, 2, 3] {
        let (id, request) = caller.call(Bytes::from(vec![message]));
        let frame = client.request(id, message as u32, request);
        match server.receiver(frame) {
            Action::Serve { id, payload } => {
                let mut result = payload.to_vec();
                result.push(n);
                served.push(Handler::<u32>::reply(id, Bytes::from(result)));
            }
            _ => panic!("a request is served"),
        }
        n = n.wrapping_sub(1);
    }
    let mut got = Vec::new();
    while let Some(reply) = served.pop() {
        match client.receiver(reply) {
            Action::Fulfil { slot, payload } => got.push((slot, payload.to_vec())),
            _ => panic!("a response is delivered"),
        }
    }
    assert_eq!(got, vec![(3, vec![3, 0]), (2, vec![2, 1]), (1, vec![1, 2])]);
}

#[test]
fn response_is_delivered_once() {
    let mut handler = Handler::<u32>::new();
    let _ = handler.request(5, 50, Bytes::new());
    let _ = handler.request(6, 60, Bytes::new());
    match handler.receiver(Frame::new(TypeLabel::Response, 6, Bytes::from(&b"six"[..]))) {
        Action::Fulfil { slot, payload } => {
            assert_eq!(slot, 60);
            assert_eq!(&payload[..], b"six");
        }
        _ => panic!("a response is delivered"),
    }
    assert!(matches!(
        handler.receiver(Frame::new(TypeLabel::Response, 6, Bytes::new())),
        Action::Nothing
    ));
    match handler.receiver(Frame::new(TypeLabel::Response, 5, Bytes::from(&b"five"[..]))) {
        Action::Fulfil { slot, payload } => {
            assert_eq!(slot, 50);
            assert_eq!(&payload[..], b"five");
        }
        _ => panic!("a response is delivered"),
    }
}

#[test]
fn response_without_a_call_is_dropped() {
    let mut handler = Handler::<u32>::new();
    assert!(matches!(
        handler.receiver(Frame::new(TypeLabel::Response, 9, Bytes::from(&b"x"[..]))),
        Action::Nothing
    ));
}

#[test]
fn ping_is_answered_by_pong() {
    let mut handler = Handler::<u32>::new();
    match handler.receiver(Frame::new(TypeLabel::Ping, 3, Bytes::from(&b"probe"[..]))) {
        Action::Send { frame } => {
            let (t, id, payload) = frame.into();
            assert_eq!(t, TypeLabel::Pong);
            assert_eq!(id, 3);
            assert_eq!(&payload[..], b"probe");
        }
        _ => panic!("a ping is answered"),
    }
}

#[test]
fn pong_is_ignored() {
    let mut handler = Handler::<u32>::new();
    let _ = handler.request(3, 30, Bytes::new());
    assert!(matches!(
        handler.receiver(Frame::new(TypeLabel::Pong, 3, Bytes::new())),
        Action::Nothing
    ));
    assert!(matches!(
        handler.receiver(Frame::new(TypeLabel::Response, 3, Bytes::new())),
        Action::Fulfil { slot: 30, .. }
    ));
}

#[test]
fn later_slot_under_one_id_takes_the_place_of_the_earlier() {
    let mut handler = Handler::<u32>::new();
    let _ = handler.request(1, 10, Bytes::new());
    let _ = handler.request(1, 11, Bytes::new());
    assert!(matches!(
        handler.receiver(Frame::new(TypeLabel::Response, 1, Bytes::new())),
        Action::Fulfil { slot: 11, .. }
    ));
    assert!(matches!(
        handler.receiver(Frame::new(TypeLabel::Response, 1, Bytes::new())),
        Action::Nothing
    ));
}
