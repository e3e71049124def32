use bytes::{Bytes, BytesMut};
use simproto::sim::message::request::MAX_TOPIC_LEN;
use simproto::sim::message::ResponseType;
use simproto::sim::{
    NotificationResponse, Request, RequestType, Response, RpcResponse, SubscriptionResponse,
    UnsubscriptionResponse,
};

fn bytes(s: &[u8]) -> Bytes {
    Bytes::from(s)
}

fn envelope(kind: RequestType, topic: &[u8], message: &[u8]) -> BytesMut {
    let mut buf = BytesMut::new();
    Request::new(kind, bytes(topic), bytes(message)).write(&mut buf);
    buf
}

#[test]
fn request_envelope_exact_bytes() {
    let buf = envelope(RequestType::Rpc, b"echo", b"hello");
    assert_eq!(
        &buf[..],
        &[0u8, 4, 0, b'e', b'c', b'h', b'o', b'h', b'e', b'l', b'l', b'o']
    );
    let buf = envelope(RequestType::Notification, b"", b"");
    assert_eq!(&buf[..], &[3u8, 0, 0]);
}

#[test]
fn request_envelope_length() {
    for (topic_len, message_len) in [(0usize, 0usize), (1, 0), (0, 1), (4, 5), (300, 7), (65535, 2)]
    {
        let topic = vec![b't'; topic_len];
        let message = vec![b'm'; message_len];
        let buf = envelope(RequestType::Subscription, &topic, &message);
        assert_eq!(buf.len(), 3 + topic_len + message_len);
    }
}

#[test]
fn request_topic_length_goes_low_byte_first() {
    let topic = vec![b't'; 0x0102];
    let buf = envelope(RequestType::Unsubscription, &topic, b"x");
    assert_eq!(&buf[..3], &[2u8, 0x02, 0x01]);
}

#[test]
fn request_roundtrip() {
    let kinds = [
        RequestType::Rpc,
        RequestType::Subscription,
        RequestType::Unsubscription,
        RequestType::Notification,
    ];
    for kind in kinds {
        for (topic, message) in [
            (&b""[..], &b""[..]),
            (&b"echo"[..], &b"hello"[..]),
            (&b"t"[..], &b""[..]),
            (&b""[..], &b"only a message"[..]),
        ] {
            let buf = envelope(kind, topic, message);
            let request = Request::from_bytes(buf.freeze()).unwrap();
            assert_eq!(request.kind, kind);
            assert_eq!(&request.topic[..], topic);
            assert_eq!(&request.message[..], message);
        }
    }
}

#[test]
fn request_roundtrip_with_the_longest_topic() {
    assert_eq!(MAX_TOPIC_LEN, 65535);
    let topic = vec![0xabu8; MAX_TOPIC_LEN];
    let buf = envelope(RequestType::Rpc, &topic, b"m");
    assert_eq!(&buf[1..3], &[0xffu8, 0xff]);
    let request = Request::from_bytes(buf.freeze()).unwrap();
    assert_eq!(&request.topic[..], &topic[..]);
    assert_eq!(&request.message[..], b"m");
}

#[test]
fn request_appends_to_what_is_buffered() {
    let mut buf = BytesMut::from(&[7u8][..]);
    Request::new(RequestType::Rpc, bytes(b"a"), bytes(b"b")).write(&mut buf);
    assert_eq!(&buf[..], &[7u8, 0, 1, 0, b'a', b'b']);
}

#[test]
fn request_of_unknown_kind_is_none() {
    for kind in [4u8, 9, 255] {
        assert!(Request::from_bytes(bytes(&[kind, 0, 0])).is_none());
    }
}

#[test]
fn request_too_short_is_none() {
    assert!(Request::from_bytes(Bytes::new()).is_none());
    assert!(Request::from_bytes(bytes(&[0])).is_none());
    assert!(Request::from_bytes(bytes(&[0, 0])).is_none());
}

#[test]
fn request_with_topic_cut_short_is_none() {
    assert!(Request::from_bytes(bytes(&[0, 1, 0])).is_none());
    assert!(Request::from_bytes(bytes(&[1, 5, 0, b'a', b'b', b'c', b'd'])).is_none());
    assert!(Request::from_bytes(bytes(&[1, 0, 1, b'a'])).is_none());
}

#[test]
fn request_kinds_and_their_bytes() {
    assert_eq!(RequestType::from(0), Some(RequestType::Rpc));
    assert_eq!(RequestType::from(1), Some(RequestType::Subscription));
    assert_eq!(RequestType::from(2), Some(RequestType::Unsubscription));
    assert_eq!(RequestType::from(3), Some(RequestType::Notification));
    assert_eq!(RequestType::from(4), None);
    assert_eq!(u8::from(RequestType::Rpc), 0);
    assert_eq!(u8::from(RequestType::Subscription), 1);
    assert_eq!(u8::from(RequestType::Unsubscription), 2);
    assert_eq!(u8::from(RequestType::Notification), 3);
}

#[test]
fn response_tags() {
    let tags = [
        ResponseType::Accepted,
        ResponseType::TopicNotFound,
        ResponseType::AlreadySubscribed,
        ResponseType::Rejected,
        ResponseType::NotSubscribed,
        ResponseType::Notified,
        ResponseType::InvalidRequest,
    ];
    for (byte, tag) in tags.iter().enumerate() {
        assert_eq!(ResponseType::from(byte as u8), *tag);
    }
    assert_eq!(ResponseType::from(7), ResponseType::InvalidResponse);
    assert_eq!(ResponseType::from(255), ResponseType::InvalidResponse);
}

#[test]
fn response_envelope_exact_bytes() {
    let cases = [
        (Response::Accepted(bytes(b"ok")), vec![0u8, b'o', b'k']),
        (Response::Accepted(Bytes::new()), vec![0u8]),
        (Response::TopicNotFound, vec![1u8]),
        (Response::AlreadySubscribed, vec![2u8]),
        (Response::Rejected(bytes(b"no")), vec![3u8, b'n', b'o']),
        (Response::NotSubscribed, vec![4u8]),
        (Response::Notified, vec![5u8]),
        (Response::InvalidRequest, vec![6u8]),
    ];
    for (response, expected) in cases {
        let mut buf = BytesMut::from(&[9u8][..]);
        response.write(&mut buf);
        assert_eq!(buf[0], 9);
        assert_eq!(&buf[1..], &expected[..]);
        assert_eq!(Response::from_bytes(Bytes::from(expected)), response);
    }
}

#[test]
fn response_with_unknown_tag_is_invalid() {
    assert_eq!(Response::from_bytes(bytes(&[7])), Response::InvalidResponse);
    assert_eq!(Response::from_bytes(bytes(&[200, 1, 2])), Response::InvalidResponse);
    assert_eq!(Response::from_bytes(Bytes::new()), Response::InvalidResponse);
}

#[test]
fn response_body_is_ignored_where_the_answer_has_none() {
    assert_eq!(Response::from_bytes(bytes(&[1, 9, 9])), Response::TopicNotFound);
    assert_eq!(Response::from_bytes(bytes(&[5, 9])), Response::Notified);
}

#[test]
fn response_narrows_to_rpc() {
    let x = bytes(b"x");
    assert_eq!(RpcResponse::from(Response::Accepted(x.clone())), RpcResponse::Accepted(x.clone()));
    assert_eq!(RpcResponse::from(Response::TopicNotFound), RpcResponse::TopicNotFound);
    for other in [
        Response::AlreadySubscribed,
        Response::Rejected(x.clone()),
        Response::NotSubscribed,
        Response::Notified,
        Response::InvalidRequest,
        Response::InvalidResponse,
    ] {
        assert_eq!(RpcResponse::from(other), RpcResponse::InvalidResponse);
    }
}

#[test]
fn response_narrows_to_subscription() {
    let x = bytes(b"x");
    assert_eq!(
        SubscriptionResponse::from(Response::Accepted(x.clone())),
        SubscriptionResponse::Accepted(x.clone())
    );
    assert_eq!(
        SubscriptionResponse::from(Response::TopicNotFound),
        SubscriptionResponse::TopicNotFound
    );
    assert_eq!(
        SubscriptionResponse::from(Response::AlreadySubscribed),
        SubscriptionResponse::AlreadySubscribed
    );
    assert_eq!(
        SubscriptionResponse::from(Response::Rejected(x.clone())),
        SubscriptionResponse::Rejected(x.clone())
    );
    for other in [
        Response::NotSubscribed,
        Response::Notified,
        Response::InvalidRequest,
        Response::InvalidResponse,
    ] {
        assert_eq!(SubscriptionResponse::from(other), SubscriptionResponse::InvalidResponse);
    }
}

#[test]
fn response_narrows_to_unsubscription() {
    let x = bytes(b"x");
    assert_eq!(
        UnsubscriptionResponse::from(Response::Accepted(x.clone())),
        UnsubscriptionResponse::Accepted(x.clone())
    );
    assert_eq!(
        UnsubscriptionResponse::from(Response::TopicNotFound),
        UnsubscriptionResponse::TopicNotFound
    );
    assert_eq!(
        UnsubscriptionResponse::from(Response::NotSubscribed),
        UnsubscriptionResponse::NotSubscribed
    );
    for other in [
        Response::AlreadySubscribed,
        Response::Rejected(x.clone()),
        Response::Notified,
        Response::InvalidRequest,
        Response::InvalidResponse,
    ] {
        assert_eq!(UnsubscriptionResponse::from(other), UnsubscriptionResponse::InvalidResponse);
    }
}

#[test]
fn response_narrows_to_notification() {
    let x = bytes(b"x");
    assert_eq!(NotificationResponse::from(Response::Notified), NotificationResponse::Notified);
    assert_eq!(
        NotificationResponse::from(Response::TopicNotFound),
        NotificationResponse::TopicNotFound
    );
    assert_eq!(
        NotificationResponse::from(Response::NotSubscribed),
        NotificationResponse::NotSubscribed
    );
    for other in [
        Response::Accepted(x.clone()),
        Response::AlreadySubscribed,
        Response::Rejected(x.clone()),
        Response::InvalidRequest,
        Response::InvalidResponse,
    ] {
        assert_eq!(NotificationResponse::from(other), NotificationResponse::InvalidResponse);
    }
}

#[test]
fn answers_widen_to_responses() {
    let x = bytes(b"x");
    assert_eq!(Response::from(RpcResponse::Accepted(x.clone())), Response::Accepted(x.clone()));
    assert_eq!(Response::from(RpcResponse::TopicNotFound), Response::TopicNotFound);
    assert_eq!(Response::from(RpcResponse::InvalidResponse), Response::InvalidResponse);
    assert_eq!(
        Response::from(SubscriptionResponse::Rejected(x.clone())),
        Response::Rejected(x.clone())
    );
    assert_eq!(
        Response::from(SubscriptionResponse::AlreadySubscribed),
        Response::AlreadySubscribed
    );
    assert_eq!(Response::from(UnsubscriptionResponse::NotSubscribed), Response::NotSubscribed);
    assert_eq!(
        Response::from(UnsubscriptionResponse::Accepted(x.clone())),
        Response::Accepted(x.clone())
    );
    assert_eq!(Response::from(NotificationResponse::Notified), Response::Notified);
    assert_eq!(Response::from(NotificationResponse::TopicNotFound), Response::TopicNotFound);
}
