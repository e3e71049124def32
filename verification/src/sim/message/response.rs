use crate::buffer::{bytes_mut_seq, bytes_seq, bytes_slice, put_u8};
use bytes::{Bytes, BytesMut};
use vstd::prelude::*;
use vstd::std_specs::convert::FromSpecImpl;

verus! {
/// The answer to an RPC request.
#[derive(Clone, PartialEq, Debug)]
pub enum RpcResponse {
    Accepted(Bytes),
    TopicNotFound,
    InvalidResponse,
}

/// The answer to a subscription request.
#[derive(Clone, PartialEq, Debug)]
pub enum SubscriptionResponse {
    Accepted(Bytes),
    TopicNotFound,
    AlreadySubscribed,
    Rejected(Bytes),
    InvalidResponse,
}

/// The answer to an unsubscription request.
#[derive(Clone, PartialEq, Debug)]
pub enum UnsubscriptionResponse {
    Accepted(Bytes),
    TopicNotFound,
    NotSubscribed,
    InvalidResponse,
}

/// The answer to a notification.
#[derive(Clone, PartialEq, Debug)]
pub enum NotificationResponse {
    Notified,
    TopicNotFound,
    NotSubscribed,
    InvalidResponse,
}

/// Every answer that travels in a response envelope, and `InvalidResponse`
/// for an envelope that holds none of them.
#[derive(Clone, PartialEq, Debug)]
pub enum Response {
    Accepted(Bytes),
    TopicNotFound,
    AlreadySubscribed,
    Rejected(Bytes),
    NotSubscribed,
    Notified,
    InvalidRequest,
    InvalidResponse,
}

/// The tag at the start of a response envelope.
#[derive(Copy, Clone, PartialEq, Eq, Structural, Debug)]
pub enum ResponseType {
    Accepted,
    TopicNotFound,
    AlreadySubscribed,
    Rejected,
    NotSubscribed,
    Notified,
    InvalidRequest,
    InvalidResponse,
}

/// A response as a mathematical value.
pub enum ResponseView {
    Accepted(Seq<u8>),
    TopicNotFound,
    AlreadySubscribed,
    Rejected(Seq<u8>),
    NotSubscribed,
    Notified,
    InvalidRequest,
    InvalidResponse,
}

impl View for Response {
    type V = ResponseView;

    open spec fn view(&self) -> ResponseView {
        match *self {
            Response::Accepted(x) => ResponseView::Accepted(bytes_seq(x)),
            Response::TopicNotFound => ResponseView::TopicNotFound,
            Response::AlreadySubscribed => ResponseView::AlreadySubscribed,
            Response::Rejected(x) => ResponseView::Rejected(bytes_seq(x)),
            Response::NotSubscribed => ResponseView::NotSubscribed,
            Response::Notified => ResponseView::Notified,
            Response::InvalidRequest => ResponseView::InvalidRequest,
            Response::InvalidResponse => ResponseView::InvalidResponse,
        }
    }
}

impl Response {
    /// This response as the answer to an RPC request: itself where such a request
    /// admits it, and `InvalidResponse` otherwise.
    pub open spec fn rpc(self) -> RpcResponse {
        match self {
            Response::Accepted(x) => RpcResponse::Accepted(x),
            Response::TopicNotFound => RpcResponse::TopicNotFound,
            _ => RpcResponse::InvalidResponse,
        }
    }

    /// This response as the answer to a subscription request: itself where such a request
    /// admits it, and `InvalidResponse` otherwise.
    pub open spec fn subscription(self) -> SubscriptionResponse {
        match self {
            Response::Accepted(x) => SubscriptionResponse::Accepted(x),
            Response::TopicNotFound => SubscriptionResponse::TopicNotFound,
            Response::AlreadySubscribed => SubscriptionResponse::AlreadySubscribed,
            Response::Rejected(x) => SubscriptionResponse::Rejected(x),
            _ => SubscriptionResponse::InvalidResponse,
        }
    }

    /// This response as the answer to an unsubscription request: itself where such a request
    /// admits it, and `InvalidResponse` otherwise.
    pub open spec fn unsubscription(self) -> UnsubscriptionResponse {
        match self {
            Response::Accepted(x) => UnsubscriptionResponse::Accepted(x),
            Response::TopicNotFound => UnsubscriptionResponse::TopicNotFound,
            Response::NotSubscribed => UnsubscriptionResponse::NotSubscribed,
            _ => UnsubscriptionResponse::InvalidResponse,
        }
    }

    /// This response as the answer to a notification: itself where such a request
    /// admits it, and `InvalidResponse` otherwise.
    pub open spec fn notification(self) -> NotificationResponse {
        match self {
            Response::Notified => NotificationResponse::Notified,
            Response::TopicNotFound => NotificationResponse::TopicNotFound,
            Response::NotSubscribed => NotificationResponse::NotSubscribed,
            _ => NotificationResponse::InvalidResponse,
        }
    }

}

impl RpcResponse {
    /// This answer as a response of the wire.
    pub open spec fn widen(self) -> Response {
        match self {
            RpcResponse::Accepted(x) => Response::Accepted(x),
            RpcResponse::TopicNotFound => Response::TopicNotFound,
            RpcResponse::InvalidResponse => Response::InvalidResponse,
        }
    }
}

impl SubscriptionResponse {
    /// This answer as a response of the wire.
    pub open spec fn widen(self) -> Response {
        match self {
            SubscriptionResponse::Accepted(x) => Response::Accepted(x),
            SubscriptionResponse::TopicNotFound => Response::TopicNotFound,
            SubscriptionResponse::AlreadySubscribed => Response::AlreadySubscribed,
            SubscriptionResponse::Rejected(x) => Response::Rejected(x),
            SubscriptionResponse::InvalidResponse => Response::InvalidResponse,
        }
    }
}

impl UnsubscriptionResponse {
    /// This answer as a response of the wire.
    pub open spec fn widen(self) -> Response {
        match self {
            UnsubscriptionResponse::Accepted(x) => Response::Accepted(x),
            UnsubscriptionResponse::TopicNotFound => Response::TopicNotFound,
            UnsubscriptionResponse::NotSubscribed => Response::NotSubscribed,
            UnsubscriptionResponse::InvalidResponse => Response::InvalidResponse,
        }
    }
}

impl NotificationResponse {
    /// This answer as a response of the wire.
    pub open spec fn widen(self) -> Response {
        match self {
            NotificationResponse::Notified => Response::Notified,
            NotificationResponse::TopicNotFound => Response::TopicNotFound,
            NotificationResponse::NotSubscribed => Response::NotSubscribed,
            NotificationResponse::InvalidResponse => Response::InvalidResponse,
        }
    }
}

impl From<Response> for RpcResponse {
    fn from(r: Response) -> (narrow: RpcResponse)
        ensures
            narrow == r.rpc(),
    {
        match r {
            Response::Accepted(x) => RpcResponse::Accepted(x),
            Response::TopicNotFound => RpcResponse::TopicNotFound,
            _ => RpcResponse::InvalidResponse,
        }
    }
}

impl FromSpecImpl<Response> for RpcResponse {
    open spec fn obeys_from_spec() -> bool {
        true
    }

    open spec fn from_spec(r: Response) -> RpcResponse {
        r.rpc()
    }
}

impl From<Response> for SubscriptionResponse {
    fn from(r: Response) -> (narrow: SubscriptionResponse)
        ensures
            narrow == r.subscription(),
    {
        match r {
            Response::Accepted(x) => SubscriptionResponse::Accepted(x),
            Response::TopicNotFound => SubscriptionResponse::TopicNotFound,
            Response::AlreadySubscribed => SubscriptionResponse::AlreadySubscribed,
            Response::Rejected(x) => SubscriptionResponse::Rejected(x),
            _ => SubscriptionResponse::InvalidResponse,
        }
    }
}

impl FromSpecImpl<Response> for SubscriptionResponse {
    open spec fn obeys_from_spec() -> bool {
        true
    }

    open spec fn from_spec(r: Response) -> SubscriptionResponse {
        r.subscription()
    }
}

impl From<Response> for UnsubscriptionResponse {
    fn from(r: Response) -> (narrow: UnsubscriptionResponse)
        ensures
            narrow == r.unsubscription(),
    {
        match r {
            Response::Accepted(x) => UnsubscriptionResponse::Accepted(x),
            Response::TopicNotFound => UnsubscriptionResponse::TopicNotFound,
            Response::NotSubscribed => UnsubscriptionResponse::NotSubscribed,
            _ => UnsubscriptionResponse::InvalidResponse,
        }
    }
}

impl FromSpecImpl<Response> for UnsubscriptionResponse {
    open spec fn obeys_from_spec() -> bool {
        true
    }

    open spec fn from_spec(r: Response) -> UnsubscriptionResponse {
        r.unsubscription()
    }
}

impl From<Response> for NotificationResponse {
    fn from(r: Response) -> (narrow: NotificationResponse)
        ensures
            narrow == r.notification(),
    {
        match r {
            Response::Notified => NotificationResponse::Notified,
            Response::TopicNotFound => NotificationResponse::TopicNotFound,
            Response::NotSubscribed => NotificationResponse::NotSubscribed,
            _ => NotificationResponse::InvalidResponse,
        }
    }
}

impl FromSpecImpl<Response> for NotificationResponse {
    open spec fn obeys_from_spec() -> bool {
        true
    }

    open spec fn from_spec(r: Response) -> NotificationResponse {
        r.notification()
    }
}

impl From<RpcResponse> for Response {
    fn from(r: RpcResponse) -> (wide: Response)
        ensures
            wide == r.widen(),
    {
        match r {
            RpcResponse::Accepted(x) => Response::Accepted(x),
            RpcResponse::TopicNotFound => Response::TopicNotFound,
            RpcResponse::InvalidResponse => Response::InvalidResponse,
        }
    }
}

impl FromSpecImpl<RpcResponse> for Response {
    open spec fn obeys_from_spec() -> bool {
        true
    }

    open spec fn from_spec(r: RpcResponse) -> Response {
        r.widen()
    }
}

impl From<SubscriptionResponse> for Response {
    fn from(r: SubscriptionResponse) -> (wide: Response)
        ensures
            wide == r.widen(),
    {
        match r {
            SubscriptionResponse::Accepted(x) => Response::Accepted(x),
            SubscriptionResponse::TopicNotFound => Response::TopicNotFound,
            SubscriptionResponse::AlreadySubscribed => Response::AlreadySubscribed,
            SubscriptionResponse::Rejected(x) => Response::Rejected(x),
            SubscriptionResponse::InvalidResponse => Response::InvalidResponse,
        }
    }
}

impl FromSpecImpl<SubscriptionResponse> for Response {
    open spec fn obeys_from_spec() -> bool {
        true
    }

    open spec fn from_spec(r: SubscriptionResponse) -> Response {
        r.widen()
    }
}

impl From<UnsubscriptionResponse> for Response {
    fn from(r: UnsubscriptionResponse) -> (wide: Response)
        ensures
            wide == r.widen(),
    {
        match r {
            UnsubscriptionResponse::Accepted(x) => Response::Accepted(x),
            UnsubscriptionResponse::TopicNotFound => Response::TopicNotFound,
            UnsubscriptionResponse::NotSubscribed => Response::NotSubscribed,
            UnsubscriptionResponse::InvalidResponse => Response::InvalidResponse,
        }
    }
}

impl FromSpecImpl<UnsubscriptionResponse> for Response {
    open spec fn obeys_from_spec() -> bool {
        true
    }

    open spec fn from_spec(r: UnsubscriptionResponse) -> Response {
        r.widen()
    }
}

impl From<NotificationResponse> for Response {
    fn from(r: NotificationResponse) -> (wide: Response)
        ensures
            wide == r.widen(),
    {
        match r {
            NotificationResponse::Notified => Response::Notified,
            NotificationResponse::TopicNotFound => Response::TopicNotFound,
            NotificationResponse::NotSubscribed => Response::NotSubscribed,
            NotificationResponse::InvalidResponse => Response::InvalidResponse,
        }
    }
}

impl FromSpecImpl<NotificationResponse> for Response {
    open spec fn obeys_from_spec() -> bool {
        true
    }

    open spec fn from_spec(r: NotificationResponse) -> Response {
        r.widen()
    }
}

impl ResponseView {
    /// Whether this response answers an RPC request.
    pub open spec fn admits_rpc(self) -> bool {
        self is Accepted || self is TopicNotFound
    }

    /// Whether this response answers a subscription request.
    pub open spec fn admits_subscription(self) -> bool {
        self is Accepted || self is TopicNotFound || self is AlreadySubscribed || self is Rejected
    }

    /// Whether this response answers an unsubscription request.
    pub open spec fn admits_unsubscription(self) -> bool {
        self is Accepted || self is TopicNotFound || self is NotSubscribed
    }

    /// Whether this response answers a notification.
    pub open spec fn admits_notification(self) -> bool {
        self is Notified || self is TopicNotFound || self is NotSubscribed
    }

    /// This response where `admitted`, and `InvalidResponse` otherwise.
    pub open spec fn only_if(self, admitted: bool) -> ResponseView {
        if admitted {
            self
        } else {
            ResponseView::InvalidResponse
        }
    }
}

/// Narrowing a response to the answers of one kind of request keeps it where
/// that kind admits it and makes it `InvalidResponse` otherwise.
pub proof fn lemma_narrowing(r: Response)
    ensures
        r.rpc().widen()@ == r@.only_if(r@.admits_rpc()),
        r.subscription().widen()@ == r@.only_if(r@.admits_subscription()),
        r.unsubscription().widen()@ == r@.only_if(r@.admits_unsubscription()),
        r.notification().widen()@ == r@.only_if(r@.admits_notification()),
{
}

/// Widening an answer and narrowing it again gives the answer back.
pub proof fn lemma_widen_then_narrow(
    a: RpcResponse,
    b: SubscriptionResponse,
    c: UnsubscriptionResponse,
    d: NotificationResponse,
)
    ensures
        a.widen().rpc() == a,
        b.widen().subscription() == b,
        c.widen().unsubscription() == c,
        d.widen().notification() == d,
{
}

impl ResponseType {
    /// The tag that an envelope byte stands for. A byte that stands for no
    /// answer is read as `InvalidResponse`.
    pub open spec fn of_code(b: u8) -> ResponseType {
        if b == 0 {
            ResponseType::Accepted
        } else if b == 1 {
            ResponseType::TopicNotFound
        } else if b == 2 {
            ResponseType::AlreadySubscribed
        } else if b == 3 {
            ResponseType::Rejected
        } else if b == 4 {
            ResponseType::NotSubscribed
        } else if b == 5 {
            ResponseType::Notified
        } else if b == 6 {
            ResponseType::InvalidRequest
        } else {
            ResponseType::InvalidResponse
        }
    }

    pub fn from(b: u8) -> (tag: ResponseType)
        ensures
            tag == ResponseType::of_code(b),
    {
        match b {
            0 => ResponseType::Accepted,
            1 => ResponseType::TopicNotFound,
            2 => ResponseType::AlreadySubscribed,
            3 => ResponseType::Rejected,
            4 => ResponseType::NotSubscribed,
            5 => ResponseType::Notified,
            6 => ResponseType::InvalidRequest,
            _ => ResponseType::InvalidResponse,
        }
    }
}

/// A response's envelope: the tag's byte, followed by the body for the two
/// answers that carry one. `InvalidResponse` never travels and has no
/// envelope.
pub open spec fn encode_response(r: ResponseView) -> Seq<u8>
    recommends
        !(r is InvalidResponse),
{
    match r {
        ResponseView::Accepted(x) => seq![0u8] + x,
        ResponseView::TopicNotFound => seq![1u8],
        ResponseView::AlreadySubscribed => seq![2u8],
        ResponseView::Rejected(x) => seq![3u8] + x,
        ResponseView::NotSubscribed => seq![4u8],
        ResponseView::Notified => seq![5u8],
        ResponseView::InvalidRequest => seq![6u8],
        ResponseView::InvalidResponse => Seq::empty(),
    }
}

/// The response that the envelope `s` holds. The first byte decides; what
/// follows it is the body of `Accepted` and `Rejected` and is ignored for the
/// other answers. An empty envelope, or a first byte that stands for no
/// answer, gives `InvalidResponse`.
pub open spec fn parse_response(s: Seq<u8>) -> ResponseView {
    if s.len() == 0 {
        ResponseView::InvalidResponse
    } else {
        match ResponseType::of_code(s[0]) {
            ResponseType::Accepted => ResponseView::Accepted(s.skip(1)),
            ResponseType::TopicNotFound => ResponseView::TopicNotFound,
            ResponseType::AlreadySubscribed => ResponseView::AlreadySubscribed,
            ResponseType::Rejected => ResponseView::Rejected(s.skip(1)),
            ResponseType::NotSubscribed => ResponseView::NotSubscribed,
            ResponseType::Notified => ResponseView::Notified,
            ResponseType::InvalidRequest => ResponseView::InvalidRequest,
            ResponseType::InvalidResponse => ResponseView::InvalidResponse,
        }
    }
}

/// Parsing undoes encoding for every response that travels.
pub proof fn lemma_parse_encode_response(r: ResponseView)
    requires
        !(r is InvalidResponse),
    ensures
        parse_response(encode_response(r)) == r,
{
    match r {
        ResponseView::Accepted(x) => {
            assert((seq![0u8] + x).skip(1) =~= x);
        },
        ResponseView::Rejected(x) => {
            assert((seq![3u8] + x).skip(1) =~= x);
        },
        _ => {},
    }
}

impl Response {
    /// Reads a response out of its envelope.
    pub fn from_bytes(b: Bytes) -> (response: Response)
        ensures
            response@ == parse_response(bytes_seq(b)),
    {
        let mut body = b;
        if body.len() == 0 {
            return Response::InvalidResponse;
        }
        let head = body.split_to(1);
        let kind: ResponseType = ResponseType::from(bytes_slice(&head)[0]);
        proof {
            assert(bytes_seq(body) =~= bytes_seq(b).skip(1));
        }
        match kind {
            ResponseType::Accepted => Response::Accepted(body),
            ResponseType::TopicNotFound => Response::TopicNotFound,
            ResponseType::AlreadySubscribed => Response::AlreadySubscribed,
            ResponseType::Rejected => Response::Rejected(body),
            ResponseType::NotSubscribed => Response::NotSubscribed,
            ResponseType::Notified => Response::Notified,
            ResponseType::InvalidRequest => Response::InvalidRequest,
            ResponseType::InvalidResponse => Response::InvalidResponse,
        }
    }

    /// Appends the response's envelope to `b`. `InvalidResponse` has none
    /// and is not to be written.
    pub fn write(&self, b: &mut BytesMut)
        requires
            !(self@ is InvalidResponse),
            bytes_mut_seq(*old(b)).len() + encode_response(self@).len() <= isize::MAX,
        ensures
            bytes_mut_seq(*final(b)) == bytes_mut_seq(*old(b)) + encode_response(self@),
    {
        match self {
            Response::Accepted(x) => {
                b.reserve(x.len() + 1);
                put_u8(b, 0);
                b.extend_from_slice(bytes_slice(x));
            },
            Response::TopicNotFound => {
                put_u8(b, 1);
            },
            Response::AlreadySubscribed => {
                put_u8(b, 2);
            },
            Response::Rejected(x) => {
                b.reserve(x.len() + 1);
                put_u8(b, 3);
                b.extend_from_slice(bytes_slice(x));
            },
            Response::NotSubscribed => {
                put_u8(b, 4);
            },
            Response::Notified => {
                put_u8(b, 5);
            },
            Response::InvalidRequest => {
                put_u8(b, 6);
            },
            Response::InvalidResponse => {},
        }
        assert(bytes_mut_seq(*b) =~= bytes_mut_seq(*old(b)) + encode_response(self@));
    }
}

} // verus!
