//! Topic-addressed requests over a dialog: the request and response
//! envelopes, the registry of topic handlers with its subscriber sets, the
//! dispatch of inbound requests and the client-side requestor.
pub mod endpoint;
pub mod handler;
pub mod message;
pub mod requestor;
pub mod subscribers;
pub mod topics;

pub use self::endpoint::{Delivery, Dispatch, Inbound, Sim};
pub use self::handler::Handler;
pub use self::message::{
    NotificationResponse, Request, RequestType, Response, RpcResponse, SubscriptionResponse,
    UnsubscriptionResponse,
};
pub use self::requestor::Requestor;
pub use self::subscribers::Subscribers;
pub use self::topics::TopicMap;
