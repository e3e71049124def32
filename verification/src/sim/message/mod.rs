pub mod request;
pub mod response;

pub use self::request::{Request, RequestType};
pub use self::response::{
    NotificationResponse, Response, ResponseType, RpcResponse, SubscriptionResponse,
    UnsubscriptionResponse,
};
