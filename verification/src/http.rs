use vstd::prelude::*;

verus! {

/// Request methods the service distinguishes. Registered routes only ever use
/// `Get` and `Post`; every other method is folded into `Other`, since the
/// default handler treats all non-GET methods alike.
#[derive(Clone, Copy, Debug, PartialEq, Eq, Structural)]
pub enum Method {
    Get,
    Post,
    Other,
}

/// One inbound HTTP transaction: the method, the exact request path, and the
/// raw body bytes. A request is owned by the task handling it and discarded
/// once the response is produced.
pub struct Request {
    pub method: Method,
    pub path: Vec<u8>,
    pub body: Vec<u8>,
}

/// A response: a numeric status code and the raw body bytes.
pub struct Response {
    pub status: u16,
    pub body: Vec<u8>,
}

impl View for Response {
    type V = (u16, Seq<u8>);

    open spec fn view(&self) -> (u16, Seq<u8>) {
        (self.status, self.body@)
    }
}

/// The service's error taxonomy. `ConnectionError` and `BindError` are fatal
/// at startup; `PoolTimeout` and `AssetNotFound` are per-request failures that
/// the caller turns into an error response.
#[derive(Clone, Copy, Debug, PartialEq, Eq, Structural)]
pub enum ServiceError {
    ConnectionError,
    PoolTimeout,
    AssetNotFound,
    BindError,
}

} // verus!
