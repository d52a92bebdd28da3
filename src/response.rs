//! Deferred dispatch: the handle that an executed endpoint hands back. It is
//! either already failed, with the error that kept the request from being
//! sent, or waits on the transport that sends the request; both resolve
//! through the same poll.

use vstd::prelude::*;

use crate::error::{Error, TransportErrorKind};
use crate::request::{Request, TryIntoRequest};
use crate::routing::ResponseShape;

verus! {

/// A raw response that the transport received, with the shape that its body
/// is expected to have.
#[derive(Debug)]
pub struct Response {
    pub status: u16,
    pub body: Vec<u8>,
    pub shape: ResponseShape,
}

/// Handle of a dispatched call.
#[derive(Debug)]
pub enum ResponseFuture {
    /// The request was never sent; polling yields this error.
    Failed(Error),
    /// The request is handed to the transport and awaits its outcome.
    Live(Request),
    /// The outcome was handed out.
    Resolved,
}

/// The answer of one poll.
#[derive(Debug)]
pub enum Poll {
    /// No outcome yet.
    Pending,
    /// The outcome of the call.
    Ready(Result<Response, Error>),
}

impl ResponseFuture {
    /// A handle already failed with `source`.
    pub fn error(source: Error) -> (r: ResponseFuture)
        ensures
            r == ResponseFuture::Failed(source),
    {
        ResponseFuture::Failed(source)
    }

    /// A handle that waits on the transport sending `request`.
    pub fn live(request: Request) -> (r: ResponseFuture)
        ensures
            r == ResponseFuture::Live(request),
    {
        ResponseFuture::Live(request)
    }

    /// The handle for a converted endpoint: live with its request where the
    /// conversion succeeded, else failed with the conversion error.
    pub fn from_conversion(converted: Result<Request, Error>) -> (r: ResponseFuture)
        ensures
            converted matches Ok(q) ==> r == ResponseFuture::Live(q),
            converted matches Err(e) ==> r == ResponseFuture::Failed(e),
    {
        match converted {
            Ok(request) => ResponseFuture::live(request),
            Err(source) => ResponseFuture::error(source),
        }
    }

    /// Converts `endpoint` and hands back the handle for it.
    pub fn dispatch<T: TryIntoRequest>(endpoint: T) -> (r: ResponseFuture)
        ensures
            endpoint.converts() ==> (r matches ResponseFuture::Live(q) && q@ == endpoint.request_view()),
            !endpoint.converts() ==> (r matches ResponseFuture::Failed(e) && e.spec_is_conversion()),
    {
        ResponseFuture::from_conversion(endpoint.try_into_request())
    }

    /// The request that the transport is to send; none where the handle
    /// failed before sending or is resolved.
    pub open spec fn spec_request(&self) -> Option<Request> {
        match self {
            ResponseFuture::Live(q) => Some(*q),
            _ => None,
        }
    }

    /// The request that the transport is to send; none where the handle
    /// failed before sending or is resolved.
    pub fn request(&self) -> (r: Option<&Request>)
        ensures
            r is None <==> self.spec_request() is None,
            r matches Some(q) ==> self.spec_request() == Some(*q),
    {
        match self {
            ResponseFuture::Live(q) => Some(q),
            _ => None,
        }
    }

    /// The next state and the answer of one poll, given what the transport
    /// has delivered so far.
    pub open spec fn spec_poll(self, delivered: Option<Result<Response, TransportErrorKind>>) -> (
        ResponseFuture,
        Poll,
    ) {
        match self {
            ResponseFuture::Failed(e) => (ResponseFuture::Resolved, Poll::Ready(Err(e))),
            ResponseFuture::Live(q) => match delivered {
                None => (ResponseFuture::Live(q), Poll::Pending),
                Some(Ok(resp)) => (ResponseFuture::Resolved, Poll::Ready(Ok(resp))),
                Some(Err(kind)) => (
                    ResponseFuture::Resolved,
                    Poll::Ready(Err(Error::Transport { kind })),
                ),
            },
            ResponseFuture::Resolved => (ResponseFuture::Resolved, Poll::Pending),
        }
    }

    /// One poll of the handle, given what the transport has delivered so far
    /// (`None` while the call is in flight). A failed handle resolves to its
    /// error without looking at the transport; a live one resolves when the
    /// transport delivers; a resolved one stays pending.
    pub fn poll(self, delivered: Option<Result<Response, TransportErrorKind>>) -> (r: (
        ResponseFuture,
        Poll,
    ))
        ensures
            r == self.spec_poll(delivered),
    {
        match self {
            ResponseFuture::Failed(e) => (ResponseFuture::Resolved, Poll::Ready(Err(e))),
            ResponseFuture::Live(q) => match delivered {
                None => (ResponseFuture::Live(q), Poll::Pending),
                Some(Ok(resp)) => (ResponseFuture::Resolved, Poll::Ready(Ok(resp))),
                Some(Err(kind)) => (
                    ResponseFuture::Resolved,
                    Poll::Ready(Err(Error::Transport { kind })),
                ),
            },
            ResponseFuture::Resolved => (ResponseFuture::Resolved, Poll::Pending),
        }
    }
}

} // verus!
