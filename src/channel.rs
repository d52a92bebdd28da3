//! Endpoints on channels.

use vstd::prelude::*;

use crate::error::Error;
use crate::id::ChannelId;
use crate::request::{route_request, Request, RequestView, TryIntoRequest};
use crate::response::ResponseFuture;
use crate::routing::Route;

verus! {

/// Get the pins of a channel.
#[must_use]
pub struct GetPins {
    channel_id: ChannelId,
}

impl GetPins {
    /// The channel whose pins are asked for.
    pub closed spec fn spec_channel_id(&self) -> u64 {
        self.channel_id.value()
    }

    /// The request for the pins of `channel_id`.
    pub fn new(channel_id: ChannelId) -> (r: Self)
        ensures
            r.spec_channel_id() == channel_id.value(),
    {
        GetPins { channel_id }
    }

    /// Execute the request, handing back the handle that resolves to the
    /// list of pinned messages.
    pub fn exec(self) -> (r: ResponseFuture)
        ensures
            r matches ResponseFuture::Live(q) && q@ == self.request_view(),
    {
        ResponseFuture::dispatch(self)
    }
}

impl TryIntoRequest for GetPins {
    open spec fn converts(&self) -> bool {
        true
    }

    open spec fn request_view(&self) -> RequestView {
        route_request(Route::GetPins { channel_id: self.spec_channel_id() })
    }

    fn try_into_request(self) -> (r: Result<Request, Error>) {
        Ok(Request::from_route(&Route::GetPins { channel_id: self.channel_id.get() }))
    }
}

/// Returns archived private threads in the channel that the current user has
/// joined.
///
/// Threads are ordered by their ID in descending order.
#[must_use]
pub struct GetJoinedPrivateArchivedThreads {
    before: Option<ChannelId>,
    channel_id: ChannelId,
    limit: Option<u64>,
}

impl GetJoinedPrivateArchivedThreads {
    /// The channel whose threads are asked for.
    pub closed spec fn spec_channel_id(&self) -> u64 {
        self.channel_id.value()
    }

    /// The thread before which the listing starts, if set.
    pub closed spec fn spec_before(&self) -> Option<u64> {
        match self.before {
            Some(id) => Some(id.value()),
            None => None,
        }
    }

    /// The greatest number of threads to return, if set.
    pub closed spec fn spec_limit(&self) -> Option<u64> {
        self.limit
    }

    /// The route that the request converts to.
    pub open spec fn spec_route(&self) -> Route {
        Route::GetJoinedPrivateArchivedThreads {
            before: self.spec_before(),
            channel_id: self.spec_channel_id(),
            limit: self.spec_limit(),
        }
    }

    /// The request for the joined private archived threads of `channel_id`,
    /// with no cursor and no limit.
    pub fn new(channel_id: ChannelId) -> (r: Self)
        ensures
            r.spec_channel_id() == channel_id.value(),
            r.spec_before() is None,
            r.spec_limit() is None,
    {
        GetJoinedPrivateArchivedThreads { before: None, channel_id, limit: None }
    }

    /// Return threads before this ID.
    pub fn before(self, before: ChannelId) -> (r: Self)
        ensures
            r.spec_channel_id() == self.spec_channel_id(),
            r.spec_before() == Some(before.value()),
            r.spec_limit() == self.spec_limit(),
    {
        GetJoinedPrivateArchivedThreads { before: Some(before), ..self }
    }

    /// Maximum number of threads to return.
    pub fn limit(self, limit: u64) -> (r: Self)
        ensures
            r.spec_channel_id() == self.spec_channel_id(),
            r.spec_before() == self.spec_before(),
            r.spec_limit() == Some(limit),
    {
        GetJoinedPrivateArchivedThreads { limit: Some(limit), ..self }
    }

    /// Execute the request, handing back the handle that resolves to the
    /// listing of threads.
    pub fn exec(self) -> (r: ResponseFuture)
        ensures
            r matches ResponseFuture::Live(q) && q@ == self.request_view(),
    {
        ResponseFuture::dispatch(self)
    }
}

impl TryIntoRequest for GetJoinedPrivateArchivedThreads {
    open spec fn converts(&self) -> bool {
        true
    }

    open spec fn request_view(&self) -> RequestView {
        route_request(self.spec_route())
    }

    fn try_into_request(self) -> (r: Result<Request, Error>) {
        let before = match self.before {
            Some(id) => Some(id.get()),
            None => None,
        };
        Ok(
            Request::from_route(
                &Route::GetJoinedPrivateArchivedThreads {
                    before,
                    channel_id: self.channel_id.get(),
                    limit: self.limit,
                },
            ),
        )
    }
}

} // verus!
