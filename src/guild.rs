//! Endpoints on guilds.

use vstd::prelude::*;

use crate::audit::{
    audit_header, audit_header_name, AuditLogReason, AuditLogReasonError,
};
use crate::error::Error;
use crate::id::{GuildId, UserId};
use crate::request::{route_request, with_header, Request, RequestView, TryIntoRequest};
use crate::response::ResponseFuture;
use crate::routing::Route;
use crate::text::percent_encode;

verus! {

/// The request that removes the ban of `user_id` in `guild_id`, with the
/// audit header where a reason is given.
pub open spec fn delete_ban_request(guild_id: u64, user_id: u64, reason: Option<Seq<char>>) -> RequestView {
    let base = route_request(Route::DeleteBan { guild_id, user_id });
    match reason {
        Some(r) => with_header(base, audit_header_name(), percent_encode(r)),
        None => base,
    }
}

/// Remove a ban from a user in a guild.
#[must_use]
pub struct DeleteBan<'a> {
    guild_id: GuildId,
    user_id: UserId,
    reason: Option<&'a str>,
}

impl<'a> DeleteBan<'a> {
    /// The guild of the ban.
    pub closed spec fn spec_guild_id(&self) -> u64 {
        self.guild_id.value()
    }

    /// The banned user.
    pub closed spec fn spec_user_id(&self) -> u64 {
        self.user_id.value()
    }

    /// The audit reason, if set.
    pub closed spec fn spec_reason(&self) -> Option<Seq<char>> {
        match self.reason {
            Some(r) => Some(r@),
            None => None,
        }
    }

    /// The request that removes the ban of `user_id` in `guild_id`, with no
    /// audit reason.
    pub fn new(guild_id: GuildId, user_id: UserId) -> (r: Self)
        ensures
            r.spec_guild_id() == guild_id.value(),
            r.spec_user_id() == user_id.value(),
            r.spec_reason() is None,
    {
        DeleteBan { guild_id, user_id, reason: None }
    }

    /// Execute the request, handing back the handle that resolves to an
    /// empty body.
    pub fn exec(self) -> (r: ResponseFuture)
        ensures
            r matches ResponseFuture::Live(q) && q@ == self.request_view(),
    {
        ResponseFuture::dispatch(self)
    }
}

impl<'a> AuditLogReason<'a> for DeleteBan<'a> {
    open spec fn audit_reason(&self) -> Option<Seq<char>> {
        self.spec_reason()
    }

    open spec fn same_but_reason(&self, other: &Self) -> bool {
        self.spec_guild_id() == other.spec_guild_id() && self.spec_user_id() == other.spec_user_id()
    }

    fn reason(self, reason: &'a str) -> (r: Result<Self, AuditLogReasonError>) {
        match AuditLogReasonError::validate(reason) {
            Ok(valid) => Ok(DeleteBan { reason: Some(valid), ..self }),
            Err(e) => Err(e),
        }
    }
}

impl<'a> TryIntoRequest for DeleteBan<'a> {
    open spec fn converts(&self) -> bool {
        true
    }

    open spec fn request_view(&self) -> RequestView {
        delete_ban_request(self.spec_guild_id(), self.spec_user_id(), self.spec_reason())
    }

    fn try_into_request(self) -> (r: Result<Request, Error>) {
        let mut request = Request::builder(
            &Route::DeleteBan { guild_id: self.guild_id.get(), user_id: self.user_id.get() },
        );
        if let Some(reason) = self.reason {
            match audit_header(reason) {
                Ok(header) => {
                    request = request.header(header);
                },
                Err(source) => {
                    return Err(source);
                },
            }
        }
        Ok(request.build())
    }
}

/// Get the emojis for a guild, by the guild's id.
#[must_use]
pub struct GetEmojis {
    guild_id: GuildId,
}

impl GetEmojis {
    /// The guild whose emojis are asked for.
    pub closed spec fn spec_guild_id(&self) -> u64 {
        self.guild_id.value()
    }

    /// The request for the emojis of `guild_id`.
    pub fn new(guild_id: GuildId) -> (r: Self)
        ensures
            r.spec_guild_id() == guild_id.value(),
    {
        GetEmojis { guild_id }
    }

    /// Execute the request, handing back the handle that resolves to the
    /// list of emojis.
    pub fn exec(self) -> (r: ResponseFuture)
        ensures
            r matches ResponseFuture::Live(q) && q@ == self.request_view(),
    {
        ResponseFuture::dispatch(self)
    }
}

impl TryIntoRequest for GetEmojis {
    open spec fn converts(&self) -> bool {
        true
    }

    open spec fn request_view(&self) -> RequestView {
        route_request(Route::GetEmojis { guild_id: self.spec_guild_id() })
    }

    fn try_into_request(self) -> (r: Result<Request, Error>) {
        Ok(Request::from_route(&Route::GetEmojis { guild_id: self.guild_id.get() }))
    }
}

} // verus!
