//! The route table: one variant per endpoint, each mapping to an HTTP method,
//! a path with its identifiers in decimal, query parameters and the shape of
//! the response body that the endpoint returns.

use vstd::prelude::*;

use crate::text::{decimal, push_decimal};

verus! {

/// HTTP method of a request.
#[derive(Clone, Copy, Debug, PartialEq, Eq, Structural)]
pub enum Method {
    Delete,
    Get,
    Patch,
    Post,
    Put,
}

/// What the body of a successful response holds.
#[derive(Clone, Copy, Debug, PartialEq, Eq, Structural)]
pub enum ResponseShape {
    /// No body.
    Empty,
    /// One item.
    Single,
    /// A list of items.
    List,
}

/// One endpoint call, with the exact parameters that its path and query
/// need.
#[derive(Clone, Copy, Debug, PartialEq, Eq, Structural)]
pub enum Route {
    /// Remove the ban of a user in a guild.
    DeleteBan { guild_id: u64, user_id: u64 },
    /// List the emojis of a guild.
    GetEmojis { guild_id: u64 },
    /// List the archived private threads of a channel that the current user
    /// has joined, ordered by identifier, descending.
    GetJoinedPrivateArchivedThreads { before: Option<u64>, channel_id: u64, limit: Option<u64> },
    /// List the pinned messages of a channel.
    GetPins { channel_id: u64 },
}

/// The method of `r`.
pub open spec fn route_method(r: Route) -> Method {
    match r {
        Route::DeleteBan { .. } => Method::Delete,
        _ => Method::Get,
    }
}

/// The path of `r`, relative to the API's base, with its identifiers in decimal.
pub open spec fn route_path(r: Route) -> Seq<char> {
    match r {
        Route::DeleteBan { guild_id, user_id } => "guilds/"@ + decimal(guild_id as nat) + "/bans/"@
            + decimal(user_id as nat),
        Route::GetEmojis { guild_id } => "guilds/"@ + decimal(guild_id as nat) + "/emojis"@,
        Route::GetJoinedPrivateArchivedThreads { channel_id, .. } => "channels/"@ + decimal(
            channel_id as nat,
        ) + "/users/@me/threads/archived/private"@,
        Route::GetPins { channel_id } => "channels/"@ + decimal(channel_id as nat) + "/pins"@,
    }
}

/// The query parameter `name` with value `v` in decimal, where `v` is present.
pub open spec fn optional_param(name: Seq<char>, v: Option<u64>) -> Seq<(Seq<char>, Seq<char>)> {
    match v {
        Some(n) => seq![(name, decimal(n as nat))],
        None => Seq::empty(),
    }
}

/// The query parameters of `r`, as name and value, in order; absent optional
/// fields are left out.
pub open spec fn route_query(r: Route) -> Seq<(Seq<char>, Seq<char>)> {
    match r {
        Route::GetJoinedPrivateArchivedThreads { before, limit, .. } => optional_param(
            "before"@,
            before,
        ) + optional_param("limit"@, limit),
        _ => Seq::empty(),
    }
}

/// What the response body of `r` holds.
pub open spec fn route_shape(r: Route) -> ResponseShape {
    match r {
        Route::DeleteBan { .. } => ResponseShape::Empty,
        Route::GetEmojis { .. } => ResponseShape::List,
        Route::GetJoinedPrivateArchivedThreads { .. } => ResponseShape::Single,
        Route::GetPins { .. } => ResponseShape::List,
    }
}

/// One query parameter, its value already formatted.
#[derive(Debug)]
pub struct QueryParam {
    pub name: String,
    pub value: String,
}

impl View for QueryParam {
    type V = (Seq<char>, Seq<char>);

    open spec fn view(&self) -> (Seq<char>, Seq<char>) {
        (self.name@, self.value@)
    }
}

/// The view of each parameter of `ps`.
pub open spec fn params_view(ps: Seq<QueryParam>) -> Seq<(Seq<char>, Seq<char>)> {
    ps.map_values(|p: QueryParam| p@)
}

fn literal(s: &str) -> (r: String)
    ensures
        r@ == s@,
{
    let mut r = String::new();
    r.append(s);
    r
}

fn push_optional_param(ps: &mut Vec<QueryParam>, name: &str, v: Option<u64>)
    ensures
        params_view(final(ps)@) == params_view(old(ps)@) + optional_param(name@, v),
{
    let ghost before = params_view(ps@);
    if let Some(n) = v {
        let mut value = String::new();
        push_decimal(&mut value, n);
        ps.push(QueryParam { name: literal(name), value });
    }
    assert(params_view(ps@) =~= before + optional_param(name@, v));
}

impl Route {
    /// The method of the route.
    pub fn method(&self) -> (r: Method)
        ensures
            r == route_method(*self),
    {
        match self {
            Route::DeleteBan { .. } => Method::Delete,
            _ => Method::Get,
        }
    }

    /// The path of the route, relative to the API's base.
    pub fn path(&self) -> (r: String)
        ensures
            r@ == route_path(*self),
    {
        let mut s = String::new();
        match *self {
            Route::DeleteBan { guild_id, user_id } => {
                s.append("guilds/");
                push_decimal(&mut s, guild_id);
                s.append("/bans/");
                push_decimal(&mut s, user_id);
            },
            Route::GetEmojis { guild_id } => {
                s.append("guilds/");
                push_decimal(&mut s, guild_id);
                s.append("/emojis");
            },
            Route::GetJoinedPrivateArchivedThreads { channel_id, .. } => {
                s.append("channels/");
                push_decimal(&mut s, channel_id);
                s.append("/users/@me/threads/archived/private");
            },
            Route::GetPins { channel_id } => {
                s.append("channels/");
                push_decimal(&mut s, channel_id);
                s.append("/pins");
            },
        }
        s
    }

    /// The query parameters of the route, in order.
    pub fn query(&self) -> (r: Vec<QueryParam>)
        ensures
            params_view(r@) == route_query(*self),
    {
        let mut ps: Vec<QueryParam> = Vec::new();
        assert(params_view(ps@) =~= Seq::empty());
        if let Route::GetJoinedPrivateArchivedThreads { before, limit, .. } = *self {
            push_optional_param(&mut ps, "before", before);
            push_optional_param(&mut ps, "limit", limit);
        }
        ps
    }

    /// What the response body of the route holds.
    pub fn shape(&self) -> (r: ResponseShape)
        ensures
            r == route_shape(*self),
    {
        match self {
            Route::DeleteBan { .. } => ResponseShape::Empty,
            Route::GetEmojis { .. } => ResponseShape::List,
            Route::GetJoinedPrivateArchivedThreads { .. } => ResponseShape::Single,
            Route::GetPins { .. } => ResponseShape::List,
        }
    }
}

} // verus!
