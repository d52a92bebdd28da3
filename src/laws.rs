//! Properties that hold across the builders, the route table, the request
//! descriptor and the dispatch handle.

use vstd::prelude::*;

use crate::audit::audit_header_name;
use crate::channel::{GetJoinedPrivateArchivedThreads, GetPins};
use crate::error::{Error, TransportErrorKind};
use crate::guild::{delete_ban_request, DeleteBan, GetEmojis};
use crate::request::{
    eq_ignore_case, header_value, insert_header, is_first_named, lemma_first_named_exists,
    render_query, route_request, TryIntoRequest,
};
use crate::response::{Poll, Response, ResponseFuture};
use crate::routing::Route;
use crate::text::{decimal, percent_encode};

verus! {

/// A builder executed with no optional field set asks for a path made of the
/// endpoint's fixed segments and its identifiers in decimal, and sends an
/// empty query.
pub proof fn lemma_fresh_builders(
    pins: GetPins,
    threads: GetJoinedPrivateArchivedThreads,
    ban: DeleteBan,
    emojis: GetEmojis,
)
    requires
        threads.spec_before() is None,
        threads.spec_limit() is None,
        ban.spec_reason() is None,
    ensures
        pins.request_view().path == "channels/"@ + decimal(pins.spec_channel_id() as nat)
            + "/pins"@,
        threads.request_view().path == "channels/"@ + decimal(threads.spec_channel_id() as nat)
            + "/users/@me/threads/archived/private"@,
        ban.request_view().path == "guilds/"@ + decimal(ban.spec_guild_id() as nat) + "/bans/"@
            + decimal(ban.spec_user_id() as nat),
        emojis.request_view().path == "guilds/"@ + decimal(emojis.spec_guild_id() as nat)
            + "/emojis"@,
        pins.request_view().query.len() == 0,
        threads.request_view().query.len() == 0,
        ban.request_view().query.len() == 0,
        emojis.request_view().query.len() == 0,
        render_query(threads.request_view().query).len() == 0,
{
    assert(threads.request_view().query =~= Seq::empty());
}

/// Whether `ps` holds a parameter named `name`.
pub open spec fn has_param(ps: Seq<(Seq<char>, Seq<char>)>, name: Seq<char>) -> bool {
    exists|i: int| 0 <= i < ps.len() && (#[trigger] ps[i]).0 == name
}

/// A set optional field is sent as its value in decimal; an unset one is
/// not named in the query at all.
pub proof fn lemma_optional_fields(b: GetJoinedPrivateArchivedThreads)
    ensures
        b.spec_before() matches Some(v) ==> b.request_view().query.contains(
            ("before"@, decimal(v as nat)),
        ),
        b.spec_limit() matches Some(v) ==> b.request_view().query.contains(
            ("limit"@, decimal(v as nat)),
        ),
        b.spec_before() is None ==> !has_param(b.request_view().query, "before"@),
        b.spec_limit() is None ==> !has_param(b.request_view().query, "limit"@),
{
    let q = b.request_view().query;
    if let Some(v) = b.spec_before() {
        assert(q[0] == ("before"@, decimal(v as nat)));
    }
    if let Some(v) = b.spec_limit() {
        assert(q[q.len() - 1] == ("limit"@, decimal(v as nat)));
    }
    assert("before"@ != "limit"@) by {
        reveal_strlit("before");
        reveal_strlit("limit");
        assert("before"@[0] != "limit"@[0]);
    }
}

proof fn lemma_eq_ignore_case_refl(n: Seq<char>)
    ensures
        eq_ignore_case(n, n),
{
}

/// Once the header `name` is set to `value`, looking `name` up finds `value`.
pub proof fn lemma_insert_then_lookup(
    hs: Seq<(Seq<char>, Seq<char>)>,
    name: Seq<char>,
    value: Seq<char>,
)
    ensures
        header_value(insert_header(hs, name, value), name) == Some(value),
{
    lemma_eq_ignore_case_refl(name);
    let ins = insert_header(hs, name, value);
    if exists|i: int| is_first_named(hs, i, name) {
        let i = choose|i: int| is_first_named(hs, i, name);
        assert(is_first_named(ins, i, name));
        let k = choose|k: int| is_first_named(ins, k, name);
        assert(k == i);
    } else {
        let i = hs.len() as int;
        assert forall|j: int| 0 <= j < i implies !eq_ignore_case(#[trigger] ins[j].0, name) by {
            if eq_ignore_case(ins[j].0, name) {
                lemma_first_named_exists(hs, name, j);
            }
        }
        assert(is_first_named(ins, i, name));
        let k = choose|k: int| is_first_named(ins, k, name);
        assert(k == i);
    }
}

/// Setting a header twice leaves the headers as setting it once to the
/// second value: the last write wins.
pub proof fn lemma_insert_twice(
    hs: Seq<(Seq<char>, Seq<char>)>,
    name: Seq<char>,
    v1: Seq<char>,
    v2: Seq<char>,
)
    ensures
        insert_header(insert_header(hs, name, v1), name, v2) == insert_header(hs, name, v2),
        header_value(insert_header(insert_header(hs, name, v1), name, v2), name) == Some(v2),
{
    lemma_eq_ignore_case_refl(name);
    let once = insert_header(hs, name, v1);
    if exists|i: int| is_first_named(hs, i, name) {
        let i = choose|i: int| is_first_named(hs, i, name);
        assert(is_first_named(once, i, name));
        let k = choose|k: int| is_first_named(once, k, name);
        assert(k == i);
        assert(insert_header(once, name, v2) =~= insert_header(hs, name, v2));
    } else {
        let i = hs.len() as int;
        assert forall|j: int| 0 <= j < i implies !eq_ignore_case(#[trigger] once[j].0, name) by {
            if eq_ignore_case(once[j].0, name) {
                lemma_first_named_exists(hs, name, j);
            }
        }
        assert(is_first_named(once, i, name));
        let k = choose|k: int| is_first_named(once, k, name);
        assert(k == i);
        assert(insert_header(once, name, v2) =~= insert_header(hs, name, v2));
    }
    lemma_insert_then_lookup(hs, name, v2);
}

/// The ban removal carries the audit header, with the reason
/// percent-encoded, exactly where a reason is set; setting the reason
/// twice sends the second one.
pub proof fn lemma_audit_header(guild_id: u64, user_id: u64, r1: Seq<char>, r2: Seq<char>)
    ensures
        header_value(delete_ban_request(guild_id, user_id, Some(r1)).headers, audit_header_name())
            == Some(percent_encode(r1)),
        header_value(delete_ban_request(guild_id, user_id, None).headers, audit_header_name())
            is None,
        delete_ban_request(guild_id, user_id, None).headers.len() == 0,
{
    lemma_insert_then_lookup(Seq::empty(), audit_header_name(), percent_encode(r1));
}

/// A handle that failed before sending hands the transport no request, and
/// its first poll yields its error, whatever the transport holds.
pub proof fn lemma_failed_dispatch_sends_nothing(
    e: Error,
    delivered: Option<Result<Response, TransportErrorKind>>,
)
    ensures
        ResponseFuture::Failed(e).spec_request() is None,
        ResponseFuture::Failed(e).spec_poll(delivered) == (
            ResponseFuture::Resolved,
            Poll::Ready(Err(e)),
        ),
{
}

/// Equal routes give equal requests, and builders that agree on their
/// fields give equal requests.
pub proof fn lemma_requests_are_deterministic(
    r1: Route,
    r2: Route,
    a: DeleteBan,
    b: DeleteBan,
    c: GetJoinedPrivateArchivedThreads,
    d: GetJoinedPrivateArchivedThreads,
)
    requires
        r1 == r2,
        a.spec_guild_id() == b.spec_guild_id(),
        a.spec_user_id() == b.spec_user_id(),
        a.spec_reason() == b.spec_reason(),
        c.spec_channel_id() == d.spec_channel_id(),
        c.spec_before() == d.spec_before(),
        c.spec_limit() == d.spec_limit(),
    ensures
        route_request(r1) == route_request(r2),
        a.request_view() == b.request_view(),
        c.request_view() == d.request_view(),
{
}

} // verus!
