use twilight_http::audit::{audit_header, AuditLogReason, AuditLogReasonError, AUDIT_REASON_MAX_LENGTH};
use twilight_http::channel::{GetJoinedPrivateArchivedThreads, GetPins};
use twilight_http::error::{Error, TransportErrorKind};
use twilight_http::guild::{DeleteBan, GetEmojis};
use twilight_http::id::{ChannelId, GuildId, UserId};
use twilight_http::request::{eq_ignore_ascii_case, Header, Request, TryIntoRequest};
use twilight_http::response::{Poll, Response, ResponseFuture};
use twilight_http::routing::{Method, ResponseShape, Route};
use twilight_http::text::{header_value_is_valid, percent_encode_str, push_decimal};

fn guild(n: u64) -> GuildId {
    GuildId::new(n).expect("non zero")
}

fn user(n: u64) -> UserId {
    UserId::new(n).expect("non zero")
}

fn channel(n: u64) -> ChannelId {
    ChannelId::new(n).expect("non zero")
}

fn header(name: &str, value: &str) -> Header {
    Header { name: name.to_owned(), value: value.to_owned() }
}

#[test]
fn remove_ban_without_reason() {
    let request = DeleteBan::new(guild(100), user(200)).try_into_request().unwrap();
    assert_eq!(request.method, Method::Delete);
    assert_eq!(request.path, "guilds/100/bans/200");
    assert!(request.path.contains("100") && request.path.contains("200"));
    assert!(request.header("x-audit-log-reason").is_none());
    assert!(request.headers.is_empty());
    assert_eq!(request.query_string(), "");
    assert_eq!(request.shape, ResponseShape::Empty);
    assert!(request.body.is_none());
}

#[test]
fn remove_ban_with_reason() {
    let request = DeleteBan::new(guild(100), user(200))
        .reason("spamming")
        .unwrap()
        .try_into_request()
        .unwrap();
    assert_eq!(request.method, Method::Delete);
    assert_eq!(request.path, "guilds/100/bans/200");
    assert_eq!(request.header("x-audit-log-reason").map(String::as_str), Some("spamming"));
    assert_eq!(request.headers.len(), 1);
}

#[test]
fn list_guild_emojis() {
    let request = GetEmojis::new(guild(100)).try_into_request().unwrap();
    assert_eq!(request.method, Method::Get);
    assert_eq!(request.path, "guilds/100/emojis");
    assert!(request.query.is_empty());
    assert_eq!(request.query_string(), "");
    assert_eq!(request.shape, ResponseShape::List);
}

#[test]
fn list_joined_private_archived_threads_with_cursor_and_limit() {
    let request = GetJoinedPrivateArchivedThreads::new(channel(50))
        .before(channel(40))
        .limit(25)
        .try_into_request()
        .unwrap();
    assert_eq!(request.method, Method::Get);
    assert_eq!(request.path, "channels/50/users/@me/threads/archived/private");
    let query = request.query_string();
    assert!(query.contains("before=40"));
    assert!(query.contains("limit=25"));
    assert_eq!(query, "before=40&limit=25");
    assert_eq!(request.shape, ResponseShape::Single);
}

#[test]
fn list_joined_private_archived_threads_without_options() {
    let request = GetJoinedPrivateArchivedThreads::new(channel(50)).try_into_request().unwrap();
    let query = request.query_string();
    assert!(!query.contains("before"));
    assert!(!query.contains("limit"));
    assert_eq!(query, "");
    assert!(request.query.is_empty());
}

#[test]
fn list_joined_private_archived_threads_each_option_alone() {
    let request = GetJoinedPrivateArchivedThreads::new(channel(50)).limit(7).try_into_request().unwrap();
    assert_eq!(request.query_string(), "limit=7");
    let request = GetJoinedPrivateArchivedThreads::new(channel(50))
        .before(channel(18446744073709551615))
        .try_into_request()
        .unwrap();
    assert_eq!(request.query_string(), "before=18446744073709551615");
}

#[test]
fn get_pins_request() {
    let request = GetPins::new(channel(123)).try_into_request().unwrap();
    assert_eq!(request.method, Method::Get);
    assert_eq!(request.path, "channels/123/pins");
    assert_eq!(request.query_string(), "");
    assert_eq!(request.shape, ResponseShape::List);
}

#[test]
fn zero_is_no_identifier() {
    assert!(ChannelId::new(0).is_none());
    assert!(GuildId::new(0).is_none());
    assert!(UserId::new(0).is_none());
    assert_eq!(channel(9).get(), 9);
}

#[test]
fn reason_is_percent_encoded() {
    let request = DeleteBan::new(guild(1), user(2))
        .reason("spam ming!")
        .unwrap()
        .try_into_request()
        .unwrap();
    assert_eq!(request.header("X-Audit-Log-Reason").map(String::as_str), Some("spam%20ming%21"));
    assert_eq!(percent_encode_str("é€😀a-Z"), "%C3%A9%E2%82%AC%F0%9F%98%80a%2DZ");
    assert_eq!(percent_encode_str(""), "");
}

#[test]
fn reason_length_bound() {
    let longest = "a".repeat(AUDIT_REASON_MAX_LENGTH);
    assert!(DeleteBan::new(guild(1), user(2)).reason(&longest).is_ok());
    let too_long = "é".repeat(AUDIT_REASON_MAX_LENGTH + 1);
    match DeleteBan::new(guild(1), user(2)).reason(&too_long) {
        Err(AuditLogReasonError::TooLarge { reason }) => assert_eq!(reason, too_long),
        Ok(_) => panic!("a reason over the bound was accepted"),
    }
    assert!(AuditLogReasonError::validate(&longest).is_ok());
    assert!(AuditLogReasonError::validate(&too_long).is_err());
}

#[test]
fn reason_set_twice_keeps_the_last() {
    let request = DeleteBan::new(guild(100), user(200))
        .reason("first")
        .unwrap()
        .reason("second")
        .unwrap()
        .try_into_request()
        .unwrap();
    assert_eq!(request.headers.len(), 1);
    assert_eq!(request.header("x-audit-log-reason").map(String::as_str), Some("second"));
}

#[test]
fn audit_header_value() {
    let h = audit_header("a b").unwrap();
    assert_eq!(h.name, "x-audit-log-reason");
    assert_eq!(h.value, "a%20b");
}

#[test]
fn headers_are_case_insensitive_and_last_write_wins() {
    let request = Request::builder(&Route::GetPins { channel_id: 1 })
        .header(header("X-Thing", "one"))
        .header(header("Other", "two"))
        .header(header("x-thing", "three"))
        .build();
    assert_eq!(request.headers.len(), 2);
    assert_eq!(request.header("X-THING").map(String::as_str), Some("three"));
    assert_eq!(request.header("other").map(String::as_str), Some("two"));
    assert!(request.header("missing").is_none());
    assert!(eq_ignore_ascii_case("Content-Type", "content-type"));
    assert!(!eq_ignore_ascii_case("Content-Type", "content-typo"));
}

#[test]
fn equal_routes_give_equal_requests() {
    let route = Route::GetJoinedPrivateArchivedThreads { before: Some(3), channel_id: 4, limit: None };
    let a = Request::from_route(&route);
    let b = Request::from_route(&route.clone());
    assert_eq!(a.method, b.method);
    assert_eq!(a.path, b.path);
    assert_eq!(a.query_string(), b.query_string());
    assert_eq!(a.headers.len(), b.headers.len());
    let c = DeleteBan::new(guild(5), user(6)).reason("r").unwrap().try_into_request().unwrap();
    let d = DeleteBan::new(guild(5), user(6)).reason("r").unwrap().try_into_request().unwrap();
    assert_eq!(c.path, d.path);
    assert_eq!(c.headers[0].value, d.headers[0].value);
}

#[test]
fn route_table() {
    let route = Route::DeleteBan { guild_id: 7, user_id: 8 };
    assert_eq!(route.method(), Method::Delete);
    assert_eq!(route.path(), "guilds/7/bans/8");
    assert!(route.query().is_empty());
    assert_eq!(route.shape(), ResponseShape::Empty);
    assert_eq!(Route::GetEmojis { guild_id: 1 }.method(), Method::Get);
}

#[test]
fn executed_request_is_live() {
    match DeleteBan::new(guild(100), user(200)).exec() {
        ResponseFuture::Live(request) => assert_eq!(request.path, "guilds/100/bans/200"),
        other => panic!("unexpected handle {:?}", other),
    }
    let handle = GetEmojis::new(guild(3)).exec();
    assert_eq!(handle.request().map(|q| q.path.as_str()), Some("guilds/3/emojis"));
}

#[test]
fn failed_dispatch_resolves_without_transport() {
    let handle = ResponseFuture::from_conversion(Err(Error::CreatingHeader { name: "bad".to_owned() }));
    assert!(handle.request().is_none());
    let delivered = Some(Ok(Response { status: 200, body: vec![1], shape: ResponseShape::List }));
    let (next, poll) = handle.poll(delivered);
    match poll {
        Poll::Ready(Err(e)) => {
            assert!(e.is_conversion());
            assert!(matches!(e, Error::CreatingHeader { ref name } if name == "bad"));
        },
        other => panic!("unexpected poll {:?}", other),
    }
    assert!(matches!(next, ResponseFuture::Resolved));
    let (again, poll) = next.poll(None);
    assert!(matches!(poll, Poll::Pending));
    assert!(matches!(again, ResponseFuture::Resolved));
}

#[test]
fn live_dispatch_waits_on_transport() {
    let handle = GetPins::new(channel(1)).exec();
    let (handle, poll) = handle.poll(None);
    assert!(matches!(poll, Poll::Pending));
    assert!(handle.request().is_some());
    let (handle, poll) = handle.poll(Some(Err(TransportErrorKind::Timeout)));
    match poll {
        Poll::Ready(Err(e)) => {
            assert!(!e.is_conversion());
            assert!(matches!(e, Error::Transport { kind: TransportErrorKind::Timeout }));
        },
        other => panic!("unexpected poll {:?}", other),
    }
    assert!(matches!(handle, ResponseFuture::Resolved));
    let live = GetPins::new(channel(1)).exec();
    let body = Response { status: 200, body: vec![9, 8], shape: ResponseShape::List };
    match live.poll(Some(Ok(body))) {
        (ResponseFuture::Resolved, Poll::Ready(Ok(r))) => assert_eq!(r.body, vec![9, 8]),
        other => panic!("unexpected outcome {:?}", other),
    }
}

#[test]
fn decimal_and_header_values() {
    let mut s = String::from("n=");
    push_decimal(&mut s, 0);
    assert_eq!(s, "n=0");
    let mut s = String::new();
    push_decimal(&mut s, 18446744073709551615);
    assert_eq!(s, "18446744073709551615");
    assert!(header_value_is_valid("plain value\twith tab"));
    assert!(!header_value_is_valid("bad\nvalue"));
    assert!(!header_value_is_valid("del\u{7f}"));
}
