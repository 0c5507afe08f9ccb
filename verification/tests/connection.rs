use glimesh::http::{self, authorization, check_status, graphql_outcome, Authorization};
use glimesh::hybrid;
use glimesh::transport::is_valid_header_value;
use glimesh::phoenix::{frame_message, new_message_ref, push_json_string};
use glimesh::ws::{
    self, connection_url, document_frame, heartbeat_frame, heartbeat_interval, incoming_action,
    is_reply_to, join_frame, should_reconnect, socket_credential, after_failed_connect, IncomingAction, RetryAction, SocketFrame,
};
use glimesh::{AccessToken, Auth, Client, GlimeshError, HttpConnectionError, Timestamp};
use std::time::Duration;

fn graphql_error(message: &str) -> graphql_client::Error {
    graphql_client::Error {
        message: message.to_string(),
        locations: None,
        path: None,
        extensions: None,
    }
}

fn token() -> AccessToken {
    AccessToken {
        access_token: "tok".to_string(),
        refresh_token: None,
        created_at: Timestamp { secs: 0, nanos: 0 },
        expires_in: 60,
        scope: None,
        token_type: "bearer".to_string(),
    }
}

#[test]
fn client_round_trip() {
    let client = Client::new(5u32);
    assert_eq!(*client.connection(), 5);
    assert_eq!(client.into_connection(), 5);
}

#[test]
fn authorization_per_method() {
    assert!(matches!(authorization(&Auth::client_id("abc")), Authorization::Header(ref h) if h == "Client-ID abc"));
    assert!(matches!(authorization(&Auth::access_token("t0k")), Authorization::Bearer(ref t) if t == "t0k"));
    assert!(matches!(
        authorization(&Auth::refreshable_access_token("i", "s", "r", token())),
        Authorization::FetchToken
    ));
    assert!(matches!(authorization(&Auth::client_credentials("i", "s")), Authorization::FetchToken));
}

#[test]
fn http_status_checks() {
    assert!(check_status(200).is_ok());
    assert!(check_status(204).is_ok());
    assert!(matches!(check_status(500), Err(HttpConnectionError::BadStatus(500))));
    assert!(matches!(check_status(302), Err(HttpConnectionError::BadStatus(302))));
}

#[test]
fn graphql_outcomes() {
    assert_eq!(graphql_outcome(None, Some(7)).unwrap(), 7);
    assert_eq!(graphql_outcome(Some(vec![]), Some(7)).unwrap(), 7);
    match graphql_outcome(Some(vec![graphql_error("bad")]), Some(7)) {
        Err(GlimeshError::GraphqlErrors(errs)) => {
            assert_eq!(errs.len(), 1);
            assert_eq!(errs[0].message, "bad");
        }
        other => panic!("unexpected {:?}", other),
    }
    assert!(matches!(graphql_outcome::<u8>(None, None), Err(GlimeshError::NoData)));
    assert!(matches!(graphql_outcome::<u8>(Some(vec![]), None), Err(GlimeshError::NoData)));
    let e: HttpConnectionError = GlimeshError::NoData.into();
    assert!(matches!(e, HttpConnectionError::Glimesh(GlimeshError::NoData)));
}

#[test]
fn http_builder_and_connection() {
    let b = http::Connection::builder();
    let c = b.user_agent("My App / 0.1.0").timeout(Duration::from_secs(5)).api_url(String::from("http://localhost/api"));
    let conn = c.build(Auth::client_id("x"));
    assert_eq!(conn.api_url(), "http://localhost/api");
    assert!(matches!(conn.auth(), Auth::ClientId(ref s) if s == "x"));
    let default_conn = http::Connection::new(Auth::access_token("t"));
    assert_eq!(default_conn.api_url(), "https://glimesh.tv/api");
    let client = default_conn.to_client();
    assert_eq!(client.connection().api_url(), "https://glimesh.tv/api");
    assert_eq!(default_conn.as_client().connection().api_url(), "https://glimesh.tv/api");
    let owned = default_conn.into_client();
    assert!(matches!(owned.connection().auth(), Auth::AccessToken(ref s) if s == "t"));
}

#[test]
fn http_config_defaults() {
    let c = http::Config::default();
    assert_eq!(c.user_agent, "Glimesh Rust / 0.8.0");
    assert_eq!(c.timeout, Duration::from_secs(30));
    assert_eq!(c.api_url, "https://glimesh.tv/api");
}

#[test]
fn ws_builder_defaults_and_setters() {
    let c = ws::ConnectionBuilder::default().into_config();
    assert_eq!(c.api_url, "wss://glimesh.tv/api/socket/websocket");
    assert_eq!(c.version, "2.0.0");
    assert_eq!(c.outgoing_capacity, 100);
    assert_eq!(c.incoming_capacity, 10_000);
    assert_eq!(c.ping_interval, Duration::from_secs(30));
    assert_eq!(c.request_timeout, Duration::from_secs(30));
    let c = ws::ConnectionBuilder::default()
        .api_url("ws://localhost:8080/api/socket/websocket")
        .version("1.0.0")
        .outgoing_capacity(1)
        .incoming_capacity(2)
        .ping_interval(Duration::from_millis(3))
        .request_timeout(Duration::from_millis(4))
        .into_config();
    assert_eq!(c.api_url, "ws://localhost:8080/api/socket/websocket");
    assert_eq!(c.version, "1.0.0");
    assert_eq!(c.outgoing_capacity, 1);
    assert_eq!(c.incoming_capacity, 2);
    assert_eq!(c.ping_interval, Duration::from_millis(3));
    assert_eq!(c.request_timeout, Duration::from_millis(4));
    assert_eq!(heartbeat_interval(&c), Duration::from_millis(3));
    let d = ws::ConnectionBuilder::default().into_config();
    assert_eq!(heartbeat_interval(&d), Duration::from_secs(30));
}

#[test]
fn ws_credentials_and_url() {
    let (k, v) = socket_credential(&Auth::client_id("abc")).unwrap();
    assert_eq!((k.as_str(), v.as_str()), ("client_id", "abc"));
    let (k, v) = socket_credential(&Auth::access_token("t")).unwrap();
    assert_eq!((k.as_str(), v.as_str()), ("token", "t"));
    assert!(socket_credential(&Auth::client_credentials("i", "s")).is_none());
    let url = connection_url(
        "wss://glimesh.tv/api/socket/websocket",
        "2.0.0",
        ("client_id".to_string(), "a b&c=é".to_string()),
    );
    assert_eq!(
        url,
        "wss://glimesh.tv/api/socket/websocket?vsn=2.0.0&client_id=a+b%26c%3D%C3%A9"
    );
}

#[test]
fn ws_frames() {
    let u = |v: u128| uuid::Uuid::from_u128(v).to_string();
    assert_eq!(
        join_frame(1, 2),
        format!("[\"{}\",\"{}\",\"__absinthe__:control\",\"phx_join\",{{}}]", u(1), u(2))
    );
    assert_eq!(
        heartbeat_frame(1, 3),
        format!("[\"{}\",\"{}\",\"phoenix\",\"heartbeat\",{{}}]", u(1), u(3))
    );
    assert_eq!(
        document_frame(1, 4, "{\"query\":\"x\"}"),
        format!("[\"{}\",\"{}\",\"__absinthe__:control\",\"doc\",{{\"query\":\"x\"}}]", u(1), u(4))
    );
}

#[test]
fn ws_loop_decisions() {
    assert!(is_reply_to(Some(5), 5));
    assert!(!is_reply_to(Some(5), 6));
    assert!(!is_reply_to(None, 5));
    assert_eq!(incoming_action(&SocketFrame::Text(Some("phx_reply".to_string()))), IncomingAction::Forward);
    assert_eq!(incoming_action(&SocketFrame::Text(Some("phx_error".to_string()))), IncomingAction::Stop);
    assert_eq!(incoming_action(&SocketFrame::Text(None)), IncomingAction::Skip);
    assert_eq!(incoming_action(&SocketFrame::Close), IncomingAction::Stop);
    assert_eq!(incoming_action(&SocketFrame::Other), IncomingAction::Stop);
    assert_eq!(incoming_action(&SocketFrame::Failed), IncomingAction::Stop);
    assert_eq!(incoming_action(&SocketFrame::Ended), IncomingAction::Stop);
    assert!(should_reconnect(true, false));
    assert!(!should_reconnect(true, true));
    assert!(!should_reconnect(false, false));
}

#[test]
fn hybrid_connection() {
    let h = hybrid::Connection::new(1u8, "subs");
    assert_eq!(*h.query_connection(), 1);
    assert_eq!(*h.subscription_connection(), "subs");
    assert_eq!(*h.as_client().connection().query_connection(), 1);
    let c = h.to_client();
    assert_eq!(*c.connection().subscription_connection(), "subs");
    let c2 = h.into_client();
    assert_eq!(*c2.connection().query_connection(), 1);
}

#[test]
fn phoenix_text() {
    let text = frame_message(0, u128::MAX, "a\"b\\c\n\u{1}\u{1f}", "é\u{7f}", "[1]");
    let expected = serde_json::to_string(&(
        uuid::Uuid::from_u128(0),
        uuid::Uuid::from_u128(u128::MAX),
        "a\"b\\c\n\u{1}\u{1f}",
        "é\u{7f}",
        [1],
    ))
    .unwrap();
    assert_eq!(text, expected);
    assert_eq!(
        text,
        "[\"00000000-0000-0000-0000-000000000000\",\"ffffffff-ffff-ffff-ffff-ffffffffffff\",\"a\\\"b\\\\c\\n\\u0001\\u001f\",\"é\u{7f}\",[1]]"
    );
    let mut s = String::from("x");
    push_json_string(&mut s, "\t\r\u{8}\u{c}");
    assert_eq!(s, "x\"\\t\\r\\b\\f\"");
    assert_ne!(new_message_ref(), new_message_ref());
    assert_eq!(
        frame_message(0x0123_4567_89ab_cdef_0123_4567_89ab_cdef, 0, "t", "e", "null"),
        "[\"01234567-89ab-cdef-0123-456789abcdef\",\"00000000-0000-0000-0000-000000000000\",\"t\",\"e\",null]"
    );
}

#[test]
fn header_values() {
    assert!(is_valid_header_value("My App / 0.1.0"));
    assert!(is_valid_header_value("\u{e9}\t"));
    assert!(is_valid_header_value(""));
    assert!(!is_valid_header_value("a\nb"));
    assert!(!is_valid_header_value("a\rb"));
    assert!(!is_valid_header_value("\u{7f}"));
    assert!(!is_valid_header_value("\u{0}"));
}

#[test]
fn http_clients_build() {
    let _c = glimesh::transport::http_client(Some("agent / 1".to_string()), Duration::from_secs(5));
    let d = glimesh::transport::http_client(None, Duration::from_millis(7));
    let _e = d.clone();
    let conn = http::Connection::builder().user_agent("x").build(Auth::client_id("i"));
    let _f = conn.http_client().clone();
}

#[test]
fn retry_decisions() {
    assert_eq!(after_failed_connect(Some(Duration::from_millis(250))), RetryAction::RetryAfter(Duration::from_millis(250)));
    assert_eq!(after_failed_connect(None), RetryAction::GiveUp);
}
