//! Connection over websockets: its options, the url it connects to, and the
//! decisions of the socket's loops. The socket itself is driven by the caller.
use vstd::prelude::*;
use vstd::string::*;
use std::time::Duration;
use crate::auth::{form_view, Auth};
use crate::text::IntoText;
use crate::phoenix::{frame_message, frame_text};
use crate::transport::{duration_from_secs, seconds};

verus! {

#[verifier::external_type_specification]
#[verifier::external_body]
pub struct ExUrlencodedError(serde_urlencoded::ser::Error);

pub open spec fn default_api_url() -> Seq<char> {
    "wss://glimesh.tv/api/socket/websocket"@
}

pub open spec fn default_version() -> Seq<char> {
    "2.0.0"@
}

/// Options of a websocket connection.
#[derive(Debug)]
pub struct Config {
    pub api_url: String,
    pub version: String,
    pub outgoing_capacity: usize,
    pub incoming_capacity: usize,
    pub ping_interval: Duration,
    pub request_timeout: Duration,
}

impl Config {
    /// The options a builder starts with.
    pub open spec fn is_default(self) -> bool {
        &&& self.api_url@ == default_api_url()
        &&& self.version@ == default_version()
        &&& self.outgoing_capacity == 100
        &&& self.incoming_capacity == 10_000
        &&& self.ping_interval == duration_from_secs(30)
        &&& self.request_timeout == duration_from_secs(30)
    }
}

impl Default for Config {
    fn default() -> (c: Self)
        ensures
            c.is_default(),
    {
        Config {
            api_url: String::from_str("wss://glimesh.tv/api/socket/websocket"),
            version: String::from_str("2.0.0"),
            outgoing_capacity: 100,
            incoming_capacity: 10_000,
            ping_interval: seconds(30),
            request_timeout: seconds(30),
        }
    }
}

/// Configure and build a websocket connection.
#[derive(Debug)]
pub struct ConnectionBuilder {
    config: Config,
}

impl Default for ConnectionBuilder {
    fn default() -> (b: Self)
        ensures
            b.config_view().is_default(),
    {
        ConnectionBuilder { config: Config::default() }
    }
}

impl ConnectionBuilder {
    pub closed spec fn config_view(&self) -> Config {
        self.config
    }

    /// The options set so far.
    pub fn into_config(self) -> (c: Config)
        ensures
            c == self.config_view(),
    {
        self.config
    }

    /// Set the base api url used for requests.
    pub fn api_url<S: IntoText>(self, value: S) -> (r: Self)
        ensures
            r.config_view().api_url@ == value.text(),
            r.config_view().version == self.config_view().version,
            r.config_view().outgoing_capacity == self.config_view().outgoing_capacity,
            r.config_view().incoming_capacity == self.config_view().incoming_capacity,
            r.config_view().ping_interval == self.config_view().ping_interval,
            r.config_view().request_timeout == self.config_view().request_timeout,
    {
        let mut b = self;
        b.config.api_url = value.into_text();
        b
    }

    /// Set the version passed as query param `vsn`.
    pub fn version<S: IntoText>(self, value: S) -> (r: Self)
        ensures
            r.config_view().api_url == self.config_view().api_url,
            r.config_view().version@ == value.text(),
            r.config_view().outgoing_capacity == self.config_view().outgoing_capacity,
            r.config_view().incoming_capacity == self.config_view().incoming_capacity,
            r.config_view().ping_interval == self.config_view().ping_interval,
            r.config_view().request_timeout == self.config_view().request_timeout,
    {
        let mut b = self;
        b.config.version = value.into_text();
        b
    }

    /// Number of messages to buffer before sending messages blocks the sender.
    pub fn outgoing_capacity(self, value: usize) -> (r: Self)
        ensures
            r.config_view().api_url == self.config_view().api_url,
            r.config_view().version == self.config_view().version,
            r.config_view().outgoing_capacity == value,
            r.config_view().incoming_capacity == self.config_view().incoming_capacity,
            r.config_view().ping_interval == self.config_view().ping_interval,
            r.config_view().request_timeout == self.config_view().request_timeout,
    {
        let mut b = self;
        b.config.outgoing_capacity = value;
        b
    }

    /// Number of messages buffered before older messages are dropped if they
    /// aren't being handled in time.
    pub fn incoming_capacity(self, value: usize) -> (r: Self)
        ensures
            r.config_view().api_url == self.config_view().api_url,
            r.config_view().version == self.config_view().version,
            r.config_view().outgoing_capacity == self.config_view().outgoing_capacity,
            r.config_view().incoming_capacity == value,
            r.config_view().ping_interval == self.config_view().ping_interval,
            r.config_view().request_timeout == self.config_view().request_timeout,
    {
        let mut b = self;
        b.config.incoming_capacity = value;
        b
    }

    /// Time between socket pings.
    pub fn ping_interval(self, value: Duration) -> (r: Self)
        ensures
            r.config_view().api_url == self.config_view().api_url,
            r.config_view().version == self.config_view().version,
            r.config_view().outgoing_capacity == self.config_view().outgoing_capacity,
            r.config_view().incoming_capacity == self.config_view().incoming_capacity,
            r.config_view().ping_interval == value,
            r.config_view().request_timeout == self.config_view().request_timeout,
    {
        let mut b = self;
        b.config.ping_interval = value;
        b
    }

    /// How long to wait for a response to a request over the socket before timing out.
    pub fn request_timeout(self, value: Duration) -> (r: Self)
        ensures
            r.config_view().api_url == self.config_view().api_url,
            r.config_view().version == self.config_view().version,
            r.config_view().outgoing_capacity == self.config_view().outgoing_capacity,
            r.config_view().incoming_capacity == self.config_view().incoming_capacity,
            r.config_view().ping_interval == self.config_view().ping_interval,
            r.config_view().request_timeout == value,
    {
        let mut b = self;
        b.config.request_timeout = value;
        b
    }
}

/// The text of a form, as `application/x-www-form-urlencoded`.
pub uninterp spec fn form_urlencoded(pairs: Seq<(Seq<char>, Seq<char>)>) -> Seq<char>;

/// `serde_urlencoded::to_string` on a sequence of name/value pairs. The
/// serializer accepts a pair of strings as a key and a value, so on such a
/// sequence it never fails.
#[verifier::external_body]
fn urlencode(pairs: &Vec<(String, String)>) -> (r: Result<String, serde_urlencoded::ser::Error>)
    ensures
        r is Ok,
        r matches Ok(text) ==> text@ == form_urlencoded(form_view(pairs@)),
{
    serde_urlencoded::to_string(pairs.as_slice())
}

/// The query parameter that carries the credentials of `auth` on the socket:
/// `client_id` for a client id and `token` for an access token; `None` for
/// the refreshing methods, whose token has to be obtained first (and is then
/// passed as `token`).
pub fn socket_credential(auth: &Auth) -> (r: Option<(String, String)>)
    ensures
        auth matches Auth::ClientId(id) ==> (r matches Some(p) && p.0@ == "client_id"@ && p.1@ == id@),
        auth matches Auth::AccessToken(t) ==> (r matches Some(p) && p.0@ == "token"@ && p.1@ == t@),
        auth is RefreshableAccessToken ==> r is None,
        auth is ClientCredentials ==> r is None,
{
    match auth {
        Auth::ClientId(client_id) => Some((String::from_str("client_id"), client_id.clone())),
        Auth::AccessToken(token) => Some((String::from_str("token"), token.clone())),
        Auth::RefreshableAccessToken(_) => None,
        Auth::ClientCredentials(_) => None,
    }
}

/// The query parameter that carries a token obtained from the authentication
/// method.
pub fn token_credential(token: String) -> (r: (String, String))
    ensures
        r.0@ == "token"@,
        r.1 == token,
{
    (String::from_str("token"), token)
}

/// The query of the socket url: the version, then the credential.
pub open spec fn connection_query(version: Seq<char>, credential: (Seq<char>, Seq<char>)) -> Seq<
    (Seq<char>, Seq<char>),
> {
    seq![("vsn"@, version), credential]
}

/// The socket's query always has two parameters: the version under `vsn`
/// first, then the credential pair unchanged, whatever the credential is.
pub proof fn law_query_carries_version_then_credential(version: Seq<char>, credential: (Seq<char>, Seq<char>))
    ensures
        connection_query(version, credential).len() == 2,
        connection_query(version, credential)[0] == ("vsn"@, version),
        connection_query(version, credential)[1] == credential,
{
}

/// The url that the socket connects to: the api url, `?`, and the encoded query.
pub fn connection_url(api_url: &str, version: &str, credential: (String, String)) -> (r: String)
    ensures
        r@ == api_url@ + "?"@ + form_urlencoded(connection_query(version@, (credential.0@, credential.1@))),
        r@ == api_url@ + "?"@ + form_urlencoded(seq![("vsn"@, version@), (credential.0@, credential.1@)]),
{
    let ghost cred = (credential.0@, credential.1@);
    let mut query: Vec<(String, String)> = Vec::new();
    query.push((String::from_str("vsn"), version.to_owned()));
    query.push(credential);
    proof {
        assert(form_view(query@) =~= connection_query(version@, cred));
    }
    match urlencode(&query) {
        Ok(q) => String::from_str(api_url).concat("?").concat(q.as_str()),
        Err(_) => {
            proof {
                assert(false);
            }
            String::new()
        },
    }
}

pub open spec fn control_topic() -> Seq<char> {
    "__absinthe__:control"@
}

/// The frame that joins the control channel; its payload is an empty object.
pub fn join_frame(join_ref: u128, msg_ref: u128) -> (r: String)
    ensures
        r@ == frame_text(join_ref, msg_ref, control_topic(), "phx_join"@, "{}"@),
{
    frame_message(join_ref, msg_ref, "__absinthe__:control", "phx_join", "{}")
}

/// The heartbeat frame; its payload is an empty object.
pub fn heartbeat_frame(join_ref: u128, msg_ref: u128) -> (r: String)
    ensures
        r@ == frame_text(join_ref, msg_ref, "phoenix"@, "heartbeat"@, "{}"@),
{
    frame_message(join_ref, msg_ref, "phoenix", "heartbeat", "{}")
}

/// The frame that sends a graphql document, whose JSON text is `payload`.
pub fn document_frame(join_ref: u128, msg_ref: u128, payload: &str) -> (r: String)
    ensures
        r@ == frame_text(join_ref, msg_ref, control_topic(), "doc"@, payload@),
{
    frame_message(join_ref, msg_ref, "__absinthe__:control", "doc", payload)
}

/// The time between two heartbeats: the configured `ping_interval`.
pub fn heartbeat_interval(config: &Config) -> (d: Duration)
    ensures
        d == config.ping_interval,
{
    config.ping_interval
}

/// Whether an incoming message with reference `msg_ref` answers the request
/// whose reference is `expected`.
pub fn is_reply_to(msg_ref: Option<u128>, expected: u128) -> (r: bool)
    ensures
        r == (msg_ref == Some(expected)),
{
    match msg_ref {
        Some(m) => m == expected,
        None => false,
    }
}

/// A frame read from the socket.
#[derive(Debug)]
pub enum SocketFrame {
    /// A text frame; the event of the message it holds, or `None` where it is
    /// not a Phoenix message.
    Text(Option<String>),
    /// The peer closed the socket.
    Close,
    /// A frame of another kind.
    Other,
    /// Reading failed.
    Failed,
    /// The socket has no more frames.
    Ended,
}

/// What the reading loop does with a frame.
#[derive(Debug, PartialEq, Eq)]
pub enum IncomingAction {
    /// Hand the message to the waiting requests.
    Forward,
    /// Drop it and go on reading.
    Skip,
    /// Stop the connection.
    Stop,
}

/// The reading loop forwards Phoenix messages, skips text it cannot read,
/// and stops on an error event or on any other frame.
pub fn incoming_action(frame: &SocketFrame) -> (r: IncomingAction)
    ensures
        frame matches SocketFrame::Text(Some(e)) ==> r == (if e@ == "phx_error"@ {
            IncomingAction::Stop
        } else {
            IncomingAction::Forward
        }),
        frame matches SocketFrame::Text(None) ==> r == IncomingAction::Skip,
        !(frame is Text) ==> r == IncomingAction::Stop,
{
    match frame {
        SocketFrame::Text(Some(event)) => {
            let error_event = String::from_str("phx_error");
            proof {
                reveal_strlit("phx_error");
            }
            if *event == error_event {
                IncomingAction::Stop
            } else {
                IncomingAction::Forward
            }
        },
        SocketFrame::Text(None) => IncomingAction::Skip,
        _ => IncomingAction::Stop,
    }
}

/// What the supervisor does after a failed reconnection attempt.
#[derive(Debug, PartialEq, Eq)]
pub enum RetryAction {
    /// Wait this long, then try again.
    RetryAfter(Duration),
    /// Stop trying.
    GiveUp,
}

/// After a failed reconnection attempt the supervisor waits for the next
/// backoff interval and tries again, or gives up when the backoff has none.
pub fn after_failed_connect(next_backoff: Option<Duration>) -> (r: RetryAction)
    ensures
        next_backoff matches Some(d) ==> r == RetryAction::RetryAfter(d),
        next_backoff is None ==> r == RetryAction::GiveUp,
{
    match next_backoff {
        Some(d) => RetryAction::RetryAfter(d),
        None => RetryAction::GiveUp,
    }
}

/// Whether the supervisor reconnects after a connection ended: only if the
/// connection ended cleanly and nobody cancelled the socket.
pub fn should_reconnect(ended_cleanly: bool, cancelled: bool) -> (r: bool)
    ensures
        r == (ended_cleanly && !cancelled),
{
    ended_cleanly && !cancelled
}

} // verus!
