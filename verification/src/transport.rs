//! The http client that the token endpoint and the http connection use.
use vstd::prelude::*;
use std::time::Duration;

verus! {

/// The http client of `reqwest`, held in a struct that Verus does not look
/// into (`reqwest::Client` shares its name with this crate's `Client`, so it
/// is not declared to Verus directly). It is only carried to the code that
/// makes the requests; the settings it was built with are named below.
#[verifier::external_body]
#[derive(Debug)]
pub struct ReqwestClient {
    pub inner: reqwest::Client,
}

/// The `User-Agent` header that a built client sends, if one was set.
pub uninterp spec fn client_user_agent(c: ReqwestClient) -> Option<Seq<char>>;

/// The total request timeout of a built client, if one was set.
pub uninterp spec fn client_timeout(c: ReqwestClient) -> Option<Duration>;

/// The `User-Agent` header that a builder holds, if one was set.
pub uninterp spec fn builder_user_agent_setting(b: reqwest::ClientBuilder) -> Option<Seq<char>>;

/// The total request timeout that a builder holds, if one was set.
pub uninterp spec fn builder_timeout_setting(b: reqwest::ClientBuilder) -> Option<Duration>;

/// Whether a builder has recorded an error (which `build` then returns).
pub uninterp spec fn builder_failed(b: reqwest::ClientBuilder) -> bool;

/// A text that `http::HeaderValue` accepts: every byte is visible ASCII,
/// a space, a tab or part of a non-ASCII character (no control character
/// other than tab, no DEL).
pub open spec fn valid_header_value(s: Seq<char>) -> bool {
    forall|i: int| 0 <= i < s.len() ==> s[i] == '\t' || (32 <= (s[i] as u32) && (s[i] as u32) != 127)
}

/// Whether `s` is a valid header value, so can be a user agent.
pub fn is_valid_header_value(s: &str) -> (r: bool)
    ensures
        r == valid_header_value(s@),
{
    broadcast use vstd::string::axiom_spec_iter;
    let mut ok = true;
    for c in it: s.chars()
        invariant
            it.seq() == s@,
            ok == (forall|j: int| 0 <= j < it.index() ==> s@[j] == '\t' || (32 <= (s@[j] as u32) && (s@[j] as u32) != 127)),
    {
        let code = c as u32;
        if !(c == '\t' || (32 <= code && code != 127)) {
            ok = false;
        }
    }
    ok
}

impl Clone for ReqwestClient {
    /// `reqwest::Client::clone`: a handle on the same shared client, so with
    /// the same settings.
    #[verifier::external_body]
    fn clone(&self) -> (r: Self)
        ensures
            client_user_agent(r) == client_user_agent(*self),
            client_timeout(r) == client_timeout(*self),
    {
        ReqwestClient { inner: self.inner.clone() }
    }
}

/// An http client, with the settings it was built with.
#[derive(Debug)]
pub struct HttpClient {
    /// The client that makes the requests.
    pub client: ReqwestClient,
}

impl HttpClient {
    /// The user agent the client identifies itself as, if one was set.
    pub open spec fn user_agent_view(&self) -> Option<Seq<char>> {
        client_user_agent(self.client)
    }

    /// The timeout of the client's requests, if one was set.
    pub open spec fn timeout_view(&self) -> Option<Duration> {
        client_timeout(self.client)
    }
}

impl Clone for HttpClient {
    fn clone(&self) -> (r: Self)
        ensures
            r.user_agent_view() == self.user_agent_view(),
            r.timeout_view() == self.timeout_view(),
    {
        HttpClient { client: self.client.clone() }
    }
}

#[verifier::external_type_specification]
#[verifier::external_body]
pub struct ExReqwestClientBuilder(reqwest::ClientBuilder);

/// `Duration::clone`: `Duration` is `Copy`, its clone is the same value.
pub assume_specification[ <Duration as Clone>::clone ](d: &Duration) -> (r: Duration)
    ensures
        r == *d,
;

/// The duration of `secs` whole seconds.
pub uninterp spec fn duration_from_secs(secs: u64) -> Duration;

/// `Duration::from_secs`.
#[verifier::external_body]
pub fn seconds(secs: u64) -> (d: Duration)
    ensures
        d == duration_from_secs(secs),
{
    Duration::from_secs(secs)
}

/// `reqwest::Client::builder`: a builder with reqwest's defaults, which set
/// no user agent and no total timeout.
#[verifier::external_body]
fn client_builder() -> (b: reqwest::ClientBuilder)
    ensures
        builder_user_agent_setting(b) is None,
        builder_timeout_setting(b) is None,
        !builder_failed(b),
{
    reqwest::Client::builder()
}

/// `reqwest::ClientBuilder::user_agent`: with a valid header value, the
/// builder's `User-Agent` header becomes `user_agent`. (An invalid one would
/// be recorded as an error; it is excluded.)
#[verifier::external_body]
fn builder_user_agent(b: reqwest::ClientBuilder, user_agent: String) -> (r: reqwest::ClientBuilder)
    requires
        valid_header_value(user_agent@),
    ensures
        builder_user_agent_setting(r) == Some(user_agent@),
        builder_timeout_setting(r) == builder_timeout_setting(b),
        builder_failed(r) == builder_failed(b),
{
    b.user_agent(user_agent)
}

/// `reqwest::ClientBuilder::timeout`: the builder's total timeout becomes
/// `timeout`.
#[verifier::external_body]
fn builder_timeout(b: reqwest::ClientBuilder, timeout: Duration) -> (r: reqwest::ClientBuilder)
    ensures
        builder_timeout_setting(r) == Some(timeout),
        builder_user_agent_setting(r) == builder_user_agent_setting(b),
        builder_failed(r) == builder_failed(b),
{
    b.timeout(timeout)
}

/// `reqwest::ClientBuilder::build`: the client keeps the builder's headers
/// and total timeout. A builder that recorded an error is excluded. As
/// documented for the constructors that use it, this still panics when the
/// TLS backend cannot be initialized or the resolver cannot load the system
/// configuration: that depends on the machine, not on the arguments, so no
/// `requires` can exclude it.
#[verifier::external_body]
fn builder_build(b: reqwest::ClientBuilder) -> (r: ReqwestClient)
    requires
        !builder_failed(b),
    ensures
        client_user_agent(r) == builder_user_agent_setting(b),
        client_timeout(r) == builder_timeout_setting(b),
{
    ReqwestClient { inner: b.build().expect("failed to create http client") }
}

/// An http client with the given request timeout and, if given, user agent.
pub fn http_client(user_agent: Option<String>, timeout: Duration) -> (r: HttpClient)
    requires
        user_agent is Some ==> valid_header_value(user_agent->0@),
    ensures
        r.user_agent_view() == (match user_agent {
            Some(u) => Some(u@),
            None => None::<Seq<char>>,
        }),
        r.timeout_view() == Some(timeout),
{
    let b = client_builder();
    let b = match user_agent {
        Some(ua) => builder_user_agent(b, ua),
        None => b,
    };
    let b = builder_timeout(b, timeout);
    HttpClient { client: builder_build(b) }
}

} // verus!
