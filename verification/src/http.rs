//! Connection over http(s).
use vstd::prelude::*;
use vstd::string::*;
use std::sync::Arc;
use std::time::Duration;
use crate::auth::{is_success, Auth};
use crate::client::Client;
use crate::error::{GlimeshError, HttpConnectionError};
use crate::text::IntoText;
use crate::transport::{duration_from_secs, http_client, seconds, valid_header_value, HttpClient};

verus! {

/// `Arc::clone`: another pointer to the same allocation, so the same value.
#[verifier::external_body]
fn share<T>(a: &Arc<T>) -> (r: Arc<T>)
    ensures
        r == *a,
{
    Arc::clone(a)
}

pub open spec fn default_user_agent() -> Seq<char> {
    "Glimesh Rust / 0.8.0"@
}

pub open spec fn default_api_url() -> Seq<char> {
    "https://glimesh.tv/api"@
}

/// Options of an http connection.
#[derive(Debug)]
pub struct Config {
    pub user_agent: String,
    pub timeout: Duration,
    pub api_url: String,
}

impl Default for Config {
    fn default() -> (c: Self)
        ensures
            c.user_agent@ == default_user_agent(),
            c.timeout == duration_from_secs(30),
            c.api_url@ == default_api_url(),
    {
        Config {
            user_agent: String::from_str("Glimesh Rust / 0.8.0"),
            timeout: seconds(30),
            api_url: String::from_str("https://glimesh.tv/api"),
        }
    }
}

/// Configure and build an http [`Connection`].
#[derive(Debug)]
pub struct ConnectionBuilder {
    config: Config,
}

impl Default for ConnectionBuilder {
    fn default() -> (b: Self)
        ensures
            b.config_view().user_agent@ == default_user_agent(),
            b.config_view().timeout == duration_from_secs(30),
            b.config_view().api_url@ == default_api_url(),
    {
        ConnectionBuilder { config: Config::default() }
    }
}

impl ConnectionBuilder {
    pub closed spec fn config_view(&self) -> Config {
        self.config
    }

    /// Build the http connection from the set options. The user agent must be
    /// a valid header value (no control character but tab, no DEL).
    ///
    /// # Panics
    /// This function panics if the TLS backend cannot be initialized, or the
    /// resolver cannot load the system configuration.
    pub fn build(self, auth: Auth) -> (r: Connection)
        requires
            valid_header_value(self.config_view().user_agent@),
        ensures
            r.auth_view() == auth,
            r.api_url_view() == self.config_view().api_url@,
            r.http_view().user_agent_view() == Some(self.config_view().user_agent@),
            r.http_view().timeout_view() == Some(self.config_view().timeout),
    {
        let http = http_client(Some(self.config.user_agent), self.config.timeout);
        Connection { http, auth: Arc::new(auth), api_url: Arc::new(self.config.api_url) }
    }

    /// Set the user agent the http client will identify itself as.
    pub fn user_agent<S: IntoText>(self, value: S) -> (r: Self)
        ensures
            r.config_view().user_agent@ == value.text(),
            r.config_view().timeout == self.config_view().timeout,
            r.config_view().api_url == self.config_view().api_url,
    {
        let mut b = self;
        b.config.user_agent = value.into_text();
        b
    }

    /// Set the timeout for requests made to glimesh.
    pub fn timeout(self, value: Duration) -> (r: Self)
        ensures
            r.config_view().user_agent == self.config_view().user_agent,
            r.config_view().timeout == value,
            r.config_view().api_url == self.config_view().api_url,
    {
        let mut b = self;
        b.config.timeout = value;
        b
    }

    /// Set the base api url used for requests.
    pub fn api_url<S: IntoText>(self, value: S) -> (r: Self)
        ensures
            r.config_view().user_agent == self.config_view().user_agent,
            r.config_view().timeout == self.config_view().timeout,
            r.config_view().api_url@ == value.text(),
    {
        let mut b = self;
        b.config.api_url = value.into_text();
        b
    }
}

/// Connect to glimesh over http(s).
#[derive(Clone, Debug)]
pub struct Connection {
    http: HttpClient,
    auth: Arc<Auth>,
    api_url: Arc<String>,
}

impl Connection {
    pub closed spec fn auth_view(&self) -> Auth {
        *self.auth
    }

    pub closed spec fn api_url_view(&self) -> Seq<char> {
        self.api_url@
    }

    pub closed spec fn http_view(&self) -> HttpClient {
        self.http
    }

    /// Create a [`ConnectionBuilder`] to configure various options.
    pub fn builder() -> (b: ConnectionBuilder)
        ensures
            b.config_view().user_agent@ == default_user_agent(),
            b.config_view().timeout == duration_from_secs(30),
            b.config_view().api_url@ == default_api_url(),
    {
        ConnectionBuilder::default()
    }

    /// Create a connection with the default options.
    pub fn new(auth: Auth) -> (r: Self)
        ensures
            r.auth_view() == auth,
            r.api_url_view() == default_api_url(),
            r.http_view().user_agent_view() == Some(default_user_agent()),
            r.http_view().timeout_view() == Some(duration_from_secs(30)),
    {
        let b = ConnectionBuilder::default();
        proof {
            reveal_strlit("Glimesh Rust / 0.8.0");
            assert(valid_header_value(default_user_agent()));
        }
        b.build(auth)
    }

    /// A copy that shares the http client, authentication and url.
    fn duplicate(&self) -> (r: Self)
        ensures
            r.auth_view() == self.auth_view(),
            r.api_url_view() == self.api_url_view(),
            r.http_view().user_agent_view() == self.http_view().user_agent_view(),
            r.http_view().timeout_view() == self.http_view().timeout_view(),
    {
        Connection { http: self.http.clone(), auth: share(&self.auth), api_url: share(&self.api_url) }
    }

    /// Create a client with reference to this connection.
    pub fn as_client(&self) -> (r: Client<&Self>)
        ensures
            *r.conn_view() == *self,
    {
        Client::new(self)
    }

    /// Create a client with a clone of this connection.
    pub fn to_client(&self) -> (r: Client<Self>)
        ensures
            r.conn_view().auth_view() == self.auth_view(),
            r.conn_view().api_url_view() == self.api_url_view(),
            r.conn_view().http_view().user_agent_view() == self.http_view().user_agent_view(),
            r.conn_view().http_view().timeout_view() == self.http_view().timeout_view(),
    {
        Client::new(self.duplicate())
    }

    /// Convert this connection into a client.
    pub fn into_client(self) -> (r: Client<Self>)
        ensures
            r.conn_view() == self,
    {
        Client::new(self)
    }

    /// The http client requests are made with.
    pub fn http_client(&self) -> (r: &HttpClient)
        ensures
            *r == self.http_view(),
    {
        &self.http
    }

    /// The authentication method.
    pub fn auth(&self) -> (r: &Auth)
        ensures
            *r == self.auth_view(),
    {
        &self.auth
    }

    /// The url requests are posted to.
    pub fn api_url(&self) -> (r: &str)
        ensures
            r@ == self.api_url_view(),
    {
        self.api_url.as_str()
    }
}

/// How a request is authorized.
#[derive(Debug)]
pub enum Authorization {
    /// Set the `Authorization` header to this value.
    Header(String),
    /// Use bearer authentication with this token.
    Bearer(String),
    /// Obtain a token from the authentication method first, then use bearer
    /// authentication with it.
    FetchToken,
}

/// How a request made with `auth` is authorized: `Client-ID <id>` for a
/// client id, the given token for an access token, and a token to obtain for
/// the two refreshing methods.
pub fn authorization(auth: &Auth) -> (r: Authorization)
    ensures
        auth matches Auth::ClientId(id) ==> (r matches Authorization::Header(h) && h@ == "Client-ID "@ + id@),
        auth matches Auth::AccessToken(t) ==> (r matches Authorization::Bearer(b) && b@ == t@),
        auth is RefreshableAccessToken ==> r is FetchToken,
        auth is ClientCredentials ==> r is FetchToken,
{
    match auth {
        Auth::ClientId(client_id) => {
            let h = String::from_str("Client-ID ").concat(client_id.as_str());
            Authorization::Header(h)
        },
        Auth::AccessToken(token) => Authorization::Bearer(token.clone()),
        Auth::RefreshableAccessToken(_) => Authorization::FetchToken,
        Auth::ClientCredentials(_) => Authorization::FetchToken,
    }
}

/// Judges the status of the api's answer.
pub fn check_status(status: u16) -> (r: Result<(), HttpConnectionError>)
    ensures
        r is Ok <==> is_success(status),
        r matches Err(e) ==> e == HttpConnectionError::BadStatus(status),
{
    if 200 <= status && status < 300 {
        Ok(())
    } else {
        Err(HttpConnectionError::BadStatus(status))
    }
}

/// The outcome of a graphql response, given its errors and data.
pub open spec fn graphql_outcome_spec<D>(errors: Option<Vec<graphql_client::Error>>, data: Option<D>) -> Result<
    D,
    GlimeshError,
> {
    if errors is Some && errors->0@.len() > 0 {
        Err(GlimeshError::GraphqlErrors(errors->0))
    } else {
        match data {
            Some(d) => Ok(d),
            None => Err(GlimeshError::NoData),
        }
    }
}

/// Reads a graphql response: a non-empty error list is the error, otherwise
/// the data, which must be there.
pub fn graphql_outcome<D>(errors: Option<Vec<graphql_client::Error>>, data: Option<D>) -> (r: Result<D, GlimeshError>)
    ensures
        r == graphql_outcome_spec(errors, data),
        (errors is Some && errors->0@.len() > 0) ==> r == Err::<D, GlimeshError>(GlimeshError::GraphqlErrors(errors->0)),
        r == Err::<D, GlimeshError>(GlimeshError::NoData) ==> data is None,
{
    if let Some(errs) = errors {
        if errs.len() > 0 {
            return Err(GlimeshError::GraphqlErrors(errs));
        }
    }
    match data {
        Some(d) => Ok(d),
        None => Err(GlimeshError::NoData),
    }
}

/// A graphql answer is judged by its errors first: a non-empty error list is
/// the outcome whatever the data is; otherwise the data is the outcome, and
/// only a missing one is `NoData`.
pub proof fn law_graphql_errors_come_first<D>(errors: Option<Vec<graphql_client::Error>>, data: Option<D>)
    ensures
        (errors is Some && errors->0@.len() > 0) ==> graphql_outcome_spec(errors, data) == Err::<D, GlimeshError>(
            GlimeshError::GraphqlErrors(errors->0),
        ),
        (!(errors is Some && errors->0@.len() > 0) && data is Some) ==> graphql_outcome_spec(errors, data)
            == Ok::<D, GlimeshError>(data->0),
        graphql_outcome_spec(errors, data) == Err::<D, GlimeshError>(GlimeshError::NoData) ==> (data is None
            && !(errors is Some && errors->0@.len() > 0)),
        graphql_outcome_spec(errors, data) is Ok ==> data is Some,
{
}

} // verus!
