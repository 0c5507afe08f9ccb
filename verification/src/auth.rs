//! Authentication methods and the decisions around access tokens: when a
//! cached token may still be used, what the token endpoint is sent, and how
//! its answer is judged. The requests themselves are made by the caller.
use vstd::prelude::*;
use vstd::string::*;
use std::sync::Arc;
use crate::error::AuthError;
use crate::text::IntoText;
use crate::transport::{duration_from_secs, http_client, seconds, HttpClient};

verus! {

#[verifier::external_type_specification]
#[verifier::external_body]
pub struct ExRawRwLock(parking_lot::RawRwLock);

#[verifier::external_type_specification]
#[verifier::external_body]
#[verifier::reject_recursive_types(R)]
#[verifier::reject_recursive_types(T)]
pub struct ExLockApiRwLock<R, T: ?Sized>(parking_lot::lock_api::RwLock<R, T>);

/// Seconds before its expiry at which a token is no longer used.
pub const EXPIRY_BUFFER: i64 = 300;

/// The endpoint that hands out and refreshes tokens.
pub const TOKEN_URL: &'static str = "https://glimesh.tv/api/oauth/token";

/// The first second that `chrono::DateTime<Utc>` can hold
/// (`DateTime::<Utc>::MIN_UTC`), as a UNIX timestamp.
pub open spec fn min_timestamp() -> int {
    -8334601228800
}

/// The last second that `chrono::DateTime<Utc>` can hold
/// (`DateTime::<Utc>::MAX_UTC`), as a UNIX timestamp.
pub open spec fn max_timestamp() -> int {
    8210266876799
}

/// A point in time in UTC, as `chrono::DateTime<Utc>` holds it: seconds since
/// the UNIX epoch, and nanoseconds, where 1_000_000_000 and above mark a leap
/// second.
#[derive(Clone, Copy, Debug)]
pub struct Timestamp {
    pub secs: i64,
    pub nanos: u32,
}

/// A second count that `chrono::TimeDelta::seconds` accepts.
pub open spec fn seconds_in_range(d: int) -> bool {
    -(i64::MAX / 1000) <= d <= i64::MAX / 1000
}

impl Timestamp {
    /// The values that a `chrono::DateTime<Utc>` can take.
    pub open spec fn valid(self) -> bool {
        &&& min_timestamp() <= self.secs <= max_timestamp()
        &&& self.nanos < 2_000_000_000
        &&& self.nanos >= 1_000_000_000 ==> self.secs % 60 == 59
    }

    /// Whether `self` comes strictly after `other` (the order of `chrono::DateTime`).
    pub open spec fn is_after(self, other: Timestamp) -> bool {
        self.secs > other.secs || (self.secs == other.secs && self.nanos > other.nanos)
    }

    /// Whether `self` comes strictly after `other`.
    pub fn later_than(&self, other: &Timestamp) -> (r: bool)
        ensures
            r == self.is_after(*other),
    {
        self.secs > other.secs || (self.secs == other.secs && self.nanos > other.nanos)
    }
}

pub open spec fn timestamp_from(p: Option<(i64, u32)>) -> Option<Timestamp> {
    match p {
        Some(q) => Some(Timestamp { secs: q.0, nanos: q.1 }),
        None => None,
    }
}

#[verifier::external_type_specification]
#[verifier::external_body]
pub struct ExChronoParseError(chrono::ParseError);

/// The format of dates in the Glimesh api, for `chrono`'s `format` and
/// `parse`: the date, `T`, and the time to the second (`2021-08-24T18:30:05`).
pub const DATE_FORMAT: &'static str = "%FT%T";

pub open spec fn date_format() -> Seq<char> {
    "%FT%T"@
}

/// What `chrono::DateTime::<Utc>::format(fmt)` writes for the moment `(secs, nanos)`.
pub uninterp spec fn chrono_formatted(secs: i64, nanos: u32, fmt: Seq<char>) -> Seq<char>;

/// What `chrono::Utc.datetime_from_str(s, fmt)` reads from `s`: the moment as
/// seconds and nanoseconds, or `None` where it fails.
pub uninterp spec fn chrono_parsed(s: Seq<char>, fmt: Seq<char>) -> Option<(i64, u32)>;

/// `chrono::DateTime::<Utc>::format` with `fmt`, written out. The moment is one
/// that `DateTime<Utc>` holds; the format is the Glimesh one, whose items all
/// write (a format with an invalid item makes the writing panic).
#[verifier::external_body]
fn chrono_format(at: Timestamp, fmt: &str) -> (r: String)
    requires
        at.valid(),
        fmt@ == date_format(),
    ensures
        r@ == chrono_formatted(at.secs, at.nanos, fmt@),
{
    let t = chrono::DateTime::from_timestamp(at.secs, at.nanos).expect("a timestamp in the range of DateTime<Utc>");
    t.format(fmt).to_string()
}

/// `chrono::TimeZone::datetime_from_str` on `Utc`: the moment that `s` writes
/// in the format `fmt`, or chrono's parse error. A moment it reads is one that
/// `DateTime<Utc>` holds.
#[verifier::external_body]
#[allow(deprecated)]
fn chrono_parse(s: &str, fmt: &str) -> (r: Result<Timestamp, chrono::ParseError>)
    ensures
        r is Ok <==> chrono_parsed(s@, fmt@) is Some,
        r matches Ok(t) ==> Some(t) == timestamp_from(chrono_parsed(s@, fmt@)) && t.valid(),
{
    match chrono::TimeZone::datetime_from_str(&chrono::Utc, s, fmt) {
        Ok(d) => Ok(Timestamp { secs: d.timestamp(), nanos: d.timestamp_subsec_nanos() }),
        Err(e) => Err(e),
    }
}

/// A moment written in the Glimesh date format (to the second; a fraction is dropped).
pub fn format_glimesh_date(at: &Timestamp) -> (r: String)
    requires
        at.valid(),
    ensures
        r@ == chrono_formatted(at.secs, at.nanos, date_format()),
{
    proof {
        reveal_strlit("%FT%T");
    }
    chrono_format(*at, DATE_FORMAT)
}

/// The moment that a date in the Glimesh format stands for (in UTC), or the
/// error of the parser where `s` is not one.
pub fn parse_glimesh_date(s: &str) -> (r: Result<Timestamp, chrono::ParseError>)
    ensures
        r is Ok <==> chrono_parsed(s@, date_format()) is Some,
        r matches Ok(t) ==> Some(t) == timestamp_from(chrono_parsed(s@, date_format())) && t.valid(),
{
    proof {
        reveal_strlit("%FT%T");
    }
    chrono_parse(s, DATE_FORMAT)
}

/// `DateTime<Utc>::checked_add_signed(TimeDelta::seconds(delta))` at `(secs, nanos)`.
pub uninterp spec fn chrono_add_seconds(secs: i64, nanos: u32, delta: i64) -> Option<(i64, u32)>;

/// `DateTime<Utc>::checked_sub_signed(TimeDelta::seconds(delta))` at `(secs, nanos)`.
pub uninterp spec fn chrono_sub_seconds(secs: i64, nanos: u32, delta: i64) -> Option<(i64, u32)>;

/// `chrono::DateTime::<Utc>::checked_add_signed` of `delta` seconds. Outside a
/// leap second the source adds the seconds and keeps the fraction, and fails
/// exactly when the result leaves the range of `DateTime<Utc>`.
#[verifier::external_body]
fn add_seconds(at: Timestamp, delta: i64) -> (r: Option<Timestamp>)
    requires
        at.valid(),
        seconds_in_range(delta as int),
    ensures
        r == timestamp_from(chrono_add_seconds(at.secs, at.nanos, delta)),
        r matches Some(t) ==> t.valid(),
        at.nanos < 1_000_000_000 ==> (r is Some <==> min_timestamp() <= at.secs + delta <= max_timestamp()),
        (at.nanos < 1_000_000_000 && r is Some) ==> r->0.secs == at.secs + delta && r->0.nanos == at.nanos,
{
    match chrono::DateTime::from_timestamp(at.secs, at.nanos) {
        Some(t) => match t.checked_add_signed(chrono::TimeDelta::seconds(delta)) {
            Some(u) => Some(Timestamp { secs: u.timestamp(), nanos: u.timestamp_subsec_nanos() }),
            None => None,
        },
        None => None,
    }
}

/// `chrono::DateTime::<Utc>::checked_sub_signed` of `delta` seconds. Outside a
/// leap second the source subtracts the seconds and keeps the fraction, and
/// fails exactly when the result leaves the range of `DateTime<Utc>`.
#[verifier::external_body]
fn sub_seconds(at: Timestamp, delta: i64) -> (r: Option<Timestamp>)
    requires
        at.valid(),
        seconds_in_range(delta as int),
    ensures
        r == timestamp_from(chrono_sub_seconds(at.secs, at.nanos, delta)),
        r matches Some(t) ==> t.valid(),
        at.nanos < 1_000_000_000 ==> (r is Some <==> min_timestamp() <= at.secs - delta <= max_timestamp()),
        (at.nanos < 1_000_000_000 && r is Some) ==> r->0.secs == at.secs - delta && r->0.nanos == at.nanos,
{
    match chrono::DateTime::from_timestamp(at.secs, at.nanos) {
        Some(t) => match t.checked_sub_signed(chrono::TimeDelta::seconds(delta)) {
            Some(u) => Some(Timestamp { secs: u.timestamp(), nanos: u.timestamp_subsec_nanos() }),
            None => None,
        },
        None => None,
    }
}

/// An access token as the token endpoint hands it out.
#[derive(Clone, Debug)]
pub struct AccessToken {
    /// Glimesh access token
    pub access_token: String,
    /// Glimesh refresh token
    pub refresh_token: Option<String>,
    /// Time the token was created
    pub created_at: Timestamp,
    /// Seconds after the created_at time when the token expires.
    pub expires_in: i64,
    /// Space separated list of scopes the token has permission for.
    pub scope: Option<String>,
    /// Type of the token, usually `bearer`
    pub token_type: String,
}

/// The moment from which a token is refreshed rather than used: its expiry
/// less the buffer. `None` where the date arithmetic leaves the range of
/// `chrono` (where `chrono` panics).
pub open spec fn refresh_deadline(t: AccessToken) -> Option<Timestamp> {
    if !seconds_in_range(t.expires_in as int) {
        None
    } else {
        match timestamp_from(chrono_add_seconds(t.created_at.secs, t.created_at.nanos, t.expires_in)) {
            Some(e) => timestamp_from(chrono_sub_seconds(e.secs, e.nanos, EXPIRY_BUFFER)),
            None => None,
        }
    }
}

/// What to do for a token request, given the cached token.
#[derive(Debug)]
pub enum TokenChoice {
    /// The cached token is still good.
    Reuse(AccessToken),
    /// A new token has to be fetched.
    Refresh,
    /// The expiry of the cached token is out of `chrono`'s range.
    Overflow,
}

pub open spec fn token_choice(cached: Option<AccessToken>, now: Timestamp) -> TokenChoice {
    match cached {
        None => TokenChoice::Refresh,
        Some(t) => match refresh_deadline(t) {
            None => TokenChoice::Overflow,
            Some(d) => if d.is_after(now) {
                TokenChoice::Reuse(t)
            } else {
                TokenChoice::Refresh
            },
        },
    }
}

/// The refresh deadline of a token created outside a leap second: its
/// creation time plus its lifetime less `EXPIRY_BUFFER` seconds, when every
/// step stays in the range of `chrono`.
pub open spec fn plain_refresh_deadline(t: AccessToken) -> Option<Timestamp> {
    let expiry = t.created_at.secs + t.expires_in;
    let deadline = expiry - EXPIRY_BUFFER;
    if !seconds_in_range(t.expires_in as int) {
        None
    } else if !(min_timestamp() <= expiry <= max_timestamp()) {
        None
    } else if !(min_timestamp() <= deadline <= max_timestamp()) {
        None
    } else {
        Some(Timestamp { secs: deadline as i64, nanos: t.created_at.nanos })
    }
}

/// Decides whether the cached token (if any) is used or a new one fetched:
/// it is used while its expiry less `EXPIRY_BUFFER` seconds is after `now`.
pub fn choose_token(cached: Option<AccessToken>, now: &Timestamp) -> (r: TokenChoice)
    requires
        cached matches Some(t) ==> t.created_at.valid(),
    ensures
        r == token_choice(cached, *now),
        (cached is Some && cached->0.created_at.nanos < 1_000_000_000) ==> refresh_deadline(cached->0)
            == plain_refresh_deadline(cached->0),
{
    match cached {
        None => TokenChoice::Refresh,
        Some(t) => {
            if !(t.expires_in <= i64::MAX / 1000 && t.expires_in >= -(i64::MAX / 1000)) {
                return TokenChoice::Overflow;
            }
            match add_seconds(t.created_at, t.expires_in) {
                None => TokenChoice::Overflow,
                Some(expires_at) => match sub_seconds(expires_at, EXPIRY_BUFFER) {
                    None => TokenChoice::Overflow,
                    Some(deadline) => if deadline.later_than(now) {
                        TokenChoice::Reuse(t)
                    } else {
                        TokenChoice::Refresh
                    },
                },
            }
        },
    }
}

/// Staleness is for good: a token that is reused at some moment is reused at
/// every earlier moment, and one that is refreshed at some moment is
/// refreshed at every later moment.
pub proof fn law_token_staleness_is_monotone(t: AccessToken, earlier: Timestamp, later: Timestamp)
    requires
        later.is_after(earlier),
    ensures
        token_choice(Some(t), later) is Reuse ==> token_choice(Some(t), earlier) is Reuse,
        token_choice(Some(t), earlier) is Refresh ==> token_choice(Some(t), later) is Refresh,
{
}

/// Token requests in a row: with nothing cached a token is fetched; a cached
/// token is handed back itself, with no fetch, exactly while its expiry less
/// `EXPIRY_BUFFER` seconds is after the moment of the request. So once a call
/// has cached a token, later calls get that same token without a fetch until
/// it goes stale.
pub proof fn law_cached_token_reused_while_fresh(t: AccessToken, now: Timestamp)
    ensures
        token_choice(None, now) is Refresh,
        token_choice(Some(t), now) is Reuse ==> token_choice(Some(t), now) == TokenChoice::Reuse(t),
        token_choice(Some(t), now) is Reuse <==> (refresh_deadline(t) matches Some(d) && d.is_after(now)),
{
}

/// The credentials of a developer application.
#[derive(Clone, Debug)]
pub struct ClientConfig {
    /// Glimesh client id, used to obtain an access token
    pub client_id: String,
    /// Glimesh client secret, used to obtain an access token
    pub client_secret: String,
    /// The same redirect uri that the token was obtained with. Can be None for client_credentials.
    pub redirect_uri: Option<String>,
}

pub open spec fn pair_view(p: (String, String)) -> (Seq<char>, Seq<char>) {
    (p.0@, p.1@)
}

/// The fields of a form, by their characters.
pub open spec fn form_view(f: Seq<(String, String)>) -> Seq<(Seq<char>, Seq<char>)> {
    f.map_values(|p: (String, String)| pair_view(p))
}

/// The form that refreshes a token.
pub open spec fn refresh_fields(c: ClientConfig, redirect_uri: Seq<char>, refresh_token: Seq<char>) -> Seq<
    (Seq<char>, Seq<char>),
> {
    seq![
        ("grant_type"@, "refresh_token"@),
        ("client_id"@, c.client_id@),
        ("client_secret"@, c.client_secret@),
        ("redirect_uri"@, redirect_uri),
        ("refresh_token"@, refresh_token),
    ]
}

/// The form that asks for a token with the client credentials.
pub open spec fn client_credentials_fields(c: ClientConfig) -> Seq<(Seq<char>, Seq<char>)> {
    seq![
        ("grant_type"@, "client_credentials"@),
        ("client_id"@, c.client_id@),
        ("client_secret"@, c.client_secret@),
    ]
}

fn field(name: &str, value: &str) -> (r: (String, String))
    ensures
        r.0@ == name@,
        r.1@ == value@,
{
    (name.to_owned(), value.to_owned())
}

/// The form that refreshes a token, given the refresh token held now. Fails
/// with `MissingRefreshToken` when there is none, then with `MissingRedirect`
/// when the client has no redirect uri.
pub fn refresh_form(client: &ClientConfig, refresh_token: Option<String>) -> (r: Result<Vec<(String, String)>, AuthError>)
    ensures
        refresh_token is None ==> r matches Err(AuthError::MissingRefreshToken),
        (refresh_token is Some && client.redirect_uri is None) ==> r matches Err(AuthError::MissingRedirect),
        (refresh_token is Some && client.redirect_uri is Some) ==> (r matches Ok(f) && form_view(f@)
            == refresh_fields(*client, client.redirect_uri->0@, refresh_token->0@)),
{
    let refresh_token = match refresh_token {
        Some(t) => t,
        None => return Err(AuthError::MissingRefreshToken),
    };
    let redirect_uri = match &client.redirect_uri {
        Some(u) => u,
        None => return Err(AuthError::MissingRedirect),
    };
    let mut form = Vec::new();
    form.push(field("grant_type", "refresh_token"));
    form.push(field("client_id", client.client_id.as_str()));
    form.push(field("client_secret", client.client_secret.as_str()));
    form.push(field("redirect_uri", redirect_uri.as_str()));
    form.push(field("refresh_token", refresh_token.as_str()));
    proof {
        assert(form_view(form@) =~= refresh_fields(*client, redirect_uri@, refresh_token@));
    }
    Ok(form)
}

/// The form that asks for a token with the client credentials.
pub fn client_credentials_form(client: &ClientConfig) -> (r: Vec<(String, String)>)
    ensures
        form_view(r@) == client_credentials_fields(*client),
{
    let mut form = Vec::new();
    form.push(field("grant_type", "client_credentials"));
    form.push(field("client_id", client.client_id.as_str()));
    form.push(field("client_secret", client.client_secret.as_str()));
    proof {
        assert(form_view(form@) =~= client_credentials_fields(*client));
    }
    form
}

/// A status code in the success class (`reqwest::StatusCode::is_success`).
pub open spec fn is_success(status: u16) -> bool {
    200 <= status < 300
}

/// Judges the status of the token endpoint's answer.
pub fn check_token_status(status: u16) -> (r: Result<(), AuthError>)
    ensures
        r is Ok <==> is_success(status),
        r matches Err(e) ==> e == AuthError::BadStatus(status),
{
    if 200 <= status && status < 300 {
        Ok(())
    } else {
        Err(AuthError::BadStatus(status))
    }
}

/// A token cell shared between the clones of an authentication method.
pub type TokenCell = Arc<parking_lot::RwLock<AccessToken>>;

/// A cell for an optional token, shared between clones.
pub type OptionalTokenCell = Arc<parking_lot::RwLock<Option<AccessToken>>>;

/// The token a token cell was created holding. Later writes through the
/// lock do not change it: it names the cell's first contents only.
pub uninterp spec fn token_cell_initial(c: TokenCell) -> AccessToken;

/// What an optional token cell was created holding (see `token_cell_initial`).
pub uninterp spec fn optional_cell_initial(c: OptionalTokenCell) -> Option<AccessToken>;

/// `parking_lot::RwLock::new` holding the given token, shared through an
/// `Arc`: the lock starts out holding `token`.
#[verifier::external_body]
fn token_cell(token: AccessToken) -> (r: TokenCell)
    ensures
        token_cell_initial(r) == token,
{
    Arc::new(parking_lot::RwLock::new(token))
}

/// `parking_lot::RwLock::new` holding no token, shared through an `Arc`.
#[verifier::external_body]
fn empty_token_cell() -> (r: OptionalTokenCell)
    ensures
        optional_cell_initial(r) is None,
{
    Arc::new(parking_lot::RwLock::new(None))
}

/// Bearer authentication with a token that is refreshed when it nears expiry.
#[derive(Clone, Debug)]
pub struct RefreshableAccessToken {
    client: ClientConfig,
    access_token: TokenCell,
    http: HttpClient,
}

impl RefreshableAccessToken {
    pub closed spec fn config(&self) -> ClientConfig {
        self.client
    }

    /// The client credentials.
    pub fn client_config(&self) -> (r: &ClientConfig)
        ensures
            *r == self.config(),
    {
        &self.client
    }

    pub closed spec fn cell_view(&self) -> TokenCell {
        self.access_token
    }

    pub closed spec fn http_view(&self) -> HttpClient {
        self.http
    }

    /// The cell that holds the current token.
    pub fn token_cell(&self) -> (r: &TokenCell)
        ensures
            *r == self.cell_view(),
    {
        &self.access_token
    }

    /// The http client used to reach the token endpoint.
    pub fn http_client(&self) -> (r: &HttpClient)
        ensures
            *r == self.http_view(),
    {
        &self.http
    }
}

/// Bearer authentication through the client_credentials flow.
#[derive(Clone, Debug)]
pub struct ClientCredentials {
    client: ClientConfig,
    access_token: OptionalTokenCell,
    http: HttpClient,
}

impl ClientCredentials {
    pub closed spec fn config(&self) -> ClientConfig {
        self.client
    }

    /// The client credentials.
    pub fn client_config(&self) -> (r: &ClientConfig)
        ensures
            *r == self.config(),
    {
        &self.client
    }

    pub closed spec fn cell_view(&self) -> OptionalTokenCell {
        self.access_token
    }

    pub closed spec fn http_view(&self) -> HttpClient {
        self.http
    }

    /// The cell that holds the last token obtained, if any.
    pub fn token_cell(&self) -> (r: &OptionalTokenCell)
        ensures
            *r == self.cell_view(),
    {
        &self.access_token
    }

    /// The http client used to reach the token endpoint.
    pub fn http_client(&self) -> (r: &HttpClient)
        ensures
            *r == self.http_view(),
    {
        &self.http
    }
}

/// Authentication method.
#[derive(Clone, Debug)]
pub enum Auth {
    /// Use Client-ID authentication: read only access.
    ClientId(String),
    /// Use Bearer authentication with a token assumed to be valid.
    AccessToken(String),
    /// Use Bearer authentication, refreshing the token when it nears expiry.
    RefreshableAccessToken(RefreshableAccessToken),
    /// Use Bearer authentication via the client_credentials flow.
    ClientCredentials(ClientCredentials),
}

impl Auth {
    /// Use Client-ID authentication.
    pub fn client_id<S: IntoText>(client_id: S) -> (r: Self)
        ensures
            r matches Auth::ClientId(id) && id@ == client_id.text(),
    {
        Auth::ClientId(client_id.into_text())
    }

    /// Use Bearer authentication with the given token.
    pub fn access_token<S: IntoText>(access_token: S) -> (r: Self)
        ensures
            r matches Auth::AccessToken(t) && t@ == access_token.text(),
    {
        Auth::AccessToken(access_token.into_text())
    }

    /// Use Bearer authentication, refreshing `access_token` with the client
    /// credentials and redirect uri when it nears expiry. The http client that
    /// reaches the token endpoint times out after 30 seconds.
    ///
    /// # Panics
    /// This function panics if the TLS backend cannot be initialized, or the
    /// resolver cannot load the system configuration.
    pub fn refreshable_access_token<A: IntoText, B: IntoText, C: IntoText>(
        client_id: A,
        client_secret: B,
        redirect_uri: C,
        access_token: AccessToken,
    ) -> (r: Self)
        ensures
            r matches Auth::RefreshableAccessToken(t) && {
                &&& t.config().client_id@ == client_id.text()
                &&& t.config().client_secret@ == client_secret.text()
                &&& t.config().redirect_uri matches Some(u) && u@ == redirect_uri.text()
                &&& token_cell_initial(t.cell_view()) == access_token
                &&& t.http_view().timeout_view() == Some(duration_from_secs(30))
                &&& t.http_view().user_agent_view() is None
            },
    {
        let http = http_client(None, seconds(30));
        Auth::RefreshableAccessToken(
            RefreshableAccessToken {
                client: ClientConfig {
                    client_id: client_id.into_text(),
                    client_secret: client_secret.into_text(),
                    redirect_uri: Some(redirect_uri.into_text()),
                },
                access_token: token_cell(access_token),
                http,
            },
        )
    }

    /// Use Bearer authentication via the client_credentials flow. The http
    /// client that reaches the token endpoint times out after 30 seconds.
    ///
    /// # Panics
    /// This function panics if the TLS backend cannot be initialized, or the
    /// resolver cannot load the system configuration.
    pub fn client_credentials<A: IntoText, B: IntoText>(client_id: A, client_secret: B) -> (r: Self)
        ensures
            r matches Auth::ClientCredentials(t) && {
                &&& t.config().client_id@ == client_id.text()
                &&& t.config().client_secret@ == client_secret.text()
                &&& t.config().redirect_uri is None
                &&& optional_cell_initial(t.cell_view()) is None
                &&& t.http_view().timeout_view() == Some(duration_from_secs(30))
                &&& t.http_view().user_agent_view() is None
            },
    {
        let http = http_client(None, seconds(30));
        Auth::ClientCredentials(
            ClientCredentials {
                client: ClientConfig {
                    client_id: client_id.into_text(),
                    client_secret: client_secret.into_text(),
                    redirect_uri: None,
                },
                access_token: empty_token_cell(),
                http,
            },
        )
    }
}

} // verus!
