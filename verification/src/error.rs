//! The errors of the library.
use vstd::prelude::*;

verus! {

#[verifier::external_type_specification]
#[verifier::external_body]
pub struct ExGraphqlError(graphql_client::Error);

#[verifier::external_type_specification]
#[verifier::external_body]
pub struct ExAnyhowError(anyhow::Error);

/// Errors that can occur when interacting with the Glimesh API.
#[derive(Debug)]
pub enum GlimeshError {
    /// A list of errors returned by graphql.
    /// This is guaranteed to always have at least one error.
    GraphqlErrors(Vec<graphql_client::Error>),
    /// The graphql response contained no errors, but null data.
    NoData,
}

/// Errors that can occur obtaining and refreshing access tokens.
#[derive(Debug)]
pub enum AuthError {
    /// A request returned a bad status code.
    BadStatus(u16),
    /// Attempted to refresh a token without having a redirect uri specified on the client.
    MissingRedirect,
    /// Attempted to refresh a token but the refresh_token was None.
    MissingRefreshToken,
    /// Some other error occurred.
    Unknown(anyhow::Error),
}

/// Errors that can occur using the http based connection.
#[derive(Debug)]
pub enum HttpConnectionError {
    /// A glimesh error ocurred.
    Glimesh(GlimeshError),
    /// An auth error ocurred.
    Auth(AuthError),
    /// A request returned a bad status code.
    BadStatus(u16),
    /// Some other error occurred.
    Unknown(anyhow::Error),
}

impl From<anyhow::Error> for AuthError {
    fn from(e: anyhow::Error) -> (r: Self)
        ensures
            r == AuthError::Unknown(e),
    {
        AuthError::Unknown(e)
    }
}

impl vstd::std_specs::convert::FromSpecImpl<anyhow::Error> for AuthError {
    open spec fn obeys_from_spec() -> bool {
        true
    }

    open spec fn from_spec(e: anyhow::Error) -> Self {
        AuthError::Unknown(e)
    }
}

impl From<GlimeshError> for HttpConnectionError {
    fn from(e: GlimeshError) -> (r: Self)
        ensures
            r == HttpConnectionError::Glimesh(e),
    {
        HttpConnectionError::Glimesh(e)
    }
}

impl vstd::std_specs::convert::FromSpecImpl<GlimeshError> for HttpConnectionError {
    open spec fn obeys_from_spec() -> bool {
        true
    }

    open spec fn from_spec(e: GlimeshError) -> Self {
        HttpConnectionError::Glimesh(e)
    }
}

impl From<AuthError> for HttpConnectionError {
    fn from(e: AuthError) -> (r: Self)
        ensures
            r == HttpConnectionError::Auth(e),
    {
        HttpConnectionError::Auth(e)
    }
}

impl vstd::std_specs::convert::FromSpecImpl<AuthError> for HttpConnectionError {
    open spec fn obeys_from_spec() -> bool {
        true
    }

    open spec fn from_spec(e: AuthError) -> Self {
        HttpConnectionError::Auth(e)
    }
}

impl From<anyhow::Error> for HttpConnectionError {
    fn from(e: anyhow::Error) -> (r: Self)
        ensures
            r == HttpConnectionError::Unknown(e),
    {
        HttpConnectionError::Unknown(e)
    }
}

impl vstd::std_specs::convert::FromSpecImpl<anyhow::Error> for HttpConnectionError {
    open spec fn obeys_from_spec() -> bool {
        true
    }

    open spec fn from_spec(e: anyhow::Error) -> Self {
        HttpConnectionError::Unknown(e)
    }
}

} // verus!
