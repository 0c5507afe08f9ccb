//! A client library for the [Glimesh](https://glimesh.tv) GraphQL API, with
//! its decisions verified.
//!
//! The library holds what the client decides: the Phoenix channel session
//! (`protocol`), the text of its frames (`phoenix`), when an access token may
//! be reused and what the token endpoint is sent (`auth`), how requests are
//! authorized and answers judged (`http`), the options and url of the
//! websocket connection and the decisions of its loops (`ws`), and the
//! client and connection types themselves. Sending and receiving is left to
//! the caller.
pub mod auth;
pub mod client;
pub mod error;
pub mod http;
pub mod hybrid;
pub mod phoenix;
pub mod protocol;
pub mod text;
pub mod transport;
pub mod ws;

pub use auth::{AccessToken, Auth, ClientConfig, ClientCredentials, RefreshableAccessToken, Timestamp};
pub use client::Client;
pub use error::{AuthError, GlimeshError, HttpConnectionError};
