//! The client: a thin owner of a connection.
use vstd::prelude::*;

verus! {

/// Glimesh client, generic over its connection/transport. Queries,
/// mutations and subscriptions go through the connection it holds.
#[derive(Clone, Debug)]
pub struct Client<T> {
    conn: T,
}

impl<T> Client<T> {
    /// The connection that the client holds.
    pub closed spec fn conn_view(&self) -> T {
        self.conn
    }

    /// Create a new client from a connection.
    pub fn new(conn: T) -> (r: Self)
        ensures
            r.conn_view() == conn,
    {
        Client { conn }
    }

    /// Turn this client back into its underlying connection.
    pub fn into_connection(self) -> (r: T)
        ensures
            r == self.conn_view(),
    {
        self.conn
    }

    /// The underlying connection.
    pub fn connection(&self) -> (r: &T)
        ensures
            *r == self.conn_view(),
    {
        &self.conn
    }
}

} // verus!
