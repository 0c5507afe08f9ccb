//! A connection that uses one connection for queries and mutations and
//! another for subscriptions.
use vstd::prelude::*;
use crate::client::Client;

verus! {

/// A hybrid connection that combines two connections into one: the first for
/// querying and mutating, the second for subscriptions.
pub struct Connection<C, S> {
    query_conn: C,
    subscription_conn: S,
}

impl<C, S> Connection<C, S> {
    pub closed spec fn query_view(&self) -> C {
        self.query_conn
    }

    pub closed spec fn subscription_view(&self) -> S {
        self.subscription_conn
    }

    /// Create a new hybrid connection. The first connection will be used for
    /// query and mutate operations, and the second only for subscriptions.
    pub fn new(query_conn: C, subscription_conn: S) -> (r: Self)
        ensures
            r.query_view() == query_conn,
            r.subscription_view() == subscription_conn,
    {
        Connection { query_conn, subscription_conn }
    }

    /// The connection for queries and mutations.
    pub fn query_connection(&self) -> (r: &C)
        ensures
            *r == self.query_view(),
    {
        &self.query_conn
    }

    /// The connection for subscriptions.
    pub fn subscription_connection(&self) -> (r: &S)
        ensures
            *r == self.subscription_view(),
    {
        &self.subscription_conn
    }

    /// Create a client with reference to this connection.
    pub fn as_client(&self) -> (r: Client<&Self>)
        ensures
            *r.conn_view() == *self,
    {
        Client::new(self)
    }

    /// Convert this connection into a client.
    pub fn into_client(self) -> (r: Client<Self>)
        ensures
            r.conn_view() == self,
    {
        Client::new(self)
    }
}

impl<C: Clone, S: Clone> Clone for Connection<C, S> {
    fn clone(&self) -> (r: Self)
        ensures
            cloned(self.query_view(), r.query_view()),
            cloned(self.subscription_view(), r.subscription_view()),
    {
        Connection { query_conn: self.query_conn.clone(), subscription_conn: self.subscription_conn.clone() }
    }
}

impl<C: Clone, S: Clone> Connection<C, S> {
    /// Create a client with a clone of this connection.
    pub fn to_client(&self) -> (r: Client<Self>)
        ensures
            cloned(self.query_view(), r.conn_view().query_view()),
            cloned(self.subscription_view(), r.conn_view().subscription_view()),
    {
        Client::new(self.clone())
    }
}

} // verus!
