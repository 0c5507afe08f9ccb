# glimesh

A client for the [Glimesh](https://glimesh.tv) GraphQL API whose decisions are
verified with Verus.

- `src/` is the verified library: the Phoenix channel session (`protocol`),
  the text of Phoenix frames (`phoenix`), access tokens, the token endpoint and the Glimesh date
  format (`auth`), the http connection's authorization and answer handling (`http`),
  the websocket connection's options, url and loop decisions (`ws`), the
  hybrid connection (`hybrid`) and the client (`client`).
- `app/` performs the I/O around it: http requests with reqwest, the websocket
  tasks with tokio and async-tungstenite, JSON (de)serialization with serde,
  the clock, and the `QueryConn` / `MutationConn` / `SubscriptionConn` traits.
- `tests/` runs the library on concrete values.
