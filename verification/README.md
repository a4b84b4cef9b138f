# ngrok

An ngrok agent library: configure tunnels and endpoints, start a session with
the ngrok service, and receive or forward the connections that reach them.

## Layout

- `src/` is the verified library (Verus). It holds everything that decides or
  computes: the tunnel and endpoint builders and the bind requests they
  produce, the wire messages, the session settings and the authentication
  request, error texts and codes, the PROXY protocol header reader and writer
  as state machines, the choice of upstream connection and TLS profile, the
  user-agent text, and PEM root certificates. Calls into outside crates
  (`url`, `serde_json`, `proxy-protocol`, `rustls-pemfile`, std's text
  functions) go through small trusted
  wrappers whose contracts are documented where they stand.
- `app/` is the asynchronous runtime around it: muxado sessions, TLS, RPC
  streams, the `AsyncRead`/`AsyncWrite` adapters, JSON (serde) copies of the
  wire types, and the agent that forwards connections. It hands plain values
  to the library and acts on what comes back.
- `tests/` exercises the library from outside.
