# websocket-bridge

A simple reverse proxy server which accepts WebSocket connections and forwards
incoming frames to backend HTTP servers as POST requests. Each of those requests
carries a callback URL in its `x-ws-proxy-send` header. Whatever is posted to that
URL, by the backend or by anyone it shares the URL with, goes to the client as a
frame, for as long as the WebSocket exists.

```
[client] <---WebSocket--> [websocket-bridge] <---HTTP POST requests---> [backend HTTP server]
```

## Layout

- `src/` is the verified library. It decides what the server does and performs no
  I/O: handlers take requests apart and say what they are answered, and a session
  is a state machine that says what is to be done next for its connection.
  - `allowlist`, `fields`, `urls`: which backends a client may ask for.
  - `connections`, `ids`, `config`, `state`: what is known of the open connections.
  - `body`, `message`, `send`: requests to send a frame to a client.
  - `serve`: a connection from its first frame to the news of its end.
  - `reply`, `text`: what requests are answered, and strings in contracts.
  - `router`: which requests the server takes.
  - `laws`: what holds of all of this together.
- `app/` is the server around it: axum, reqwest and the command line.
- `tests/` runs the library.

Calls into other crates stand in `src/` behind functions whose contracts are
believed and not proved. Each says in its comment which function it calls and what
it claims of it.

## Running

The `--base-url` argument should match the publicly visible host name of the server;
callback URLs are made from it. `--allowlist`, which may be given more than once,
takes a regular expression for the URLs of backends that may be proxied to;
`--host-suffix-allowlist` takes the end of a host name as a plain string, which
stands for the regular expression `https://.*`, that string and `/.*`. Without
either, the server turns all clients down. `--cert` and `--key` are for TLS.

```
websocket-bridge \
    --address 0.0.0.0:9443 \
    --base-url https://bridge.example.com:9443 \
    --cert cert.pem --key key.pem \
    --allowlist 'https://backend\.example\.com/.*'
```

A client connects to `/connect` and names the URLs for its frames and for the end of
its connection in the query parameters `f` and `d`, or in the header fields
`x-ws-proxy-on-frame` and `x-ws-proxy-on-disconnect`.
