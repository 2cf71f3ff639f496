# io-gmail

I/O-free coroutines for the Gmail REST API, verified with Verus.

Each Gmail method is a coroutine: its constructor checks the arguments
and builds the request (method, path under
`https://gmail.googleapis.com/gmail/v1/`, query pairs, JSON body), and
`resume` is then called with the bytes read from the stream until it
completes with the response status and body. The HTTP/1.1 exchange is
io-http's; URL resolution is the url crate's; base64url is the base64
crate's.

Layout:

- `src/coroutine.rs`: the coroutine trait and its yield/state values.
- `src/v1/send.rs`: the exchange every method runs, the credential it
  carries, and how a response is classified.
- `src/v1/http.rs`: the io-http exchange underneath, with a record of
  the request it was handed and of every input it was fed.
- `src/v1/json.rs`, `src/v1/query.rs`, `src/text.rs`: JSON bodies, query
  pairs, and character-level helpers.
- `src/v1/rest/`: one file per Gmail method, mirroring the API tree;
  `src/drafts`, `src/history`, `src/labels`, `src/settings`: the first
  drafts API and the settings methods.
- `app/`: a blocking client that owns the stream and parses JSON
  responses with serde.
- `tests/`: request contents, wire bytes and response handling.
