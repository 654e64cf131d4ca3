# twitter_stream

A library for listening on the Twitter Streaming API, verified with Verus.

The library (`src/`) holds the logic, each function with a contract that Verus proves:

- `builder`: the request of `Builder` — which endpoint the parameters call for
  (`POST statuses/filter` when `follow`, `track` or `locations` is set, `GET statuses/sample`
  otherwise), and the signed query string or form body that carries the parameters.
- `stream_builder`: `TwitterStreamBuilder`, whose endpoint and method are chosen by hand and
  whose parameters are sent whenever they are set.
- `oauth`: a query builder over the OAuth 1.0 signer of `oauth1-request`; parameters are
  appended in ascending key order and percent-encoded, and the `Authorization` header carries
  the HMAC-SHA1 signature of the method, the URI and every parameter under the secrets.
- `lines`, `crlf_lines`: splitting the response body into CRLF-delimited lines, with laws that
  no byte is lost and that the lines are those of the body.
- `listen`: whether a response is accepted and gzip-compressed, and which lines are messages
  (blank keep-alive lines are skipped; messages are valid UTF-8).
- `json`, `message`: the messages of the stream read from JSON values: Tweets (with their
  users, entities, places and the Tweets they quote or retweet), events, direct messages,
  lists, deletions, limits, warnings, disconnects, geometries and the envelopes of Site
  Streams. Records are read with the rules of `message::record`: each member of a known
  name is checked as it comes, a member may appear once, optional members may be missing.
- `datetime`: the dates of the API, read with chrono.
- `text`, `timeout`, `service`: decimal text and joined lists, the timeout decision of a stream,
  and the client wrapper.

`app/` is the transport around it, which Verus does not see: the HTTP client and the response
body, gzip decompression, JSON text, bounding boxes with floating-point coordinates, and the
error type with its `Display` and `Error` impls.
