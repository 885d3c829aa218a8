# surreal_s3

The verified core of a SurrealDB module that talks to S3: get, put and delete
objects, pre-signed URIs, and multipart uploads.

- `src/` is the library, checked by Verus: the module's configuration and DNS
  set-up, the S3 client settings, the request planning of the HTTP transport,
  protocol negotiation, the error model with its conversions and texts, the
  expiry of pre-signed URIs, and the error mapping and part bookkeeping of the
  exported functions. `src/laws.rs` states the properties that span functions.
- `app/` is the module itself: the exported SurrealQL functions, the S3 SDK
  clients, the DNS resolver and the HTTP/TLS connections, all built on the
  library's decisions.
- `tests/` runs the library on concrete values.
