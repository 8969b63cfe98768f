# extauthz_cfzt

The decision core of an Envoy external authorization service for Cloudflare
Zero Trust, written in Verus.

`src/` is the verified library:

- `text`: Unicode white space, first line and word splitting, substring
  search, decimal rendering, UTF-8 byte length.
- `health`, `health_server`: readiness state and the answers of the
  readiness, liveness and metrics endpoints.
- `server`: listen address parsing, the metrics endpoint, and the decision
  on an authorization check request.
- `sockets`, `schema`: the configuration and where its listener URL says to
  listen.
- `request`: reading token claims into a user or service principal.
- `discovery`: choice of the audience provider from its settings.
- `sync`: start-up and key-synchronization outcomes, and readiness.

`app/` is the program around it: command line, sockets, gRPC, the
scheduler, metrics registration and environment variables.
