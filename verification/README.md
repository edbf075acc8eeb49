# gql_async_graphql

The request logic of a Cloudflare Worker that serves a flight log over GraphQL,
backed by Supabase (PostgREST for data, Supabase Auth for bearer tokens).

`src/` is the verified library:

- `config` — project URL normalization and the derived REST, issuer and JWKS URLs.
- `auth` — `Authorization` header parsing, JWT splitting and base64url decoding,
  claim checks (subject, expiry, issuer, audience).
- `signing` — key selection from a JWKS, the key-set cache, and what an RS256 or
  ES256 check needs; `der` converts JOSE ES256 signatures to DER.
- `http_client` — PostgREST URLs, headers and bodies, and how responses map to
  flights or errors.
- `models` — the flight records (fractional fields as `f64` bit patterns).
- `schema` — resolver decisions: paging bounds, 404 handling, error texts.
- `handler` — routing, the 8 KB body limit, and every reply's status, type and body.
- `text` — trimming, searching, case folding and decimal rendering on characters.

`app/` holds the Worker around it: environment access, `fetch` calls, Web Crypto,
JSON (de)serialization of the records, and the `async-graphql` schema.
