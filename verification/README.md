# backend

The verified core of the TrendCart affiliate-commerce backend, written in
Verus. `src/` holds the request rules of the service with their contracts:
validation of every request body, the answer each error gets, the session
cookies and token handling, ownership checks, pagination, rate limiting, the
scraper registry and the job worker's decisions. `app/` is the HTTP server
around it (axum, PostgreSQL through sqlx, Redis through fred, OAuth calls
through reqwest, JWT signing, image encoding), which hands the library plain
values and acts on what it returns.

Modules of `src/`:

- `text`: trimming, comparison and search on character sequences, decimal text.
- `error`: the error type, its HTTP status, code and public message; database failures.
- `cookies`: `Set-Cookie` values and the parsing of `Cookie` / `Authorization` headers.
- `jwt`, `ids`: token claims and expiry; UUIDs as 128-bit values.
- `auth`: registration, password checks, refresh-token sessions, GitHub e-mail choice.
- `access`, `products`, `merchant_links`, `conversions`, `scrape`: the catalogue rules.
- `pagination`, `cache`, `redirect`, `store`, `upload`, `registry`.
