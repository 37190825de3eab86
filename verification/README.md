# webpush_accounts

An account and web-push notification service. The library in `src/` holds
what the service decides and computes, with Verus contracts:

- `reply`: the reply model (status, body, `user_id` cookie).
- `anyhow_response_error`: the handlers' error and the `500` reply that answers it.
- `json`: JSON text for bodies and payloads, over `serde_json`'s string literals.
- `handlers::user`: password hashing (bcrypt), the registration steps, account creation and login.
- `handlers::device`: login from a device.
- `handlers::push`: notification requests and the reply once the service has answered.
- `handlers::upload`: which uploads are accepted and where they are stored.
- `handlers::test`: the test route.

`app/` is the HTTP server (actix-web), the SQLite database (sqlx), the
notification client (reqwest) and the file writes. It takes from the
library the replies, the rows it inserts, the requests it sends and the
paths it writes to, and runs the queries, requests and writes themselves.
