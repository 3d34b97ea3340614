# notification_server

A LINE notification server. The library under `src/` holds its logic, verified
with Verus:

- `auth`: the channel's RSA key pair, the channel JWT (claims, their JSON,
  signing through `jsonwebtoken`) and the request for a channel access token;
- `services::line::message` (also reachable as `message`): notifications,
  replies, their JSON and form bodies, and the requests that deliver them;
- `router::api::line`: what the webhook route does with each event;
- `schedule`: the queue of scheduled notifications and what one poll sends;
- `model::line_webhook`: the webhook body; `error`: errors, their status and text;
- `http`, `text`: request values, form encoding, JSON strings and numbers.

`app/` is the server around it: configuration, files, HTTP with `reqwest`,
PostgreSQL with `sqlx`, routing with `axum`, the background tasks on `tokio`,
and serde copies of the library's types.
