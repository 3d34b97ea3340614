//! Data that LINE sends to the server.

pub mod line_webhook;
