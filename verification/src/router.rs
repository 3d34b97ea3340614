//! What the server's routes decide.

pub mod api;
