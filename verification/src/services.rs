//! Services the server talks to.

pub mod line;
