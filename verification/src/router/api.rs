//! The routes under the API prefix.

pub mod line;
