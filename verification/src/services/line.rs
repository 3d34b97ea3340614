//! The LINE messaging service.

pub mod message;
