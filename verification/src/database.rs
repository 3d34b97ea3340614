//! Records kept in the database.

pub mod messages;
