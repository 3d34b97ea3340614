//! The LINE message types under their short path.

pub use crate::services::line::message::{LineMessageKind, LineSendMessage, LineSender, ScheduledMessage};
