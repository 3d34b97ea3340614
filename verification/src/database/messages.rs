//! The stored form of scheduled messages.

use vstd::prelude::*;
use crate::schedule::Moment;

verus! {

/// A scheduled message as it is inserted into the `messages` table.
#[derive(Debug)]
pub struct InputMessagesEntity {
    pub message: String,
    pub send_at: Moment,
}

} // verus!
