//! Records exchanged with the external status-update collaborator.

use vstd::prelude::*;

verus! {

/// A member's status-update streaks: the streak running now and the
/// longest one on record. Absent when the member has no history.
#[derive(Debug)]
pub struct StatusUpdateStreakRecord {
    pub current_streak: Option<i64>,
    pub max_streak: Option<i64>,
}

} // verus!
