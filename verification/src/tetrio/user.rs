//! A single player as the service describes them.

use crate::tetrio::leaderboard::LeaderboardUser;
use vstd::prelude::*;

verus! {

/// The service's answer about one player. It holds the same record that the
/// league table holds for them.
#[derive(Debug, PartialEq, Eq)]
pub struct UserData {
    /// The player asked for.
    pub user: LeaderboardUser,
}

} // verus!
