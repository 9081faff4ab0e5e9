//! The league table: every ranked player with their league statistics.

use crate::measure::Measure;
use vstd::prelude::*;

verus! {

/// A player's league statistics. The optional values are absent for a
/// player who has not played enough ranked games.
#[derive(Debug, PartialEq, Eq)]
pub struct LeagueData {
    pub gamesplayed: i64,
    pub gameswon: i64,
    pub rating: Measure,
    /// The rank's lower-case code.
    pub rank: String,
    pub glicko: Option<Measure>,
    /// The rating deviation.
    pub rd: Option<Measure>,
    pub apm: Option<Measure>,
    pub pps: Option<Measure>,
    pub vs: Option<Measure>,
}

/// The mathematical content of a [`LeagueData`].
pub struct LeagueDataView {
    pub gamesplayed: i64,
    pub gameswon: i64,
    pub rating: Measure,
    pub rank: Seq<char>,
    pub glicko: Option<Measure>,
    pub rd: Option<Measure>,
    pub apm: Option<Measure>,
    pub pps: Option<Measure>,
    pub vs: Option<Measure>,
}

impl View for LeagueData {
    type V = LeagueDataView;

    open spec fn view(&self) -> LeagueDataView {
        LeagueDataView {
            gamesplayed: self.gamesplayed,
            gameswon: self.gameswon,
            rating: self.rating,
            rank: self.rank@,
            glicko: self.glicko,
            rd: self.rd,
            apm: self.apm,
            pps: self.pps,
            vs: self.vs,
        }
    }
}

impl Clone for LeagueData {
    fn clone(&self) -> (r: Self)
        ensures
            r == *self,
    {
        LeagueData {
            gamesplayed: self.gamesplayed,
            gameswon: self.gameswon,
            rating: self.rating,
            rank: self.rank.clone(),
            glicko: self.glicko,
            rd: self.rd,
            apm: self.apm,
            pps: self.pps,
            vs: self.vs,
        }
    }
}

/// A player as the league table lists them.
#[derive(Debug, PartialEq, Eq)]
pub struct LeaderboardUser {
    /// The account's identifier, which never changes.
    pub _id: String,
    /// The account's name, which its owner may change.
    pub username: String,
    pub role: String,
    pub country: Option<String>,
    pub supporter: Option<bool>,
    pub verified: bool,
    pub league: LeagueData,
}

/// The mathematical content of a [`LeaderboardUser`].
pub struct LeaderboardUserView {
    pub _id: Seq<char>,
    pub username: Seq<char>,
    pub role: Seq<char>,
    pub country: Option<Seq<char>>,
    pub supporter: Option<bool>,
    pub verified: bool,
    pub league: LeagueDataView,
}

impl View for LeaderboardUser {
    type V = LeaderboardUserView;

    open spec fn view(&self) -> LeaderboardUserView {
        LeaderboardUserView {
            _id: self._id@,
            username: self.username@,
            role: self.role@,
            country: match self.country {
                Some(country) => Some(country@),
                None => None,
            },
            supporter: self.supporter,
            verified: self.verified,
            league: self.league@,
        }
    }
}

impl Clone for LeaderboardUser {
    fn clone(&self) -> (r: Self)
        ensures
            r == *self,
    {
        LeaderboardUser {
            _id: self._id.clone(),
            username: self.username.clone(),
            role: self.role.clone(),
            country: match &self.country {
                Some(country) => Some(country.clone()),
                None => None,
            },
            supporter: self.supporter,
            verified: self.verified,
            league: self.league.clone(),
        }
    }
}

/// The mathematical content of a list of players.
pub open spec fn users_view(users: Seq<LeaderboardUser>) -> Seq<LeaderboardUserView> {
    Seq::new(users.len(), |i: int| users[i]@)
}

/// Copies a list of players.
pub fn clone_users(users: &Vec<LeaderboardUser>) -> (r: Vec<LeaderboardUser>)
    ensures
        r@ == users@,
{
    let mut copy: Vec<LeaderboardUser> = Vec::new();
    let mut i: usize = 0;
    while i < users.len()
        invariant
            i <= users.len(),
            copy@ == users@.subrange(0, i as int),
        decreases users.len() - i,
    {
        copy.push(users[i].clone());
        i = i + 1;
    }
    copy
}

/// The league table as the service sends it.
#[derive(Debug, PartialEq, Eq)]
pub struct LeaderboardData {
    pub users: Vec<LeaderboardUser>,
}

} // verus!
