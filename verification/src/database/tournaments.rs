//! The tournament registry: at most one tournament is active at a time, and
//! players register for the active one if its restrictions admit them.

use crate::clock::now_millis;
use crate::database::players::laws::lemma_linked_record;
use crate::database::players::{
    fetched_view, find_discord, linked, table_applied, table_view, PlayerCollection, PlayerEntry,
    PlayerEntryView,
};
use crate::database::{DatabaseError, DatabaseErrorView, DatabaseResult};
use crate::measure::{Measure, MISSING_DEVIATION_BITS};
use crate::rank::Rank;
use crate::search::{
    first_true, is_first_true, lemma_first_true, lemma_first_true_is, lemma_first_true_none,
};
use crate::tetrio::leaderboard::{
    clone_users, users_view, LeaderboardData, LeaderboardUser, LeaderboardUserView,
};
use crate::tetrio::user::UserData;
use crate::tetrio::{CacheDataView, TetrioResponse};
use crate::text::str_eq;
use vstd::prelude::*;
use vstd::string::StringExecFns;

pub mod laws;

verus! {

/// Why a player was not registered, or not unregistered. The variants that
/// reject a player for their statistics carry the value found, the value
/// required and, where the statistics are those of the announcement day, the
/// time at which they were captured.
#[derive(Debug, PartialEq, Eq)]
#[allow(inconsistent_fields)]
pub enum RegistrationError {
    /// The player's rank today is more than one tier above the highest rank
    /// allowed.
    CurrentRankTooHigh { rank: Rank, expected: Rank },
    /// The player's rank on the announcement day was above the highest rank
    /// allowed.
    AnnouncementRankTooHigh { rank: Rank, expected: Rank, date: i64 },
    /// The player had played too few ranked games by the announcement day.
    NotEnoughGames { value: i64, expected: i64, date: i64 },
    /// The player's rating deviation on the announcement day was too high.
    RdTooHigh { value: Measure, expected: Measure, date: i64 },
    /// The player was not ranked on the announcement day.
    UnrankedOnAnnouncementDay(i64),
    /// No tournament is active.
    NoTournamentActive,
    /// Something needed was not given; the text names it.
    MissingArgument(String),
    /// The player registry failed.
    DatabaseError(DatabaseError),
    /// The player is registered already.
    AlreadyRegistered,
    /// The player is not registered.
    NotRegistered,
    /// The tournament has no statistics of the announcement day.
    SnapshotMissing,
}

/// The mathematical content of a [`RegistrationError`].
#[allow(inconsistent_fields)]
pub enum RegistrationErrorView {
    CurrentRankTooHigh { rank: Rank, expected: Rank },
    AnnouncementRankTooHigh { rank: Rank, expected: Rank, date: i64 },
    NotEnoughGames { value: i64, expected: i64, date: i64 },
    RdTooHigh { value: Measure, expected: Measure, date: i64 },
    UnrankedOnAnnouncementDay(i64),
    NoTournamentActive,
    MissingArgument(Seq<char>),
    DatabaseError(DatabaseErrorView),
    AlreadyRegistered,
    NotRegistered,
    SnapshotMissing,
}

impl View for RegistrationError {
    type V = RegistrationErrorView;

    open spec fn view(&self) -> RegistrationErrorView {
        match self {
            RegistrationError::CurrentRankTooHigh { rank, expected } =>
                RegistrationErrorView::CurrentRankTooHigh { rank: *rank, expected: *expected },
            RegistrationError::AnnouncementRankTooHigh { rank, expected, date } =>
                RegistrationErrorView::AnnouncementRankTooHigh {
                    rank: *rank,
                    expected: *expected,
                    date: *date,
                },
            RegistrationError::NotEnoughGames { value, expected, date } =>
                RegistrationErrorView::NotEnoughGames {
                    value: *value,
                    expected: *expected,
                    date: *date,
                },
            RegistrationError::RdTooHigh { value, expected, date } =>
                RegistrationErrorView::RdTooHigh {
                    value: *value,
                    expected: *expected,
                    date: *date,
                },
            RegistrationError::UnrankedOnAnnouncementDay(date) =>
                RegistrationErrorView::UnrankedOnAnnouncementDay(*date),
            RegistrationError::NoTournamentActive => RegistrationErrorView::NoTournamentActive,
            RegistrationError::MissingArgument(what) => RegistrationErrorView::MissingArgument(
                what@,
            ),
            RegistrationError::DatabaseError(error) => RegistrationErrorView::DatabaseError(
                error@,
            ),
            RegistrationError::AlreadyRegistered => RegistrationErrorView::AlreadyRegistered,
            RegistrationError::NotRegistered => RegistrationErrorView::NotRegistered,
            RegistrationError::SnapshotMissing => RegistrationErrorView::SnapshotMissing,
        }
    }
}

/// The result of an eligibility check or a removal.
pub type RegistrationResult = Result<(), RegistrationError>;

/// The mathematical content of a [`RegistrationResult`].
pub open spec fn registration_result_view(r: RegistrationResult) -> Result<
    (),
    RegistrationErrorView,
> {
    match r {
        Ok(_) => Ok(()),
        Err(error) => Err(error@),
    }
}

/// The mathematical content of a registration's result.
pub open spec fn registered_result_view(r: Result<PlayerEntry, RegistrationError>) -> Result<
    PlayerEntryView,
    RegistrationErrorView,
> {
    match r {
        Ok(entry) => Ok(entry@),
        Err(error) => Err(error@),
    }
}

/// What a tournament asks of the players who register.
#[derive(Clone, Copy, Debug, PartialEq, Eq, Structural)]
pub struct TournamentRestrictions {
    /// The highest rank allowed on the announcement day. The rank on the day
    /// of registration may be one tier higher.
    pub max_rank: Rank,
    /// The highest rating deviation allowed on the announcement day.
    pub max_rd: Measure,
    /// The least number of ranked games played by the announcement day.
    pub min_ranked_games: i64,
}

impl TournamentRestrictions {
    /// Restrictions with the given limits.
    pub fn new(max_rank: Rank, max_rd: Measure, min_ranked_games: i64) -> (r:
        TournamentRestrictions)
        ensures
            r == (TournamentRestrictions { max_rank, max_rd, min_ranked_games }),
    {
        TournamentRestrictions { max_rank, max_rd, min_ranked_games }
    }
}

impl Default for TournamentRestrictions {
    /// Restrictions that admit unranked players only: the highest rank
    /// allowed is `Unranked`, the highest rating deviation 999, and no games
    /// are asked for.
    fn default() -> (r: Self)
        ensures
            r == (TournamentRestrictions {
                max_rank: Rank::Unranked,
                max_rd: Measure { bits: MISSING_DEVIATION_BITS },
                min_ranked_games: 0,
            }),
    {
        TournamentRestrictions::new(Rank::Unranked, Measure::missing_deviation(), 0)
    }
}

/// One registration for a tournament.
#[derive(Debug, PartialEq, Eq)]
pub struct RegistrationEntry {
    /// When the player registered, in milliseconds since the Unix epoch.
    pub date: i64,
    /// The game account that registered.
    pub tetrio_id: String,
}

/// The mathematical content of a [`RegistrationEntry`].
pub struct RegistrationEntryView {
    pub date: i64,
    pub tetrio_id: Seq<char>,
}

impl View for RegistrationEntry {
    type V = RegistrationEntryView;

    open spec fn view(&self) -> RegistrationEntryView {
        RegistrationEntryView { date: self.date, tetrio_id: self.tetrio_id@ }
    }
}

/// The mathematical content of a list of registrations.
pub open spec fn registrations_view(list: Seq<RegistrationEntry>) -> Seq<RegistrationEntryView> {
    Seq::new(list.len(), |i: int| list[i]@)
}

impl Clone for RegistrationEntry {
    fn clone(&self) -> (r: Self)
        ensures
            r == *self,
    {
        RegistrationEntry { date: self.date, tetrio_id: self.tetrio_id.clone() }
    }
}

impl RegistrationEntry {
    /// A registration made at the time `now`.
    pub fn new_at(tetrio_id: &str, now: i64) -> (r: RegistrationEntry)
        ensures
            r@ == (RegistrationEntryView { date: now, tetrio_id: tetrio_id@ }),
    {
        RegistrationEntry { date: now, tetrio_id: tetrio_id.to_owned() }
    }

    /// A registration made now, by the system clock.
    pub fn new(tetrio_id: &str) -> (r: RegistrationEntry)
        ensures
            r@.tetrio_id == tetrio_id@,
            r@.date >= 0,
    {
        let now: i64 = now_millis();
        RegistrationEntry::new_at(tetrio_id, now)
    }
}

/// A record of the tournament registry.
#[derive(Debug, PartialEq, Eq)]
pub struct TournamentEntry {
    /// The tournament's name; no two tournaments share one.
    pub name: String,
    /// The tournament's abbreviation; no two tournaments share one.
    pub shorthand: String,
    /// When the record was created, in milliseconds since the Unix epoch.
    pub created_at: i64,
    /// What the tournament asks of its players.
    pub restrictions: TournamentRestrictions,
    /// The registrations in the order in which they were made.
    pub registered_players: Vec<RegistrationEntry>,
    /// The league table of the announcement day.
    pub player_stats_snapshot: Vec<LeaderboardUser>,
    /// When that league table was captured; none while there is no capture.
    pub snapshot_at: Option<i64>,
    /// Whether the tournament is the active one.
    pub active: bool,
    /// The chat message at which players check in.
    pub check_in_msg: Option<u64>,
}

/// The mathematical content of a [`TournamentEntry`].
pub struct TournamentEntryView {
    pub name: Seq<char>,
    pub shorthand: Seq<char>,
    pub created_at: i64,
    pub restrictions: TournamentRestrictions,
    pub registered_players: Seq<RegistrationEntryView>,
    pub player_stats_snapshot: Seq<LeaderboardUserView>,
    pub snapshot_at: Option<i64>,
    pub active: bool,
    pub check_in_msg: Option<u64>,
}

impl View for TournamentEntry {
    type V = TournamentEntryView;

    open spec fn view(&self) -> TournamentEntryView {
        TournamentEntryView {
            name: self.name@,
            shorthand: self.shorthand@,
            created_at: self.created_at,
            restrictions: self.restrictions,
            registered_players: registrations_view(self.registered_players@),
            player_stats_snapshot: users_view(self.player_stats_snapshot@),
            snapshot_at: self.snapshot_at,
            active: self.active,
            check_in_msg: self.check_in_msg,
        }
    }
}

/// Copies a list of registrations.
fn clone_registrations(list: &Vec<RegistrationEntry>) -> (r: Vec<RegistrationEntry>)
    ensures
        r@ == list@,
{
    let mut copy: Vec<RegistrationEntry> = Vec::new();
    let mut i: usize = 0;
    while i < list.len()
        invariant
            i <= list.len(),
            copy@ == list@.subrange(0, i as int),
        decreases list.len() - i,
    {
        copy.push(list[i].clone());
        i = i + 1;
    }
    copy
}

/// Whether no game account occurs twice in a list of registrations.
pub fn registrations_are_distinct(list: &Vec<RegistrationEntry>) -> (r: bool)
    ensures
        r == registrations_wf(registrations_view(list@)),
{
    let ghost view = registrations_view(list@);
    let mut j: usize = 0;
    while j < list.len()
        invariant
            j <= list.len(),
            view == registrations_view(list@),
            forall|a: int, b: int|
                0 <= a < b < j ==> (#[trigger] view[a]).tetrio_id != (#[trigger] view[b]).tetrio_id,
        decreases list.len() - j,
    {
        let mut i: usize = 0;
        while i < j
            invariant
                i <= j < list.len(),
                view == registrations_view(list@),
                forall|a: int|
                    0 <= a < i ==> (#[trigger] view[a]).tetrio_id != view[j as int].tetrio_id,
            decreases j - i,
        {
            if str_eq(list[i].tetrio_id.as_str(), list[j].tetrio_id.as_str()) {
                assert(view[i as int].tetrio_id == view[j as int].tetrio_id);
                return false;
            }
            i = i + 1;
        }
        j = j + 1;
    }
    true
}

impl Clone for TournamentEntry {
    fn clone(&self) -> (r: Self)
        ensures
            r@ == self@,
    {
        TournamentEntry {
            name: self.name.clone(),
            shorthand: self.shorthand.clone(),
            created_at: self.created_at,
            restrictions: self.restrictions,
            registered_players: clone_registrations(&self.registered_players),
            player_stats_snapshot: clone_users(&self.player_stats_snapshot),
            snapshot_at: self.snapshot_at,
            active: self.active,
            check_in_msg: self.check_in_msg,
        }
    }
}

/// For each player of a league table, whether they are the game account
/// `id`.
pub open spec fn listed_as(table: Seq<LeaderboardUserView>, id: Seq<char>) -> Seq<bool> {
    Seq::new(table.len(), |i: int| table[i]._id == id)
}

/// For each registration, whether it is that of the game account `id`.
pub open spec fn registered_as(list: Seq<RegistrationEntryView>, id: Seq<char>) -> Seq<bool> {
    Seq::new(list.len(), |i: int| list[i].tetrio_id == id)
}

/// Whether the game account `id` is among the registrations.
pub open spec fn is_registered(list: Seq<RegistrationEntryView>, id: Seq<char>) -> bool {
    first_true(registered_as(list, id)) is Some
}

/// The rating deviation that the rules go by: the one recorded, or 999
/// where none is recorded.
pub open spec fn deviation_of(rd: Option<Measure>) -> Measure {
    match rd {
        Some(value) => value,
        None => Measure { bits: MISSING_DEVIATION_BITS },
    }
}

/// Whether a player may register, and if not, why not.
///
/// `table` is the league table of the announcement day, captured at
/// `captured_at`, and `current` is the player as they are today. The checks
/// are made in this order, and the first that fails decides:
/// there is a capture; the player is in the table; their rank in the table
/// is not above the highest rank allowed; their number of games in the table
/// is not below the least number; their rating deviation in the table is not
/// above the highest deviation; their rank today is at most one tier above
/// the highest rank allowed.
pub open spec fn eligibility(
    restrictions: TournamentRestrictions,
    table: Seq<LeaderboardUserView>,
    captured_at: Option<i64>,
    current: LeaderboardUserView,
) -> Result<(), RegistrationErrorView> {
    match captured_at {
        None => Err(RegistrationErrorView::SnapshotMissing),
        Some(date) => match first_true(listed_as(table, current._id)) {
            None => Err(RegistrationErrorView::UnrankedOnAnnouncementDay(date)),
            Some(i) => {
                let then = table[i].league;
                let announced = Rank::parse(then.rank);
                let deviation = deviation_of(then.rd);
                let today = Rank::parse(current.league.rank);
                let cap = restrictions.max_rank.advanced(1);
                if announced.tier() > restrictions.max_rank.tier() {
                    Err(
                        RegistrationErrorView::AnnouncementRankTooHigh {
                            rank: announced,
                            expected: restrictions.max_rank,
                            date,
                        },
                    )
                } else if then.gamesplayed < restrictions.min_ranked_games {
                    Err(
                        RegistrationErrorView::NotEnoughGames {
                            value: then.gamesplayed,
                            expected: restrictions.min_ranked_games,
                            date,
                        },
                    )
                } else if deviation.exceeds(restrictions.max_rd) {
                    Err(
                        RegistrationErrorView::RdTooHigh {
                            value: deviation,
                            expected: restrictions.max_rd,
                            date,
                        },
                    )
                } else if today.tier() > cap.tier() {
                    Err(RegistrationErrorView::CurrentRankTooHigh { rank: today, expected: cap })
                } else {
                    Ok(())
                }
            },
        },
    }
}

impl TournamentEntry {
    /// A tournament created at the time `now`: inactive, without
    /// registrations and without a capture.
    pub fn new_at(
        name: &str,
        shorthand: &str,
        restrictions: TournamentRestrictions,
        now: i64,
    ) -> (r: TournamentEntry)
        ensures
            r@ == (TournamentEntryView {
                name: name@,
                shorthand: shorthand@,
                created_at: now,
                restrictions,
                registered_players: Seq::empty(),
                player_stats_snapshot: Seq::empty(),
                snapshot_at: None,
                active: false,
                check_in_msg: None,
            }),
    {
        let r = TournamentEntry {
            name: name.to_owned(),
            shorthand: shorthand.to_owned(),
            created_at: now,
            restrictions,
            registered_players: Vec::new(),
            player_stats_snapshot: Vec::new(),
            snapshot_at: None,
            active: false,
            check_in_msg: None,
        };
        assert(r@.registered_players =~= Seq::empty());
        assert(r@.player_stats_snapshot =~= Seq::empty());
        r
    }

    /// A tournament created now, by the system clock.
    pub fn new(name: &str, shorthand: &str, restrictions: TournamentRestrictions) -> (r:
        TournamentEntry)
        ensures
            exists|now: i64|
                now >= 0 && r@ == (TournamentEntryView {
                    name: name@,
                    shorthand: shorthand@,
                    created_at: now,
                    restrictions,
                    registered_players: Seq::empty(),
                    player_stats_snapshot: Seq::empty(),
                    snapshot_at: None,
                    active: false,
                    check_in_msg: None,
                }),
    {
        let now: i64 = now_millis();
        TournamentEntry::new_at(name, shorthand, restrictions, now)
    }

    /// Decides whether a player, given as they are today, may register for
    /// this tournament.
    pub fn check_player_stats(&self, current_data: &LeaderboardUser) -> (r: RegistrationResult)
        ensures
            registration_result_view(r) == eligibility(
                self@.restrictions,
                self@.player_stats_snapshot,
                self@.snapshot_at,
                current_data@,
            ),
    {
        let date: i64 = match self.snapshot_at {
            None => {
                return Err(RegistrationError::SnapshotMissing);
            },
            Some(date) => date,
        };
        let ghost marks = listed_as(self@.player_stats_snapshot, current_data@._id);
        let mut i: usize = 0;
        while i < self.player_stats_snapshot.len()
            invariant
                i <= self.player_stats_snapshot.len(),
                self.snapshot_at == Some(date),
                marks == listed_as(self@.player_stats_snapshot, current_data@._id),
                forall|j: int| 0 <= j < i ==> !#[trigger] marks[j],
            decreases self.player_stats_snapshot.len() - i,
        {
            if str_eq(self.player_stats_snapshot[i]._id.as_str(), current_data._id.as_str()) {
                proof {
                    lemma_first_true_is(marks, i as int);
                }
                let then = &self.player_stats_snapshot[i].league;
                let announced = Rank::from_str(then.rank.as_str());
                if announced.is_above(&self.restrictions.max_rank) {
                    return Err(
                        RegistrationError::AnnouncementRankTooHigh {
                            rank: announced,
                            expected: self.restrictions.max_rank,
                            date,
                        },
                    );
                }
                if then.gamesplayed < self.restrictions.min_ranked_games {
                    return Err(
                        RegistrationError::NotEnoughGames {
                            value: then.gamesplayed,
                            expected: self.restrictions.min_ranked_games,
                            date,
                        },
                    );
                }
                let deviation = match then.rd {
                    Some(value) => value,
                    None => Measure::missing_deviation(),
                };
                if deviation.gt(&self.restrictions.max_rd) {
                    return Err(
                        RegistrationError::RdTooHigh {
                            value: deviation,
                            expected: self.restrictions.max_rd,
                            date,
                        },
                    );
                }
                let today = Rank::from_str(current_data.league.rank.as_str());
                let cap = self.restrictions.max_rank.advance(1);
                if today.is_above(&cap) {
                    return Err(
                        RegistrationError::CurrentRankTooHigh { rank: today, expected: cap },
                    );
                }
                return Ok(());
            }
            i = i + 1;
        }
        proof {
            lemma_first_true_none(marks);
        }
        Err(RegistrationError::UnrankedOnAnnouncementDay(date))
    }

    /// The position of a game account's registration.
    pub fn registration_of(&self, tetrio_id: &str) -> (r: Option<usize>)
        ensures
            match r {
                Some(i) => i < self@.registered_players.len() && first_true(
                    registered_as(self@.registered_players, tetrio_id@),
                ) == Some(i as int),
                None => first_true(registered_as(self@.registered_players, tetrio_id@)) is None,
            },
    {
        let ghost marks = registered_as(self@.registered_players, tetrio_id@);
        let mut i: usize = 0;
        while i < self.registered_players.len()
            invariant
                i <= self.registered_players.len(),
                marks == registered_as(self@.registered_players, tetrio_id@),
                forall|j: int| 0 <= j < i ==> !#[trigger] marks[j],
            decreases self.registered_players.len() - i,
        {
            if str_eq(self.registered_players[i].tetrio_id.as_str(), tetrio_id) {
                proof {
                    lemma_first_true_is(marks, i as int);
                }
                return Some(i);
            }
            i = i + 1;
        }
        proof {
            lemma_first_true_none(marks);
        }
        None
    }

    /// Whether a player is registered for this tournament.
    pub fn player_is_registered(&self, player: &PlayerEntry) -> (r: bool)
        ensures
            r == is_registered(self@.registered_players, player@.tetrio_id),
    {
        self.registration_of(player.tetrio_id.as_str()).is_some()
    }
}

/// For each tournament, whether `query` is its name or its shorthand.
pub open spec fn named(s: Seq<TournamentEntryView>, query: Seq<char>) -> Seq<bool> {
    Seq::new(s.len(), |i: int| s[i].name == query || s[i].shorthand == query)
}

/// For each tournament, whether it has the name `name` or the shorthand
/// `shorthand`.
pub open spec fn taking(s: Seq<TournamentEntryView>, name: Seq<char>, shorthand: Seq<char>) -> Seq<
    bool,
> {
    Seq::new(s.len(), |i: int| s[i].name == name || s[i].shorthand == shorthand)
}

/// For each tournament, whether it is active.
pub open spec fn active_ones(s: Seq<TournamentEntryView>) -> Seq<bool> {
    Seq::new(s.len(), |i: int| s[i].active)
}

/// The position of the first tournament that `query` names.
pub open spec fn find_tournament(s: Seq<TournamentEntryView>, query: Seq<char>) -> Option<int> {
    first_true(named(s, query))
}

/// The position of the active tournament.
pub open spec fn find_active(s: Seq<TournamentEntryView>) -> Option<int> {
    first_true(active_ones(s))
}

/// No game account is registered twice.
pub open spec fn registrations_wf(list: Seq<RegistrationEntryView>) -> bool {
    forall|i: int, j: int|
        0 <= i < j < list.len() ==> (#[trigger] list[i]).tetrio_id != (#[trigger] list[j]).tetrio_id
}

/// What holds of every state of the registry: no two tournaments share a
/// name, no two share a shorthand, at most one is active, and in none of
/// them a game account is registered twice.
pub open spec fn tournaments_wf(s: Seq<TournamentEntryView>) -> bool {
    &&& forall|i: int, j: int|
        0 <= i < j < s.len() ==> (#[trigger] s[i]).name != (#[trigger] s[j]).name
    &&& forall|i: int, j: int|
        0 <= i < j < s.len() ==> (#[trigger] s[i]).shorthand != (#[trigger] s[j]).shorthand
    &&& forall|i: int, j: int|
        0 <= i < j < s.len() ==> !((#[trigger] s[i]).active && (#[trigger] s[j]).active)
    &&& forall|i: int| 0 <= i < s.len() ==> registrations_wf((#[trigger] s[i]).registered_players)
}

/// A tournament as it is created.
pub open spec fn fresh_tournament(
    name: Seq<char>,
    shorthand: Seq<char>,
    restrictions: TournamentRestrictions,
    now: i64,
) -> TournamentEntryView {
    TournamentEntryView {
        name,
        shorthand,
        created_at: now,
        restrictions,
        registered_players: Seq::empty(),
        player_stats_snapshot: Seq::empty(),
        snapshot_at: None,
        active: false,
        check_in_msg: None,
    }
}

/// The registry after an attempt to create a tournament, and the
/// tournament created. The attempt fails with `DuplicateName` where a
/// tournament has that name or that shorthand.
pub open spec fn created(
    s: Seq<TournamentEntryView>,
    name: Seq<char>,
    shorthand: Seq<char>,
    restrictions: TournamentRestrictions,
    now: i64,
) -> (Seq<TournamentEntryView>, Result<TournamentEntryView, DatabaseErrorView>) {
    if first_true(taking(s, name, shorthand)) is Some {
        (s, Err(DatabaseErrorView::DuplicateName))
    } else {
        (
            s.push(fresh_tournament(name, shorthand, restrictions, now)),
            Ok(fresh_tournament(name, shorthand, restrictions, now)),
        )
    }
}

/// The registry after an attempt to add a tournament as it is, as when the
/// registry is read back from a store. A tournament in which a game account
/// is registered twice fails with `CouldNotParse`, one whose name or
/// shorthand is taken with `DuplicateName`, and an active one beside an
/// active one with `CouldNotParse`.
pub open spec fn tournament_inserted(s: Seq<TournamentEntryView>, e: TournamentEntryView) -> (
    Seq<TournamentEntryView>,
    Result<(), DatabaseErrorView>,
) {
    if !registrations_wf(e.registered_players) {
        (s, Err(DatabaseErrorView::CouldNotParse("player registered twice"@)))
    } else if first_true(taking(s, e.name, e.shorthand)) is Some {
        (s, Err(DatabaseErrorView::DuplicateName))
    } else if e.active && find_active(s) is Some {
        (s, Err(DatabaseErrorView::CouldNotParse("second active tournament"@)))
    } else {
        (s.push(e), Ok(()))
    }
}

/// The registry with every tournament inactive.
pub open spec fn all_inactive(s: Seq<TournamentEntryView>) -> Seq<TournamentEntryView> {
    Seq::new(s.len(), |i: int| TournamentEntryView { active: false, ..s[i] })
}

/// The registry after an attempt to make the tournament that `query` names
/// the active one, and that tournament. Without a query every tournament
/// becomes inactive. A query that names no tournament fails with `NotFound`
/// and changes nothing.
pub open spec fn activated(s: Seq<TournamentEntryView>, query: Option<Seq<char>>) -> (
    Seq<TournamentEntryView>,
    Result<Option<TournamentEntryView>, DatabaseErrorView>,
) {
    match query {
        None => (all_inactive(s), Ok(None)),
        Some(name) => match find_tournament(s, name) {
            None => (s, Err(DatabaseErrorView::NotFound)),
            Some(i) => (
                all_inactive(s).update(i, TournamentEntryView { active: true, ..s[i] }),
                Ok(Some(TournamentEntryView { active: true, ..s[i] })),
            ),
        },
    }
}

/// Both registries after an attempt to capture the league table for the
/// tournament that `query` names. A query that names no tournament fails
/// with `NotFound`; a table that the service did not give fails with the
/// service's reason; either way nothing changes. Otherwise every player of
/// the table is stored in the player registry, and the tournament holds the
/// table and the time `now` in place of any earlier capture.
pub open spec fn captured(
    s: Seq<TournamentEntryView>,
    p: Seq<PlayerEntryView>,
    query: Seq<char>,
    now: i64,
    table: Result<(Seq<LeaderboardUserView>, CacheDataView), Seq<char>>,
) -> (Seq<TournamentEntryView>, Seq<PlayerEntryView>, Result<(), DatabaseErrorView>) {
    match find_tournament(s, query) {
        None => (s, p, Err(DatabaseErrorView::NotFound)),
        Some(i) => match table {
            Err(reason) => (s, p, Err(DatabaseErrorView::TetrioApiError(reason))),
            Ok((users, cache)) => (
                s.update(
                    i,
                    TournamentEntryView {
                        player_stats_snapshot: users,
                        snapshot_at: Some(now),
                        ..s[i]
                    },
                ),
                table_applied(p, table).0,
                Ok(()),
            ),
        },
    }
}

/// The registry after an attempt to note the check-in message of the
/// tournament that `query` names.
pub open spec fn check_in_noted(s: Seq<TournamentEntryView>, query: Seq<char>, message_id: u64) -> (
    Seq<TournamentEntryView>,
    Result<(), DatabaseErrorView>,
) {
    match find_tournament(s, query) {
        None => (s, Err(DatabaseErrorView::NotFound)),
        Some(i) => (
            s.update(i, TournamentEntryView { check_in_msg: Some(message_id), ..s[i] }),
            Ok(()),
        ),
    }
}

/// The player registry after the player who registers was made out, and
/// that player.
///
/// Without a game account the chat account must be linked, else the attempt
/// fails with `MissingArgument`, naming `username`. With a game account the
/// two are linked as [`linked`] says; a chat account that is linked to that
/// very account already is no failure, and the player is the record of that
/// link; every other failure of the link is handed on.
pub open spec fn resolved(
    p: Seq<PlayerEntryView>,
    tetrio_id: Option<Seq<char>>,
    discord_id: u64,
    now: i64,
    fetched: Result<(LeaderboardUserView, CacheDataView), Seq<char>>,
) -> (Seq<PlayerEntryView>, Result<PlayerEntryView, RegistrationErrorView>) {
    match tetrio_id {
        None => match find_discord(p, discord_id) {
            Some(k) => (p, Ok(p[k])),
            None => (p, Err(RegistrationErrorView::MissingArgument("username"@))),
        },
        Some(query) => {
            let (t, r) = linked(p, discord_id, query, now, fetched);
            match r {
                Ok(record) => (t, Ok(record)),
                Err(error) => if error is AlreadyLinked {
                    (t, Ok(t[find_discord(t, discord_id)->0]))
                } else {
                    (t, Err(RegistrationErrorView::DatabaseError(error)))
                },
            }
        },
    }
}

/// Whether the tournament admits the player: always under a staff
/// override, else as [`eligibility`] decides on the player's statistics.
pub open spec fn admitted(
    tournament: TournamentEntryView,
    player: PlayerEntryView,
    is_staff_override: bool,
) -> Result<(), RegistrationErrorView> {
    if is_staff_override {
        Ok(())
    } else {
        eligibility(
            tournament.restrictions,
            tournament.player_stats_snapshot,
            tournament.snapshot_at,
            player.tetrio_data->0,
        )
    }
}

/// A tournament with one more registration at the end of its list.
pub open spec fn with_registration(
    tournament: TournamentEntryView,
    id: Seq<char>,
    now: i64,
) -> TournamentEntryView {
    TournamentEntryView {
        registered_players: tournament.registered_players.push(
            RegistrationEntryView { date: now, tetrio_id: id },
        ),
        ..tournament
    }
}

/// Both registries after an attempt to register a player for the active
/// tournament, and the player registered. In this order: without an active
/// tournament the attempt fails with `NoTournamentActive`; the player is
/// made out as [`resolved`] says; the tournament admits them as
/// [`admitted`] says; a player who is registered already fails with
/// `AlreadyRegistered`; else their registration, made at `now`, is added.
/// What making the player out changed in the player registry stays changed
/// when a later step fails.
pub open spec fn registered(
    s: Seq<TournamentEntryView>,
    p: Seq<PlayerEntryView>,
    tetrio_id: Option<Seq<char>>,
    discord_id: u64,
    is_staff_override: bool,
    now: i64,
    fetched: Result<(LeaderboardUserView, CacheDataView), Seq<char>>,
) -> (
    Seq<TournamentEntryView>,
    Seq<PlayerEntryView>,
    Result<PlayerEntryView, RegistrationErrorView>,
) {
    match find_active(s) {
        None => (s, p, Err(RegistrationErrorView::NoTournamentActive)),
        Some(a) => {
            let (t, who) = resolved(p, tetrio_id, discord_id, now, fetched);
            match who {
                Err(error) => (s, t, Err(error)),
                Ok(player) => match admitted(s[a], player, is_staff_override) {
                    Err(error) => (s, t, Err(error)),
                    Ok(_) => if is_registered(s[a].registered_players, player.tetrio_id) {
                        (s, t, Err(RegistrationErrorView::AlreadyRegistered))
                    } else {
                        (s.update(a, with_registration(s[a], player.tetrio_id, now)), t, Ok(player))
                    },
                },
            }
        },
    }
}

/// Whether a registration at the time `now` would use the data service's
/// answer: a tournament is active, a game account is given, and the game
/// account's statistics are not fresh.
pub open spec fn registration_needs_fetch(
    s: Seq<TournamentEntryView>,
    p: Seq<PlayerEntryView>,
    tetrio_id: Option<Seq<char>>,
    discord_id: u64,
    now: i64,
) -> bool {
    &&& find_active(s) is Some
    &&& tetrio_id is Some
    &&& crate::database::players::needs_fetch(p, tetrio_id->0, now)
}

/// The registry after an attempt to take a player off the active
/// tournament. In this order: without an active tournament the attempt fails
/// with `NoTournamentActive`; without a player with `NotFound`; for a player
/// who is not registered with `NotRegistered`.
pub open spec fn unregistered(s: Seq<TournamentEntryView>, player: Option<PlayerEntryView>) -> (
    Seq<TournamentEntryView>,
    Result<(), RegistrationErrorView>,
) {
    match find_active(s) {
        None => (s, Err(RegistrationErrorView::NoTournamentActive)),
        Some(a) => match player {
            None => (s, Err(RegistrationErrorView::DatabaseError(DatabaseErrorView::NotFound))),
            Some(entry) => match first_true(
                registered_as(s[a].registered_players, entry.tetrio_id),
            ) {
                None => (s, Err(RegistrationErrorView::NotRegistered)),
                Some(k) => (
                    s.update(
                        a,
                        TournamentEntryView {
                            registered_players: s[a].registered_players.remove(k),
                            ..s[a]
                        },
                    ),
                    Ok(()),
                ),
            },
        },
    }
}

/// The mathematical content of an optional query.
pub open spec fn query_view(query: Option<&str>) -> Option<Seq<char>> {
    match query {
        Some(text) => Some(text@),
        None => None,
    }
}

/// The mathematical content of the result of creating a tournament.
pub open spec fn tournament_result_view(r: DatabaseResult<TournamentEntry>) -> Result<
    TournamentEntryView,
    DatabaseErrorView,
> {
    match r {
        Ok(entry) => Ok(entry@),
        Err(error) => Err(error@),
    }
}

/// The mathematical content of the result of choosing the active
/// tournament.
pub open spec fn activation_result_view(r: DatabaseResult<Option<TournamentEntry>>) -> Result<
    Option<TournamentEntryView>,
    DatabaseErrorView,
> {
    match r {
        Ok(Some(entry)) => Ok(Some(entry@)),
        Ok(None) => Ok(None),
        Err(error) => Err(error@),
    }
}

/// The tournament registry.
pub struct TournamentCollection {
    entries: Vec<TournamentEntry>,
}

impl View for TournamentCollection {
    type V = Seq<TournamentEntryView>;

    /// The tournaments in the order in which they were created.
    closed spec fn view(&self) -> Seq<TournamentEntryView> {
        Seq::new(self.entries@.len(), |i: int| self.entries@[i]@)
    }
}

impl TournamentCollection {
    /// Whether the registry is in a valid state.
    pub open spec fn wf(&self) -> bool {
        tournaments_wf(self@)
    }

    /// A registry without tournaments.
    pub fn new() -> (r: TournamentCollection)
        ensures
            r@ == Seq::<TournamentEntryView>::empty(),
            r.wf(),
    {
        let r = TournamentCollection { entries: Vec::new() };
        r
    }

    /// The number of tournaments.
    pub fn len(&self) -> (n: usize)
        ensures
            n == self@.len(),
    {
        self.entries.len()
    }

    /// The tournament at a position.
    pub fn get(&self, i: usize) -> (r: &TournamentEntry)
        requires
            i < self@.len(),
        ensures
            r@ == self@[i as int],
    {
        &self.entries[i]
    }

    fn position(&self, query: &str) -> (r: Option<usize>)
        ensures
            match r {
                Some(i) => find_tournament(self@, query@) == Some(i as int) && i < self@.len(),
                None => find_tournament(self@, query@) is None,
            },
    {
        let mut i: usize = 0;
        while i < self.entries.len()
            invariant
                i <= self.entries.len(),
                forall|j: int| 0 <= j < i ==> !#[trigger] named(self@, query@)[j],
            decreases self.entries.len() - i,
        {
            if str_eq(self.entries[i].name.as_str(), query) || str_eq(
                self.entries[i].shorthand.as_str(),
                query,
            ) {
                proof {
                    lemma_first_true_is(named(self@, query@), i as int);
                }
                return Some(i);
            }
            i = i + 1;
        }
        proof {
            lemma_first_true_none(named(self@, query@));
        }
        None
    }

    fn position_of_active(&self) -> (r: Option<usize>)
        ensures
            match r {
                Some(i) => find_active(self@) == Some(i as int) && i < self@.len(),
                None => find_active(self@) is None,
            },
    {
        let mut i: usize = 0;
        while i < self.entries.len()
            invariant
                i <= self.entries.len(),
                forall|j: int| 0 <= j < i ==> !#[trigger] active_ones(self@)[j],
            decreases self.entries.len() - i,
        {
            if self.entries[i].active {
                proof {
                    lemma_first_true_is(active_ones(self@), i as int);
                }
                return Some(i);
            }
            i = i + 1;
        }
        proof {
            lemma_first_true_none(active_ones(self@));
        }
        None
    }

    fn is_taken(&self, name: &str, shorthand: &str) -> (r: bool)
        ensures
            r == first_true(taking(self@, name@, shorthand@)) is Some,
    {
        let mut i: usize = 0;
        while i < self.entries.len()
            invariant
                i <= self.entries.len(),
                forall|j: int| 0 <= j < i ==> !#[trigger] taking(self@, name@, shorthand@)[j],
            decreases self.entries.len() - i,
        {
            if str_eq(self.entries[i].name.as_str(), name) || str_eq(
                self.entries[i].shorthand.as_str(),
                shorthand,
            ) {
                proof {
                    lemma_first_true_is(taking(self@, name@, shorthand@), i as int);
                }
                return true;
            }
            i = i + 1;
        }
        proof {
            lemma_first_true_none(taking(self@, name@, shorthand@));
        }
        false
    }

    /// Creates a tournament at the time `now`, given in milliseconds since
    /// the Unix epoch.
    pub fn create_tournament_at(
        &mut self,
        name: &str,
        shorthand: &str,
        restrictions: TournamentRestrictions,
        now: i64,
    ) -> (r: DatabaseResult<TournamentEntry>)
        requires
            old(self).wf(),
        ensures
            final(self).wf(),
            (final(self)@, tournament_result_view(r)) == created(
                old(self)@,
                name@,
                shorthand@,
                restrictions,
                now,
            ),
    {
        let ghost before = self@;
        if self.is_taken(name, shorthand) {
            return Err(DatabaseError::DuplicateName);
        }
        proof {
            lemma_first_true(taking(before, name@, shorthand@));
        }
        let entry = TournamentEntry::new_at(name, shorthand, restrictions, now);
        let copy = entry.clone();
        self.entries.push(entry);
        proof {
            assert(self@ =~= before.push(fresh_tournament(name@, shorthand@, restrictions, now)));
            assert forall|j: int| 0 <= j < before.len() implies (#[trigger] self@[j]).name != name@
                && self@[j].shorthand != shorthand@ by {
                assert(!taking(before, name@, shorthand@)[j]);
            }
        }
        Ok(copy)
    }

    /// Creates a tournament now, by the system clock.
    pub fn create_tournament(
        &mut self,
        name: &str,
        shorthand: &str,
        restrictions: TournamentRestrictions,
    ) -> (r: DatabaseResult<TournamentEntry>)
        requires
            old(self).wf(),
        ensures
            final(self).wf(),
            exists|now: i64|
                now >= 0 && (final(self)@, tournament_result_view(r)) == #[trigger] created(
                    old(self)@,
                    name@,
                    shorthand@,
                    restrictions,
                    now,
                ),
    {
        let now: i64 = now_millis();
        self.create_tournament_at(name, shorthand, restrictions, now)
    }

    /// Adds a tournament as it is, as when the registry is read back from a
    /// store.
    pub fn insert(&mut self, entry: TournamentEntry) -> (r: DatabaseResult<()>)
        requires
            old(self).wf(),
        ensures
            final(self).wf(),
            (final(self)@, crate::database::players::unit_result_view(r)) == tournament_inserted(
                old(self)@,
                entry@,
            ),
    {
        let ghost before = self@;
        if !registrations_are_distinct(&entry.registered_players) {
            return Err(DatabaseError::CouldNotParse("player registered twice".to_owned()));
        }
        if self.is_taken(entry.name.as_str(), entry.shorthand.as_str()) {
            return Err(DatabaseError::DuplicateName);
        }
        if entry.active && self.position_of_active().is_some() {
            return Err(DatabaseError::CouldNotParse("second active tournament".to_owned()));
        }
        proof {
            lemma_first_true(taking(before, entry@.name, entry@.shorthand));
            lemma_first_true(active_ones(before));
        }
        self.entries.push(entry);
        proof {
            assert(self@ =~= before.push(entry@));
            assert forall|j: int| 0 <= j < before.len() implies (#[trigger] self@[j]).name
                != entry@.name && self@[j].shorthand != entry@.shorthand && !(self@[j].active
                && entry@.active) by {
                assert(!taking(before, entry@.name, entry@.shorthand)[j]);
                if entry@.active {
                    assert(!active_ones(before)[j]);
                }
            }
        }
        Ok(())
    }

    /// The first tournament that has `name` as its name or its shorthand.
    pub fn get_tournament(&self, name: &str) -> (r: Option<&TournamentEntry>)
        ensures
            match find_tournament(self@, name@) {
                Some(i) => r is Some && r->0@ == self@[i],
                None => r is None,
            },
    {
        match self.position(name) {
            Some(i) => Some(&self.entries[i]),
            None => None,
        }
    }

    /// The active tournament.
    pub fn get_active(&self) -> (r: Option<&TournamentEntry>)
        ensures
            match find_active(self@) {
                Some(i) => r is Some && r->0@ == self@[i],
                None => r is None,
            },
    {
        match self.position_of_active() {
            Some(i) => Some(&self.entries[i]),
            None => None,
        }
    }

    /// Makes the tournament that `name` names the only active one and
    /// returns it; without a name, makes every tournament inactive.
    pub fn set_active(&mut self, name: Option<&str>) -> (r: DatabaseResult<Option<TournamentEntry>>)
        requires
            old(self).wf(),
        ensures
            final(self).wf(),
            (final(self)@, activation_result_view(r)) == activated(old(self)@, query_view(name)),
    {
        let ghost before = self@;
        let chosen: Option<usize> = match name {
            None => None,
            Some(text) => match self.position(text) {
                None => {
                    return Err(DatabaseError::NotFound);
                },
                Some(i) => Some(i),
            },
        };
        let mut i: usize = 0;
        while i < self.entries.len()
            invariant
                i <= self.entries.len(),
                self.entries@.len() == before.len(),
                forall|j: int|
                    0 <= j < i ==> (#[trigger] self.entries@[j])@ == (TournamentEntryView {
                        active: false,
                        ..before[j]
                    }),
                forall|j: int|
                    i <= j < before.len() ==> (#[trigger] self.entries@[j])@ == before[j],
            decreases self.entries.len() - i,
        {
            self.entries[i].active = false;
            i = i + 1;
        }
        match chosen {
            None => Ok(None),
            Some(k) => {
                self.entries[k].active = true;
                Ok(Some(self.entries[k].clone()))
            },
        }
    }

    /// Captures the league table for a tournament at the time `now`.
    /// `response` is the league table that the data service sent.
    pub fn add_snapshot_at(
        &mut self,
        players: &mut PlayerCollection,
        name: &str,
        now: i64,
        response: TetrioResponse<LeaderboardData>,
    ) -> (r: DatabaseResult<()>)
        requires
            old(self).wf(),
            old(players).wf(),
        ensures
            final(self).wf(),
            final(players).wf(),
            (final(self)@, final(players)@, crate::database::players::unit_result_view(r))
                == captured(old(self)@, old(players)@, name@, now, table_view(response)),
    {
        let ghost before = self@;
        let i: usize = match self.position(name) {
            None => {
                return Err(DatabaseError::NotFound);
            },
            Some(i) => i,
        };
        match response {
            Err(error) => Err(DatabaseError::TetrioApiError(error)),
            Ok(answer) => {
                players.store_all(&answer.data.users, &answer.cache);
                self.entries[i].player_stats_snapshot = answer.data.users;
                self.entries[i].snapshot_at = Some(now);
                assert(self@ =~= before.update(
                    i as int,
                    TournamentEntryView {
                        player_stats_snapshot: table_view(response)->Ok_0.0,
                        snapshot_at: Some(now),
                        ..before[i as int]
                    },
                ));
                Ok(())
            },
        }
    }

    /// Captures the league table for a tournament now, by the system clock.
    pub fn add_snapshot(
        &mut self,
        players: &mut PlayerCollection,
        name: &str,
        response: TetrioResponse<LeaderboardData>,
    ) -> (r: DatabaseResult<()>)
        requires
            old(self).wf(),
            old(players).wf(),
        ensures
            final(self).wf(),
            final(players).wf(),
            exists|now: i64|
                now >= 0 && (
                    final(self)@,
                    final(players)@,
                    crate::database::players::unit_result_view(r),
                ) == #[trigger] captured(
                    old(self)@,
                    old(players)@,
                    name@,
                    now,
                    table_view(response),
                ),
    {
        let now: i64 = now_millis();
        self.add_snapshot_at(players, name, now, response)
    }

    /// Notes the chat message at which the players of a tournament check in.
    pub fn set_check_in_msg(&mut self, name: &str, message_id: u64) -> (r: DatabaseResult<()>)
        requires
            old(self).wf(),
        ensures
            final(self).wf(),
            (final(self)@, crate::database::players::unit_result_view(r)) == check_in_noted(
                old(self)@,
                name@,
                message_id,
            ),
    {
        let ghost before = self@;
        match self.position(name) {
            None => Err(DatabaseError::NotFound),
            Some(i) => {
                self.entries[i].check_in_msg = Some(message_id);
                assert(self@ =~= before.update(
                    i as int,
                    TournamentEntryView { check_in_msg: Some(message_id), ..before[i as int] },
                ));
                Ok(())
            },
        }
    }

    /// Whether [`Self::register_to_active_at`] would use the data service's
    /// answer.
    pub fn registration_needs_fetch_at(
        &self,
        players: &PlayerCollection,
        tetrio_id: Option<&str>,
        discord_id: u64,
        now: i64,
    ) -> (r: bool)
        ensures
            r == registration_needs_fetch(self@, players@, query_view(tetrio_id), discord_id, now),
    {
        if self.position_of_active().is_none() {
            return false;
        }
        match tetrio_id {
            None => false,
            Some(id) => players.needs_fetch_at(id, now),
        }
    }

    /// Registers a player for the active tournament at the time `now`.
    ///
    /// The player is the game account `tetrio_id`, which is linked to the
    /// chat account first, or, where none is given, the game account that
    /// the chat account is linked to. `response` is what the data service
    /// answers about `tetrio_id`; it is used only where
    /// [`Self::registration_needs_fetch_at`] holds. A staff override skips
    /// the check of the player's statistics and nothing else.
    pub fn register_to_active_at(
        &mut self,
        players: &mut PlayerCollection,
        tetrio_id: Option<&str>,
        discord_id: u64,
        is_staff_override: bool,
        now: i64,
        response: TetrioResponse<UserData>,
    ) -> (r: Result<PlayerEntry, RegistrationError>)
        requires
            old(self).wf(),
            old(players).wf(),
        ensures
            final(self).wf(),
            final(players).wf(),
            (final(self)@, final(players)@, registered_result_view(r)) == registered(
                old(self)@,
                old(players)@,
                query_view(tetrio_id),
                discord_id,
                is_staff_override,
                now,
                fetched_view(response),
            ),
    {
        let ghost before = self@;
        let ghost people = players@;
        let a: usize = match self.position_of_active() {
            None => {
                return Err(RegistrationError::NoTournamentActive);
            },
            Some(a) => a,
        };
        let player: PlayerEntry = match tetrio_id {
            None => match players.get_player_by_discord(discord_id) {
                Some(entry) => entry.clone(),
                None => {
                    return Err(RegistrationError::MissingArgument(String::from_str("username")));
                },
            },
            Some(id) => {
                proof {
                    lemma_linked_record(people, discord_id, id@, now, fetched_view(response));
                }
                match players.link_at(discord_id, id, now, response) {
                    Ok(entry) => entry,
                    Err(DatabaseError::AlreadyLinked) => match players.get_player_by_discord(
                        discord_id,
                    ) {
                        Some(entry) => entry.clone(),
                        None => vstd::pervasive::unreached(),
                    },
                    Err(error) => {
                        return Err(RegistrationError::DatabaseError(error));
                    },
                }
            },
        };
        proof {
            lemma_first_true(crate::database::players::linked_to(players@, discord_id));
        }
        if !is_staff_override {
            match &player.tetrio_data {
                Some(stats) => {
                    match self.entries[a].check_player_stats(stats) {
                        Err(error) => {
                            return Err(error);
                        },
                        Ok(_) => {},
                    }
                },
                None => vstd::pervasive::unreached(),
            }
        }
        if self.entries[a].registration_of(player.tetrio_id.as_str()).is_some() {
            return Err(RegistrationError::AlreadyRegistered);
        }
        proof {
            lemma_first_true(registered_as(before[a as int].registered_players, player@.tetrio_id));
        }
        let registration = RegistrationEntry::new_at(player.tetrio_id.as_str(), now);
        self.entries[a].registered_players.push(registration);
        proof {
            let list = before[a as int].registered_players;
            let longer = with_registration(before[a as int], player@.tetrio_id, now);
            assert(self@[a as int].registered_players =~= longer.registered_players);
            assert(self@ =~= before.update(a as int, longer));
            assert forall|j: int| 0 <= j < list.len() implies (#[trigger] list[j]).tetrio_id
                != player@.tetrio_id by {
                assert(!registered_as(list, player@.tetrio_id)[j]);
            }
        }
        Ok(player)
    }

    /// Registers a player for the active tournament now, by the system
    /// clock.
    pub fn register_to_active(
        &mut self,
        players: &mut PlayerCollection,
        tetrio_id: Option<&str>,
        discord_id: u64,
        is_staff_override: bool,
        response: TetrioResponse<UserData>,
    ) -> (r: Result<PlayerEntry, RegistrationError>)
        requires
            old(self).wf(),
            old(players).wf(),
        ensures
            final(self).wf(),
            final(players).wf(),
            exists|now: i64|
                now >= 0 && (final(self)@, final(players)@, registered_result_view(r))
                    == #[trigger] registered(
                    old(self)@,
                    old(players)@,
                    query_view(tetrio_id),
                    discord_id,
                    is_staff_override,
                    now,
                    fetched_view(response),
                ),
    {
        let now: i64 = now_millis();
        self.register_to_active_at(players, tetrio_id, discord_id, is_staff_override, now, response)
    }

    /// Takes a player off the active tournament.
    fn unregister(&mut self, player: Option<&PlayerEntry>) -> (r: RegistrationResult)
        requires
            old(self).wf(),
        ensures
            final(self).wf(),
            (final(self)@, registration_result_view(r)) == unregistered(
                old(self)@,
                match player {
                    Some(entry) => Some(entry@),
                    None => None,
                },
            ),
    {
        let ghost before = self@;
        let a: usize = match self.position_of_active() {
            None => {
                return Err(RegistrationError::NoTournamentActive);
            },
            Some(a) => a,
        };
        let entry: &PlayerEntry = match player {
            None => {
                return Err(RegistrationError::DatabaseError(DatabaseError::NotFound));
            },
            Some(entry) => entry,
        };
        match self.entries[a].registration_of(entry.tetrio_id.as_str()) {
            None => Err(RegistrationError::NotRegistered),
            Some(k) => {
                self.entries[a].registered_players.remove(k);
                proof {
                    let shorter = TournamentEntryView {
                        registered_players: before[a as int].registered_players.remove(k as int),
                        ..before[a as int]
                    };
                    assert(self@[a as int].registered_players =~= shorter.registered_players);
                    assert(self@ =~= before.update(a as int, shorter));
                }
                Ok(())
            },
        }
    }

    /// Takes the player meant by a game account's identifier or name off
    /// the active tournament.
    pub fn unregister_by_tetrio(&mut self, players: &PlayerCollection, tetrio_id: &str) -> (r:
        RegistrationResult)
        requires
            old(self).wf(),
        ensures
            final(self).wf(),
            (final(self)@, registration_result_view(r)) == unregistered(
                old(self)@,
                match crate::database::players::find_player(players@, tetrio_id@) {
                    Some(i) => Some(players@[i]),
                    None => None,
                },
            ),
    {
        self.unregister(players.get_player_by_tetrio(tetrio_id))
    }

    /// Takes the player linked to a chat account off the active tournament.
    pub fn unregister_by_discord(&mut self, players: &PlayerCollection, discord_id: u64) -> (r:
        RegistrationResult)
        requires
            old(self).wf(),
        ensures
            final(self).wf(),
            (final(self)@, registration_result_view(r)) == unregistered(
                old(self)@,
                match find_discord(players@, discord_id) {
                    Some(i) => Some(players@[i]),
                    None => None,
                },
            ),
    {
        self.unregister(players.get_player_by_discord(discord_id))
    }
}

} // verus!
