//! The player registry: one record for each game account that was ever
//! looked up, with the chat account linked to it and the statistics last
//! seen.

use crate::clock::now_millis;
use crate::database::{DatabaseError, DatabaseErrorView, DatabaseResult};
use crate::search::{
    first_true, is_first_true, lemma_first_true, lemma_first_true_is, lemma_first_true_none,
};
use crate::tetrio::leaderboard::{
    users_view, LeaderboardData, LeaderboardUser, LeaderboardUserView,
};
use crate::tetrio::user::UserData;
use crate::tetrio::{CacheData, CacheDataView, TetrioApiError, TetrioResponse};
use crate::text::{ascii_fold, str_eq, str_eq_ignore_ascii_case};
use vstd::prelude::*;

pub mod laws;

verus! {

/// For how long statistics count as fresh: 45 minutes, in milliseconds.
pub const CACHE_WINDOW_MILLIS: i64 = 2_700_000;

/// A record of the player registry.
#[derive(Debug, PartialEq, Eq)]
pub struct PlayerEntry {
    /// The game account's identifier.
    pub tetrio_id: String,
    /// The chat account linked to the game account, if any.
    pub discord_id: Option<u64>,
    /// When the link was made, in milliseconds since the Unix epoch.
    pub link_timestamp: Option<i64>,
    /// The statistics last seen.
    pub tetrio_data: Option<LeaderboardUser>,
    /// How the data service had cached those statistics.
    pub cache_data: Option<CacheData>,
}

/// The mathematical content of a [`PlayerEntry`].
pub struct PlayerEntryView {
    pub tetrio_id: Seq<char>,
    pub discord_id: Option<u64>,
    pub link_timestamp: Option<i64>,
    pub tetrio_data: Option<LeaderboardUserView>,
    pub cache_data: Option<CacheDataView>,
}

impl View for PlayerEntry {
    type V = PlayerEntryView;

    open spec fn view(&self) -> PlayerEntryView {
        PlayerEntryView {
            tetrio_id: self.tetrio_id@,
            discord_id: self.discord_id,
            link_timestamp: self.link_timestamp,
            tetrio_data: match self.tetrio_data {
                Some(data) => Some(data@),
                None => None,
            },
            cache_data: match self.cache_data {
                Some(cache) => Some(cache@),
                None => None,
            },
        }
    }
}

impl Clone for PlayerEntry {
    fn clone(&self) -> (r: Self)
        ensures
            r == *self,
    {
        PlayerEntry {
            tetrio_id: self.tetrio_id.clone(),
            discord_id: self.discord_id,
            link_timestamp: self.link_timestamp,
            tetrio_data: match &self.tetrio_data {
                Some(data) => Some(data.clone()),
                None => None,
            },
            cache_data: match &self.cache_data {
                Some(cache) => Some(cache.clone()),
                None => None,
            },
        }
    }
}

impl PlayerEntryView {
    /// Whether the statistics are fresh at the time `now`: they are present
    /// and were cached less than 45 minutes before.
    pub open spec fn is_cached(self, now: i64) -> bool {
        &&& self.tetrio_data is Some
        &&& self.cache_data is Some
        &&& now - self.cache_data->0.cached_at < CACHE_WINDOW_MILLIS
    }

    /// Whether the record is the one meant by `query`: the query is the
    /// account's identifier, or it is the account's name as last seen, upper
    /// and lower case of ASCII letters counting as the same.
    pub open spec fn answers_to(self, query: Seq<char>) -> bool {
        ||| self.tetrio_id == query
        ||| (self.tetrio_data is Some && ascii_fold(self.tetrio_data->0.username) == ascii_fold(
            query,
        ))
    }
}

impl PlayerEntry {
    /// A record without statistics.
    pub fn new(tetrio_id: &str, discord_id: Option<u64>) -> (r: PlayerEntry)
        ensures
            r@ == (PlayerEntryView {
                tetrio_id: tetrio_id@,
                discord_id,
                link_timestamp: None,
                tetrio_data: None,
                cache_data: None,
            }),
    {
        PlayerEntry {
            tetrio_id: tetrio_id.to_owned(),
            discord_id,
            link_timestamp: None,
            tetrio_data: None,
            cache_data: None,
        }
    }

    /// Whether the statistics are fresh at the time `now`, given in
    /// milliseconds since the Unix epoch.
    pub fn is_cached_at(&self, now: i64) -> (r: bool)
        ensures
            r == self@.is_cached(now),
    {
        if self.tetrio_data.is_none() {
            return false;
        }
        match &self.cache_data {
            None => false,
            Some(cache) => {
                let age: i128 = now as i128 - cache.cached_at as i128;
                age < CACHE_WINDOW_MILLIS as i128
            },
        }
    }

    /// Whether the statistics are fresh now, by the system clock.
    pub fn is_cached(&self) -> (r: bool)
        ensures
            exists|now: i64| now >= 0 && r == self@.is_cached(now),
    {
        let now: i64 = now_millis();
        self.is_cached_at(now)
    }

    /// Whether the record is the one meant by `query`.
    pub fn answers_to(&self, query: &str) -> (r: bool)
        ensures
            r == self@.answers_to(query@),
    {
        if str_eq(self.tetrio_id.as_str(), query) {
            return true;
        }
        match &self.tetrio_data {
            None => false,
            Some(data) => str_eq_ignore_ascii_case(data.username.as_str(), query),
        }
    }
}

/// What the data service answered about one player, as mathematical
/// content: the player's record with its cache information, or the reason
/// why there is none.
pub open spec fn fetched_view(response: TetrioResponse<UserData>) -> Result<
    (LeaderboardUserView, CacheDataView),
    Seq<char>,
> {
    match response {
        Ok(answer) => Ok((answer.data.user@, answer.cache@)),
        Err(error) => Err(error@),
    }
}

/// For each record, whether it answers to `query`.
pub open spec fn answering(s: Seq<PlayerEntryView>, query: Seq<char>) -> Seq<bool> {
    Seq::new(s.len(), |i: int| s[i].answers_to(query))
}

/// For each record, whether it is the record of the game account `id`.
pub open spec fn having_id(s: Seq<PlayerEntryView>, id: Seq<char>) -> Seq<bool> {
    Seq::new(s.len(), |i: int| s[i].tetrio_id == id)
}

/// For each record, whether it is linked to the chat account `discord_id`.
pub open spec fn linked_to(s: Seq<PlayerEntryView>, discord_id: u64) -> Seq<bool> {
    Seq::new(s.len(), |i: int| s[i].discord_id == Some(discord_id))
}

/// The position of the first record that answers to `query`.
pub open spec fn find_player(s: Seq<PlayerEntryView>, query: Seq<char>) -> Option<int> {
    first_true(answering(s, query))
}

/// The position of the record of the game account `id`.
pub open spec fn find_id(s: Seq<PlayerEntryView>, id: Seq<char>) -> Option<int> {
    first_true(having_id(s, id))
}

/// The position of the record linked to the chat account `discord_id`.
pub open spec fn find_discord(s: Seq<PlayerEntryView>, discord_id: u64) -> Option<int> {
    first_true(linked_to(s, discord_id))
}

/// What holds of every record of a valid registry: statistics belong to
/// the account they are stored with, a link has a time exactly when it has
/// a chat account, and a linked account has statistics.
pub open spec fn entry_wf(e: PlayerEntryView) -> bool {
    &&& e.tetrio_data is Some ==> e.tetrio_data->0._id == e.tetrio_id
    &&& e.discord_id is Some <==> e.link_timestamp is Some
    &&& e.discord_id is Some ==> e.tetrio_data is Some
}

/// What holds of every state of the registry: no game account has two
/// records, no chat account is linked to two game accounts, and every record
/// is consistent in itself.
pub open spec fn players_wf(s: Seq<PlayerEntryView>) -> bool {
    &&& forall|i: int, j: int|
        0 <= i < j < s.len() ==> (#[trigger] s[i]).tetrio_id != (#[trigger] s[j]).tetrio_id
    &&& forall|i: int, j: int|
        0 <= i < j < s.len() && (#[trigger] s[i]).discord_id is Some ==> s[i].discord_id != (
        #[trigger] s[j]).discord_id
    &&& forall|i: int| 0 <= i < s.len() ==> entry_wf(#[trigger] s[i])
}

/// For each record, whether it holds statistics under the name `name`,
/// upper and lower case of ASCII letters counting as the same.
pub open spec fn having_name(s: Seq<PlayerEntryView>, name: Seq<char>) -> Seq<bool> {
    Seq::new(
        s.len(),
        |i: int|
            s[i].tetrio_data is Some && ascii_fold(s[i].tetrio_data->0.username) == ascii_fold(
                name,
            ),
    )
}

/// The position of the first record that holds statistics under the name
/// `name`.
pub open spec fn find_name(s: Seq<PlayerEntryView>, name: Seq<char>) -> Option<int> {
    first_true(having_name(s, name))
}

/// The registry after an attempt to add a record as it is, as when the
/// registry is read back from a store. A record that is not consistent in
/// itself fails with `CouldNotParse`, one for a game account that has a
/// record with `DuplicateTetrioEntry`, one linked to a chat account that is
/// linked already with `DuplicateDiscordEntry`.
pub open spec fn inserted(s: Seq<PlayerEntryView>, e: PlayerEntryView) -> (
    Seq<PlayerEntryView>,
    Result<(), DatabaseErrorView>,
) {
    if !entry_wf(e) {
        (s, Err(DatabaseErrorView::CouldNotParse("inconsistent player record"@)))
    } else if find_id(s, e.tetrio_id) is Some {
        (s, Err(DatabaseErrorView::DuplicateTetrioEntry))
    } else if e.discord_id is Some && find_discord(s, e.discord_id->0) is Some {
        (s, Err(DatabaseErrorView::DuplicateDiscordEntry))
    } else {
        (s.push(e), Ok(()))
    }
}

/// The position at which the statistics of `user` are stored: that of the
/// account's record, or the end of the list where it has none yet.
pub open spec fn upserted_at(s: Seq<PlayerEntryView>, user: LeaderboardUserView) -> int {
    match find_id(s, user._id) {
        Some(i) => i,
        None => s.len() as int,
    }
}

/// The registry after statistics were stored: the account's record holds
/// them and is otherwise unchanged; an account without a record gets one,
/// unlinked, at the end.
pub open spec fn upserted(
    s: Seq<PlayerEntryView>,
    user: LeaderboardUserView,
    cache: CacheDataView,
) -> Seq<PlayerEntryView> {
    match find_id(s, user._id) {
        Some(i) => s.update(
            i,
            PlayerEntryView { tetrio_data: Some(user), cache_data: Some(cache), ..s[i] },
        ),
        None => s.push(
            PlayerEntryView {
                tetrio_id: user._id,
                discord_id: None,
                link_timestamp: None,
                tetrio_data: Some(user),
                cache_data: Some(cache),
            },
        ),
    }
}

/// The registry after a whole league table was stored, player by player.
pub open spec fn upserted_all(
    s: Seq<PlayerEntryView>,
    users: Seq<LeaderboardUserView>,
    cache: CacheDataView,
) -> Seq<PlayerEntryView>
    decreases users.len(),
{
    if users.len() == 0 {
        s
    } else {
        upserted(upserted_all(s, users.drop_last(), cache), users.last(), cache)
    }
}

/// Whether a lookup of `query` at the time `now` has to ask the data
/// service: no record answers to the query, or its statistics are not fresh.
pub open spec fn needs_fetch(s: Seq<PlayerEntryView>, query: Seq<char>, now: i64) -> bool {
    match find_player(s, query) {
        Some(i) => !s[i].is_cached(now),
        None => true,
    }
}

/// The registry after a player was looked up at the time `now`, and the
/// record found. Fresh statistics are returned as they are. Otherwise the
/// service's answer is stored and returned; where the service gave none, the
/// registry is unchanged and the lookup fails with the service's reason.
pub open spec fn refreshed(
    s: Seq<PlayerEntryView>,
    query: Seq<char>,
    now: i64,
    fetched: Result<(LeaderboardUserView, CacheDataView), Seq<char>>,
) -> (Seq<PlayerEntryView>, Result<PlayerEntryView, DatabaseErrorView>) {
    if !needs_fetch(s, query, now) {
        (s, Ok(s[find_player(s, query)->0]))
    } else {
        match fetched {
            Err(reason) => (s, Err(DatabaseErrorView::TetrioApiError(reason))),
            Ok((user, cache)) => (
                upserted(s, user, cache),
                Ok(upserted(s, user, cache)[upserted_at(s, user)]),
            ),
        }
    }
}

/// The mathematical content of an operation's result.
pub open spec fn entry_result_view(r: DatabaseResult<PlayerEntry>) -> Result<
    PlayerEntryView,
    DatabaseErrorView,
> {
    match r {
        Ok(entry) => Ok(entry@),
        Err(error) => Err(error@),
    }
}

/// The position of the record that a lookup of `query` returns.
pub open spec fn refreshed_at(
    s: Seq<PlayerEntryView>,
    query: Seq<char>,
    now: i64,
    fetched: Result<(LeaderboardUserView, CacheDataView), Seq<char>>,
) -> int {
    if !needs_fetch(s, query, now) {
        find_player(s, query)->0
    } else {
        match fetched {
            Err(_) => 0,
            Ok((user, _)) => upserted_at(s, user),
        }
    }
}

/// What a league table holds, as mathematical content.
pub open spec fn table_view(response: TetrioResponse<LeaderboardData>) -> Result<
    (Seq<LeaderboardUserView>, CacheDataView),
    Seq<char>,
> {
    match response {
        Ok(answer) => Ok((users_view(answer.data.users@), answer.cache@)),
        Err(error) => Err(error@),
    }
}

/// The registry after the service's league table was applied, and whether
/// that succeeded: every player of the table is stored; where the service
/// gave no table, nothing changes and the reason is handed on.
pub open spec fn table_applied(
    s: Seq<PlayerEntryView>,
    table: Result<(Seq<LeaderboardUserView>, CacheDataView), Seq<char>>,
) -> (Seq<PlayerEntryView>, Result<(), DatabaseErrorView>) {
    match table {
        Ok((users, cache)) => (upserted_all(s, users, cache), Ok(())),
        Err(reason) => (s, Err(DatabaseErrorView::TetrioApiError(reason))),
    }
}

/// The registry after an attempt to link the chat account `discord_id` to
/// the game account meant by `query`, and the attempt's result.
///
/// First the player is looked up as [`refreshed`] says, and a failed lookup
/// fails the attempt. Then, in this order: a chat account that is linked to
/// the record found fails with `AlreadyLinked`; a chat account that is
/// linked to another record fails with `DuplicateDiscordEntry`; a record
/// found that is linked to another chat account fails with
/// `DuplicateTetrioEntry`. In every other case the record gets the chat
/// account and the time `now`. No failure undoes what the lookup stored.
pub open spec fn linked(
    s: Seq<PlayerEntryView>,
    discord_id: u64,
    query: Seq<char>,
    now: i64,
    fetched: Result<(LeaderboardUserView, CacheDataView), Seq<char>>,
) -> (Seq<PlayerEntryView>, Result<PlayerEntryView, DatabaseErrorView>) {
    let (t, found) = refreshed(s, query, now, fetched);
    match found {
        Err(error) => (t, Err(error)),
        Ok(entry) => match find_discord(t, discord_id) {
            Some(i) => if t[i].tetrio_id == entry.tetrio_id {
                (t, Err(DatabaseErrorView::AlreadyLinked))
            } else {
                (t, Err(DatabaseErrorView::DuplicateDiscordEntry))
            },
            None => if entry.discord_id is Some {
                (t, Err(DatabaseErrorView::DuplicateTetrioEntry))
            } else {
                let record = PlayerEntryView {
                    discord_id: Some(discord_id),
                    link_timestamp: Some(now),
                    ..entry
                };
                (t.update(refreshed_at(s, query, now, fetched), record), Ok(record))
            },
        },
    }
}

/// The registry with the link of the record at position `i` removed.
pub open spec fn unlinked_at(s: Seq<PlayerEntryView>, i: int) -> Seq<PlayerEntryView> {
    s.update(i, PlayerEntryView { discord_id: None, link_timestamp: None, ..s[i] })
}

/// The registry after an attempt to remove the link of the game account
/// meant by `query`: `NotFound` where no record answers to the query,
/// `FieldNotSet` where the record has no link.
pub open spec fn unlinked_by_tetrio(s: Seq<PlayerEntryView>, query: Seq<char>) -> (
    Seq<PlayerEntryView>,
    Result<(), DatabaseErrorView>,
) {
    match find_player(s, query) {
        None => (s, Err(DatabaseErrorView::NotFound)),
        Some(i) => if s[i].discord_id is None {
            (s, Err(DatabaseErrorView::FieldNotSet))
        } else {
            (unlinked_at(s, i), Ok(()))
        },
    }
}

/// The registry after an attempt to remove the link of a chat account:
/// `NotFound` where no record is linked to it.
pub open spec fn unlinked_by_discord(s: Seq<PlayerEntryView>, discord_id: u64) -> (
    Seq<PlayerEntryView>,
    Result<(), DatabaseErrorView>,
) {
    match find_discord(s, discord_id) {
        None => (s, Err(DatabaseErrorView::NotFound)),
        Some(i) => (unlinked_at(s, i), Ok(())),
    }
}

/// The mathematical content of a result that carries nothing on success.
pub open spec fn unit_result_view(r: DatabaseResult<()>) -> Result<(), DatabaseErrorView> {
    match r {
        Ok(_) => Ok(()),
        Err(error) => Err(error@),
    }
}

/// The player registry.
pub struct PlayerCollection {
    entries: Vec<PlayerEntry>,
}

impl View for PlayerCollection {
    type V = Seq<PlayerEntryView>;

    /// The records in the order in which they were created.
    closed spec fn view(&self) -> Seq<PlayerEntryView> {
        Seq::new(self.entries@.len(), |i: int| self.entries@[i]@)
    }
}

impl PlayerCollection {
    /// Whether the registry is in a valid state.
    pub open spec fn wf(&self) -> bool {
        players_wf(self@)
    }

    /// A registry without records.
    pub fn new() -> (r: PlayerCollection)
        ensures
            r@ == Seq::<PlayerEntryView>::empty(),
            r.wf(),
    {
        let r = PlayerCollection { entries: Vec::new() };
        r
    }

    /// The number of records.
    pub fn len(&self) -> (n: usize)
        ensures
            n == self@.len(),
    {
        self.entries.len()
    }

    /// The record at a position.
    pub fn get(&self, i: usize) -> (r: &PlayerEntry)
        requires
            i < self@.len(),
        ensures
            r@ == self@[i as int],
    {
        &self.entries[i]
    }

    fn position(&self, query: &str) -> (r: Option<usize>)
        ensures
            match r {
                Some(i) => find_player(self@, query@) == Some(i as int) && i < self@.len(),
                None => find_player(self@, query@) is None,
            },
    {
        let mut i: usize = 0;
        while i < self.entries.len()
            invariant
                i <= self.entries.len(),
                forall|j: int| 0 <= j < i ==> !#[trigger] answering(self@, query@)[j],
            decreases self.entries.len() - i,
        {
            if self.entries[i].answers_to(query) {
                proof {
                    lemma_first_true_is(answering(self@, query@), i as int);
                }
                return Some(i);
            }
            i = i + 1;
        }
        proof {
            lemma_first_true_none(answering(self@, query@));
        }
        None
    }

    fn position_of_id(&self, id: &str) -> (r: Option<usize>)
        ensures
            match r {
                Some(i) => find_id(self@, id@) == Some(i as int) && i < self@.len(),
                None => find_id(self@, id@) is None,
            },
    {
        let mut i: usize = 0;
        while i < self.entries.len()
            invariant
                i <= self.entries.len(),
                forall|j: int| 0 <= j < i ==> !#[trigger] having_id(self@, id@)[j],
            decreases self.entries.len() - i,
        {
            if str_eq(self.entries[i].tetrio_id.as_str(), id) {
                proof {
                    lemma_first_true_is(having_id(self@, id@), i as int);
                }
                return Some(i);
            }
            i = i + 1;
        }
        proof {
            lemma_first_true_none(having_id(self@, id@));
        }
        None
    }

    fn position_of_discord(&self, discord_id: u64) -> (r: Option<usize>)
        ensures
            match r {
                Some(i) => find_discord(self@, discord_id) == Some(i as int) && i < self@.len(),
                None => find_discord(self@, discord_id) is None,
            },
    {
        let mut i: usize = 0;
        while i < self.entries.len()
            invariant
                i <= self.entries.len(),
                forall|j: int| 0 <= j < i ==> !#[trigger] linked_to(self@, discord_id)[j],
            decreases self.entries.len() - i,
        {
            let linked: bool = match self.entries[i].discord_id {
                Some(other) => other == discord_id,
                None => false,
            };
            if linked {
                proof {
                    lemma_first_true_is(linked_to(self@, discord_id), i as int);
                }
                return Some(i);
            }
            i = i + 1;
        }
        proof {
            lemma_first_true_none(linked_to(self@, discord_id));
        }
        None
    }

    /// The record of the game account with the identifier `tetrio_id`.
    pub fn get_player_by_id(&self, tetrio_id: &str) -> (r: Option<&PlayerEntry>)
        ensures
            match find_id(self@, tetrio_id@) {
                Some(i) => r is Some && r->0@ == self@[i],
                None => r is None,
            },
    {
        match self.position_of_id(tetrio_id) {
            Some(i) => Some(&self.entries[i]),
            None => None,
        }
    }

    /// The first record that holds statistics under the name `username`,
    /// upper and lower case of ASCII letters counting as the same.
    pub fn get_player_by_username(&self, username: &str) -> (r: Option<&PlayerEntry>)
        ensures
            match find_name(self@, username@) {
                Some(i) => r is Some && r->0@ == self@[i],
                None => r is None,
            },
    {
        let mut i: usize = 0;
        while i < self.entries.len()
            invariant
                i <= self.entries.len(),
                forall|j: int| 0 <= j < i ==> !#[trigger] having_name(self@, username@)[j],
            decreases self.entries.len() - i,
        {
            let named: bool = match &self.entries[i].tetrio_data {
                Some(data) => str_eq_ignore_ascii_case(data.username.as_str(), username),
                None => false,
            };
            if named {
                proof {
                    lemma_first_true_is(having_name(self@, username@), i as int);
                }
                return Some(&self.entries[i]);
            }
            i = i + 1;
        }
        proof {
            lemma_first_true_none(having_name(self@, username@));
        }
        None
    }

    /// Adds a record as it is, as when the registry is read back from a
    /// store.
    pub fn insert(&mut self, entry: PlayerEntry) -> (r: DatabaseResult<()>)
        requires
            old(self).wf(),
        ensures
            final(self).wf(),
            (final(self)@, unit_result_view(r)) == inserted(old(self)@, entry@),
    {
        let ghost before = self@;
        let consistent: bool = match &entry.tetrio_data {
            Some(data) => str_eq(data._id.as_str(), entry.tetrio_id.as_str())
                && entry.discord_id.is_some() == entry.link_timestamp.is_some(),
            None => entry.discord_id.is_none() && entry.link_timestamp.is_none(),
        };
        if !consistent {
            return Err(
                DatabaseError::CouldNotParse("inconsistent player record".to_owned()),
            );
        }
        if self.position_of_id(entry.tetrio_id.as_str()).is_some() {
            return Err(DatabaseError::DuplicateTetrioEntry);
        }
        match entry.discord_id {
            Some(discord_id) => {
                if self.position_of_discord(discord_id).is_some() {
                    return Err(DatabaseError::DuplicateDiscordEntry);
                }
                proof {
                    lemma_first_true(linked_to(before, discord_id));
                }
            },
            None => {},
        }
        proof {
            lemma_first_true(having_id(before, entry@.tetrio_id));
        }
        self.entries.push(entry);
        proof {
            assert(self@ =~= before.push(entry@));
            assert forall|j: int| 0 <= j < before.len() implies (#[trigger] self@[j]).tetrio_id
                != entry@.tetrio_id by {
                assert(!having_id(before, entry@.tetrio_id)[j]);
            }
            if entry@.discord_id is Some {
                assert forall|j: int| 0 <= j < before.len() implies (#[trigger] self@[j]).discord_id
                    != entry@.discord_id by {
                    assert(!linked_to(before, entry@.discord_id->0)[j]);
                }
            }
        }
        Ok(())
    }

    /// The first record that answers to a game account's identifier or name.
    pub fn get_player_by_tetrio(&self, tetrio_id: &str) -> (r: Option<&PlayerEntry>)
        ensures
            match find_player(self@, tetrio_id@) {
                Some(i) => r is Some && r->0@ == self@[i],
                None => r is None,
            },
    {
        match self.position(tetrio_id) {
            Some(i) => Some(&self.entries[i]),
            None => None,
        }
    }

    /// The record linked to a chat account.
    pub fn get_player_by_discord(&self, discord_id: u64) -> (r: Option<&PlayerEntry>)
        ensures
            match find_discord(self@, discord_id) {
                Some(i) => r is Some && r->0@ == self@[i],
                None => r is None,
            },
    {
        match self.position_of_discord(discord_id) {
            Some(i) => Some(&self.entries[i]),
            None => None,
        }
    }

    /// Stores statistics and returns the position of the record they are
    /// stored in.
    fn store(&mut self, new_data: LeaderboardUser, cache_data: CacheData) -> (i: usize)
        requires
            old(self).wf(),
        ensures
            final(self).wf(),
            final(self)@ == upserted(old(self)@, new_data@, cache_data@),
            i == upserted_at(old(self)@, new_data@),
            i < final(self)@.len(),
    {
        let ghost before = self@;
        let ghost user = new_data@;
        let ghost cache = cache_data@;
        let found = self.position_of_id(new_data._id.as_str());
        proof {
            lemma_first_true(having_id(before, user._id));
        }
        match found {
            Some(i) => {
                self.entries[i].tetrio_data = Some(new_data);
                self.entries[i].cache_data = Some(cache_data);
                assert(self@ =~= upserted(before, user, cache));
                i
            },
            None => {
                let entry = PlayerEntry {
                    tetrio_id: new_data._id.clone(),
                    discord_id: None,
                    link_timestamp: None,
                    tetrio_data: Some(new_data),
                    cache_data: Some(cache_data),
                };
                self.entries.push(entry);
                assert(self@ =~= upserted(before, user, cache));
                assert forall|j: int| 0 <= j < before.len() implies (#[trigger] self@[j]).tetrio_id
                    != user._id by {
                    assert(!having_id(before, user._id)[j]);
                }
                self.entries.len() - 1
            },
        }
    }

    /// Stores the statistics of one player, in the record of their game
    /// account. An account that has no record yet gets one. Returns the
    /// record as it is stored.
    pub fn update(&mut self, new_data: LeaderboardUser, cache_data: &CacheData) -> (r: PlayerEntry)
        requires
            old(self).wf(),
        ensures
            final(self).wf(),
            final(self)@ == upserted(old(self)@, new_data@, cache_data@),
            r@ == final(self)@[upserted_at(old(self)@, new_data@)],
    {
        let i: usize = self.store(new_data, cache_data.clone());
        self.entries[i].clone()
    }

    /// Whether [`Self::update_player_at`] would use the data service's
    /// answer for this query at the time `now`.
    pub fn needs_fetch_at(&self, tetrio_id: &str, now: i64) -> (r: bool)
        ensures
            r == needs_fetch(self@, tetrio_id@, now),
    {
        match self.position(tetrio_id) {
            Some(i) => !self.entries[i].is_cached_at(now),
            None => true,
        }
    }

    /// Looks up a player and returns the position of their record.
    fn refresh(&mut self, tetrio_id: &str, now: i64, response: TetrioResponse<UserData>) -> (r:
        Result<usize, DatabaseError>)
        requires
            old(self).wf(),
        ensures
            final(self).wf(),
            final(self)@ == refreshed(old(self)@, tetrio_id@, now, fetched_view(response)).0,
            match r {
                Ok(i) => {
                    &&& i < final(self)@.len()
                    &&& i == refreshed_at(old(self)@, tetrio_id@, now, fetched_view(response))
                    &&& refreshed(old(self)@, tetrio_id@, now, fetched_view(response)).1 == Ok::<
                        PlayerEntryView,
                        DatabaseErrorView,
                    >(final(self)@[i as int])
                },
                Err(error) => refreshed(old(self)@, tetrio_id@, now, fetched_view(response)).1
                    == Err::<PlayerEntryView, DatabaseErrorView>(error@),
            },
    {
        let found = self.position(tetrio_id);
        let fresh: bool = match found {
            Some(i) => self.entries[i].is_cached_at(now),
            None => false,
        };
        if fresh {
            return Ok(found.unwrap());
        }
        match response {
            Err(error) => Err(DatabaseError::TetrioApiError(error)),
            Ok(answer) => {
                let i: usize = self.store(answer.data.user, answer.cache);
                Ok(i)
            },
        }
    }

    /// Looks up a player at the time `now`, given in milliseconds since the
    /// Unix epoch. `response` is what the data service answers about
    /// `tetrio_id`; it is used only where [`Self::needs_fetch_at`] holds.
    pub fn update_player_at(
        &mut self,
        tetrio_id: &str,
        now: i64,
        response: TetrioResponse<UserData>,
    ) -> (r: DatabaseResult<PlayerEntry>)
        requires
            old(self).wf(),
        ensures
            final(self).wf(),
            (final(self)@, entry_result_view(r)) == refreshed(
                old(self)@,
                tetrio_id@,
                now,
                fetched_view(response),
            ),
    {
        match self.refresh(tetrio_id, now, response) {
            Ok(i) => Ok(self.entries[i].clone()),
            Err(error) => Err(error),
        }
    }

    /// Looks up a player now, by the system clock. `response` is what the
    /// data service answers about `tetrio_id`.
    pub fn update_player(&mut self, tetrio_id: &str, response: TetrioResponse<UserData>) -> (r:
        DatabaseResult<PlayerEntry>)
        requires
            old(self).wf(),
        ensures
            final(self).wf(),
            exists|now: i64|
                now >= 0 && (final(self)@, entry_result_view(r)) == #[trigger] refreshed(
                    old(self)@,
                    tetrio_id@,
                    now,
                    fetched_view(response),
                ),
    {
        let now: i64 = now_millis();
        self.update_player_at(tetrio_id, now, response)
    }

    /// Applies the league table that the data service sent: every player in
    /// it is stored, whether their statistics were fresh or not. Players that
    /// the table does not list are left as they are.
    pub fn update_from_leaderboard(&mut self, response: TetrioResponse<LeaderboardData>) -> (r:
        DatabaseResult<()>)
        requires
            old(self).wf(),
        ensures
            final(self).wf(),
            (final(self)@, unit_result_view(r)) == table_applied(old(self)@, table_view(response)),
    {
        match response {
            Err(error) => Err(DatabaseError::TetrioApiError(error)),
            Ok(answer) => {
                self.store_all(&answer.data.users, &answer.cache);
                Ok(())
            },
        }
    }

    /// Stores every player of a list.
    pub fn store_all(&mut self, users: &Vec<LeaderboardUser>, cache_data: &CacheData)
        requires
            old(self).wf(),
        ensures
            final(self).wf(),
            final(self)@ == upserted_all(old(self)@, users_view(users@), cache_data@),
    {
        let ghost before = self@;
        let ghost all = users_view(users@);
        let mut i: usize = 0;
        while i < users.len()
            invariant
                i <= users.len(),
                self.wf(),
                all == users_view(users@),
                self@ == upserted_all(before, all.subrange(0, i as int), cache_data@),
            decreases users.len() - i,
        {
            self.store(users[i].clone(), cache_data.clone());
            proof {
                let next = all.subrange(0, i + 1);
                assert(next.drop_last() =~= all.subrange(0, i as int));
            }
            i = i + 1;
        }
        assert(all.subrange(0, i as int) =~= all);
    }

    /// Links a chat account to a game account at the time `now`. `response`
    /// is what the data service answers about `tetrio_id`; it is used only
    /// where [`Self::needs_fetch_at`] holds.
    pub fn link_at(
        &mut self,
        discord_id: u64,
        tetrio_id: &str,
        now: i64,
        response: TetrioResponse<UserData>,
    ) -> (r: DatabaseResult<PlayerEntry>)
        requires
            old(self).wf(),
        ensures
            final(self).wf(),
            (final(self)@, entry_result_view(r)) == linked(
                old(self)@,
                discord_id,
                tetrio_id@,
                now,
                fetched_view(response),
            ),
    {
        let i: usize = match self.refresh(tetrio_id, now, response) {
            Err(error) => {
                return Err(error);
            },
            Ok(i) => i,
        };
        let ghost middle = self@;
        proof {
            lemma_first_true(linked_to(middle, discord_id));
        }
        match self.position_of_discord(discord_id) {
            Some(k) => {
                if k == i {
                    Err(DatabaseError::AlreadyLinked)
                } else {
                    Err(DatabaseError::DuplicateDiscordEntry)
                }
            },
            None => {
                if self.entries[i].discord_id.is_some() {
                    Err(DatabaseError::DuplicateTetrioEntry)
                } else {
                    proof {
                        assert forall|j: int| 0 <= j < middle.len() implies (
                        #[trigger] middle[j]).discord_id != Some(discord_id) by {
                            assert(!linked_to(middle, discord_id)[j]);
                        }
                    }
                    self.entries[i].discord_id = Some(discord_id);
                    self.entries[i].link_timestamp = Some(now);
                    assert(self@ =~= middle.update(
                        i as int,
                        PlayerEntryView {
                            discord_id: Some(discord_id),
                            link_timestamp: Some(now),
                            ..middle[i as int]
                        },
                    ));
                    Ok(self.entries[i].clone())
                }
            },
        }
    }

    /// Links a chat account to a game account now, by the system clock.
    pub fn link(
        &mut self,
        discord_id: u64,
        tetrio_id: &str,
        response: TetrioResponse<UserData>,
    ) -> (r: DatabaseResult<PlayerEntry>)
        requires
            old(self).wf(),
        ensures
            final(self).wf(),
            exists|now: i64|
                now >= 0 && (final(self)@, entry_result_view(r)) == #[trigger] linked(
                    old(self)@,
                    discord_id,
                    tetrio_id@,
                    now,
                    fetched_view(response),
                ),
    {
        let now: i64 = now_millis();
        self.link_at(discord_id, tetrio_id, now, response)
    }

    /// Removes the link of the game account meant by `tetrio_id`.
    pub fn unlink_by_tetrio(&mut self, tetrio_id: &str) -> (r: DatabaseResult<()>)
        requires
            old(self).wf(),
        ensures
            final(self).wf(),
            (final(self)@, unit_result_view(r)) == unlinked_by_tetrio(old(self)@, tetrio_id@),
    {
        let ghost before = self@;
        match self.position(tetrio_id) {
            None => Err(DatabaseError::NotFound),
            Some(i) => {
                if self.entries[i].discord_id.is_none() {
                    Err(DatabaseError::FieldNotSet)
                } else {
                    self.entries[i].discord_id = None;
                    self.entries[i].link_timestamp = None;
                    assert(self@ =~= unlinked_at(before, i as int));
                    Ok(())
                }
            },
        }
    }

    /// Removes the link of a chat account.
    pub fn unlink_by_discord(&mut self, discord_id: u64) -> (r: DatabaseResult<()>)
        requires
            old(self).wf(),
        ensures
            final(self).wf(),
            (final(self)@, unit_result_view(r)) == unlinked_by_discord(old(self)@, discord_id),
    {
        let ghost before = self@;
        match self.position_of_discord(discord_id) {
            None => Err(DatabaseError::NotFound),
            Some(i) => {
                self.entries[i].discord_id = None;
                self.entries[i].link_timestamp = None;
                assert(self@ =~= unlinked_at(before, i as int));
                Ok(())
            },
        }
    }

    /// A copy of every record, in the registry's order.
    pub fn get_players(&self) -> (r: Vec<PlayerEntry>)
        ensures
            r@.len() == self@.len(),
            forall|i: int| 0 <= i < r@.len() ==> (#[trigger] r@[i])@ == self@[i],
    {
        let mut copy: Vec<PlayerEntry> = Vec::new();
        let mut i: usize = 0;
        while i < self.entries.len()
            invariant
                i <= self.entries.len(),
                copy@.len() == i,
                forall|j: int| 0 <= j < i ==> (#[trigger] copy@[j]) == self.entries@[j],
            decreases self.entries.len() - i,
        {
            copy.push(self.entries[i].clone());
            i = i + 1;
        }
        copy
    }

    /// Removes every record.
    pub fn remove_all(&mut self)
        ensures
            final(self).wf(),
            final(self)@ == Seq::<PlayerEntryView>::empty(),
    {
        self.entries.clear();
    }
}

} // verus!
