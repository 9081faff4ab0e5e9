//! What holds of the player registry from one operation to the next.

use crate::database::players::{
    find_discord, find_id, having_id, linked, linked_to, needs_fetch, players_wf, refreshed,
    refreshed_at, upserted, upserted_all, upserted_at, answering, PlayerEntryView,
};
use crate::database::DatabaseErrorView;
use crate::search::{is_first_true, lemma_first_true, lemma_first_true_is, lemma_first_true_none};
use crate::tetrio::leaderboard::LeaderboardUserView;
use crate::tetrio::CacheDataView;
use vstd::prelude::*;

verus! {

/// A lookup changes no link: every record keeps its chat account and its
/// game account, a record that is added has no chat account, and every chat
/// account is found where it was found before.
pub proof fn lemma_refreshed_keeps_links(
    s: Seq<PlayerEntryView>,
    query: Seq<char>,
    now: i64,
    fetched: Result<(LeaderboardUserView, CacheDataView), Seq<char>>,
)
    ensures
        ({
            let t = refreshed(s, query, now, fetched).0;
            &&& s.len() <= t.len() <= s.len() + 1
            &&& forall|j: int|
                0 <= j < s.len() ==> (#[trigger] t[j]).discord_id == s[j].discord_id && t[j].tetrio_id
                    == s[j].tetrio_id && t[j].link_timestamp == s[j].link_timestamp
            &&& forall|j: int| s.len() <= j < t.len() ==> (#[trigger] t[j]).discord_id is None
            &&& forall|discord_id: u64| #[trigger]
                find_discord(t, discord_id) == find_discord(s, discord_id)
        }),
{
    match fetched {
        Ok((user, cache)) => {
            lemma_first_true(having_id(s, user._id));
        },
        Err(_) => {},
    }
    let t = refreshed(s, query, now, fetched).0;
    assert forall|discord_id: u64| #[trigger]
        find_discord(t, discord_id) == find_discord(s, discord_id) by {
        lemma_first_true(linked_to(s, discord_id));
        match find_discord(s, discord_id) {
            Some(i) => {
                assert(is_first_true(linked_to(t, discord_id), i)) by {
                    assert forall|j: int| 0 <= j < i implies !#[trigger] linked_to(t, discord_id)[j] by {
                        assert(!linked_to(s, discord_id)[j]);
                    }
                }
                lemma_first_true_is(linked_to(t, discord_id), i);
            },
            None => {
                assert forall|j: int| 0 <= j < t.len() implies !#[trigger] linked_to(
                    t,
                    discord_id,
                )[j] by {
                    if j < s.len() {
                        assert(!linked_to(s, discord_id)[j]);
                    }
                }
                lemma_first_true_none(linked_to(t, discord_id));
            },
        }
    }
}

/// Storing statistics keeps the registry valid, keeps every record's
/// identity and link, and gives a new record no link.
pub proof fn lemma_upserted(
    s: Seq<PlayerEntryView>,
    user: LeaderboardUserView,
    cache: CacheDataView,
)
    requires
        players_wf(s),
    ensures
        ({
            let t = upserted(s, user, cache);
            let k = upserted_at(s, user);
            &&& players_wf(t)
            &&& s.len() <= t.len() <= s.len() + 1
            &&& 0 <= k < t.len()
            &&& t[k].tetrio_id == user._id
            &&& t[k].tetrio_data == Some(user)
            &&& t[k].cache_data == Some(cache)
            &&& forall|j: int|
                0 <= j < s.len() ==> (#[trigger] t[j]).discord_id == s[j].discord_id && t[j].tetrio_id
                    == s[j].tetrio_id && t[j].link_timestamp == s[j].link_timestamp
            &&& forall|j: int| 0 <= j < s.len() && j != k ==> #[trigger] t[j] == s[j]
            &&& forall|j: int| s.len() <= j < t.len() ==> (#[trigger] t[j]).discord_id is None
        }),
{
    lemma_first_true(having_id(s, user._id));
    let t = upserted(s, user, cache);
    if find_id(s, user._id) is None {
        assert forall|j: int| 0 <= j < s.len() implies (#[trigger] t[j]).tetrio_id != user._id by {
            assert(!having_id(s, user._id)[j]);
        }
    }
}

/// A lookup keeps the registry valid. The record it returns is stored at
/// the position that `refreshed_at` names, and it holds statistics.
pub proof fn lemma_refreshed(
    s: Seq<PlayerEntryView>,
    query: Seq<char>,
    now: i64,
    fetched: Result<(LeaderboardUserView, CacheDataView), Seq<char>>,
)
    requires
        players_wf(s),
    ensures
        ({
            let (t, r) = refreshed(s, query, now, fetched);
            let k = refreshed_at(s, query, now, fetched);
            &&& players_wf(t)
            &&& r is Err ==> t == s
            &&& r matches Ok(entry) ==> 0 <= k < t.len() && t[k] == entry
                && entry.tetrio_data is Some
        }),
{
    lemma_first_true(answering(s, query));
    match fetched {
        Ok((user, cache)) => {
            lemma_upserted(s, user, cache);
        },
        Err(_) => {},
    }
}

/// A league table changes only the players that it lists: a record of an
/// account that the table does not list stays as it is, no record changes
/// its place, and no record loses or gains a link.
pub proof fn lemma_table_keeps_the_unlisted(
    s: Seq<PlayerEntryView>,
    users: Seq<LeaderboardUserView>,
    cache: CacheDataView,
)
    requires
        players_wf(s),
    ensures
        ({
            let t = upserted_all(s, users, cache);
            &&& players_wf(t)
            &&& s.len() <= t.len()
            &&& forall|j: int|
                0 <= j < s.len() ==> (#[trigger] t[j]).tetrio_id == s[j].tetrio_id && t[j].discord_id
                    == s[j].discord_id && t[j].link_timestamp == s[j].link_timestamp
            &&& forall|j: int| s.len() <= j < t.len() ==> (#[trigger] t[j]).discord_id is None
            &&& forall|j: int|
                0 <= j < s.len() && (forall|k: int|
                    0 <= k < users.len() ==> (#[trigger] users[k])._id != s[j].tetrio_id) ==> #[trigger] t[j]
                    == s[j]
        }),
    decreases users.len(),
{
    if users.len() > 0 {
        let shorter = users.drop_last();
        let m = upserted_all(s, shorter, cache);
        lemma_table_keeps_the_unlisted(s, shorter, cache);
        lemma_upserted(m, users.last(), cache);
        lemma_first_true(having_id(m, users.last()._id));
        let t = upserted_all(s, users, cache);
        assert forall|j: int|
            0 <= j < s.len() && (forall|k: int|
                0 <= k < users.len() ==> (#[trigger] users[k])._id != s[j].tetrio_id) implies #[trigger] t[j]
            == s[j] by {
            assert forall|k: int| 0 <= k < shorter.len() implies (#[trigger] shorter[k])._id
                != s[j].tetrio_id by {
                assert(shorter[k] == users[k]);
            }
            assert(m[j] == s[j]);
            assert(users[users.len() - 1]._id != s[j].tetrio_id);
            assert(upserted_at(m, users.last()) != j);
        }
    }
}

/// What holds after an attempt to link. The registry stays valid. A link
/// that was made is found again by its chat account, and the record found
/// is the one returned, with statistics. An attempt that met the same link
/// made no new one: the chat account is found as before, at a record that
/// holds statistics and belongs to the game account that the lookup found.
pub proof fn lemma_linked_record(
    s: Seq<PlayerEntryView>,
    discord_id: u64,
    query: Seq<char>,
    now: i64,
    fetched: Result<(LeaderboardUserView, CacheDataView), Seq<char>>,
)
    requires
        players_wf(s),
    ensures
        ({
            let (t, r) = linked(s, discord_id, query, now, fetched);
            &&& players_wf(t)
            &&& r matches Ok(record) ==> {
                &&& record.discord_id == Some(discord_id)
                &&& record.link_timestamp == Some(now)
                &&& record.tetrio_data is Some
                &&& find_discord(s, discord_id) is None
                &&& find_discord(t, discord_id) matches Some(k) && t[k] == record
            }
            &&& r == Err::<PlayerEntryView, DatabaseErrorView>(DatabaseErrorView::AlreadyLinked)
                ==> {
                &&& t == refreshed(s, query, now, fetched).0
                &&& find_discord(s, discord_id) is Some
                &&& find_discord(t, discord_id) == find_discord(s, discord_id)
                &&& find_discord(t, discord_id) matches Some(k) && t[k].tetrio_data is Some
                    && refreshed(s, query, now, fetched).1 == Ok::<
                    PlayerEntryView,
                    DatabaseErrorView,
                >(t[k])
            }
        }),
{
    lemma_refreshed(s, query, now, fetched);
    lemma_refreshed_keeps_links(s, query, now, fetched);
    let (m, found) = refreshed(s, query, now, fetched);
    let (t, r) = linked(s, discord_id, query, now, fetched);
    lemma_first_true(linked_to(m, discord_id));
    assert(find_discord(m, discord_id) == find_discord(s, discord_id));
    if found is Ok {
        let entry = found->Ok_0;
        let k = refreshed_at(s, query, now, fetched);
        match find_discord(m, discord_id) {
            Some(i) => {
                if m[i].tetrio_id == entry.tetrio_id {
                    if i < k {
                        assert(m[i].tetrio_id != m[k].tetrio_id);
                    }
                    if k < i {
                        assert(m[k].tetrio_id != m[i].tetrio_id);
                    }
                }
            },
            None => {
                if entry.discord_id is None {
                    assert forall|j: int| 0 <= j < m.len() implies (#[trigger] m[j]).discord_id
                        != Some(discord_id) by {
                        assert(!linked_to(m, discord_id)[j]);
                    }
                    assert(is_first_true(linked_to(t, discord_id), k)) by {
                        assert forall|j: int| 0 <= j < k implies !#[trigger] linked_to(
                            t,
                            discord_id,
                        )[j] by {
                            assert(t[j] == m[j]);
                        }
                    }
                    lemma_first_true_is(linked_to(t, discord_id), k);
                    assert(players_wf(t)) by {
                        assert forall|i: int, j: int| 0 <= i < j < t.len() implies (
                        #[trigger] t[i]).tetrio_id != (#[trigger] t[j]).tetrio_id by {
                            assert(t[i].tetrio_id == m[i].tetrio_id);
                            assert(t[j].tetrio_id == m[j].tetrio_id);
                        }
                        assert forall|i: int, j: int|
                            0 <= i < j < t.len() && (#[trigger] t[i]).discord_id is Some implies t[i].discord_id
                            != (#[trigger] t[j]).discord_id by {
                            if i != k {
                                assert(t[i] == m[i]);
                            }
                            if j != k {
                                assert(t[j] == m[j]);
                            }
                        }
                    }
                }
            },
        }
    }
}

/// A chat account has one link. After a link was made, no further attempt
/// to link the same chat account makes a link: the attempt fails with the
/// lookup's failure where the lookup fails, with `AlreadyLinked` where the
/// lookup finds the game account that is linked, and with
/// `DuplicateDiscordEntry` where it finds another. The chat account stays
/// linked to the record that it was linked to.
pub proof fn lemma_chat_account_links_once(
    s: Seq<PlayerEntryView>,
    discord_id: u64,
    query: Seq<char>,
    now: i64,
    fetched: Result<(LeaderboardUserView, CacheDataView), Seq<char>>,
    second_query: Seq<char>,
    second_now: i64,
    second_fetched: Result<(LeaderboardUserView, CacheDataView), Seq<char>>,
)
    requires
        players_wf(s),
        linked(s, discord_id, query, now, fetched).1 is Ok,
    ensures
        ({
            let (t, r) = linked(s, discord_id, query, now, fetched);
            let record = r->Ok_0;
            let (u, again) = linked(t, discord_id, second_query, second_now, second_fetched);
            let (looked, found) = refreshed(t, second_query, second_now, second_fetched);
            &&& u == looked
            &&& find_discord(u, discord_id) == find_discord(t, discord_id)
            &&& u[find_discord(u, discord_id)->0].tetrio_id == record.tetrio_id
            &&& match found {
                Err(error) => again == Err::<PlayerEntryView, DatabaseErrorView>(error),
                Ok(entry) => if entry.tetrio_id == record.tetrio_id {
                    again == Err::<PlayerEntryView, DatabaseErrorView>(
                        DatabaseErrorView::AlreadyLinked,
                    )
                } else {
                    again == Err::<PlayerEntryView, DatabaseErrorView>(
                        DatabaseErrorView::DuplicateDiscordEntry,
                    )
                },
            }
        }),
{
    lemma_linked_record(s, discord_id, query, now, fetched);
    let t = linked(s, discord_id, query, now, fetched).0;
    lemma_refreshed_keeps_links(t, second_query, second_now, second_fetched);
    lemma_first_true(linked_to(t, discord_id));
}

/// A game account has one link. After a link was made, an attempt to link
/// another chat account, one that has no link itself, to the same game
/// account fails with `DuplicateTetrioEntry`.
pub proof fn lemma_game_account_links_once(
    s: Seq<PlayerEntryView>,
    discord_id: u64,
    query: Seq<char>,
    now: i64,
    fetched: Result<(LeaderboardUserView, CacheDataView), Seq<char>>,
    other_discord_id: u64,
    second_query: Seq<char>,
    second_now: i64,
    second_fetched: Result<(LeaderboardUserView, CacheDataView), Seq<char>>,
)
    requires
        players_wf(s),
        linked(s, discord_id, query, now, fetched).1 is Ok,
        other_discord_id != discord_id,
        find_discord(linked(s, discord_id, query, now, fetched).0, other_discord_id) is None,
        ({
            let (t, r) = linked(s, discord_id, query, now, fetched);
            refreshed(t, second_query, second_now, second_fetched).1 matches Ok(entry)
                && entry.tetrio_id == r->Ok_0.tetrio_id
        }),
    ensures
        ({
            let t = linked(s, discord_id, query, now, fetched).0;
            linked(t, other_discord_id, second_query, second_now, second_fetched).1 == Err::<
                PlayerEntryView,
                DatabaseErrorView,
            >(DatabaseErrorView::DuplicateTetrioEntry)
        }),
{
    lemma_linked_record(s, discord_id, query, now, fetched);
    let (t, r) = linked(s, discord_id, query, now, fetched);
    let record = r->Ok_0;
    lemma_first_true(linked_to(t, discord_id));
    let k = find_discord(t, discord_id)->0;
    lemma_refreshed(t, second_query, second_now, second_fetched);
    lemma_refreshed_keeps_links(t, second_query, second_now, second_fetched);
    let (u, found) = refreshed(t, second_query, second_now, second_fetched);
    let entry = found->Ok_0;
    let m = refreshed_at(t, second_query, second_now, second_fetched);
    assert(u[m] == entry);
    assert(u[k].tetrio_id == t[k].tetrio_id);
    if m != k {
        if m < k {
            assert(u[m].tetrio_id != u[k].tetrio_id);
        } else {
            assert(u[k].tetrio_id != u[m].tetrio_id);
        }
    }
    assert(u[k].discord_id == t[k].discord_id);
}

/// Where no answer of the data service is needed, none is used: a lookup
/// and a link come out the same whatever the service answered.
pub proof fn lemma_unneeded_answer_is_unused(
    s: Seq<PlayerEntryView>,
    discord_id: u64,
    query: Seq<char>,
    now: i64,
    fetched: Result<(LeaderboardUserView, CacheDataView), Seq<char>>,
    other: Result<(LeaderboardUserView, CacheDataView), Seq<char>>,
)
    requires
        !needs_fetch(s, query, now),
    ensures
        refreshed(s, query, now, fetched) == refreshed(s, query, now, other),
        linked(s, discord_id, query, now, fetched) == linked(s, discord_id, query, now, other),
{
}

} // verus!
