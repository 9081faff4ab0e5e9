//! What holds of the tournament registry from one operation to the next.

use crate::database::players::laws::{lemma_linked_record, lemma_refreshed_keeps_links};
use crate::database::players::{find_discord, linked_to, players_wf, PlayerEntryView};
use crate::database::tournaments::{
    activated, active_ones, admitted, find_active, find_tournament, is_registered, named,
    registered, registered_as, registrations_wf, resolved, tournaments_wf, with_registration,
    RegistrationErrorView, TournamentEntryView,
};
use crate::database::DatabaseErrorView;
use crate::search::{
    lemma_first_true, lemma_first_true_is, lemma_first_true_none, lemma_some_true_has_first,
    is_first_true,
};
use crate::tetrio::leaderboard::LeaderboardUserView;
use crate::tetrio::CacheDataView;
use vstd::prelude::*;

verus! {

/// After a tournament was made the active one, it is the only active one,
/// and it is the one that the registry reports as active.
pub proof fn lemma_one_active(s: Seq<TournamentEntryView>, query: Seq<char>)
    requires
        tournaments_wf(s),
        find_tournament(s, query) is Some,
    ensures
        ({
            let (t, r) = activated(s, Some(query));
            let i = find_tournament(s, query)->0;
            &&& tournaments_wf(t)
            &&& t.len() == s.len()
            &&& 0 <= i < t.len()
            &&& forall|j: int| 0 <= j < t.len() ==> ((#[trigger] t[j]).active <==> j == i)
            &&& find_active(t) == Some(i)
            &&& r == Ok::<Option<TournamentEntryView>, DatabaseErrorView>(Some(t[i]))
            &&& forall|other: Seq<char>| #[trigger] named(t, other) == named(s, other)
        }),
{
    lemma_first_true(named(s, query));
    let t = activated(s, Some(query)).0;
    let i = find_tournament(s, query)->0;
    assert(is_first_true(active_ones(t), i));
    lemma_first_true_is(active_ones(t), i);
    assert forall|other: Seq<char>| #[trigger] named(t, other) == named(s, other) by {
        assert(named(t, other) =~= named(s, other));
    }
}

/// After every tournament was made inactive, none is active.
pub proof fn lemma_none_active(s: Seq<TournamentEntryView>)
    requires
        tournaments_wf(s),
    ensures
        ({
            let (t, r) = activated(s, None);
            &&& tournaments_wf(t)
            &&& forall|j: int| 0 <= j < t.len() ==> !(#[trigger] t[j]).active
            &&& find_active(t) is None
            &&& r == Ok::<Option<TournamentEntryView>, DatabaseErrorView>(None)
        }),
{
    let t = activated(s, None).0;
    lemma_first_true_none(active_ones(t));
}

/// Of two tournaments made active one after the other, the second is the
/// active one afterwards, and no other.
pub proof fn lemma_last_activation_wins(
    s: Seq<TournamentEntryView>,
    first: Seq<char>,
    second: Seq<char>,
)
    requires
        tournaments_wf(s),
        find_tournament(s, first) is Some,
        find_tournament(s, second) is Some,
    ensures
        ({
            let t = activated(activated(s, Some(first)).0, Some(second)).0;
            let i = find_tournament(s, second)->0;
            &&& find_active(t) == Some(i)
            &&& forall|j: int| 0 <= j < t.len() ==> ((#[trigger] t[j]).active <==> j == i)
            &&& t[i].name == s[i].name
        }),
{
    lemma_one_active(s, first);
    let m = activated(s, Some(first)).0;
    assert(named(m, second) == named(s, second));
    lemma_one_active(m, second);
    lemma_first_true(named(s, second));
}

/// Without an active tournament nobody can register.
pub proof fn lemma_no_registration_without_active(
    s: Seq<TournamentEntryView>,
    p: Seq<PlayerEntryView>,
    tetrio_id: Option<Seq<char>>,
    discord_id: u64,
    is_staff_override: bool,
    now: i64,
    fetched: Result<(LeaderboardUserView, CacheDataView), Seq<char>>,
)
    requires
        tournaments_wf(s),
    ensures
        registered(
            activated(s, None).0,
            p,
            tetrio_id,
            discord_id,
            is_staff_override,
            now,
            fetched,
        ) == (
            activated(s, None).0,
            p,
            Err::<PlayerEntryView, RegistrationErrorView>(RegistrationErrorView::NoTournamentActive),
        ),
{
    lemma_none_active(s);
}

/// What holds after a registration that succeeded: both registries are
/// valid, the player is linked to the chat account and found by it, the
/// active tournament is the same, and its list is the list of before with
/// the player's registration at the end.
pub proof fn lemma_registered(
    s: Seq<TournamentEntryView>,
    p: Seq<PlayerEntryView>,
    tetrio_id: Option<Seq<char>>,
    discord_id: u64,
    is_staff_override: bool,
    now: i64,
    fetched: Result<(LeaderboardUserView, CacheDataView), Seq<char>>,
)
    requires
        tournaments_wf(s),
        players_wf(p),
        registered(s, p, tetrio_id, discord_id, is_staff_override, now, fetched).2 is Ok,
    ensures
        ({
            let (t, q, r) = registered(s, p, tetrio_id, discord_id, is_staff_override, now, fetched);
            let player = r->Ok_0;
            let a = find_active(s)->0;
            &&& tournaments_wf(t)
            &&& players_wf(q)
            &&& find_active(s) is Some
            &&& find_active(t) == Some(a)
            &&& 0 <= a < s.len()
            &&& t == s.update(a, with_registration(s[a], player.tetrio_id, now))
            &&& !is_registered(s[a].registered_players, player.tetrio_id)
            &&& is_registered(t[a].registered_players, player.tetrio_id)
            &&& find_discord(q, discord_id) matches Some(k) && q[k] == player
        }),
{
    let (t, q, r) = registered(s, p, tetrio_id, discord_id, is_staff_override, now, fetched);
    let player = r->Ok_0;
    let a = find_active(s)->0;
    lemma_first_true(active_ones(s));
    lemma_first_true(linked_to(p, discord_id));
    match tetrio_id {
        Some(query) => {
            lemma_linked_record(p, discord_id, query, now, fetched);
        },
        None => {},
    }
    let list = s[a].registered_players;
    lemma_first_true(registered_as(list, player.tetrio_id));
    assert(active_ones(t) =~= active_ones(s));
    let longer = t[a].registered_players;
    assert(registered_as(longer, player.tetrio_id)[list.len() as int]);
    lemma_some_true_has_first(
        registered_as(longer, player.tetrio_id),
        list.len() as int,
    );
    assert(registrations_wf(longer)) by {
        assert forall|i: int, j: int| 0 <= i < j < longer.len() implies (
        #[trigger] longer[i]).tetrio_id != (#[trigger] longer[j]).tetrio_id by {
            if j == list.len() {
                assert(!registered_as(list, player.tetrio_id)[i]);
                assert(longer[i] == list[i]);
            } else {
                assert(longer[i] == list[i]);
                assert(longer[j] == list[j]);
            }
        }
    }
}

/// Nobody registers twice. After a player was registered, no further
/// attempt by the same chat account registers anybody, whatever game account
/// it names, and every list of registrations stays as it is. If the attempt
/// makes out a player at all, it is the player who is registered, and where
/// the tournament admits them, as it does under a staff override, the
/// attempt fails with `AlreadyRegistered`.
pub proof fn lemma_registers_once(
    s: Seq<TournamentEntryView>,
    p: Seq<PlayerEntryView>,
    tetrio_id: Option<Seq<char>>,
    discord_id: u64,
    is_staff_override: bool,
    now: i64,
    fetched: Result<(LeaderboardUserView, CacheDataView), Seq<char>>,
    again_tetrio_id: Option<Seq<char>>,
    again_staff_override: bool,
    again_now: i64,
    again_fetched: Result<(LeaderboardUserView, CacheDataView), Seq<char>>,
)
    requires
        tournaments_wf(s),
        players_wf(p),
        registered(s, p, tetrio_id, discord_id, is_staff_override, now, fetched).2 is Ok,
    ensures
        ({
            let (t, q, r) = registered(s, p, tetrio_id, discord_id, is_staff_override, now, fetched);
            let player = r->Ok_0;
            let a = find_active(t)->0;
            let (u, _, again) = registered(
                t,
                q,
                again_tetrio_id,
                discord_id,
                again_staff_override,
                again_now,
                again_fetched,
            );
            let who = resolved(q, again_tetrio_id, discord_id, again_now, again_fetched).1;
            &&& u == t
            &&& again is Err
            &&& again_tetrio_id is None ==> who == Ok::<PlayerEntryView, RegistrationErrorView>(
                player,
            )
            &&& who matches Ok(candidate) ==> {
                &&& candidate.tetrio_id == player.tetrio_id
                &&& admitted(t[a], candidate, true) is Ok
                &&& admitted(t[a], candidate, again_staff_override) is Ok ==> again == Err::<
                    PlayerEntryView,
                    RegistrationErrorView,
                >(RegistrationErrorView::AlreadyRegistered)
            }
        }),
{
    lemma_registered(s, p, tetrio_id, discord_id, is_staff_override, now, fetched);
    let (t, q, r) = registered(s, p, tetrio_id, discord_id, is_staff_override, now, fetched);
    lemma_first_true(linked_to(q, discord_id));
    match again_tetrio_id {
        Some(query) => {
            lemma_linked_record(q, discord_id, query, again_now, again_fetched);
            lemma_refreshed_keeps_links(
                q,
                query,
                again_now,
                again_fetched,
            );
        },
        None => {},
    }
}

} // verus!
