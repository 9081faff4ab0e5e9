//! Rank histories: the ranks that each player has held, and the highest
//! among them.

use crate::clock::{rfc3339_of_seconds, rfc3339_text};
use crate::rank::Rank;
use crate::search::{first_true, is_first_true, lemma_first_true_is, lemma_first_true_none};
use crate::text::{lowercase, str_eq, to_lowercase};
use vstd::prelude::*;

verus! {

/// The ranks that one player has held, as lower-case codes, oldest first.
#[derive(Debug, PartialEq, Eq)]
pub struct RankHistory {
    pub rank: Vec<String>,
}

/// The mathematical content of a list of texts.
pub open spec fn texts_view(texts: Seq<String>) -> Seq<Seq<char>> {
    Seq::new(texts.len(), |i: int| texts[i]@)
}

impl View for RankHistory {
    type V = Seq<Seq<char>>;

    open spec fn view(&self) -> Seq<Seq<char>> {
        texts_view(self.rank@)
    }
}

/// The ranks that a list of codes stands for.
pub open spec fn ranks_of(codes: Seq<Seq<char>>) -> Seq<Rank> {
    Seq::new(codes.len(), |i: int| Rank::parse(codes[i]))
}

/// The highest rank that a list of codes holds, `Unranked` for an empty
/// list. Of several codes of the highest rank the first counts.
pub open spec fn highest(codes: Seq<Seq<char>>) -> Rank
    decreases codes.len(),
{
    if codes.len() == 0 {
        Rank::Unranked
    } else {
        let before = highest(codes.drop_last());
        let last = Rank::parse(codes.last());
        if last.tier() > before.tier() {
            last
        } else {
            before
        }
    }
}

impl RankHistory {
    /// The ranks held, oldest first.
    pub fn ranks(&self) -> (r: Vec<Rank>)
        ensures
            r@ == ranks_of(self@),
    {
        let mut ranks: Vec<Rank> = Vec::new();
        let mut i: usize = 0;
        while i < self.rank.len()
            invariant
                i <= self.rank.len(),
                ranks@.len() == i,
                forall|j: int| 0 <= j < i ==> #[trigger] ranks@[j] == Rank::parse(self.rank@[j]@),
            decreases self.rank.len() - i,
        {
            ranks.push(Rank::from_str(self.rank[i].as_str()));
            i = i + 1;
        }
        assert(ranks@ =~= ranks_of(self@));
        ranks
    }

    /// The highest rank held.
    pub fn highest_rank(&self) -> (r: Rank)
        ensures
            r == highest(self@),
    {
        let mut best = Rank::Unranked;
        let mut i: usize = 0;
        assert(self@.subrange(0, 0) =~= Seq::<Seq<char>>::empty());
        while i < self.rank.len()
            invariant
                i <= self.rank.len(),
                best == highest(self@.subrange(0, i as int)),
            decreases self.rank.len() - i,
        {
            let held = Rank::from_str(self.rank[i].as_str());
            proof {
                let next = self@.subrange(0, i + 1);
                assert(next.drop_last() =~= self@.subrange(0, i as int));
                assert(next.last() == self.rank@[i as int]@);
            }
            if held.is_above(&best) {
                best = held;
            }
            i = i + 1;
        }
        assert(self@.subrange(0, i as int) =~= self@);
        best
    }
}

/// The highest rank of a list is held in the list, unless the list holds
/// nothing above `Unranked`, and no rank in the list is above it.
pub proof fn lemma_highest(codes: Seq<Seq<char>>)
    ensures
        forall|i: int|
            0 <= i < codes.len() ==> Rank::parse(#[trigger] codes[i]).tier() <= highest(
                codes,
            ).tier(),
        highest(codes) != Rank::Unranked ==> exists|i: int|
            0 <= i < codes.len() && Rank::parse(#[trigger] codes[i]) == highest(codes),
    decreases codes.len(),
{
    if codes.len() > 0 {
        let shorter = codes.drop_last();
        lemma_highest(shorter);
        assert forall|i: int| 0 <= i < codes.len() implies Rank::parse(
            #[trigger] codes[i],
        ).tier() <= highest(codes).tier() by {
            if i < shorter.len() {
                assert(codes[i] == shorter[i]);
            }
        }
        if highest(codes) != Rank::Unranked {
            if Rank::parse(codes.last()).tier() > highest(shorter).tier() {
                assert(Rank::parse(codes[codes.len() - 1]) == highest(codes));
            } else {
                let i = choose|i: int|
                    0 <= i < shorter.len() && Rank::parse(#[trigger] shorter[i]) == highest(
                        shorter,
                    );
                assert(codes[i] == shorter[i]);
            }
        }
    }
}

/// The rank histories of many players as the history service publishes
/// them: for each player's name, the ranks they have held.
#[derive(Debug, PartialEq, Eq)]
pub struct PlayerHistory {
    /// When the histories were compiled, in seconds since the Unix epoch.
    pub timestamp_offset: i64,
    /// The histories by the players' lower-case names. Where a name occurs
    /// twice, the first occurrence counts.
    pub ranks: Vec<(String, RankHistory)>,
}

/// The mathematical content of a [`PlayerHistory`].
pub struct PlayerHistoryView {
    pub timestamp_offset: i64,
    pub ranks: Seq<(Seq<char>, Seq<Seq<char>>)>,
}

/// The mathematical content of a list of histories.
pub open spec fn histories_view(list: Seq<(String, RankHistory)>) -> Seq<
    (Seq<char>, Seq<Seq<char>>),
> {
    Seq::new(list.len(), |i: int| (list[i].0@, list[i].1@))
}

impl View for PlayerHistory {
    type V = PlayerHistoryView;

    open spec fn view(&self) -> PlayerHistoryView {
        PlayerHistoryView {
            timestamp_offset: self.timestamp_offset,
            ranks: histories_view(self.ranks@),
        }
    }
}

/// For each history, whether it is that of the player `name`.
pub open spec fn history_of(list: Seq<(Seq<char>, Seq<Seq<char>>)>, name: Seq<char>) -> Seq<bool> {
    Seq::new(list.len(), |i: int| list[i].0 == name)
}

impl PlayerHistory {
    /// The ranks that a player has held, oldest first. The name is looked
    /// up in lower case.
    pub fn get_ranks(&self, username: &str) -> (r: Option<Vec<Rank>>)
        ensures
            match first_true(history_of(self@.ranks, lowercase(username@))) {
                Some(i) => r is Some && r->0@ == ranks_of(self@.ranks[i].1),
                None => r is None,
            },
    {
        let name = to_lowercase(username);
        let ghost marks = history_of(self@.ranks, name@);
        let mut i: usize = 0;
        while i < self.ranks.len()
            invariant
                i <= self.ranks.len(),
                name@ == lowercase(username@),
                marks == history_of(self@.ranks, name@),
                forall|j: int| 0 <= j < i ==> !#[trigger] marks[j],
            decreases self.ranks.len() - i,
        {
            if str_eq(self.ranks[i].0.as_str(), name.as_str()) {
                proof {
                    assert(is_first_true(marks, i as int));
                    lemma_first_true_is(marks, i as int);
                }
                return Some(self.ranks[i].1.ranks());
            }
            i = i + 1;
        }
        proof {
            lemma_first_true_none(marks);
        }
        None
    }
}

/// For each player's name the code of the highest rank they have held.
#[derive(Debug, PartialEq, Eq)]
pub struct HighestRanks {
    /// When the histories were compiled, as an RFC 3339 text.
    pub timestamp: String,
    /// The codes by the players' names. Where a name occurs twice, the
    /// first occurrence counts.
    pub ranks: Vec<(String, String)>,
}

/// The mathematical content of a [`HighestRanks`].
pub struct HighestRanksView {
    pub timestamp: Seq<char>,
    pub ranks: Seq<(Seq<char>, Seq<char>)>,
}

/// The mathematical content of a list of names with codes.
pub open spec fn codes_view(list: Seq<(String, String)>) -> Seq<(Seq<char>, Seq<char>)> {
    Seq::new(list.len(), |i: int| (list[i].0@, list[i].1@))
}

impl View for HighestRanks {
    type V = HighestRanksView;

    open spec fn view(&self) -> HighestRanksView {
        HighestRanksView { timestamp: self.timestamp@, ranks: codes_view(self.ranks@) }
    }
}

/// For each name with its code, whether the name is `name`.
pub open spec fn code_of(list: Seq<(Seq<char>, Seq<char>)>, name: Seq<char>) -> Seq<bool> {
    Seq::new(list.len(), |i: int| list[i].0 == name)
}

/// For each history the player's name with the code of their highest rank.
pub open spec fn highest_codes(list: Seq<(Seq<char>, Seq<Seq<char>>)>) -> Seq<
    (Seq<char>, Seq<char>),
> {
    Seq::new(list.len(), |i: int| (list[i].0, highest(list[i].1).code()))
}

impl HighestRanks {
    /// The highest rank of a player, `Unranked` for a player without a
    /// history.
    pub fn get(&self, username: &str) -> (r: Rank)
        ensures
            r == match first_true(code_of(self@.ranks, username@)) {
                Some(i) => Rank::parse(self@.ranks[i].1),
                None => Rank::Unranked,
            },
    {
        let ghost marks = code_of(self@.ranks, username@);
        let mut i: usize = 0;
        while i < self.ranks.len()
            invariant
                i <= self.ranks.len(),
                marks == code_of(self@.ranks, username@),
                forall|j: int| 0 <= j < i ==> !#[trigger] marks[j],
            decreases self.ranks.len() - i,
        {
            if str_eq(self.ranks[i].0.as_str(), username) {
                proof {
                    assert(is_first_true(marks, i as int));
                    lemma_first_true_is(marks, i as int);
                }
                return Rank::from_str(self.ranks[i].1.as_str());
            }
            i = i + 1;
        }
        proof {
            lemma_first_true_none(marks);
        }
        Rank::Unranked
    }

    /// The highest ranks of the players of a history, under the given time
    /// of compilation.
    pub fn with_timestamp(history: &PlayerHistory, timestamp: String) -> (r: HighestRanks)
        ensures
            r@ == (HighestRanksView {
                timestamp: timestamp@,
                ranks: highest_codes(history@.ranks),
            }),
    {
        let mut ranks: Vec<(String, String)> = Vec::new();
        let mut i: usize = 0;
        while i < history.ranks.len()
            invariant
                i <= history.ranks.len(),
                ranks@.len() == i,
                forall|j: int|
                    0 <= j < i ==> (#[trigger] ranks@[j]).0@ == history.ranks@[j].0@ && ranks@[j].1@
                        == highest(history.ranks@[j].1@).code(),
            decreases history.ranks.len() - i,
        {
            let best = history.ranks[i].1.highest_rank();
            ranks.push((history.ranks[i].0.clone(), best.to_str().to_owned()));
            i = i + 1;
        }
        let r = HighestRanks { timestamp, ranks };
        assert(r@.ranks =~= highest_codes(history@.ranks));
        r
    }

    /// The highest ranks of the players of a history. There are none where
    /// the history's time of compilation is no instant that can be written
    /// down.
    pub fn from_history(history: &PlayerHistory) -> (r: Option<HighestRanks>)
        ensures
            match rfc3339_text(history@.timestamp_offset) {
                Some(text) => r is Some && r->0@ == (HighestRanksView {
                    timestamp: text,
                    ranks: highest_codes(history@.ranks),
                }),
                None => r is None,
            },
    {
        match rfc3339_of_seconds(history.timestamp_offset) {
            Some(timestamp) => Some(HighestRanks::with_timestamp(history, timestamp)),
            None => None,
        }
    }
}

} // verus!
