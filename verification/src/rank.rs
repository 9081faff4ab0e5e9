//! League ranks: a fixed ladder of eighteen tiers.

use crate::text::str_eq;
use std::cmp::Ordering;
use vstd::prelude::*;
use vstd::string::StringExecFns;

verus! {

/// A player's league rank. The variants are listed from the lowest tier to
/// the highest, and the derived order follows the listing.
#[derive(Clone, Copy, Debug, PartialEq, Eq, Structural, PartialOrd, Ord, Hash)]
pub enum Rank {
    Unranked,
    D,
    DPlus,
    CMinus,
    C,
    CPlus,
    BMinus,
    B,
    BPlus,
    AMinus,
    A,
    APlus,
    SMinus,
    S,
    SPlus,
    SS,
    U,
    X,
}

/// The position of the highest tier.
pub const TOP_TIER: usize = 17;

impl Rank {
    /// The position of a rank on the ladder, `Unranked` being 0 and `X` 17.
    pub open spec fn tier(self) -> int {
        match self {
            Rank::Unranked => 0,
            Rank::D => 1,
            Rank::DPlus => 2,
            Rank::CMinus => 3,
            Rank::C => 4,
            Rank::CPlus => 5,
            Rank::BMinus => 6,
            Rank::B => 7,
            Rank::BPlus => 8,
            Rank::AMinus => 9,
            Rank::A => 10,
            Rank::APlus => 11,
            Rank::SMinus => 12,
            Rank::S => 13,
            Rank::SPlus => 14,
            Rank::SS => 15,
            Rank::U => 16,
            Rank::X => 17,
        }
    }

    /// The rank at a position; positions below the ladder give `Unranked`,
    /// positions above it give `X`.
    pub open spec fn at_tier(i: int) -> Rank {
        if i <= 0 {
            Rank::Unranked
        } else if i == 1 {
            Rank::D
        } else if i == 2 {
            Rank::DPlus
        } else if i == 3 {
            Rank::CMinus
        } else if i == 4 {
            Rank::C
        } else if i == 5 {
            Rank::CPlus
        } else if i == 6 {
            Rank::BMinus
        } else if i == 7 {
            Rank::B
        } else if i == 8 {
            Rank::BPlus
        } else if i == 9 {
            Rank::AMinus
        } else if i == 10 {
            Rank::A
        } else if i == 11 {
            Rank::APlus
        } else if i == 12 {
            Rank::SMinus
        } else if i == 13 {
            Rank::S
        } else if i == 14 {
            Rank::SPlus
        } else if i == 15 {
            Rank::SS
        } else if i == 16 {
            Rank::U
        } else {
            Rank::X
        }
    }

    /// The whole ladder, lowest tier first.
    pub open spec fn ladder() -> Seq<Rank> {
        Seq::new(18, |i: int| Rank::at_tier(i))
    }

    /// The lower-case code of a rank; `Unranked` is written `z`.
    pub open spec fn code(self) -> Seq<char> {
        match self {
            Rank::D => "d"@,
            Rank::DPlus => "d+"@,
            Rank::CMinus => "c-"@,
            Rank::C => "c"@,
            Rank::CPlus => "c+"@,
            Rank::BMinus => "b-"@,
            Rank::B => "b"@,
            Rank::BPlus => "b+"@,
            Rank::AMinus => "a-"@,
            Rank::A => "a"@,
            Rank::APlus => "a+"@,
            Rank::SMinus => "s-"@,
            Rank::S => "s"@,
            Rank::SPlus => "s+"@,
            Rank::SS => "ss"@,
            Rank::U => "u"@,
            Rank::X => "x"@,
            Rank::Unranked => "z"@,
        }
    }

    /// The rank that a code stands for. Every text that is not the code of a
    /// ranked tier, `z` among them, stands for `Unranked`.
    pub open spec fn parse(s: Seq<char>) -> Rank {
        if s == "d"@ {
            Rank::D
        } else if s == "d+"@ {
            Rank::DPlus
        } else if s == "c-"@ {
            Rank::CMinus
        } else if s == "c"@ {
            Rank::C
        } else if s == "c+"@ {
            Rank::CPlus
        } else if s == "b-"@ {
            Rank::BMinus
        } else if s == "b"@ {
            Rank::B
        } else if s == "b+"@ {
            Rank::BPlus
        } else if s == "a-"@ {
            Rank::AMinus
        } else if s == "a"@ {
            Rank::A
        } else if s == "a+"@ {
            Rank::APlus
        } else if s == "s-"@ {
            Rank::SMinus
        } else if s == "s"@ {
            Rank::S
        } else if s == "s+"@ {
            Rank::SPlus
        } else if s == "ss"@ {
            Rank::SS
        } else if s == "u"@ {
            Rank::U
        } else if s == "x"@ {
            Rank::X
        } else {
            Rank::Unranked
        }
    }

    /// The rank `n` tiers above this one, `X` where the ladder ends before.
    pub open spec fn advanced(self, n: int) -> Rank {
        if self.tier() + n >= 17 {
            Rank::X
        } else {
            Rank::at_tier(self.tier() + n)
        }
    }

    /// The rank's colour as six hexadecimal digits, without `#`.
    pub open spec fn color(self) -> Seq<char> {
        match self {
            Rank::Unranked => "828282"@,
            Rank::D => "856C84"@,
            Rank::DPlus => "815880"@,
            Rank::CMinus => "6C417C"@,
            Rank::C => "67287B"@,
            Rank::CPlus => "522278"@,
            Rank::BMinus => "5949BE"@,
            Rank::B => "4357B5"@,
            Rank::BPlus => "4880B2"@,
            Rank::AMinus => "35AA8C"@,
            Rank::A => "3EA750"@,
            Rank::APlus => "43b536"@,
            Rank::SMinus => "B79E2B"@,
            Rank::S => "d19e26"@,
            Rank::SPlus => "dbaf37"@,
            Rank::SS => "e39d3b"@,
            Rank::U => "c75c2e"@,
            Rank::X => "b852bf"@,
        }
    }
    /// The rank's emoji on the community's chat server.
    pub open spec fn emoji(self) -> Seq<char> {
        match self {
            Rank::Unranked => "<:rank_unranked:790331415836622868>"@,
            Rank::D => "<:rank_d:758747881896149052>"@,
            Rank::DPlus => "<:rank_dplus:758747881603072061>"@,
            Rank::CMinus => "<:rank_cminus:758747881791422464>"@,
            Rank::C => "<:rank_c:758747881808068622>"@,
            Rank::CPlus => "<:rank_cplus:758747881833889802>"@,
            Rank::BMinus => "<:rank_bminus:758747881833365505>"@,
            Rank::B => "<:rank_b:758747881779232778>"@,
            Rank::BPlus => "<:rank_bplus:758747881854337034>"@,
            Rank::AMinus => "<:rank_aminus:758747881657204775>"@,
            Rank::A => "<:rank_a:758747881682763797>"@,
            Rank::APlus => "<:rank_aplus:758747881820913684>"@,
            Rank::SMinus => "<:rank_sminus:758747881820651561>"@,
            Rank::S => "<:rank_s:758747881728507986>"@,
            Rank::SPlus => "<:rank_splus:758747881951461417>"@,
            Rank::SS => "<:rank_ss:758747882425024572>"@,
            Rank::U => "<:rank_u:758747882127097887>"@,
            Rank::X => "<:rank_x:758747882215047169>"@,
        }
    }
    /// The upper-case code of a rank, as shown to people.
    pub open spec fn display_code(self) -> Seq<char> {
        match self {
            Rank::Unranked => "Z"@,
            Rank::D => "D"@,
            Rank::DPlus => "D+"@,
            Rank::CMinus => "C-"@,
            Rank::C => "C"@,
            Rank::CPlus => "C+"@,
            Rank::BMinus => "B-"@,
            Rank::B => "B"@,
            Rank::BPlus => "B+"@,
            Rank::AMinus => "A-"@,
            Rank::A => "A"@,
            Rank::APlus => "A+"@,
            Rank::SMinus => "S-"@,
            Rank::S => "S"@,
            Rank::SPlus => "S+"@,
            Rank::SS => "SS"@,
            Rank::U => "U"@,
            Rank::X => "X"@,
        }
    }
    /// Parses a lower-case rank code; anything unrecognised is `Unranked`.
    pub fn from_str(s: &str) -> (r: Rank)
        ensures
            r == Rank::parse(s@),
    {
        if str_eq(s, "d") {
            Rank::D
        } else if str_eq(s, "d+") {
            Rank::DPlus
        } else if str_eq(s, "c-") {
            Rank::CMinus
        } else if str_eq(s, "c") {
            Rank::C
        } else if str_eq(s, "c+") {
            Rank::CPlus
        } else if str_eq(s, "b-") {
            Rank::BMinus
        } else if str_eq(s, "b") {
            Rank::B
        } else if str_eq(s, "b+") {
            Rank::BPlus
        } else if str_eq(s, "a-") {
            Rank::AMinus
        } else if str_eq(s, "a") {
            Rank::A
        } else if str_eq(s, "a+") {
            Rank::APlus
        } else if str_eq(s, "s-") {
            Rank::SMinus
        } else if str_eq(s, "s") {
            Rank::S
        } else if str_eq(s, "s+") {
            Rank::SPlus
        } else if str_eq(s, "ss") {
            Rank::SS
        } else if str_eq(s, "u") {
            Rank::U
        } else if str_eq(s, "x") {
            Rank::X
        } else {
            Rank::Unranked
        }
    }

    /// The lower-case code, as used in URLs.
    pub fn to_str(&self) -> (r: &'static str)
        ensures
            r@ == self.code(),
    {
        match self {
            Rank::D => "d",
            Rank::DPlus => "d+",
            Rank::CMinus => "c-",
            Rank::C => "c",
            Rank::CPlus => "c+",
            Rank::BMinus => "b-",
            Rank::B => "b",
            Rank::BPlus => "b+",
            Rank::AMinus => "a-",
            Rank::A => "a",
            Rank::APlus => "a+",
            Rank::SMinus => "s-",
            Rank::S => "s",
            Rank::SPlus => "s+",
            Rank::SS => "ss",
            Rank::U => "u",
            Rank::X => "x",
            Rank::Unranked => "z",
        }
    }

    /// The position on the ladder.
    pub fn index(&self) -> (i: usize)
        ensures
            i == self.tier(),
    {
        match self {
            Rank::Unranked => 0,
            Rank::D => 1,
            Rank::DPlus => 2,
            Rank::CMinus => 3,
            Rank::C => 4,
            Rank::CPlus => 5,
            Rank::BMinus => 6,
            Rank::B => 7,
            Rank::BPlus => 8,
            Rank::AMinus => 9,
            Rank::A => 10,
            Rank::APlus => 11,
            Rank::SMinus => 12,
            Rank::S => 13,
            Rank::SPlus => 14,
            Rank::SS => 15,
            Rank::U => 16,
            Rank::X => 17,
        }
    }

    /// The rank at a position, `X` for every position past the ladder.
    pub fn from_index(i: usize) -> (r: Rank)
        ensures
            r == Rank::at_tier(i as int),
    {
        if i == 0 {
            Rank::Unranked
        } else if i == 1 {
            Rank::D
        } else if i == 2 {
            Rank::DPlus
        } else if i == 3 {
            Rank::CMinus
        } else if i == 4 {
            Rank::C
        } else if i == 5 {
            Rank::CPlus
        } else if i == 6 {
            Rank::BMinus
        } else if i == 7 {
            Rank::B
        } else if i == 8 {
            Rank::BPlus
        } else if i == 9 {
            Rank::AMinus
        } else if i == 10 {
            Rank::A
        } else if i == 11 {
            Rank::APlus
        } else if i == 12 {
            Rank::SMinus
        } else if i == 13 {
            Rank::S
        } else if i == 14 {
            Rank::SPlus
        } else if i == 15 {
            Rank::SS
        } else if i == 16 {
            Rank::U
        } else {
            Rank::X
        }
    }

    /// The rank `n` tiers above this one; past `X` the result stays `X`.
    pub fn advance(self, n: usize) -> (r: Rank)
        ensures
            r == self.advanced(n as int),
    {
        let here: usize = self.index();
        if n >= TOP_TIER - here {
            Rank::X
        } else {
            Rank::from_index(here + n)
        }
    }

    /// Whether this rank stands strictly above `other` on the ladder.
    pub fn is_above(&self, other: &Rank) -> (r: bool)
        ensures
            r == (self.tier() > other.tier()),
    {
        self.index() > other.index()
    }

    /// The rank's colour as six hexadecimal digits, without `#`.
    pub fn to_color(&self) -> (r: &'static str)
        ensures
            r@ == self.color(),
    {
        match self {
            Rank::Unranked => "828282",
            Rank::D => "856C84",
            Rank::DPlus => "815880",
            Rank::CMinus => "6C417C",
            Rank::C => "67287B",
            Rank::CPlus => "522278",
            Rank::BMinus => "5949BE",
            Rank::B => "4357B5",
            Rank::BPlus => "4880B2",
            Rank::AMinus => "35AA8C",
            Rank::A => "3EA750",
            Rank::APlus => "43b536",
            Rank::SMinus => "B79E2B",
            Rank::S => "d19e26",
            Rank::SPlus => "dbaf37",
            Rank::SS => "e39d3b",
            Rank::U => "c75c2e",
            Rank::X => "b852bf",
        }
    }
    /// The rank's emoji; it renders on the community's chat server only.
    pub fn to_emoji(&self) -> (r: &'static str)
        ensures
            r@ == self.emoji(),
    {
        match self {
            Rank::Unranked => "<:rank_unranked:790331415836622868>",
            Rank::D => "<:rank_d:758747881896149052>",
            Rank::DPlus => "<:rank_dplus:758747881603072061>",
            Rank::CMinus => "<:rank_cminus:758747881791422464>",
            Rank::C => "<:rank_c:758747881808068622>",
            Rank::CPlus => "<:rank_cplus:758747881833889802>",
            Rank::BMinus => "<:rank_bminus:758747881833365505>",
            Rank::B => "<:rank_b:758747881779232778>",
            Rank::BPlus => "<:rank_bplus:758747881854337034>",
            Rank::AMinus => "<:rank_aminus:758747881657204775>",
            Rank::A => "<:rank_a:758747881682763797>",
            Rank::APlus => "<:rank_aplus:758747881820913684>",
            Rank::SMinus => "<:rank_sminus:758747881820651561>",
            Rank::S => "<:rank_s:758747881728507986>",
            Rank::SPlus => "<:rank_splus:758747881951461417>",
            Rank::SS => "<:rank_ss:758747882425024572>",
            Rank::U => "<:rank_u:758747882127097887>",
            Rank::X => "<:rank_x:758747882215047169>",
        }
    }
    /// The upper-case code, as shown to people.
    pub fn to_display_code(&self) -> (r: &'static str)
        ensures
            r@ == self.display_code(),
    {
        match self {
            Rank::Unranked => "Z",
            Rank::D => "D",
            Rank::DPlus => "D+",
            Rank::CMinus => "C-",
            Rank::C => "C",
            Rank::CPlus => "C+",
            Rank::BMinus => "B-",
            Rank::B => "B",
            Rank::BPlus => "B+",
            Rank::AMinus => "A-",
            Rank::A => "A",
            Rank::APlus => "A+",
            Rank::SMinus => "S-",
            Rank::S => "S",
            Rank::SPlus => "S+",
            Rank::SS => "SS",
            Rank::U => "U",
            Rank::X => "X",
        }
    }
    /// Every rank, lowest tier first.
    pub fn iter() -> (v: Vec<Rank>)
        ensures
            v@ == Rank::ladder(),
    {
        let v = vec![
            Rank::Unranked,
            Rank::D,
            Rank::DPlus,
            Rank::CMinus,
            Rank::C,
            Rank::CPlus,
            Rank::BMinus,
            Rank::B,
            Rank::BPlus,
            Rank::AMinus,
            Rank::A,
            Rank::APlus,
            Rank::SMinus,
            Rank::S,
            Rank::SPlus,
            Rank::SS,
            Rank::U,
            Rank::X,
        ];
        assert(v@ =~= Rank::ladder());
        v
    }

    /// Compares two ranks by their positions on the ladder.
    pub fn compare(&self, other: &Rank) -> (r: Ordering)
        ensures
            r is Less <==> self.tier() < other.tier(),
            r is Equal <==> *self == *other,
            r is Greater <==> self.tier() > other.tier(),
    {
        let here: usize = self.index();
        let there: usize = other.index();
        if here < there {
            Ordering::Less
        } else if here == there {
            Ordering::Equal
        } else {
            Ordering::Greater
        }
    }

    /// The address of the rank's icon.
    pub fn to_img_url(&self) -> (r: String)
        ensures
            r@ == "https://tetr.io/res/league-ranks/"@ + self.code() + ".png"@,
    {
        let mut url = String::from_str("https://tetr.io/res/league-ranks/");
        url.append(self.to_str());
        url.append(".png");
        url
    }
}

/// Every rank has a position on the ladder, and the position names the rank.
pub proof fn lemma_tier_names_rank(r: Rank)
    ensures
        0 <= r.tier() <= 17,
        Rank::at_tier(r.tier()) == r,
{
}

/// Ranks are ordered by their positions: of two ranks exactly one of
/// "below", "the same" and "above" holds, and "below" is transitive.
pub proof fn lemma_order_is_total(a: Rank, b: Rank, c: Rank)
    ensures
        a.tier() < b.tier() || a == b || b.tier() < a.tier(),
        a.tier() == b.tier() <==> a == b,
        a.tier() < b.tier() && b.tier() < c.tier() ==> a.tier() < c.tier(),
{
}

/// Writing a rank as its code and parsing the code gives the rank back, so
/// parsed codes compare as their ranks do on the ladder.
pub proof fn lemma_parse_code(r: Rank)
    ensures
        Rank::parse(r.code()) == r,
{
    reveal_strlit("d");
    reveal_strlit("d+");
    reveal_strlit("c-");
    reveal_strlit("c");
    reveal_strlit("c+");
    reveal_strlit("b-");
    reveal_strlit("b");
    reveal_strlit("b+");
    reveal_strlit("a-");
    reveal_strlit("a");
    reveal_strlit("a+");
    reveal_strlit("s-");
    reveal_strlit("s");
    reveal_strlit("s+");
    reveal_strlit("ss");
    reveal_strlit("u");
    reveal_strlit("x");
    reveal_strlit("z");
    assert("d"@.len() == 1 && "d"@[0] == 'd');
    assert("c"@.len() == 1 && "c"@[0] == 'c');
    assert("b"@.len() == 1 && "b"@[0] == 'b');
    assert("a"@.len() == 1 && "a"@[0] == 'a');
    assert("s"@.len() == 1 && "s"@[0] == 's');
    assert("u"@.len() == 1 && "u"@[0] == 'u');
    assert("x"@.len() == 1 && "x"@[0] == 'x');
    assert("z"@.len() == 1 && "z"@[0] == 'z');
    assert("d+"@.len() == 2 && "d+"@[0] == 'd' && "d+"@[1] == '+');
    assert("c-"@.len() == 2 && "c-"@[0] == 'c' && "c-"@[1] == '-');
    assert("c+"@.len() == 2 && "c+"@[0] == 'c' && "c+"@[1] == '+');
    assert("b-"@.len() == 2 && "b-"@[0] == 'b' && "b-"@[1] == '-');
    assert("b+"@.len() == 2 && "b+"@[0] == 'b' && "b+"@[1] == '+');
    assert("a-"@.len() == 2 && "a-"@[0] == 'a' && "a-"@[1] == '-');
    assert("a+"@.len() == 2 && "a+"@[0] == 'a' && "a+"@[1] == '+');
    assert("s-"@.len() == 2 && "s-"@[0] == 's' && "s-"@[1] == '-');
    assert("s+"@.len() == 2 && "s+"@[0] == 's' && "s+"@[1] == '+');
    assert("ss"@.len() == 2 && "ss"@[0] == 's' && "ss"@[1] == 's');
}

/// Two ranks that went through their codes and back compare as they did
/// before: parsing keeps the order of the ladder.
pub proof fn lemma_parsed_codes_keep_order(a: Rank, b: Rank)
    ensures
        Rank::parse(a.code()).tier() < Rank::parse(b.code()).tier() <==> a.tier() < b.tier(),
        Rank::parse(a.code()) == Rank::parse(b.code()) <==> a == b,
{
    lemma_parse_code(a);
    lemma_parse_code(b);
}

/// Advancing moves up the ladder by the number of tiers asked for and stops
/// at `X`.
pub proof fn lemma_advance_saturates(r: Rank, n: int)
    requires
        n >= 0,
    ensures
        r.advanced(n).tier() == if r.tier() + n >= 17 { 17 } else { r.tier() + n },
        Rank::X.advanced(n) == Rank::X,
        r.advanced(0) == r,
{
}

} // verus!
