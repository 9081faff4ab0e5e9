use std::cmp::Ordering;
use uc_helper::rank::Rank;

const CODES: [&str; 18] = [
    "z", "d", "d+", "c-", "c", "c+", "b-", "b", "b+", "a-", "a", "a+", "s-", "s", "s+", "ss", "u",
    "x",
];

#[test]
fn parse_known_codes() {
    assert_eq!(Rank::from_str("d"), Rank::D);
    assert_eq!(Rank::from_str("d+"), Rank::DPlus);
    assert_eq!(Rank::from_str("c-"), Rank::CMinus);
    assert_eq!(Rank::from_str("a"), Rank::A);
    assert_eq!(Rank::from_str("s-"), Rank::SMinus);
    assert_eq!(Rank::from_str("s+"), Rank::SPlus);
    assert_eq!(Rank::from_str("ss"), Rank::SS);
    assert_eq!(Rank::from_str("u"), Rank::U);
    assert_eq!(Rank::from_str("x"), Rank::X);
}

#[test]
fn parse_garbage_is_unranked() {
    assert_eq!(Rank::from_str("garbage"), Rank::Unranked);
    assert_eq!(Rank::from_str(""), Rank::Unranked);
    assert_eq!(Rank::from_str("z"), Rank::Unranked);
    assert_eq!(Rank::from_str("S"), Rank::Unranked);
    assert_eq!(Rank::from_str("s++"), Rank::Unranked);
    assert_eq!(Rank::from_str(" d"), Rank::Unranked);
}

#[test]
fn ladder_lists_every_rank_in_order() {
    let ladder = Rank::iter();
    assert_eq!(ladder.len(), 18);
    assert_eq!(ladder[0], Rank::Unranked);
    assert_eq!(ladder[1], Rank::D);
    assert_eq!(ladder[14], Rank::SPlus);
    assert_eq!(ladder[17], Rank::X);
    for (i, rank) in ladder.iter().enumerate() {
        assert_eq!(rank.index(), i);
        assert_eq!(Rank::from_index(i), *rank);
    }
}

#[test]
fn parsed_codes_compare_as_the_ladder_orders_them() {
    for i in 0..CODES.len() {
        for j in 0..CODES.len() {
            let a = Rank::from_str(CODES[i]);
            let b = Rank::from_str(CODES[j]);
            assert_eq!(a.compare(&b), i.cmp(&j));
            assert_eq!(a.is_above(&b), i > j);
            assert_eq!(a.cmp(&b), i.cmp(&j));
            assert_eq!(a < b, i < j);
            assert_eq!(a == b, i == j);
        }
    }
}

#[test]
fn code_and_parse_are_inverse() {
    for rank in Rank::iter() {
        assert_eq!(Rank::from_str(rank.to_str()), rank);
    }
    for (i, code) in CODES.iter().enumerate() {
        assert_eq!(Rank::from_index(i).to_str(), *code);
    }
}

#[test]
fn compare_names_the_three_cases() {
    assert_eq!(Rank::S.compare(&Rank::SPlus), Ordering::Less);
    assert_eq!(Rank::S.compare(&Rank::S), Ordering::Equal);
    assert_eq!(Rank::U.compare(&Rank::SPlus), Ordering::Greater);
    assert_eq!(Rank::Unranked.compare(&Rank::D), Ordering::Less);
}

#[test]
fn advance_moves_up_and_saturates() {
    assert_eq!(Rank::S.advance(1), Rank::SPlus);
    assert_eq!(Rank::SPlus.advance(1), Rank::SS);
    assert_eq!(Rank::X.advance(1), Rank::X);
    assert_eq!(Rank::U.advance(1), Rank::X);
    assert_eq!(Rank::U.advance(2), Rank::X);
    assert_eq!(Rank::Unranked.advance(17), Rank::X);
    assert_eq!(Rank::Unranked.advance(16), Rank::U);
    assert_eq!(Rank::Unranked.advance(1), Rank::D);
    assert_eq!(Rank::D.advance(usize::MAX), Rank::X);
    assert_eq!(Rank::B.advance(0), Rank::B);
    assert_eq!(Rank::CMinus.advance(3), Rank::BMinus);
}

#[test]
fn from_index_past_the_ladder_is_x() {
    assert_eq!(Rank::from_index(17), Rank::X);
    assert_eq!(Rank::from_index(18), Rank::X);
    assert_eq!(Rank::from_index(usize::MAX), Rank::X);
}

#[test]
fn colours() {
    assert_eq!(Rank::Unranked.to_color(), "828282");
    assert_eq!(Rank::D.to_color(), "856C84");
    assert_eq!(Rank::APlus.to_color(), "43b536");
    assert_eq!(Rank::SS.to_color(), "e39d3b");
    assert_eq!(Rank::X.to_color(), "b852bf");
    for rank in Rank::iter() {
        assert_eq!(rank.to_color().len(), 6);
    }
}

#[test]
fn emoji() {
    assert_eq!(Rank::X.to_emoji(), "<:rank_x:758747882215047169>");
    assert_eq!(Rank::SPlus.to_emoji(), "<:rank_splus:758747881951461417>");
    assert_eq!(Rank::CMinus.to_emoji(), "<:rank_cminus:758747881791422464>");
    assert_eq!(Rank::Unranked.to_emoji(), "<:rank_unranked:790331415836622868>");
}

#[test]
fn image_addresses() {
    assert_eq!(Rank::SPlus.to_img_url(), "https://tetr.io/res/league-ranks/s+.png");
    assert_eq!(Rank::Unranked.to_img_url(), "https://tetr.io/res/league-ranks/z.png");
    assert_eq!(Rank::X.to_img_url(), "https://tetr.io/res/league-ranks/x.png");
}

#[test]
fn display_codes_are_upper_case_codes() {
    assert_eq!(Rank::SPlus.to_display_code(), "S+");
    assert_eq!(Rank::SS.to_display_code(), "SS");
    assert_eq!(Rank::Unranked.to_display_code(), "Z");
    for rank in Rank::iter() {
        assert_eq!(rank.to_display_code(), rank.to_str().to_uppercase());
    }
}
