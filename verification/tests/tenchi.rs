use uc_helper::rank::Rank;
use uc_helper::tenchi::{HighestRanks, PlayerHistory, RankHistory};

fn history(codes: &[&str]) -> RankHistory {
    RankHistory { rank: codes.iter().map(|c| c.to_string()).collect() }
}

fn histories() -> PlayerHistory {
    PlayerHistory {
        timestamp_offset: 1_600_000_000,
        ranks: vec![
            ("icedynamix".to_string(), history(&["a", "s-", "s", "a+"])),
            ("newcomer".to_string(), history(&[])),
            ("caboozled_pie".to_string(), history(&["x", "u", "x"])),
            ("icedynamix".to_string(), history(&["x"])),
            ("odd".to_string(), history(&["??", "z"])),
        ],
    }
}

#[test]
fn ranks_of_a_history() {
    assert_eq!(
        history(&["a", "s-", "nonsense", "x"]).ranks(),
        vec![Rank::A, Rank::SMinus, Rank::Unranked, Rank::X]
    );
    assert_eq!(history(&[]).ranks(), Vec::<Rank>::new());
}

#[test]
fn highest_rank_of_a_history() {
    assert_eq!(history(&["a", "s-", "s", "a+"]).highest_rank(), Rank::S);
    assert_eq!(history(&[]).highest_rank(), Rank::Unranked);
    assert_eq!(history(&["bogus"]).highest_rank(), Rank::Unranked);
    assert_eq!(history(&["d", "x", "d"]).highest_rank(), Rank::X);
    assert_eq!(history(&["u"]).highest_rank(), Rank::U);
}

#[test]
fn get_ranks_looks_up_in_lower_case() {
    let all = histories();
    assert_eq!(
        all.get_ranks("IceDynamix"),
        Some(vec![Rank::A, Rank::SMinus, Rank::S, Rank::APlus])
    );
    assert_eq!(
        all.get_ranks("icedynamix"),
        Some(vec![Rank::A, Rank::SMinus, Rank::S, Rank::APlus])
    );
    assert_eq!(all.get_ranks("newcomer"), Some(vec![]));
    assert_eq!(all.get_ranks("nobody"), None);
}

#[test]
fn highest_ranks_under_a_timestamp() {
    let highest = HighestRanks::with_timestamp(&histories(), "then".to_string());
    assert_eq!(highest.timestamp, "then");
    assert_eq!(
        highest.ranks,
        vec![
            ("icedynamix".to_string(), "s".to_string()),
            ("newcomer".to_string(), "z".to_string()),
            ("caboozled_pie".to_string(), "x".to_string()),
            ("icedynamix".to_string(), "x".to_string()),
            ("odd".to_string(), "z".to_string()),
        ]
    );
}

#[test]
fn highest_ranks_write_the_time_of_compilation() {
    let highest = HighestRanks::from_history(&histories()).unwrap();
    assert_eq!(highest.timestamp, "2020-09-13T12:26:40+00:00");
    assert_eq!(highest.get("icedynamix"), Rank::S);
    let epoch = PlayerHistory { timestamp_offset: 0, ranks: vec![] };
    assert_eq!(HighestRanks::from_history(&epoch).unwrap().timestamp, "1970-01-01T00:00:00+00:00");
}

#[test]
fn highest_ranks_of_an_instant_out_of_range() {
    let late = PlayerHistory { timestamp_offset: i64::MAX, ranks: vec![] };
    assert_eq!(HighestRanks::from_history(&late), None);
}

#[test]
fn get_highest_rank() {
    let highest = HighestRanks {
        timestamp: String::new(),
        ranks: vec![
            ("a".to_string(), "s+".to_string()),
            ("b".to_string(), "nonsense".to_string()),
            ("a".to_string(), "x".to_string()),
        ],
    };
    assert_eq!(highest.get("a"), Rank::SPlus);
    assert_eq!(highest.get("b"), Rank::Unranked);
    assert_eq!(highest.get("c"), Rank::Unranked);
    assert_eq!(highest.get("A"), Rank::Unranked);
}
