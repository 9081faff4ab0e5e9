use uc_helper::database::players::{PlayerCollection, PlayerEntry, CACHE_WINDOW_MILLIS};
use uc_helper::database::tournaments::{
    registrations_are_distinct, RegistrationEntry, RegistrationError, TournamentCollection,
    TournamentEntry, TournamentRestrictions,
};
use uc_helper::database::{DatabaseError, LocalDatabase};
use uc_helper::measure::Measure;
use uc_helper::rank::Rank;
use uc_helper::tetrio::leaderboard::{LeaderboardData, LeaderboardUser, LeagueData};
use uc_helper::tetrio::user::UserData;
use uc_helper::tetrio::{CacheData, SuccessfulResponse, TetrioApiError, TetrioResponse};

const T0: i64 = 1_700_000_000_000;
const DAY: i64 = 86_400_000;

fn measure(x: f64) -> Measure {
    Measure::from_bits(x.to_bits())
}

fn user(id: &str, rank: &str, games: i64, rd: Option<f64>) -> LeaderboardUser {
    LeaderboardUser {
        _id: id.to_string(),
        username: format!("name_{}", id),
        role: "user".to_string(),
        country: None,
        supporter: Some(true),
        verified: true,
        league: LeagueData {
            gamesplayed: games,
            gameswon: games / 2,
            rating: measure(20000.0),
            rank: rank.to_string(),
            glicko: None,
            rd: rd.map(measure),
            apm: Some(measure(50.5)),
            pps: Some(measure(1.5)),
            vs: Some(measure(110.25)),
        },
    }
}

fn cache(at: i64) -> CacheData {
    CacheData { status: "hit".to_string(), cached_at: at, cached_until: at + 60_000 }
}

fn answer(user: LeaderboardUser, at: i64) -> TetrioResponse<UserData> {
    Ok(SuccessfulResponse { data: UserData { user }, cache: cache(at) })
}

fn no_answer() -> TetrioResponse<UserData> {
    Err(TetrioApiError::Error("not asked".to_string()))
}

fn table(users: Vec<LeaderboardUser>, at: i64) -> TetrioResponse<LeaderboardData> {
    Ok(SuccessfulResponse { data: LeaderboardData { users }, cache: cache(at) })
}

fn restrictions() -> TournamentRestrictions {
    TournamentRestrictions::new(Rank::SPlus, measure(100.0), 10)
}

fn announcement() -> Vec<LeaderboardUser> {
    vec![
        user("player1", "s", 50, Some(80.0)),
        user("player3", "ss", 50, Some(80.0)),
        user("player4", "s", 5, Some(80.0)),
        user("player5", "s", 50, Some(100.5)),
        user("player6", "s", 50, None),
        user("player7", "s+", 10, Some(100.0)),
        user("player8", "x", 1, None),
    ]
}

/// A database with the tournament `UC` active, its table captured at `T0`,
/// and every player of the table in the player registry.
fn database() -> LocalDatabase {
    let mut db = LocalDatabase::new();
    db.tournaments.create_tournament_at("Underdogs Cup", "UC", restrictions(), T0 - DAY).unwrap();
    db.tournaments.add_snapshot_at(&mut db.players, "UC", T0, table(announcement(), T0)).unwrap();
    db.tournaments.set_active(Some("UC")).unwrap();
    db
}

fn snapshot_tournament() -> TournamentEntry {
    let mut entry = TournamentEntry::new_at("Underdogs Cup", "UC", restrictions(), T0 - DAY);
    entry.player_stats_snapshot = announcement();
    entry.snapshot_at = Some(T0);
    entry
}

#[test]
fn default_restrictions() {
    let default = TournamentRestrictions::default();
    assert_eq!(default.max_rank, Rank::Unranked);
    assert_eq!(default.max_rd, measure(999.0));
    assert_eq!(default.min_ranked_games, 0);
    assert_eq!(restrictions().max_rank, Rank::SPlus);
    assert_eq!(restrictions().max_rd, measure(100.0));
    assert_eq!(restrictions().min_ranked_games, 10);
}

#[test]
fn new_tournament_is_inactive_and_empty() {
    let entry = TournamentEntry::new_at("Underdogs Cup", "UC", restrictions(), 5);
    assert_eq!(entry.name, "Underdogs Cup");
    assert_eq!(entry.shorthand, "UC");
    assert_eq!(entry.created_at, 5);
    assert_eq!(entry.restrictions, restrictions());
    assert!(entry.registered_players.is_empty());
    assert!(entry.player_stats_snapshot.is_empty());
    assert_eq!(entry.snapshot_at, None);
    assert!(!entry.active);
    assert_eq!(entry.check_in_msg, None);
    let now = TournamentEntry::new("Underdogs Cup", "UC", restrictions());
    assert!(now.created_at > 1_600_000_000_000);
    assert_eq!(now.name, "Underdogs Cup");
}

#[test]
fn registration_entries() {
    let entry = RegistrationEntry::new_at("player1", 9);
    assert_eq!(entry, RegistrationEntry { date: 9, tetrio_id: "player1".to_string() });
    let now = RegistrationEntry::new("player1");
    assert_eq!(now.tetrio_id, "player1");
    assert!(now.date > 1_600_000_000_000);
}

#[test]
fn player_ranked_up_by_one_tier_is_admitted() {
    let tournament = snapshot_tournament();
    assert_eq!(tournament.check_player_stats(&user("player1", "ss", 60, Some(70.0))), Ok(()));
    assert_eq!(tournament.check_player_stats(&user("player1", "s", 60, Some(70.0))), Ok(()));
    assert_eq!(tournament.check_player_stats(&user("player1", "z", 60, None)), Ok(()));
}

#[test]
fn player_absent_from_the_table_was_unranked() {
    let tournament = snapshot_tournament();
    assert_eq!(
        tournament.check_player_stats(&user("player2", "d", 500, Some(60.0))),
        Err(RegistrationError::UnrankedOnAnnouncementDay(T0))
    );
}

#[test]
fn announcement_rank_above_the_cap() {
    let tournament = snapshot_tournament();
    assert_eq!(
        tournament.check_player_stats(&user("player3", "ss", 50, Some(80.0))),
        Err(RegistrationError::AnnouncementRankTooHigh {
            rank: Rank::SS,
            expected: Rank::SPlus,
            date: T0
        })
    );
    assert_eq!(
        tournament.check_player_stats(&user("player3", "d", 50, Some(80.0))),
        Err(RegistrationError::AnnouncementRankTooHigh {
            rank: Rank::SS,
            expected: Rank::SPlus,
            date: T0
        })
    );
}

#[test]
fn too_few_games_by_the_announcement() {
    let tournament = snapshot_tournament();
    assert_eq!(
        tournament.check_player_stats(&user("player4", "s", 500, Some(80.0))),
        Err(RegistrationError::NotEnoughGames { value: 5, expected: 10, date: T0 })
    );
}

#[test]
fn deviation_too_high_at_the_announcement() {
    let tournament = snapshot_tournament();
    assert_eq!(
        tournament.check_player_stats(&user("player5", "s", 50, Some(60.0))),
        Err(RegistrationError::RdTooHigh {
            value: measure(100.5),
            expected: measure(100.0),
            date: T0
        })
    );
}

#[test]
fn missing_deviation_counts_as_999() {
    let tournament = snapshot_tournament();
    assert_eq!(
        tournament.check_player_stats(&user("player6", "s", 50, Some(60.0))),
        Err(RegistrationError::RdTooHigh {
            value: measure(999.0),
            expected: measure(100.0),
            date: T0
        })
    );
    let mut lenient = snapshot_tournament();
    lenient.restrictions.max_rd = measure(999.0);
    assert_eq!(lenient.check_player_stats(&user("player6", "s", 50, None)), Ok(()));
    lenient.restrictions.max_rd = measure(998.9);
    assert_eq!(
        lenient.check_player_stats(&user("player6", "s", 50, None)),
        Err(RegistrationError::RdTooHigh {
            value: measure(999.0),
            expected: measure(998.9),
            date: T0
        })
    );
}

#[test]
fn limits_themselves_are_admitted() {
    let tournament = snapshot_tournament();
    assert_eq!(tournament.check_player_stats(&user("player7", "ss", 10, Some(100.0))), Ok(()));
}

#[test]
fn current_rank_more_than_one_tier_above_the_cap() {
    let tournament = snapshot_tournament();
    assert_eq!(
        tournament.check_player_stats(&user("player1", "u", 60, Some(70.0))),
        Err(RegistrationError::CurrentRankTooHigh { rank: Rank::U, expected: Rank::SS })
    );
    assert_eq!(
        tournament.check_player_stats(&user("player1", "x", 60, Some(70.0))),
        Err(RegistrationError::CurrentRankTooHigh { rank: Rank::X, expected: Rank::SS })
    );
}

#[test]
fn current_rank_cap_saturates_at_x() {
    let mut tournament = snapshot_tournament();
    tournament.restrictions.max_rank = Rank::X;
    tournament.restrictions.min_ranked_games = 0;
    tournament.restrictions.max_rd = measure(999.0);
    assert_eq!(tournament.check_player_stats(&user("player8", "x", 1, None)), Ok(()));
    tournament.restrictions.max_rank = Rank::U;
    assert_eq!(
        tournament.check_player_stats(&user("player8", "x", 1, None)),
        Err(RegistrationError::AnnouncementRankTooHigh {
            rank: Rank::X,
            expected: Rank::U,
            date: T0
        })
    );
}

#[test]
fn checks_are_made_in_order() {
    let tournament = snapshot_tournament();
    // player8: rank x, 1 game, no deviation; today x. The rank is reported.
    assert_eq!(
        tournament.check_player_stats(&user("player8", "x", 1, None)),
        Err(RegistrationError::AnnouncementRankTooHigh {
            rank: Rank::X,
            expected: Rank::SPlus,
            date: T0
        })
    );
    // player4: too few games, and today's rank too high as well. The games are reported.
    assert_eq!(
        tournament.check_player_stats(&user("player4", "x", 5, None)),
        Err(RegistrationError::NotEnoughGames { value: 5, expected: 10, date: T0 })
    );
    // player5: deviation too high, and today's rank too high as well.
    assert_eq!(
        tournament.check_player_stats(&user("player5", "x", 5, None)),
        Err(RegistrationError::RdTooHigh {
            value: measure(100.5),
            expected: measure(100.0),
            date: T0
        })
    );
}

#[test]
fn without_a_capture_nobody_is_eligible() {
    let tournament = TournamentEntry::new_at("Underdogs Cup", "UC", restrictions(), T0);
    assert_eq!(
        tournament.check_player_stats(&user("player1", "d", 50, Some(80.0))),
        Err(RegistrationError::SnapshotMissing)
    );
    let mut table_only = snapshot_tournament();
    table_only.snapshot_at = None;
    assert_eq!(
        table_only.check_player_stats(&user("player1", "s", 50, Some(80.0))),
        Err(RegistrationError::SnapshotMissing)
    );
}

#[test]
fn verdict_is_the_same_every_time() {
    let tournament = snapshot_tournament();
    for id in ["player1", "player2", "player3", "player4", "player5", "player6", "player7", "player8"] {
        for rank in ["z", "s", "ss", "u"] {
            let current = user(id, rank, 50, Some(80.0));
            let first = tournament.check_player_stats(&current);
            for _ in 0..3 {
                assert_eq!(tournament.check_player_stats(&current), first);
            }
        }
    }
}

#[test]
fn the_first_line_of_a_player_in_the_table_counts() {
    let mut tournament = snapshot_tournament();
    tournament.player_stats_snapshot.push(user("player3", "d", 50, Some(80.0)));
    tournament.player_stats_snapshot.insert(0, user("player4", "s", 50, Some(80.0)));
    assert_eq!(tournament.check_player_stats(&user("player4", "s", 50, None)), Ok(()));
    assert!(tournament.check_player_stats(&user("player3", "s", 50, None)).is_err());
}

#[test]
fn create_refuses_taken_names() {
    let mut tournaments = TournamentCollection::new();
    let created = tournaments.create_tournament_at("Test Tournament 1", "TT1", restrictions(), 5);
    assert_eq!(created, Ok(TournamentEntry::new_at("Test Tournament 1", "TT1", restrictions(), 5)));
    assert_eq!(
        tournaments.create_tournament_at("Test Tournament 1", "TT2", restrictions(), 6),
        Err(DatabaseError::DuplicateName)
    );
    assert_eq!(
        tournaments.create_tournament_at("Test Tournament 2", "TT1", restrictions(), 6),
        Err(DatabaseError::DuplicateName)
    );
    assert_eq!(tournaments.len(), 1);
    assert!(tournaments.create_tournament_at("test tournament 1", "tt1", restrictions(), 6).is_ok());
    assert!(tournaments.create_tournament_at("TT1", "Test Tournament 1", restrictions(), 6).is_ok());
    assert_eq!(tournaments.len(), 3);
}

#[test]
fn create_reads_the_clock() {
    let mut tournaments = TournamentCollection::new();
    let created = tournaments.create_tournament("Test Tournament 1", "TT1", restrictions()).unwrap();
    assert!(created.created_at > 1_600_000_000_000);
    assert_eq!(tournaments.get_tournament("TT1"), Some(&created));
}

#[test]
fn get_by_name_or_shorthand() {
    let mut tournaments = TournamentCollection::new();
    tournaments.create_tournament_at("Alpha", "A", restrictions(), 1).unwrap();
    tournaments.create_tournament_at("Beta", "B", restrictions(), 2).unwrap();
    assert_eq!(tournaments.get_tournament("Alpha").unwrap().shorthand, "A");
    assert_eq!(tournaments.get_tournament("B").unwrap().name, "Beta");
    assert_eq!(tournaments.get_tournament("b"), None);
    assert_eq!(tournaments.get_tournament("Gamma"), None);
    assert_eq!(tournaments.get(1).name, "Beta");
}

#[test]
fn exactly_the_last_tournament_set_is_active() {
    let mut tournaments = TournamentCollection::new();
    tournaments.create_tournament_at("Alpha", "A", restrictions(), 1).unwrap();
    tournaments.create_tournament_at("Beta", "B", restrictions(), 2).unwrap();
    assert_eq!(tournaments.get_active(), None);
    let a = tournaments.set_active(Some("A")).unwrap().unwrap();
    assert_eq!(a.name, "Alpha");
    assert!(a.active);
    assert_eq!(tournaments.get_active().unwrap().name, "Alpha");
    let b = tournaments.set_active(Some("Beta")).unwrap().unwrap();
    assert_eq!(b.shorthand, "B");
    assert_eq!(tournaments.get_active(), Some(&b));
    assert!(!tournaments.get(0).active);
    assert!(tournaments.get(1).active);
    tournaments.set_active(Some("B")).unwrap();
    assert!(!tournaments.get(0).active);
    assert!(tournaments.get(1).active);
}

#[test]
fn set_active_with_an_unknown_name_changes_nothing() {
    let mut tournaments = TournamentCollection::new();
    tournaments.create_tournament_at("Alpha", "A", restrictions(), 1).unwrap();
    tournaments.set_active(Some("A")).unwrap();
    assert_eq!(tournaments.set_active(Some("Gamma")), Err(DatabaseError::NotFound));
    assert_eq!(tournaments.get_active().unwrap().name, "Alpha");
}

#[test]
fn set_active_none_deactivates_all() {
    let mut db = database();
    assert_eq!(db.tournaments.set_active(None), Ok(None));
    assert_eq!(db.tournaments.get_active(), None);
    assert!(!db.tournaments.get(0).active);
    assert_eq!(
        db.tournaments.register_to_active_at(&mut db.players, Some("player1"), 1, false, T0, no_answer()),
        Err(RegistrationError::NoTournamentActive)
    );
    assert_eq!(
        db.tournaments.register_to_active_at(&mut db.players, None, 1, true, T0, no_answer()),
        Err(RegistrationError::NoTournamentActive)
    );
    assert_eq!(db.players.get_player_by_discord(1), None);
    assert_eq!(
        db.tournaments.unregister_by_tetrio(&db.players, "player1"),
        Err(RegistrationError::NoTournamentActive)
    );
    assert_eq!(
        db.tournaments.unregister_by_discord(&db.players, 99),
        Err(RegistrationError::NoTournamentActive)
    );
}

#[test]
fn capture_stores_table_and_players() {
    let mut db = LocalDatabase::new();
    db.tournaments.create_tournament_at("Underdogs Cup", "UC", restrictions(), 1).unwrap();
    assert_eq!(
        db.tournaments.add_snapshot_at(&mut db.players, "UC", T0, table(announcement(), T0 - 9)),
        Ok(())
    );
    let tournament = db.tournaments.get_tournament("UC").unwrap();
    assert_eq!(tournament.player_stats_snapshot, announcement());
    assert_eq!(tournament.snapshot_at, Some(T0));
    assert_eq!(db.players.len(), announcement().len());
    let player5 = db.players.get_player_by_id("player5").unwrap();
    assert_eq!(player5.tetrio_data, Some(user("player5", "s", 50, Some(100.5))));
    assert_eq!(player5.cache_data, Some(cache(T0 - 9)));
}

#[test]
fn capture_overwrites_an_earlier_capture() {
    let mut db = database();
    let later = vec![user("player2", "a", 30, Some(70.0))];
    db.tournaments.add_snapshot_at(&mut db.players, "Underdogs Cup", T0 + DAY, table(later.clone(), T0 + DAY)).unwrap();
    let tournament = db.tournaments.get_tournament("UC").unwrap();
    assert_eq!(tournament.player_stats_snapshot, later);
    assert_eq!(tournament.snapshot_at, Some(T0 + DAY));
    assert!(tournament.active);
    assert_eq!(db.players.len(), announcement().len() + 1);
}

#[test]
fn capture_failures() {
    let mut db = database();
    let before = db.tournaments.get_tournament("UC").unwrap().clone();
    assert_eq!(
        db.tournaments.add_snapshot_at(&mut db.players, "nothing", T0, table(vec![], T0)),
        Err(DatabaseError::NotFound)
    );
    assert_eq!(
        db.tournaments.add_snapshot_at(
            &mut db.players,
            "UC",
            T0 + 1,
            Err(TetrioApiError::Error("down".to_string()))
        ),
        Err(DatabaseError::TetrioApiError(TetrioApiError::Error("down".to_string())))
    );
    assert_eq!(
        db.tournaments.add_snapshot_at(
            &mut db.players,
            "nothing",
            T0 + 1,
            Err(TetrioApiError::Error("down".to_string()))
        ),
        Err(DatabaseError::NotFound)
    );
    assert_eq!(db.tournaments.get_tournament("UC"), Some(&before));
    assert_eq!(db.players.len(), announcement().len());
}

#[test]
fn capture_reads_the_clock() {
    let mut db = LocalDatabase::new();
    db.tournaments.create_tournament_at("Underdogs Cup", "UC", restrictions(), 1).unwrap();
    db.tournaments.add_snapshot(&mut db.players, "UC", table(announcement(), T0)).unwrap();
    let at = db.tournaments.get_tournament("UC").unwrap().snapshot_at.unwrap();
    assert!(at > 1_600_000_000_000);
}

#[test]
fn check_in_message() {
    let mut db = database();
    assert_eq!(db.tournaments.set_check_in_msg("nothing", 5), Err(DatabaseError::NotFound));
    assert_eq!(db.tournaments.set_check_in_msg("UC", 5), Ok(()));
    assert_eq!(db.tournaments.get_tournament("UC").unwrap().check_in_msg, Some(5));
    assert_eq!(db.tournaments.set_check_in_msg("Underdogs Cup", 6), Ok(()));
    assert_eq!(db.tournaments.get_active().unwrap().check_in_msg, Some(6));
}

#[test]
fn register_links_and_registers() {
    let mut db = database();
    assert!(!db.tournaments.registration_needs_fetch_at(&db.players, Some("player1"), 1, T0 + 5));
    let player = db
        .tournaments
        .register_to_active_at(&mut db.players, Some("player1"), 1, false, T0 + 5, no_answer())
        .unwrap();
    assert_eq!(player.tetrio_id, "player1");
    assert_eq!(player.discord_id, Some(1));
    assert_eq!(player.link_timestamp, Some(T0 + 5));
    assert_eq!(db.players.get_player_by_discord(1), Some(&player));
    let tournament = db.tournaments.get_active().unwrap();
    assert_eq!(
        tournament.registered_players,
        vec![RegistrationEntry { date: T0 + 5, tetrio_id: "player1".to_string() }]
    );
    assert!(tournament.player_is_registered(&player));
    assert!(!tournament.player_is_registered(&PlayerEntry::new("player7", None)));
    assert_eq!(tournament.registration_of("player1"), Some(0));
    assert_eq!(tournament.registration_of("player7"), None);
}

#[test]
fn register_by_name_with_current_statistics() {
    let mut db = database();
    let later = T0 + CACHE_WINDOW_MILLIS;
    assert!(db.tournaments.registration_needs_fetch_at(&db.players, Some("name_player1"), 1, later));
    let player = db
        .tournaments
        .register_to_active_at(
            &mut db.players,
            Some("NAME_PLAYER1"),
            1,
            false,
            later,
            answer(user("player1", "ss", 70, Some(65.0)), later),
        )
        .unwrap();
    assert_eq!(player.tetrio_data, Some(user("player1", "ss", 70, Some(65.0))));
    assert_eq!(db.tournaments.get_active().unwrap().registered_players.len(), 1);
}

#[test]
fn register_rejects_on_current_statistics_and_keeps_the_link() {
    let mut db = database();
    let later = T0 + CACHE_WINDOW_MILLIS;
    assert_eq!(
        db.tournaments.register_to_active_at(
            &mut db.players,
            Some("player1"),
            1,
            false,
            later,
            answer(user("player1", "u", 70, Some(65.0)), later),
        ),
        Err(RegistrationError::CurrentRankTooHigh { rank: Rank::U, expected: Rank::SS })
    );
    assert!(db.tournaments.get_active().unwrap().registered_players.is_empty());
    let linked = db.players.get_player_by_discord(1).unwrap();
    assert_eq!(linked.tetrio_id, "player1");
    assert_eq!(linked.tetrio_data, Some(user("player1", "u", 70, Some(65.0))));
}

#[test]
fn register_hands_on_the_evaluators_reasons() {
    let mut db = database();
    assert_eq!(
        db.tournaments.register_to_active_at(&mut db.players, Some("player3"), 3, false, T0, no_answer()),
        Err(RegistrationError::AnnouncementRankTooHigh {
            rank: Rank::SS,
            expected: Rank::SPlus,
            date: T0
        })
    );
    assert_eq!(
        db.tournaments.register_to_active_at(&mut db.players, Some("player4"), 4, false, T0, no_answer()),
        Err(RegistrationError::NotEnoughGames { value: 5, expected: 10, date: T0 })
    );
    assert_eq!(
        db.tournaments.register_to_active_at(&mut db.players, Some("player6"), 6, false, T0, no_answer()),
        Err(RegistrationError::RdTooHigh {
            value: measure(999.0),
            expected: measure(100.0),
            date: T0
        })
    );
    assert_eq!(
        db.tournaments.register_to_active_at(
            &mut db.players,
            Some("player2"),
            2,
            false,
            T0,
            answer(user("player2", "d", 50, Some(80.0)), T0)
        ),
        Err(RegistrationError::UnrankedOnAnnouncementDay(T0))
    );
    assert!(db.tournaments.get_active().unwrap().registered_players.is_empty());
}

#[test]
fn register_without_a_capture() {
    let mut db = LocalDatabase::new();
    db.tournaments.create_tournament_at("Underdogs Cup", "UC", restrictions(), 1).unwrap();
    db.tournaments.set_active(Some("UC")).unwrap();
    assert_eq!(
        db.tournaments.register_to_active_at(
            &mut db.players,
            Some("player1"),
            1,
            false,
            T0,
            answer(user("player1", "s", 50, Some(80.0)), T0)
        ),
        Err(RegistrationError::SnapshotMissing)
    );
    let player = db
        .tournaments
        .register_to_active_at(&mut db.players, None, 1, true, T0, no_answer())
        .unwrap();
    assert_eq!(player.tetrio_id, "player1");
}

#[test]
fn register_without_account_needs_a_link() {
    let mut db = database();
    assert_eq!(
        db.tournaments.register_to_active_at(&mut db.players, None, 1, false, T0, no_answer()),
        Err(RegistrationError::MissingArgument("username".to_string()))
    );
    assert_eq!(
        db.tournaments.register_to_active_at(&mut db.players, None, 1, true, T0, no_answer()),
        Err(RegistrationError::MissingArgument("username".to_string()))
    );
    db.players.link_at(1, "player7", T0, no_answer()).unwrap();
    assert!(!db.tournaments.registration_needs_fetch_at(&db.players, None, 1, i64::MAX));
    let player = db
        .tournaments
        .register_to_active_at(&mut db.players, None, 1, false, T0 + 1, no_answer())
        .unwrap();
    assert_eq!(player.tetrio_id, "player7");
    assert_eq!(player.link_timestamp, Some(T0));
}

#[test]
fn registering_twice_fails_and_keeps_the_list() {
    let mut db = database();
    db.tournaments
        .register_to_active_at(&mut db.players, Some("player1"), 1, false, T0, no_answer())
        .unwrap();
    let list = db.tournaments.get_active().unwrap().registered_players.clone();
    assert_eq!(list.len(), 1);
    assert_eq!(
        db.tournaments.register_to_active_at(&mut db.players, Some("player1"), 1, false, T0 + 1, no_answer()),
        Err(RegistrationError::AlreadyRegistered)
    );
    assert_eq!(
        db.tournaments.register_to_active_at(&mut db.players, None, 1, false, T0 + 2, no_answer()),
        Err(RegistrationError::AlreadyRegistered)
    );
    assert_eq!(
        db.tournaments.register_to_active_at(&mut db.players, Some("name_player1"), 1, true, T0 + 3, no_answer()),
        Err(RegistrationError::AlreadyRegistered)
    );
    assert_eq!(db.tournaments.get_active().unwrap().registered_players, list);
}

#[test]
fn register_hands_on_link_failures() {
    let mut db = database();
    db.tournaments
        .register_to_active_at(&mut db.players, Some("player1"), 1, false, T0, no_answer())
        .unwrap();
    assert_eq!(
        db.tournaments.register_to_active_at(&mut db.players, Some("player7"), 1, false, T0, no_answer()),
        Err(RegistrationError::DatabaseError(DatabaseError::DuplicateDiscordEntry))
    );
    assert_eq!(
        db.tournaments.register_to_active_at(&mut db.players, Some("player1"), 2, false, T0, no_answer()),
        Err(RegistrationError::DatabaseError(DatabaseError::DuplicateTetrioEntry))
    );
    assert_eq!(
        db.tournaments.register_to_active_at(
            &mut db.players,
            Some("nobody"),
            3,
            true,
            T0,
            Err(TetrioApiError::Error("No such user!".to_string()))
        ),
        Err(RegistrationError::DatabaseError(DatabaseError::TetrioApiError(
            TetrioApiError::Error("No such user!".to_string())
        )))
    );
    assert_eq!(db.tournaments.get_active().unwrap().registered_players.len(), 1);
}

#[test]
fn staff_override_skips_the_statistics_only() {
    let mut db = database();
    let player = db
        .tournaments
        .register_to_active_at(&mut db.players, Some("player8"), 8, true, T0, no_answer())
        .unwrap();
    assert_eq!(player.tetrio_id, "player8");
    let unranked = db
        .tournaments
        .register_to_active_at(
            &mut db.players,
            Some("player2"),
            2,
            true,
            T0,
            answer(user("player2", "z", 0, None), T0),
        )
        .unwrap();
    assert_eq!(unranked.tetrio_id, "player2");
    assert_eq!(
        db.tournaments.register_to_active_at(&mut db.players, Some("player8"), 8, true, T0, no_answer()),
        Err(RegistrationError::AlreadyRegistered)
    );
    assert_eq!(db.tournaments.get_active().unwrap().registered_players.len(), 2);
}

#[test]
fn register_reads_the_clock() {
    let mut db = database();
    // The statistics captured at T0 are stale by now, so the answer is used.
    let player = db
        .tournaments
        .register_to_active(
            &mut db.players,
            Some("player1"),
            1,
            false,
            answer(user("player1", "s+", 55, Some(75.0)), T0),
        )
        .unwrap();
    assert_eq!(player.tetrio_data, Some(user("player1", "s+", 55, Some(75.0))));
    assert!(player.link_timestamp.unwrap() > 1_600_000_000_000);
    let list = &db.tournaments.get_active().unwrap().registered_players;
    assert_eq!(list.len(), 1);
    assert!(list[0].date > 1_600_000_000_000);
}

#[test]
fn registrations_go_to_the_active_tournament_only() {
    let mut db = database();
    db.tournaments.create_tournament_at("Second Cup", "SC", restrictions(), T0).unwrap();
    db.tournaments
        .register_to_active_at(&mut db.players, Some("player1"), 1, false, T0, no_answer())
        .unwrap();
    db.tournaments.set_active(Some("SC")).unwrap();
    let player = db
        .tournaments
        .register_to_active_at(&mut db.players, None, 1, true, T0 + 1, no_answer())
        .unwrap();
    assert_eq!(player.tetrio_id, "player1");
    assert_eq!(db.tournaments.get_tournament("UC").unwrap().registered_players.len(), 1);
    assert_eq!(db.tournaments.get_tournament("SC").unwrap().registered_players.len(), 1);
    db.tournaments
        .register_to_active_at(&mut db.players, Some("player7"), 7, true, T0 + 2, no_answer())
        .unwrap();
    assert_eq!(db.tournaments.get_tournament("UC").unwrap().registered_players.len(), 1);
    assert_eq!(db.tournaments.get_tournament("SC").unwrap().registered_players.len(), 2);
}

#[test]
fn unregister() {
    let mut db = database();
    db.tournaments
        .register_to_active_at(&mut db.players, Some("player1"), 1, false, T0, no_answer())
        .unwrap();
    db.tournaments
        .register_to_active_at(&mut db.players, Some("player7"), 7, false, T0 + 1, no_answer())
        .unwrap();
    assert_eq!(
        db.tournaments.unregister_by_tetrio(&db.players, "nobody"),
        Err(RegistrationError::DatabaseError(DatabaseError::NotFound))
    );
    assert_eq!(
        db.tournaments.unregister_by_discord(&db.players, 99),
        Err(RegistrationError::DatabaseError(DatabaseError::NotFound))
    );
    assert_eq!(
        db.tournaments.unregister_by_tetrio(&db.players, "player5"),
        Err(RegistrationError::NotRegistered)
    );
    assert_eq!(db.tournaments.unregister_by_tetrio(&db.players, "Name_Player1"), Ok(()));
    assert_eq!(
        db.tournaments.get_active().unwrap().registered_players,
        vec![RegistrationEntry { date: T0 + 1, tetrio_id: "player7".to_string() }]
    );
    assert_eq!(
        db.tournaments.unregister_by_discord(&db.players, 1),
        Err(RegistrationError::NotRegistered)
    );
    assert_eq!(db.tournaments.unregister_by_discord(&db.players, 7), Ok(()));
    assert!(db.tournaments.get_active().unwrap().registered_players.is_empty());
    assert_eq!(db.players.get_player_by_discord(7).unwrap().tetrio_id, "player7");
}

#[test]
fn unregistered_players_can_register_again() {
    let mut db = database();
    db.tournaments
        .register_to_active_at(&mut db.players, Some("player1"), 1, false, T0, no_answer())
        .unwrap();
    db.tournaments.unregister_by_discord(&db.players, 1).unwrap();
    db.tournaments
        .register_to_active_at(&mut db.players, None, 1, false, T0 + 9, no_answer())
        .unwrap();
    assert_eq!(
        db.tournaments.get_active().unwrap().registered_players,
        vec![RegistrationEntry { date: T0 + 9, tetrio_id: "player1".to_string() }]
    );
}

#[test]
fn distinct_registrations() {
    let one = RegistrationEntry::new_at("player1", 1);
    let two = RegistrationEntry::new_at("player2", 2);
    let again = RegistrationEntry::new_at("player1", 3);
    assert!(registrations_are_distinct(&vec![]));
    assert!(registrations_are_distinct(&vec![one.clone()]));
    assert!(registrations_are_distinct(&vec![one.clone(), two.clone()]));
    assert!(!registrations_are_distinct(&vec![one.clone(), two.clone(), again.clone()]));
    assert!(!registrations_are_distinct(&vec![one, again, two]));
}

#[test]
fn insert_restores_tournaments() {
    let mut tournaments = TournamentCollection::new();
    let mut first = snapshot_tournament();
    first.active = true;
    first.registered_players = vec![RegistrationEntry::new_at("player1", 1)];
    assert_eq!(tournaments.insert(first.clone()), Ok(()));
    assert_eq!(tournaments.get_active(), Some(&first));
    let second = TournamentEntry::new_at("Second Cup", "SC", restrictions(), T0);
    assert_eq!(tournaments.insert(second.clone()), Ok(()));
    assert_eq!(tournaments.get_tournament("SC"), Some(&second));
    assert_eq!(tournaments.len(), 2);
}

#[test]
fn insert_refuses_what_breaks_the_registry() {
    let mut tournaments = TournamentCollection::new();
    let mut first = snapshot_tournament();
    first.active = true;
    tournaments.insert(first).unwrap();
    let mut same_name = TournamentEntry::new_at("Underdogs Cup", "U2", restrictions(), T0);
    assert_eq!(tournaments.insert(same_name.clone()), Err(DatabaseError::DuplicateName));
    same_name.name = "Other".to_string();
    same_name.shorthand = "UC".to_string();
    assert_eq!(tournaments.insert(same_name), Err(DatabaseError::DuplicateName));
    let mut active = TournamentEntry::new_at("Second Cup", "SC", restrictions(), T0);
    active.active = true;
    assert_eq!(
        tournaments.insert(active),
        Err(DatabaseError::CouldNotParse("second active tournament".to_string()))
    );
    let mut twice = TournamentEntry::new_at("Third Cup", "TC", restrictions(), T0);
    twice.registered_players =
        vec![RegistrationEntry::new_at("player1", 1), RegistrationEntry::new_at("player1", 2)];
    assert_eq!(
        tournaments.insert(twice),
        Err(DatabaseError::CouldNotParse("player registered twice".to_string()))
    );
    assert_eq!(tournaments.len(), 1);
}

#[test]
fn new_database_is_empty() {
    let db = LocalDatabase::new();
    assert_eq!(db.players.len(), 0);
    assert_eq!(db.tournaments.len(), 0);
    assert_eq!(db.tournaments.get_active(), None);
}
