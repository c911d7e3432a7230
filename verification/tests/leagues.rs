use league_store::database::{Command, Pool, Reply};
use league_store::errors::{ApiError, ErrorClass, ErrorKind};
use league_store::handlers::leagues::{delete_league, get_league, get_leagues};
use league_store::ids::Uuid;
use league_store::managers::leagues::{
    create, delete, find_with_details, get_all_details, update,
};
use league_store::managers::teams;
use league_store::models::leagues::{
    League, LeagueDetails, LeaguesResponse, NewLeague, NewRuleset, Ruleset, UpdateLeague,
    UpdateRuleset,
};
use league_store::models::teams::Team;
use league_store::time::Timestamp;

fn league(id: u128, name: &str, rounds: i32) -> League {
    League {
        id: Uuid::from_u128(id),
        name: name.to_string(),
        start: Timestamp::new(1_709_251_200, 0),
        rounds,
        current_round: 0,
    }
}

fn ruleset(id: u128, league_id: u128, points_per_mile: i32) -> Ruleset {
    Ruleset { id: Uuid::from_u128(id), points_per_mile, league_id: Uuid::from_u128(league_id) }
}

/// A pool over a store that holds two leagues, the first under the nil id.
fn get_pool() -> Pool {
    let mut pool = Pool::new(4);
    create(&mut pool, &league(0, "Founders", 10), &ruleset(100, 0, 5)).unwrap();
    create(&mut pool, &league(1, "Autumn Cup", 3), &ruleset(101, 1, 8)).unwrap();
    pool
}

fn get_all_leagues_with_details() -> Result<LeaguesResponse, ApiError> {
    let mut pool = get_pool();
    get_all_details(&mut pool)
}

fn rulesets_of(pool: &mut Pool, league_id: Uuid) -> Vec<Ruleset> {
    assert!(matches!(pool.execute(Command::Acquire), Reply::Done));
    let rows = match pool.execute(Command::SelectRulesetsOfLeague(league_id)) {
        Reply::Rulesets(rows) => rows,
        other => panic!("unexpected reply {:?}", other),
    };
    assert!(matches!(pool.execute(Command::Release), Reply::Done));
    rows
}

#[test]
fn it_finds_league_with_details() {
    let leagues = get_all_leagues_with_details().unwrap();
    let league = &leagues.0[0];
    let found_league = find_with_details(&mut get_pool(), league.id).unwrap();
    assert_eq!(league, &found_league);
}

#[test]
fn it_gets_all_leagues_with_details() {
    let leagues = get_all_leagues_with_details();
    assert!(leagues.is_ok());
}

fn get_all_leagues() -> LeaguesResponse {
    let mut pool = get_pool();
    get_all_details(&mut pool).unwrap()
}

fn get_first_leagues_id() -> Uuid {
    get_all_leagues().0[0].id
}

#[test]
fn it_gets_all_leagues() {
    let response = get_leagues(&mut get_pool());
    assert!(response.is_ok());
    assert_eq!(response.unwrap().0[0], get_all_leagues().0[0]);
}

#[test]
fn it_gets_a_league() {
    let first_league = &get_all_leagues().0[0];
    let league_id = get_first_leagues_id();
    let response = get_league(&mut get_pool(), league_id).unwrap();
    assert_eq!(response, *first_league);
}

#[test]
fn it_doesnt_find_a_league() {
    let uuid = Uuid::new_v4();
    let response = get_league(&mut get_pool(), uuid);
    let expected_error = ApiError::NotFound(format!("League {} not found", uuid.to_string()));
    assert!(response.is_err());
    assert_eq!(response.unwrap_err(), expected_error);
}

#[test]
fn league_is_removed_on_request() {
    let mut pool = get_pool();
    assert_eq!(delete_league(&mut pool, Uuid::from_u128(1)), Ok(()));
    assert!(matches!(get_league(&mut pool, Uuid::from_u128(1)), Err(ApiError::NotFound(_))));
    assert_eq!(get_leagues(&mut pool).unwrap().0.len(), 1);
}

#[test]
fn all_details_come_in_the_order_of_the_store() {
    let all = get_all_leagues_with_details().unwrap();
    assert_eq!(all.0.len(), 2);
    assert_eq!(all.0[0].name, "Founders");
    assert_eq!(all.0[0].points_per_mile, 5);
    assert_eq!(all.0[1].name, "Autumn Cup");
    assert_eq!(all.0[1].points_per_mile, 8);
    let mut empty = Pool::new(1);
    assert_eq!(get_all_details(&mut empty).unwrap().0.len(), 0);
}

#[test]
fn absent_league_is_not_found() {
    let mut pool = Pool::new(1);
    let id = Uuid::from_u128(0x42);
    let error = find_with_details(&mut pool, id).unwrap_err();
    assert_eq!(
        error,
        ApiError::NotFound("League 00000000-0000-0000-0000-000000000042 not found".to_string())
    );
    assert_eq!(error.kind(), ErrorKind::NotFound);
    assert_eq!(error.class(), ErrorClass::Missing);
    let mut seeded = get_pool();
    assert!(matches!(
        find_with_details(&mut seeded, Uuid::from_u128(2)),
        Err(ApiError::NotFound(_))
    ));
}

#[test]
fn created_league_is_found_field_for_field() {
    let mut pool = Pool::new(2);
    let new_league = League {
        id: Uuid::from_u128(7),
        name: "Spring Classic".to_string(),
        start: Timestamp::new(1_709_251_200, 0),
        rounds: 6,
        current_round: 0,
    };
    let new_ruleset = ruleset(70, 7, 10);
    let created = create(&mut pool, &new_league, &new_ruleset).unwrap();
    let expected = LeagueDetails {
        id: Uuid::from_u128(7),
        name: "Spring Classic".to_string(),
        start: Timestamp::new(1_709_251_200, 0),
        rounds: 6,
        current_round: 0,
        points_per_mile: 10,
    };
    assert_eq!(created, expected);
    let found = find_with_details(&mut pool, new_league.id).unwrap();
    assert_eq!(found, expected);
    assert_eq!(found.name, "Spring Classic");
    assert_eq!(found.rounds, 6);
    assert_eq!(found.current_round, 0);
    assert_eq!(found.points_per_mile, 10);
    assert_eq!(pool.leased(), 0);
}

#[test]
fn update_is_idempotent() {
    let mut pool = get_pool();
    let changes = UpdateLeague {
        id: Uuid::from_u128(1),
        name: "Winter Cup".to_string(),
        start: Timestamp::new(1_700_000_000, 0),
        rounds: 12,
        current_round: 4,
    };
    let points = UpdateRuleset { points_per_mile: 21 };
    let first = update(&mut pool, &changes, &points).unwrap();
    let after_first = get_all_details(&mut pool).unwrap();
    let second = update(&mut pool, &changes, &points).unwrap();
    let after_second = get_all_details(&mut pool).unwrap();
    assert_eq!(first, second);
    assert_eq!(after_first, after_second);
    let expected = LeagueDetails {
        id: Uuid::from_u128(1),
        name: "Winter Cup".to_string(),
        start: Timestamp::new(1_700_000_000, 0),
        rounds: 12,
        current_round: 4,
        points_per_mile: 21,
    };
    assert_eq!(first, expected);
    assert_eq!(find_with_details(&mut pool, Uuid::from_u128(1)).unwrap(), expected);
    // The other league is untouched.
    assert_eq!(find_with_details(&mut pool, Uuid::nil()).unwrap().name, "Founders");
    assert_eq!(find_with_details(&mut pool, Uuid::nil()).unwrap().points_per_mile, 5);
}

#[test]
fn update_of_an_absent_league_is_not_found() {
    let mut pool = get_pool();
    let changes = UpdateLeague {
        id: Uuid::from_u128(9),
        name: "Nowhere".to_string(),
        start: Timestamp::new(0, 0),
        rounds: 1,
        current_round: 0,
    };
    let error = update(&mut pool, &changes, &UpdateRuleset { points_per_mile: 1 }).unwrap_err();
    assert_eq!(
        error,
        ApiError::NotFound(
            "Ruleset of league 00000000-0000-0000-0000-000000000009 not found".to_string()
        )
    );
    assert_eq!(get_all_details(&mut pool).unwrap(), get_all_leagues_with_details().unwrap());
}

#[test]
fn update_that_fails_its_checks_changes_nothing() {
    let mut pool = get_pool();
    let before = get_all_details(&mut pool).unwrap();
    let changes = UpdateLeague {
        id: Uuid::from_u128(1),
        name: "Broken".to_string(),
        start: Timestamp::new(0, 0),
        rounds: 2,
        current_round: 3,
    };
    let error = update(&mut pool, &changes, &UpdateRuleset { points_per_mile: 99 }).unwrap_err();
    assert_eq!(error.kind(), ErrorKind::Conflict);
    assert_eq!(error.class(), ErrorClass::Rejected);
    // The ruleset was changed first; the rollback has undone it.
    assert_eq!(get_all_details(&mut pool).unwrap(), before);
    assert_eq!(rulesets_of(&mut pool, Uuid::from_u128(1))[0].points_per_mile, 8);
    assert_eq!(pool.leased(), 0);
}

#[test]
fn deleted_league_is_gone_with_its_ruleset() {
    let mut pool = get_pool();
    let id = Uuid::from_u128(1);
    assert_eq!(rulesets_of(&mut pool, id).len(), 1);
    assert_eq!(delete(&mut pool, id), Ok(()));
    assert_eq!(
        find_with_details(&mut pool, id),
        Err(ApiError::NotFound(format!("League {} not found", id.to_string())))
    );
    assert_eq!(rulesets_of(&mut pool, id).len(), 0);
    let left = get_all_details(&mut pool).unwrap();
    assert_eq!(left.0.len(), 1);
    assert_eq!(left.0[0].id, Uuid::nil());
}

#[test]
fn delete_of_an_absent_league_changes_nothing() {
    let mut pool = get_pool();
    assert_eq!(delete(&mut pool, Uuid::from_u128(55)), Ok(()));
    assert_eq!(get_all_details(&mut pool).unwrap(), get_all_leagues_with_details().unwrap());
}

#[test]
fn delete_of_a_league_with_teams_is_refused_and_undone() {
    let mut pool = get_pool();
    let team = Team {
        id: Uuid::from_u128(500),
        name: "Test Team".to_string(),
        wins: 0,
        losses: 0,
        ties: 0,
        league_id: Uuid::nil(),
    };
    teams::create(&mut pool, &team, None, None).unwrap();
    let error = delete(&mut pool, Uuid::nil()).unwrap_err();
    assert_eq!(error, ApiError::Conflict("foreign key constraint is violated".to_string()));
    // The ruleset had been removed before the league was refused; it is back.
    assert_eq!(rulesets_of(&mut pool, Uuid::nil()).len(), 1);
    assert_eq!(find_with_details(&mut pool, Uuid::nil()).unwrap().points_per_mile, 5);
    assert_eq!(pool.leased(), 0);
}

#[test]
fn create_stores_both_rows_or_neither() {
    let mut pool = get_pool();
    // The ruleset id is taken: the league must not stay behind.
    let error = create(&mut pool, &league(2, "Half", 4), &ruleset(100, 2, 1)).unwrap_err();
    assert_eq!(
        error,
        ApiError::Conflict("duplicate key value violates a unique constraint".to_string())
    );
    assert!(matches!(
        find_with_details(&mut pool, Uuid::from_u128(2)),
        Err(ApiError::NotFound(_))
    ));
    assert_eq!(get_all_details(&mut pool).unwrap().0.len(), 2);
    // The same league is accepted once the ruleset is in order.
    assert!(create(&mut pool, &league(2, "Half", 4), &ruleset(102, 2, 1)).is_ok());
    assert_eq!(get_all_details(&mut pool).unwrap().0.len(), 3);
}

#[test]
fn create_refuses_what_breaks_a_constraint() {
    let mut pool = get_pool();
    // The league id is taken.
    let error = create(&mut pool, &league(1, "Again", 4), &ruleset(200, 1, 1)).unwrap_err();
    assert_eq!(
        error,
        ApiError::Conflict("duplicate key value violates a unique constraint".to_string())
    );
    // No round at all.
    let error = create(&mut pool, &league(3, "Empty", 0), &ruleset(201, 3, 1)).unwrap_err();
    assert_eq!(error, ApiError::Conflict("new row violates a check constraint".to_string()));
    // The current round is past the last.
    let mut late = league(3, "Late", 2);
    late.current_round = 3;
    assert!(matches!(create(&mut pool, &late, &ruleset(201, 3, 1)), Err(ApiError::Conflict(_))));
    // The ruleset refers to a league that is not there.
    let error = create(&mut pool, &league(3, "Lost", 2), &ruleset(201, 77, 1)).unwrap_err();
    assert_eq!(error, ApiError::Conflict("foreign key constraint is violated".to_string()));
    // The ruleset refers to a league that has one already.
    let error = create(&mut pool, &league(3, "Second", 2), &ruleset(201, 0, 1)).unwrap_err();
    assert_eq!(
        error,
        ApiError::Conflict("duplicate key value violates a unique constraint".to_string())
    );
    assert_eq!(get_all_details(&mut pool).unwrap(), get_all_leagues_with_details().unwrap());
    assert_eq!(pool.leased(), 0);
}

#[test]
fn operations_fail_when_no_connection_is_left() {
    let mut pool = Pool::new(1);
    create(&mut pool, &league(0, "Founders", 10), &ruleset(100, 0, 5)).unwrap();
    assert!(matches!(pool.execute(Command::Acquire), Reply::Done));
    assert_eq!(pool.leased(), 1);
    let expected = ApiError::ConnectionFailure("no connection is available in the pool".to_string());
    assert_eq!(find_with_details(&mut pool, Uuid::nil()), Err(expected.clone()));
    assert_eq!(get_all_details(&mut pool), Err(expected.clone()));
    assert_eq!(
        create(&mut pool, &league(1, "Late", 1), &ruleset(101, 1, 5)),
        Err(expected.clone())
    );
    let changes = UpdateLeague {
        id: Uuid::nil(),
        name: "x".to_string(),
        start: Timestamp::new(0, 0),
        rounds: 1,
        current_round: 0,
    };
    assert_eq!(
        update(&mut pool, &changes, &UpdateRuleset { points_per_mile: 1 }),
        Err(expected.clone())
    );
    assert_eq!(delete(&mut pool, Uuid::nil()), Err(expected.clone()));
    assert_eq!(expected.class(), ErrorClass::Internal);
    assert_eq!(pool.leased(), 1);
    assert!(matches!(pool.execute(Command::Release), Reply::Done));
    assert_eq!(find_with_details(&mut pool, Uuid::nil()).unwrap().name, "Founders");
    let mut none = Pool::new(0);
    assert!(matches!(get_all_details(&mut none), Err(ApiError::ConnectionFailure(_))));
}

#[test]
fn every_operation_gives_its_connection_back() {
    let mut pool = get_pool();
    assert_eq!(pool.capacity(), 4);
    for round in 0..10 {
        let _ = find_with_details(&mut pool, Uuid::from_u128(round));
        let _ = create(&mut pool, &league(round, "Again", 1), &ruleset(100 + round, round, 1));
        let _ = delete(&mut pool, Uuid::from_u128(round + 1));
        assert_eq!(pool.leased(), 0);
    }
}

#[test]
fn last_of_two_updates_is_what_is_stored() {
    let a = UpdateLeague {
        id: Uuid::from_u128(1),
        name: "A".to_string(),
        start: Timestamp::new(1, 0),
        rounds: 5,
        current_round: 1,
    };
    let a_points = UpdateRuleset { points_per_mile: 11 };
    let b = UpdateLeague {
        id: Uuid::from_u128(1),
        name: "B".to_string(),
        start: Timestamp::new(2, 0),
        rounds: 9,
        current_round: 2,
    };
    let b_points = UpdateRuleset { points_per_mile: 22 };

    let mut pool = get_pool();
    update(&mut pool, &a, &a_points).unwrap();
    update(&mut pool, &b, &b_points).unwrap();
    let found = find_with_details(&mut pool, Uuid::from_u128(1)).unwrap();
    assert_eq!(
        found,
        LeagueDetails {
            id: Uuid::from_u128(1),
            name: "B".to_string(),
            start: Timestamp::new(2, 0),
            rounds: 9,
            current_round: 2,
            points_per_mile: 22,
        }
    );

    let mut pool = get_pool();
    update(&mut pool, &b, &b_points).unwrap();
    update(&mut pool, &a, &a_points).unwrap();
    let found = find_with_details(&mut pool, Uuid::from_u128(1)).unwrap();
    assert_eq!(
        found,
        LeagueDetails {
            id: Uuid::from_u128(1),
            name: "A".to_string(),
            start: Timestamp::new(1, 0),
            rounds: 5,
            current_round: 1,
            points_per_mile: 11,
        }
    );
}

#[test]
fn new_rows_become_rows() {
    let new_league = NewLeague {
        id: Uuid::from_u128(5),
        name: "Five".to_string(),
        start: Timestamp::new(50, 5),
        rounds: 5,
        current_round: 2,
    };
    let row: League = new_league.clone().into();
    assert_eq!(
        row,
        League {
            id: Uuid::from_u128(5),
            name: "Five".to_string(),
            start: Timestamp::new(50, 5),
            rounds: 5,
            current_round: 2,
        }
    );
    let new_ruleset =
        NewRuleset { id: Uuid::from_u128(6), points_per_mile: 3, league_id: Uuid::from_u128(5) };
    let row: Ruleset = new_ruleset.into();
    assert_eq!(
        row,
        Ruleset { id: Uuid::from_u128(6), points_per_mile: 3, league_id: Uuid::from_u128(5) }
    );
    let details = League::from(new_league).details(3);
    assert_eq!(details.points_per_mile, 3);
    assert_eq!(details.name, "Five");
    let response: LeaguesResponse = vec![details.clone(), details.clone()].into();
    assert_eq!(response.0.len(), 2);
    assert_eq!(response.0[1], details);
}

#[test]
fn writes_fail_while_a_transaction_is_left_open() {
    let mut pool = get_pool();
    assert!(matches!(pool.execute(Command::Acquire), Reply::Done));
    assert!(matches!(pool.execute(Command::Begin), Reply::Done));
    let expected = ApiError::StoreFailure("a transaction is already open".to_string());
    assert_eq!(create(&mut pool, &league(2, "Late", 1), &ruleset(102, 2, 5)), Err(expected.clone()));
    let changes = UpdateLeague {
        id: Uuid::nil(),
        name: "x".to_string(),
        start: Timestamp::new(0, 0),
        rounds: 1,
        current_round: 0,
    };
    assert_eq!(
        update(&mut pool, &changes, &UpdateRuleset { points_per_mile: 1 }),
        Err(expected.clone())
    );
    assert_eq!(delete(&mut pool, Uuid::nil()), Err(expected.clone()));
    let team = Team {
        id: Uuid::from_u128(500),
        name: "Test Team".to_string(),
        wins: 0,
        losses: 0,
        ties: 0,
        league_id: Uuid::nil(),
    };
    assert_eq!(teams::create(&mut pool, &team, None, None), Err(expected.clone()));
    assert_eq!(expected.kind(), ErrorKind::StoreFailure);
    assert_eq!(pool.leased(), 1);
    // Reads need no transaction of their own.
    assert_eq!(find_with_details(&mut pool, Uuid::nil()).unwrap().name, "Founders");
    assert_eq!(get_all_details(&mut pool).unwrap().0.len(), 2);
    assert!(matches!(pool.execute(Command::Rollback), Reply::Done));
    assert!(matches!(pool.execute(Command::Release), Reply::Done));
    assert!(create(&mut pool, &league(2, "Late", 1), &ruleset(102, 2, 5)).is_ok());
}
