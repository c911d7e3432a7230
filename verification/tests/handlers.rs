use league_store::database::Pool;
use league_store::errors::{ApiError, ErrorClass, ErrorKind};
use league_store::handlers::leagues::{
    changes_of_request, create_league, league_changes, league_of_request, new_league, parse_start,
    update_league,
};
use league_store::ids::Uuid;
use league_store::managers::leagues::{find_with_details, get_all_details};
use league_store::models::leagues::{
    CreateLeagueRequest, League, Ruleset, UpdateLeagueRequest, UpdateRuleset,
};
use league_store::time::Timestamp;

fn spring_classic() -> CreateLeagueRequest {
    CreateLeagueRequest {
        name: "Spring Classic".to_string(),
        start: "2024-03-01".to_string(),
        rounds: 6,
        points_per_mile: 10,
    }
}

#[test]
fn start_is_midnight_of_the_given_day() {
    assert_eq!(parse_start("2024-03-01"), Ok(Timestamp::new(1_709_251_200, 0)));
    assert_eq!(parse_start("1970-01-01"), Ok(Timestamp::new(0, 0)));
    assert_eq!(parse_start("1969-12-31"), Ok(Timestamp::new(-86_400, 0)));
    let expected = chrono::NaiveDate::from_ymd_opt(2031, 12, 24)
        .unwrap()
        .and_hms_opt(0, 0, 0)
        .unwrap()
        .and_utc()
        .timestamp();
    assert_eq!(parse_start("2031-12-24"), Ok(Timestamp::new(expected, 0)));
}

#[test]
fn start_that_is_no_date_is_a_parse_failure() {
    for text in ["", "tomorrow", "2024-02-30", "2024-13-01", "2024-03-01 10:00:00", "01/03/2024"] {
        let failure = parse_start(text).unwrap_err();
        assert_eq!(failure.kind(), ErrorKind::ParseFailure, "{:?}", text);
        assert_eq!(failure.class(), ErrorClass::Rejected);
        assert!(matches!(failure, ApiError::ParseFailure(_)));
    }
}

#[test]
fn request_becomes_a_league_before_its_first_round() {
    let start = Timestamp::new(1_709_251_200, 0);
    let (league, ruleset) =
        league_of_request(&spring_classic(), Uuid::from_u128(1), Uuid::from_u128(2), start);
    assert_eq!(
        league,
        League {
            id: Uuid::from_u128(1),
            name: "Spring Classic".to_string(),
            start,
            rounds: 6,
            current_round: 0,
        }
    );
    assert_eq!(
        ruleset,
        Ruleset { id: Uuid::from_u128(2), points_per_mile: 10, league_id: Uuid::from_u128(1) }
    );
}

#[test]
fn request_becomes_changes_to_a_league() {
    let request = UpdateLeagueRequest {
        name: "Summer".to_string(),
        start: "2024-06-01".to_string(),
        rounds: 9,
        points_per_mile: 3,
    };
    let (league, ruleset) = changes_of_request(&request, Uuid::from_u128(4), Timestamp::new(5, 0));
    assert_eq!(league.id, Uuid::from_u128(4));
    assert_eq!(league.name, "Summer");
    assert_eq!(league.start, Timestamp::new(5, 0));
    assert_eq!(league.rounds, 9);
    assert_eq!(league.current_round, 0);
    assert_eq!(ruleset, UpdateRuleset { points_per_mile: 3 });
    let (league, _) = league_changes(Uuid::from_u128(4), &request).unwrap();
    assert_eq!(league.start, Timestamp::new(1_717_200_000, 0));
    let unreadable = UpdateLeagueRequest { start: "June".to_string(), ..request };
    assert!(matches!(league_changes(Uuid::from_u128(4), &unreadable), Err(ApiError::ParseFailure(_))));
}

#[test]
fn new_league_gets_fresh_ids() {
    let (league, ruleset) = new_league(&spring_classic()).unwrap();
    assert_eq!(ruleset.league_id, league.id);
    assert_ne!(ruleset.id, league.id);
    assert_eq!((league.id.bits >> 76) & 0xf, 4);
    assert_eq!((ruleset.id.bits >> 76) & 0xf, 4);
    assert_eq!(league.start, Timestamp::new(1_709_251_200, 0));
    let (other, _) = new_league(&spring_classic()).unwrap();
    assert_ne!(other.id, league.id);
}

#[test]
fn spring_classic_is_created_and_found() {
    let mut pool = Pool::new(1);
    let created = create_league(&mut pool, &spring_classic()).unwrap();
    assert_eq!(created.name, "Spring Classic");
    assert_eq!(created.start, Timestamp::new(1_709_251_200, 0));
    assert_eq!(created.rounds, 6);
    assert_eq!(created.current_round, 0);
    assert_eq!(created.points_per_mile, 10);
    let found = find_with_details(&mut pool, created.id).unwrap();
    assert_eq!(found, created);
    assert_eq!(found.name, "Spring Classic");
    assert_eq!(found.rounds, 6);
    assert_eq!(found.current_round, 0);
    assert_eq!(found.points_per_mile, 10);
}

#[test]
fn unreadable_start_stores_nothing() {
    let mut pool = Pool::new(1);
    let request = CreateLeagueRequest { start: "soon".to_string(), ..spring_classic() };
    assert!(matches!(create_league(&mut pool, &request), Err(ApiError::ParseFailure(_))));
    assert_eq!(get_all_details(&mut pool).unwrap().0.len(), 0);
}

#[test]
fn league_without_rounds_is_refused() {
    let mut pool = Pool::new(1);
    let request = CreateLeagueRequest { rounds: 0, ..spring_classic() };
    assert!(matches!(create_league(&mut pool, &request), Err(ApiError::Conflict(_))));
    assert_eq!(get_all_details(&mut pool).unwrap().0.len(), 0);
}

#[test]
fn league_is_updated_from_a_request() {
    let mut pool = Pool::new(1);
    let created = create_league(&mut pool, &spring_classic()).unwrap();
    let request = UpdateLeagueRequest {
        name: "Summer Classic".to_string(),
        start: "2024-06-01".to_string(),
        rounds: 8,
        points_per_mile: 12,
    };
    let updated = update_league(&mut pool, created.id, &request).unwrap();
    assert_eq!(updated.id, created.id);
    assert_eq!(updated.name, "Summer Classic");
    assert_eq!(updated.start, Timestamp::new(1_717_200_000, 0));
    assert_eq!(updated.rounds, 8);
    assert_eq!(updated.current_round, 0);
    assert_eq!(updated.points_per_mile, 12);
    assert_eq!(find_with_details(&mut pool, created.id).unwrap(), updated);
    let unreadable = UpdateLeagueRequest { start: "2024-6".to_string(), ..request };
    assert!(matches!(
        update_league(&mut pool, created.id, &unreadable),
        Err(ApiError::ParseFailure(_))
    ));
    assert_eq!(find_with_details(&mut pool, created.id).unwrap(), updated);
    let request = UpdateLeagueRequest {
        name: "Nowhere".to_string(),
        start: "2024-06-01".to_string(),
        rounds: 8,
        points_per_mile: 12,
    };
    assert!(matches!(
        update_league(&mut pool, Uuid::from_u128(3), &request),
        Err(ApiError::NotFound(_))
    ));
}
