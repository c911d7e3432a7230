use league_store::database::Pool;
use league_store::errors::{ApiError, ErrorKind};
use league_store::ids::Uuid;
use league_store::managers::leagues;
use league_store::managers::teams::{create, find, get_all, get_all_in_league};
use league_store::models::leagues::{League, Ruleset};
use league_store::models::teams::{Owner, Player, Team, TeamDetails, TeamsResponse};
use league_store::time::Timestamp;

/// A pool over a store that holds the league with the nil id, a second
/// league, and one team in the first.
fn get_pool() -> Pool {
    let mut pool = Pool::new(2);
    for (id, ruleset_id) in [(0u128, 100u128), (1, 101)] {
        let league = League {
            id: Uuid::from_u128(id),
            name: "League".to_string(),
            start: Timestamp::new(0, 0),
            rounds: 4,
            current_round: 0,
        };
        let ruleset = Ruleset {
            id: Uuid::from_u128(ruleset_id),
            points_per_mile: 1,
            league_id: Uuid::from_u128(id),
        };
        leagues::create(&mut pool, &league, &ruleset).unwrap();
    }
    let team = Team {
        id: Uuid::from_u128(10),
        name: "Seeded".to_string(),
        wins: 3,
        losses: 2,
        ties: 1,
        league_id: Uuid::nil(),
    };
    create(&mut pool, &team, None, None).unwrap();
    pool
}

fn get_all_teams() -> Result<TeamsResponse, ApiError> {
    let mut pool = get_pool();
    get_all(&mut pool)
}

fn create_tournament_with_owner_and_player() -> Result<TeamDetails, ApiError> {
    let mut pool = get_pool();
    // Uuid nil is all 0
    let league_id = Uuid::nil();
    let user_id = Uuid::nil();
    let team_id = Uuid::new_v4();

    let team = Team {
        id: team_id,
        name: "Test Team".to_string(),
        wins: 0,
        losses: 0,
        ties: 0,
        league_id: league_id,
    };

    let player = Player { id: Uuid::new_v4(), team_id: team_id, user_id: user_id };

    let owner = Owner { id: Uuid::new_v4(), team_id: team_id, user_id: user_id };

    create(&mut pool, &team, Some(&vec![player]), Some(&vec![owner]))
}

fn create_tournament_without_owner_and_player() -> Result<TeamDetails, ApiError> {
    let mut pool = get_pool();
    // Uuid nil is all 0
    let league_id = Uuid::nil();
    let team_id = Uuid::new_v4();

    let team = Team {
        id: team_id,
        name: "Test Team".to_string(),
        wins: 0,
        losses: 0,
        ties: 0,
        league_id: league_id,
    };

    create(&mut pool, &team, None, None)
}

fn team(id: u128, league_id: u128) -> Team {
    Team {
        id: Uuid::from_u128(id),
        name: "Test Team".to_string(),
        wins: 0,
        losses: 0,
        ties: 0,
        league_id: Uuid::from_u128(league_id),
    }
}

fn player(id: u128, team_id: u128) -> Player {
    Player { id: Uuid::from_u128(id), user_id: Uuid::nil(), team_id: Uuid::from_u128(team_id) }
}

fn owner(id: u128, team_id: u128) -> Owner {
    Owner { id: Uuid::from_u128(id), user_id: Uuid::nil(), team_id: Uuid::from_u128(team_id) }
}

#[test]
fn it_finds_team() {
    let teams = get_all_teams().unwrap();
    let team = &teams.0[0];
    let found_team = find(&mut get_pool(), team.id).unwrap();
    assert_eq!(team.id, found_team.id);
}

#[test]
fn it_gets_all_teams() {
    let teams = get_all_teams();
    assert!(teams.is_ok());
}

#[test]
fn it_creates_team_with_owners_and_players() {
    let created = create_tournament_with_owner_and_player();
    assert!(created.is_ok());
}

#[test]
fn it_creates_team_alone() {
    let created = create_tournament_without_owner_and_player();
    assert!(created.is_ok());
}

#[test]
fn team_created_alone_has_no_sets() {
    let created = create_tournament_without_owner_and_player().unwrap();
    assert_eq!(created.players, None);
    assert_eq!(created.owners, None);
    assert_eq!(created.name, "Test Team");
    assert_eq!(created.league_id, Uuid::nil());
    assert_eq!((created.wins, created.losses, created.ties), (0, 0, 0));
}

#[test]
fn team_created_with_one_player_shows_that_player() {
    let mut pool = get_pool();
    let new_team = team(20, 0);
    let only = player(200, 20);
    let created = create(&mut pool, &new_team, Some(&vec![only]), None).unwrap();
    assert_eq!(created.id, Uuid::from_u128(20));
    let players = created.players.unwrap();
    assert_eq!(players.len(), 1);
    assert_eq!(players[0], only);
    assert_eq!(players[0].team_id, created.id);
    assert_eq!(created.owners, None);
    let found = find(&mut pool, new_team.id).unwrap();
    assert_eq!(found.players, Some(vec![only]));
    assert_eq!(found.owners, None);
}

#[test]
fn team_created_with_both_sets_is_found_with_them() {
    let mut pool = get_pool();
    let new_team = team(20, 1);
    let players = vec![player(200, 20), player(201, 20)];
    let owners = vec![owner(300, 20)];
    let created = create(&mut pool, &new_team, Some(&players), Some(&owners)).unwrap();
    let expected = TeamDetails {
        id: Uuid::from_u128(20),
        league_id: Uuid::from_u128(1),
        name: "Test Team".to_string(),
        wins: 0,
        losses: 0,
        ties: 0,
        players: Some(players.clone()),
        owners: Some(owners.clone()),
    };
    assert_eq!(created, expected);
    assert_eq!(find(&mut pool, new_team.id).unwrap(), expected);
    assert_eq!(pool.leased(), 0);
}

#[test]
fn set_given_without_rows_is_present_on_create_and_absent_on_find() {
    let mut pool = get_pool();
    let new_team = team(20, 0);
    let no_players: Vec<Player> = Vec::new();
    let no_owners: Vec<Owner> = Vec::new();
    let created = create(&mut pool, &new_team, Some(&no_players), Some(&no_owners)).unwrap();
    assert_eq!(created.players, Some(Vec::new()));
    assert_eq!(created.owners, Some(Vec::new()));
    let found = find(&mut pool, new_team.id).unwrap();
    assert_eq!(found.players, None);
    assert_eq!(found.owners, None);
}

#[test]
fn found_team_shows_only_its_own_rows() {
    let mut pool = get_pool();
    create(&mut pool, &team(20, 0), Some(&vec![player(200, 20)]), Some(&vec![owner(300, 20)]))
        .unwrap();
    // A later team brings a player for the earlier one and an owner for itself.
    let created = create(
        &mut pool,
        &team(21, 0),
        Some(&vec![player(201, 20)]),
        Some(&vec![owner(301, 21)]),
    )
    .unwrap();
    assert_eq!(created.players, Some(vec![player(201, 20)]));
    let first = find(&mut pool, Uuid::from_u128(20)).unwrap();
    assert_eq!(first.players, Some(vec![player(200, 20), player(201, 20)]));
    assert_eq!(first.owners, Some(vec![owner(300, 20)]));
    let second = find(&mut pool, Uuid::from_u128(21)).unwrap();
    assert_eq!(second.players, None);
    assert_eq!(second.owners, Some(vec![owner(301, 21)]));
    let seeded = find(&mut pool, Uuid::from_u128(10)).unwrap();
    assert_eq!(seeded.players, None);
    assert_eq!(seeded.owners, None);
    assert_eq!((seeded.wins, seeded.losses, seeded.ties), (3, 2, 1));
}

#[test]
fn absent_team_is_not_found() {
    let mut pool = get_pool();
    let error = find(&mut pool, Uuid::from_u128(0x99)).unwrap_err();
    assert_eq!(
        error,
        ApiError::NotFound("Team 00000000-0000-0000-0000-000000000099 not found".to_string())
    );
}

#[test]
fn teams_are_listed_by_league() {
    let mut pool = get_pool();
    create(&mut pool, &team(20, 1), None, None).unwrap();
    create(&mut pool, &team(21, 0), None, None).unwrap();
    let all = get_all(&mut pool).unwrap();
    let ids: Vec<u128> = all.0.iter().map(|t| t.id.as_u128()).collect();
    assert_eq!(ids, vec![10, 20, 21]);
    let first = get_all_in_league(&mut pool, Uuid::nil()).unwrap();
    let ids: Vec<u128> = first.0.iter().map(|t| t.id.as_u128()).collect();
    assert_eq!(ids, vec![10, 21]);
    let second = get_all_in_league(&mut pool, Uuid::from_u128(1)).unwrap();
    assert_eq!(second.0.len(), 1);
    assert_eq!(second.0[0].id, Uuid::from_u128(20));
    let none = get_all_in_league(&mut pool, Uuid::from_u128(2)).unwrap();
    assert_eq!(none.0.len(), 0);
}

#[test]
fn team_needs_its_league_a_free_id_and_sound_counts() {
    let mut pool = get_pool();
    let error = create(&mut pool, &team(20, 9), None, None).unwrap_err();
    assert_eq!(error, ApiError::Conflict("foreign key constraint is violated".to_string()));
    let error = create(&mut pool, &team(10, 0), None, None).unwrap_err();
    assert_eq!(
        error,
        ApiError::Conflict("duplicate key value violates a unique constraint".to_string())
    );
    let mut losing = team(20, 0);
    losing.losses = -1;
    let error = create(&mut pool, &losing, None, None).unwrap_err();
    assert_eq!(error, ApiError::Conflict("new row violates a check constraint".to_string()));
    assert_eq!(get_all(&mut pool).unwrap().0.len(), 1);
}

#[test]
fn refused_set_takes_the_team_with_it() {
    let mut pool = get_pool();
    // The second player has the id of the first.
    let error = create(
        &mut pool,
        &team(20, 0),
        Some(&vec![player(200, 20), player(200, 20)]),
        Some(&vec![owner(300, 20)]),
    )
    .unwrap_err();
    assert_eq!(error.kind(), ErrorKind::Conflict);
    assert!(matches!(find(&mut pool, Uuid::from_u128(20)), Err(ApiError::NotFound(_))));
    // The owner refers to a team that is not there; the players were in already.
    let error = create(
        &mut pool,
        &team(20, 0),
        Some(&vec![player(200, 20)]),
        Some(&vec![owner(300, 77)]),
    )
    .unwrap_err();
    assert_eq!(error, ApiError::Conflict("foreign key constraint is violated".to_string()));
    assert!(matches!(find(&mut pool, Uuid::from_u128(20)), Err(ApiError::NotFound(_))));
    assert_eq!(get_all(&mut pool).unwrap().0.len(), 1);
    // Nothing of the two attempts is left: the same rows are accepted now.
    let created = create(
        &mut pool,
        &team(20, 0),
        Some(&vec![player(200, 20)]),
        Some(&vec![owner(300, 20)]),
    );
    assert!(created.is_ok());
    assert_eq!(pool.leased(), 0);
}

#[test]
fn team_operations_fail_when_no_connection_is_left() {
    let mut pool = Pool::new(0);
    let expected = ApiError::ConnectionFailure("no connection is available in the pool".to_string());
    assert_eq!(get_all(&mut pool).unwrap_err(), expected);
    assert_eq!(get_all_in_league(&mut pool, Uuid::nil()).unwrap_err(), expected);
    assert_eq!(find(&mut pool, Uuid::nil()).unwrap_err(), expected);
    assert_eq!(create(&mut pool, &team(1, 0), None, None).unwrap_err(), expected);
}

#[test]
fn teams_become_a_response_in_their_order() {
    let response: TeamsResponse = vec![team(2, 0), team(1, 0)].into();
    assert_eq!(response.0.len(), 2);
    assert_eq!(response.0[0].id, Uuid::from_u128(2));
    assert_eq!(response.0[1].id, Uuid::from_u128(1));
}
