use league_store::database::{Command, Pool, Reply};
use league_store::errors::{ApiError, ErrorClass, StoreError};
use league_store::ids::Uuid;
use league_store::managers::leagues::LeagueOperation;
use league_store::managers::teams::TeamOperation;
use league_store::models::leagues::{
    League, LeagueDetails, Ruleset, UpdateLeague, UpdateRuleset,
};
use league_store::models::teams::{Owner, Player, Team};
use league_store::session::{run, Request, Response, Session, Stage};
use league_store::time::Timestamp;

fn league() -> League {
    League {
        id: Uuid::from_u128(1),
        name: "One".to_string(),
        start: Timestamp::new(10, 0),
        rounds: 3,
        current_round: 1,
    }
}

fn ruleset() -> Ruleset {
    Ruleset { id: Uuid::from_u128(11), points_per_mile: 7, league_id: Uuid::from_u128(1) }
}

fn details() -> LeagueDetails {
    LeagueDetails {
        id: Uuid::from_u128(1),
        name: "One".to_string(),
        start: Timestamp::new(10, 0),
        rounds: 3,
        current_round: 1,
        points_per_mile: 7,
    }
}

fn team() -> Team {
    Team {
        id: Uuid::from_u128(5),
        name: "Five".to_string(),
        wins: 1,
        losses: 0,
        ties: 0,
        league_id: Uuid::from_u128(1),
    }
}

fn create_request() -> Request {
    Request::League(LeagueOperation::Create(league(), ruleset()))
}

/// Hands `reply` to the session and expects it to ask for a further command.
fn step(session: Session, reply: Reply) -> (Session, Command) {
    let (next, command) = session.step(reply);
    (next, command.expect("the session is over"))
}

#[test]
fn creation_runs_in_one_transaction() {
    let (session, command) = Session::start(create_request());
    assert!(matches!(command, Command::Acquire));
    assert_eq!(session.stage(), Stage::Acquire);
    let (session, command) = step(session, Reply::Done);
    assert!(matches!(command, Command::Begin));
    let (session, command) = step(session, Reply::Done);
    match command {
        Command::InsertLeague(row) => assert_eq!(row, league()),
        other => panic!("unexpected command {:?}", other),
    }
    let (session, command) = step(session, Reply::Done);
    match command {
        Command::InsertRuleset(row) => assert_eq!(row, ruleset()),
        other => panic!("unexpected command {:?}", other),
    }
    let (session, command) = step(session, Reply::Done);
    assert!(matches!(command, Command::Commit));
    assert_eq!(session.stage(), Stage::Commit);
    let (session, command) = step(session, Reply::Done);
    assert!(matches!(command, Command::Release));
    let (session, command) = session.step(Reply::Done);
    assert!(command.is_none());
    assert_eq!(session.stage(), Stage::Finished);
    assert_eq!(session.finish(), Ok(Response::League(details())));
}

#[test]
fn failed_statement_is_rolled_back_and_the_connection_released() {
    let (session, _) = Session::start(create_request());
    let (session, _) = step(session, Reply::Done);
    let (session, _) = step(session, Reply::Done);
    let (session, command) = step(session, Reply::Done);
    assert!(matches!(command, Command::InsertRuleset(_)));
    let refusal = Reply::Failed(StoreError::Constraint("second ruleset".to_string()));
    let (session, command) = step(session, refusal);
    assert!(matches!(command, Command::Rollback));
    let (session, command) = step(session, Reply::Done);
    assert!(matches!(command, Command::Release));
    let (session, command) = session.step(Reply::Done);
    assert!(command.is_none());
    let failure = session.finish().unwrap_err();
    assert_eq!(failure, ApiError::Conflict("second ruleset".to_string()));
    assert_eq!(failure.class(), ErrorClass::Rejected);
}

#[test]
fn first_statement_that_fails_ends_the_statements() {
    let (session, _) = Session::start(create_request());
    let (session, _) = step(session, Reply::Done);
    let (session, command) = step(session, Reply::Done);
    assert!(matches!(command, Command::InsertLeague(_)));
    let (session, command) =
        step(session, Reply::Failed(StoreError::Failure("statement timed out".to_string())));
    assert!(matches!(command, Command::Rollback));
    // Even a rollback that fails is followed by the release.
    let (session, command) =
        step(session, Reply::Failed(StoreError::Failure("connection lost".to_string())));
    assert!(matches!(command, Command::Release));
    let (session, command) = session.step(Reply::Failed(StoreError::Failure("gone".to_string())));
    assert!(command.is_none());
    let failure = session.finish().unwrap_err();
    assert_eq!(failure, ApiError::StoreFailure("statement timed out".to_string()));
    assert_eq!(failure.class(), ErrorClass::Internal);
}

#[test]
fn refused_lease_ends_the_session_at_once() {
    let (session, _) = Session::start(create_request());
    let (session, command) =
        session.step(Reply::Failed(StoreError::Unavailable("timed out".to_string())));
    assert!(command.is_none());
    assert_eq!(session.stage(), Stage::Finished);
    assert_eq!(session.finish(), Err(ApiError::ConnectionFailure("timed out".to_string())));
}

#[test]
fn failed_begin_releases_without_rollback() {
    let (session, _) = Session::start(create_request());
    let (session, command) = step(session, Reply::Done);
    assert!(matches!(command, Command::Begin));
    let (session, command) =
        step(session, Reply::Failed(StoreError::Failure("cannot begin".to_string())));
    assert!(matches!(command, Command::Release));
    let (session, _) = session.step(Reply::Done);
    assert_eq!(session.finish(), Err(ApiError::StoreFailure("cannot begin".to_string())));
}

#[test]
fn failed_commit_is_rolled_back() {
    let (session, _) = Session::start(create_request());
    let (session, _) = step(session, Reply::Done);
    let (session, _) = step(session, Reply::Done);
    let (session, _) = step(session, Reply::Done);
    let (session, command) = step(session, Reply::Done);
    assert!(matches!(command, Command::Commit));
    let (session, command) =
        step(session, Reply::Failed(StoreError::Constraint("deferred check".to_string())));
    assert!(matches!(command, Command::Rollback));
    let (session, command) = step(session, Reply::Done);
    assert!(matches!(command, Command::Release));
    let (session, _) = session.step(Reply::Done);
    assert_eq!(session.finish(), Err(ApiError::Conflict("deferred check".to_string())));
}

#[test]
fn reply_of_the_wrong_shape_is_a_store_failure() {
    let (session, _) = Session::start(create_request());
    let (session, _) = step(session, Reply::Done);
    let (session, _) = step(session, Reply::Done);
    let (session, command) = step(session, Reply::Teams(Vec::new()));
    assert!(matches!(command, Command::Rollback));
    let (session, _) = step(session, Reply::Done);
    let (session, _) = session.step(Reply::Done);
    assert_eq!(
        session.finish(),
        Err(ApiError::StoreFailure("the store sent an unexpected reply".to_string()))
    );
}

#[test]
fn lookup_is_one_select_without_a_transaction() {
    let id = Uuid::from_u128(1);
    let (session, command) = Session::start(Request::League(LeagueOperation::FindWithDetails(id)));
    assert!(matches!(command, Command::Acquire));
    let (session, command) = step(session, Reply::Done);
    match command {
        Command::SelectLeagueDetails(asked) => assert_eq!(asked, id),
        other => panic!("unexpected command {:?}", other),
    }
    let (session, command) = step(session, Reply::LeagueDetails(vec![details()]));
    assert!(matches!(command, Command::Release));
    let (session, command) = session.step(Reply::Done);
    assert!(command.is_none());
    assert_eq!(session.finish(), Ok(Response::League(details())));
}

#[test]
fn lookup_without_rows_is_not_found_and_other_failures_are_not() {
    let id = Uuid::from_u128(1);
    let (session, _) = Session::start(Request::League(LeagueOperation::FindWithDetails(id)));
    let (session, _) = step(session, Reply::Done);
    let (session, command) = step(session, Reply::LeagueDetails(Vec::new()));
    assert!(matches!(command, Command::Release));
    let (session, _) = session.step(Reply::Done);
    assert_eq!(
        session.finish(),
        Err(ApiError::NotFound("League 00000000-0000-0000-0000-000000000001 not found".to_string()))
    );

    let (session, _) = Session::start(Request::League(LeagueOperation::FindWithDetails(id)));
    let (session, _) = step(session, Reply::Done);
    let (session, command) =
        step(session, Reply::Failed(StoreError::Failure("malformed statement".to_string())));
    assert!(matches!(command, Command::Release));
    let (session, _) = session.step(Reply::Done);
    assert_eq!(session.finish(), Err(ApiError::StoreFailure("malformed statement".to_string())));
}

#[test]
fn update_changes_the_ruleset_it_looked_up_then_the_league() {
    let changes = UpdateLeague {
        id: Uuid::from_u128(1),
        name: "Changed".to_string(),
        start: Timestamp::new(20, 0),
        rounds: 8,
        current_round: 0,
    };
    let points = UpdateRuleset { points_per_mile: 9 };
    let (session, _) =
        Session::start(Request::League(LeagueOperation::Update(changes.clone(), points)));
    let (session, command) = step(session, Reply::Done);
    assert!(matches!(command, Command::Begin));
    let (session, command) = step(session, Reply::Done);
    match command {
        Command::SelectRulesetsOfLeague(asked) => assert_eq!(asked, Uuid::from_u128(1)),
        other => panic!("unexpected command {:?}", other),
    }
    let (session, command) = step(session, Reply::Rulesets(vec![ruleset()]));
    match command {
        Command::UpdateRuleset(id, sent) => {
            assert_eq!(id, Uuid::from_u128(11));
            assert_eq!(sent, points);
        }
        other => panic!("unexpected command {:?}", other),
    }
    let (session, command) = step(session, Reply::Done);
    match command {
        Command::UpdateLeague(sent) => {
            assert_eq!(sent.id, changes.id);
            assert_eq!(sent.name, "Changed");
            assert_eq!(sent.rounds, 8);
        }
        other => panic!("unexpected command {:?}", other),
    }
    let (session, command) = step(session, Reply::Done);
    assert!(matches!(command, Command::Commit));
    let (session, _) = step(session, Reply::Done);
    let (session, _) = session.step(Reply::Done);
    let expected = LeagueDetails {
        id: Uuid::from_u128(1),
        name: "Changed".to_string(),
        start: Timestamp::new(20, 0),
        rounds: 8,
        current_round: 0,
        points_per_mile: 9,
    };
    assert_eq!(session.finish(), Ok(Response::League(expected)));
}

#[test]
fn update_without_a_ruleset_is_not_found_before_any_write() {
    let changes = UpdateLeague {
        id: Uuid::from_u128(1),
        name: "Changed".to_string(),
        start: Timestamp::new(20, 0),
        rounds: 8,
        current_round: 0,
    };
    let request = Request::League(LeagueOperation::Update(changes, UpdateRuleset { points_per_mile: 9 }));
    let (session, _) = Session::start(request);
    let (session, _) = step(session, Reply::Done);
    let (session, _) = step(session, Reply::Done);
    let (session, command) = step(session, Reply::Rulesets(Vec::new()));
    assert!(matches!(command, Command::Rollback));
    let (session, _) = step(session, Reply::Done);
    let (session, _) = session.step(Reply::Done);
    assert!(matches!(session.finish(), Err(ApiError::NotFound(_))));
}

#[test]
fn removal_deletes_the_rulesets_before_the_league() {
    let id = Uuid::from_u128(3);
    let (session, _) = Session::start(Request::League(LeagueOperation::Delete(id)));
    let (session, command) = step(session, Reply::Done);
    assert!(matches!(command, Command::Begin));
    let (session, command) = step(session, Reply::Done);
    match command {
        Command::DeleteRulesetsOfLeague(asked) => assert_eq!(asked, id),
        other => panic!("unexpected command {:?}", other),
    }
    let (session, command) = step(session, Reply::Done);
    match command {
        Command::DeleteLeague(asked) => assert_eq!(asked, id),
        other => panic!("unexpected command {:?}", other),
    }
    let (session, command) = step(session, Reply::Done);
    assert!(matches!(command, Command::Commit));
    let (session, _) = step(session, Reply::Done);
    let (session, _) = session.step(Reply::Done);
    assert_eq!(session.finish(), Ok(Response::Deleted));
}

#[test]
fn set_that_is_not_given_is_not_sent() {
    let owner = Owner { id: Uuid::from_u128(9), user_id: Uuid::nil(), team_id: Uuid::from_u128(5) };
    let request = Request::Team(TeamOperation::Create(team(), None, Some(vec![owner])));
    let (session, _) = Session::start(request);
    let (session, _) = step(session, Reply::Done);
    let (session, command) = step(session, Reply::Done);
    assert!(matches!(command, Command::InsertTeam(_)));
    let (session, command) = step(session, Reply::Done);
    match command {
        Command::InsertOwners(rows) => assert_eq!(rows, vec![owner]),
        other => panic!("unexpected command {:?}", other),
    }
    assert_eq!(session.stage(), Stage::Statement(league_store::session::Slot::Third));
    // The store may reflect values of its own in the rows it sends back.
    let stored = Owner { id: Uuid::from_u128(9), user_id: Uuid::from_u128(1), team_id: Uuid::from_u128(5) };
    let (session, command) = step(session, Reply::Owners(vec![stored]));
    assert!(matches!(command, Command::Commit));
    let (session, _) = step(session, Reply::Done);
    let (session, _) = session.step(Reply::Done);
    match session.finish() {
        Ok(Response::Team(made)) => {
            assert_eq!(made.players, None);
            assert_eq!(made.owners, Some(vec![stored]));
            assert_eq!(made.id, Uuid::from_u128(5));
        }
        other => panic!("unexpected outcome {:?}", other),
    }

    let (session, _) = Session::start(Request::Team(TeamOperation::Create(team(), None, None)));
    let (session, _) = step(session, Reply::Done);
    let (session, _) = step(session, Reply::Done);
    let (_, command) = step(session, Reply::Done);
    assert!(matches!(command, Command::Commit));
}

#[test]
fn team_lookup_reads_team_owners_and_players() {
    let id = Uuid::from_u128(5);
    let player = Player { id: Uuid::from_u128(8), user_id: Uuid::nil(), team_id: id };
    let (session, _) = Session::start(Request::Team(TeamOperation::Find(id)));
    let (session, command) = step(session, Reply::Done);
    assert!(matches!(command, Command::SelectTeam(_)));
    let (session, command) = step(session, Reply::Teams(vec![team()]));
    assert!(matches!(command, Command::SelectOwnersOfTeam(_)));
    let (session, command) = step(session, Reply::Owners(Vec::new()));
    assert!(matches!(command, Command::SelectPlayersOfTeam(_)));
    let (session, command) = step(session, Reply::Players(vec![player]));
    assert!(matches!(command, Command::Release));
    let (session, _) = session.step(Reply::Done);
    match session.finish() {
        Ok(Response::Team(found)) => {
            assert_eq!(found.owners, None);
            assert_eq!(found.players, Some(vec![player]));
            assert_eq!(found.name, "Five");
        }
        other => panic!("unexpected outcome {:?}", other),
    }
}

#[test]
fn finished_session_asks_for_nothing() {
    let (session, _) = Session::start(Request::League(LeagueOperation::GetAllDetails));
    let (session, _) = session.step(Reply::Failed(StoreError::Unavailable("none".to_string())));
    let (session, command) = session.step(Reply::Done);
    assert!(command.is_none());
    let (session, command) = session.step(Reply::Done);
    assert!(command.is_none());
    assert_eq!(session.stage(), Stage::Finished);
}

#[test]
fn run_plays_a_session_against_the_pool() {
    let mut pool = Pool::new(1);
    assert_eq!(run(&mut pool, create_request()), Ok(Response::League(details())));
    assert_eq!(
        run(&mut pool, Request::League(LeagueOperation::FindWithDetails(Uuid::from_u128(1)))),
        Ok(Response::League(details()))
    );
    match run(&mut pool, Request::League(LeagueOperation::GetAllDetails)) {
        Ok(Response::Leagues(all)) => assert_eq!(all.0, vec![details()]),
        other => panic!("unexpected outcome {:?}", other),
    }
    assert_eq!(
        run(&mut pool, Request::League(LeagueOperation::Delete(Uuid::from_u128(1)))),
        Ok(Response::Deleted)
    );
    assert_eq!(pool.leased(), 0);
}
