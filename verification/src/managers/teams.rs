//! The team aggregate: a team with its players and owners.

use crate::database::{Command, CommandView, Pool, PoolView, Reply, ReplyView};
use crate::errors::{api_error_of, ApiError, ApiErrorView, ErrorKind, StoreErrorView};
use crate::ids::{hyphenated, Uuid};
use crate::invariants::{
    lemma_insert_owners_valid, lemma_insert_players_valid, lemma_insert_team_valid,
    lemma_owners_appended, lemma_players_appended, lemma_same_rulesets,
};
use crate::models::teams::{
    rows_of, team_details_of, Owner, Player, Team, TeamDetails, TeamDetailsView, TeamView,
    TeamsResponse,
};
use crate::rows::views;
use crate::schema::Tables;
use crate::session::{
    answered, closed, execution, failure_of, first_statement, gathered, lemma_play_step,
    lemma_run_abandons, lemma_run_closes, lemma_run_opens, nothing, opened, play, pool_exhausted,
    reply_failure, result_view, run, transaction_open, unexpected, Progress, ProgressView, Request,
    RequestView, Response, ResponseView, Run, SessionView, Settled, Slot, Turn,
};
use crate::store::copy_plain;
use vstd::prelude::*;
use vstd::string::StringExecFns;

verus! {

/// An operation on the team aggregate, with its input.
#[derive(Debug)]
pub enum TeamOperation {
    /// Every team.
    GetAll,
    /// The teams of the league with the given id.
    GetAllInLeague(Uuid),
    /// The team with the given id, with its players and owners.
    Find(Uuid),
    /// Store the team and, where they are given, its players and owners.
    Create(Team, Option<Vec<Player>>, Option<Vec<Owner>>),
}

/// A team operation as contracts see it.
pub enum TeamOperationView {
    GetAll,
    GetAllInLeague(Uuid),
    Find(Uuid),
    Create(TeamView, Option<Seq<Player>>, Option<Seq<Owner>>),
}

impl View for TeamOperation {
    type V = TeamOperationView;

    open spec fn view(&self) -> TeamOperationView {
        match self {
            TeamOperation::GetAll => TeamOperationView::GetAll,
            TeamOperation::GetAllInLeague(id) => TeamOperationView::GetAllInLeague(*id),
            TeamOperation::Find(id) => TeamOperationView::Find(*id),
            TeamOperation::Create(team, players, owners) => TeamOperationView::Create(
                team@,
                rows_of(*players),
                rows_of(*owners),
            ),
        }
    }
}

/// The message for a team that is not there.
pub open spec fn team_not_found_text(id: Uuid) -> Seq<char> {
    "Team "@ + hyphenated(id.bits) + " not found"@
}

/// The failure for a team that is not there.
pub open spec fn team_not_found(id: Uuid) -> ApiErrorView {
    ApiErrorView { kind: ErrorKind::NotFound, message: team_not_found_text(id) }
}

/// The failure for a team that is not there.
pub fn not_found(id: Uuid) -> (failure: ApiError)
    ensures
        failure@ == team_not_found(id),
{
    let mut message = "Team ".to_owned();
    message.append(id.to_string().as_str());
    message.append(" not found");
    ApiError::NotFound(message)
}

/// The rows of a related set as they are shown: absent where there is no
/// row, present otherwise.
pub open spec fn present<T>(rows: Seq<T>) -> Option<Seq<T>> {
    if rows.len() == 0 {
        None
    } else {
        Some(rows)
    }
}

/// The rows of a related set as they are shown.
pub fn shown<T>(rows: Vec<T>) -> (set: Option<Vec<T>>)
    ensures
        rows_of(set) == present(rows@),
{
    if rows.len() == 0 {
        None
    } else {
        Some(rows)
    }
}

/// The record with other players.
pub open spec fn with_players(details: TeamDetailsView, players: Option<Seq<Player>>) -> TeamDetailsView {
    TeamDetailsView { players, ..details }
}

/// The record with other owners.
pub open spec fn with_owners(details: TeamDetailsView, owners: Option<Seq<Owner>>) -> TeamDetailsView {
    TeamDetailsView { owners, ..details }
}

impl TeamOperationView {
    /// Whether the statements of the operation run in one transaction:
    /// they do where the operation writes.
    pub open spec fn transactional(self) -> bool {
        self is Create
    }

    /// The statement of the operation at `slot`, if it has one there.
    ///
    /// A listing is one select. A lookup selects the team, then its
    /// owners, then its players. A creation inserts the team, then the
    /// players where players are given, then the owners where owners are
    /// given; a set that is not given is not sent.
    pub open spec fn statement(self, slot: Slot) -> Option<CommandView> {
        match (self, slot) {
            (TeamOperationView::GetAll, Slot::First) => Some(CommandView::SelectTeams),
            (TeamOperationView::GetAllInLeague(id), Slot::First) => Some(
                CommandView::SelectTeamsInLeague(id),
            ),
            (TeamOperationView::Find(id), Slot::First) => Some(CommandView::SelectTeam(id)),
            (TeamOperationView::Find(id), Slot::Second) => Some(CommandView::SelectOwnersOfTeam(id)),
            (TeamOperationView::Find(id), Slot::Third) => Some(
                CommandView::SelectPlayersOfTeam(id),
            ),
            (TeamOperationView::Create(team, _, _), Slot::First) => Some(
                CommandView::InsertTeam(team),
            ),
            (TeamOperationView::Create(_, Some(players), _), Slot::Second) => Some(
                CommandView::InsertPlayers(players),
            ),
            (TeamOperationView::Create(_, _, Some(owners)), Slot::Third) => Some(
                CommandView::InsertOwners(owners),
            ),
            _ => None,
        }
    }

    /// What the operation has gathered once the statement at `slot` is
    /// answered by `reply`, or the failure that ends it.
    ///
    /// A lookup that finds no team is `NotFound`; its related sets are
    /// absent where they have no rows. A creation shows each set that
    /// was given as the store replied it, and each that was not as absent.
    pub open spec fn absorbed(self, slot: Slot, progress: ProgressView, reply: ReplyView) -> Result<
        ProgressView,
        ApiErrorView,
    > {
        match (self, slot, reply, progress.response) {
            (TeamOperationView::GetAll, Slot::First, ReplyView::Teams(rows), _) => Ok(
                ProgressView { response: Some(ResponseView::Teams(rows)), ..progress },
            ),
            (TeamOperationView::GetAllInLeague(_), Slot::First, ReplyView::Teams(rows), _) => Ok(
                ProgressView { response: Some(ResponseView::Teams(rows)), ..progress },
            ),
            (TeamOperationView::Find(id), Slot::First, ReplyView::Teams(rows), _) => if rows.len()
                == 0 {
                Err(team_not_found(id))
            } else {
                Ok(
                    ProgressView {
                        response: Some(ResponseView::Team(team_details_of(rows[0], None, None))),
                        ..progress
                    },
                )
            },
            (
                TeamOperationView::Find(_),
                Slot::Second,
                ReplyView::Owners(rows),
                Some(ResponseView::Team(details)),
            ) => Ok(
                ProgressView {
                    response: Some(ResponseView::Team(with_owners(details, present(rows)))),
                    ..progress
                },
            ),
            (
                TeamOperationView::Find(_),
                Slot::Third,
                ReplyView::Players(rows),
                Some(ResponseView::Team(details)),
            ) => Ok(
                ProgressView {
                    response: Some(ResponseView::Team(with_players(details, present(rows)))),
                    ..progress
                },
            ),
            (TeamOperationView::Create(team, _, _), Slot::First, ReplyView::Done, _) => Ok(
                ProgressView {
                    response: Some(ResponseView::Team(team_details_of(team, None, None))),
                    ..progress
                },
            ),
            (
                TeamOperationView::Create(_, _, _),
                Slot::Second,
                ReplyView::Players(rows),
                Some(ResponseView::Team(details)),
            ) => Ok(
                ProgressView {
                    response: Some(ResponseView::Team(with_players(details, Some(rows)))),
                    ..progress
                },
            ),
            (
                TeamOperationView::Create(_, _, _),
                Slot::Third,
                ReplyView::Owners(rows),
                Some(ResponseView::Team(details)),
            ) => Ok(
                ProgressView {
                    response: Some(ResponseView::Team(with_owners(details, Some(rows)))),
                    ..progress
                },
            ),
            _ => Err(failure_of(reply)),
        }
    }
}

/// The record with other players.
fn set_players(details: TeamDetails, players: Option<Vec<Player>>) -> (changed: TeamDetails)
    ensures
        changed@ == with_players(details@, rows_of(players)),
{
    TeamDetails {
        id: details.id,
        league_id: details.league_id,
        name: details.name,
        wins: details.wins,
        losses: details.losses,
        ties: details.ties,
        players,
        owners: details.owners,
    }
}

/// The record with other owners.
fn set_owners(details: TeamDetails, owners: Option<Vec<Owner>>) -> (changed: TeamDetails)
    ensures
        changed@ == with_owners(details@, rows_of(owners)),
{
    TeamDetails {
        id: details.id,
        league_id: details.league_id,
        name: details.name,
        wins: details.wins,
        losses: details.losses,
        ties: details.ties,
        players: details.players,
        owners,
    }
}

impl TeamOperation {
    /// Whether the statements of the operation run in one transaction.
    pub fn transactional(&self) -> (yes: bool)
        ensures
            yes == self@.transactional(),
    {
        match self {
            TeamOperation::Create(_, _, _) => true,
            _ => false,
        }
    }

    /// The statement of the operation at `slot`, if it has one there.
    pub fn statement(&self, slot: Slot) -> (command: Option<Command>)
        ensures
            match command {
                Some(c) => self@.statement(slot) == Some(c@),
                None => self@.statement(slot) is None,
            },
    {
        match (self, slot) {
            (TeamOperation::GetAll, Slot::First) => Some(Command::SelectTeams),
            (TeamOperation::GetAllInLeague(id), Slot::First) => Some(
                Command::SelectTeamsInLeague(*id),
            ),
            (TeamOperation::Find(id), Slot::First) => Some(Command::SelectTeam(*id)),
            (TeamOperation::Find(id), Slot::Second) => Some(Command::SelectOwnersOfTeam(*id)),
            (TeamOperation::Find(id), Slot::Third) => Some(Command::SelectPlayersOfTeam(*id)),
            (TeamOperation::Create(team, _, _), Slot::First) => Some(
                Command::InsertTeam(team.clone()),
            ),
            (TeamOperation::Create(_, Some(players), _), Slot::Second) => Some(
                Command::InsertPlayers(copy_plain(players)),
            ),
            (TeamOperation::Create(_, _, Some(owners)), Slot::Third) => Some(
                Command::InsertOwners(copy_plain(owners)),
            ),
            _ => None,
        }
    }

    /// Takes in the reply to the statement at `slot`: what the operation
    /// has gathered then, or the failure that ends it.
    pub fn absorb(&self, slot: Slot, progress: Progress, reply: Reply) -> (gathered: Result<
        Progress,
        ApiError,
    >)
        ensures
            match gathered {
                Ok(p) => self@.absorbed(slot, progress@, reply@) == Ok::<ProgressView, ApiErrorView>(
                    p@,
                ),
                Err(e) => self@.absorbed(slot, progress@, reply@) == Err::<
                    ProgressView,
                    ApiErrorView,
                >(e@),
            },
    {
        let Progress { ruleset, response } = progress;
        match (self, slot, reply, response) {
            (TeamOperation::GetAll, Slot::First, Reply::Teams(rows), _) => {
                let all = TeamsResponse::from(rows);
                assert(all@ =~= views(rows@));
                Ok(Progress { ruleset, response: Some(Response::Teams(all)) })
            },
            (TeamOperation::GetAllInLeague(_), Slot::First, Reply::Teams(rows), _) => {
                let all = TeamsResponse::from(rows);
                assert(all@ =~= views(rows@));
                Ok(Progress { ruleset, response: Some(Response::Teams(all)) })
            },
            (TeamOperation::Find(id), Slot::First, Reply::Teams(rows), _) => {
                if rows.len() == 0 {
                    Err(not_found(*id))
                } else {
                    let details = rows[0].details(None, None);
                    Ok(Progress { ruleset, response: Some(Response::Team(details)) })
                }
            },
            (
                TeamOperation::Find(_),
                Slot::Second,
                Reply::Owners(rows),
                Some(Response::Team(details)),
            ) => Ok(
                Progress {
                    ruleset,
                    response: Some(Response::Team(set_owners(details, shown(rows)))),
                },
            ),
            (
                TeamOperation::Find(_),
                Slot::Third,
                Reply::Players(rows),
                Some(Response::Team(details)),
            ) => Ok(
                Progress {
                    ruleset,
                    response: Some(Response::Team(set_players(details, shown(rows)))),
                },
            ),
            (TeamOperation::Create(team, _, _), Slot::First, Reply::Done, _) => Ok(
                Progress { ruleset, response: Some(Response::Team(team.details(None, None))) },
            ),
            (
                TeamOperation::Create(_, _, _),
                Slot::Second,
                Reply::Players(rows),
                Some(Response::Team(details)),
            ) => Ok(
                Progress {
                    ruleset,
                    response: Some(Response::Team(set_players(details, Some(rows)))),
                },
            ),
            (
                TeamOperation::Create(_, _, _),
                Slot::Third,
                Reply::Owners(rows),
                Some(Response::Team(details)),
            ) => Ok(
                Progress {
                    ruleset,
                    response: Some(Response::Team(set_owners(details, Some(rows)))),
                },
            ),
            (_, _, reply, _) => Err(reply_failure(reply)),
        }
    }
}

/// What [`get_all`] does: the pool stays as it is; the result is every
/// team, in the order of the store.
pub open spec fn all_teams(pool: PoolView) -> Settled<Seq<TeamView>> {
    if pool.leased >= pool.capacity {
        Settled { pool, result: Err(pool_exhausted()) }
    } else {
        Settled { pool, result: Ok(pool.tables.teams) }
    }
}

/// What [`get_all_in_league`] does: the pool stays as it is; the result
/// is the teams of the league, in the order of the store.
pub open spec fn league_teams(pool: PoolView, league_id: Uuid) -> Settled<Seq<TeamView>> {
    if pool.leased >= pool.capacity {
        Settled { pool, result: Err(pool_exhausted()) }
    } else {
        Settled { pool, result: Ok(pool.tables.teams_in(league_id)) }
    }
}

/// What [`find`] does: the pool stays as it is; with no team of that id
/// the result is `NotFound`, otherwise it is the team with its players
/// and its owners, each absent where the team has none.
pub open spec fn team_found(pool: PoolView, id: Uuid) -> Settled<TeamDetailsView> {
    if pool.leased >= pool.capacity {
        Settled { pool, result: Err(pool_exhausted()) }
    } else {
        let rows = pool.tables.teams_with(id);
        if rows.len() == 0 {
            Settled { pool, result: Err(team_not_found(id)) }
        } else {
            Settled {
                pool,
                result: Ok(
                    team_details_of(
                        rows[0],
                        present(pool.tables.players_of(id)),
                        present(pool.tables.owners_of(id)),
                    ),
                ),
            }
        }
    }
}

/// The tables after a set of players is inserted, if one is given.
pub open spec fn with_new_players(tables: Tables, players: Option<Seq<Player>>) -> Result<
    Tables,
    StoreErrorView,
> {
    match players {
        Some(rows) => tables.insert_players(rows),
        None => Ok(tables),
    }
}

/// The tables after a set of owners is inserted, if one is given.
pub open spec fn with_new_owners(tables: Tables, owners: Option<Seq<Owner>>) -> Result<
    Tables,
    StoreErrorView,
> {
    match owners {
        Some(rows) => tables.insert_owners(rows),
        None => Ok(tables),
    }
}

/// What [`create`] does: with no connection to be had, with a
/// transaction left open on the store, or where the store refuses the
/// team, the players or the owners, it fails and leaves the pool as it is; otherwise the team and every set that was given are
/// stored, and the result shows the team with the sets as they were given:
/// absent where absent, present where present, be it without rows.
pub open spec fn team_created(
    pool: PoolView,
    team: TeamView,
    players: Option<Seq<Player>>,
    owners: Option<Seq<Owner>>,
) -> Settled<TeamDetailsView> {
    if pool.leased >= pool.capacity {
        Settled { pool, result: Err(pool_exhausted()) }
    } else if pool.saved is Some {
        Settled { pool, result: Err(transaction_open()) }
    } else {
        match pool.tables.insert_team(team) {
            Err(error) => Settled { pool, result: Err(api_error_of(error)) },
            Ok(with_team) => match with_new_players(with_team, players) {
                Err(error) => Settled { pool, result: Err(api_error_of(error)) },
                Ok(with_players) => match with_new_owners(with_players, owners) {
                    Err(error) => Settled { pool, result: Err(api_error_of(error)) },
                    Ok(with_all) => Settled {
                        pool: PoolView { tables: with_all, ..pool },
                        result: Ok(team_details_of(team, players, owners)),
                    },
                },
            },
        }
    }
}

/// The run of a listing is what [`all_teams`] says.
pub proof fn lemma_get_all_runs(pool: PoolView)
    ensures
        execution(RequestView::Team(TeamOperationView::GetAll), pool).pool == all_teams(pool).pool,
        execution(RequestView::Team(TeamOperationView::GetAll), pool).outcome == match all_teams(
            pool,
        ).result {
            Ok(all) => Ok(ResponseView::Teams(all)),
            Err(failure) => Err(failure),
        },
{
    let request = RequestView::Team(TeamOperationView::GetAll);
    lemma_run_opens(request, pool);
    if pool.leased < pool.capacity {
        let connected = opened(pool, false);
        let first = first_statement(request);
        lemma_play_step(first, connected);
        let response = ResponseView::Teams(pool.tables.teams);
        lemma_run_closes(
            gathered(first.session, answered(first.session.progress, response)),
            connected,
        );
    }
}

/// The run of a listing by league is what [`league_teams`] says.
pub proof fn lemma_get_all_in_league_runs(pool: PoolView, league_id: Uuid)
    ensures
        execution(RequestView::Team(TeamOperationView::GetAllInLeague(league_id)), pool).pool
            == league_teams(pool, league_id).pool,
        execution(RequestView::Team(TeamOperationView::GetAllInLeague(league_id)), pool).outcome
            == match league_teams(pool, league_id).result {
            Ok(all) => Ok(ResponseView::Teams(all)),
            Err(failure) => Err(failure),
        },
{
    let request = RequestView::Team(TeamOperationView::GetAllInLeague(league_id));
    lemma_run_opens(request, pool);
    if pool.leased < pool.capacity {
        let connected = opened(pool, false);
        let first = first_statement(request);
        lemma_play_step(first, connected);
        let response = ResponseView::Teams(pool.tables.teams_in(league_id));
        lemma_run_closes(
            gathered(first.session, answered(first.session.progress, response)),
            connected,
        );
    }
}

/// The run of a lookup is what [`team_found`] says.
pub proof fn lemma_find_runs(pool: PoolView, id: Uuid)
    ensures
        execution(RequestView::Team(TeamOperationView::Find(id)), pool).pool == team_found(
            pool,
            id,
        ).pool,
        execution(RequestView::Team(TeamOperationView::Find(id)), pool).outcome
            == match team_found(pool, id).result {
            Ok(details) => Ok(ResponseView::Team(details)),
            Err(failure) => Err(failure),
        },
{
    let request = RequestView::Team(TeamOperationView::Find(id));
    lemma_run_opens(request, pool);
    if pool.leased < pool.capacity {
        let connected = opened(pool, false);
        let first = first_statement(request);
        lemma_play_step(first, connected);
        let rows = pool.tables.teams_with(id);
        if rows.len() == 0 {
            lemma_run_abandons(gathered(first.session, nothing()), team_not_found(id), connected);
        } else {
            let second = first.session.step(ReplyView::Teams(rows));
            assert(second.command == Some(CommandView::SelectOwnersOfTeam(id)));
            lemma_play_step(second, connected);
            let owners = present(pool.tables.owners_of(id));
            let third = second.session.step(ReplyView::Owners(pool.tables.owners_of(id)));
            assert(third.command == Some(CommandView::SelectPlayersOfTeam(id)));
            assert(third.session.progress.response == Some(
                ResponseView::Team(team_details_of(rows[0], None, owners)),
            ));
            lemma_play_step(third, connected);
            let players = present(pool.tables.players_of(id));
            let response = ResponseView::Team(team_details_of(rows[0], players, owners));
            lemma_run_closes(
                gathered(third.session, answered(third.session.progress, response)),
                connected,
            );
        }
    }
}

/// The rest of the run of a creation once the team is in: the players
/// are inserted where they are given, then the owners.
proof fn lemma_players_run(
    turn: Turn,
    pool: PoolView,
    team: TeamView,
    players: Option<Seq<Player>>,
    owners: Option<Seq<Owner>>,
)
    requires
        pool.leased > 0,
        pool.saved is Some,
        turn == (SessionView {
            request: RequestView::Team(TeamOperationView::Create(team, players, owners)),
            stage: turn.session.stage,
            progress: answered(nothing(), ResponseView::Team(team_details_of(team, None, None))),
            failure: None,
        }).send_second(),
    ensures
        play(turn, pool) == match with_new_players(pool.tables, players) {
            Err(error) => Run {
                pool: PoolView { tables: pool.saved->Some_0, ..closed(pool, true) },
                outcome: Err(api_error_of(error)),
            },
            Ok(with_players) => match with_new_owners(with_players, owners) {
                Err(error) => Run {
                    pool: PoolView { tables: pool.saved->Some_0, ..closed(pool, true) },
                    outcome: Err(api_error_of(error)),
                },
                Ok(with_all) => Run {
                    pool: PoolView { tables: with_all, ..closed(pool, true) },
                    outcome: Ok(ResponseView::Team(team_details_of(team, players, owners))),
                },
            },
        },
{
    let shown = team_details_of(team, players, None);
    match players {
        Some(rows) => {
            assert(turn.command == Some(CommandView::InsertPlayers(rows)));
            lemma_play_step(turn, pool);
            match pool.tables.insert_players(rows) {
                Err(error) => {
                    lemma_run_abandons(gathered(turn.session, nothing()), api_error_of(error), pool);
                },
                Ok(with_players) => {
                    let next = gathered(
                        turn.session,
                        answered(turn.session.progress, ResponseView::Team(shown)),
                    );
                    lemma_owners_run(
                        next.send_third(),
                        PoolView { tables: with_players, ..pool },
                        team,
                        players,
                        owners,
                    );
                },
            }
        },
        None => {
            lemma_owners_run(turn, pool, team, players, owners);
        },
    }
}

/// The rest of the run of a creation once the team and the players are
/// in: the owners are inserted where they are given.
proof fn lemma_owners_run(
    turn: Turn,
    pool: PoolView,
    team: TeamView,
    players: Option<Seq<Player>>,
    owners: Option<Seq<Owner>>,
)
    requires
        pool.leased > 0,
        pool.saved is Some,
        turn == (SessionView {
            request: RequestView::Team(TeamOperationView::Create(team, players, owners)),
            stage: turn.session.stage,
            progress: answered(nothing(), ResponseView::Team(team_details_of(team, players, None))),
            failure: None,
        }).send_third(),
    ensures
        play(turn, pool) == match with_new_owners(pool.tables, owners) {
            Err(error) => Run {
                pool: PoolView { tables: pool.saved->Some_0, ..closed(pool, true) },
                outcome: Err(api_error_of(error)),
            },
            Ok(with_all) => Run {
                pool: PoolView { tables: with_all, ..closed(pool, true) },
                outcome: Ok(ResponseView::Team(team_details_of(team, players, owners))),
            },
        },
{
    let before = SessionView {
        request: RequestView::Team(TeamOperationView::Create(team, players, owners)),
        stage: turn.session.stage,
        progress: answered(nothing(), ResponseView::Team(team_details_of(team, players, None))),
        failure: None,
    };
    match owners {
        Some(rows) => {
            assert(turn.command == Some(CommandView::InsertOwners(rows)));
            lemma_play_step(turn, pool);
            match pool.tables.insert_owners(rows) {
                Err(error) => {
                    lemma_run_abandons(gathered(turn.session, nothing()), api_error_of(error), pool);
                },
                Ok(with_all) => {
                    let response = ResponseView::Team(team_details_of(team, players, owners));
                    lemma_run_closes(
                        gathered(turn.session, answered(turn.session.progress, response)),
                        PoolView { tables: with_all, ..pool },
                    );
                },
            }
        },
        None => {
            lemma_run_closes(before, pool);
        },
    }
}

/// The run of a creation is what [`team_created`] says.
pub proof fn lemma_create_runs(
    pool: PoolView,
    team: TeamView,
    players: Option<Seq<Player>>,
    owners: Option<Seq<Owner>>,
)
    ensures
        execution(RequestView::Team(TeamOperationView::Create(team, players, owners)), pool).pool
            == team_created(pool, team, players, owners).pool,
        execution(
            RequestView::Team(TeamOperationView::Create(team, players, owners)),
            pool,
        ).outcome == match team_created(pool, team, players, owners).result {
            Ok(details) => Ok(ResponseView::Team(details)),
            Err(failure) => Err(failure),
        },
{
    let request = RequestView::Team(TeamOperationView::Create(team, players, owners));
    lemma_run_opens(request, pool);
    if pool.leased < pool.capacity && pool.saved is None {
        let connected = opened(pool, true);
        let first = first_statement(request);
        lemma_play_step(first, connected);
        match pool.tables.insert_team(team) {
            Err(error) => {
                lemma_run_abandons(gathered(first.session, nothing()), api_error_of(error), connected);
            },
            Ok(with_team) => {
                let after_team = first.session.step(ReplyView::Done);
                let has_team = PoolView { tables: with_team, ..connected };
                assert(after_team.session.progress.response == Some(
                    ResponseView::Team(team_details_of(team, None, None)),
                ));
                lemma_players_run(after_team, has_team, team, players, owners);
            },
        }
    }
}

/// A creation leaves the pool well formed.
pub proof fn lemma_created_wf(
    pool: PoolView,
    team: TeamView,
    players: Option<Seq<Player>>,
    owners: Option<Seq<Owner>>,
)
    requires
        pool.wf(),
    ensures
        team_created(pool, team, players, owners).pool.wf(),
{
    if team_created(pool, team, players, owners).result is Ok {
        let before = pool.tables;
        let with_team = before.insert_team(team)->Ok_0;
        lemma_insert_team_valid(before, team);
        let with_players = with_new_players(with_team, players)->Ok_0;
        if players is Some {
            lemma_insert_players_valid(with_team, players->Some_0);
            lemma_players_appended(with_team, players->Some_0);
        }
        let with_all = with_new_owners(with_players, owners)->Ok_0;
        if owners is Some {
            lemma_insert_owners_valid(with_players, owners->Some_0);
            lemma_owners_appended(with_players, owners->Some_0);
        }
        assert(with_all.leagues == before.leagues);
        assert(with_all.rulesets == before.rulesets);
        lemma_same_rulesets(before, with_all);
        assert forall|i: int| 0 <= i < with_all.leagues.len() implies with_all.has_ruleset_of(
            (#[trigger] with_all.leagues[i]).id,
        ) by {
            assert(before.has_ruleset_of(before.leagues[i].id));
        }
    }
}

/// Every team, in the order of the store.
///
/// Fails with `ConnectionFailure` where the pool has no connection left.
/// The pool is left as it was.
pub fn get_all(pool: &mut Pool) -> (result: Result<TeamsResponse, ApiError>)
    ensures
        final(pool)@ == old(pool)@,
        result_view(result) == all_teams(old(pool)@).result,
{
    proof {
        lemma_get_all_runs(pool@);
    }
    match run(pool, Request::Team(TeamOperation::GetAll)) {
        Ok(Response::Teams(all)) => Ok(all),
        Ok(_) => Err(unexpected()),
        Err(failure) => Err(failure),
    }
}

/// The teams of the league with the id `league_id`, in the order of the
/// store.
///
/// Fails with `ConnectionFailure` where the pool has no connection left.
/// The pool is left as it was.
pub fn get_all_in_league(pool: &mut Pool, league_id: Uuid) -> (result: Result<
    TeamsResponse,
    ApiError,
>)
    ensures
        final(pool)@ == old(pool)@,
        result_view(result) == league_teams(old(pool)@, league_id).result,
{
    proof {
        lemma_get_all_in_league_runs(pool@, league_id);
    }
    match run(pool, Request::Team(TeamOperation::GetAllInLeague(league_id))) {
        Ok(Response::Teams(all)) => Ok(all),
        Ok(_) => Err(unexpected()),
        Err(failure) => Err(failure),
    }
}

/// The team with the id `team_id`, with its players and owners: see
/// [`team_found`]. The pool is left as it was.
pub fn find(pool: &mut Pool, team_id: Uuid) -> (result: Result<TeamDetails, ApiError>)
    ensures
        final(pool)@ == old(pool)@,
        result_view(result) == team_found(old(pool)@, team_id).result,
{
    proof {
        lemma_find_runs(pool@, team_id);
    }
    match run(pool, Request::Team(TeamOperation::Find(team_id))) {
        Ok(Response::Team(details)) => Ok(details),
        Ok(_) => Err(unexpected()),
        Err(failure) => Err(failure),
    }
}

/// The rows of a set that may be absent, copied.
fn copy_set<T: Copy>(rows: Option<&Vec<T>>) -> (copy: Option<Vec<T>>)
    ensures
        rows_of(copy) == match rows {
            Some(v) => Some(v@),
            None => None,
        },
{
    match rows {
        Some(v) => Some(copy_plain(v)),
        None => None,
    }
}

/// The rows of a set that may be absent.
pub open spec fn given<T>(rows: Option<&Vec<T>>) -> Option<Seq<T>> {
    match rows {
        Some(v) => Some(v@),
        None => None,
    }
}

/// Stores `new_team` and, where they are given, its players and its
/// owners: all of it or nothing. See [`team_created`].
pub fn create(
    pool: &mut Pool,
    new_team: &Team,
    new_players: Option<&Vec<Player>>,
    new_owners: Option<&Vec<Owner>>,
) -> (result: Result<TeamDetails, ApiError>)
    ensures
        old(pool).wf() ==> final(pool).wf(),
        final(pool)@ == team_created(
            old(pool)@,
            new_team@,
            given(new_players),
            given(new_owners),
        ).pool,
        result_view(result) == team_created(
            old(pool)@,
            new_team@,
            given(new_players),
            given(new_owners),
        ).result,
{
    proof {
        lemma_create_runs(pool@, new_team@, given(new_players), given(new_owners));
        if pool.wf() {
            lemma_created_wf(pool@, new_team@, given(new_players), given(new_owners));
        }
    }
    let operation = TeamOperation::Create(
        new_team.clone(),
        copy_set(new_players),
        copy_set(new_owners),
    );
    match run(pool, Request::Team(operation)) {
        Ok(Response::Team(details)) => Ok(details),
        Ok(_) => Err(unexpected()),
        Err(failure) => Err(failure),
    }
}

} // verus!
