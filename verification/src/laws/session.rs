//! Laws of every operation, whatever it is, and of every statement.

use crate::database::{CommandView, PoolView};
use crate::invariants::{
    lemma_delete_league_valid, lemma_delete_rulesets_valid, lemma_insert_league_valid,
    lemma_insert_owners_valid, lemma_insert_players_valid, lemma_insert_ruleset_valid,
    lemma_insert_team_valid, lemma_update_league_valid, lemma_update_ruleset_valid,
};
use crate::managers::leagues::{self, LeagueOperationView};
use crate::managers::teams::{self, TeamOperationView};
use crate::session::{execution, RequestView};
use vstd::prelude::*;

verus! {

/// No statement breaks a key, a check or a reference of the tables, and
/// none does so to what a rollback would bring back.
pub proof fn law_statements_keep_constraints(pool: PoolView, command: CommandView)
    requires
        pool.tables.valid(),
        pool.saved matches Some(before) ==> before.valid(),
    ensures
        pool.apply(command).pool.tables.valid(),
        pool.apply(command).pool.saved matches Some(before) ==> before.valid(),
{
    let t = pool.tables;
    if pool.leased > 0 {
        match command {
            CommandView::InsertLeague(league) => {
                if t.insert_league(league) is Ok {
                    lemma_insert_league_valid(t, league);
                }
            },
            CommandView::InsertRuleset(ruleset) => {
                if t.insert_ruleset(ruleset) is Ok {
                    lemma_insert_ruleset_valid(t, ruleset);
                }
            },
            CommandView::UpdateRuleset(id, changes) => {
                lemma_update_ruleset_valid(t, id, changes);
            },
            CommandView::UpdateLeague(changes) => {
                if t.update_league(changes) is Ok {
                    lemma_update_league_valid(t, changes);
                }
            },
            CommandView::DeleteRulesetsOfLeague(id) => {
                lemma_delete_rulesets_valid(t, id);
            },
            CommandView::DeleteLeague(id) => {
                if t.delete_league(id) is Ok {
                    lemma_delete_league_valid(t, id);
                }
            },
            CommandView::InsertTeam(team) => {
                if t.insert_team(team) is Ok {
                    lemma_insert_team_valid(t, team);
                }
            },
            CommandView::InsertPlayers(players) => {
                if t.insert_players(players) is Ok {
                    lemma_insert_players_valid(t, players);
                }
            },
            CommandView::InsertOwners(owners) => {
                if t.insert_owners(owners) is Ok {
                    lemma_insert_owners_valid(t, owners);
                }
            },
            _ => {},
        }
    }
}

/// The run of an operation is what the manager of its aggregate says of
/// it.
proof fn lemma_runs(request: RequestView, pool: PoolView)
    ensures
        match request {
            RequestView::League(LeagueOperationView::FindWithDetails(id)) => execution(
                request,
                pool,
            ).pool == leagues::found(pool, id).pool && (execution(request, pool).outcome is Err
                <==> leagues::found(pool, id).result is Err),
            RequestView::League(LeagueOperationView::GetAllDetails) => execution(
                request,
                pool,
            ).pool == leagues::all_found(pool).pool && (execution(request, pool).outcome is Err
                <==> leagues::all_found(pool).result is Err),
            RequestView::League(LeagueOperationView::Create(league, ruleset)) => execution(
                request,
                pool,
            ).pool == leagues::created(pool, league, ruleset).pool && (execution(
                request,
                pool,
            ).outcome is Err <==> leagues::created(pool, league, ruleset).result is Err),
            RequestView::League(LeagueOperationView::Update(league, changes)) => execution(
                request,
                pool,
            ).pool == leagues::updated(pool, league, changes).pool && (execution(
                request,
                pool,
            ).outcome is Err <==> leagues::updated(pool, league, changes).result is Err),
            RequestView::League(LeagueOperationView::Delete(id)) => execution(request, pool).pool
                == leagues::deleted(pool, id).pool && (execution(request, pool).outcome is Err
                <==> leagues::deleted(pool, id).result is Err),
            RequestView::Team(TeamOperationView::GetAll) => execution(request, pool).pool
                == teams::all_teams(pool).pool && (execution(request, pool).outcome is Err
                <==> teams::all_teams(pool).result is Err),
            RequestView::Team(TeamOperationView::GetAllInLeague(id)) => execution(
                request,
                pool,
            ).pool == teams::league_teams(pool, id).pool && (execution(request, pool).outcome is Err
                <==> teams::league_teams(pool, id).result is Err),
            RequestView::Team(TeamOperationView::Find(id)) => execution(request, pool).pool
                == teams::team_found(pool, id).pool && (execution(request, pool).outcome is Err
                <==> teams::team_found(pool, id).result is Err),
            RequestView::Team(TeamOperationView::Create(team, players, owners)) => execution(
                request,
                pool,
            ).pool == teams::team_created(pool, team, players, owners).pool && (execution(
                request,
                pool,
            ).outcome is Err <==> teams::team_created(pool, team, players, owners).result is Err),
        },
{
    match request {
        RequestView::League(LeagueOperationView::FindWithDetails(id)) => {
            leagues::lemma_find_runs(pool, id);
        },
        RequestView::League(LeagueOperationView::GetAllDetails) => {
            leagues::lemma_get_all_runs(pool);
        },
        RequestView::League(LeagueOperationView::Create(league, ruleset)) => {
            leagues::lemma_create_runs(pool, league, ruleset);
        },
        RequestView::League(LeagueOperationView::Update(league, changes)) => {
            leagues::lemma_update_runs(pool, league, changes);
        },
        RequestView::League(LeagueOperationView::Delete(id)) => {
            leagues::lemma_delete_runs(pool, id);
        },
        RequestView::Team(TeamOperationView::GetAll) => {
            teams::lemma_get_all_runs(pool);
        },
        RequestView::Team(TeamOperationView::GetAllInLeague(id)) => {
            teams::lemma_get_all_in_league_runs(pool, id);
        },
        RequestView::Team(TeamOperationView::Find(id)) => {
            teams::lemma_find_runs(pool, id);
        },
        RequestView::Team(TeamOperationView::Create(team, players, owners)) => {
            teams::lemma_create_runs(pool, team, players, owners);
        },
    }
}

/// Every operation gives back the connection it leased and ends the
/// transaction it opened, however it ends.
pub proof fn law_connection_is_given_back(request: RequestView, pool: PoolView)
    ensures
        execution(request, pool).pool.leased == pool.leased,
        execution(request, pool).pool.capacity == pool.capacity,
        execution(request, pool).pool.saved == pool.saved,
{
    lemma_runs(request, pool);
}

/// An operation that fails leaves the store as it was: of the writes of
/// an operation, all last or none.
pub proof fn law_failure_changes_nothing(request: RequestView, pool: PoolView)
    requires
        execution(request, pool).outcome is Err,
    ensures
        execution(request, pool).pool == pool,
{
    lemma_runs(request, pool);
}

/// An operation that only reads leaves the store as it was.
pub proof fn law_reads_change_nothing(request: RequestView, pool: PoolView)
    requires
        !request.transactional(),
    ensures
        execution(request, pool).pool == pool,
{
    lemma_runs(request, pool);
}

/// Every operation leaves the pool well formed: the tables keep their
/// keys, checks and references, and every league keeps its ruleset.
pub proof fn law_operations_keep_the_pool_well_formed(request: RequestView, pool: PoolView)
    requires
        pool.wf(),
    ensures
        execution(request, pool).pool.wf(),
{
    lemma_runs(request, pool);
    match request {
        RequestView::League(LeagueOperationView::Create(league, ruleset)) => {
            leagues::lemma_created_wf(pool, league, ruleset);
        },
        RequestView::League(LeagueOperationView::Update(league, changes)) => {
            leagues::lemma_updated_wf(pool, league, changes);
        },
        RequestView::League(LeagueOperationView::Delete(id)) => {
            leagues::lemma_deleted_wf(pool, id);
        },
        RequestView::Team(TeamOperationView::Create(team, players, owners)) => {
            teams::lemma_created_wf(pool, team, players, owners);
        },
        _ => {},
    }
}

} // verus!
