//! Laws of the team aggregate.

use crate::database::PoolView;
use crate::errors::{ApiErrorView, StoreErrorView};
use crate::ids::Uuid;
use crate::invariants::{lemma_owners_appended, lemma_players_appended};
use crate::managers::teams::{
    present, team_created, team_found, team_not_found, with_new_owners, with_new_players,
};
use crate::models::teams::{team_details_of, Owner, Player, TeamDetailsView, TeamView};
use crate::rows::{lemma_filter_all, lemma_filter_none, lemma_filter_push};
use crate::schema::{owner_of_team, player_of_team, team_row_ok, team_with_id, Tables};
use vstd::prelude::*;

verus! {

/// While the pool has a connection to lease, a lookup of an id that no
/// team has ends in `NotFound`.
pub proof fn law_absent_team_is_not_found(pool: PoolView, id: Uuid)
    requires
        pool.leased < pool.capacity,
        !pool.tables.has_team(id),
    ensures
        team_found(pool, id).result == Err::<TeamDetailsView, ApiErrorView>(team_not_found(id)),
{
    assert forall|i: int| 0 <= i < pool.tables.teams.len() implies !team_with_id(id)(
        #[trigger] pool.tables.teams[i],
    ) by {}
    lemma_filter_none(pool.tables.teams, team_with_id(id));
}

/// A team without players and owners is stored exactly where a connection
/// can be leased, no transaction is left open, the team passes its checks,
/// its id is free and its league is there.
pub proof fn law_team_alone_is_accepted(pool: PoolView, team: TeamView)
    ensures
        team_created(pool, team, None, None).result is Ok <==> {
            &&& pool.leased < pool.capacity
            &&& pool.saved is None
            &&& team_row_ok(team)
            &&& !pool.tables.has_team(team.id)
            &&& pool.tables.has_league(team.league_id)
        },
{
}

/// A team created without players and without owners is shown with both
/// sets absent.
pub proof fn law_team_created_alone(pool: PoolView, team: TeamView)
    requires
        team_created(pool, team, None, None).result is Ok,
    ensures
        team_created(pool, team, None, None).result == Ok::<TeamDetailsView, ApiErrorView>(
            team_details_of(team, None, None),
        ),
        team_created(pool, team, None, None).result->Ok_0.players is None,
        team_created(pool, team, None, None).result->Ok_0.owners is None,
{
}

/// A team created with one player of its own is shown with its players
/// present: that one row and no other, and the row belongs to the team.
pub proof fn law_team_created_with_player(
    pool: PoolView,
    team: TeamView,
    player: Player,
    owners: Option<Seq<Owner>>,
)
    requires
        player.team_id == team.id,
        team_created(pool, team, Some(seq![player]), owners).result is Ok,
    ensures
        team_created(pool, team, Some(seq![player]), owners).result->Ok_0.players matches Some(rows)
            && rows.len() == 1 && rows[0] == player && rows[0].team_id == team_created(
            pool,
            team,
            Some(seq![player]),
            owners,
        ).result->Ok_0.id,
        team_created(pool, team, Some(seq![player]), owners).pool.tables.players
            == pool.tables.players.push(player),
{
    let with_team = pool.tables.insert_team(team)->Ok_0;
    let rows = seq![player];
    reveal_with_fuel(Tables::insert_players, 2);
    assert(rows.drop_first() =~= Seq::<Player>::empty());
    let with_player = with_team.insert_player(player)->Ok_0;
    assert(with_team.insert_players(rows) == with_player.insert_players(Seq::<Player>::empty()));
    assert(with_new_players(with_team, Some(rows)) == Ok::<Tables, StoreErrorView>(with_player));
    if owners is Some {
        lemma_owners_appended(with_player, owners->Some_0);
    }
}

/// The rows of a set that was given, as a lookup shows them: absent
/// where the set was not given or has no rows.
pub open spec fn shown_after<T>(rows: Option<Seq<T>>) -> Option<Seq<T>> {
    match rows {
        Some(given) => present(given),
        None => None,
    }
}

/// A team that has been created with players and owners of its own is
/// found with them: every set that was given with rows is present with
/// those rows, and a set that was not given, or given without rows, is
/// absent.
pub proof fn law_created_team_is_found(
    pool: PoolView,
    team: TeamView,
    players: Option<Seq<Player>>,
    owners: Option<Seq<Owner>>,
)
    requires
        pool.wf(),
        team_created(pool, team, players, owners).result is Ok,
        players matches Some(rows) ==> forall|i: int|
            0 <= i < rows.len() ==> (#[trigger] rows[i]).team_id == team.id,
        owners matches Some(rows) ==> forall|i: int|
            0 <= i < rows.len() ==> (#[trigger] rows[i]).team_id == team.id,
    ensures
        team_found(team_created(pool, team, players, owners).pool, team.id).result == Ok::<
            TeamDetailsView,
            ApiErrorView,
        >(team_details_of(team, shown_after(players), shown_after(owners))),
{
    let before = pool.tables;
    let with_team = before.insert_team(team)->Ok_0;
    let with_players = with_new_players(with_team, players)->Ok_0;
    let after = with_new_owners(with_players, owners)->Ok_0;
    if players is Some {
        lemma_players_appended(with_team, players->Some_0);
    }
    if owners is Some {
        lemma_owners_appended(with_players, owners->Some_0);
    }
    // The team is the only one with its id.
    assert forall|i: int| 0 <= i < before.teams.len() implies !team_with_id(team.id)(
        #[trigger] before.teams[i],
    ) by {}
    lemma_filter_none(before.teams, team_with_id(team.id));
    lemma_filter_push(before.teams, team, team_with_id(team.id));
    assert(after.teams == before.teams.push(team));
    assert(after.teams_with(team.id) =~= seq![team]);
    // No player and no owner belonged to it before.
    assert forall|i: int| 0 <= i < before.players.len() implies !player_of_team(team.id)(
        #[trigger] before.players[i],
    ) by {
        assert(before.has_team(before.players[i].team_id));
    }
    lemma_filter_none(before.players, player_of_team(team.id));
    assert forall|i: int| 0 <= i < before.owners.len() implies !owner_of_team(team.id)(
        #[trigger] before.owners[i],
    ) by {
        assert(before.has_team(before.owners[i].team_id));
    }
    lemma_filter_none(before.owners, owner_of_team(team.id));
    // The new ones all belong to it.
    let new_players = match players {
        Some(rows) => rows,
        None => Seq::empty(),
    };
    let new_owners = match owners {
        Some(rows) => rows,
        None => Seq::empty(),
    };
    assert(after.players =~= before.players + new_players);
    assert(after.owners =~= before.owners + new_owners);
    lemma_filter_all(new_players, player_of_team(team.id));
    lemma_filter_all(new_owners, owner_of_team(team.id));
    Seq::filter_distributes_over_add(before.players, new_players, player_of_team(team.id));
    Seq::filter_distributes_over_add(before.owners, new_owners, owner_of_team(team.id));
    assert(after.players_of(team.id) =~= new_players);
    assert(after.owners_of(team.id) =~= new_owners);
}

} // verus!
