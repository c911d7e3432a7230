//! The tables of the store, their keys and references, and what each
//! statement does to them.
//!
//! Every table has a unique `id`. A ruleset refers to a league and a league
//! has at most one ruleset; a team refers to a league; a player and an
//! owner refer to a team.

use crate::errors::{StoreErrorKind, StoreErrorView};
use crate::ids::Uuid;
use crate::models::leagues::{details_of, LeagueDetailsView, LeagueView, Ruleset, UpdateRuleset};
use crate::models::teams::{Owner, Player, TeamView};
use vstd::prelude::*;

verus! {

/// The message of a row that fails a check of its table.
pub const CHECK_VIOLATION: &'static str = "new row violates a check constraint";

/// The message of a row whose key is taken.
pub const UNIQUE_VIOLATION: &'static str = "duplicate key value violates a unique constraint";

/// The message of a row that refers to a row that is not there, or of the
/// removal of a row that others refer to.
pub const REFERENCE_VIOLATION: &'static str = "foreign key constraint is violated";

/// The rows of the five tables that the aggregates are kept in, each in
/// the order of insertion.
pub struct Tables {
    pub leagues: Seq<LeagueView>,
    pub rulesets: Seq<Ruleset>,
    pub teams: Seq<TeamView>,
    pub players: Seq<Player>,
    pub owners: Seq<Owner>,
}

/// A refusal for the violation of a constraint, with the given message.
pub open spec fn violation(message: Seq<char>) -> StoreErrorView {
    StoreErrorView { kind: StoreErrorKind::Constraint, message }
}

/// The checks on a league row: at least one round, and the current round
/// between zero and the number of rounds.
pub open spec fn league_row_ok(league: LeagueView) -> bool {
    league.rounds > 0 && 0 <= league.current_round <= league.rounds
}

/// The checks on a team row: no negative count.
pub open spec fn team_row_ok(team: TeamView) -> bool {
    team.wins >= 0 && team.losses >= 0 && team.ties >= 0
}

/// The rulesets of the league `league_id`.
pub open spec fn ruleset_of_league(league_id: Uuid) -> spec_fn(Ruleset) -> bool {
    |r: Ruleset| r.league_id == league_id
}

/// The rulesets of every league but `league_id`.
pub open spec fn ruleset_of_other_league(league_id: Uuid) -> spec_fn(Ruleset) -> bool {
    |r: Ruleset| r.league_id != league_id
}

/// The leagues with another id than `id`.
pub open spec fn league_other_than(id: Uuid) -> spec_fn(LeagueView) -> bool {
    |l: LeagueView| l.id != id
}

/// The teams of the league `league_id`.
pub open spec fn team_of_league(league_id: Uuid) -> spec_fn(TeamView) -> bool {
    |t: TeamView| t.league_id == league_id
}

/// The teams with the id `id`.
pub open spec fn team_with_id(id: Uuid) -> spec_fn(TeamView) -> bool {
    |t: TeamView| t.id == id
}

/// The players of the team `team_id`.
pub open spec fn player_of_team(team_id: Uuid) -> spec_fn(Player) -> bool {
    |p: Player| p.team_id == team_id
}

/// The owners of the team `team_id`.
pub open spec fn owner_of_team(team_id: Uuid) -> spec_fn(Owner) -> bool {
    |o: Owner| o.team_id == team_id
}

/// The ruleset `row` with the changes applied where its id is `id`.
pub open spec fn ruleset_updated(id: Uuid, changes: UpdateRuleset) -> spec_fn(Ruleset) -> Ruleset {
    |row: Ruleset|
        if row.id == id {
            Ruleset { id: row.id, points_per_mile: changes.points_per_mile, league_id: row.league_id }
        } else {
            row
        }
}

/// The league `row` with the changes applied where its id is that of
/// `changes`. The id stays.
pub open spec fn league_updated(changes: LeagueView) -> spec_fn(LeagueView) -> LeagueView {
    |row: LeagueView|
        if row.id == changes.id {
            changes
        } else {
            row
        }
}

impl Tables {
    /// No rows at all.
    pub open spec fn empty() -> Tables {
        Tables {
            leagues: Seq::empty(),
            rulesets: Seq::empty(),
            teams: Seq::empty(),
            players: Seq::empty(),
            owners: Seq::empty(),
        }
    }

    /// Whether a league has the id `id`.
    pub open spec fn has_league(self, id: Uuid) -> bool {
        exists|i: int| 0 <= i < self.leagues.len() && (#[trigger] self.leagues[i]).id == id
    }

    /// Whether a ruleset has the id `id`.
    pub open spec fn has_ruleset(self, id: Uuid) -> bool {
        exists|i: int| 0 <= i < self.rulesets.len() && (#[trigger] self.rulesets[i]).id == id
    }

    /// Whether a ruleset belongs to the league `league_id`.
    pub open spec fn has_ruleset_of(self, league_id: Uuid) -> bool {
        exists|i: int|
            0 <= i < self.rulesets.len() && (#[trigger] self.rulesets[i]).league_id == league_id
    }

    /// Whether a team has the id `id`.
    pub open spec fn has_team(self, id: Uuid) -> bool {
        exists|i: int| 0 <= i < self.teams.len() && (#[trigger] self.teams[i]).id == id
    }

    /// Whether a team belongs to the league `league_id`.
    pub open spec fn has_team_of(self, league_id: Uuid) -> bool {
        exists|i: int| 0 <= i < self.teams.len() && (#[trigger] self.teams[i]).league_id == league_id
    }

    /// Whether a player has the id `id`.
    pub open spec fn has_player(self, id: Uuid) -> bool {
        exists|i: int| 0 <= i < self.players.len() && (#[trigger] self.players[i]).id == id
    }

    /// Whether an owner has the id `id`.
    pub open spec fn has_owner(self, id: Uuid) -> bool {
        exists|i: int| 0 <= i < self.owners.len() && (#[trigger] self.owners[i]).id == id
    }

    /// The first league with the id `id`.
    pub open spec fn league(self, id: Uuid) -> Option<LeagueView> {
        let at = first_league(self.leagues, id);
        if at < self.leagues.len() {
            Some(self.leagues[at])
        } else {
            None
        }
    }

    /// The rulesets of the league `league_id`.
    pub open spec fn rulesets_of(self, league_id: Uuid) -> Seq<Ruleset> {
        self.rulesets.filter(ruleset_of_league(league_id))
    }

    /// The league `id` joined with its ruleset: one record where both are
    /// there, none otherwise. A league has at most one ruleset, so where
    /// there is a record it is the whole join.
    pub open spec fn league_details(self, id: Uuid) -> Seq<LeagueDetailsView> {
        match self.league(id) {
            Some(league) => join_rulesets(league, self.rulesets),
            None => Seq::empty(),
        }
    }

    /// Every league joined with its ruleset, in the order of the leagues.
    pub open spec fn all_league_details(self) -> Seq<LeagueDetailsView> {
        join_all(self.leagues, self.rulesets)
    }

    /// The teams of the league `league_id`.
    pub open spec fn teams_in(self, league_id: Uuid) -> Seq<TeamView> {
        self.teams.filter(team_of_league(league_id))
    }

    /// The teams with the id `id`.
    pub open spec fn teams_with(self, id: Uuid) -> Seq<TeamView> {
        self.teams.filter(team_with_id(id))
    }

    /// The players of the team `team_id`.
    pub open spec fn players_of(self, team_id: Uuid) -> Seq<Player> {
        self.players.filter(player_of_team(team_id))
    }

    /// The owners of the team `team_id`.
    pub open spec fn owners_of(self, team_id: Uuid) -> Seq<Owner> {
        self.owners.filter(owner_of_team(team_id))
    }

    /// The tables after `league` is inserted, or the refusal: of a row
    /// that fails its checks, then of an id that is taken.
    pub open spec fn insert_league(self, league: LeagueView) -> Result<Tables, StoreErrorView> {
        if !league_row_ok(league) {
            Err(violation(CHECK_VIOLATION@))
        } else if self.has_league(league.id) {
            Err(violation(UNIQUE_VIOLATION@))
        } else {
            Ok(Tables { leagues: self.leagues.push(league), ..self })
        }
    }

    /// The tables after `ruleset` is inserted, or the refusal: of an id
    /// that is taken, of a league that has a ruleset already, then of a
    /// league that is not there.
    pub open spec fn insert_ruleset(self, ruleset: Ruleset) -> Result<Tables, StoreErrorView> {
        if self.has_ruleset(ruleset.id) || self.has_ruleset_of(ruleset.league_id) {
            Err(violation(UNIQUE_VIOLATION@))
        } else if !self.has_league(ruleset.league_id) {
            Err(violation(REFERENCE_VIOLATION@))
        } else {
            Ok(Tables { rulesets: self.rulesets.push(ruleset), ..self })
        }
    }

    /// The tables after the ruleset `id` has taken the changes. Nothing
    /// changes where no ruleset has that id.
    pub open spec fn update_ruleset(self, id: Uuid, changes: UpdateRuleset) -> Tables {
        Tables { rulesets: self.rulesets.map_values(ruleset_updated(id, changes)), ..self }
    }

    /// The tables after the league with the id of `changes` has taken
    /// them, or the refusal of values that fail the checks. Nothing
    /// changes where no league has that id.
    pub open spec fn update_league(self, changes: LeagueView) -> Result<Tables, StoreErrorView> {
        if self.has_league(changes.id) && !league_row_ok(changes) {
            Err(violation(CHECK_VIOLATION@))
        } else {
            Ok(Tables { leagues: self.leagues.map_values(league_updated(changes)), ..self })
        }
    }

    /// The tables without the rulesets of the league `league_id`.
    pub open spec fn delete_rulesets_of(self, league_id: Uuid) -> Tables {
        Tables { rulesets: self.rulesets.filter(ruleset_of_other_league(league_id)), ..self }
    }

    /// The tables without the league `id`, or the refusal where a ruleset
    /// or a team still refers to it.
    pub open spec fn delete_league(self, id: Uuid) -> Result<Tables, StoreErrorView> {
        if self.has_league(id) && (self.has_ruleset_of(id) || self.has_team_of(id)) {
            Err(violation(REFERENCE_VIOLATION@))
        } else {
            Ok(Tables { leagues: self.leagues.filter(league_other_than(id)), ..self })
        }
    }

    /// The tables after `team` is inserted, or the refusal: of a row that
    /// fails its checks, of an id that is taken, then of a league that is
    /// not there.
    pub open spec fn insert_team(self, team: TeamView) -> Result<Tables, StoreErrorView> {
        if !team_row_ok(team) {
            Err(violation(CHECK_VIOLATION@))
        } else if self.has_team(team.id) {
            Err(violation(UNIQUE_VIOLATION@))
        } else if !self.has_league(team.league_id) {
            Err(violation(REFERENCE_VIOLATION@))
        } else {
            Ok(Tables { teams: self.teams.push(team), ..self })
        }
    }

    /// The tables after `player` is inserted, or the refusal: of an id
    /// that is taken, then of a team that is not there.
    pub open spec fn insert_player(self, player: Player) -> Result<Tables, StoreErrorView> {
        if self.has_player(player.id) {
            Err(violation(UNIQUE_VIOLATION@))
        } else if !self.has_team(player.team_id) {
            Err(violation(REFERENCE_VIOLATION@))
        } else {
            Ok(Tables { players: self.players.push(player), ..self })
        }
    }

    /// The tables after `owner` is inserted, or the refusal: of an id that
    /// is taken, then of a team that is not there.
    pub open spec fn insert_owner(self, owner: Owner) -> Result<Tables, StoreErrorView> {
        if self.has_owner(owner.id) {
            Err(violation(UNIQUE_VIOLATION@))
        } else if !self.has_team(owner.team_id) {
            Err(violation(REFERENCE_VIOLATION@))
        } else {
            Ok(Tables { owners: self.owners.push(owner), ..self })
        }
    }

    /// The tables after the players are inserted one after the other, or
    /// the refusal of the first that is refused; then none is inserted.
    pub open spec fn insert_players(self, players: Seq<Player>) -> Result<Tables, StoreErrorView>
        decreases players.len(),
    {
        if players.len() == 0 {
            Ok(self)
        } else {
            match self.insert_player(players[0]) {
                Ok(next) => next.insert_players(players.drop_first()),
                Err(e) => Err(e),
            }
        }
    }

    /// The tables after the owners are inserted one after the other, or
    /// the refusal of the first that is refused; then none is inserted.
    pub open spec fn insert_owners(self, owners: Seq<Owner>) -> Result<Tables, StoreErrorView>
        decreases owners.len(),
    {
        if owners.len() == 0 {
            Ok(self)
        } else {
            match self.insert_owner(owners[0]) {
                Ok(next) => next.insert_owners(owners.drop_first()),
                Err(e) => Err(e),
            }
        }
    }

    /// Whether no id occurs twice in a table, and no league twice among
    /// the rulesets.
    pub open spec fn keys_unique(self) -> bool {
        &&& forall|i: int, j: int|
            0 <= i < j < self.leagues.len() ==> (#[trigger] self.leagues[i]).id != (
            #[trigger] self.leagues[j]).id
        &&& forall|i: int, j: int|
            0 <= i < j < self.rulesets.len() ==> (#[trigger] self.rulesets[i]).id != (
            #[trigger] self.rulesets[j]).id
        &&& forall|i: int, j: int|
            0 <= i < j < self.rulesets.len() ==> (#[trigger] self.rulesets[i]).league_id != (
            #[trigger] self.rulesets[j]).league_id
        &&& forall|i: int, j: int|
            0 <= i < j < self.teams.len() ==> (#[trigger] self.teams[i]).id != (
            #[trigger] self.teams[j]).id
        &&& forall|i: int, j: int|
            0 <= i < j < self.players.len() ==> (#[trigger] self.players[i]).id != (
            #[trigger] self.players[j]).id
        &&& forall|i: int, j: int|
            0 <= i < j < self.owners.len() ==> (#[trigger] self.owners[i]).id != (
            #[trigger] self.owners[j]).id
    }

    /// Whether every league and every team passes the checks of its table.
    pub open spec fn rows_checked(self) -> bool {
        &&& forall|i: int|
            0 <= i < self.leagues.len() ==> league_row_ok(#[trigger] self.leagues[i])
        &&& forall|i: int| 0 <= i < self.teams.len() ==> team_row_ok(#[trigger] self.teams[i])
    }

    /// Whether every row that refers to another finds it: a ruleset and a
    /// team their league, a player and an owner their team.
    pub open spec fn references_hold(self) -> bool {
        &&& forall|i: int|
            0 <= i < self.rulesets.len() ==> self.has_league((#[trigger] self.rulesets[i]).league_id)
        &&& forall|i: int|
            0 <= i < self.teams.len() ==> self.has_league((#[trigger] self.teams[i]).league_id)
        &&& forall|i: int|
            0 <= i < self.players.len() ==> self.has_team((#[trigger] self.players[i]).team_id)
        &&& forall|i: int|
            0 <= i < self.owners.len() ==> self.has_team((#[trigger] self.owners[i]).team_id)
    }

    /// The keys and references of the schema and the checks on the rows.
    pub open spec fn valid(self) -> bool {
        self.keys_unique() && self.rows_checked() && self.references_hold()
    }

    /// Whether every league has its ruleset: the two are made and removed
    /// together.
    pub open spec fn paired(self) -> bool {
        forall|i: int|
            0 <= i < self.leagues.len() ==> self.has_ruleset_of((#[trigger] self.leagues[i]).id)
    }
}

/// The index of the first league with the id `id`, or the number of
/// leagues where there is none.
pub open spec fn first_league(leagues: Seq<LeagueView>, id: Uuid) -> int
    decreases leagues.len(),
{
    if leagues.len() == 0 {
        0
    } else if leagues[0].id == id {
        0
    } else {
        1 + first_league(leagues.drop_first(), id)
    }
}

/// The index of the first ruleset of the league `league_id`, or the
/// number of rulesets where there is none.
pub open spec fn first_ruleset_of(rulesets: Seq<Ruleset>, league_id: Uuid) -> int
    decreases rulesets.len(),
{
    if rulesets.len() == 0 {
        0
    } else if rulesets[0].league_id == league_id {
        0
    } else {
        1 + first_ruleset_of(rulesets.drop_first(), league_id)
    }
}

/// The record of `league` and its first ruleset, if it has one.
pub open spec fn join_rulesets(league: LeagueView, rulesets: Seq<Ruleset>) -> Seq<
    LeagueDetailsView,
> {
    let at = first_ruleset_of(rulesets, league.id);
    if at < rulesets.len() {
        seq![details_of(league, rulesets[at].points_per_mile)]
    } else {
        Seq::empty()
    }
}

/// The records of all `leagues`, each joined with its first ruleset.
pub open spec fn join_all(leagues: Seq<LeagueView>, rulesets: Seq<Ruleset>) -> Seq<
    LeagueDetailsView,
>
    decreases leagues.len(),
{
    if leagues.len() == 0 {
        Seq::empty()
    } else {
        join_all(leagues.drop_last(), rulesets) + join_rulesets(leagues.last(), rulesets)
    }
}

} // verus!
