//! Teams, their players and owners, and the joined record of all three.

use crate::ids::Uuid;
use vstd::prelude::*;

verus! {

/// A row of the team table. It belongs to the league `league_id`.
#[derive(Debug, PartialEq)]
pub struct Team {
    pub id: Uuid,
    pub name: String,
    pub wins: i32,
    pub losses: i32,
    pub ties: i32,
    pub league_id: Uuid,
}

/// A team row as contracts see it.
pub struct TeamView {
    pub id: Uuid,
    pub name: Seq<char>,
    pub wins: i32,
    pub losses: i32,
    pub ties: i32,
    pub league_id: Uuid,
}

/// A row of the owner table: user `user_id` owns team `team_id`.
#[derive(Clone, Copy, Debug, PartialEq, Eq, Structural)]
pub struct Owner {
    pub id: Uuid,
    pub user_id: Uuid,
    pub team_id: Uuid,
}

/// A row of the player table: user `user_id` plays for team `team_id`.
#[derive(Clone, Copy, Debug, PartialEq, Eq, Structural)]
pub struct Player {
    pub id: Uuid,
    pub user_id: Uuid,
    pub team_id: Uuid,
}

/// A team joined with its players and owners. A set with no rows is
/// absent, not empty.
#[derive(Debug, PartialEq)]
pub struct TeamDetails {
    pub id: Uuid,
    pub league_id: Uuid,
    pub name: String,
    pub wins: i32,
    pub losses: i32,
    pub ties: i32,
    pub players: Option<Vec<Player>>,
    pub owners: Option<Vec<Owner>>,
}

/// A joined team record as contracts see it.
pub struct TeamDetailsView {
    pub id: Uuid,
    pub league_id: Uuid,
    pub name: Seq<char>,
    pub wins: i32,
    pub losses: i32,
    pub ties: i32,
    pub players: Option<Seq<Player>>,
    pub owners: Option<Seq<Owner>>,
}

/// Several team rows.
#[derive(Debug, PartialEq)]
pub struct TeamsResponse(pub Vec<Team>);

impl View for Team {
    type V = TeamView;

    open spec fn view(&self) -> TeamView {
        TeamView {
            id: self.id,
            name: self.name@,
            wins: self.wins,
            losses: self.losses,
            ties: self.ties,
            league_id: self.league_id,
        }
    }
}

/// The rows of an optional set.
pub open spec fn rows_of<T>(rows: Option<Vec<T>>) -> Option<Seq<T>> {
    match rows {
        Some(v) => Some(v@),
        None => None,
    }
}

impl View for TeamDetails {
    type V = TeamDetailsView;

    open spec fn view(&self) -> TeamDetailsView {
        TeamDetailsView {
            id: self.id,
            league_id: self.league_id,
            name: self.name@,
            wins: self.wins,
            losses: self.losses,
            ties: self.ties,
            players: rows_of(self.players),
            owners: rows_of(self.owners),
        }
    }
}

impl View for TeamsResponse {
    type V = Seq<TeamView>;

    open spec fn view(&self) -> Seq<TeamView> {
        Seq::new(self.0@.len(), |i: int| self.0@[i]@)
    }
}

/// The joined record of a team with the given players and owners.
pub open spec fn team_details_of(
    team: TeamView,
    players: Option<Seq<Player>>,
    owners: Option<Seq<Owner>>,
) -> TeamDetailsView {
    TeamDetailsView {
        id: team.id,
        league_id: team.league_id,
        name: team.name,
        wins: team.wins,
        losses: team.losses,
        ties: team.ties,
        players,
        owners,
    }
}

impl Clone for Team {
    fn clone(&self) -> (copy: Team)
        ensures
            copy@ == self@,
    {
        Team {
            id: self.id,
            name: self.name.clone(),
            wins: self.wins,
            losses: self.losses,
            ties: self.ties,
            league_id: self.league_id,
        }
    }
}

impl Team {
    /// The joined record of this team with the given players and owners.
    pub fn details(&self, players: Option<Vec<Player>>, owners: Option<Vec<Owner>>) -> (details:
        TeamDetails)
        ensures
            details@ == team_details_of(self@, rows_of(players), rows_of(owners)),
    {
        TeamDetails {
            id: self.id,
            league_id: self.league_id,
            name: self.name.clone(),
            wins: self.wins,
            losses: self.losses,
            ties: self.ties,
            players,
            owners,
        }
    }
}

impl From<Vec<Team>> for TeamsResponse {
    fn from(teams: Vec<Team>) -> (response: TeamsResponse) {
        TeamsResponse(teams)
    }
}

impl vstd::std_specs::convert::FromSpecImpl<Vec<Team>> for TeamsResponse {
    open spec fn obeys_from_spec() -> bool {
        true
    }

    open spec fn from_spec(teams: Vec<Team>) -> TeamsResponse {
        TeamsResponse(teams)
    }
}

} // verus!
