//! Leagues, their rulesets, and the joined record of both.

use crate::ids::Uuid;
use crate::time::Timestamp;
use vstd::prelude::*;

verus! {

/// A league row, a new league and the changes to a league, as contracts
/// see them: the three hold the same fields.
pub struct LeagueView {
    pub id: Uuid,
    pub name: Seq<char>,
    pub start: Timestamp,
    pub rounds: i32,
    pub current_round: i32,
}

/// A row of the league table.
#[derive(Debug, PartialEq)]
pub struct League {
    pub id: Uuid,
    pub name: String,
    pub start: Timestamp,
    pub rounds: i32,
    pub current_round: i32,
}

/// A league that is about to be stored.
#[derive(Debug)]
pub struct NewLeague {
    pub id: Uuid,
    pub name: String,
    pub start: Timestamp,
    pub rounds: i32,
    pub current_round: i32,
}

/// The new values of the league with the given id. The id itself never
/// changes.
#[derive(Debug)]
pub struct UpdateLeague {
    pub id: Uuid,
    pub name: String,
    pub start: Timestamp,
    pub rounds: i32,
    pub current_round: i32,
}

/// A row of the ruleset table. It belongs to the league `league_id`.
#[derive(Clone, Copy, Debug, PartialEq, Eq, Structural)]
pub struct Ruleset {
    pub id: Uuid,
    pub points_per_mile: i32,
    pub league_id: Uuid,
}

/// A ruleset that is about to be stored.
#[derive(Clone, Copy, Debug, PartialEq, Eq, Structural)]
pub struct NewRuleset {
    pub id: Uuid,
    pub points_per_mile: i32,
    pub league_id: Uuid,
}

/// The new values of a ruleset.
#[derive(Clone, Copy, Debug, PartialEq, Eq, Structural)]
pub struct UpdateRuleset {
    pub points_per_mile: i32,
}

/// A league joined with its ruleset. It is computed on every read and never
/// stored.
#[derive(Debug, PartialEq)]
pub struct LeagueDetails {
    pub id: Uuid,
    pub name: String,
    pub start: Timestamp,
    pub rounds: i32,
    pub current_round: i32,
    pub points_per_mile: i32,
}

/// A joined record as contracts see it.
pub struct LeagueDetailsView {
    pub id: Uuid,
    pub name: Seq<char>,
    pub start: Timestamp,
    pub rounds: i32,
    pub current_round: i32,
    pub points_per_mile: i32,
}

/// The joined records of several leagues.
#[derive(Debug, PartialEq)]
pub struct LeaguesResponse(pub Vec<LeagueDetails>);

/// What a caller sends to have a league made. `start` is a date, written
/// as year, month and day.
#[derive(Debug)]
pub struct CreateLeagueRequest {
    pub name: String,
    pub start: String,
    pub rounds: i32,
    pub points_per_mile: i32,
}

/// What a caller sends to have a league changed.
#[derive(Debug)]
pub struct UpdateLeagueRequest {
    pub name: String,
    pub start: String,
    pub rounds: i32,
    pub points_per_mile: i32,
}

/// A request to make or change a league, as contracts see it.
pub struct LeagueRequestView {
    pub name: Seq<char>,
    pub start: Seq<char>,
    pub rounds: i32,
    pub points_per_mile: i32,
}

impl View for League {
    type V = LeagueView;

    open spec fn view(&self) -> LeagueView {
        LeagueView {
            id: self.id,
            name: self.name@,
            start: self.start,
            rounds: self.rounds,
            current_round: self.current_round,
        }
    }
}

impl View for NewLeague {
    type V = LeagueView;

    open spec fn view(&self) -> LeagueView {
        LeagueView {
            id: self.id,
            name: self.name@,
            start: self.start,
            rounds: self.rounds,
            current_round: self.current_round,
        }
    }
}

impl View for UpdateLeague {
    type V = LeagueView;

    open spec fn view(&self) -> LeagueView {
        LeagueView {
            id: self.id,
            name: self.name@,
            start: self.start,
            rounds: self.rounds,
            current_round: self.current_round,
        }
    }
}

impl View for LeagueDetails {
    type V = LeagueDetailsView;

    open spec fn view(&self) -> LeagueDetailsView {
        LeagueDetailsView {
            id: self.id,
            name: self.name@,
            start: self.start,
            rounds: self.rounds,
            current_round: self.current_round,
            points_per_mile: self.points_per_mile,
        }
    }
}

impl View for LeaguesResponse {
    type V = Seq<LeagueDetailsView>;

    open spec fn view(&self) -> Seq<LeagueDetailsView> {
        Seq::new(self.0@.len(), |i: int| self.0@[i]@)
    }
}

impl View for CreateLeagueRequest {
    type V = LeagueRequestView;

    open spec fn view(&self) -> LeagueRequestView {
        LeagueRequestView {
            name: self.name@,
            start: self.start@,
            rounds: self.rounds,
            points_per_mile: self.points_per_mile,
        }
    }
}

impl View for UpdateLeagueRequest {
    type V = LeagueRequestView;

    open spec fn view(&self) -> LeagueRequestView {
        LeagueRequestView {
            name: self.name@,
            start: self.start@,
            rounds: self.rounds,
            points_per_mile: self.points_per_mile,
        }
    }
}

/// The joined record of a league and a ruleset: the league's fields and
/// the ruleset's points per mile.
pub open spec fn details_of(league: LeagueView, points_per_mile: i32) -> LeagueDetailsView {
    LeagueDetailsView {
        id: league.id,
        name: league.name,
        start: league.start,
        rounds: league.rounds,
        current_round: league.current_round,
        points_per_mile,
    }
}

impl Clone for League {
    fn clone(&self) -> (copy: League)
        ensures
            copy@ == self@,
    {
        League {
            id: self.id,
            name: self.name.clone(),
            start: self.start,
            rounds: self.rounds,
            current_round: self.current_round,
        }
    }
}

impl Clone for NewLeague {
    fn clone(&self) -> (copy: NewLeague)
        ensures
            copy@ == self@,
    {
        NewLeague {
            id: self.id,
            name: self.name.clone(),
            start: self.start,
            rounds: self.rounds,
            current_round: self.current_round,
        }
    }
}

impl Clone for UpdateLeague {
    fn clone(&self) -> (copy: UpdateLeague)
        ensures
            copy@ == self@,
    {
        UpdateLeague {
            id: self.id,
            name: self.name.clone(),
            start: self.start,
            rounds: self.rounds,
            current_round: self.current_round,
        }
    }
}

impl Clone for LeagueDetails {
    fn clone(&self) -> (copy: LeagueDetails)
        ensures
            copy@ == self@,
    {
        LeagueDetails {
            id: self.id,
            name: self.name.clone(),
            start: self.start,
            rounds: self.rounds,
            current_round: self.current_round,
            points_per_mile: self.points_per_mile,
        }
    }
}

impl League {
    /// The joined record of this league and a ruleset worth
    /// `points_per_mile`.
    pub fn details(&self, points_per_mile: i32) -> (details: LeagueDetails)
        ensures
            details@ == details_of(self@, points_per_mile),
    {
        LeagueDetails {
            id: self.id,
            name: self.name.clone(),
            start: self.start,
            rounds: self.rounds,
            current_round: self.current_round,
            points_per_mile,
        }
    }
}

impl From<NewLeague> for League {
    fn from(league: NewLeague) -> (row: League) {
        League {
            id: league.id,
            name: league.name,
            start: league.start,
            rounds: league.rounds,
            current_round: league.current_round,
        }
    }
}

impl vstd::std_specs::convert::FromSpecImpl<NewLeague> for League {
    open spec fn obeys_from_spec() -> bool {
        true
    }

    open spec fn from_spec(league: NewLeague) -> League {
        League {
            id: league.id,
            name: league.name,
            start: league.start,
            rounds: league.rounds,
            current_round: league.current_round,
        }
    }
}

impl From<NewRuleset> for Ruleset {
    fn from(ruleset: NewRuleset) -> (row: Ruleset) {
        Ruleset {
            id: ruleset.id,
            league_id: ruleset.league_id,
            points_per_mile: ruleset.points_per_mile,
        }
    }
}

impl vstd::std_specs::convert::FromSpecImpl<NewRuleset> for Ruleset {
    open spec fn obeys_from_spec() -> bool {
        true
    }

    open spec fn from_spec(ruleset: NewRuleset) -> Ruleset {
        Ruleset {
            id: ruleset.id,
            league_id: ruleset.league_id,
            points_per_mile: ruleset.points_per_mile,
        }
    }
}

impl From<Vec<LeagueDetails>> for LeaguesResponse {
    fn from(leagues: Vec<LeagueDetails>) -> (response: LeaguesResponse) {
        LeaguesResponse(leagues)
    }
}

impl vstd::std_specs::convert::FromSpecImpl<Vec<LeagueDetails>> for LeaguesResponse {
    open spec fn obeys_from_spec() -> bool {
        true
    }

    open spec fn from_spec(leagues: Vec<LeagueDetails>) -> LeaguesResponse {
        LeaguesResponse(leagues)
    }
}

} // verus!
