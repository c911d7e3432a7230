//! The tables of the store as they are held in memory.

use crate::errors::StoreError;
use crate::ids::Uuid;
use crate::models::leagues::{League, LeagueDetails, Ruleset, UpdateLeague, UpdateRuleset};
use crate::models::teams::{Owner, Player, Team};
use crate::rows::{lemma_filter_empty, lemma_filter_take, lemma_views_push, views};
use crate::schema::{
    first_league, first_ruleset_of, join_all, join_rulesets, league_other_than, league_updated,
    owner_of_team, player_of_team, ruleset_of_league, ruleset_of_other_league, ruleset_updated,
    team_of_league, team_with_id, violation, Tables, CHECK_VIOLATION, REFERENCE_VIOLATION,
    UNIQUE_VIOLATION,
};
use vstd::prelude::*;

verus! {

/// The rows of the five tables.
pub struct Rows {
    leagues: Vec<League>,
    rulesets: Vec<Ruleset>,
    teams: Vec<Team>,
    players: Vec<Player>,
    owners: Vec<Owner>,
}

impl View for Rows {
    type V = Tables;

    closed spec fn view(&self) -> Tables {
        Tables {
            leagues: views(self.leagues@),
            rulesets: self.rulesets@,
            teams: views(self.teams@),
            players: self.players@,
            owners: self.owners@,
        }
    }
}

/// A copy of the league rows.
fn copy_leagues(rows: &Vec<League>) -> (copy: Vec<League>)
    ensures
        views(copy@) == views(rows@),
{
    let mut copy: Vec<League> = Vec::new();
    let mut i: usize = 0;
    while i < rows.len()
        invariant
            i <= rows.len(),
            views(copy@) == views(rows@).take(i as int),
        decreases rows.len() - i,
    {
        let row = rows[i].clone();
        proof {
            lemma_views_push(copy@, row);
            assert(views(rows@).take(i + 1) =~= views(rows@).take(i as int).push(rows@[i as int]@));
        }
        copy.push(row);
        i += 1;
    }
    assert(views(rows@).take(rows.len() as int) =~= views(rows@));
    copy
}

/// A copy of the team rows.
fn copy_teams(rows: &Vec<Team>) -> (copy: Vec<Team>)
    ensures
        views(copy@) == views(rows@),
{
    let mut copy: Vec<Team> = Vec::new();
    let mut i: usize = 0;
    while i < rows.len()
        invariant
            i <= rows.len(),
            views(copy@) == views(rows@).take(i as int),
        decreases rows.len() - i,
    {
        let row = rows[i].clone();
        proof {
            lemma_views_push(copy@, row);
            assert(views(rows@).take(i + 1) =~= views(rows@).take(i as int).push(rows@[i as int]@));
        }
        copy.push(row);
        i += 1;
    }
    assert(views(rows@).take(rows.len() as int) =~= views(rows@));
    copy
}

/// A copy of rows that are plain values.
pub fn copy_plain<T: Copy>(rows: &Vec<T>) -> (copy: Vec<T>)
    ensures
        copy@ == rows@,
{
    let mut copy: Vec<T> = Vec::new();
    let mut i: usize = 0;
    while i < rows.len()
        invariant
            i <= rows.len(),
            copy@ == rows@.take(i as int),
        decreases rows.len() - i,
    {
        let row = rows[i];
        assert(rows@.take(i + 1) =~= rows@.take(i as int).push(row));
        copy.push(row);
        i += 1;
    }
    assert(rows@.take(rows.len() as int) =~= rows@);
    copy
}

impl Rows {
    /// Tables without rows.
    pub fn new() -> (rows: Rows)
        ensures
            rows@ == Tables::empty(),
    {
        let rows = Rows {
            leagues: Vec::new(),
            rulesets: Vec::new(),
            teams: Vec::new(),
            players: Vec::new(),
            owners: Vec::new(),
        };
        assert(rows@.leagues =~= Seq::empty());
        assert(rows@.teams =~= Seq::empty());
        rows
    }

    /// A copy of all rows.
    pub fn copy(&self) -> (copy: Rows)
        ensures
            copy@ == self@,
    {
        Rows {
            leagues: copy_leagues(&self.leagues),
            rulesets: copy_plain(&self.rulesets),
            teams: copy_teams(&self.teams),
            players: copy_plain(&self.players),
            owners: copy_plain(&self.owners),
        }
    }

    /// Whether a league has the id `id`.
    pub fn has_league(&self, id: Uuid) -> (found: bool)
        ensures
            found == self@.has_league(id),
    {
        let mut i: usize = 0;
        while i < self.leagues.len()
            invariant
                i <= self.leagues.len(),
                forall|j: int| 0 <= j < i ==> (#[trigger] self@.leagues[j]).id != id,
            decreases self.leagues.len() - i,
        {
            if self.leagues[i].id == id {
                assert(self@.leagues[i as int].id == id);
                return true;
            }
            i += 1;
        }
        false
    }

    /// Whether a ruleset has the id `id`.
    pub fn has_ruleset(&self, id: Uuid) -> (found: bool)
        ensures
            found == self@.has_ruleset(id),
    {
        let mut i: usize = 0;
        while i < self.rulesets.len()
            invariant
                i <= self.rulesets.len(),
                forall|j: int| 0 <= j < i ==> (#[trigger] self@.rulesets[j]).id != id,
            decreases self.rulesets.len() - i,
        {
            if self.rulesets[i].id == id {
                assert(self@.rulesets[i as int].id == id);
                return true;
            }
            i += 1;
        }
        false
    }

    /// Whether a ruleset belongs to the league `league_id`.
    pub fn has_ruleset_of(&self, league_id: Uuid) -> (found: bool)
        ensures
            found == self@.has_ruleset_of(league_id),
    {
        let mut i: usize = 0;
        while i < self.rulesets.len()
            invariant
                i <= self.rulesets.len(),
                forall|j: int| 0 <= j < i ==> (#[trigger] self@.rulesets[j]).league_id != league_id,
            decreases self.rulesets.len() - i,
        {
            if self.rulesets[i].league_id == league_id {
                assert(self@.rulesets[i as int].league_id == league_id);
                return true;
            }
            i += 1;
        }
        false
    }

    /// Whether a team has the id `id`.
    pub fn has_team(&self, id: Uuid) -> (found: bool)
        ensures
            found == self@.has_team(id),
    {
        let mut i: usize = 0;
        while i < self.teams.len()
            invariant
                i <= self.teams.len(),
                forall|j: int| 0 <= j < i ==> (#[trigger] self@.teams[j]).id != id,
            decreases self.teams.len() - i,
        {
            if self.teams[i].id == id {
                assert(self@.teams[i as int].id == id);
                return true;
            }
            i += 1;
        }
        false
    }

    /// Whether a team belongs to the league `league_id`.
    pub fn has_team_of(&self, league_id: Uuid) -> (found: bool)
        ensures
            found == self@.has_team_of(league_id),
    {
        let mut i: usize = 0;
        while i < self.teams.len()
            invariant
                i <= self.teams.len(),
                forall|j: int| 0 <= j < i ==> (#[trigger] self@.teams[j]).league_id != league_id,
            decreases self.teams.len() - i,
        {
            if self.teams[i].league_id == league_id {
                assert(self@.teams[i as int].league_id == league_id);
                return true;
            }
            i += 1;
        }
        false
    }

    /// Whether a player has the id `id`.
    pub fn has_player(&self, id: Uuid) -> (found: bool)
        ensures
            found == self@.has_player(id),
    {
        let mut i: usize = 0;
        while i < self.players.len()
            invariant
                i <= self.players.len(),
                forall|j: int| 0 <= j < i ==> (#[trigger] self@.players[j]).id != id,
            decreases self.players.len() - i,
        {
            if self.players[i].id == id {
                assert(self@.players[i as int].id == id);
                return true;
            }
            i += 1;
        }
        false
    }

    /// Whether an owner has the id `id`.
    pub fn has_owner(&self, id: Uuid) -> (found: bool)
        ensures
            found == self@.has_owner(id),
    {
        let mut i: usize = 0;
        while i < self.owners.len()
            invariant
                i <= self.owners.len(),
                forall|j: int| 0 <= j < i ==> (#[trigger] self@.owners[j]).id != id,
            decreases self.owners.len() - i,
        {
            if self.owners[i].id == id {
                assert(self@.owners[i as int].id == id);
                return true;
            }
            i += 1;
        }
        false
    }
}

impl Rows {
    /// The index of the first league with the id `id`, or the number of
    /// leagues where there is none.
    fn find_league(&self, id: Uuid) -> (at: usize)
        ensures
            at == first_league(self@.leagues, id),
            at <= self.leagues.len(),
    {
        let ghost all = self@.leagues;
        let mut i: usize = 0;
        assert(all.skip(0) =~= all);
        while i < self.leagues.len()
            invariant
                i <= self.leagues.len(),
                all == self@.leagues,
                first_league(all, id) == i + first_league(all.skip(i as int), id),
            decreases self.leagues.len() - i,
        {
            assert(all.skip(i as int)[0] == all[i as int]);
            if self.leagues[i].id == id {
                return i;
            }
            assert(all.skip(i as int).drop_first() =~= all.skip(i + 1));
            i += 1;
        }
        i
    }

    /// The index of the first ruleset of the league `league_id`, or the
    /// number of rulesets where there is none.
    fn find_ruleset_of(&self, league_id: Uuid) -> (at: usize)
        ensures
            at == first_ruleset_of(self@.rulesets, league_id),
            at <= self.rulesets.len(),
    {
        let ghost all = self@.rulesets;
        let mut i: usize = 0;
        assert(all.skip(0) =~= all);
        while i < self.rulesets.len()
            invariant
                i <= self.rulesets.len(),
                all == self@.rulesets,
                first_ruleset_of(all, league_id) == i + first_ruleset_of(
                    all.skip(i as int),
                    league_id,
                ),
            decreases self.rulesets.len() - i,
        {
            assert(all.skip(i as int)[0] == all[i as int]);
            if self.rulesets[i].league_id == league_id {
                return i;
            }
            assert(all.skip(i as int).drop_first() =~= all.skip(i + 1));
            i += 1;
        }
        i
    }

    /// Adds to `found` the record of the league at index `at` and its
    /// first ruleset, if it has one.
    fn join_league(&self, at: usize, found: &mut Vec<LeagueDetails>)
        requires
            at < self.leagues.len(),
        ensures
            views(final(found)@) == views(old(found)@) + join_rulesets(
                self@.leagues[at as int],
                self@.rulesets,
            ),
    {
        let league = &self.leagues[at];
        let ruleset_at = self.find_ruleset_of(league.id);
        if ruleset_at < self.rulesets.len() {
            let details = league.details(self.rulesets[ruleset_at].points_per_mile);
            proof {
                lemma_views_push(found@, details);
                assert(views(found@).push(details@) =~= views(found@) + seq![details@]);
            }
            found.push(details);
        } else {
            assert(views(found@) + Seq::empty() =~= views(found@));
        }
    }

    /// The league `id` joined with its ruleset.
    pub fn league_details(&self, id: Uuid) -> (found: Vec<LeagueDetails>)
        ensures
            views(found@) == self@.league_details(id),
    {
        let mut found: Vec<LeagueDetails> = Vec::new();
        let at = self.find_league(id);
        assert(views(found@) =~= Seq::empty());
        if at < self.leagues.len() {
            self.join_league(at, &mut found);
            assert(Seq::empty() + self@.league_details(id) =~= self@.league_details(id));
        }
        found
    }

    /// Every league joined with its ruleset.
    pub fn all_league_details(&self) -> (found: Vec<LeagueDetails>)
        ensures
            views(found@) == self@.all_league_details(),
    {
        let mut found: Vec<LeagueDetails> = Vec::new();
        let mut i: usize = 0;
        assert(views(found@) =~= Seq::empty());
        while i < self.leagues.len()
            invariant
                i <= self.leagues.len(),
                views(found@) == join_all(self@.leagues.take(i as int), self@.rulesets),
            decreases self.leagues.len() - i,
        {
            proof {
                let next = self@.leagues.take(i + 1);
                assert(next.drop_last() =~= self@.leagues.take(i as int));
                assert(next.last() == self@.leagues[i as int]);
            }
            self.join_league(i, &mut found);
            i += 1;
        }
        assert(self@.leagues.take(self.leagues.len() as int) =~= self@.leagues);
        found
    }

    /// The rulesets of the league `league_id`.
    pub fn rulesets_of(&self, league_id: Uuid) -> (found: Vec<Ruleset>)
        ensures
            found@ == self@.rulesets_of(league_id),
    {
        let mut found: Vec<Ruleset> = Vec::new();
        let mut i: usize = 0;
        proof {
            lemma_filter_empty(ruleset_of_league(league_id));
            assert(self@.rulesets.take(0) =~= Seq::empty());
        }
        while i < self.rulesets.len()
            invariant
                i <= self.rulesets.len(),
                found@ == self@.rulesets.take(i as int).filter(ruleset_of_league(league_id)),
            decreases self.rulesets.len() - i,
        {
            let row = self.rulesets[i];
            proof {
                lemma_filter_take(self@.rulesets, i as int, ruleset_of_league(league_id));
            }
            if row.league_id == league_id {
                found.push(row);
            }
            i += 1;
        }
        assert(self@.rulesets.take(self.rulesets.len() as int) =~= self@.rulesets);
        found
    }

    /// The players of the team `team_id`.
    pub fn players_of(&self, team_id: Uuid) -> (found: Vec<Player>)
        ensures
            found@ == self@.players_of(team_id),
    {
        let mut found: Vec<Player> = Vec::new();
        let mut i: usize = 0;
        proof {
            lemma_filter_empty(player_of_team(team_id));
            assert(self@.players.take(0) =~= Seq::empty());
        }
        while i < self.players.len()
            invariant
                i <= self.players.len(),
                found@ == self@.players.take(i as int).filter(player_of_team(team_id)),
            decreases self.players.len() - i,
        {
            let row = self.players[i];
            proof {
                lemma_filter_take(self@.players, i as int, player_of_team(team_id));
            }
            if row.team_id == team_id {
                found.push(row);
            }
            i += 1;
        }
        assert(self@.players.take(self.players.len() as int) =~= self@.players);
        found
    }

    /// The owners of the team `team_id`.
    pub fn owners_of(&self, team_id: Uuid) -> (found: Vec<Owner>)
        ensures
            found@ == self@.owners_of(team_id),
    {
        let mut found: Vec<Owner> = Vec::new();
        let mut i: usize = 0;
        proof {
            lemma_filter_empty(owner_of_team(team_id));
            assert(self@.owners.take(0) =~= Seq::empty());
        }
        while i < self.owners.len()
            invariant
                i <= self.owners.len(),
                found@ == self@.owners.take(i as int).filter(owner_of_team(team_id)),
            decreases self.owners.len() - i,
        {
            let row = self.owners[i];
            proof {
                lemma_filter_take(self@.owners, i as int, owner_of_team(team_id));
            }
            if row.team_id == team_id {
                found.push(row);
            }
            i += 1;
        }
        assert(self@.owners.take(self.owners.len() as int) =~= self@.owners);
        found
    }

    /// Every team.
    pub fn all_teams(&self) -> (found: Vec<Team>)
        ensures
            views(found@) == self@.teams,
    {
        copy_teams(&self.teams)
    }

    /// The teams of the league `league_id`.
    pub fn teams_in(&self, league_id: Uuid) -> (found: Vec<Team>)
        ensures
            views(found@) == self@.teams_in(league_id),
    {
        let mut found: Vec<Team> = Vec::new();
        let mut i: usize = 0;
        proof {
            lemma_filter_empty(team_of_league(league_id));
            assert(self@.teams.take(0) =~= Seq::empty());
            assert(views(found@) =~= Seq::empty());
        }
        while i < self.teams.len()
            invariant
                i <= self.teams.len(),
                views(found@) == self@.teams.take(i as int).filter(team_of_league(league_id)),
            decreases self.teams.len() - i,
        {
            proof {
                lemma_filter_take(self@.teams, i as int, team_of_league(league_id));
            }
            if self.teams[i].league_id == league_id {
                let row = self.teams[i].clone();
                proof {
                    lemma_views_push(found@, row);
                }
                found.push(row);
            }
            i += 1;
        }
        assert(self@.teams.take(self.teams.len() as int) =~= self@.teams);
        found
    }

    /// The teams with the id `id`.
    pub fn teams_with(&self, id: Uuid) -> (found: Vec<Team>)
        ensures
            views(found@) == self@.teams_with(id),
    {
        let mut found: Vec<Team> = Vec::new();
        let mut i: usize = 0;
        proof {
            lemma_filter_empty(team_with_id(id));
            assert(self@.teams.take(0) =~= Seq::empty());
            assert(views(found@) =~= Seq::empty());
        }
        while i < self.teams.len()
            invariant
                i <= self.teams.len(),
                views(found@) == self@.teams.take(i as int).filter(team_with_id(id)),
            decreases self.teams.len() - i,
        {
            proof {
                lemma_filter_take(self@.teams, i as int, team_with_id(id));
            }
            if self.teams[i].id == id {
                let row = self.teams[i].clone();
                proof {
                    lemma_views_push(found@, row);
                }
                found.push(row);
            }
            i += 1;
        }
        assert(self@.teams.take(self.teams.len() as int) =~= self@.teams);
        found
    }
}


/// The refusal of a row that would break a constraint.
fn refusal(message: &'static str) -> (error: StoreError)
    ensures
        error@ == violation(message@),
{
    StoreError::Constraint(message.to_owned())
}

impl Rows {
    /// Inserts `league`, or refuses it and changes nothing.
    pub fn insert_league(&mut self, league: League) -> (outcome: Result<(), StoreError>)
        ensures
            match old(self)@.insert_league(league@) {
                Ok(tables) => outcome is Ok && final(self)@ == tables,
                Err(error) => outcome matches Err(e) && e@ == error && final(self)@ == old(self)@,
            },
    {
        if !(league.rounds > 0 && 0 <= league.current_round && league.current_round
            <= league.rounds) {
            return Err(refusal(CHECK_VIOLATION));
        }
        if self.has_league(league.id) {
            return Err(refusal(UNIQUE_VIOLATION));
        }
        proof {
            lemma_views_push(self.leagues@, league);
        }
        self.leagues.push(league);
        Ok(())
    }

    /// Inserts `ruleset`, or refuses it and changes nothing.
    pub fn insert_ruleset(&mut self, ruleset: Ruleset) -> (outcome: Result<(), StoreError>)
        ensures
            match old(self)@.insert_ruleset(ruleset) {
                Ok(tables) => outcome is Ok && final(self)@ == tables,
                Err(error) => outcome matches Err(e) && e@ == error && final(self)@ == old(self)@,
            },
    {
        if self.has_ruleset(ruleset.id) || self.has_ruleset_of(ruleset.league_id) {
            return Err(refusal(UNIQUE_VIOLATION));
        }
        if !self.has_league(ruleset.league_id) {
            return Err(refusal(REFERENCE_VIOLATION));
        }
        self.rulesets.push(ruleset);
        Ok(())
    }

    /// Gives the ruleset `id` the new values.
    pub fn update_ruleset(&mut self, id: Uuid, changes: UpdateRuleset)
        ensures
            final(self)@ == old(self)@.update_ruleset(id, changes),
    {
        let ghost before = self.rulesets@;
        let ghost change = ruleset_updated(id, changes);
        let mut i: usize = 0;
        while i < self.rulesets.len()
            invariant
                i <= self.rulesets.len(),
                self.rulesets@.len() == before.len(),
                change == ruleset_updated(id, changes),
                forall|j: int| 0 <= j < i ==> self.rulesets@[j] == change(before[j]),
                forall|j: int| i <= j < before.len() ==> self.rulesets@[j] == before[j],
                self.leagues == old(self).leagues,
                self.teams == old(self).teams,
                self.players == old(self).players,
                self.owners == old(self).owners,
            decreases self.rulesets.len() - i,
        {
            let row = self.rulesets[i];
            if row.id == id {
                self.rulesets.set(
                    i,
                    Ruleset {
                        id: row.id,
                        points_per_mile: changes.points_per_mile,
                        league_id: row.league_id,
                    },
                );
            }
            i += 1;
        }
        assert(self.rulesets@ =~= before.map_values(change));
    }

    /// Gives the league with the id of `changes` the new values, or
    /// refuses them and changes nothing.
    pub fn update_league(&mut self, changes: &UpdateLeague) -> (outcome: Result<(), StoreError>)
        ensures
            match old(self)@.update_league(changes@) {
                Ok(tables) => outcome is Ok && final(self)@ == tables,
                Err(error) => outcome matches Err(e) && e@ == error && final(self)@ == old(self)@,
            },
    {
        let row_ok = changes.rounds > 0 && 0 <= changes.current_round && changes.current_round
            <= changes.rounds;
        if !row_ok && self.has_league(changes.id) {
            return Err(refusal(CHECK_VIOLATION));
        }
        let ghost before = views(self.leagues@);
        let ghost change = league_updated(changes@);
        let mut i: usize = 0;
        while i < self.leagues.len()
            invariant
                i <= self.leagues.len(),
                self.leagues@.len() == before.len(),
                change == league_updated(changes@),
                forall|j: int| 0 <= j < i ==> self.leagues@[j]@ == change(before[j]),
                forall|j: int| i <= j < before.len() ==> self.leagues@[j]@ == before[j],
                self.rulesets == old(self).rulesets,
                self.teams == old(self).teams,
                self.players == old(self).players,
                self.owners == old(self).owners,
            decreases self.leagues.len() - i,
        {
            if self.leagues[i].id == changes.id {
                self.leagues.set(
                    i,
                    League {
                        id: changes.id,
                        name: changes.name.clone(),
                        start: changes.start,
                        rounds: changes.rounds,
                        current_round: changes.current_round,
                    },
                );
            }
            i += 1;
        }
        assert(views(self.leagues@) =~= before.map_values(change));
        Ok(())
    }

    /// Removes the rulesets of the league `league_id`.
    pub fn delete_rulesets_of(&mut self, league_id: Uuid)
        ensures
            final(self)@ == old(self)@.delete_rulesets_of(league_id),
    {
        let mut kept: Vec<Ruleset> = Vec::new();
        let mut i: usize = 0;
        proof {
            lemma_filter_empty(ruleset_of_other_league(league_id));
            assert(self@.rulesets.take(0) =~= Seq::empty());
        }
        while i < self.rulesets.len()
            invariant
                i <= self.rulesets.len(),
                kept@ == self@.rulesets.take(i as int).filter(ruleset_of_other_league(league_id)),
            decreases self.rulesets.len() - i,
        {
            let row = self.rulesets[i];
            proof {
                lemma_filter_take(self@.rulesets, i as int, ruleset_of_other_league(league_id));
            }
            if row.league_id != league_id {
                kept.push(row);
            }
            i += 1;
        }
        assert(self@.rulesets.take(self.rulesets.len() as int) =~= self@.rulesets);
        self.rulesets = kept;
    }

    /// Removes the league `id`, or refuses where a row still refers to it
    /// and changes nothing.
    pub fn delete_league(&mut self, id: Uuid) -> (outcome: Result<(), StoreError>)
        ensures
            match old(self)@.delete_league(id) {
                Ok(tables) => outcome is Ok && final(self)@ == tables,
                Err(error) => outcome matches Err(e) && e@ == error && final(self)@ == old(self)@,
            },
    {
        if self.has_league(id) && (self.has_ruleset_of(id) || self.has_team_of(id)) {
            return Err(refusal(REFERENCE_VIOLATION));
        }
        let mut kept: Vec<League> = Vec::new();
        let mut i: usize = 0;
        proof {
            lemma_filter_empty(league_other_than(id));
            assert(self@.leagues.take(0) =~= Seq::empty());
            assert(views(kept@) =~= Seq::empty());
        }
        while i < self.leagues.len()
            invariant
                i <= self.leagues.len(),
                views(kept@) == self@.leagues.take(i as int).filter(league_other_than(id)),
            decreases self.leagues.len() - i,
        {
            proof {
                lemma_filter_take(self@.leagues, i as int, league_other_than(id));
            }
            if self.leagues[i].id != id {
                let row = self.leagues[i].clone();
                proof {
                    lemma_views_push(kept@, row);
                }
                kept.push(row);
            }
            i += 1;
        }
        assert(self@.leagues.take(self.leagues.len() as int) =~= self@.leagues);
        self.leagues = kept;
        Ok(())
    }

    /// Inserts `team`, or refuses it and changes nothing.
    pub fn insert_team(&mut self, team: Team) -> (outcome: Result<(), StoreError>)
        ensures
            match old(self)@.insert_team(team@) {
                Ok(tables) => outcome is Ok && final(self)@ == tables,
                Err(error) => outcome matches Err(e) && e@ == error && final(self)@ == old(self)@,
            },
    {
        if !(team.wins >= 0 && team.losses >= 0 && team.ties >= 0) {
            return Err(refusal(CHECK_VIOLATION));
        }
        if self.has_team(team.id) {
            return Err(refusal(UNIQUE_VIOLATION));
        }
        if !self.has_league(team.league_id) {
            return Err(refusal(REFERENCE_VIOLATION));
        }
        proof {
            lemma_views_push(self.teams@, team);
        }
        self.teams.push(team);
        Ok(())
    }

    /// Inserts `player`, or refuses it and changes nothing.
    pub fn insert_player(&mut self, player: Player) -> (outcome: Result<(), StoreError>)
        ensures
            match old(self)@.insert_player(player) {
                Ok(tables) => outcome is Ok && final(self)@ == tables,
                Err(error) => outcome matches Err(e) && e@ == error && final(self)@ == old(self)@,
            },
    {
        if self.has_player(player.id) {
            return Err(refusal(UNIQUE_VIOLATION));
        }
        if !self.has_team(player.team_id) {
            return Err(refusal(REFERENCE_VIOLATION));
        }
        self.players.push(player);
        Ok(())
    }

    /// Inserts `owner`, or refuses it and changes nothing.
    pub fn insert_owner(&mut self, owner: Owner) -> (outcome: Result<(), StoreError>)
        ensures
            match old(self)@.insert_owner(owner) {
                Ok(tables) => outcome is Ok && final(self)@ == tables,
                Err(error) => outcome matches Err(e) && e@ == error && final(self)@ == old(self)@,
            },
    {
        if self.has_owner(owner.id) {
            return Err(refusal(UNIQUE_VIOLATION));
        }
        if !self.has_team(owner.team_id) {
            return Err(refusal(REFERENCE_VIOLATION));
        }
        self.owners.push(owner);
        Ok(())
    }

    /// Inserts all of `players`, or refuses them and changes nothing.
    pub fn insert_players(&mut self, players: &Vec<Player>) -> (outcome: Result<(), StoreError>)
        ensures
            match old(self)@.insert_players(players@) {
                Ok(tables) => outcome is Ok && final(self)@ == tables,
                Err(error) => outcome matches Err(e) && e@ == error && final(self)@ == old(self)@,
            },
    {
        let before = copy_plain(&self.players);
        let ghost start = self@;
        let mut i: usize = 0;
        assert(players@.skip(0) =~= players@);
        while i < players.len()
            invariant
                i <= players.len(),
                start.insert_players(players@) == self@.insert_players(players@.skip(i as int)),
                self@.leagues == start.leagues,
                self@.rulesets == start.rulesets,
                self@.teams == start.teams,
                self@.owners == start.owners,
                before@ == start.players,
                start == old(self)@,
            decreases players.len() - i,
        {
            assert(players@.skip(i as int)[0] == players@[i as int]);
            assert(players@.skip(i as int).drop_first() =~= players@.skip(i + 1));
            match self.insert_player(players[i]) {
                Ok(()) => {},
                Err(e) => {
                    self.players = before;
                    return Err(e);
                },
            }
            i += 1;
        }
        Ok(())
    }

    /// Inserts all of `owners`, or refuses them and changes nothing.
    pub fn insert_owners(&mut self, owners: &Vec<Owner>) -> (outcome: Result<(), StoreError>)
        ensures
            match old(self)@.insert_owners(owners@) {
                Ok(tables) => outcome is Ok && final(self)@ == tables,
                Err(error) => outcome matches Err(e) && e@ == error && final(self)@ == old(self)@,
            },
    {
        let before = copy_plain(&self.owners);
        let ghost start = self@;
        let mut i: usize = 0;
        assert(owners@.skip(0) =~= owners@);
        while i < owners.len()
            invariant
                i <= owners.len(),
                start.insert_owners(owners@) == self@.insert_owners(owners@.skip(i as int)),
                self@.leagues == start.leagues,
                self@.rulesets == start.rulesets,
                self@.teams == start.teams,
                self@.players == start.players,
                before@ == start.owners,
                start == old(self)@,
            decreases owners.len() - i,
        {
            assert(owners@.skip(i as int)[0] == owners@[i as int]);
            assert(owners@.skip(i as int).drop_first() =~= owners@.skip(i + 1));
            match self.insert_owner(owners[i]) {
                Ok(()) => {},
                Err(e) => {
                    self.owners = before;
                    return Err(e);
                },
            }
            i += 1;
        }
        Ok(())
    }
}

} // verus!
