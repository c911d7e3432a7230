//! What the statements keep: the keys, checks and references of the
//! tables, and the pairing of every league with its ruleset.

use crate::ids::Uuid;
use crate::models::leagues::{LeagueView, Ruleset, UpdateRuleset};
use crate::models::teams::{Owner, Player, TeamView};
use crate::rows::lemma_filter_rows;
use crate::schema::{
    first_league, first_ruleset_of, league_other_than, league_row_ok, league_updated,
    ruleset_of_other_league, ruleset_updated, team_row_ok, Tables,
};
use vstd::prelude::*;

verus! {

/// Where the first league with an id stands: before it no league has the
/// id, and it is past the end exactly where none has.
pub proof fn lemma_first_league(leagues: Seq<LeagueView>, id: Uuid)
    ensures
        0 <= first_league(leagues, id) <= leagues.len(),
        first_league(leagues, id) < leagues.len() ==> leagues[first_league(leagues, id)].id == id,
        forall|j: int| 0 <= j < first_league(leagues, id) ==> (#[trigger] leagues[j]).id != id,
    decreases leagues.len(),
{
    if leagues.len() > 0 && leagues[0].id != id {
        let rest = leagues.drop_first();
        lemma_first_league(rest, id);
        assert forall|j: int| 0 <= j < first_league(leagues, id) implies (#[trigger] leagues[j]).id
            != id by {
            if j > 0 {
                assert(rest[j - 1] == leagues[j]);
            }
        }
    }
}

/// Where the first ruleset of a league stands: before it no ruleset
/// belongs to the league, and it is past the end exactly where none does.
pub proof fn lemma_first_ruleset_of(rulesets: Seq<Ruleset>, league_id: Uuid)
    ensures
        0 <= first_ruleset_of(rulesets, league_id) <= rulesets.len(),
        first_ruleset_of(rulesets, league_id) < rulesets.len() ==> rulesets[first_ruleset_of(
            rulesets,
            league_id,
        )].league_id == league_id,
        forall|j: int|
            0 <= j < first_ruleset_of(rulesets, league_id) ==> (#[trigger] rulesets[j]).league_id
                != league_id,
    decreases rulesets.len(),
{
    if rulesets.len() > 0 && rulesets[0].league_id != league_id {
        let rest = rulesets.drop_first();
        lemma_first_ruleset_of(rest, league_id);
        assert forall|j: int| 0 <= j < first_ruleset_of(rulesets, league_id) implies (
        #[trigger] rulesets[j]).league_id != league_id by {
            if j > 0 {
                assert(rest[j - 1] == rulesets[j]);
            }
        }
    }
}

/// Rows that differ in a key still do after a filter.
pub proof fn lemma_filter_distinct<T, K>(
    rows: Seq<T>,
    keep: spec_fn(T) -> bool,
    key: spec_fn(T) -> K,
)
    requires
        forall|i: int, j: int|
            0 <= i < j < rows.len() ==> key(#[trigger] rows[i]) != key(#[trigger] rows[j]),
    ensures
        forall|i: int, j: int|
            0 <= i < j < rows.filter(keep).len() ==> key(#[trigger] rows.filter(keep)[i]) != key(
                #[trigger] rows.filter(keep)[j],
            ),
    decreases rows.len(),
{
    reveal(Seq::filter);
    if rows.len() > 0 {
        let front = rows.drop_last();
        assert forall|i: int, j: int| 0 <= i < j < front.len() implies key(#[trigger] front[i])
            != key(#[trigger] front[j]) by {
            assert(front[i] == rows[i] && front[j] == rows[j]);
        }
        lemma_filter_distinct(front, keep, key);
        lemma_filter_rows(front, keep);
        let kept = rows.filter(keep);
        let kept_front = front.filter(keep);
        assert forall|i: int, j: int| 0 <= i < j < kept.len() implies key(#[trigger] kept[i])
            != key(#[trigger] kept[j]) by {
            if j < kept_front.len() {
                assert(kept[i] == kept_front[i] && kept[j] == kept_front[j]);
            } else {
                let x = kept_front[i];
                assert(kept[i] == x);
                assert(front.contains(x));
                let a = choose|a: int| 0 <= a < front.len() && front[a] == x;
                assert(rows[a] == x);
                assert(kept[j] == rows[rows.len() - 1]);
            }
        }
    }
}

/// Every league that was there is there after one more is added, and so
/// is the one added.
pub proof fn lemma_league_added(before: Tables, after: Tables, league: LeagueView)
    requires
        after.leagues == before.leagues.push(league),
    ensures
        after.has_league(league.id),
        forall|id: Uuid| #[trigger] before.has_league(id) ==> after.has_league(id),
        forall|id: Uuid| #[trigger] after.has_league(id) ==> before.has_league(id) || id == league.id,
{
    assert(after.leagues[before.leagues.len() as int].id == league.id);
    assert forall|id: Uuid| #[trigger] before.has_league(id) implies after.has_league(id) by {
        let w = choose|w: int| 0 <= w < before.leagues.len() && (#[trigger] before.leagues[w]).id == id;
        assert(after.leagues[w].id == id);
    }
    assert forall|id: Uuid| #[trigger] after.has_league(id) implies before.has_league(id) || id
        == league.id by {
        let w = choose|w: int| 0 <= w < after.leagues.len() && (#[trigger] after.leagues[w]).id == id;
        if w < before.leagues.len() {
            assert(before.leagues[w].id == id);
        }
    }
}

/// Every team that was there is there after one more is added, and so is
/// the one added.
pub proof fn lemma_team_added(before: Tables, after: Tables, team: TeamView)
    requires
        after.teams == before.teams.push(team),
    ensures
        after.has_team(team.id),
        forall|id: Uuid| #[trigger] before.has_team(id) ==> after.has_team(id),
{
    assert(after.teams[before.teams.len() as int].id == team.id);
    assert forall|id: Uuid| #[trigger] before.has_team(id) implies after.has_team(id) by {
        let w = choose|w: int| 0 <= w < before.teams.len() && (#[trigger] before.teams[w]).id == id;
        assert(after.teams[w].id == id);
    }
}

/// The leagues keep their ids through an update.
pub proof fn lemma_league_changed(before: Tables, after: Tables, changes: LeagueView)
    requires
        after.leagues == before.leagues.map_values(league_updated(changes)),
    ensures
        forall|i: int| 0 <= i < before.leagues.len() ==> (#[trigger] after.leagues[i]).id == before.leagues[i].id,
        forall|id: Uuid| #[trigger] before.has_league(id) <==> after.has_league(id),
{
    assert forall|id: Uuid| #[trigger] before.has_league(id) <==> after.has_league(id) by {
        if before.has_league(id) {
            let w = choose|w: int| 0 <= w < before.leagues.len() && (#[trigger] before.leagues[w]).id == id;
            assert(after.leagues[w].id == id);
        }
        if after.has_league(id) {
            let w = choose|w: int| 0 <= w < after.leagues.len() && (#[trigger] after.leagues[w]).id == id;
            assert(before.leagues[w].id == id);
        }
    }
}

/// The rulesets keep their ids and their leagues through an update.
pub proof fn lemma_ruleset_changed(before: Tables, after: Tables, id: Uuid, changes: UpdateRuleset)
    requires
        after.rulesets == before.rulesets.map_values(ruleset_updated(id, changes)),
    ensures
        after.rulesets.len() == before.rulesets.len(),
        forall|i: int|
            0 <= i < before.rulesets.len() ==> (#[trigger] after.rulesets[i]).id
                == before.rulesets[i].id && after.rulesets[i].league_id
                == before.rulesets[i].league_id,
        forall|league_id: Uuid| #[trigger]
            before.has_ruleset_of(league_id) <==> after.has_ruleset_of(league_id),
{
    assert forall|league_id: Uuid| #[trigger]
        before.has_ruleset_of(league_id) <==> after.has_ruleset_of(league_id) by {
        if before.has_ruleset_of(league_id) {
            let w = choose|w: int|
                0 <= w < before.rulesets.len() && (#[trigger] before.rulesets[w]).league_id
                    == league_id;
            assert(after.rulesets[w].league_id == league_id);
        }
        if after.has_ruleset_of(league_id) {
            let w = choose|w: int|
                0 <= w < after.rulesets.len() && (#[trigger] after.rulesets[w]).league_id
                    == league_id;
            assert(before.rulesets[w].league_id == league_id);
        }
    }
}

/// After the leagues with one id are removed, the others are all there
/// and that one is not.
pub proof fn lemma_league_removed(before: Tables, after: Tables, id: Uuid)
    requires
        after.leagues == before.leagues.filter(league_other_than(id)),
    ensures
        !after.has_league(id),
        forall|other: Uuid| other != id && #[trigger] before.has_league(other) ==> after.has_league(other),
        forall|i: int| 0 <= i < after.leagues.len() ==> before.leagues.contains(#[trigger] after.leagues[i]),
{
    lemma_filter_rows(before.leagues, league_other_than(id));
    assert forall|other: Uuid| other != id && #[trigger] before.has_league(other) implies after.has_league(other) by {
        let w = choose|w: int| 0 <= w < before.leagues.len() && (#[trigger] before.leagues[w]).id == other;
        assert(after.leagues.contains(before.leagues[w]));
        let v = choose|v: int| 0 <= v < after.leagues.len() && after.leagues[v] == before.leagues[w];
        assert(after.leagues[v].id == other);
    }
    if after.has_league(id) {
        let w = choose|w: int| 0 <= w < after.leagues.len() && (#[trigger] after.leagues[w]).id == id;
        assert(league_other_than(id)(after.leagues[w]));
    }
}

/// After the rulesets of one league are removed, those of the others are
/// all there and none of that league is.
pub proof fn lemma_rulesets_removed(before: Tables, after: Tables, league_id: Uuid)
    requires
        after.rulesets == before.rulesets.filter(ruleset_of_other_league(league_id)),
    ensures
        !after.has_ruleset_of(league_id),
        forall|other: Uuid|
            other != league_id && #[trigger] before.has_ruleset_of(other) ==> after.has_ruleset_of(
                other,
            ),
        forall|i: int|
            0 <= i < after.rulesets.len() ==> before.rulesets.contains(#[trigger] after.rulesets[i])
                && after.rulesets[i].league_id != league_id,
{
    lemma_filter_rows(before.rulesets, ruleset_of_other_league(league_id));
    assert forall|other: Uuid|
        other != league_id && #[trigger] before.has_ruleset_of(other) implies after.has_ruleset_of(
        other,
    ) by {
        let w = choose|w: int|
            0 <= w < before.rulesets.len() && (#[trigger] before.rulesets[w]).league_id == other;
        assert(after.rulesets.contains(before.rulesets[w]));
        let v = choose|v: int|
            0 <= v < after.rulesets.len() && after.rulesets[v] == before.rulesets[w];
        assert(after.rulesets[v].league_id == other);
    }
    if after.has_ruleset_of(league_id) {
        let w = choose|w: int|
            0 <= w < after.rulesets.len() && (#[trigger] after.rulesets[w]).league_id == league_id;
        assert(ruleset_of_other_league(league_id)(after.rulesets[w]));
    }
    assert forall|i: int| 0 <= i < after.rulesets.len() implies before.rulesets.contains(
        #[trigger] after.rulesets[i],
    ) && after.rulesets[i].league_id != league_id by {
        assert(ruleset_of_other_league(league_id)(after.rulesets[i]));
    }
}

/// Tables with the same leagues have the same league ids.
pub proof fn lemma_same_leagues(a: Tables, b: Tables)
    requires
        a.leagues == b.leagues,
    ensures
        forall|id: Uuid| #[trigger] a.has_league(id) == b.has_league(id),
{
    assert forall|id: Uuid| #[trigger] a.has_league(id) == b.has_league(id) by {
        if a.has_league(id) {
            let w = choose|w: int| 0 <= w < a.leagues.len() && (#[trigger] a.leagues[w]).id == id;
            assert(b.leagues[w].id == id);
        }
        if b.has_league(id) {
            let w = choose|w: int| 0 <= w < b.leagues.len() && (#[trigger] b.leagues[w]).id == id;
            assert(a.leagues[w].id == id);
        }
    }
}

/// Tables with the same teams have the same team ids.
pub proof fn lemma_same_teams(a: Tables, b: Tables)
    requires
        a.teams == b.teams,
    ensures
        forall|id: Uuid| #[trigger] a.has_team(id) == b.has_team(id),
{
    assert forall|id: Uuid| #[trigger] a.has_team(id) == b.has_team(id) by {
        if a.has_team(id) {
            let w = choose|w: int| 0 <= w < a.teams.len() && (#[trigger] a.teams[w]).id == id;
            assert(b.teams[w].id == id);
        }
        if b.has_team(id) {
            let w = choose|w: int| 0 <= w < b.teams.len() && (#[trigger] b.teams[w]).id == id;
            assert(a.teams[w].id == id);
        }
    }
}

/// Tables with the same rulesets have rulesets of the same leagues.
pub proof fn lemma_same_rulesets(a: Tables, b: Tables)
    requires
        a.rulesets == b.rulesets,
    ensures
        forall|id: Uuid| #[trigger] a.has_ruleset_of(id) == b.has_ruleset_of(id),
{
    assert forall|id: Uuid| #[trigger] a.has_ruleset_of(id) == b.has_ruleset_of(id) by {
        if a.has_ruleset_of(id) {
            let w = choose|w: int|
                0 <= w < a.rulesets.len() && (#[trigger] a.rulesets[w]).league_id == id;
            assert(b.rulesets[w].league_id == id);
        }
        if b.has_ruleset_of(id) {
            let w = choose|w: int|
                0 <= w < b.rulesets.len() && (#[trigger] b.rulesets[w]).league_id == id;
            assert(a.rulesets[w].league_id == id);
        }
    }
}

/// The tables keep their constraints when a league is inserted.
pub proof fn lemma_insert_league_valid(before: Tables, league: LeagueView)
    requires
        before.valid(),
        before.insert_league(league) is Ok,
    ensures
        before.insert_league(league)->Ok_0.valid(),
{
    let after = before.insert_league(league)->Ok_0;
    lemma_league_added(before, after, league);
    assert forall|i: int, j: int| 0 <= i < j < after.leagues.len() implies (
    #[trigger] after.leagues[i]).id != (#[trigger] after.leagues[j]).id by {
        assert(after.leagues[i] == before.leagues[i]);
        if j < before.leagues.len() {
            assert(after.leagues[j] == before.leagues[j]);
        }
    }
    assert forall|i: int| 0 <= i < after.leagues.len() implies league_row_ok(
        #[trigger] after.leagues[i],
    ) by {
        if i < before.leagues.len() {
            assert(after.leagues[i] == before.leagues[i]);
        }
    }
    assert(after.keys_unique());
    assert(after.rows_checked());
    assert forall|i: int| 0 <= i < after.rulesets.len() implies after.has_league(
        (#[trigger] after.rulesets[i]).league_id,
    ) by {
        assert(before.has_league(before.rulesets[i].league_id));
    }
    assert forall|i: int| 0 <= i < after.teams.len() implies after.has_league(
        (#[trigger] after.teams[i]).league_id,
    ) by {
        assert(before.has_league(before.teams[i].league_id));
    }
    assert forall|i: int| 0 <= i < after.players.len() implies after.has_team(
        (#[trigger] after.players[i]).team_id,
    ) by {
        assert(before.has_team(before.players[i].team_id));
    }
    assert forall|i: int| 0 <= i < after.owners.len() implies after.has_team(
        (#[trigger] after.owners[i]).team_id,
    ) by {
        assert(before.has_team(before.owners[i].team_id));
    }
}

/// The tables keep their constraints when a ruleset is inserted.
pub proof fn lemma_insert_ruleset_valid(before: Tables, ruleset: Ruleset)
    requires
        before.valid(),
        before.insert_ruleset(ruleset) is Ok,
    ensures
        before.insert_ruleset(ruleset)->Ok_0.valid(),
{
    let after = before.insert_ruleset(ruleset)->Ok_0;
    lemma_same_leagues(before, after);
    lemma_same_teams(before, after);
    assert(after.rows_checked());
    assert forall|i: int| 0 <= i < after.teams.len() implies after.has_league(
        (#[trigger] after.teams[i]).league_id,
    ) by {
        assert(before.has_league(before.teams[i].league_id));
    }
    assert forall|i: int| 0 <= i < after.players.len() implies after.has_team(
        (#[trigger] after.players[i]).team_id,
    ) by {
        assert(before.has_team(before.players[i].team_id));
    }
    assert forall|i: int| 0 <= i < after.owners.len() implies after.has_team(
        (#[trigger] after.owners[i]).team_id,
    ) by {
        assert(before.has_team(before.owners[i].team_id));
    }
    assert forall|i: int, j: int| 0 <= i < j < after.rulesets.len() implies (
    #[trigger] after.rulesets[i]).id != (#[trigger] after.rulesets[j]).id && after.rulesets[i].league_id
        != after.rulesets[j].league_id by {
        assert(after.rulesets[i] == before.rulesets[i]);
        if j < before.rulesets.len() {
            assert(after.rulesets[j] == before.rulesets[j]);
        }
    }
    assert(after.keys_unique());
    assert forall|i: int| 0 <= i < after.rulesets.len() implies after.has_league(
        (#[trigger] after.rulesets[i]).league_id,
    ) by {
        if i < before.rulesets.len() {
            assert(before.has_league(before.rulesets[i].league_id));
        }
    }
}

/// The tables keep their constraints when a ruleset takes new values.
pub proof fn lemma_update_ruleset_valid(before: Tables, id: Uuid, changes: UpdateRuleset)
    requires
        before.valid(),
    ensures
        before.update_ruleset(id, changes).valid(),
{
    let after = before.update_ruleset(id, changes);
    lemma_ruleset_changed(before, after, id, changes);
    lemma_same_leagues(before, after);
    lemma_same_teams(before, after);
    assert(after.rows_checked());
    assert forall|i: int| 0 <= i < after.teams.len() implies after.has_league(
        (#[trigger] after.teams[i]).league_id,
    ) by {
        assert(before.has_league(before.teams[i].league_id));
    }
    assert forall|i: int| 0 <= i < after.players.len() implies after.has_team(
        (#[trigger] after.players[i]).team_id,
    ) by {
        assert(before.has_team(before.players[i].team_id));
    }
    assert forall|i: int| 0 <= i < after.owners.len() implies after.has_team(
        (#[trigger] after.owners[i]).team_id,
    ) by {
        assert(before.has_team(before.owners[i].team_id));
    }
    assert forall|i: int, j: int| 0 <= i < j < after.rulesets.len() implies (
    #[trigger] after.rulesets[i]).id != (#[trigger] after.rulesets[j]).id && after.rulesets[i].league_id
        != after.rulesets[j].league_id by {
        assert(before.rulesets[i].id != before.rulesets[j].id);
        assert(before.rulesets[i].league_id != before.rulesets[j].league_id);
    }
    assert(after.keys_unique());
    assert forall|i: int| 0 <= i < after.rulesets.len() implies after.has_league(
        (#[trigger] after.rulesets[i]).league_id,
    ) by {
        assert(before.has_league(before.rulesets[i].league_id));
    }
}

/// The tables keep their constraints when a league takes new values.
pub proof fn lemma_update_league_valid(before: Tables, changes: LeagueView)
    requires
        before.valid(),
        before.update_league(changes) is Ok,
    ensures
        before.update_league(changes)->Ok_0.valid(),
{
    let after = before.update_league(changes)->Ok_0;
    lemma_league_changed(before, after, changes);
    lemma_same_teams(before, after);
    assert forall|i: int| 0 <= i < after.players.len() implies after.has_team(
        (#[trigger] after.players[i]).team_id,
    ) by {
        assert(before.has_team(before.players[i].team_id));
    }
    assert forall|i: int| 0 <= i < after.owners.len() implies after.has_team(
        (#[trigger] after.owners[i]).team_id,
    ) by {
        assert(before.has_team(before.owners[i].team_id));
    }
    assert forall|i: int, j: int| 0 <= i < j < after.leagues.len() implies (
    #[trigger] after.leagues[i]).id != (#[trigger] after.leagues[j]).id by {
        assert(before.leagues[i].id != before.leagues[j].id);
    }
    assert(after.keys_unique());
    assert forall|i: int| 0 <= i < after.leagues.len() implies league_row_ok(
        #[trigger] after.leagues[i],
    ) by {
        assert(league_row_ok(before.leagues[i]));
        if before.leagues[i].id == changes.id {
            assert(before.has_league(changes.id));
        }
    }
    assert(after.rows_checked());
    assert forall|i: int| 0 <= i < after.rulesets.len() implies after.has_league(
        (#[trigger] after.rulesets[i]).league_id,
    ) by {
        assert(before.has_league(before.rulesets[i].league_id));
    }
    assert forall|i: int| 0 <= i < after.teams.len() implies after.has_league(
        (#[trigger] after.teams[i]).league_id,
    ) by {
        assert(before.has_league(before.teams[i].league_id));
    }
}

/// The tables keep their constraints when the rulesets of a league are
/// removed.
pub proof fn lemma_delete_rulesets_valid(before: Tables, league_id: Uuid)
    requires
        before.valid(),
    ensures
        before.delete_rulesets_of(league_id).valid(),
{
    let after = before.delete_rulesets_of(league_id);
    lemma_rulesets_removed(before, after, league_id);
    lemma_same_leagues(before, after);
    lemma_same_teams(before, after);
    assert(after.rows_checked());
    assert forall|i: int| 0 <= i < after.teams.len() implies after.has_league(
        (#[trigger] after.teams[i]).league_id,
    ) by {
        assert(before.has_league(before.teams[i].league_id));
    }
    assert forall|i: int| 0 <= i < after.players.len() implies after.has_team(
        (#[trigger] after.players[i]).team_id,
    ) by {
        assert(before.has_team(before.players[i].team_id));
    }
    assert forall|i: int| 0 <= i < after.owners.len() implies after.has_team(
        (#[trigger] after.owners[i]).team_id,
    ) by {
        assert(before.has_team(before.owners[i].team_id));
    }
    lemma_filter_distinct(
        before.rulesets,
        ruleset_of_other_league(league_id),
        |r: Ruleset| r.id,
    );
    lemma_filter_distinct(
        before.rulesets,
        ruleset_of_other_league(league_id),
        |r: Ruleset| r.league_id,
    );
    assert(after.keys_unique());
    assert forall|i: int| 0 <= i < after.rulesets.len() implies after.has_league(
        (#[trigger] after.rulesets[i]).league_id,
    ) by {
        let row = after.rulesets[i];
        assert(before.rulesets.contains(row));
        let w = choose|w: int| 0 <= w < before.rulesets.len() && before.rulesets[w] == row;
        assert(before.has_league(before.rulesets[w].league_id));
    }
}

/// The tables keep their constraints when a league is removed.
pub proof fn lemma_delete_league_valid(before: Tables, id: Uuid)
    requires
        before.valid(),
        before.delete_league(id) is Ok,
    ensures
        before.delete_league(id)->Ok_0.valid(),
{
    let after = before.delete_league(id)->Ok_0;
    lemma_league_removed(before, after, id);
    lemma_same_teams(before, after);
    assert forall|i: int| 0 <= i < after.players.len() implies after.has_team(
        (#[trigger] after.players[i]).team_id,
    ) by {
        assert(before.has_team(before.players[i].team_id));
    }
    assert forall|i: int| 0 <= i < after.owners.len() implies after.has_team(
        (#[trigger] after.owners[i]).team_id,
    ) by {
        assert(before.has_team(before.owners[i].team_id));
    }
    lemma_filter_distinct(before.leagues, league_other_than(id), |l: LeagueView| l.id);
    assert(after.keys_unique());
    assert forall|i: int| 0 <= i < after.leagues.len() implies league_row_ok(
        #[trigger] after.leagues[i],
    ) by {
        let row = after.leagues[i];
        assert(before.leagues.contains(row));
        let w = choose|w: int| 0 <= w < before.leagues.len() && before.leagues[w] == row;
        assert(league_row_ok(before.leagues[w]));
    }
    assert(after.rows_checked());
    assert forall|i: int| 0 <= i < after.rulesets.len() implies after.has_league(
        (#[trigger] after.rulesets[i]).league_id,
    ) by {
        let k = before.rulesets[i].league_id;
        assert(before.has_league(k));
        if k == id {
            assert(before.has_ruleset_of(id));
        }
    }
    assert forall|i: int| 0 <= i < after.teams.len() implies after.has_league(
        (#[trigger] after.teams[i]).league_id,
    ) by {
        let k = before.teams[i].league_id;
        assert(before.has_league(k));
        if k == id {
            assert(before.has_team_of(id));
        }
    }
}

/// The tables keep their constraints when a team is inserted.
pub proof fn lemma_insert_team_valid(before: Tables, team: TeamView)
    requires
        before.valid(),
        before.insert_team(team) is Ok,
    ensures
        before.insert_team(team)->Ok_0.valid(),
{
    let after = before.insert_team(team)->Ok_0;
    lemma_team_added(before, after, team);
    lemma_same_leagues(before, after);
    assert forall|i: int, j: int| 0 <= i < j < after.teams.len() implies (
    #[trigger] after.teams[i]).id != (#[trigger] after.teams[j]).id by {
        assert(after.teams[i] == before.teams[i]);
        if j < before.teams.len() {
            assert(after.teams[j] == before.teams[j]);
        }
    }
    assert(after.keys_unique());
    assert forall|i: int| 0 <= i < after.teams.len() implies team_row_ok(#[trigger] after.teams[i]) by {
        if i < before.teams.len() {
            assert(after.teams[i] == before.teams[i]);
        }
    }
    assert(after.rows_checked());
    assert forall|i: int| 0 <= i < after.teams.len() implies after.has_league(
        (#[trigger] after.teams[i]).league_id,
    ) by {
        if i < before.teams.len() {
            assert(before.has_league(before.teams[i].league_id));
        }
    }
    assert forall|i: int| 0 <= i < after.players.len() implies after.has_team(
        (#[trigger] after.players[i]).team_id,
    ) by {
        assert(before.has_team(before.players[i].team_id));
    }
    assert forall|i: int| 0 <= i < after.owners.len() implies after.has_team(
        (#[trigger] after.owners[i]).team_id,
    ) by {
        assert(before.has_team(before.owners[i].team_id));
    }
}

/// The tables keep their constraints when a player is inserted.
pub proof fn lemma_insert_player_valid(before: Tables, player: Player)
    requires
        before.valid(),
        before.insert_player(player) is Ok,
    ensures
        before.insert_player(player)->Ok_0.valid(),
{
    let after = before.insert_player(player)->Ok_0;
    lemma_same_teams(before, after);
    lemma_same_leagues(before, after);
    assert(after.rows_checked());
    assert forall|i: int| 0 <= i < after.rulesets.len() implies after.has_league(
        (#[trigger] after.rulesets[i]).league_id,
    ) by {
        assert(before.has_league(before.rulesets[i].league_id));
    }
    assert forall|i: int| 0 <= i < after.teams.len() implies after.has_league(
        (#[trigger] after.teams[i]).league_id,
    ) by {
        assert(before.has_league(before.teams[i].league_id));
    }
    assert forall|i: int| 0 <= i < after.owners.len() implies after.has_team(
        (#[trigger] after.owners[i]).team_id,
    ) by {
        assert(before.has_team(before.owners[i].team_id));
    }
    assert forall|i: int, j: int| 0 <= i < j < after.players.len() implies (
    #[trigger] after.players[i]).id != (#[trigger] after.players[j]).id by {
        assert(after.players[i] == before.players[i]);
        if j < before.players.len() {
            assert(after.players[j] == before.players[j]);
        }
    }
    assert(after.keys_unique());
    assert forall|i: int| 0 <= i < after.players.len() implies after.has_team(
        (#[trigger] after.players[i]).team_id,
    ) by {
        if i < before.players.len() {
            assert(before.has_team(before.players[i].team_id));
        }
    }
}

/// The tables keep their constraints when an owner is inserted.
pub proof fn lemma_insert_owner_valid(before: Tables, owner: Owner)
    requires
        before.valid(),
        before.insert_owner(owner) is Ok,
    ensures
        before.insert_owner(owner)->Ok_0.valid(),
{
    let after = before.insert_owner(owner)->Ok_0;
    lemma_same_teams(before, after);
    lemma_same_leagues(before, after);
    assert(after.rows_checked());
    assert forall|i: int| 0 <= i < after.rulesets.len() implies after.has_league(
        (#[trigger] after.rulesets[i]).league_id,
    ) by {
        assert(before.has_league(before.rulesets[i].league_id));
    }
    assert forall|i: int| 0 <= i < after.teams.len() implies after.has_league(
        (#[trigger] after.teams[i]).league_id,
    ) by {
        assert(before.has_league(before.teams[i].league_id));
    }
    assert forall|i: int| 0 <= i < after.players.len() implies after.has_team(
        (#[trigger] after.players[i]).team_id,
    ) by {
        assert(before.has_team(before.players[i].team_id));
    }
    assert forall|i: int, j: int| 0 <= i < j < after.owners.len() implies (
    #[trigger] after.owners[i]).id != (#[trigger] after.owners[j]).id by {
        assert(after.owners[i] == before.owners[i]);
        if j < before.owners.len() {
            assert(after.owners[j] == before.owners[j]);
        }
    }
    assert(after.keys_unique());
    assert forall|i: int| 0 <= i < after.owners.len() implies after.has_team(
        (#[trigger] after.owners[i]).team_id,
    ) by {
        if i < before.owners.len() {
            assert(before.has_team(before.owners[i].team_id));
        }
    }
}

/// Players that are inserted are added at the end, in their order, and
/// nothing else changes.
pub proof fn lemma_players_appended(before: Tables, players: Seq<Player>)
    requires
        before.insert_players(players) is Ok,
    ensures
        before.insert_players(players)->Ok_0 == (Tables {
            players: before.players + players,
            ..before
        }),
    decreases players.len(),
{
    if players.len() > 0 {
        let next = before.insert_player(players[0])->Ok_0;
        lemma_players_appended(next, players.drop_first());
        assert(before.players.push(players[0]) + players.drop_first() =~= before.players + players);
    } else {
        assert(before.players + players =~= before.players);
    }
}

/// Owners that are inserted are added at the end, in their order, and
/// nothing else changes.
pub proof fn lemma_owners_appended(before: Tables, owners: Seq<Owner>)
    requires
        before.insert_owners(owners) is Ok,
    ensures
        before.insert_owners(owners)->Ok_0 == (Tables {
            owners: before.owners + owners,
            ..before
        }),
    decreases owners.len(),
{
    if owners.len() > 0 {
        let next = before.insert_owner(owners[0])->Ok_0;
        lemma_owners_appended(next, owners.drop_first());
        assert(before.owners.push(owners[0]) + owners.drop_first() =~= before.owners + owners);
    } else {
        assert(before.owners + owners =~= before.owners);
    }
}

/// The tables keep their constraints when players are inserted.
pub proof fn lemma_insert_players_valid(before: Tables, players: Seq<Player>)
    requires
        before.valid(),
        before.insert_players(players) is Ok,
    ensures
        before.insert_players(players)->Ok_0.valid(),
    decreases players.len(),
{
    if players.len() > 0 {
        lemma_insert_player_valid(before, players[0]);
        lemma_insert_players_valid(before.insert_player(players[0])->Ok_0, players.drop_first());
    }
}

/// The tables keep their constraints when owners are inserted.
pub proof fn lemma_insert_owners_valid(before: Tables, owners: Seq<Owner>)
    requires
        before.valid(),
        before.insert_owners(owners) is Ok,
    ensures
        before.insert_owners(owners)->Ok_0.valid(),
    decreases owners.len(),
{
    if owners.len() > 0 {
        lemma_insert_owner_valid(before, owners[0]);
        lemma_insert_owners_valid(before.insert_owner(owners[0])->Ok_0, owners.drop_first());
    }
}

} // verus!
