//! Laws of the league aggregate.

use crate::database::PoolView;
use crate::errors::ApiErrorView;
use crate::ids::Uuid;
use crate::invariants::{
    lemma_first_league, lemma_first_ruleset_of, lemma_league_added, lemma_league_changed,
    lemma_league_removed, lemma_ruleset_changed, lemma_rulesets_removed, lemma_same_leagues,
    lemma_same_rulesets,
};
use crate::managers::leagues::{
    all_found, created, deleted, found, league_not_found, lemma_created_wf, lemma_updated_wf,
    updated,
};
use crate::models::leagues::{
    details_of, LeagueDetailsView, LeagueView, Ruleset, UpdateRuleset,
};
use crate::session::pool_exhausted;
use crate::rows::{lemma_filter_mapped, lemma_filter_none, lemma_filter_rows};
use crate::schema::{
    first_league, first_ruleset_of, join_all, league_row_ok, league_updated, ruleset_of_league,
    ruleset_updated, Tables,
};
use vstd::prelude::*;

verus! {

/// While the pool has a connection to lease, a lookup of an id that no
/// league has ends in `NotFound`.
pub proof fn law_absent_league_is_not_found(pool: PoolView, id: Uuid)
    requires
        pool.leased < pool.capacity,
        !pool.tables.has_league(id),
    ensures
        found(pool, id).result == Err::<LeagueDetailsView, ApiErrorView>(league_not_found(id)),
        found(pool, id).pool == pool,
{
    lemma_first_league(pool.tables.leagues, id);
}

/// With no connection to lease, a lookup ends in that failure whatever
/// the store holds.
pub proof fn law_lookup_needs_a_connection(pool: PoolView, id: Uuid)
    requires
        pool.leased >= pool.capacity,
    ensures
        found(pool, id).result == Err::<LeagueDetailsView, ApiErrorView>(pool_exhausted()),
{
}

/// A creation succeeds exactly where a connection can be leased, the
/// league passes its checks, neither id is taken, and the ruleset belongs
/// to the league.
pub proof fn law_creation_is_accepted(pool: PoolView, league: LeagueView, ruleset: Ruleset)
    requires
        pool.wf(),
    ensures
        created(pool, league, ruleset).result is Ok <==> {
            &&& pool.leased < pool.capacity
            &&& league_row_ok(league)
            &&& !pool.tables.has_league(league.id)
            &&& !pool.tables.has_ruleset(ruleset.id)
            &&& ruleset.league_id == league.id
        },
{
    lemma_created_wf(pool, league, ruleset);
    let before = pool.tables;
    if pool.leased < pool.capacity && league_row_ok(league) && !before.has_league(league.id)
        && !before.has_ruleset(ruleset.id) && ruleset.league_id == league.id {
        let with_league = before.insert_league(league)->Ok_0;
        lemma_league_added(before, with_league, league);
        lemma_same_rulesets(before, with_league);
        if before.has_ruleset_of(league.id) {
            let w = choose|w: int|
                0 <= w < before.rulesets.len() && (#[trigger] before.rulesets[w]).league_id
                    == league.id;
            assert(before.has_league(before.rulesets[w].league_id));
        }
        if with_league.has_ruleset(ruleset.id) {
            let w = choose|w: int|
                0 <= w < with_league.rulesets.len() && (#[trigger] with_league.rulesets[w]).id
                    == ruleset.id;
            assert(before.rulesets[w].id == ruleset.id);
        }
    }
    if created(pool, league, ruleset).result is Ok {
        let with_league = before.insert_league(league)->Ok_0;
        if before.has_ruleset(ruleset.id) {
            let w = choose|w: int|
                0 <= w < before.rulesets.len() && (#[trigger] before.rulesets[w]).id == ruleset.id;
            assert(with_league.rulesets[w].id == ruleset.id);
        }
    }
}

/// A league that has been created is found, and the record found is the
/// one the creation handed back: the fields of the league and the points
/// per mile of the ruleset.
pub proof fn law_created_league_is_found(pool: PoolView, league: LeagueView, ruleset: Ruleset)
    requires
        pool.wf(),
        created(pool, league, ruleset).result is Ok,
    ensures
        created(pool, league, ruleset).result == Ok::<LeagueDetailsView, ApiErrorView>(
            details_of(league, ruleset.points_per_mile),
        ),
        found(created(pool, league, ruleset).pool, league.id).result == created(
            pool,
            league,
            ruleset,
        ).result,
{
    lemma_created_wf(pool, league, ruleset);
    let before = pool.tables;
    let after = created(pool, league, ruleset).pool.tables;
    let at = first_league(after.leagues, league.id);
    lemma_first_league(after.leagues, league.id);
    assert(after.leagues[before.leagues.len() as int].id == league.id);
    if at < before.leagues.len() {
        assert(before.leagues[at].id == league.id);
    }
    assert(at == before.leagues.len());
    let ruleset_at = first_ruleset_of(after.rulesets, league.id);
    lemma_first_ruleset_of(after.rulesets, league.id);
    assert(after.rulesets[before.rulesets.len() as int].league_id == league.id);
    if ruleset_at < before.rulesets.len() {
        assert(before.rulesets[ruleset_at].league_id == league.id);
        assert(before.has_league(before.rulesets[ruleset_at].league_id));
    }
    assert(ruleset_at == before.rulesets.len());
}

/// After a removal has succeeded the league is not found any more, and no
/// ruleset of it is left behind.
pub proof fn law_deleted_league_is_gone(pool: PoolView, id: Uuid)
    requires
        deleted(pool, id).result is Ok,
    ensures
        found(deleted(pool, id).pool, id).result == Err::<LeagueDetailsView, ApiErrorView>(league_not_found(id)),
        deleted(pool, id).pool.tables.rulesets_of(id) == Seq::<Ruleset>::empty(),
        !deleted(pool, id).pool.tables.has_league(id),
        !deleted(pool, id).pool.tables.has_ruleset_of(id),
{
    let before = pool.tables;
    let without_rulesets = before.delete_rulesets_of(id);
    let after = deleted(pool, id).pool.tables;
    lemma_rulesets_removed(before, without_rulesets, id);
    lemma_league_removed(without_rulesets, after, id);
    lemma_same_rulesets(without_rulesets, after);
    law_absent_league_is_not_found(deleted(pool, id).pool, id);
    assert forall|i: int| 0 <= i < after.rulesets.len() implies !ruleset_of_league(id)(
        #[trigger] after.rulesets[i],
    ) by {
        assert(without_rulesets.rulesets[i].league_id != id);
    }
    lemma_filter_none(after.rulesets, ruleset_of_league(id));
}

/// An update done twice with the same values gives the same result both
/// times, and the second leaves the store as the first left it.
pub proof fn law_update_is_idempotent(pool: PoolView, league: LeagueView, changes: UpdateRuleset)
    requires
        pool.wf(),
    ensures
        updated(updated(pool, league, changes).pool, league, changes).result == updated(
            pool,
            league,
            changes,
        ).result,
        updated(updated(pool, league, changes).pool, league, changes).pool == updated(
            pool,
            league,
            changes,
        ).pool,
{
    let first = updated(pool, league, changes);
    if first.result is Ok {
        let before = pool.tables;
        let rows = before.rulesets_of(league.id);
        let id = rows[0].id;
        let change = ruleset_updated(id, changes);
        let with_ruleset = before.update_ruleset(id, changes);
        let with_both = with_ruleset.update_league(league)->Ok_0;
        assert(first.pool.tables == with_both);
        lemma_league_changed(with_ruleset, with_both, league);
        // The second update finds the same ruleset.
        assert forall|row: Ruleset| #[trigger]
            ruleset_of_league(league.id)(change(row)) == ruleset_of_league(league.id)(row) by {}
        lemma_filter_mapped(before.rulesets, change, ruleset_of_league(league.id));
        let again = with_both.rulesets_of(league.id);
        assert(again == rows.map_values(change));
        assert(again[0].id == id);
        // It changes nothing more.
        let twice = with_both.update_ruleset(id, changes);
        assert(twice.rulesets =~= with_both.rulesets);
        assert(twice == with_both);
        assert(with_both.leagues.map_values(league_updated(league)) =~= with_both.leagues);
    }
}

/// A league that has been updated is found with the new values, all of
/// them: those of the league and the points per mile of its ruleset.
pub proof fn law_updated_league_is_found(pool: PoolView, league: LeagueView, changes: UpdateRuleset)
    requires
        pool.wf(),
        updated(pool, league, changes).result is Ok,
    ensures
        updated(pool, league, changes).result == Ok::<LeagueDetailsView, ApiErrorView>(
            details_of(league, changes.points_per_mile),
        ),
        found(updated(pool, league, changes).pool, league.id).result == updated(
            pool,
            league,
            changes,
        ).result,
{
    let before = pool.tables;
    let rows = before.rulesets_of(league.id);
    let id = rows[0].id;
    let with_ruleset = before.update_ruleset(id, changes);
    let after = with_ruleset.update_league(league)->Ok_0;
    lemma_ruleset_changed(before, with_ruleset, id, changes);
    lemma_league_changed(with_ruleset, after, league);
    lemma_same_leagues(before, with_ruleset);
    // The ruleset that was looked up belongs to the league, so the league is there.
    lemma_filter_rows(before.rulesets, ruleset_of_league(league.id));
    assert(ruleset_of_league(league.id)(rows[0]));
    assert(before.rulesets.contains(rows[0]));
    let looked_up = choose|w: int| 0 <= w < before.rulesets.len() && before.rulesets[w] == rows[0];
    assert(before.has_league(before.rulesets[looked_up].league_id));
    // The first league with the id has taken the new values.
    let at = first_league(after.leagues, league.id);
    lemma_first_league(after.leagues, league.id);
    if at >= after.leagues.len() {
        let w = choose|w: int| 0 <= w < after.leagues.len() && (#[trigger] after.leagues[w]).id == league.id;
        assert(false);
    }
    assert(after.leagues[at] == league_updated(league)(with_ruleset.leagues[at]));
    assert(after.leagues[at] == league);
    // Its ruleset is the one that was looked up, with the new points.
    let ruleset_at = first_ruleset_of(after.rulesets, league.id);
    lemma_first_ruleset_of(after.rulesets, league.id);
    assert(after.rulesets[looked_up].league_id == league.id);
    assert(ruleset_at < after.rulesets.len());
    assert(before.rulesets[ruleset_at].league_id == league.id);
    if ruleset_at != looked_up {
        if ruleset_at < looked_up {
            assert(before.rulesets[ruleset_at].league_id != before.rulesets[looked_up].league_id);
        } else {
            assert(before.rulesets[looked_up].league_id != before.rulesets[ruleset_at].league_id);
        }
    }
    assert(after.rulesets[ruleset_at] == ruleset_updated(id, changes)(before.rulesets[ruleset_at]));
}

/// Of two updates of one league, done one after the other, the second is
/// what is found: every field is of the second, none of the first.
pub proof fn law_last_update_wins(
    pool: PoolView,
    first: LeagueView,
    first_changes: UpdateRuleset,
    second: LeagueView,
    second_changes: UpdateRuleset,
)
    requires
        pool.wf(),
        first.id == second.id,
        updated(updated(pool, first, first_changes).pool, second, second_changes).result is Ok,
    ensures
        found(
            updated(updated(pool, first, first_changes).pool, second, second_changes).pool,
            second.id,
        ).result == Ok::<LeagueDetailsView, ApiErrorView>(
            details_of(second, second_changes.points_per_mile),
        ),
{
    lemma_updated_wf(pool, first, first_changes);
    law_updated_league_is_found(updated(pool, first, first_changes).pool, second, second_changes);
}

/// Where every league has a ruleset, the join holds one record for each
/// league, in the order of the leagues.
pub proof fn lemma_join_all(leagues: Seq<LeagueView>, rulesets: Seq<Ruleset>)
    requires
        forall|i: int|
            0 <= i < leagues.len() ==> first_ruleset_of(rulesets, (#[trigger] leagues[i]).id)
                < rulesets.len(),
    ensures
        join_all(leagues, rulesets).len() == leagues.len(),
        forall|i: int|
            0 <= i < leagues.len() ==> #[trigger] join_all(leagues, rulesets)[i] == details_of(
                leagues[i],
                rulesets[first_ruleset_of(rulesets, leagues[i].id)].points_per_mile,
            ),
    decreases leagues.len(),
{
    if leagues.len() > 0 {
        let front = leagues.drop_last();
        assert forall|i: int| 0 <= i < front.len() implies first_ruleset_of(
            rulesets,
            (#[trigger] front[i]).id,
        ) < rulesets.len() by {
            assert(front[i] == leagues[i]);
        }
        lemma_join_all(front, rulesets);
        assert(leagues[leagues.len() - 1] == leagues.last());
    }
}

/// Where every league has its ruleset, the first ruleset of each league
/// is there.
pub proof fn lemma_paired_rulesets(t: Tables)
    requires
        t.paired(),
    ensures
        forall|i: int|
            0 <= i < t.leagues.len() ==> first_ruleset_of(t.rulesets, (#[trigger] t.leagues[i]).id)
                < t.rulesets.len(),
{
    assert forall|i: int| 0 <= i < t.leagues.len() implies first_ruleset_of(
        t.rulesets,
        (#[trigger] t.leagues[i]).id,
    ) < t.rulesets.len() by {
        let id = t.leagues[i].id;
        lemma_first_ruleset_of(t.rulesets, id);
        assert(t.has_ruleset_of(id));
        let w = choose|w: int|
            0 <= w < t.rulesets.len() && (#[trigger] t.rulesets[w]).league_id == id;
        assert(t.rulesets[w].league_id == id);
    }
}

/// Every league is listed: the listing holds one record for each league
/// of the store, in their order and under their ids.
pub proof fn law_every_league_is_listed(pool: PoolView)
    requires
        pool.wf(),
        pool.leased < pool.capacity,
    ensures
        all_found(pool).result matches Ok(all) && all.len() == pool.tables.leagues.len()
            && forall|i: int|
            0 <= i < all.len() ==> (#[trigger] all[i]).id == pool.tables.leagues[i].id,
{
    let t = pool.tables;
    lemma_paired_rulesets(t);
    lemma_join_all(t.leagues, t.rulesets);
}

/// Every league that is listed is found under its id, as the record that
/// the listing holds.
pub proof fn law_listed_league_is_found(pool: PoolView, i: int)
    requires
        pool.wf(),
        pool.leased < pool.capacity,
        0 <= i < pool.tables.leagues.len(),
    ensures
        all_found(pool).result matches Ok(all) && i < all.len() && found(pool, all[i].id).result
            == Ok::<LeagueDetailsView, ApiErrorView>(all[i]),
{
    law_every_league_is_listed(pool);
    let t = pool.tables;
    let id = t.leagues[i].id;
    let at = first_league(t.leagues, id);
    lemma_first_league(t.leagues, id);
    assert(at <= i);
    if at < i {
        assert(t.leagues[at].id != t.leagues[i].id);
    }
    lemma_paired_rulesets(t);
    lemma_join_all(t.leagues, t.rulesets);
    assert(all_found(pool).result->Ok_0[i] == details_of(
        t.leagues[i],
        t.rulesets[first_ruleset_of(t.rulesets, id)].points_per_mile,
    ));
}

} // verus!
