//! The league aggregate: a league and its ruleset, made, changed and
//! removed as one.

use crate::database::{Command, CommandView, Pool, PoolView, Reply, ReplyView};
use crate::errors::{api_error_of, ApiError, ApiErrorView, ErrorKind};
use crate::ids::{hyphenated, Uuid};
use crate::invariants::{
    lemma_delete_league_valid, lemma_delete_rulesets_valid, lemma_insert_league_valid,
    lemma_insert_ruleset_valid, lemma_league_added, lemma_league_changed, lemma_league_removed,
    lemma_ruleset_changed, lemma_rulesets_removed, lemma_same_rulesets, lemma_update_league_valid,
    lemma_update_ruleset_valid,
};
use crate::models::leagues::{
    details_of, League, LeagueDetails, LeagueDetailsView, LeagueView, LeaguesResponse, Ruleset,
    UpdateLeague, UpdateRuleset,
};
use crate::rows::{lemma_filter_rows, views};
use crate::schema::league_other_than;
use crate::session::{
    answered, execution, failure_of, first_statement, gathered, lemma_play_step,
    lemma_run_abandons, lemma_run_closes, lemma_run_opens, nothing, opened, pool_exhausted,
    reply_failure, result_view, run, transaction_open, unexpected, unit_result_view, Progress,
    ProgressView, Request, RequestView, Response, ResponseView, Settled, Slot,
};
use vstd::prelude::*;
use vstd::string::StringExecFns;

verus! {

/// An operation on the league aggregate, with its input.
#[derive(Debug)]
pub enum LeagueOperation {
    /// The joined record of the league with the given id.
    FindWithDetails(Uuid),
    /// The joined records of all leagues.
    GetAllDetails,
    /// Store the league and its ruleset.
    Create(League, Ruleset),
    /// Give the league and its ruleset new values.
    Update(UpdateLeague, UpdateRuleset),
    /// Remove the league with the given id and its ruleset.
    Delete(Uuid),
}

/// A league operation as contracts see it.
pub enum LeagueOperationView {
    FindWithDetails(Uuid),
    GetAllDetails,
    Create(LeagueView, Ruleset),
    Update(LeagueView, UpdateRuleset),
    Delete(Uuid),
}

impl View for LeagueOperation {
    type V = LeagueOperationView;

    open spec fn view(&self) -> LeagueOperationView {
        match self {
            LeagueOperation::FindWithDetails(id) => LeagueOperationView::FindWithDetails(*id),
            LeagueOperation::GetAllDetails => LeagueOperationView::GetAllDetails,
            LeagueOperation::Create(league, ruleset) => LeagueOperationView::Create(
                league@,
                *ruleset,
            ),
            LeagueOperation::Update(league, ruleset) => LeagueOperationView::Update(
                league@,
                *ruleset,
            ),
            LeagueOperation::Delete(id) => LeagueOperationView::Delete(*id),
        }
    }
}

/// The message for a league that is not there.
pub open spec fn league_not_found_text(id: Uuid) -> Seq<char> {
    "League "@ + hyphenated(id.bits) + " not found"@
}

/// The failure for a league that is not there.
pub open spec fn league_not_found(id: Uuid) -> ApiErrorView {
    ApiErrorView { kind: ErrorKind::NotFound, message: league_not_found_text(id) }
}

/// The message for a league without a ruleset.
pub open spec fn ruleset_not_found_text(league_id: Uuid) -> Seq<char> {
    "Ruleset of league "@ + hyphenated(league_id.bits) + " not found"@
}

/// The failure for a league without a ruleset.
pub open spec fn ruleset_not_found(league_id: Uuid) -> ApiErrorView {
    ApiErrorView { kind: ErrorKind::NotFound, message: ruleset_not_found_text(league_id) }
}

/// The failure for a league that is not there.
pub fn not_found(id: Uuid) -> (failure: ApiError)
    ensures
        failure@ == league_not_found(id),
{
    let mut message = "League ".to_owned();
    message.append(id.to_string().as_str());
    message.append(" not found");
    ApiError::NotFound(message)
}

/// The failure for a league without a ruleset.
pub fn no_ruleset(league_id: Uuid) -> (failure: ApiError)
    ensures
        failure@ == ruleset_not_found(league_id),
{
    let mut message = "Ruleset of league ".to_owned();
    message.append(league_id.to_string().as_str());
    message.append(" not found");
    ApiError::NotFound(message)
}

impl LeagueOperationView {
    /// Whether the statements of the operation run in one transaction:
    /// they do where the operation writes.
    pub open spec fn transactional(self) -> bool {
        self is Create || self is Update || self is Delete
    }

    /// The statement of the operation at `slot`, if it has one there.
    ///
    /// A read is one select. A creation inserts the league, then the
    /// ruleset that refers to it. An update looks up the ruleset of the
    /// league, changes that ruleset, then the league. A removal deletes
    /// the rulesets of the league, then the league.
    pub open spec fn statement(self, slot: Slot, progress: ProgressView) -> Option<CommandView> {
        match (self, slot) {
            (LeagueOperationView::FindWithDetails(id), Slot::First) => Some(
                CommandView::SelectLeagueDetails(id),
            ),
            (LeagueOperationView::GetAllDetails, Slot::First) => Some(
                CommandView::SelectAllLeagueDetails,
            ),
            (LeagueOperationView::Create(league, _), Slot::First) => Some(
                CommandView::InsertLeague(league),
            ),
            (LeagueOperationView::Create(_, ruleset), Slot::Second) => Some(
                CommandView::InsertRuleset(ruleset),
            ),
            (LeagueOperationView::Update(league, _), Slot::First) => Some(
                CommandView::SelectRulesetsOfLeague(league.id),
            ),
            (LeagueOperationView::Update(_, changes), Slot::Second) => match progress.ruleset {
                Some(id) => Some(CommandView::UpdateRuleset(id, changes)),
                None => None,
            },
            (LeagueOperationView::Update(league, _), Slot::Third) => Some(
                CommandView::UpdateLeague(league),
            ),
            (LeagueOperationView::Delete(id), Slot::First) => Some(
                CommandView::DeleteRulesetsOfLeague(id),
            ),
            (LeagueOperationView::Delete(id), Slot::Second) => Some(CommandView::DeleteLeague(id)),
            _ => None,
        }
    }

    /// What the operation has gathered once the statement at `slot` is
    /// answered by `reply`, or the failure that ends it.
    ///
    /// A lookup that finds no row is `NotFound`. A refusal by the store is
    /// passed on as the failure it stands for. The response of a creation
    /// and of an update is made of the input, not read back.
    pub open spec fn absorbed(self, slot: Slot, progress: ProgressView, reply: ReplyView) -> Result<
        ProgressView,
        ApiErrorView,
    > {
        match (self, slot, reply) {
            (
                LeagueOperationView::FindWithDetails(id),
                Slot::First,
                ReplyView::LeagueDetails(rows),
            ) => if rows.len() == 0 {
                Err(league_not_found(id))
            } else {
                Ok(ProgressView { response: Some(ResponseView::League(rows[0])), ..progress })
            },
            (LeagueOperationView::GetAllDetails, Slot::First, ReplyView::LeagueDetails(rows)) => Ok(
                ProgressView { response: Some(ResponseView::Leagues(rows)), ..progress },
            ),
            (LeagueOperationView::Create(_, _), Slot::First, ReplyView::Done) => Ok(progress),
            (LeagueOperationView::Create(league, ruleset), Slot::Second, ReplyView::Done) => Ok(
                ProgressView {
                    response: Some(
                        ResponseView::League(details_of(league, ruleset.points_per_mile)),
                    ),
                    ..progress
                },
            ),
            (LeagueOperationView::Update(league, _), Slot::First, ReplyView::Rulesets(rows)) => if rows.len()
                == 0 {
                Err(ruleset_not_found(league.id))
            } else {
                Ok(ProgressView { ruleset: Some(rows[0].id), ..progress })
            },
            (LeagueOperationView::Update(_, _), Slot::Second, ReplyView::Done) => Ok(progress),
            (LeagueOperationView::Update(league, changes), Slot::Third, ReplyView::Done) => Ok(
                ProgressView {
                    response: Some(
                        ResponseView::League(details_of(league, changes.points_per_mile)),
                    ),
                    ..progress
                },
            ),
            (LeagueOperationView::Delete(_), Slot::First, ReplyView::Done) => Ok(progress),
            (LeagueOperationView::Delete(_), Slot::Second, ReplyView::Done) => Ok(
                ProgressView { response: Some(ResponseView::Deleted), ..progress },
            ),
            _ => Err(failure_of(reply)),
        }
    }
}

impl LeagueOperation {
    /// Whether the statements of the operation run in one transaction.
    pub fn transactional(&self) -> (yes: bool)
        ensures
            yes == self@.transactional(),
    {
        match self {
            LeagueOperation::Create(_, _) => true,
            LeagueOperation::Update(_, _) => true,
            LeagueOperation::Delete(_) => true,
            _ => false,
        }
    }

    /// The statement of the operation at `slot`, if it has one there.
    pub fn statement(&self, slot: Slot, progress: &Progress) -> (command: Option<Command>)
        ensures
            match command {
                Some(c) => self@.statement(slot, progress@) == Some(c@),
                None => self@.statement(slot, progress@) is None,
            },
    {
        match (self, slot) {
            (LeagueOperation::FindWithDetails(id), Slot::First) => Some(
                Command::SelectLeagueDetails(*id),
            ),
            (LeagueOperation::GetAllDetails, Slot::First) => Some(Command::SelectAllLeagueDetails),
            (LeagueOperation::Create(league, _), Slot::First) => Some(
                Command::InsertLeague(league.clone()),
            ),
            (LeagueOperation::Create(_, ruleset), Slot::Second) => Some(
                Command::InsertRuleset(*ruleset),
            ),
            (LeagueOperation::Update(league, _), Slot::First) => Some(
                Command::SelectRulesetsOfLeague(league.id),
            ),
            (LeagueOperation::Update(_, changes), Slot::Second) => match progress.ruleset {
                Some(id) => Some(Command::UpdateRuleset(id, *changes)),
                None => None,
            },
            (LeagueOperation::Update(league, _), Slot::Third) => Some(
                Command::UpdateLeague(league.clone()),
            ),
            (LeagueOperation::Delete(id), Slot::First) => Some(Command::DeleteRulesetsOfLeague(*id)),
            (LeagueOperation::Delete(id), Slot::Second) => Some(Command::DeleteLeague(*id)),
            _ => None,
        }
    }

    /// Takes in the reply to the statement at `slot`: what the operation
    /// has gathered then, or the failure that ends it.
    pub fn absorb(&self, slot: Slot, progress: Progress, reply: Reply) -> (gathered: Result<
        Progress,
        ApiError,
    >)
        ensures
            match gathered {
                Ok(p) => self@.absorbed(slot, progress@, reply@) == Ok::<ProgressView, ApiErrorView>(
                    p@,
                ),
                Err(e) => self@.absorbed(slot, progress@, reply@) == Err::<
                    ProgressView,
                    ApiErrorView,
                >(e@),
            },
    {
        match (self, slot, reply) {
            (LeagueOperation::FindWithDetails(id), Slot::First, Reply::LeagueDetails(rows)) => {
                if rows.len() == 0 {
                    Err(not_found(*id))
                } else {
                    let found = rows[0].clone();
                    Ok(Progress { ruleset: progress.ruleset, response: Some(Response::League(found)) })
                }
            },
            (LeagueOperation::GetAllDetails, Slot::First, Reply::LeagueDetails(rows)) => {
                let all = LeaguesResponse::from(rows);
                assert(all@ =~= views(rows@));
                Ok(Progress { ruleset: progress.ruleset, response: Some(Response::Leagues(all)) })
            },
            (LeagueOperation::Create(_, _), Slot::First, Reply::Done) => Ok(progress),
            (LeagueOperation::Create(league, ruleset), Slot::Second, Reply::Done) => {
                let made = league.details(ruleset.points_per_mile);
                Ok(Progress { ruleset: progress.ruleset, response: Some(Response::League(made)) })
            },
            (LeagueOperation::Update(league, _), Slot::First, Reply::Rulesets(rows)) => {
                if rows.len() == 0 {
                    Err(no_ruleset(league.id))
                } else {
                    Ok(Progress { ruleset: Some(rows[0].id), response: progress.response })
                }
            },
            (LeagueOperation::Update(_, _), Slot::Second, Reply::Done) => Ok(progress),
            (LeagueOperation::Update(league, changes), Slot::Third, Reply::Done) => {
                let changed = LeagueDetails {
                    id: league.id,
                    name: league.name.clone(),
                    start: league.start,
                    rounds: league.rounds,
                    current_round: league.current_round,
                    points_per_mile: changes.points_per_mile,
                };
                Ok(Progress { ruleset: progress.ruleset, response: Some(Response::League(changed)) })
            },
            (LeagueOperation::Delete(_), Slot::First, Reply::Done) => Ok(progress),
            (LeagueOperation::Delete(_), Slot::Second, Reply::Done) => Ok(
                Progress { ruleset: progress.ruleset, response: Some(Response::Deleted) },
            ),
            (_, _, reply) => Err(reply_failure(reply)),
        }
    }
}

/// What [`create`] does: with no connection to be had, or with a
/// transaction left open on the store, it fails and leaves the pool as it
/// is; so it does where the store refuses the league or, after it, the
/// ruleset; otherwise both rows are stored and the record made of the two
/// is the result.
pub open spec fn created(pool: PoolView, league: LeagueView, ruleset: Ruleset) -> Settled<
    LeagueDetailsView,
> {
    if pool.leased >= pool.capacity {
        Settled { pool, result: Err(pool_exhausted()) }
    } else if pool.saved is Some {
        Settled { pool, result: Err(transaction_open()) }
    } else {
        match pool.tables.insert_league(league) {
            Err(error) => Settled { pool, result: Err(api_error_of(error)) },
            Ok(with_league) => match with_league.insert_ruleset(ruleset) {
                Err(error) => Settled { pool, result: Err(api_error_of(error)) },
                Ok(with_both) => Settled {
                    pool: PoolView { tables: with_both, ..pool },
                    result: Ok(details_of(league, ruleset.points_per_mile)),
                },
            },
        }
    }
}

/// The run of a creation is what [`created`] says.
pub proof fn lemma_create_runs(pool: PoolView, league: LeagueView, ruleset: Ruleset)
    ensures
        execution(RequestView::League(LeagueOperationView::Create(league, ruleset)), pool).pool
            == created(pool, league, ruleset).pool,
        execution(RequestView::League(LeagueOperationView::Create(league, ruleset)), pool).outcome
            == match created(pool, league, ruleset).result {
            Ok(details) => Ok(ResponseView::League(details)),
            Err(failure) => Err(failure),
        },
{
    let request = RequestView::League(LeagueOperationView::Create(league, ruleset));
    lemma_run_opens(request, pool);
    if pool.leased < pool.capacity && pool.saved is None {
        let connected = opened(pool, true);
        let first = first_statement(request);
        lemma_play_step(first, connected);
        match pool.tables.insert_league(league) {
            Err(error) => {
                lemma_run_abandons(gathered(first.session, nothing()), api_error_of(error), connected);
            },
            Ok(with_league) => {
                let second = first.session.step(ReplyView::Done);
                let halfway = PoolView { tables: with_league, ..connected };
                assert(second.command == Some(CommandView::InsertRuleset(ruleset)));
                lemma_play_step(second, halfway);
                match with_league.insert_ruleset(ruleset) {
                    Err(error) => {
                        lemma_run_abandons(
                            gathered(second.session, nothing()),
                            api_error_of(error),
                            halfway,
                        );
                    },
                    Ok(with_both) => {
                        let made = ResponseView::League(
                            details_of(league, ruleset.points_per_mile),
                        );
                        lemma_run_closes(
                            gathered(second.session, answered(second.session.progress, made)),
                            PoolView { tables: with_both, ..halfway },
                        );
                    },
                }
            },
        }
    }
}


/// What [`find_with_details`] does: the pool stays as it is; with no
/// connection to be had the result is that failure, with no league of
/// that id joined to a ruleset it is `NotFound`, otherwise it is the
/// joined record.
pub open spec fn found(pool: PoolView, id: Uuid) -> Settled<LeagueDetailsView> {
    if pool.leased >= pool.capacity {
        Settled { pool, result: Err(pool_exhausted()) }
    } else {
        let rows = pool.tables.league_details(id);
        if rows.len() == 0 {
            Settled { pool, result: Err(league_not_found(id)) }
        } else {
            Settled { pool, result: Ok(rows[0]) }
        }
    }
}

/// What [`get_all_details`] does: the pool stays as it is; the result is
/// every league joined with its ruleset, in the order of the store.
pub open spec fn all_found(pool: PoolView) -> Settled<Seq<LeagueDetailsView>> {
    if pool.leased >= pool.capacity {
        Settled { pool, result: Err(pool_exhausted()) }
    } else {
        Settled { pool, result: Ok(pool.tables.all_league_details()) }
    }
}

/// What [`update`] does: with no connection to be had, with a transaction
/// left open on the store, with no ruleset of the league, or where the
/// store refuses the new values, it fails and leaves the pool as it is;
/// otherwise the ruleset of the league and the league take the new values,
/// and the record made of them is the result.
pub open spec fn updated(pool: PoolView, league: LeagueView, changes: UpdateRuleset) -> Settled<
    LeagueDetailsView,
> {
    if pool.leased >= pool.capacity {
        Settled { pool, result: Err(pool_exhausted()) }
    } else if pool.saved is Some {
        Settled { pool, result: Err(transaction_open()) }
    } else {
        let rulesets = pool.tables.rulesets_of(league.id);
        if rulesets.len() == 0 {
            Settled { pool, result: Err(ruleset_not_found(league.id)) }
        } else {
            match pool.tables.update_ruleset(rulesets[0].id, changes).update_league(league) {
                Err(error) => Settled { pool, result: Err(api_error_of(error)) },
                Ok(tables) => Settled {
                    pool: PoolView { tables, ..pool },
                    result: Ok(details_of(league, changes.points_per_mile)),
                },
            }
        }
    }
}

/// What [`delete`] does: with no connection to be had, with a transaction
/// left open on the store, or where the store refuses to remove the
/// league, it fails and leaves the pool as it is; otherwise the rulesets of
/// the league and the league are gone.
pub open spec fn deleted(pool: PoolView, id: Uuid) -> Settled<()> {
    if pool.leased >= pool.capacity {
        Settled { pool, result: Err(pool_exhausted()) }
    } else if pool.saved is Some {
        Settled { pool, result: Err(transaction_open()) }
    } else {
        match pool.tables.delete_rulesets_of(id).delete_league(id) {
            Err(error) => Settled { pool, result: Err(api_error_of(error)) },
            Ok(tables) => Settled { pool: PoolView { tables, ..pool }, result: Ok(()) },
        }
    }
}

/// The run of a lookup is what [`found`] says.
pub proof fn lemma_find_runs(pool: PoolView, id: Uuid)
    ensures
        execution(RequestView::League(LeagueOperationView::FindWithDetails(id)), pool).pool
            == found(pool, id).pool,
        execution(RequestView::League(LeagueOperationView::FindWithDetails(id)), pool).outcome
            == match found(pool, id).result {
            Ok(details) => Ok(ResponseView::League(details)),
            Err(failure) => Err(failure),
        },
{
    let request = RequestView::League(LeagueOperationView::FindWithDetails(id));
    lemma_run_opens(request, pool);
    if pool.leased < pool.capacity {
        let connected = opened(pool, false);
        let first = first_statement(request);
        lemma_play_step(first, connected);
        let rows = pool.tables.league_details(id);
        if rows.len() == 0 {
            lemma_run_abandons(gathered(first.session, nothing()), league_not_found(id), connected);
        } else {
            let response = ResponseView::League(rows[0]);
            lemma_run_closes(
                gathered(first.session, answered(first.session.progress, response)),
                connected,
            );
        }
    }
}


/// The run of a listing is what [`all_found`] says.
pub proof fn lemma_get_all_runs(pool: PoolView)
    ensures
        execution(RequestView::League(LeagueOperationView::GetAllDetails), pool).pool == all_found(
            pool,
        ).pool,
        execution(RequestView::League(LeagueOperationView::GetAllDetails), pool).outcome
            == match all_found(pool).result {
            Ok(all) => Ok(ResponseView::Leagues(all)),
            Err(failure) => Err(failure),
        },
{
    let request = RequestView::League(LeagueOperationView::GetAllDetails);
    lemma_run_opens(request, pool);
    if pool.leased < pool.capacity {
        let connected = opened(pool, false);
        let first = first_statement(request);
        lemma_play_step(first, connected);
        let response = ResponseView::Leagues(pool.tables.all_league_details());
        lemma_run_closes(
            gathered(first.session, answered(first.session.progress, response)),
            connected,
        );
    }
}


/// The run of an update is what [`updated`] says.
pub proof fn lemma_update_runs(pool: PoolView, league: LeagueView, changes: UpdateRuleset)
    ensures
        execution(RequestView::League(LeagueOperationView::Update(league, changes)), pool).pool
            == updated(pool, league, changes).pool,
        execution(RequestView::League(LeagueOperationView::Update(league, changes)), pool).outcome
            == match updated(pool, league, changes).result {
            Ok(details) => Ok(ResponseView::League(details)),
            Err(failure) => Err(failure),
        },
{
    let request = RequestView::League(LeagueOperationView::Update(league, changes));
    lemma_run_opens(request, pool);
    if pool.leased < pool.capacity && pool.saved is None {
        let connected = opened(pool, true);
        let first = first_statement(request);
        lemma_play_step(first, connected);
        let rulesets = pool.tables.rulesets_of(league.id);
        if rulesets.len() == 0 {
            lemma_run_abandons(
                gathered(first.session, nothing()),
                ruleset_not_found(league.id),
                connected,
            );
        } else {
            let id = rulesets[0].id;
            let second = first.session.step(ReplyView::Rulesets(rulesets));
            assert(second.command == Some(CommandView::UpdateRuleset(id, changes)));
            lemma_play_step(second, connected);
            let with_ruleset = pool.tables.update_ruleset(id, changes);
            let halfway = PoolView { tables: with_ruleset, ..connected };
            let third = second.session.step(ReplyView::Done);
            assert(third.command == Some(CommandView::UpdateLeague(league)));
            lemma_play_step(third, halfway);
            match with_ruleset.update_league(league) {
                Err(error) => {
                    lemma_run_abandons(
                        gathered(third.session, nothing()),
                        api_error_of(error),
                        halfway,
                    );
                },
                Ok(with_both) => {
                    let made = ResponseView::League(details_of(league, changes.points_per_mile));
                    lemma_run_closes(
                        gathered(third.session, answered(third.session.progress, made)),
                        PoolView { tables: with_both, ..halfway },
                    );
                },
            }
        }
    }
}


/// The run of a removal is what [`deleted`] says.
pub proof fn lemma_delete_runs(pool: PoolView, id: Uuid)
    ensures
        execution(RequestView::League(LeagueOperationView::Delete(id)), pool).pool == deleted(
            pool,
            id,
        ).pool,
        execution(RequestView::League(LeagueOperationView::Delete(id)), pool).outcome
            == match deleted(pool, id).result {
            Ok(_) => Ok(ResponseView::Deleted),
            Err(failure) => Err(failure),
        },
{
    let request = RequestView::League(LeagueOperationView::Delete(id));
    lemma_run_opens(request, pool);
    if pool.leased < pool.capacity && pool.saved is None {
        let connected = opened(pool, true);
        let first = first_statement(request);
        lemma_play_step(first, connected);
        let without_rulesets = pool.tables.delete_rulesets_of(id);
        let halfway = PoolView { tables: without_rulesets, ..connected };
        let second = first.session.step(ReplyView::Done);
        assert(second.command == Some(CommandView::DeleteLeague(id)));
        lemma_play_step(second, halfway);
        match without_rulesets.delete_league(id) {
            Err(error) => {
                lemma_run_abandons(gathered(second.session, nothing()), api_error_of(error), halfway);
            },
            Ok(without_both) => {
                lemma_run_closes(
                    gathered(
                        second.session,
                        answered(second.session.progress, ResponseView::Deleted),
                    ),
                    PoolView { tables: without_both, ..halfway },
                );
            },
        }
    }
}


/// A creation leaves the pool well formed, and where it succeeds the
/// ruleset belongs to the league it was stored with.
pub proof fn lemma_created_wf(pool: PoolView, league: LeagueView, ruleset: Ruleset)
    requires
        pool.wf(),
    ensures
        created(pool, league, ruleset).pool.wf(),
        created(pool, league, ruleset).result is Ok ==> ruleset.league_id == league.id,
{
    if created(pool, league, ruleset).result is Ok {
        let before = pool.tables;
        let with_league = before.insert_league(league)->Ok_0;
        let with_both = with_league.insert_ruleset(ruleset)->Ok_0;
        lemma_insert_league_valid(before, league);
        lemma_insert_ruleset_valid(with_league, ruleset);
        lemma_league_added(before, with_league, league);
        lemma_same_rulesets(before, with_league);
        let k = ruleset.league_id;
        if k != league.id {
            let w = choose|w: int| 0 <= w < before.leagues.len() && (#[trigger] before.leagues[w]).id == k;
            assert(before.has_ruleset_of(before.leagues[w].id));
        }
        assert(with_both.rulesets[with_league.rulesets.len() as int].league_id == league.id);
        assert forall|i: int| 0 <= i < with_both.leagues.len() implies with_both.has_ruleset_of(
            (#[trigger] with_both.leagues[i]).id,
        ) by {
            if i < before.leagues.len() {
                let id = before.leagues[i].id;
                assert(before.has_ruleset_of(id));
                let v = choose|v: int|
                    0 <= v < before.rulesets.len() && (#[trigger] before.rulesets[v]).league_id == id;
                assert(with_both.rulesets[v].league_id == id);
            }
        }
    }
}

/// An update leaves the pool well formed.
pub proof fn lemma_updated_wf(pool: PoolView, league: LeagueView, changes: UpdateRuleset)
    requires
        pool.wf(),
    ensures
        updated(pool, league, changes).pool.wf(),
{
    if updated(pool, league, changes).result is Ok {
        let before = pool.tables;
        let id = before.rulesets_of(league.id)[0].id;
        let with_ruleset = before.update_ruleset(id, changes);
        let with_both = with_ruleset.update_league(league)->Ok_0;
        lemma_update_ruleset_valid(before, id, changes);
        lemma_update_league_valid(with_ruleset, league);
        lemma_ruleset_changed(before, with_ruleset, id, changes);
        lemma_league_changed(with_ruleset, with_both, league);
        lemma_same_rulesets(with_ruleset, with_both);
        assert forall|i: int| 0 <= i < with_both.leagues.len() implies with_both.has_ruleset_of(
            (#[trigger] with_both.leagues[i]).id,
        ) by {
            assert(before.has_ruleset_of(before.leagues[i].id));
        }
    }
}

/// A removal leaves the pool well formed.
pub proof fn lemma_deleted_wf(pool: PoolView, id: Uuid)
    requires
        pool.wf(),
    ensures
        deleted(pool, id).pool.wf(),
{
    if deleted(pool, id).result is Ok {
        let before = pool.tables;
        let without_rulesets = before.delete_rulesets_of(id);
        let without_both = without_rulesets.delete_league(id)->Ok_0;
        lemma_delete_rulesets_valid(before, id);
        lemma_delete_league_valid(without_rulesets, id);
        lemma_rulesets_removed(before, without_rulesets, id);
        lemma_league_removed(without_rulesets, without_both, id);
        lemma_same_rulesets(without_rulesets, without_both);
        assert forall|i: int| 0 <= i < without_both.leagues.len() implies without_both.has_ruleset_of(
            (#[trigger] without_both.leagues[i]).id,
        ) by {
            let row = without_both.leagues[i];
            assert(before.leagues.contains(row));
            let w = choose|w: int| 0 <= w < before.leagues.len() && before.leagues[w] == row;
            assert(before.has_ruleset_of(before.leagues[w].id));
            assert(league_other_than(id)(row)) by {
                lemma_filter_rows(before.leagues, league_other_than(id));
            }
        }
    }
}

/// The league with the id `league_id`, joined with its ruleset.
///
/// Fails with `NotFound` where no league of that id has a ruleset, and
/// with `ConnectionFailure` where the pool has no connection left. The
/// pool is left as it was.
pub fn find_with_details(pool: &mut Pool, league_id: Uuid) -> (result: Result<
    LeagueDetails,
    ApiError,
>)
    ensures
        final(pool)@ == old(pool)@,
        result_view(result) == found(old(pool)@, league_id).result,
{
    proof {
        lemma_find_runs(pool@, league_id);
    }
    match run(pool, Request::League(LeagueOperation::FindWithDetails(league_id))) {
        Ok(Response::League(details)) => Ok(details),
        Ok(_) => Err(unexpected()),
        Err(failure) => Err(failure),
    }
}

/// Every league, joined with its ruleset, in the order of the store.
///
/// Fails with `ConnectionFailure` where the pool has no connection left.
/// The pool is left as it was.
pub fn get_all_details(pool: &mut Pool) -> (result: Result<LeaguesResponse, ApiError>)
    ensures
        final(pool)@ == old(pool)@,
        result_view(result) == all_found(old(pool)@).result,
{
    proof {
        lemma_get_all_runs(pool@);
    }
    match run(pool, Request::League(LeagueOperation::GetAllDetails)) {
        Ok(Response::Leagues(all)) => Ok(all),
        Ok(_) => Err(unexpected()),
        Err(failure) => Err(failure),
    }
}

/// Stores `new_league` and `new_ruleset` together, or neither, and hands
/// back the record made of the two: see [`created`].
pub fn create(pool: &mut Pool, new_league: &League, new_ruleset: &Ruleset) -> (result: Result<
    LeagueDetails,
    ApiError,
>)
    ensures
        old(pool).wf() ==> final(pool).wf(),
        final(pool)@ == created(old(pool)@, new_league@, *new_ruleset).pool,
        result_view(result) == created(old(pool)@, new_league@, *new_ruleset).result,
{
    proof {
        lemma_create_runs(pool@, new_league@, *new_ruleset);
        if pool.wf() {
            lemma_created_wf(pool@, new_league@, *new_ruleset);
        }
    }
    let operation = LeagueOperation::Create(new_league.clone(), *new_ruleset);
    match run(pool, Request::League(operation)) {
        Ok(Response::League(details)) => Ok(details),
        Ok(_) => Err(unexpected()),
        Err(failure) => Err(failure),
    }
}

/// Gives the league with the id of `update_league`, and its ruleset, the
/// new values, both or neither, and hands back the record made of them:
/// see [`updated`].
pub fn update(pool: &mut Pool, update_league: &UpdateLeague, update_ruleset: &UpdateRuleset) -> (result:
    Result<LeagueDetails, ApiError>)
    ensures
        old(pool).wf() ==> final(pool).wf(),
        final(pool)@ == updated(old(pool)@, update_league@, *update_ruleset).pool,
        result_view(result) == updated(old(pool)@, update_league@, *update_ruleset).result,
{
    proof {
        lemma_update_runs(pool@, update_league@, *update_ruleset);
        if pool.wf() {
            lemma_updated_wf(pool@, update_league@, *update_ruleset);
        }
    }
    let operation = LeagueOperation::Update(update_league.clone(), *update_ruleset);
    match run(pool, Request::League(operation)) {
        Ok(Response::League(details)) => Ok(details),
        Ok(_) => Err(unexpected()),
        Err(failure) => Err(failure),
    }
}

/// Removes the league with the id `league_id` and its ruleset, both or
/// neither: see [`deleted`].
pub fn delete(pool: &mut Pool, league_id: Uuid) -> (result: Result<(), ApiError>)
    ensures
        old(pool).wf() ==> final(pool).wf(),
        final(pool)@ == deleted(old(pool)@, league_id).pool,
        unit_result_view(result) == deleted(old(pool)@, league_id).result,
{
    proof {
        lemma_delete_runs(pool@, league_id);
        if pool.wf() {
            lemma_deleted_wf(pool@, league_id);
        }
    }
    match run(pool, Request::League(LeagueOperation::Delete(league_id))) {
        Ok(Response::Deleted) => Ok(()),
        Ok(_) => Err(unexpected()),
        Err(failure) => Err(failure),
    }
}

} // verus!
