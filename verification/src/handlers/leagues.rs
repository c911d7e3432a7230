//! Requests about leagues: to show, to make, to change and to remove
//! them.

use crate::database::Pool;
use crate::errors::{ApiError, ErrorKind};
use crate::ids::{marked_random, Uuid};
use crate::managers::leagues::{
    all_found, create, created, delete, deleted, find_with_details, found, get_all_details, update,
    updated,
};
use crate::session::{result_view, unit_result_view};
use crate::models::leagues::{
    CreateLeagueRequest, League, LeagueDetails, LeagueRequestView, LeagueView, LeaguesResponse,
    NewLeague, NewRuleset, Ruleset, UpdateLeague, UpdateLeagueRequest, UpdateRuleset,
};
use crate::time::{parse_date_time, parse_error_text, parsed_date_time, Timestamp};
use vstd::prelude::*;
use vstd::string::StringExecFns;

verus! {

/// How the start of a league is read: a date, then the time of day.
pub const START_FORMAT: &'static str = "%Y-%m-%d %H:%M:%S";

/// The time of day at which a league starts.
pub const MIDNIGHT: &'static str = " 00:00:00";

/// The start of a league that is given as `date`: midnight of that day,
/// or nothing where the date cannot be read.
pub open spec fn start_of(date: Seq<char>) -> Option<Timestamp> {
    parsed_date_time(date + MIDNIGHT@, START_FORMAT@)
}

/// The league that a request asks to have made: it has the name and the
/// rounds of the request and stands before its first round.
pub open spec fn requested_league(request: LeagueRequestView, id: Uuid, start: Timestamp) -> LeagueView {
    LeagueView { id, name: request.name, start, rounds: request.rounds, current_round: 0 }
}

/// The ruleset that a request asks to have made for the league
/// `league_id`.
pub open spec fn requested_ruleset(request: LeagueRequestView, id: Uuid, league_id: Uuid) -> Ruleset {
    Ruleset { id, points_per_mile: request.points_per_mile, league_id }
}

/// The start of a league that is given as `date`, or `ParseFailure` where
/// the date cannot be read.
pub fn parse_start(date: &str) -> (start: Result<Timestamp, ApiError>)
    ensures
        match start_of(date@) {
            Some(t) => start == Ok::<Timestamp, ApiError>(t),
            None => start matches Err(failure) && failure@.kind == ErrorKind::ParseFailure,
        },
{
    let mut text = date.to_owned();
    text.append(MIDNIGHT);
    match parse_date_time(text.as_str(), START_FORMAT) {
        Ok(t) => Ok(t),
        Err(error) => Err(ApiError::ParseFailure(parse_error_text(&error))),
    }
}

/// The league and the ruleset that `request` asks for, under the given
/// ids and with the given start.
pub fn league_of_request(
    request: &CreateLeagueRequest,
    league_id: Uuid,
    ruleset_id: Uuid,
    start: Timestamp,
) -> (rows: (League, Ruleset))
    ensures
        rows.0@ == requested_league(request@, league_id, start),
        rows.1 == requested_ruleset(request@, ruleset_id, league_id),
{
    let league = League::from(
        NewLeague {
            id: league_id,
            name: request.name.clone(),
            start,
            rounds: request.rounds,
            current_round: 0,
        },
    );
    let ruleset = Ruleset::from(
        NewRuleset { id: ruleset_id, points_per_mile: request.points_per_mile, league_id },
    );
    (league, ruleset)
}

/// The changes that `request` asks for to the league `league_id`, with
/// the given start. The league is put back before its first round.
pub fn changes_of_request(request: &UpdateLeagueRequest, league_id: Uuid, start: Timestamp) -> (changes:
    (UpdateLeague, UpdateRuleset))
    ensures
        changes.0@ == requested_league(request@, league_id, start),
        changes.1 == (UpdateRuleset { points_per_mile: request.points_per_mile }),
{
    (
        UpdateLeague {
            id: league_id,
            name: request.name.clone(),
            start,
            rounds: request.rounds,
            current_round: 0,
        },
        UpdateRuleset { points_per_mile: request.points_per_mile },
    )
}

/// The league and the ruleset for `request`, each under a fresh random
/// id, or `ParseFailure` where the start cannot be read.
pub fn new_league(request: &CreateLeagueRequest) -> (rows: Result<(League, Ruleset), ApiError>)
    ensures
        match start_of(request@.start) {
            Some(start) => rows matches Ok(made) && made.0@ == requested_league(
                request@,
                made.0.id,
                start,
            ) && made.1 == requested_ruleset(request@, made.1.id, made.0.id) && marked_random(
                made.0.id.bits,
            ) && marked_random(made.1.id.bits),
            None => rows matches Err(failure) && failure@.kind == ErrorKind::ParseFailure,
        },
{
    let league_id = Uuid::new_v4();
    match parse_start(request.start.as_str()) {
        Ok(start) => {
            let ruleset_id = Uuid::new_v4();
            Ok(league_of_request(request, league_id, ruleset_id, start))
        },
        Err(failure) => Err(failure),
    }
}

/// The changes for `request` to the league `league_id`, or `ParseFailure`
/// where the start cannot be read.
pub fn league_changes(league_id: Uuid, request: &UpdateLeagueRequest) -> (changes: Result<
    (UpdateLeague, UpdateRuleset),
    ApiError,
>)
    ensures
        match start_of(request@.start) {
            Some(start) => changes matches Ok(made) && made.0@ == requested_league(
                request@,
                league_id,
                start,
            ) && made.1 == (UpdateRuleset { points_per_mile: request.points_per_mile }),
            None => changes matches Err(failure) && failure@.kind == ErrorKind::ParseFailure,
        },
{
    match parse_start(request.start.as_str()) {
        Ok(start) => Ok(changes_of_request(request, league_id, start)),
        Err(failure) => Err(failure),
    }
}

/// Makes the league that `request` asks for, with its ruleset.
///
/// Where the start cannot be read the result is `ParseFailure` and the
/// pool is left as it was. Otherwise the league and the ruleset get
/// fresh random ids and are stored as [`created`] says.
pub fn create_league(pool: &mut Pool, request: &CreateLeagueRequest) -> (result: Result<
    LeagueDetails,
    ApiError,
>)
    ensures
        old(pool).wf() ==> final(pool).wf(),
        match start_of(request@.start) {
            Some(start) => exists|league_id: Uuid, ruleset_id: Uuid|
                {
                    let made = #[trigger] created(
                        old(pool)@,
                        requested_league(request@, league_id, start),
                        requested_ruleset(request@, ruleset_id, league_id),
                    );
                    &&& marked_random(league_id.bits)
                    &&& marked_random(ruleset_id.bits)
                    &&& final(pool)@ == made.pool
                    &&& result_view(result) == made.result
                },
            None => final(pool)@ == old(pool)@ && (result matches Err(failure) && failure@.kind
                == ErrorKind::ParseFailure),
        },
{
    match new_league(request) {
        Ok((league, ruleset)) => create(pool, &league, &ruleset),
        Err(failure) => Err(failure),
    }
}

/// Gives the league `league_id` the values that `request` asks for.
///
/// Where the start cannot be read the result is `ParseFailure` and the
/// pool is left as it was. Otherwise the league and its ruleset are
/// changed as [`updated`] says.
pub fn update_league(pool: &mut Pool, league_id: Uuid, request: &UpdateLeagueRequest) -> (result:
    Result<LeagueDetails, ApiError>)
    ensures
        old(pool).wf() ==> final(pool).wf(),
        match start_of(request@.start) {
            Some(start) => {
                let done = updated(
                    old(pool)@,
                    requested_league(request@, league_id, start),
                    UpdateRuleset { points_per_mile: request.points_per_mile },
                );
                final(pool)@ == done.pool && result_view(result) == done.result
            },
            None => final(pool)@ == old(pool)@ && (result matches Err(failure) && failure@.kind
                == ErrorKind::ParseFailure),
        },
{
    match league_changes(league_id, request) {
        Ok((league, ruleset)) => update(pool, &league, &ruleset),
        Err(failure) => Err(failure),
    }
}

/// The league with the id `league_id`, joined with its ruleset, as
/// [`find_with_details`] finds it.
pub fn get_league(pool: &mut Pool, league_id: Uuid) -> (result: Result<LeagueDetails, ApiError>)
    ensures
        final(pool)@ == old(pool)@,
        result_view(result) == found(old(pool)@, league_id).result,
{
    find_with_details(pool, league_id)
}

/// Every league joined with its ruleset, as [`get_all_details`] lists
/// them.
pub fn get_leagues(pool: &mut Pool) -> (result: Result<LeaguesResponse, ApiError>)
    ensures
        final(pool)@ == old(pool)@,
        result_view(result) == all_found(old(pool)@).result,
{
    get_all_details(pool)
}

/// Removes the league with the id `league_id` and its ruleset, as
/// [`delete`] does.
pub fn delete_league(pool: &mut Pool, league_id: Uuid) -> (result: Result<(), ApiError>)
    ensures
        old(pool).wf() ==> final(pool).wf(),
        final(pool)@ == deleted(old(pool)@, league_id).pool,
        unit_result_view(result) == deleted(old(pool)@, league_id).result,
{
    delete(pool, league_id)
}

} // verus!
