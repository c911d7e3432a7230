//! A bounded pool of connections to a store held in memory, and the
//! statements that the store understands.
//!
//! The store keeps the tables of the schema, enforces their keys,
//! references and checks, and runs one transaction at a time.

use crate::errors::{StoreError, StoreErrorKind, StoreErrorView};
use crate::ids::Uuid;
use crate::models::leagues::{
    League, LeagueDetails, LeagueDetailsView, LeagueView, Ruleset, UpdateLeague, UpdateRuleset,
};
use crate::models::teams::{Owner, Player, Team, TeamView};
use crate::rows::views;
use crate::schema::Tables;
use crate::store::Rows;
use vstd::prelude::*;

verus! {

/// The message where every connection of the pool is leased.
pub const POOL_EXHAUSTED: &'static str = "no connection is available in the pool";

/// The message for a statement sent without a leased connection.
pub const NOT_CONNECTED: &'static str = "no connection is leased";

/// The message for the start of a transaction inside another.
pub const TRANSACTION_OPEN: &'static str = "a transaction is already open";

/// The message for the end of a transaction where none is open.
pub const NO_TRANSACTION: &'static str = "no transaction is open";

/// What can be asked of the pool and of the store behind it.
#[derive(Debug)]
pub enum Command {
    /// Lease a connection.
    Acquire,
    /// Give the connection back.
    Release,
    /// Open a transaction.
    Begin,
    /// Make the writes of the open transaction last.
    Commit,
    /// Undo the writes of the open transaction.
    Rollback,
    /// The league with the given id, joined with its ruleset.
    SelectLeagueDetails(Uuid),
    /// Every league, joined with its ruleset.
    SelectAllLeagueDetails,
    InsertLeague(League),
    InsertRuleset(Ruleset),
    /// The rulesets of the league with the given id.
    SelectRulesetsOfLeague(Uuid),
    /// Change the ruleset with the given id.
    UpdateRuleset(Uuid, UpdateRuleset),
    /// Change the league with the id of the changes.
    UpdateLeague(UpdateLeague),
    /// Remove the rulesets of the league with the given id.
    DeleteRulesetsOfLeague(Uuid),
    /// Remove the league with the given id.
    DeleteLeague(Uuid),
    /// Every team.
    SelectTeams,
    /// The teams of the league with the given id.
    SelectTeamsInLeague(Uuid),
    /// The team with the given id.
    SelectTeam(Uuid),
    /// The owners of the team with the given id.
    SelectOwnersOfTeam(Uuid),
    /// The players of the team with the given id.
    SelectPlayersOfTeam(Uuid),
    InsertTeam(Team),
    /// Insert all the players or none; the reply holds the rows as stored.
    InsertPlayers(Vec<Player>),
    /// Insert all the owners or none; the reply holds the rows as stored.
    InsertOwners(Vec<Owner>),
}

/// A command as contracts see it.
pub enum CommandView {
    Acquire,
    Release,
    Begin,
    Commit,
    Rollback,
    SelectLeagueDetails(Uuid),
    SelectAllLeagueDetails,
    InsertLeague(LeagueView),
    InsertRuleset(Ruleset),
    SelectRulesetsOfLeague(Uuid),
    UpdateRuleset(Uuid, UpdateRuleset),
    UpdateLeague(LeagueView),
    DeleteRulesetsOfLeague(Uuid),
    DeleteLeague(Uuid),
    SelectTeams,
    SelectTeamsInLeague(Uuid),
    SelectTeam(Uuid),
    SelectOwnersOfTeam(Uuid),
    SelectPlayersOfTeam(Uuid),
    InsertTeam(TeamView),
    InsertPlayers(Seq<Player>),
    InsertOwners(Seq<Owner>),
}

impl View for Command {
    type V = CommandView;

    open spec fn view(&self) -> CommandView {
        match self {
            Command::Acquire => CommandView::Acquire,
            Command::Release => CommandView::Release,
            Command::Begin => CommandView::Begin,
            Command::Commit => CommandView::Commit,
            Command::Rollback => CommandView::Rollback,
            Command::SelectLeagueDetails(id) => CommandView::SelectLeagueDetails(*id),
            Command::SelectAllLeagueDetails => CommandView::SelectAllLeagueDetails,
            Command::InsertLeague(league) => CommandView::InsertLeague(league@),
            Command::InsertRuleset(ruleset) => CommandView::InsertRuleset(*ruleset),
            Command::SelectRulesetsOfLeague(id) => CommandView::SelectRulesetsOfLeague(*id),
            Command::UpdateRuleset(id, changes) => CommandView::UpdateRuleset(*id, *changes),
            Command::UpdateLeague(changes) => CommandView::UpdateLeague(changes@),
            Command::DeleteRulesetsOfLeague(id) => CommandView::DeleteRulesetsOfLeague(*id),
            Command::DeleteLeague(id) => CommandView::DeleteLeague(*id),
            Command::SelectTeams => CommandView::SelectTeams,
            Command::SelectTeamsInLeague(id) => CommandView::SelectTeamsInLeague(*id),
            Command::SelectTeam(id) => CommandView::SelectTeam(*id),
            Command::SelectOwnersOfTeam(id) => CommandView::SelectOwnersOfTeam(*id),
            Command::SelectPlayersOfTeam(id) => CommandView::SelectPlayersOfTeam(*id),
            Command::InsertTeam(team) => CommandView::InsertTeam(team@),
            Command::InsertPlayers(players) => CommandView::InsertPlayers(players@),
            Command::InsertOwners(owners) => CommandView::InsertOwners(owners@),
        }
    }
}

/// What the store answers to a command.
#[derive(Debug)]
pub enum Reply {
    /// The command was carried out and has nothing to show.
    Done,
    LeagueDetails(Vec<LeagueDetails>),
    Rulesets(Vec<Ruleset>),
    Teams(Vec<Team>),
    Players(Vec<Player>),
    Owners(Vec<Owner>),
    /// The command was turned down and has changed nothing.
    Failed(StoreError),
}

/// A reply as contracts see it.
pub enum ReplyView {
    Done,
    LeagueDetails(Seq<LeagueDetailsView>),
    Rulesets(Seq<Ruleset>),
    Teams(Seq<TeamView>),
    Players(Seq<Player>),
    Owners(Seq<Owner>),
    Failed(StoreErrorView),
}

impl View for Reply {
    type V = ReplyView;

    open spec fn view(&self) -> ReplyView {
        match self {
            Reply::Done => ReplyView::Done,
            Reply::LeagueDetails(rows) => ReplyView::LeagueDetails(views(rows@)),
            Reply::Rulesets(rows) => ReplyView::Rulesets(rows@),
            Reply::Teams(rows) => ReplyView::Teams(views(rows@)),
            Reply::Players(rows) => ReplyView::Players(rows@),
            Reply::Owners(rows) => ReplyView::Owners(rows@),
            Reply::Failed(error) => ReplyView::Failed(error@),
        }
    }
}

/// The pool as contracts see it: the tables, the tables as they
/// stood when the open transaction began, the number of connections and
/// how many of them are leased.
pub struct PoolView {
    pub tables: Tables,
    pub saved: Option<Tables>,
    pub capacity: nat,
    pub leased: nat,
}

/// A pool after a command, and the reply to the command.
pub struct Effect {
    pub pool: PoolView,
    pub reply: ReplyView,
}

/// The refusal of a command for want of a connection.
pub open spec fn unavailable(message: Seq<char>) -> ReplyView {
    ReplyView::Failed(StoreErrorView { kind: StoreErrorKind::Unavailable, message })
}

/// The refusal of a command that is out of place.
pub open spec fn failure(message: Seq<char>) -> ReplyView {
    ReplyView::Failed(StoreErrorView { kind: StoreErrorKind::Failure, message })
}

impl PoolView {
    /// The effect of a write: the new tables and `Done`, or the old
    /// tables and the refusal.
    pub open spec fn written(self, outcome: Result<Tables, StoreErrorView>) -> Effect {
        match outcome {
            Ok(tables) => Effect { pool: PoolView { tables, ..self }, reply: ReplyView::Done },
            Err(error) => Effect { pool: self, reply: ReplyView::Failed(error) },
        }
    }

    /// The effect of a bulk insert: the new tables and the rows as stored,
    /// or the old tables and the refusal.
    pub open spec fn stored(self, outcome: Result<Tables, StoreErrorView>, rows: ReplyView) -> Effect {
        match outcome {
            Ok(tables) => Effect { pool: PoolView { tables, ..self }, reply: rows },
            Err(error) => Effect { pool: self, reply: ReplyView::Failed(error) },
        }
    }

    /// The effect of a read: the pool as it was and the rows.
    pub open spec fn read(self, rows: ReplyView) -> Effect {
        Effect { pool: self, reply: rows }
    }

    /// What a command does to the pool and what is replied to it.
    ///
    /// A lease is granted while fewer connections are leased than the pool
    /// holds. Every other command needs a leased connection. A
    /// transaction remembers the tables as they are when it begins; a
    /// rollback puts them back, a commit forgets them.
    pub open spec fn apply(self, command: CommandView) -> Effect {
        if command is Acquire {
            if self.leased < self.capacity {
                Effect {
                    pool: PoolView { leased: self.leased + 1, ..self },
                    reply: ReplyView::Done,
                }
            } else {
                Effect { pool: self, reply: unavailable(POOL_EXHAUSTED@) }
            }
        } else if self.leased == 0 {
            Effect { pool: self, reply: unavailable(NOT_CONNECTED@) }
        } else {
            let t = self.tables;
            match command {
                CommandView::Acquire => Effect { pool: self, reply: ReplyView::Done },
                CommandView::Release => Effect {
                    pool: PoolView { leased: (self.leased - 1) as nat, ..self },
                    reply: ReplyView::Done,
                },
                CommandView::Begin => if self.saved is Some {
                    Effect { pool: self, reply: failure(TRANSACTION_OPEN@) }
                } else {
                    Effect { pool: PoolView { saved: Some(t), ..self }, reply: ReplyView::Done }
                },
                CommandView::Commit => if self.saved is Some {
                    Effect { pool: PoolView { saved: None, ..self }, reply: ReplyView::Done }
                } else {
                    Effect { pool: self, reply: failure(NO_TRANSACTION@) }
                },
                CommandView::Rollback => match self.saved {
                    Some(before) => Effect {
                        pool: PoolView { tables: before, saved: None, ..self },
                        reply: ReplyView::Done,
                    },
                    None => Effect { pool: self, reply: failure(NO_TRANSACTION@) },
                },
                CommandView::SelectLeagueDetails(id) => self.read(
                    ReplyView::LeagueDetails(t.league_details(id)),
                ),
                CommandView::SelectAllLeagueDetails => self.read(
                    ReplyView::LeagueDetails(t.all_league_details()),
                ),
                CommandView::InsertLeague(league) => self.written(t.insert_league(league)),
                CommandView::InsertRuleset(ruleset) => self.written(t.insert_ruleset(ruleset)),
                CommandView::SelectRulesetsOfLeague(id) => self.read(
                    ReplyView::Rulesets(t.rulesets_of(id)),
                ),
                CommandView::UpdateRuleset(id, changes) => self.written(
                    Ok(t.update_ruleset(id, changes)),
                ),
                CommandView::UpdateLeague(changes) => self.written(t.update_league(changes)),
                CommandView::DeleteRulesetsOfLeague(id) => self.written(
                    Ok(t.delete_rulesets_of(id)),
                ),
                CommandView::DeleteLeague(id) => self.written(t.delete_league(id)),
                CommandView::SelectTeams => self.read(ReplyView::Teams(t.teams)),
                CommandView::SelectTeamsInLeague(id) => self.read(ReplyView::Teams(t.teams_in(id))),
                CommandView::SelectTeam(id) => self.read(ReplyView::Teams(t.teams_with(id))),
                CommandView::SelectOwnersOfTeam(id) => self.read(
                    ReplyView::Owners(t.owners_of(id)),
                ),
                CommandView::SelectPlayersOfTeam(id) => self.read(
                    ReplyView::Players(t.players_of(id)),
                ),
                CommandView::InsertTeam(team) => self.written(t.insert_team(team)),
                CommandView::InsertPlayers(players) => self.stored(
                    t.insert_players(players),
                    ReplyView::Players(players),
                ),
                CommandView::InsertOwners(owners) => self.stored(
                    t.insert_owners(owners),
                    ReplyView::Owners(owners),
                ),
            }
        }
    }

    /// A pool between two operations: the tables keep their constraints,
    /// every league has its ruleset, no transaction is open and no more
    /// connections are leased than there are.
    pub open spec fn wf(self) -> bool {
        &&& self.tables.valid()
        &&& self.tables.paired()
        &&& self.saved is None
        &&& self.leased <= self.capacity
    }
}

/// A bounded pool of connections to a store held in memory.
pub struct Pool {
    rows: Rows,
    saved: Option<Rows>,
    capacity: usize,
    leased: usize,
}

impl View for Pool {
    type V = PoolView;

    closed spec fn view(&self) -> PoolView {
        PoolView {
            tables: self.rows@,
            saved: match self.saved {
                Some(rows) => Some(rows@),
                None => None,
            },
            capacity: self.capacity as nat,
            leased: self.leased as nat,
        }
    }
}

/// The refusal of a command for want of a connection.
fn refuse_unavailable(message: &'static str) -> (reply: Reply)
    ensures
        reply@ == unavailable(message@),
{
    Reply::Failed(StoreError::Unavailable(message.to_owned()))
}

/// The refusal of a command that is out of place.
fn refuse_failure(message: &'static str) -> (reply: Reply)
    ensures
        reply@ == failure(message@),
{
    Reply::Failed(StoreError::Failure(message.to_owned()))
}

/// The reply to a write.
fn reply_written(outcome: Result<(), StoreError>) -> (reply: Reply)
    ensures
        match outcome {
            Ok(_) => reply@ == ReplyView::Done,
            Err(error) => reply@ == ReplyView::Failed(error@),
        },
{
    match outcome {
        Ok(_) => Reply::Done,
        Err(error) => Reply::Failed(error),
    }
}

impl Pool {
    /// A pool of `capacity` connections to a store without rows.
    pub fn new(capacity: usize) -> (pool: Pool)
        ensures
            pool@ == (PoolView {
                tables: Tables::empty(),
                saved: None,
                capacity: capacity as nat,
                leased: 0,
            }),
            pool.wf(),
    {
        Pool { rows: Rows::new(), saved: None, capacity, leased: 0 }
    }

    /// Whether the pool stands between two operations: see
    /// [`PoolView::wf`].
    pub open spec fn wf(&self) -> bool {
        self@.wf()
    }

    /// The number of connections the pool holds.
    pub fn capacity(&self) -> (capacity: usize)
        ensures
            capacity == self@.capacity,
    {
        self.capacity
    }

    /// The number of connections that are leased.
    pub fn leased(&self) -> (leased: usize)
        ensures
            leased == self@.leased,
    {
        self.leased
    }

    /// Carries out `command` and replies to it, as [`PoolView::apply`]
    /// says.
    pub fn execute(&mut self, command: Command) -> (reply: Reply)
        ensures
            final(self)@ == old(self)@.apply(command@).pool,
            reply@ == old(self)@.apply(command@).reply,
    {
        if let Command::Acquire = command {
            if self.leased < self.capacity {
                self.leased = self.leased + 1;
                return Reply::Done;
            }
            return refuse_unavailable(POOL_EXHAUSTED);
        }
        if self.leased == 0 {
            return refuse_unavailable(NOT_CONNECTED);
        }
        match command {
            Command::Acquire => Reply::Done,
            Command::Release => {
                self.leased = self.leased - 1;
                Reply::Done
            },
            Command::Begin => {
                if self.saved.is_some() {
                    refuse_failure(TRANSACTION_OPEN)
                } else {
                    self.saved = Some(self.rows.copy());
                    Reply::Done
                }
            },
            Command::Commit => {
                if self.saved.is_some() {
                    self.saved = None;
                    Reply::Done
                } else {
                    refuse_failure(NO_TRANSACTION)
                }
            },
            Command::Rollback => {
                match self.saved.take() {
                    Some(before) => {
                        self.rows = before;
                        Reply::Done
                    },
                    None => refuse_failure(NO_TRANSACTION),
                }
            },
            Command::SelectLeagueDetails(id) => Reply::LeagueDetails(self.rows.league_details(id)),
            Command::SelectAllLeagueDetails => Reply::LeagueDetails(self.rows.all_league_details()),
            Command::InsertLeague(league) => reply_written(self.rows.insert_league(league)),
            Command::InsertRuleset(ruleset) => reply_written(self.rows.insert_ruleset(ruleset)),
            Command::SelectRulesetsOfLeague(id) => Reply::Rulesets(self.rows.rulesets_of(id)),
            Command::UpdateRuleset(id, changes) => {
                self.rows.update_ruleset(id, changes);
                Reply::Done
            },
            Command::UpdateLeague(changes) => reply_written(self.rows.update_league(&changes)),
            Command::DeleteRulesetsOfLeague(id) => {
                self.rows.delete_rulesets_of(id);
                Reply::Done
            },
            Command::DeleteLeague(id) => reply_written(self.rows.delete_league(id)),
            Command::SelectTeams => Reply::Teams(self.rows.all_teams()),
            Command::SelectTeamsInLeague(id) => Reply::Teams(self.rows.teams_in(id)),
            Command::SelectTeam(id) => Reply::Teams(self.rows.teams_with(id)),
            Command::SelectOwnersOfTeam(id) => Reply::Owners(self.rows.owners_of(id)),
            Command::SelectPlayersOfTeam(id) => Reply::Players(self.rows.players_of(id)),
            Command::InsertTeam(team) => reply_written(self.rows.insert_team(team)),
            Command::InsertPlayers(players) => {
                match self.rows.insert_players(&players) {
                    Ok(_) => Reply::Players(players),
                    Err(error) => Reply::Failed(error),
                }
            },
            Command::InsertOwners(owners) => {
                match self.rows.insert_owners(&owners) {
                    Ok(_) => Reply::Owners(owners),
                    Err(error) => Reply::Failed(error),
                }
            },
        }
    }
}

} // verus!
