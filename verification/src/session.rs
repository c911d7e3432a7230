//! One aggregate operation as a conversation with the store.
//!
//! A session leases a connection, opens a transaction where the operation
//! writes, sends the statements of the operation one after the other,
//! commits when all have succeeded and rolls back when one has failed, and
//! gives the connection back on every path. The session only decides;
//! whoever holds the store carries out each command and hands back the
//! reply. [`run`] does so for the store held in memory, and [`execution`]
//! says what comes of it.

use crate::database::{
    Command, CommandView, Pool, PoolView, Reply, ReplyView, POOL_EXHAUSTED, TRANSACTION_OPEN,
};
use crate::errors::{api_error_of, ApiError, ApiErrorView, ErrorKind};
use crate::ids::Uuid;
use crate::managers::leagues::{LeagueOperation, LeagueOperationView};
use crate::managers::teams::{TeamOperation, TeamOperationView};
use crate::models::leagues::{LeagueDetails, LeagueDetailsView, LeaguesResponse};
use crate::models::teams::{TeamDetails, TeamDetailsView, TeamView, TeamsResponse};
use vstd::prelude::*;

verus! {

/// The message where the store answers a command with a reply of the
/// wrong shape.
pub const UNEXPECTED_REPLY: &'static str = "the store sent an unexpected reply";

/// The message where an operation ends without a result.
pub const INCOMPLETE: &'static str = "the operation ended without a result";

/// An aggregate operation with its input.
#[derive(Debug)]
pub enum Request {
    League(LeagueOperation),
    Team(TeamOperation),
}

/// A request as contracts see it.
pub enum RequestView {
    League(LeagueOperationView),
    Team(TeamOperationView),
}

impl View for Request {
    type V = RequestView;

    open spec fn view(&self) -> RequestView {
        match self {
            Request::League(operation) => RequestView::League(operation@),
            Request::Team(operation) => RequestView::Team(operation@),
        }
    }
}

/// What an operation hands back when it succeeds.
#[derive(Debug, PartialEq)]
pub enum Response {
    League(LeagueDetails),
    Leagues(LeaguesResponse),
    Deleted,
    Teams(TeamsResponse),
    Team(TeamDetails),
}

/// A response as contracts see it.
pub enum ResponseView {
    League(LeagueDetailsView),
    Leagues(Seq<LeagueDetailsView>),
    Deleted,
    Teams(Seq<TeamView>),
    Team(TeamDetailsView),
}

impl View for Response {
    type V = ResponseView;

    open spec fn view(&self) -> ResponseView {
        match self {
            Response::League(details) => ResponseView::League(details@),
            Response::Leagues(all) => ResponseView::Leagues(all@),
            Response::Deleted => ResponseView::Deleted,
            Response::Teams(all) => ResponseView::Teams(all@),
            Response::Team(details) => ResponseView::Team(details@),
        }
    }
}

/// The place of a statement among the statements of an operation.
#[derive(Clone, Copy, Debug, PartialEq, Eq, Structural)]
pub enum Slot {
    First,
    Second,
    Third,
}

/// The command that a session waits to have answered.
#[derive(Clone, Copy, Debug, PartialEq, Eq, Structural)]
pub enum Stage {
    Acquire,
    Begin,
    Statement(Slot),
    Commit,
    Rollback,
    Release,
    /// Nothing is left to do.
    Finished,
}

/// What an operation has gathered from the replies so far.
#[derive(Debug)]
pub struct Progress {
    /// The id of the ruleset that a league update found.
    pub ruleset: Option<Uuid>,
    /// The response, as far as it is known.
    pub response: Option<Response>,
}

/// Progress as contracts see it.
pub struct ProgressView {
    pub ruleset: Option<Uuid>,
    pub response: Option<ResponseView>,
}

impl View for Progress {
    type V = ProgressView;

    open spec fn view(&self) -> ProgressView {
        ProgressView {
            ruleset: self.ruleset,
            response: match self.response {
                Some(response) => Some(response@),
                None => None,
            },
        }
    }
}

/// The failure for a reply of the wrong shape.
pub open spec fn unexpected_reply() -> ApiErrorView {
    ApiErrorView { kind: ErrorKind::StoreFailure, message: UNEXPECTED_REPLY@ }
}

/// The failure for a reply of the wrong shape.
pub fn unexpected() -> (failure: ApiError)
    ensures
        failure@ == unexpected_reply(),
{
    ApiError::StoreFailure(UNEXPECTED_REPLY.to_owned())
}

/// The failure that a reply other than `Done` stands for: the store's own
/// where it refused, that of an unexpected reply otherwise.
pub open spec fn failure_of(reply: ReplyView) -> ApiErrorView {
    match reply {
        ReplyView::Failed(error) => api_error_of(error),
        _ => unexpected_reply(),
    }
}

/// The failure that a reply other than `Done` stands for.
pub fn reply_failure(reply: Reply) -> (failure: ApiError)
    ensures
        failure@ == failure_of(reply@),
{
    match reply {
        Reply::Failed(error) => ApiError::from_store(error),
        _ => unexpected(),
    }
}

impl RequestView {
    /// Whether the statements of the operation run in one transaction.
    pub open spec fn transactional(self) -> bool {
        match self {
            RequestView::League(operation) => operation.transactional(),
            RequestView::Team(operation) => operation.transactional(),
        }
    }

    /// The statement of the operation at `slot`, if it has one there.
    pub open spec fn statement(self, slot: Slot, progress: ProgressView) -> Option<CommandView> {
        match self {
            RequestView::League(operation) => operation.statement(slot, progress),
            RequestView::Team(operation) => operation.statement(slot),
        }
    }

    /// What the operation has gathered once the statement at `slot` is
    /// answered by `reply`, or the failure that ends it.
    pub open spec fn absorbed(self, slot: Slot, progress: ProgressView, reply: ReplyView) -> Result<
        ProgressView,
        ApiErrorView,
    > {
        match self {
            RequestView::League(operation) => operation.absorbed(slot, progress, reply),
            RequestView::Team(operation) => operation.absorbed(slot, progress, reply),
        }
    }
}

impl Request {
    /// Whether the statements of the operation run in one transaction.
    pub fn transactional(&self) -> (yes: bool)
        ensures
            yes == self@.transactional(),
    {
        match self {
            Request::League(operation) => operation.transactional(),
            Request::Team(operation) => operation.transactional(),
        }
    }

    /// The statement of the operation at `slot`, if it has one there.
    pub fn statement(&self, slot: Slot, progress: &Progress) -> (command: Option<Command>)
        ensures
            command_view(command) == self@.statement(slot, progress@),
    {
        match self {
            Request::League(operation) => operation.statement(slot, progress),
            Request::Team(operation) => operation.statement(slot),
        }
    }

    /// Takes in the reply to the statement at `slot`.
    pub fn absorb(&self, slot: Slot, progress: Progress, reply: Reply) -> (gathered: Result<
        Progress,
        ApiError,
    >)
        ensures
            match gathered {
                Ok(p) => self@.absorbed(slot, progress@, reply@) == Ok::<ProgressView, ApiErrorView>(
                    p@,
                ),
                Err(e) => self@.absorbed(slot, progress@, reply@) == Err::<
                    ProgressView,
                    ApiErrorView,
                >(e@),
            },
    {
        match self {
            Request::League(operation) => operation.absorb(slot, progress, reply),
            Request::Team(operation) => operation.absorb(slot, progress, reply),
        }
    }
}

/// A command that may be there, as contracts see it.
pub open spec fn command_view(command: Option<Command>) -> Option<CommandView> {
    match command {
        Some(c) => Some(c@),
        None => None,
    }
}

/// The state of a session.
#[derive(Debug)]
pub struct Session {
    request: Request,
    stage: Stage,
    progress: Progress,
    failure: Option<ApiError>,
}

/// A session as contracts see it: the operation, the command
/// that waits for its reply, what the replies have yielded, and the
/// failure if there was one.
pub struct SessionView {
    pub request: RequestView,
    pub stage: Stage,
    pub progress: ProgressView,
    pub failure: Option<ApiErrorView>,
}

impl View for Session {
    type V = SessionView;

    closed spec fn view(&self) -> SessionView {
        SessionView {
            request: self.request@,
            stage: self.stage,
            progress: self.progress@,
            failure: match self.failure {
                Some(failure) => Some(failure@),
                None => None,
            },
        }
    }
}

/// A session and the command it asks to have carried out next; no command
/// where the session is over.
pub struct Turn {
    pub session: SessionView,
    pub command: Option<CommandView>,
}

/// How far a stage is from the end of the session.
pub open spec fn rank(stage: Stage) -> nat {
    match stage {
        Stage::Acquire => 9,
        Stage::Begin => 8,
        Stage::Statement(Slot::First) => 7,
        Stage::Statement(Slot::Second) => 6,
        Stage::Statement(Slot::Third) => 5,
        Stage::Commit => 4,
        Stage::Rollback => 3,
        Stage::Release => 2,
        Stage::Finished => 0,
    }
}

impl SessionView {
    /// The first turn of the session for `request`: it asks for a
    /// connection.
    pub open spec fn start(request: RequestView) -> Turn {
        Turn {
            session: SessionView {
                request,
                stage: Stage::Acquire,
                progress: ProgressView { ruleset: None, response: None },
                failure: None,
            },
            command: Some(CommandView::Acquire),
        }
    }

    /// The session with `failure` recorded.
    pub open spec fn failed(self, failure: ApiErrorView) -> SessionView {
        SessionView { failure: Some(failure), ..self }
    }

    /// The turn that gives the connection back.
    pub open spec fn release(self) -> Turn {
        Turn {
            session: SessionView { stage: Stage::Release, ..self },
            command: Some(CommandView::Release),
        }
    }

    /// The turn that ends the statements in success: a commit where a
    /// transaction is open, the release otherwise.
    pub open spec fn close(self) -> Turn {
        if self.request.transactional() {
            Turn {
                session: SessionView { stage: Stage::Commit, ..self },
                command: Some(CommandView::Commit),
            }
        } else {
            self.release()
        }
    }

    /// The turn that ends the statements in failure: a rollback where a
    /// transaction is open, the release otherwise.
    pub open spec fn abandon(self) -> Turn {
        if self.request.transactional() {
            Turn {
                session: SessionView { stage: Stage::Rollback, ..self },
                command: Some(CommandView::Rollback),
            }
        } else {
            self.release()
        }
    }

    /// The turn that sends the statement at `slot`, or the next one that
    /// the operation has; the end of the statements where it has none.
    pub open spec fn send_third(self) -> Turn {
        match self.request.statement(Slot::Third, self.progress) {
            Some(command) => Turn {
                session: SessionView { stage: Stage::Statement(Slot::Third), ..self },
                command: Some(command),
            },
            None => self.close(),
        }
    }

    /// As [`Self::send_third`], from the second statement on.
    pub open spec fn send_second(self) -> Turn {
        match self.request.statement(Slot::Second, self.progress) {
            Some(command) => Turn {
                session: SessionView { stage: Stage::Statement(Slot::Second), ..self },
                command: Some(command),
            },
            None => self.send_third(),
        }
    }

    /// As [`Self::send_third`], from the first statement on.
    pub open spec fn send_first(self) -> Turn {
        match self.request.statement(Slot::First, self.progress) {
            Some(command) => Turn {
                session: SessionView { stage: Stage::Statement(Slot::First), ..self },
                command: Some(command),
            },
            None => self.send_second(),
        }
    }

    /// The turn after the statement at `slot` has succeeded.
    pub open spec fn send_after(self, slot: Slot) -> Turn {
        match slot {
            Slot::First => self.send_second(),
            Slot::Second => self.send_third(),
            Slot::Third => self.close(),
        }
    }

    /// The next turn, once the command of this one is answered by
    /// `reply`.
    ///
    /// - A lease that is refused ends the session with that failure.
    /// - With the lease, a transaction is opened where the operation
    ///   writes; then the statements go out in their order.
    /// - A statement that fails ends the statements: what was written is
    ///   rolled back, what was gathered is dropped, and the failure is
    ///   that of the operation.
    /// - When all statements have succeeded the transaction is
    ///   committed; a commit that fails is rolled back.
    /// - Whatever happened after the lease, the connection is given back
    ///   before the session is over.
    pub open spec fn step(self, reply: ReplyView) -> Turn {
        match self.stage {
            Stage::Acquire => match reply {
                ReplyView::Done => if self.request.transactional() {
                    Turn {
                        session: SessionView { stage: Stage::Begin, ..self },
                        command: Some(CommandView::Begin),
                    }
                } else {
                    self.send_first()
                },
                ReplyView::Failed(error) => Turn {
                    session: SessionView { stage: Stage::Finished, ..self.failed(api_error_of(error)) },
                    command: None,
                },
                _ => self.failed(unexpected_reply()).release(),
            },
            Stage::Begin => match reply {
                ReplyView::Done => self.send_first(),
                _ => self.failed(failure_of(reply)).release(),
            },
            Stage::Statement(slot) => match self.request.absorbed(slot, self.progress, reply) {
                Ok(progress) => (SessionView { progress, ..self }).send_after(slot),
                Err(failure) => (SessionView {
                    progress: ProgressView { ruleset: None, response: None },
                    ..self
                }).failed(failure).abandon(),
            },
            Stage::Commit => match reply {
                ReplyView::Done => self.release(),
                _ => Turn {
                    session: SessionView { stage: Stage::Rollback, ..self.failed(failure_of(reply)) },
                    command: Some(CommandView::Rollback),
                },
            },
            Stage::Rollback => self.release(),
            Stage::Release => Turn {
                session: SessionView { stage: Stage::Finished, ..self },
                command: None,
            },
            Stage::Finished => Turn { session: self, command: None },
        }
    }

    /// How the session has ended: in its failure if there was one, in its
    /// response otherwise.
    pub open spec fn outcome(self) -> Result<ResponseView, ApiErrorView> {
        match self.failure {
            Some(failure) => Err(failure),
            None => match self.progress.response {
                Some(response) => Ok(response),
                None => Err(ApiErrorView { kind: ErrorKind::StoreFailure, message: INCOMPLETE@ }),
            },
        }
    }
}

/// How many more turns a turn can be followed by, at most twice over.
pub open spec fn turns_left(turn: Turn) -> nat {
    2 * rank(turn.session.stage) + if turn.command is Some {
        1nat
    } else {
        0nat
    }
}

/// Every step brings a session nearer to its end.
pub proof fn lemma_step_decreases(session: SessionView, command: CommandView, reply: ReplyView)
    ensures
        turns_left(session.step(reply)) < turns_left(Turn { session, command: Some(command) }),
{
}

/// A session with its next command, as contracts see it.
pub open spec fn turn_view(session: Session, command: Option<Command>) -> Turn {
    Turn { session: session@, command: command_view(command) }
}

/// The outcome of an operation as contracts see it.
pub open spec fn outcome_view(outcome: Result<Response, ApiError>) -> Result<
    ResponseView,
    ApiErrorView,
> {
    match outcome {
        Ok(response) => Ok(response@),
        Err(failure) => Err(failure@),
    }
}

impl Session {
    /// The session for `request` and its first command.
    pub fn start(request: Request) -> (turn: (Session, Command))
        ensures
            turn_view(turn.0, Some(turn.1)) == SessionView::start(request@),
    {
        (
            Session {
                request,
                stage: Stage::Acquire,
                progress: Progress { ruleset: None, response: None },
                failure: None,
            },
            Command::Acquire,
        )
    }

    /// The command that the session waits to have answered.
    pub fn stage(&self) -> (stage: Stage)
        ensures
            stage == self@.stage,
    {
        self.stage
    }

    fn release(self) -> (turn: (Session, Option<Command>))
        ensures
            turn_view(turn.0, turn.1) == self@.release(),
    {
        (
            Session {
                request: self.request,
                stage: Stage::Release,
                progress: self.progress,
                failure: self.failure,
            },
            Some(Command::Release),
        )
    }

    fn close(self) -> (turn: (Session, Option<Command>))
        ensures
            turn_view(turn.0, turn.1) == self@.close(),
    {
        if self.request.transactional() {
            (
                Session {
                    request: self.request,
                    stage: Stage::Commit,
                    progress: self.progress,
                    failure: self.failure,
                },
                Some(Command::Commit),
            )
        } else {
            self.release()
        }
    }

    fn abandon(self, failure: ApiError) -> (turn: (Session, Option<Command>))
        ensures
            turn_view(turn.0, turn.1) == self@.failed(failure@).abandon(),
    {
        let failed = Session {
            request: self.request,
            stage: self.stage,
            progress: self.progress,
            failure: Some(failure),
        };
        if failed.request.transactional() {
            (
                Session {
                    request: failed.request,
                    stage: Stage::Rollback,
                    progress: failed.progress,
                    failure: failed.failure,
                },
                Some(Command::Rollback),
            )
        } else {
            failed.release()
        }
    }

    fn fail_and_release(self, failure: ApiError) -> (turn: (Session, Option<Command>))
        ensures
            turn_view(turn.0, turn.1) == self@.failed(failure@).release(),
    {
        let failed = Session {
            request: self.request,
            stage: self.stage,
            progress: self.progress,
            failure: Some(failure),
        };
        failed.release()
    }

    fn send_third(self) -> (turn: (Session, Option<Command>))
        ensures
            turn_view(turn.0, turn.1) == self@.send_third(),
    {
        match self.request.statement(Slot::Third, &self.progress) {
            Some(command) => (
                Session {
                    request: self.request,
                    stage: Stage::Statement(Slot::Third),
                    progress: self.progress,
                    failure: self.failure,
                },
                Some(command),
            ),
            None => self.close(),
        }
    }

    fn send_second(self) -> (turn: (Session, Option<Command>))
        ensures
            turn_view(turn.0, turn.1) == self@.send_second(),
    {
        match self.request.statement(Slot::Second, &self.progress) {
            Some(command) => (
                Session {
                    request: self.request,
                    stage: Stage::Statement(Slot::Second),
                    progress: self.progress,
                    failure: self.failure,
                },
                Some(command),
            ),
            None => self.send_third(),
        }
    }

    fn send_first(self) -> (turn: (Session, Option<Command>))
        ensures
            turn_view(turn.0, turn.1) == self@.send_first(),
    {
        match self.request.statement(Slot::First, &self.progress) {
            Some(command) => (
                Session {
                    request: self.request,
                    stage: Stage::Statement(Slot::First),
                    progress: self.progress,
                    failure: self.failure,
                },
                Some(command),
            ),
            None => self.send_second(),
        }
    }

    /// Takes in the reply to the command that was asked for, and asks for
    /// the next: see [`SessionView::step`].
    pub fn step(self, reply: Reply) -> (turn: (Session, Option<Command>))
        ensures
            turn_view(turn.0, turn.1) == self@.step(reply@),
    {
        match self.stage {
            Stage::Acquire => match reply {
                Reply::Done => {
                    if self.request.transactional() {
                        (
                            Session {
                                request: self.request,
                                stage: Stage::Begin,
                                progress: self.progress,
                                failure: self.failure,
                            },
                            Some(Command::Begin),
                        )
                    } else {
                        self.send_first()
                    }
                },
                Reply::Failed(error) => (
                    Session {
                        request: self.request,
                        stage: Stage::Finished,
                        progress: self.progress,
                        failure: Some(ApiError::from_store(error)),
                    },
                    None,
                ),
                _ => self.fail_and_release(unexpected()),
            },
            Stage::Begin => match reply {
                Reply::Done => self.send_first(),
                other => self.fail_and_release(reply_failure(other)),
            },
            Stage::Statement(slot) => {
                let Session { request, stage, progress, failure } = self;
                match request.absorb(slot, progress, reply) {
                    Ok(gathered) => {
                        let next = Session { request, stage, progress: gathered, failure };
                        match slot {
                            Slot::First => next.send_second(),
                            Slot::Second => next.send_third(),
                            Slot::Third => next.close(),
                        }
                    },
                    Err(error) => {
                        let rest = Session {
                            request,
                            stage,
                            progress: Progress { ruleset: None, response: None },
                            failure,
                        };
                        rest.abandon(error)
                    },
                }
            },
            Stage::Commit => match reply {
                Reply::Done => self.release(),
                other => (
                    Session {
                        request: self.request,
                        stage: Stage::Rollback,
                        progress: self.progress,
                        failure: Some(reply_failure(other)),
                    },
                    Some(Command::Rollback),
                ),
            },
            Stage::Rollback => self.release(),
            Stage::Release => (
                Session {
                    request: self.request,
                    stage: Stage::Finished,
                    progress: self.progress,
                    failure: self.failure,
                },
                None,
            ),
            Stage::Finished => (self, None),
        }
    }

    /// How the session has ended.
    pub fn finish(self) -> (outcome: Result<Response, ApiError>)
        ensures
            outcome_view(outcome) == self@.outcome(),
    {
        match self.failure {
            Some(failure) => Err(failure),
            None => match self.progress.response {
                Some(response) => Ok(response),
                None => Err(ApiError::StoreFailure(INCOMPLETE.to_owned())),
            },
        }
    }
}

/// The pool after an operation and how the operation ended.
pub struct Run {
    pub pool: PoolView,
    pub outcome: Result<ResponseView, ApiErrorView>,
}

/// The run of a session from `turn` on against `pool`: each command is
/// carried out by the pool and its reply handed to the session, until the
/// session asks for nothing more.
pub open spec fn play(turn: Turn, pool: PoolView) -> Run
    decreases turns_left(turn),
{
    match turn.command {
        None => Run { pool, outcome: turn.session.outcome() },
        Some(command) => {
            let effect = pool.apply(command);
            play(turn.session.step(effect.reply), effect.pool)
        },
    }
}

/// The run of the operation `request` against `pool`.
pub open spec fn execution(request: RequestView, pool: PoolView) -> Run {
    play(SessionView::start(request), pool)
}

/// The pool after an operation and the result of the operation.
pub struct Settled<T> {
    pub pool: PoolView,
    pub result: Result<T, ApiErrorView>,
}

/// A result as contracts see it.
pub open spec fn result_view<T: View>(result: Result<T, ApiError>) -> Result<T::V, ApiErrorView> {
    match result {
        Ok(value) => Ok(value@),
        Err(failure) => Err(failure@),
    }
}

/// The result of an operation that hands back nothing, as contracts see
/// it.
pub open spec fn unit_result_view(result: Result<(), ApiError>) -> Result<(), ApiErrorView> {
    match result {
        Ok(_) => Ok(()),
        Err(failure) => Err(failure@),
    }
}

/// The failure where the pool has no connection to lease.
pub open spec fn pool_exhausted() -> ApiErrorView {
    ApiErrorView { kind: ErrorKind::ConnectionFailure, message: POOL_EXHAUSTED@ }
}

/// The failure where a transaction has been left open on the store.
pub open spec fn transaction_open() -> ApiErrorView {
    ApiErrorView { kind: ErrorKind::StoreFailure, message: TRANSACTION_OPEN@ }
}

/// The turn that sends the first statement of `request`.
pub open spec fn first_statement(request: RequestView) -> Turn {
    SessionView::start(request).session.send_first()
}

/// The pool once a session has its connection and, where it asked for
/// one, its transaction.
pub open spec fn opened(pool: PoolView, transactional: bool) -> PoolView {
    PoolView {
        leased: pool.leased + 1,
        saved: if transactional {
            Some(pool.tables)
        } else {
            pool.saved
        },
        ..pool
    }
}

/// The pool once a session has ended its transaction, if it had one, and
/// given its connection back.
pub open spec fn closed(pool: PoolView, transactional: bool) -> PoolView {
    PoolView {
        leased: (pool.leased - 1) as nat,
        saved: if transactional {
            None
        } else {
            pool.saved
        },
        ..pool
    }
}

/// The session with other progress.
pub open spec fn gathered(session: SessionView, progress: ProgressView) -> SessionView {
    SessionView { progress, ..session }
}

/// The progress of a session that has gathered nothing.
pub open spec fn nothing() -> ProgressView {
    ProgressView { ruleset: None, response: None }
}

/// The progress with the response known.
pub open spec fn answered(progress: ProgressView, response: ResponseView) -> ProgressView {
    ProgressView { response: Some(response), ..progress }
}

/// A run goes on with the reply to its pending command.
pub proof fn lemma_play_step(turn: Turn, pool: PoolView)
    requires
        turn.command is Some,
    ensures
        play(turn, pool) == play(
            turn.session.step(pool.apply(turn.command->Some_0).reply),
            pool.apply(turn.command->Some_0).pool,
        ),
{
}

/// How a run begins: without a connection to lease it is over, and so it
/// is where it needs a transaction and one is open; otherwise the first
/// statement goes out on the leased connection.
pub proof fn lemma_run_opens(request: RequestView, pool: PoolView)
    ensures
        execution(request, pool) == if pool.leased >= pool.capacity {
            Run { pool, outcome: Err(pool_exhausted()) }
        } else if request.transactional() && pool.saved is Some {
            Run { pool, outcome: Err(transaction_open()) }
        } else {
            play(first_statement(request), opened(pool, request.transactional()))
        },
{
    let start = SessionView::start(request);
    lemma_play_step(start, pool);
    if pool.leased >= pool.capacity {
        reveal_with_fuel(play, 2);
    } else {
        let leased = PoolView { leased: pool.leased + 1, ..pool };
        assert(pool.apply(CommandView::Acquire).pool == leased);
        if request.transactional() {
            let begin = start.session.step(ReplyView::Done);
            assert(begin.command == Some(CommandView::Begin));
            lemma_play_step(begin, leased);
            if pool.saved is Some {
                let release = begin.session.step(leased.apply(CommandView::Begin).reply);
                assert(release.command == Some(CommandView::Release));
                lemma_play_step(release, leased);
                reveal_with_fuel(play, 2);
                assert(leased.apply(CommandView::Release).pool == pool);
            } else {
                assert(leased.apply(CommandView::Begin).pool == opened(pool, true));
                assert(begin.session.step(ReplyView::Done) == first_statement(request));
            }
        } else {
            assert(leased == opened(pool, false));
            assert(start.session.step(ReplyView::Done) == first_statement(request));
        }
    }
}

/// How a run ends in success: the transaction, if there is one, is
/// committed, the connection is given back, and the outcome is what the
/// session has gathered.
pub proof fn lemma_run_closes(session: SessionView, pool: PoolView)
    requires
        pool.leased > 0,
        session.request.transactional() ==> pool.saved is Some,
    ensures
        play(session.close(), pool) == (Run {
            pool: closed(pool, session.request.transactional()),
            outcome: session.outcome(),
        }),
{
    let close = session.close();
    lemma_play_step(close, pool);
    if session.request.transactional() {
        let committed = PoolView { saved: None, ..pool };
        assert(pool.apply(CommandView::Commit).pool == committed);
        let release = close.session.step(ReplyView::Done);
        assert(release.command == Some(CommandView::Release));
        lemma_play_step(release, committed);
        reveal_with_fuel(play, 2);
    } else {
        reveal_with_fuel(play, 2);
    }
}

/// How a run ends in failure: the transaction, if there is one, is rolled
/// back, the connection is given back, and the outcome is the failure.
pub proof fn lemma_run_abandons(session: SessionView, failure: ApiErrorView, pool: PoolView)
    requires
        pool.leased > 0,
        session.request.transactional() ==> pool.saved is Some,
    ensures
        play(session.failed(failure).abandon(), pool) == (Run {
            pool: if session.request.transactional() {
                PoolView { tables: pool.saved->Some_0, ..closed(pool, true) }
            } else {
                closed(pool, false)
            },
            outcome: Err(failure),
        }),
{
    let abandon = session.failed(failure).abandon();
    lemma_play_step(abandon, pool);
    if session.request.transactional() {
        let undone = PoolView { tables: pool.saved->Some_0, saved: None, ..pool };
        assert(pool.apply(CommandView::Rollback).pool == undone);
        let release = abandon.session.step(ReplyView::Done);
        assert(release.command == Some(CommandView::Release));
        lemma_play_step(release, undone);
        reveal_with_fuel(play, 2);
    } else {
        reveal_with_fuel(play, 2);
    }
}

/// Runs the operation `request` against `pool`.
pub fn run(pool: &mut Pool, request: Request) -> (outcome: Result<Response, ApiError>)
    ensures
        final(pool)@ == execution(request@, old(pool)@).pool,
        outcome_view(outcome) == execution(request@, old(pool)@).outcome,
{
    let (first, command) = Session::start(request);
    let mut session = first;
    let mut pending = Some(command);
    loop
        invariant
            play(turn_view(session, pending), pool@) == execution(request@, old(pool)@),
        ensures
            pending is None,
        decreases turns_left(turn_view(session, pending)),
    {
        match pending {
            None => {
                break ;
            },
            Some(command) => {
                proof {
                    lemma_step_decreases(
                        session@,
                        command@,
                        pool@.apply(command@).reply,
                    );
                }
                let reply = pool.execute(command);
                let (next, asked) = session.step(reply);
                session = next;
                pending = asked;
            },
        }
    }
    session.finish()
}

} // verus!
