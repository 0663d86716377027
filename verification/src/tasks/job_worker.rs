//! Job-polling worker. Each worker claims a batch and dispatches by job
//! kind. Workers stop accepting new work on shutdown but finish whatever's
//! in-flight.
//!
//! The worker is a machine. [`WorkerState`] holds how far it has come; a step
//! takes what happened and says what to do next. The caller does it.

use crate::entropy;
use crate::error::AppError;
use crate::json::{Json, Value};
use crate::services::jobs;
use crate::services::jobs::{Job, JobKind, PlayerSyncPayload};
use crate::text;
use vstd::prelude::*;
use vstd::string::*;

verus! {

/// How long an idle worker waits before it polls again, in milliseconds.
pub const POLL_INTERVAL_MS: u64 = 2_000;

/// How many jobs a worker claims at once.
pub const BATCH_SIZE: i64 = 8;

/// Reap in_progress jobs whose lock is older than this. Slightly above the
/// longest legitimate sync.
pub const STUCK_LOCK_SECS: i64 = 2_700;

/// How often a worker looks for stuck jobs.
pub const REAP_EVERY_SECS: u64 = 120;

/// Why a job failed.
#[derive(Debug, PartialEq)]
pub enum JobError {
    /// Another attempt cannot help.
    Terminal(String),
    /// Another attempt may help.
    Retry(String),
}

/// What a failure says.
pub enum Verdict {
    Terminal(Seq<char>),
    Retry(Seq<char>),
}

impl View for JobError {
    type V = Verdict;

    open spec fn view(&self) -> Verdict {
        match self {
            JobError::Terminal(msg) => Verdict::Terminal(msg@),
            JobError::Retry(msg) => Verdict::Retry(msg@),
        }
    }
}

/// Whether another attempt at a job can help that failed with the given error.
pub open spec fn verdict_on(e: AppError) -> Verdict {
    match e {
        AppError::RoleLinkNotFound => Verdict::Terminal("role link no longer exists upstream"@),
        AppError::UserLimitReached { limit } => Verdict::Terminal(
            "role link user limit reached ("@ + text::dec(limit as nat) + "); retry won't help"@,
        ),
        other => Verdict::Retry(other.shown()),
    }
}

impl JobError {
    /// Whether another attempt can help.
    pub fn from_app(e: &AppError) -> (r: Self)
        ensures
            r@ == verdict_on(*e),
    {
        match e {
            AppError::RoleLinkNotFound => JobError::Terminal(
                "role link no longer exists upstream".to_owned(),
            ),
            AppError::UserLimitReached { limit } => {
                let n = text::decimal(*limit as u128);
                JobError::Terminal(
                    text::join3("role link user limit reached (", n.as_str(), "); retry won't help"),
                )
            },
            other => JobError::Retry(other.message()),
        }
    }
}

/// What a job asks for.
#[derive(Debug, PartialEq)]
pub enum Task {
    Player { discord_id: String },
    RoleLink { guild_id: String, role_id: String },
}

/// What a job asks for, in words.
pub enum TaskView {
    Player(Seq<char>),
    RoleLink(Seq<char>, Seq<char>),
}

impl View for Task {
    type V = TaskView;

    open spec fn view(&self) -> TaskView {
        match self {
            Task::Player { discord_id } => TaskView::Player(discord_id@),
            Task::RoleLink { guild_id, role_id } => TaskView::RoleLink(guild_id@, role_id@),
        }
    }
}

/// The text under a name of a payload, if it has one.
pub open spec fn payload_text(payload: Json, name: Seq<char>) -> Option<Seq<char>> {
    match payload.field(name) {
        Some(v) => v.as_text(),
        None => None,
    }
}

/// What a job asks for, or why it cannot be run. `player` is the payload read as
/// that of a player sync.
pub open spec fn routed(
    kind: Seq<char>,
    payload: Json,
    player: Result<PlayerSyncPayload, String>,
) -> Result<TaskView, Verdict> {
    match JobKind::of_name(kind) {
        None => Err(Verdict::Terminal("unknown job kind '"@ + kind + "'"@)),
        Some(JobKind::PlayerSync) => match player {
            Ok(p) => Ok(TaskView::Player(p.discord_id@)),
            Err(e) => Err(Verdict::Terminal("invalid player_sync payload: "@ + e@)),
        },
        Some(JobKind::ConfigSync) => match (
            payload_text(payload, "guild_id"@),
            payload_text(payload, "role_id"@),
        ) {
            (None, _) => Err(Verdict::Terminal("config_sync missing guild_id"@)),
            (Some(_), None) => Err(Verdict::Terminal("config_sync missing role_id"@)),
            (Some(guild_id), Some(role_id)) => Ok(TaskView::RoleLink(guild_id, role_id)),
        },
    }
}

fn field_text<'a>(payload: &'a Value, name: &str) -> (r: Option<&'a str>)
    ensures
        text::opt_str_view(r) == payload_text(payload@, name@),
{
    match payload.get(name) {
        Some(v) => v.as_str(),
        None => None,
    }
}

/// Find out what a job asks for.
pub fn route(job: &Job, player: Result<PlayerSyncPayload, String>) -> (r: Result<Task, JobError>)
    ensures
        routed(job.kind@, job.payload@, player) == match r {
            Ok(task) => Ok::<TaskView, Verdict>(task@),
            Err(e) => Err::<TaskView, Verdict>(e@),
        },
{
    match JobKind::from_db(job.kind.as_str()) {
        None => Err(
            JobError::Terminal(text::join3("unknown job kind '", job.kind.as_str(), "'")),
        ),
        Some(JobKind::PlayerSync) => match player {
            Ok(p) => Ok(Task::Player { discord_id: p.discord_id }),
            Err(e) => Err(
                JobError::Terminal(text::join2("invalid player_sync payload: ", e.as_str())),
            ),
        },
        Some(JobKind::ConfigSync) => {
            let guild_id = match field_text(&job.payload, "guild_id") {
                Some(s) => s,
                None => return Err(
                    JobError::Terminal("config_sync missing guild_id".to_owned()),
                ),
            };
            let role_id = match field_text(&job.payload, "role_id") {
                Some(s) => s,
                None => return Err(JobError::Terminal("config_sync missing role_id".to_owned())),
            };
            Ok(Task::RoleLink { guild_id: guild_id.to_owned(), role_id: role_id.to_owned() })
        },
    }
}

/// What becomes of a job.
#[derive(Debug, PartialEq)]
pub enum Settlement {
    Complete,
    /// Into the DLQ.
    Dead { error: String },
    /// Another attempt after the delay.
    Retry { error: String, delay_ms: u64 },
}

/// What becomes of a job, in words.
pub enum SettlementView {
    Complete,
    Dead(Seq<char>),
    Retry(Seq<char>, int),
}

impl View for Settlement {
    type V = SettlementView;

    open spec fn view(&self) -> SettlementView {
        match self {
            Settlement::Complete => SettlementView::Complete,
            Settlement::Dead { error } => SettlementView::Dead(error@),
            Settlement::Retry { error, delay_ms } => SettlementView::Retry(
                error@,
                *delay_ms as int,
            ),
        }
    }
}

/// What should become of a job that failed with the given error, or with none.
pub open spec fn settled(
    attempts: int,
    max_attempts: int,
    error: Option<JobError>,
    jitter_ms: int,
) -> SettlementView {
    match error {
        None => SettlementView::Complete,
        Some(JobError::Terminal(msg)) => SettlementView::Dead(msg@),
        Some(JobError::Retry(msg)) => if attempts >= max_attempts {
            SettlementView::Dead(msg@)
        } else {
            SettlementView::Retry(msg@, jobs::backoff_secs(attempts) * 1000 + jitter_ms)
        },
    }
}

/// Decide what becomes of a job, given the jitter of its delay.
pub fn settle(job: &Job, error: Option<JobError>, jitter_ms: u64) -> (r: Settlement)
    requires
        jitter_ms < 1000,
    ensures
        r@ == settled(job.attempts as int, job.max_attempts as int, error, jitter_ms as int),
{
    match error {
        None => Settlement::Complete,
        Some(JobError::Terminal(msg)) => Settlement::Dead { error: msg },
        Some(JobError::Retry(msg)) => if job.attempts >= job.max_attempts {
            Settlement::Dead { error: msg }
        } else {
            Settlement::Retry {
                error: msg,
                delay_ms: jobs::jittered_delay(job.attempts, jitter_ms),
            }
        },
    }
}

/// How far a worker has come.
#[derive(Debug)]
pub enum WorkerState {
    /// At the top of its loop.
    Top,
    /// Waiting for stuck jobs to be reaped.
    Reaping,
    /// Waiting for the jobs it claimed.
    Claiming,
    /// Waiting for the next poll.
    Waiting,
    /// About to take the job at `at`. The jobs before it are settled.
    Next { jobs: Vec<Job>, at: usize },
    /// Running the job at `at`.
    Running { jobs: Vec<Job>, at: usize },
    /// Storing what became of the job before `at`.
    Settling { jobs: Vec<Job>, at: usize },
    Stopped,
}

/// What happened to a worker.
#[derive(Debug)]
pub enum WorkerEvent {
    /// The loop starts over: whether shutdown was asked for, and how long ago the
    /// last look for stuck jobs was.
    LoopStarts { shutdown: bool, since_reap_secs: u64 },
    Reaped,
    Claimed(Vec<Job>),
    ClaimFailed,
    /// The wait is over: whether shutdown ended it.
    Waited { shutdown: bool },
    /// A job is about to be taken: whether shutdown was asked for.
    JobStarts { shutdown: bool },
    /// The job ended with the given error, or with none.
    JobEnded(Option<JobError>),
    /// What became of the job was stored, or could not be.
    Stored,
}

/// What a worker does next.
#[derive(Debug)]
pub enum WorkerAsk {
    /// Start the loop over.
    StartLoop,
    Reap { max_lock_secs: i64 },
    Claim { batch_size: i64 },
    /// Wait for the time or for shutdown.
    Pause { ms: u64 },
    /// Wait for a notification, for the time or for shutdown.
    AwaitWork { ms: u64 },
    /// Start the job that the state holds.
    StartJob,
    /// Run the job that the state holds.
    Dispatch,
    /// Store what became of a job.
    Store { id: i64, settlement: Settlement },
    Stop,
}

/// True when the worker goes on as it should behind the jobs before `at`.
pub open spec fn takes_next(
    jobs: Vec<Job>,
    at: int,
    r: Option<(WorkerState, WorkerAsk)>,
) -> bool {
    if at < jobs@.len() {
        r matches Some((WorkerState::Next { jobs: j, at: a }, WorkerAsk::StartJob)) && j == jobs
            && a == at
    } else {
        r == Some((WorkerState::Top, WorkerAsk::StartLoop))
    }
}

/// True when a step of a worker is as it should be. An event that the state does
/// not wait for leads nowhere.
pub open spec fn worker_stepped(
    state: WorkerState,
    event: WorkerEvent,
    jitter_ms: int,
    r: Option<(WorkerState, WorkerAsk)>,
) -> bool {
    match (state, event) {
        (WorkerState::Top, WorkerEvent::LoopStarts { shutdown, since_reap_secs }) => r == Some(
            if shutdown {
                (WorkerState::Stopped, WorkerAsk::Stop)
            } else if since_reap_secs >= REAP_EVERY_SECS {
                (WorkerState::Reaping, WorkerAsk::Reap { max_lock_secs: STUCK_LOCK_SECS })
            } else {
                (WorkerState::Claiming, WorkerAsk::Claim { batch_size: BATCH_SIZE })
            },
        ),
        (WorkerState::Reaping, WorkerEvent::Reaped) => r == Some(
            (WorkerState::Claiming, WorkerAsk::Claim { batch_size: BATCH_SIZE }),
        ),
        (WorkerState::Claiming, WorkerEvent::ClaimFailed) => r == Some(
            (WorkerState::Waiting, WorkerAsk::Pause { ms: POLL_INTERVAL_MS }),
        ),
        (WorkerState::Claiming, WorkerEvent::Claimed(jobs)) => if jobs@.len() == 0 {
            r == Some((WorkerState::Waiting, WorkerAsk::AwaitWork { ms: POLL_INTERVAL_MS }))
        } else {
            takes_next(jobs, 0, r)
        },
        (WorkerState::Waiting, WorkerEvent::Waited { shutdown }) => r == Some(
            if shutdown {
                (WorkerState::Stopped, WorkerAsk::Stop)
            } else {
                (WorkerState::Top, WorkerAsk::StartLoop)
            },
        ),
        (WorkerState::Next { jobs, at }, WorkerEvent::JobStarts { shutdown }) => if at
            < jobs@.len() {
            if shutdown {
                &&& r matches Some((next, WorkerAsk::Store { id, settlement }))
                &&& next == WorkerState::Settling { jobs, at: (at + 1) as usize }
                &&& id == jobs@[at as int].id
                &&& settlement@ == SettlementView::Retry(
                    "worker shutting down"@,
                    jobs::backoff_secs(jobs@[at as int].attempts as int) * 1000 + jitter_ms,
                )
            } else {
                r == Some((WorkerState::Running { jobs, at }, WorkerAsk::Dispatch))
            }
        } else {
            r is None
        },
        (WorkerState::Running { jobs, at }, WorkerEvent::JobEnded(error)) => if at < jobs@.len() {
            &&& r matches Some((next, WorkerAsk::Store { id, settlement }))
            &&& next == WorkerState::Settling { jobs, at: (at + 1) as usize }
            &&& id == jobs@[at as int].id
            &&& settlement@ == settled(
                jobs@[at as int].attempts as int,
                jobs@[at as int].max_attempts as int,
                error,
                jitter_ms,
            )
        } else {
            r is None
        },
        (WorkerState::Settling { jobs, at }, WorkerEvent::Stored) => takes_next(
            jobs,
            at as int,
            r,
        ),
        _ => r is None,
    }
}

fn take_next(jobs: Vec<Job>, at: usize) -> (r: Option<(WorkerState, WorkerAsk)>)
    ensures
        takes_next(jobs, at as int, r),
{
    if at < jobs.len() {
        Some((WorkerState::Next { jobs, at }, WorkerAsk::StartJob))
    } else {
        Some((WorkerState::Top, WorkerAsk::StartLoop))
    }
}

/// One step of a worker.
pub fn worker_step(state: WorkerState, event: WorkerEvent) -> (r: Option<(WorkerState, WorkerAsk)>)
    ensures
        exists|jitter_ms: int|
            0 <= jitter_ms < 1000 && #[trigger] worker_stepped(state, event, jitter_ms, r),
{
    let jitter_ms: u64 = entropy::random_below(1000);
    worker_step_with(state, event, jitter_ms)
}

/// One step of a worker, given the jitter of a delay.
pub fn worker_step_with(state: WorkerState, event: WorkerEvent, jitter_ms: u64) -> (r: Option<
    (WorkerState, WorkerAsk),
>)
    requires
        jitter_ms < 1000,
    ensures
        worker_stepped(state, event, jitter_ms as int, r),
{
    match (state, event) {
        (WorkerState::Top, WorkerEvent::LoopStarts { shutdown, since_reap_secs }) => Some(
            if shutdown {
                (WorkerState::Stopped, WorkerAsk::Stop)
            } else if since_reap_secs >= REAP_EVERY_SECS {
                (WorkerState::Reaping, WorkerAsk::Reap { max_lock_secs: STUCK_LOCK_SECS })
            } else {
                (WorkerState::Claiming, WorkerAsk::Claim { batch_size: BATCH_SIZE })
            },
        ),
        (WorkerState::Reaping, WorkerEvent::Reaped) => Some(
            (WorkerState::Claiming, WorkerAsk::Claim { batch_size: BATCH_SIZE }),
        ),
        (WorkerState::Claiming, WorkerEvent::ClaimFailed) => Some(
            (WorkerState::Waiting, WorkerAsk::Pause { ms: POLL_INTERVAL_MS }),
        ),
        (WorkerState::Claiming, WorkerEvent::Claimed(jobs)) => if jobs.len() == 0 {
            Some((WorkerState::Waiting, WorkerAsk::AwaitWork { ms: POLL_INTERVAL_MS }))
        } else {
            take_next(jobs, 0)
        },
        (WorkerState::Waiting, WorkerEvent::Waited { shutdown }) => Some(
            if shutdown {
                (WorkerState::Stopped, WorkerAsk::Stop)
            } else {
                (WorkerState::Top, WorkerAsk::StartLoop)
            },
        ),
        (WorkerState::Next { jobs, at }, WorkerEvent::JobStarts { shutdown }) => {
            if at >= jobs.len() {
                return None;
            }
            if shutdown {
                let id: i64 = jobs[at].id;
                let settlement = Settlement::Retry {
                    error: "worker shutting down".to_owned(),
                    delay_ms: jobs::jittered_delay(jobs[at].attempts, jitter_ms),
                };
                Some(
                    (
                        WorkerState::Settling { jobs, at: at + 1 },
                        WorkerAsk::Store { id, settlement },
                    ),
                )
            } else {
                Some((WorkerState::Running { jobs, at }, WorkerAsk::Dispatch))
            }
        },
        (WorkerState::Running { jobs, at }, WorkerEvent::JobEnded(error)) => {
            if at >= jobs.len() {
                return None;
            }
            let id: i64 = jobs[at].id;
            let settlement = settle(&jobs[at], error, jitter_ms);
            Some(
                (
                    WorkerState::Settling { jobs, at: at + 1 },
                    WorkerAsk::Store { id, settlement },
                ),
            )
        },
        (WorkerState::Settling { jobs, at }, WorkerEvent::Stored) => take_next(jobs, at),
        _ => None,
    }
}

/// A job is retried only while it has attempts left, and never after an error that
/// another attempt cannot help.
pub proof fn law_retries_are_bounded(
    attempts: int,
    max_attempts: int,
    error: Option<JobError>,
    jitter_ms: int,
)
    ensures
        settled(attempts, max_attempts, error, jitter_ms) is Retry ==> attempts < max_attempts
            && error is Some && error->0 is Retry,
{
}

/// A role link that is gone and a full one are never retried; every other error
/// is.
pub proof fn law_terminal_errors(e: AppError)
    ensures
        verdict_on(e) is Terminal <==> e is RoleLinkNotFound || e is UserLimitReached,
{
}

/// Every claimed job is settled before the worker goes on: a step that leaves a
/// job behind stores what became of it.
pub proof fn law_no_claimed_job_is_dropped(
    state: WorkerState,
    event: WorkerEvent,
    jitter_ms: int,
    next: WorkerState,
    ask: WorkerAsk,
)
    requires
        worker_stepped(state, event, jitter_ms, Some((next, ask))),
    ensures
        state matches WorkerState::Next { jobs, at } ==> next == (WorkerState::Running { jobs, at })
            || (next == (WorkerState::Settling { jobs, at: (at + 1) as usize }) && ask is Store
            && ask->id == jobs@[at as int].id),
        state matches WorkerState::Running { jobs, at } ==> next == (WorkerState::Settling {
            jobs,
            at: (at + 1) as usize,
        }) && ask is Store && ask->id == jobs@[at as int].id,
        state matches WorkerState::Settling { jobs, at } ==> at < jobs@.len() ==> next
            == (WorkerState::Next { jobs, at }),
{
}

/// Once shutdown is asked for, no further job is claimed or started.
pub proof fn law_shutdown_starts_no_job(
    state: WorkerState,
    jitter_ms: int,
    since_reap_secs: u64,
    next: WorkerState,
    ask: WorkerAsk,
)
    requires
        worker_stepped(
            state,
            WorkerEvent::JobStarts { shutdown: true },
            jitter_ms,
            Some((next, ask)),
        ) || worker_stepped(
            state,
            WorkerEvent::LoopStarts { shutdown: true, since_reap_secs },
            jitter_ms,
            Some((next, ask)),
        ) || worker_stepped(
            state,
            WorkerEvent::Waited { shutdown: true },
            jitter_ms,
            Some((next, ask)),
        ),
    ensures
        !(ask is Dispatch) && !(ask is Claim),
{
}

/// True when a state waits for an event.
pub open spec fn awaited(state: WorkerState, event: WorkerEvent) -> bool {
    match state {
        WorkerState::Top => event is LoopStarts,
        WorkerState::Reaping => event is Reaped,
        WorkerState::Claiming => event is Claimed || event is ClaimFailed,
        WorkerState::Waiting => event is Waited,
        WorkerState::Next { jobs, at } => at < jobs@.len() && event is JobStarts,
        WorkerState::Running { jobs, at } => at < jobs@.len() && event is JobEnded,
        WorkerState::Settling { .. } => event is Stored,
        WorkerState::Stopped => false,
    }
}

/// A worker goes on with every event that its state waits for, and with no other.
pub proof fn law_awaited_events_are_taken(
    state: WorkerState,
    event: WorkerEvent,
    jitter_ms: int,
    r: Option<(WorkerState, WorkerAsk)>,
)
    requires
        worker_stepped(state, event, jitter_ms, r),
    ensures
        r is Some <==> awaited(state, event),
{
}

/// One step of a run: what was asked for in which state, and what happened then.
pub struct WorkerMove {
    pub state: WorkerState,
    pub ask: WorkerAsk,
    pub event: WorkerEvent,
    pub jitter_ms: int,
}

/// True when the step behind a move leads to the next one.
pub open spec fn move_leads_on(moves: Seq<WorkerMove>, i: int) -> bool {
    worker_stepped(
        moves[i].state,
        moves[i].event,
        moves[i].jitter_ms,
        Some((moves[i + 1].state, moves[i + 1].ask)),
    )
}

/// True when each move leads to the next one.
pub open spec fn worker_run(moves: Seq<WorkerMove>) -> bool {
    forall|i: int| 0 <= i < moves.len() - 1 ==> #[trigger] move_leads_on(moves, i)
}

/// True for an event that tells of the shutdown.
pub open spec fn says_shutdown(event: WorkerEvent) -> bool {
    match event {
        WorkerEvent::LoopStarts { shutdown, .. } => shutdown,
        WorkerEvent::Waited { shutdown } => shutdown,
        WorkerEvent::JobStarts { shutdown } => shutdown,
        _ => false,
    }
}

/// True for an event that could tell of the shutdown and does not.
pub open spec fn denies_shutdown(event: WorkerEvent) -> bool {
    (event is LoopStarts || event is Waited || event is JobStarts) && !says_shutdown(event)
}

/// How many steps a worker takes until it stops, once it has been told of the
/// shutdown: two for each job that it holds and has not settled, one to find its
/// batch done, and one to stop.
pub open spec fn steps_left(state: WorkerState) -> int {
    match state {
        WorkerState::Top => 1,
        WorkerState::Waiting => 1,
        WorkerState::Next { jobs, at } => 2 * (jobs@.len() - at) + 1,
        WorkerState::Settling { jobs, at } => 2 * (jobs@.len() - at) + 2,
        _ => 0,
    }
}

/// True when a move may follow once a worker has been told of the shutdown: no job
/// is claimed, reaped or run, and a job that is stored is released for another
/// attempt.
pub open spec fn winds_down(m: WorkerMove) -> bool {
    &&& match m.state {
        WorkerState::Top => m.ask is StartLoop,
        WorkerState::Next { jobs, at } => at < jobs@.len() && m.ask is StartJob,
        WorkerState::Settling { jobs, at } => at <= jobs@.len() && m.ask is Store,
        WorkerState::Stopped => m.ask is Stop,
        _ => false,
    }
    &&& m.ask matches WorkerAsk::Store { settlement, .. } ==> (settlement@ matches
        SettlementView::Retry(why, _) && why == "worker shutting down"@)
}

proof fn lemma_winds_down(moves: Seq<WorkerMove>, k: int, j: int)
    requires
        worker_run(moves),
        0 <= k < j < moves.len(),
        says_shutdown(moves[k].event),
        forall|i: int| k < i < moves.len() - 1 ==> !denies_shutdown(#[trigger] moves[i].event),
    ensures
        winds_down(moves[j]),
        j - k + steps_left(moves[j].state) == steps_left(moves[k].state),
    decreases j,
{
    assert(move_leads_on(moves, j - 1));
    if j - 1 > k {
        lemma_winds_down(moves, k, j - 1);
        assert(!denies_shutdown(moves[j - 1].event));
    }
    if let WorkerState::Next { jobs, at } = moves[j - 1].state {
        assert(jobs@.len() == jobs.len());
    }
}

/// Once a worker has been told of the shutdown, and is told so from then on, it
/// claims, reaps and runs no job any more, releases the jobs that it still holds for
/// another attempt, and stops after [`steps_left`] steps.
pub proof fn law_shutdown_ends_the_run(moves: Seq<WorkerMove>, k: int)
    requires
        worker_run(moves),
        0 <= k < moves.len() - 1,
        says_shutdown(moves[k].event),
        forall|i: int| k < i < moves.len() - 1 ==> !denies_shutdown(#[trigger] moves[i].event),
    ensures
        forall|j: int|
            k < j < moves.len() ==> {
                &&& winds_down(#[trigger] moves[j])
                &&& !(moves[j].ask is Claim || moves[j].ask is Dispatch || moves[j].ask is Reap)
                &&& moves[j].state is Stopped <==> j - k == steps_left(moves[k].state)
            },
        moves.len() - 1 - k <= steps_left(moves[k].state),
{
    assert forall|j: int| k < j < moves.len() implies {
        &&& winds_down(#[trigger] moves[j])
        &&& !(moves[j].ask is Claim || moves[j].ask is Dispatch || moves[j].ask is Reap)
        &&& moves[j].state is Stopped <==> j - k == steps_left(moves[k].state)
    } by {
        lemma_winds_down(moves, k, j);
    }
    lemma_winds_down(moves, k, moves.len() - 1);
}

/// What is enqueued for a role link comes back as the sync of that role link.
pub proof fn law_config_syncs_are_routed_to_their_link(
    guild_id: &str,
    role_id: &str,
    job: jobs::NewJob,
    player: Result<PlayerSyncPayload, String>,
)
    requires
        call_ensures(jobs::config_sync_job, (guild_id, role_id), job),
    ensures
        routed(job.kind.key(), job.payload@, player) == Ok::<TaskView, Verdict>(
            TaskView::RoleLink(guild_id@, role_id@),
        ),
        job.delay_secs == 5,
{
    jobs::law_kind_round_trip(JobKind::ConfigSync);
    reveal_strlit("guild_id");
    reveal_strlit("role_id");
    assert("guild_id"@[0] == 'g' && "role_id"@[0] == 'r');
    let fields = job.payload@->Fields_0;
    assert(fields[0] == ("guild_id"@, Json::Text(guild_id@)));
    assert(fields.skip(1)[0] == ("role_id"@, Json::Text(role_id@)));
    reveal_with_fuel(crate::json::field_of, 3);
}

/// What is enqueued for a player comes back as the sync of the player that its
/// payload is read as; a payload that cannot be read is never retried.
pub proof fn law_player_syncs_are_routed_to_their_player(
    payload: Json,
    player: Result<PlayerSyncPayload, String>,
)
    ensures
        player matches Ok(p) ==> routed(JobKind::PlayerSync.key(), payload, player) == Ok::<
            TaskView,
            Verdict,
        >(TaskView::Player(p.discord_id@)),
        player is Err ==> (routed(JobKind::PlayerSync.key(), payload, player) matches Err(v) && v
            is Terminal),
{
    jobs::law_kind_round_trip(JobKind::PlayerSync);
}

/// A job is routed exactly when its kind is known and its payload names what the kind
/// asks for; anything else is never retried.
pub proof fn law_unroutable_jobs_are_terminal(
    kind: Seq<char>,
    payload: Json,
    player: Result<PlayerSyncPayload, String>,
)
    ensures
        routed(kind, payload, player) matches Err(v) ==> v is Terminal,
        kind != JobKind::PlayerSync.key() && kind != JobKind::ConfigSync.key() ==> routed(
            kind,
            payload,
            player,
        ) is Err,
        kind == JobKind::ConfigSync.key() ==> (routed(kind, payload, player) is Ok <==> (
        payload.field("guild_id"@) matches Some(Json::Text(_))) && (payload.field(
            "role_id"@,
        ) matches Some(Json::Text(_)))),
{
    jobs::law_kind_round_trip(JobKind::PlayerSync);
    jobs::law_kind_round_trip(JobKind::ConfigSync);
}

/// A job that succeeded is complete; one that failed for good, or for the last time, is
/// dead; any other is tried again, later for every attempt. Nothing is lost of why it
/// failed.
pub proof fn law_outcomes_settle_jobs(
    attempts: int,
    max_attempts: int,
    error: Option<JobError>,
    jitter_ms: int,
)
    ensures
        error is None <==> settled(attempts, max_attempts, error, jitter_ms) is Complete,
        error matches Some(JobError::Terminal(msg)) ==> settled(
            attempts,
            max_attempts,
            error,
            jitter_ms,
        ) == SettlementView::Dead(msg@),
        error matches Some(JobError::Retry(msg)) ==> (if attempts >= max_attempts {
            settled(attempts, max_attempts, error, jitter_ms) == SettlementView::Dead(msg@)
        } else {
            &&& settled(attempts, max_attempts, error, jitter_ms) matches SettlementView::Retry(
                why,
                delay,
            )
            &&& why == msg@
            &&& 2_000 + jitter_ms <= delay <= 256_000 + jitter_ms
            &&& 1 <= attempts < 8 && attempts + 1 < max_attempts ==> (settled(
                attempts + 1,
                max_attempts,
                error,
                jitter_ms,
            ) matches SettlementView::Retry(_, next) && next - jitter_ms == 2 * (delay - jitter_ms))
        }),
{
    jobs::law_backoff_doubles_and_caps(attempts);
}

/// A batch is run in its order: the job that is started is the first that is not
/// settled, and what is stored of a job is stored under its id.
pub proof fn law_batches_run_in_order(moves: Seq<WorkerMove>, i: int)
    requires
        worker_run(moves),
        0 <= i < moves.len() - 1,
    ensures
        moves[i].event matches WorkerEvent::Claimed(jobs) ==> jobs@.len() > 0 ==> moves[i + 1].state
            == (WorkerState::Next { jobs, at: 0 }) && moves[i + 1].ask is StartJob,
        moves[i].state matches WorkerState::Next { jobs, at } ==> (moves[i].event
            == WorkerEvent::JobStarts { shutdown: false } ==> moves[i + 1].state
            == (WorkerState::Running { jobs, at }) && moves[i + 1].ask is Dispatch),
        moves[i].state matches WorkerState::Running { jobs, at } ==> (moves[i + 1].state
            == (WorkerState::Settling { jobs, at: (at + 1) as usize }) && (moves[i + 1].ask matches
            WorkerAsk::Store { id, settlement } && id == jobs@[at as int].id && (
        moves[i].event == WorkerEvent::JobEnded(None) ==> settlement@ is Complete))),
        moves[i].state matches WorkerState::Settling { jobs, at } ==> at >= jobs@.len()
            ==> moves[i + 1].state is Top,
        moves[i].state is Top && moves[i + 1].ask is Reap ==> (moves[i].event matches
            WorkerEvent::LoopStarts { since_reap_secs, .. } && since_reap_secs >= 120),
        moves[i + 1].ask matches WorkerAsk::Claim { batch_size } ==> batch_size == 8,
        moves[i + 1].ask matches WorkerAsk::Reap { max_lock_secs } ==> max_lock_secs == 45 * 60,
        moves[i + 1].ask matches WorkerAsk::Pause { ms } ==> ms == 2_000 && moves[i].event
            is ClaimFailed,
        moves[i + 1].ask matches WorkerAsk::AwaitWork { ms } ==> ms == 2_000,
{
    assert(move_leads_on(moves, i));
}

} // verus!
