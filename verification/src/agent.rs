//! The worker: an agent that lives for one task.
//!
//! A worker is created `Spawning`, becomes `Active` when spawned, passes
//! through `Solving` to `Completed` while it solves its task, and ends in
//! `Dissolving`. Each step is taken only from the state before it; a call in
//! any other state is refused and changes nothing. A worker that is reset
//! starts a new activation cycle at `Active`, with nothing left of the cycle
//! before: no task, no result, no start or completion time, no lifespan.
//!
//! Every operation that needs the time or a fresh identifier exists twice:
//! once taking them as arguments, with an exact contract, and once reading
//! them from the clock and the identifier source.

use vstd::prelude::*;
use crate::analysis::{
    alternatives_spec,
    analyze_execution_context,
    context_spec,
    find_similar_patterns,
    generate_alternatives,
    match_report_spec,
    no_alternatives,
    no_context,
    no_matches,
    AlternativeReport,
    AlternativeReportView,
    ContextReport,
    MatchReport,
    MatchReportView,
    FAILURE_WINDOW,
    MATCH_WINDOW,
};
use crate::clock::{
    day_of_week,
    day_of_week_spec,
    elapsed_millis,
    elapsed_spec,
    fresh_id,
    hour_of_day,
    hour_of_day_spec,
    now_millis,
};
use crate::digest::{content_hash, content_hash_spec};
use crate::features::{encode, encode_spec, in_unit, signals};
use crate::fixed::SCALE;
use crate::payload::{task_of_payload, Task};
use crate::predictor::{predict, predict_spec, Prediction, NEUTRAL_RATE};
use crate::status::{AgentStatus, AgentType};
use crate::store::{
    aggregate_spec,
    append_counts,
    attempts,
    hourly_spec,
    newest,
    successes,
    ExecutionPattern,
    PatternStore,
    PatternView,
    Selector,
};
use crate::text::{
    concat,
    count_words,
    decimal,
    push_decimal,
    push_str,
    reversed,
    string_of,
    to_upper,
    uppercase,
    utf8_len,
    word_count,
};

verus! {

/// Simulated cost of spawning a worker, in milliseconds.
pub const SPAWN_COST_MS: u64 = 5;

/// Simulated cost of dissolving a worker, in milliseconds.
pub const DISSOLVE_COST_MS: u64 = 10;

/// Spawn time that a worker reports in its metrics, in milliseconds.
pub const REPORTED_SPAWN_MS: u64 = 50;

/// Simulated cost of solving a task, by worker kind, in milliseconds.
pub open spec fn solve_cost_spec(kind: AgentType) -> u64 {
    match kind {
        AgentType::Solver => 30,
        AgentType::Analyzer => 40,
        AgentType::Optimizer => 35,
        AgentType::PatternMatcher => 25,
        AgentType::OutcomePredictor => 30,
        AgentType::AlternativeGen => 35,
        AgentType::ContextAnalyzer => 28,
        AgentType::ErrorAnalyzer => 30,
        AgentType::PerformanceAnalyzer => 32,
    }
}

/// Simulated cost of solving a task, by worker kind, in milliseconds.
pub fn solve_cost_ms(kind: AgentType) -> (r: u64)
    ensures
        r == solve_cost_spec(kind),
{
    match kind {
        AgentType::Solver => 30,
        AgentType::Analyzer => 40,
        AgentType::Optimizer => 35,
        AgentType::PatternMatcher => 25,
        AgentType::OutcomePredictor => 30,
        AgentType::AlternativeGen => 35,
        AgentType::ContextAnalyzer => 28,
        AgentType::ErrorAnalyzer => 30,
        AgentType::PerformanceAnalyzer => 32,
    }
}

/// Why a worker refused an operation.
#[derive(Debug, Clone, Copy, PartialEq, Eq, Structural)]
pub enum AgentError {
    /// The lifecycle does not lead from the state of the worker to the
    /// state that the operation enters.
    InvalidTransition { from: AgentStatus, to: AgentStatus },
}

/// Why a task failed.
#[derive(Debug, Clone, Copy, PartialEq, Eq, Structural)]
pub enum SolveFailure {
    /// The pattern log could not be read.
    Store,
    /// The worker refused.
    Refused(AgentError),
}

/// The numbers of a worker.
#[derive(Debug, Clone, Copy, PartialEq, Eq, Structural)]
pub struct AgentMetrics {
    pub id: u128,
    pub agent_type: AgentType,
    pub status: AgentStatus,
    pub lifespan_ms: u64,
    pub spawn_time_ms: u64,
    pub solve_time_ms: u64,
    pub dissolve_time_ms: u64,
}

/// What a solving worker reads from outside: the time, an identifier for
/// the record it appends, and the estimate of the numeric model, if one is
/// at hand.
#[derive(Debug, Clone, Copy, PartialEq, Eq, Structural)]
pub struct SolveEnv {
    pub now_ms: i64,
    pub pattern_id: u128,
    pub neural: Option<u64>,
}

/// A predicted outcome, as a worker reports it.
#[derive(Debug, Clone, Copy, PartialEq, Eq, Structural)]
pub struct OutcomeReport {
    pub prediction: Prediction,
    /// Whether a pattern log was at hand.
    pub store_available: bool,
}

/// The report of a worker that has no pattern log: an even chance, held
/// with a confidence of `0.1`.
pub open spec fn no_prediction() -> OutcomeReport {
    OutcomeReport {
        prediction: Prediction {
            success_rate: NEUTRAL_RATE,
            confidence: 100_000,
            historical_attempts: 0,
            estimated_duration_ms: 0,
            neural_used: false,
        },
        store_available: false,
    }
}

/// The illustrative figures that a performance analysis reports.
#[derive(Debug, Clone, Copy, PartialEq, Eq, Structural)]
pub struct PerformanceReport {
    pub latency_p95_ms: u64,
    pub throughput: u64,
    /// In millionths.
    pub error_rate: u64,
}

/// The figures of every performance analysis.
pub open spec fn performance_figures() -> PerformanceReport {
    PerformanceReport { latency_p95_ms: 250, throughput: 1000, error_rate: 10_000 }
}

/// What a worker produced.
#[derive(Debug, Clone)]
pub enum Solution {
    /// The text of a solver, an analyzer or an optimizer.
    Text(String),
    Patterns(MatchReport),
    Prediction(OutcomeReport),
    Alternatives(AlternativeReport),
    Context(ContextReport),
    /// The fixed findings of an error analysis.
    ErrorAnalysis,
    Performance(PerformanceReport),
}

/// The value that a [`Solution`] stands for in contracts.
pub enum SolutionView {
    Text(Seq<char>),
    Patterns(MatchReportView),
    Prediction(OutcomeReport),
    Alternatives(AlternativeReportView),
    Context(ContextReport),
    ErrorAnalysis,
    Performance(PerformanceReport),
}

impl View for Solution {
    type V = SolutionView;

    open spec fn view(&self) -> SolutionView {
        match self {
            Solution::Text(s) => SolutionView::Text(s@),
            Solution::Patterns(r) => SolutionView::Patterns(r@),
            Solution::Prediction(r) => SolutionView::Prediction(*r),
            Solution::Alternatives(r) => SolutionView::Alternatives(r@),
            Solution::Context(r) => SolutionView::Context(*r),
            Solution::ErrorAnalysis => SolutionView::ErrorAnalysis,
            Solution::Performance(r) => SolutionView::Performance(*r),
        }
    }
}

/// The text that stands for a solution in the worker and in the pattern
/// log: the text itself, or the name of the report.
pub open spec fn outcome_text(solution: SolutionView) -> Seq<char> {
    match solution {
        SolutionView::Text(s) => s,
        SolutionView::Patterns(_) => "patterns"@,
        SolutionView::Prediction(_) => "prediction"@,
        SolutionView::Alternatives(_) => "alternatives"@,
        SolutionView::Context(_) => "context"@,
        SolutionView::ErrorAnalysis => "error_analysis"@,
        SolutionView::Performance(_) => "performance"@,
    }
}

impl Solution {
    /// The text that stands for the solution in the worker and in the
    /// pattern log.
    pub fn outcome(&self) -> (r: String)
        ensures
            r@ == outcome_text(self@),
    {
        match self {
            Solution::Text(s) => s.clone(),
            Solution::Patterns(_) => String::from_str("patterns"),
            Solution::Prediction(_) => String::from_str("prediction"),
            Solution::Alternatives(_) => String::from_str("alternatives"),
            Solution::Context(_) => String::from_str("context"),
            Solution::ErrorAnalysis => String::from_str("error_analysis"),
            Solution::Performance(_) => String::from_str("performance"),
        }
    }

    /// The causes that every error analysis names.
    pub fn common_error_causes() -> (r: Vec<&'static str>)
        ensures
            r@.len() == 2,
            r@[0]@ == "network_timeout"@,
            r@[1]@ == "auth_failure"@,
    {
        let mut causes: Vec<&'static str> = Vec::new();
        causes.push("network_timeout");
        causes.push("auth_failure");
        causes
    }

    /// The resolution that every error analysis advises.
    pub fn error_resolution() -> (r: &'static str)
        ensures
            r@ == "retry_with_backoff"@,
    {
        "retry_with_backoff"
    }

    /// The bottleneck that every performance analysis names.
    pub fn performance_bottleneck() -> (r: &'static str)
        ensures
            r@ == "database_query"@,
    {
        "database_query"
    }
}

/// What a solver makes of a problem: the problem reversed.
pub open spec fn solver_text(problem: Seq<char>) -> Seq<char> {
    "Solution: "@ + problem.reverse()
}

/// What an analyzer makes of a problem: the problem with its length in
/// bytes and its number of words.
pub open spec fn analyzer_text(problem: Seq<char>) -> Seq<char> {
    "Analysis: "@ + problem + " (length: "@ + decimal(utf8_len(problem)) + ", words: "@ + decimal(
        word_count(problem),
    ) + ")"@
}

/// What an optimizer makes of a problem: the problem in upper case.
pub open spec fn optimizer_text(problem: Seq<char>) -> Seq<char> {
    "Optimized: "@ + uppercase(problem)
}

/// The solution of a worker of the given kind to a problem, with or without
/// the pattern log `log` at hand.
pub open spec fn solution_spec(
    kind: AgentType,
    store_attached: bool,
    problem: Seq<char>,
    log: Seq<PatternView>,
    env: SolveEnv,
) -> SolutionView {
    let task = task_of_payload(problem);
    match kind {
        AgentType::Solver => SolutionView::Text(solver_text(problem)),
        AgentType::Analyzer => SolutionView::Text(analyzer_text(problem)),
        AgentType::Optimizer => SolutionView::Text(optimizer_text(problem)),
        AgentType::PatternMatcher => SolutionView::Patterns(
            if store_attached {
                match_report_spec(
                    task.params,
                    newest(log, Selector::of_tool(task.tool), MATCH_WINDOW as nat),
                )
            } else {
                no_matches()
            },
        ),
        AgentType::OutcomePredictor => SolutionView::Prediction(
            if store_attached {
                OutcomeReport {
                    prediction: predict_spec(aggregate_spec(log, task.tool), env.neural),
                    store_available: true,
                }
            } else {
                no_prediction()
            },
        ),
        AgentType::AlternativeGen => SolutionView::Alternatives(
            if store_attached {
                alternatives_spec(
                    task,
                    newest(log, Selector::of_failures(task.tool), FAILURE_WINDOW as nat).len(),
                )
            } else {
                no_alternatives()
            },
        ),
        AgentType::ContextAnalyzer => SolutionView::Context(
            if store_attached {
                context_spec(
                    hourly_spec(log, task.tool, hour_of_day_spec(env.now_ms as int) as u32),
                    env.now_ms as int,
                )
            } else {
                no_context()
            },
        ),
        AgentType::ErrorAnalyzer => SolutionView::ErrorAnalysis,
        AgentType::PerformanceAnalyzer => SolutionView::Performance(performance_figures()),
    }
}

/// A worker.
#[derive(Debug, Clone)]
pub struct EphemeralAgent {
    pub id: u128,
    pub agent_type: AgentType,
    pub status: AgentStatus,
    pub created_at: i64,
    pub started_at: Option<i64>,
    pub completed_at: Option<i64>,
    pub lifespan_ms: u64,
    pub problem: Option<String>,
    /// The text that stands for what the worker produced.
    pub solution: Option<String>,
    /// Whether the worker reads and feeds the pattern log.
    pub store_attached: bool,
}

/// The record that a worker appends to the pattern log after solving a
/// problem with the given outcome.
pub open spec fn pattern_spec(
    agent: EphemeralAgent,
    problem: Seq<char>,
    outcome: Seq<char>,
    success: bool,
    env: SolveEnv,
) -> PatternView {
    let task = task_of_payload(problem);
    PatternView {
        id: env.pattern_id,
        tool: task.tool,
        params_json: task.params_json,
        params_hash: content_hash_spec(task.params_json),
        outcome,
        success,
        duration_ms: agent.lifespan_ms,
        timestamp_ms: env.now_ms,
        hour_of_day: hour_of_day_spec(env.now_ms as int) as u32,
        day_of_week: day_of_week_spec(env.now_ms as int) as u32,
        worker_kind: agent.agent_type,
        worker_id: agent.id,
        error: None,
    }
}

/// Each operation of the lifecycle takes the worker to the state that
/// follows the one it is in: none skips a state, none goes back.
pub proof fn operations_step_forward(
    agent: EphemeralAgent,
    now_ms: i64,
    problem: String,
    outcome: String,
)
    ensures
        agent.status == AgentStatus::Spawning ==> agent.status.allows(agent.spawned(now_ms).status),
        agent.status == AgentStatus::Active ==> agent.status.allows(agent.solving(problem).status),
        agent.status == AgentStatus::Solving ==> agent.status.allows(
            agent.completed(outcome).status,
        ),
        agent.status == AgentStatus::Completed ==> agent.status.allows(
            agent.dissolved(now_ms).status,
        ),
        agent.status == AgentStatus::Active ==> agent.solving(problem).status.allows(
            agent.solving(problem).completed(outcome).status,
        ),
{
}

/// Whatever state a worker is reset in, it is idle afterwards: active,
/// without problem, result, start time, completion time or lifespan.
pub proof fn recycled_is_cleared(agent: EphemeralAgent, id: u128, now_ms: i64)
    ensures
        agent.recycled(id, now_ms).is_idle(),
        agent.recycled(id, now_ms).status == AgentStatus::Active,
        agent.recycled(id, now_ms).problem is None,
        agent.recycled(id, now_ms).solution is None,
        agent.recycled(id, now_ms).started_at is None,
        agent.recycled(id, now_ms).completed_at is None,
        agent.recycled(id, now_ms).lifespan_ms == 0,
        agent.recycled(id, now_ms).agent_type == agent.agent_type,
{
}

/// The record of an execution adds one attempt to the history of the kind
/// of its task, and one success if the execution succeeded.
pub proof fn execution_adds_to_history(
    log: Seq<PatternView>,
    agent: EphemeralAgent,
    problem: Seq<char>,
    outcome: Seq<char>,
    success: bool,
    env: SolveEnv,
)
    ensures
        ({
            let tool = task_of_payload(problem).tool;
            let grown = log.push(pattern_spec(agent, problem, outcome, success, env));
            &&& attempts(grown, Selector::of_tool(tool)) == attempts(log, Selector::of_tool(tool))
                + 1
            &&& successes(grown, Selector::of_tool(tool)) == successes(
                log,
                Selector::of_tool(tool),
            ) + if success {
                1nat
            } else {
                0nat
            }
        }),
{
    append_counts(
        log,
        pattern_spec(agent, problem, outcome, success, env),
        task_of_payload(problem).tool,
    );
}

/// An example for the numeric model to learn from.
#[derive(Debug, Clone)]
pub struct TrainingExample {
    /// The encoded task.
    pub features: Vec<u64>,
    /// `1.0` for a success, `0.0` for a failure.
    pub target: u64,
}

impl EphemeralAgent {
    /// A worker as it is created.
    pub open spec fn created(
        agent_type: AgentType,
        id: u128,
        now_ms: i64,
        store_attached: bool,
    ) -> EphemeralAgent {
        EphemeralAgent {
            id,
            agent_type,
            status: AgentStatus::Spawning,
            created_at: now_ms,
            started_at: None,
            completed_at: None,
            lifespan_ms: 0,
            problem: None,
            solution: None,
            store_attached,
        }
    }

    /// The worker after it was spawned at `now_ms`.
    pub open spec fn spawned(self, now_ms: i64) -> EphemeralAgent {
        EphemeralAgent { status: AgentStatus::Active, started_at: Some(now_ms), ..self }
    }

    /// The worker after it took up `problem`.
    pub open spec fn solving(self, problem: String) -> EphemeralAgent {
        EphemeralAgent { status: AgentStatus::Solving, problem: Some(problem), ..self }
    }

    /// The worker after it produced `outcome`.
    pub open spec fn completed(self, outcome: String) -> EphemeralAgent {
        EphemeralAgent { status: AgentStatus::Completed, solution: Some(outcome), ..self }
    }

    /// The lifespan of a worker that ends at `now_ms`: the time since it was
    /// started, what it was before if it never was.
    pub open spec fn lifespan_at(self, now_ms: i64) -> u64 {
        match self.started_at {
            Some(start) => elapsed_spec(start as int, now_ms as int) as u64,
            None => self.lifespan_ms,
        }
    }

    /// The worker after it was dissolved at `now_ms`.
    pub open spec fn dissolved(self, now_ms: i64) -> EphemeralAgent {
        EphemeralAgent {
            status: AgentStatus::Dissolving,
            completed_at: Some(now_ms),
            lifespan_ms: self.lifespan_at(now_ms),
            ..self
        }
    }

    /// The worker after it was reset at `now_ms` under the identifier `id`:
    /// nothing is left of the task it had, neither its start nor its
    /// completion time, and it is active.
    pub open spec fn recycled(self, id: u128, now_ms: i64) -> EphemeralAgent {
        EphemeralAgent {
            id,
            agent_type: self.agent_type,
            status: AgentStatus::Active,
            created_at: now_ms,
            started_at: None,
            completed_at: None,
            lifespan_ms: 0,
            problem: None,
            solution: None,
            store_attached: self.store_attached,
        }
    }

    /// Whether the worker can take a task: active, without task, result,
    /// completion time or lifespan.
    pub open spec fn is_ready(self) -> bool {
        &&& self.status == AgentStatus::Active
        &&& self.problem is None
        &&& self.solution is None
        &&& self.completed_at is None
        &&& self.lifespan_ms == 0
    }

    /// Whether the worker is fit to wait in a pool: ready for a task, and
    /// without a start time.
    pub open spec fn is_idle(self) -> bool {
        &&& self.is_ready()
        &&& self.started_at is None
    }

    /// The numbers of the worker.
    pub open spec fn metrics_spec(self) -> AgentMetrics {
        AgentMetrics {
            id: self.id,
            agent_type: self.agent_type,
            status: self.status,
            lifespan_ms: self.lifespan_ms,
            spawn_time_ms: REPORTED_SPAWN_MS,
            solve_time_ms: solve_cost_spec(self.agent_type),
            dissolve_time_ms: DISSOLVE_COST_MS,
        }
    }

    /// Creates a worker of the given kind with the identifier `id` at the
    /// time `now_ms`, with or without access to the pattern log.
    pub fn create(agent_type: AgentType, id: u128, now_ms: i64, store_attached: bool) -> (r:
        EphemeralAgent)
        ensures
            r == Self::created(agent_type, id, now_ms, store_attached),
    {
        EphemeralAgent {
            id,
            agent_type,
            status: AgentStatus::Spawning,
            created_at: now_ms,
            started_at: None,
            completed_at: None,
            lifespan_ms: 0,
            problem: None,
            solution: None,
            store_attached,
        }
    }

    /// Creates a worker of the given kind without access to the pattern
    /// log, under a fresh identifier, at the current time.
    pub fn new(agent_type: AgentType) -> (r: EphemeralAgent)
        ensures
            r == Self::created(agent_type, r.id, r.created_at, false),
    {
        Self::create(agent_type, fresh_id(), now_millis(), false)
    }

    /// Creates a worker of the given kind with access to the pattern log,
    /// under a fresh identifier, at the current time.
    pub fn with_db_pool(agent_type: AgentType) -> (r: EphemeralAgent)
        ensures
            r == Self::created(agent_type, r.id, r.created_at, true),
    {
        Self::create(agent_type, fresh_id(), now_millis(), true)
    }

    /// A copy of the worker.
    pub fn duplicate(&self) -> (r: EphemeralAgent)
        ensures
            r == *self,
    {
        EphemeralAgent {
            id: self.id,
            agent_type: self.agent_type,
            status: self.status,
            created_at: self.created_at,
            started_at: self.started_at,
            completed_at: self.completed_at,
            lifespan_ms: self.lifespan_ms,
            problem: match &self.problem {
                Some(p) => Some(p.clone()),
                None => None,
            },
            solution: match &self.solution {
                Some(s) => Some(s.clone()),
                None => None,
            },
            store_attached: self.store_attached,
        }
    }

    /// Refuses with the transition that was asked for, unless the worker is
    /// in the state `from`.
    fn expect(&self, from: AgentStatus, to: AgentStatus) -> (r: Result<(), AgentError>)
        ensures
            r is Ok <==> self.status == from,
            r is Err ==> r == Err::<(), AgentError>(
                AgentError::InvalidTransition { from: self.status, to },
            ),
    {
        if self.status == from {
            Ok(())
        } else {
            Err(AgentError::InvalidTransition { from: self.status, to })
        }
    }

    /// Spawns the worker at the time `now_ms`: `Spawning` to `Active`.
    pub fn spawn_at(&mut self, now_ms: i64) -> (r: Result<(), AgentError>)
        ensures
            r is Ok <==> old(self).status == AgentStatus::Spawning,
            r is Ok ==> *final(self) == old(self).spawned(now_ms),
            r is Err ==> *final(self) == *old(self) && r == Err::<(), AgentError>(
                AgentError::InvalidTransition {
                    from: old(self).status,
                    to: AgentStatus::Active,
                },
            ),
    {
        self.expect(AgentStatus::Spawning, AgentStatus::Active)?;
        self.status = AgentStatus::Active;
        self.started_at = Some(now_ms);
        Ok(())
    }

    /// Spawns the worker at the current time: `Spawning` to `Active`.
    pub fn spawn(&mut self) -> (r: Result<(), AgentError>)
        ensures
            r is Ok <==> old(self).status == AgentStatus::Spawning,
            r is Ok ==> final(self).started_at is Some && *final(self) == old(self).spawned(
                final(self).started_at->0,
            ),
            r is Err ==> *final(self) == *old(self) && r == Err::<(), AgentError>(
                AgentError::InvalidTransition {
                    from: old(self).status,
                    to: AgentStatus::Active,
                },
            ),
    {
        self.spawn_at(now_millis())
    }

    /// Takes up a problem: `Active` to `Solving`.
    pub fn begin_solve(&mut self, problem: String) -> (r: Result<(), AgentError>)
        ensures
            r is Ok <==> old(self).status == AgentStatus::Active,
            r is Ok ==> *final(self) == old(self).solving(problem),
            r is Err ==> *final(self) == *old(self) && r == Err::<(), AgentError>(
                AgentError::InvalidTransition {
                    from: old(self).status,
                    to: AgentStatus::Solving,
                },
            ),
    {
        self.expect(AgentStatus::Active, AgentStatus::Solving)?;
        self.status = AgentStatus::Solving;
        self.problem = Some(problem);
        Ok(())
    }

    /// Records what the worker produced: `Solving` to `Completed`.
    pub fn complete_solve(&mut self, outcome: String) -> (r: Result<(), AgentError>)
        ensures
            r is Ok <==> old(self).status == AgentStatus::Solving,
            r is Ok ==> *final(self) == old(self).completed(outcome),
            r is Err ==> *final(self) == *old(self) && r == Err::<(), AgentError>(
                AgentError::InvalidTransition {
                    from: old(self).status,
                    to: AgentStatus::Completed,
                },
            ),
    {
        self.expect(AgentStatus::Solving, AgentStatus::Completed)?;
        self.status = AgentStatus::Completed;
        self.solution = Some(outcome);
        Ok(())
    }

    /// Ends the solving of a task whose pattern log may fail, given what
    /// the log answered.
    ///
    /// `worked` is what the worker made of the task, or nothing if the log
    /// could not be read; `outcome` is the text that stands for it;
    /// `appended` says whether the log took the record of the execution.
    /// A log that cannot be read fails the task and leaves the worker as it
    /// is. A log that does not take the record fails nothing: the solution
    /// is returned all the same.
    #[allow(unused_variables)]
    pub fn conclude_solve(&mut self, worked: Option<Solution>, outcome: String, appended: bool)
        -> (r: Result<Solution, SolveFailure>)
        ensures
            r is Ok <==> worked is Some && old(self).status == AgentStatus::Solving,
            match worked {
                None => r == Err::<Solution, SolveFailure>(SolveFailure::Store) && *final(self)
                    == *old(self),
                Some(solution) => if old(self).status == AgentStatus::Solving {
                    r == Ok::<Solution, SolveFailure>(solution) && *final(self) == old(
                        self,
                    ).completed(outcome)
                } else {
                    r == Err::<Solution, SolveFailure>(
                        SolveFailure::Refused(
                            AgentError::InvalidTransition {
                                from: old(self).status,
                                to: AgentStatus::Completed,
                            },
                        ),
                    ) && *final(self) == *old(self)
                },
            },
    {
        match worked {
            None => Err(SolveFailure::Store),
            Some(solution) => match self.complete_solve(outcome) {
                Ok(()) => Ok(solution),
                Err(e) => Err(SolveFailure::Refused(e)),
            },
        }
    }

    /// Dissolves the worker at the time `now_ms`: `Completed` to
    /// `Dissolving`. The lifespan is the time since the worker was started,
    /// zero if `now_ms` lies before that.
    pub fn dissolve_at(&mut self, now_ms: i64) -> (r: Result<(), AgentError>)
        ensures
            r is Ok <==> old(self).status == AgentStatus::Completed,
            r is Ok ==> *final(self) == old(self).dissolved(now_ms),
            r is Err ==> *final(self) == *old(self) && r == Err::<(), AgentError>(
                AgentError::InvalidTransition {
                    from: old(self).status,
                    to: AgentStatus::Dissolving,
                },
            ),
    {
        self.expect(AgentStatus::Completed, AgentStatus::Dissolving)?;
        self.status = AgentStatus::Dissolving;
        self.completed_at = Some(now_ms);
        match self.started_at {
            Some(start) => {
                self.lifespan_ms = elapsed_millis(start, now_ms);
            },
            None => {},
        }
        Ok(())
    }

    /// Dissolves the worker at the current time: `Completed` to
    /// `Dissolving`.
    pub fn dissolve(&mut self) -> (r: Result<(), AgentError>)
        ensures
            r is Ok <==> old(self).status == AgentStatus::Completed,
            r is Ok ==> final(self).completed_at is Some && *final(self) == old(self).dissolved(
                final(self).completed_at->0,
            ),
            r is Err ==> *final(self) == *old(self) && r == Err::<(), AgentError>(
                AgentError::InvalidTransition {
                    from: old(self).status,
                    to: AgentStatus::Dissolving,
                },
            ),
    {
        self.dissolve_at(now_millis())
    }

    /// Resets the worker for a new task, under the identifier `id`, at the
    /// time `now_ms`. Whatever its state was, it is idle afterwards.
    pub fn reset_at(&mut self, id: u128, now_ms: i64)
        ensures
            *final(self) == old(self).recycled(id, now_ms),
            final(self).is_idle(),
            final(self).started_at is None,
    {
        self.id = id;
        self.status = AgentStatus::Active;
        self.created_at = now_ms;
        self.started_at = None;
        self.completed_at = None;
        self.lifespan_ms = 0;
        self.problem = None;
        self.solution = None;
    }

    /// Resets the worker for a new task, under a fresh identifier, at the
    /// current time. Whatever its state was, it is idle afterwards.
    pub fn reset_for_reuse(&mut self)
        ensures
            *final(self) == old(self).recycled(final(self).id, final(self).created_at),
            final(self).is_idle(),
            final(self).started_at is None,
    {
        self.reset_at(fresh_id(), now_millis());
    }

    /// The numbers of the worker.
    pub fn metrics(&self) -> (r: AgentMetrics)
        ensures
            r == self.metrics_spec(),
    {
        AgentMetrics {
            id: self.id,
            agent_type: self.agent_type,
            status: self.status,
            lifespan_ms: self.lifespan_ms,
            spawn_time_ms: REPORTED_SPAWN_MS,
            solve_time_ms: solve_cost_ms(self.agent_type),
            dissolve_time_ms: DISSOLVE_COST_MS,
        }
    }

    /// The record of one execution of `problem` by this worker.
    pub fn store_execution_pattern(
        &self,
        problem: &str,
        outcome: &str,
        success: bool,
        env: &SolveEnv,
        store: &mut PatternStore,
    )
        ensures
            final(store)@ == old(store)@.push(
                pattern_spec(*self, problem@, outcome@, success, *env),
            ),
    {
        let task = Task::from_payload(problem);
        let params_hash = content_hash(task.params_json.as_str());
        let pattern = ExecutionPattern {
            id: env.pattern_id,
            tool: task.tool,
            params_json: task.params_json,
            params_hash,
            outcome: String::from_str(outcome),
            success,
            duration_ms: self.lifespan_ms,
            timestamp_ms: env.now_ms,
            hour_of_day: hour_of_day(env.now_ms),
            day_of_week: day_of_week(env.now_ms),
            worker_kind: self.agent_type,
            worker_id: self.id,
            error: None,
        };
        store.append(pattern);
    }

    /// What a worker of this kind makes of `problem`, with `store` at hand
    /// if the worker is attached to the pattern log.
    pub fn work_out(&self, problem: &str, store: &PatternStore, env: &SolveEnv) -> (r: Solution)
        ensures
            r@ == solution_spec(self.agent_type, self.store_attached, problem@, store@, *env),
    {
        match self.agent_type {
            AgentType::Solver => {
                let rev = reversed(problem);
                Solution::Text(concat("Solution: ", rev.as_str()))
            },
            AgentType::Analyzer => {
                let mut out: Vec<char> = Vec::new();
                push_str(&mut out, "Analysis: ");
                push_str(&mut out, problem);
                push_str(&mut out, " (length: ");
                push_decimal(&mut out, problem.as_bytes().len() as u64);
                push_str(&mut out, ", words: ");
                push_decimal(&mut out, count_words(problem) as u64);
                push_str(&mut out, ")");
                Solution::Text(string_of(&out))
            },
            AgentType::Optimizer => {
                let upper = to_upper(problem);
                Solution::Text(concat("Optimized: ", upper.as_str()))
            },
            AgentType::PatternMatcher => {
                if self.store_attached {
                    let task = Task::from_payload(problem);
                    let rows = store.recent(task.tool.as_str(), MATCH_WINDOW);
                    Solution::Patterns(find_similar_patterns(&task.params, &rows))
                } else {
                    Solution::Patterns(MatchReport::unavailable())
                }
            },
            AgentType::OutcomePredictor => {
                if self.store_attached {
                    let task = Task::from_payload(problem);
                    let stats = store.aggregate(task.tool.as_str());
                    Solution::Prediction(
                        OutcomeReport {
                            prediction: predict(&stats, env.neural),
                            store_available: true,
                        },
                    )
                } else {
                    Solution::Prediction(
                        OutcomeReport {
                            prediction: Prediction {
                                success_rate: NEUTRAL_RATE,
                                confidence: 100_000,
                                historical_attempts: 0,
                                estimated_duration_ms: 0,
                                neural_used: false,
                            },
                            store_available: false,
                        },
                    )
                }
            },
            AgentType::AlternativeGen => {
                if self.store_attached {
                    let task = Task::from_payload(problem);
                    let failures = store.recent_failures(task.tool.as_str(), FAILURE_WINDOW);
                    Solution::Alternatives(generate_alternatives(&task, &failures))
                } else {
                    Solution::Alternatives(AlternativeReport::unavailable())
                }
            },
            AgentType::ContextAnalyzer => {
                if self.store_attached {
                    let task = Task::from_payload(problem);
                    let stats = store.aggregate_by_hour(
                        task.tool.as_str(),
                        hour_of_day(env.now_ms),
                    );
                    Solution::Context(analyze_execution_context(&stats, env.now_ms))
                } else {
                    Solution::Context(ContextReport::unavailable())
                }
            },
            AgentType::ErrorAnalyzer => Solution::ErrorAnalysis,
            AgentType::PerformanceAnalyzer => Solution::Performance(
                PerformanceReport { latency_p95_ms: 250, throughput: 1000, error_rate: 10_000 },
            ),
        }
    }

    /// Solves `problem`: `Active` through `Solving` to `Completed`.
    ///
    /// The worker keeps the problem and the text that stands for the
    /// solution. A worker that is attached to the pattern log reads it as
    /// its kind requires and appends the record of this execution.
    pub fn solve_in(&mut self, problem: String, store: &mut PatternStore, env: &SolveEnv) -> (r:
        Result<Solution, AgentError>)
        ensures
            r is Ok <==> old(self).status == AgentStatus::Active,
            match r {
                Ok(solution) => {
                    &&& solution@ == solution_spec(
                        old(self).agent_type,
                        old(self).store_attached,
                        problem@,
                        old(store)@,
                        *env,
                    )
                    &&& final(self).solution is Some
                    &&& final(self).solution->0@ == outcome_text(solution@)
                    &&& *final(self) == old(self).solving(problem).completed(
                        final(self).solution->0,
                    )
                    &&& final(store)@ == if old(self).store_attached {
                        old(store)@.push(
                            pattern_spec(
                                *old(self),
                                problem@,
                                outcome_text(solution@),
                                true,
                                *env,
                            ),
                        )
                    } else {
                        old(store)@
                    }
                },
                Err(e) => {
                    &&& e == AgentError::InvalidTransition {
                        from: old(self).status,
                        to: AgentStatus::Solving,
                    }
                    &&& *final(self) == *old(self)
                    &&& final(store)@ == old(store)@
                },
            },
    {
        self.begin_solve(problem.clone())?;
        let solution = self.work_out(problem.as_str(), store, env);
        let outcome = solution.outcome();
        if self.store_attached {
            self.store_execution_pattern(problem.as_str(), outcome.as_str(), true, env, store);
        }
        let done = self.complete_solve(outcome);
        assert(done is Ok);
        Ok(solution)
    }

    /// Solves `problem` at the current time, without an estimate of the
    /// numeric model; the record that is appended gets a fresh identifier.
    pub fn solve(&mut self, problem: String, store: &mut PatternStore) -> (r: Result<
        Solution,
        AgentError,
    >)
        ensures
            r is Ok <==> old(self).status == AgentStatus::Active,
            r is Ok ==> final(self).solution is Some && final(self).solution->0@ == outcome_text(
                r->Ok_0@,
            ) && *final(self) == old(self).solving(problem).completed(final(self).solution->0),
            r is Ok ==> exists|env: SolveEnv|
                env.neural is None && #[trigger] solution_spec(
                    old(self).agent_type,
                    old(self).store_attached,
                    problem@,
                    old(store)@,
                    env,
                ) == r->Ok_0@ && final(store)@ == if old(self).store_attached {
                    old(store)@.push(
                        pattern_spec(*old(self), problem@, outcome_text(r->Ok_0@), true, env),
                    )
                } else {
                    old(store)@
                },
            r is Err ==> *final(self) == *old(self) && final(store)@ == old(store)@ && r->Err_0
                == (AgentError::InvalidTransition {
                from: old(self).status,
                to: AgentStatus::Solving,
            }),
    {
        let env = SolveEnv { now_ms: now_millis(), pattern_id: fresh_id(), neural: None };
        self.solve_in(problem, store, &env)
    }

    /// The example that the numeric model learns from after this worker
    /// solved `problem` at `now_ms`: one for an outcome predictor, the
    /// encoded task with the success as target; none for any other kind.
    pub fn training_example(&self, problem: &str, success: bool, now_ms: i64) -> (r: Option<
        TrainingExample,
    >)
        ensures
            r is Some <==> self.agent_type == AgentType::OutcomePredictor,
            r matches Some(example) ==> {
                let task = task_of_payload(problem@);
                &&& signals(example.features@) == encode_spec(
                    task.tool,
                    task.params,
                    now_ms as int,
                )
                &&& in_unit(example.features@)
                &&& example.target == if success {
                    SCALE
                } else {
                    0
                }
            },
    {
        match self.agent_type {
            AgentType::OutcomePredictor => {
                let task = Task::from_payload(problem);
                Some(
                    TrainingExample {
                        features: encode(task.tool.as_str(), &task.params, now_ms),
                        target: if success {
                            SCALE
                        } else {
                            0
                        },
                    },
                )
            },
            _ => None,
        }
    }
}

} // verus!
