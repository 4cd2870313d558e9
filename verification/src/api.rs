//! The requests that a front end hands to the swarm, and what it gets back.

use vstd::prelude::*;
use crate::agent::{
    analyzer_text,
    optimizer_text,
    outcome_text,
    pattern_spec,
    solution_spec,
    solver_text,
    AgentError,
    EphemeralAgent,
    Solution,
    SolveEnv,
};
use crate::clock::{elapsed_millis, elapsed_spec, now_millis};
use crate::coordinator::{
    accepts_spawn,
    active_count,
    active_count_remove,
    classify_spec,
    fresh_worker,
    problem_solved,
    position_of,
    spawned_into,
    position_of_found,
    unregistered,
    CoordinatorError,
    SwarmCoordinator,
    SwarmStats,
};
use crate::ident::{id_of_text, id_text, id_text_spec, parse_id};
use crate::payload::task_of_payload;
use crate::status::{kind_name, status_name, AgentType};
use crate::store::{PatternStore, PatternView};
use crate::text::{decimal, push_decimal, push_str, string_of};

verus! {

/// A request to spawn a worker.
#[derive(Debug, Clone)]
pub struct SpawnRequest {
    /// The name of the kind of worker, a solver where none is given.
    pub agent_type: Option<String>,
}

/// A worker was spawned.
#[derive(Debug, Clone)]
pub struct SpawnResponse {
    pub agent_id: u128,
    pub message: String,
}

/// Why the state of a worker could not be shown.
#[derive(Debug, Clone, Copy, PartialEq, Eq, Structural)]
pub enum StatusError {
    /// The text is no identifier.
    BadRequest,
    /// No worker with the identifier is registered.
    NotFound,
}

/// A request to solve a problem.
#[derive(Debug, Clone)]
pub struct SolveRequest {
    pub problem: String,
}

/// A problem was solved.
#[derive(Debug, Clone)]
pub struct SolveResponse {
    pub solution: Solution,
    pub agent_id: u128,
    /// The name of the kind of worker that solved the problem.
    pub agent_type: String,
    pub lifespan_ms: u64,
}

/// A request was refused.
#[derive(Debug, Clone)]
pub struct ApiError {
    pub error: String,
}

/// One problem of the demonstration and what became of it.
#[derive(Debug, Clone)]
pub struct DemoResult {
    pub problem: String,
    /// The text that stands for the solution.
    pub solution: String,
    pub time_ms: u64,
}

/// The outcome of the demonstration.
#[derive(Debug, Clone)]
pub struct DemoResponse {
    pub message: String,
    pub results: Vec<DemoResult>,
    pub stats: SwarmStats,
    pub note: String,
}

/// The message that tells of a spawned worker.
pub open spec fn spawn_message(id: u128) -> Seq<char> {
    "Agent "@ + id_text_spec(id) + " spawned successfully"@
}

/// The worker that is shown for the identifier `id`, read from a text.
pub open spec fn status_of(agents: Seq<EphemeralAgent>, id: Option<u128>) -> Result<
    EphemeralAgent,
    StatusError,
> {
    match id {
        None => Err(StatusError::BadRequest),
        Some(v) => if position_of(agents, v) < 0 {
            Err(StatusError::NotFound)
        } else {
            Ok(agents[position_of(agents, v)])
        },
    }
}

/// The kind of worker that a spawn request names: an analyzer for
/// `analyzer`, an optimizer for `optimizer`, a solver for anything else and
/// for no name.
pub open spec fn requested_kind(name: Option<Seq<char>>) -> AgentType {
    match name {
        Some(n) => if n == "analyzer"@ {
            AgentType::Analyzer
        } else if n == "optimizer"@ {
            AgentType::Optimizer
        } else {
            AgentType::Solver
        },
        None => AgentType::Solver,
    }
}

/// The kind of worker with the given lower-case name, a solver for any
/// other name.
pub open spec fn kind_named(name: Seq<char>) -> AgentType {
    if name == "analyzer"@ {
        AgentType::Analyzer
    } else if name == "optimizer"@ {
        AgentType::Optimizer
    } else if name == "pattern_matcher"@ {
        AgentType::PatternMatcher
    } else if name == "outcome_predictor"@ {
        AgentType::OutcomePredictor
    } else if name == "alternative_gen"@ {
        AgentType::AlternativeGen
    } else if name == "context_analyzer"@ {
        AgentType::ContextAnalyzer
    } else {
        AgentType::Solver
    }
}

/// The message of an error of the coordinator.
pub open spec fn coordinator_message(e: CoordinatorError) -> Seq<char> {
    match e {
        CoordinatorError::CapacityReached { active, max } => "Maximum agent capacity reached ("@
            + decimal(active as nat) + "/"@ + decimal(max as nat) + ")"@,
        CoordinatorError::AgentNotFound { .. } => "Agent not found"@,
        CoordinatorError::StoreFailed => "Record could not be stored"@,
        CoordinatorError::Agent(AgentError::InvalidTransition { from, to }) =>
            "Agent cannot move from "@ + status_name(from) + " to "@ + status_name(to),
    }
}

/// The three problems of the demonstration.
pub open spec fn demo_problem(i: int) -> Seq<char> {
    if i == 0 {
        "Solve this complex equation"@
    } else if i == 1 {
        "Analyze market trends for Q4"@
    } else {
        "Optimize database query performance"@
    }
}

/// The text that a worker of one of the three text kinds makes of a
/// problem.
pub open spec fn text_of_kind(kind: AgentType, problem: Seq<char>) -> Seq<char> {
    match kind {
        AgentType::Analyzer => analyzer_text(problem),
        AgentType::Optimizer => optimizer_text(problem),
        _ => solver_text(problem),
    }
}

/// The kind of worker that the request names.
pub open spec fn requested_kind_of(req: SpawnRequest) -> AgentType {
    requested_kind(
        match req.agent_type {
            Some(n) => Some(n@),
            None => None,
        },
    )
}

/// The kind of worker that the request names.
pub fn requested_agent_type(req: &SpawnRequest) -> (r: AgentType)
    ensures
        r == requested_kind_of(*req),
{
    match &req.agent_type {
        Some(n) => {
            if *n == String::from_str("analyzer") {
                AgentType::Analyzer
            } else if *n == String::from_str("optimizer") {
                AgentType::Optimizer
            } else {
                AgentType::Solver
            }
        },
        None => AgentType::Solver,
    }
}

/// The kind of worker with the given lower-case name.
pub fn agent_type_named(name: &str) -> (r: AgentType)
    ensures
        r == kind_named(name@),
{
    let n = String::from_str(name);
    if n == String::from_str("analyzer") {
        AgentType::Analyzer
    } else if n == String::from_str("optimizer") {
        AgentType::Optimizer
    } else if n == String::from_str("pattern_matcher") {
        AgentType::PatternMatcher
    } else if n == String::from_str("outcome_predictor") {
        AgentType::OutcomePredictor
    } else if n == String::from_str("alternative_gen") {
        AgentType::AlternativeGen
    } else if n == String::from_str("context_analyzer") {
        AgentType::ContextAnalyzer
    } else {
        AgentType::Solver
    }
}

/// The refusal that stands for an error of the coordinator.
pub fn refusal(e: &CoordinatorError) -> (r: ApiError)
    ensures
        r.error@ == coordinator_message(*e),
{
    let mut out: Vec<char> = Vec::new();
    match e {
        CoordinatorError::CapacityReached { active, max } => {
            push_str(&mut out, "Maximum agent capacity reached (");
            push_decimal(&mut out, *active as u64);
            push_str(&mut out, "/");
            push_decimal(&mut out, *max as u64);
            push_str(&mut out, ")");
        },
        CoordinatorError::AgentNotFound { .. } => {
            push_str(&mut out, "Agent not found");
        },
        CoordinatorError::StoreFailed => {
            push_str(&mut out, "Record could not be stored");
        },
        CoordinatorError::Agent(AgentError::InvalidTransition { from, to }) => {
            push_str(&mut out, "Agent cannot move from ");
            push_str(&mut out, from.name());
            push_str(&mut out, " to ");
            push_str(&mut out, to.name());
        },
    }
    ApiError { error: string_of(&out) }
}

/// Spawns the worker that the request asks for.
pub fn spawn_agent(coordinator: &mut SwarmCoordinator, req: &SpawnRequest) -> (r: Result<
    SpawnResponse,
    ApiError,
>)
    requires
        old(coordinator).wf(),
        accepts_spawn(active_count(old(coordinator).agents()), old(coordinator).max()) ==> old(
            coordinator,
        ).spawned() < usize::MAX,
    ensures
        final(coordinator).wf(),
        final(coordinator).max() == old(coordinator).max(),
        final(coordinator).dissolved() == old(coordinator).dissolved(),
        r is Ok <==> accepts_spawn(
            active_count(old(coordinator).agents()),
            old(coordinator).max(),
        ),
        match r {
            Ok(response) => {
                &&& response.message@ == spawn_message(response.agent_id)
                &&& final(coordinator).spawned() == old(coordinator).spawned() + 1
                &&& spawned_into(
                    old(coordinator).agents(),
                    final(coordinator).agents(),
                    requested_kind_of(*req),
                    response.agent_id,
                )
            },
            Err(e) => {
                &&& e.error@ == coordinator_message(
                    CoordinatorError::CapacityReached {
                        active: active_count(old(coordinator).agents()) as usize,
                        max: old(coordinator).max(),
                    },
                )
                &&& final(coordinator).agents() == old(coordinator).agents()
                &&& final(coordinator).spawned() == old(coordinator).spawned()
            },
        },
{
    let agent_type = requested_agent_type(req);
    match coordinator.spawn_agent(agent_type) {
        Ok(agent_id) => {
            let mut out: Vec<char> = Vec::new();
            push_str(&mut out, "Agent ");
            push_str(&mut out, id_text(agent_id).as_str());
            push_str(&mut out, " spawned successfully");
            Ok(SpawnResponse { agent_id, message: string_of(&out) })
        },
        Err(e) => Err(refusal(&e)),
    }
}

/// The registered workers, in the order in which they entered.
pub fn list_agents(coordinator: &SwarmCoordinator) -> (r: Vec<EphemeralAgent>)
    ensures
        r@ == coordinator.agents(),
{
    coordinator.list_agents()
}

/// The worker that is shown for an identifier read from a text: none for
/// no identifier, none if no worker with the identifier is registered.
pub fn lookup_agent(coordinator: &SwarmCoordinator, id: Option<u128>) -> (r: Result<
    EphemeralAgent,
    StatusError,
>)
    ensures
        r == status_of(coordinator.agents(), id),
{
    match id {
        None => Err(StatusError::BadRequest),
        Some(v) => match coordinator.get_agent(v) {
            Some(agent) => Ok(agent),
            None => Err(StatusError::NotFound),
        },
    }
}

/// The worker with the identifier that the text `id` writes.
pub fn agent_status(coordinator: &SwarmCoordinator, id: &str) -> (r: Result<
    EphemeralAgent,
    StatusError,
>)
    ensures
        r == status_of(coordinator.agents(), id_of_text(id@)),
{
    lookup_agent(coordinator, parse_id(id))
}

/// The numbers of the swarm; see [`SwarmCoordinator::get_stats`].
pub fn swarm_stats(coordinator: &SwarmCoordinator, average_lifespan_ms: Option<u64>) -> (r:
    SwarmStats)
    ensures
        r == coordinator.get_stats_spec(average_lifespan_ms),
{
    coordinator.get_stats(average_lifespan_ms)
}

/// Whether `response` answers the request to solve `problem` in a swarm
/// with the workers `agents` and the pattern log `log`, by a worker of its
/// own that is spawned under the identifier `id` at `started_ms`, works in
/// `env` and is dissolved at `finished_ms`, and whether the swarm and the
/// log are `agents_after` and `log_after` then.
pub open spec fn problem_answered(
    agents: Seq<EphemeralAgent>,
    log: Seq<PatternView>,
    problem: Seq<char>,
    id: u128,
    started_ms: i64,
    env: SolveEnv,
    finished_ms: i64,
    response: SolveResponse,
    agents_after: Seq<EphemeralAgent>,
    log_after: Seq<PatternView>,
) -> bool {
    let kind = classify_spec(problem);
    &&& response.solution@ == solution_spec(kind, true, problem, log, env)
    &&& response.agent_id == id
    &&& response.agent_type@ == kind_name(kind)
    &&& response.lifespan_ms == elapsed_spec(started_ms as int, finished_ms as int)
    &&& agents_after == unregistered(agents, id)
    &&& log_after == log.push(
        pattern_spec(
            fresh_worker(kind, id, started_ms),
            problem,
            outcome_text(response.solution@),
            true,
            env,
        ),
    )
}

/// Solves the problem of the request with a worker of its own, with the
/// pattern log `store` at hand.
pub fn solve_problem(
    coordinator: &mut SwarmCoordinator,
    store: &mut PatternStore,
    req: &SolveRequest,
) -> (r: Result<SolveResponse, ApiError>)
    requires
        old(coordinator).wf(),
        accepts_spawn(active_count(old(coordinator).agents()), old(coordinator).max()) ==> old(
            coordinator,
        ).spawned() < usize::MAX,
    ensures
        final(coordinator).wf(),
        final(coordinator).max() == old(coordinator).max(),
        r is Ok <==> accepts_spawn(
            active_count(old(coordinator).agents()),
            old(coordinator).max(),
        ),
        match r {
            Ok(response) => {
                &&& exists|id: u128, started_ms: i64, env: SolveEnv, finished_ms: i64|
                    env.neural is None && #[trigger] problem_answered(
                        old(coordinator).agents(),
                        old(store)@,
                        req.problem@,
                        id,
                        started_ms,
                        env,
                        finished_ms,
                        response,
                        final(coordinator).agents(),
                        final(store)@,
                    )
                &&& outcome_text(response.solution@) == text_of_kind(
                    classify_spec(req.problem@),
                    req.problem@,
                )
                &&& response.agent_type@ == kind_name(classify_spec(req.problem@))
                &&& final(coordinator).agents() == unregistered(
                    old(coordinator).agents(),
                    response.agent_id,
                )
                &&& final(coordinator).spawned() == old(coordinator).spawned() + 1
                &&& final(coordinator).dissolved() == old(coordinator).dissolved() + 1
                &&& final(store)@.len() == old(store)@.len() + 1
                &&& final(store)@.drop_last() == old(store)@
                &&& final(store)@.last().outcome == outcome_text(response.solution@)
                &&& final(store)@.last().tool == task_of_payload(req.problem@).tool
                &&& final(store)@.last().worker_id == response.agent_id
            },
            Err(e) => {
                &&& e.error@ == coordinator_message(
                    CoordinatorError::CapacityReached {
                        active: active_count(old(coordinator).agents()) as usize,
                        max: old(coordinator).max(),
                    },
                )
                &&& final(coordinator).agents() == old(coordinator).agents()
                &&& final(coordinator).spawned() == old(coordinator).spawned()
                &&& final(coordinator).dissolved() == old(coordinator).dissolved()
                &&& final(store)@ == old(store)@
            },
        },
{
    let ghost agents = coordinator.agents();
    let ghost log = store@;
    let problem = req.problem.clone();
    match coordinator.solve_problem(problem, store) {
        Ok(solved) => {
            let response = SolveResponse {
                solution: solved.solution,
                agent_id: solved.agent.id,
                agent_type: String::from_str(solved.agent.agent_type.name()),
                lifespan_ms: solved.agent.lifespan_ms,
            };
            proof {
                let (id, started_ms, env, finished_ms) = choose|
                    id: u128,
                    started_ms: i64,
                    env: SolveEnv,
                    finished_ms: i64,
                |
                    env.neural is None && #[trigger] problem_solved(
                        agents,
                        log,
                        problem,
                        id,
                        started_ms,
                        env,
                        finished_ms,
                        solved,
                        coordinator.agents(),
                        store@,
                    );
                assert(problem_answered(
                    agents,
                    log,
                    req.problem@,
                    id,
                    started_ms,
                    env,
                    finished_ms,
                    response,
                    coordinator.agents(),
                    store@,
                ));
            }
            Ok(response)
        },
        Err(e) => Err(refusal(&e)),
    }
}

/// The three problems of the demonstration.
pub fn demo_problems() -> (r: Vec<&'static str>)
    ensures
        r@.len() == 3,
        forall|i: int| 0 <= i < 3 ==> (#[trigger] r@[i])@ == demo_problem(i),
{
    let mut problems: Vec<&'static str> = Vec::new();
    problems.push("Solve this complex equation");
    problems.push("Analyze market trends for Q4");
    problems.push("Optimize database query performance");
    problems
}

/// Taking a worker out of the registry does not raise the number of active
/// workers.
pub proof fn unregistered_not_more_active(agents: Seq<EphemeralAgent>, id: u128)
    ensures
        active_count(unregistered(agents, id)) <= active_count(agents),
{
    position_of_found(agents, id);
    if position_of(agents, id) >= 0 {
        active_count_remove(agents, position_of(agents, id));
    }
}

/// Runs the demonstration: solves the three problems, each with a worker of
/// its own and the pattern log `store` at hand, and reports what became of
/// them.
///
/// `average_lifespan_ms` is the mean lifespan of the workers dissolved so
/// far, as the keeper of their records reports it. Refused, with the swarm
/// as it was, if the swarm is at its cap.
pub fn demo_ephemeral_solve(
    coordinator: &mut SwarmCoordinator,
    store: &mut PatternStore,
    average_lifespan_ms: Option<u64>,
) -> (r: Result<DemoResponse, ApiError>)
    requires
        old(coordinator).wf(),
        accepts_spawn(active_count(old(coordinator).agents()), old(coordinator).max()) ==> old(
            coordinator,
        ).spawned() + 3 <= usize::MAX,
    ensures
        final(coordinator).wf(),
        final(coordinator).max() == old(coordinator).max(),
        r is Ok <==> accepts_spawn(
            active_count(old(coordinator).agents()),
            old(coordinator).max(),
        ),
        match r {
            Ok(response) => {
                &&& response.results@.len() == 3
                &&& forall|i: int|
                    0 <= i < 3 ==> (#[trigger] response.results@[i]).problem@ == demo_problem(i)
                        && response.results@[i].solution@ == text_of_kind(
                        classify_spec(demo_problem(i)),
                        demo_problem(i),
                    )
                &&& response.message@ == "Ephemeral intelligence demonstration complete!"@
                &&& response.stats.total_spawned == old(coordinator).spawned() + 3
                &&& response.stats.total_dissolved == old(coordinator).dissolved() + 3
                &&& response.stats.active_agents == final(coordinator).agents().len()
                &&& response.stats.max_agents == old(coordinator).max()
                &&& final(coordinator).spawned() == old(coordinator).spawned() + 3
                &&& final(coordinator).dissolved() == old(coordinator).dissolved() + 3
                &&& final(store)@.len() == old(store)@.len() + 3
                &&& final(store)@.take(old(store)@.len() as int) == old(store)@
            },
            Err(e) => {
                &&& e.error@ == coordinator_message(
                    CoordinatorError::CapacityReached {
                        active: active_count(old(coordinator).agents()) as usize,
                        max: old(coordinator).max(),
                    },
                )
                &&& final(coordinator).agents() == old(coordinator).agents()
                &&& final(coordinator).spawned() == old(coordinator).spawned()
                &&& final(coordinator).dissolved() == old(coordinator).dissolved()
                &&& final(store)@ == old(store)@
            },
        },
{
    let problems = demo_problems();
    let mut results: Vec<DemoResult> = Vec::new();
    let mut i: usize = 0;
    while i < 3
        invariant
            i <= 3,
            problems@.len() == 3,
            forall|k: int| 0 <= k < 3 ==> (#[trigger] problems@[k])@ == demo_problem(k),
            coordinator.wf(),
            coordinator.max() == old(coordinator).max(),
            coordinator.spawned() == old(coordinator).spawned() + i,
            coordinator.dissolved() == old(coordinator).dissolved() + i,
            accepts_spawn(active_count(old(coordinator).agents()), old(coordinator).max()) ==> old(
            coordinator,
        ).spawned() + 3 <= usize::MAX,
            active_count(coordinator.agents()) <= active_count(old(coordinator).agents()),
            i == 0 ==> coordinator.agents() == old(coordinator).agents(),
            store@.len() == old(store)@.len() + i,
            store@.take(old(store)@.len() as int) == old(store)@,
            i > 0 ==> accepts_spawn(
                active_count(old(coordinator).agents()),
                old(coordinator).max(),
            ),
            results@.len() == i,
            forall|k: int|
                0 <= k < i ==> (#[trigger] results@[k]).problem@ == demo_problem(k)
                    && results@[k].solution@ == text_of_kind(
                    classify_spec(demo_problem(k)),
                    demo_problem(k),
                ),
        decreases 3 - i,
    {
        let problem = problems[i];
        let started = now_millis();
        let ghost before = coordinator.agents();
        match coordinator.solve_problem(String::from_str(problem), store) {
            Ok(solved) => {
                proof {
                    unregistered_not_more_active(before, solved.agent.id);
                }
                let time_ms = elapsed_millis(started, now_millis());
                results.push(
                    DemoResult {
                        problem: String::from_str(problem),
                        solution: solved.solution.outcome(),
                        time_ms,
                    },
                );
            },
            Err(e) => {
                return Err(refusal(&e));
            },
        }
        i = i + 1;
    }
    Ok(
        DemoResponse {
            message: String::from_str("Ephemeral intelligence demonstration complete!"),
            results,
            stats: coordinator.get_stats(average_lifespan_ms),
            note: String::from_str(
                "Each problem was solved by a different ephemeral agent that spawned, solved, and dissolved in <100ms",
            ),
        },
    )
}

} // verus!
