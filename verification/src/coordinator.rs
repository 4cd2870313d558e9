//! The coordinator: a registry of workers under a cap.
//!
//! Of the two ways to bound a swarm, this coordinator takes the cap: it
//! counts the workers that are not dissolving and refuses to spawn another
//! once the count has reached the configured maximum. It keeps no pool of
//! idle workers; each task gets a worker of its own, which is dissolved
//! after the task. Its workers read and feed the pattern log that the caller
//! hands in.

use vstd::prelude::*;
use crate::agent::{
    outcome_text,
    pattern_spec,
    solution_spec,
    AgentError,
    EphemeralAgent,
    Solution,
    SolveEnv,
};
use crate::clock::{fresh_id, now_millis};
use crate::status::{AgentStatus, AgentType};
use crate::store::{PatternStore, PatternView};
use crate::text::{chars_contain, chars_of, occurs_in};

verus! {

/// The cap of a coordinator that was given none.
pub const DEFAULT_MAX_AGENTS: usize = 3;

/// Why the coordinator refused an operation.
#[derive(Debug, Clone, Copy, PartialEq, Eq, Structural)]
pub enum CoordinatorError {
    /// As many workers are active as the cap allows.
    CapacityReached { active: usize, max: usize },
    /// No worker with the identifier is registered.
    AgentNotFound { id: u128 },
    /// The worker refused.
    Agent(AgentError),
    /// The keeper of the workers' records did not take a record.
    StoreFailed,
}

/// The numbers of a swarm.
#[derive(Debug, Clone, Copy, PartialEq, Eq, Structural)]
pub struct SwarmStats {
    pub active_agents: usize,
    pub total_spawned: usize,
    pub total_dissolved: usize,
    pub average_lifespan_ms: u64,
    pub max_agents: usize,
}

/// The kind of worker that a problem calls for: an analyzer if the problem
/// says `analyze`, else an optimizer if it says `optimize`, else a solver.
pub open spec fn classify_spec(problem: Seq<char>) -> AgentType {
    if occurs_in(problem, "analyze"@) {
        AgentType::Analyzer
    } else if occurs_in(problem, "optimize"@) {
        AgentType::Optimizer
    } else {
        AgentType::Solver
    }
}

/// The kind of worker that the problem calls for.
pub fn classify(problem: &str) -> (r: AgentType)
    ensures
        r == classify_spec(problem@),
{
    let hay = chars_of(problem);
    if chars_contain(&hay, &chars_of("analyze")) {
        AgentType::Analyzer
    } else if chars_contain(&hay, &chars_of("optimize")) {
        AgentType::Optimizer
    } else {
        AgentType::Solver
    }
}

/// Number of workers that are not dissolving.
pub open spec fn active_count(agents: Seq<EphemeralAgent>) -> nat
    decreases agents.len(),
{
    if agents.len() == 0 {
        0
    } else {
        active_count(agents.drop_last()) + if agents.last().status != AgentStatus::Dissolving {
            1nat
        } else {
            0nat
        }
    }
}

/// Position of the worker with the identifier `id`, `-1` if there is none.
pub open spec fn position_of(agents: Seq<EphemeralAgent>, id: u128) -> int
    decreases agents.len(),
{
    if agents.len() == 0 {
        -1
    } else if agents.last().id == id && position_of(agents.drop_last(), id) < 0 {
        agents.len() - 1
    } else {
        position_of(agents.drop_last(), id)
    }
}

/// No two workers share an identifier.
pub open spec fn distinct_ids(agents: Seq<EphemeralAgent>) -> bool {
    forall|i: int, j: int|
        0 <= i < agents.len() && 0 <= j < agents.len() && i != j ==> agents[i].id != agents[j].id
}

/// A worker of the given kind as the coordinator spawns it at `now_ms`:
/// active, with access to the pattern log.
pub open spec fn fresh_worker(agent_type: AgentType, id: u128, now_ms: i64) -> EphemeralAgent {
    EphemeralAgent::created(agent_type, id, now_ms, true).spawned(now_ms)
}

/// The registry after `agent` entered it: in the place of the worker with
/// the same identifier if there is one, else at the end.
pub open spec fn registered(agents: Seq<EphemeralAgent>, agent: EphemeralAgent) -> Seq<
    EphemeralAgent,
> {
    let at = position_of(agents, agent.id);
    if at < 0 {
        agents.push(agent)
    } else {
        agents.update(at, agent)
    }
}

/// Whether `after` is `before` with a worker of the given kind and
/// identifier entered as the coordinator spawns it, at whatever time.
pub open spec fn spawned_into(
    before: Seq<EphemeralAgent>,
    after: Seq<EphemeralAgent>,
    agent_type: AgentType,
    id: u128,
) -> bool {
    exists|now_ms: i64| after == registered(before, #[trigger] fresh_worker(agent_type, id, now_ms))
}

/// The registry without the worker with the identifier `id`.
pub open spec fn unregistered(agents: Seq<EphemeralAgent>, id: u128) -> Seq<EphemeralAgent> {
    let at = position_of(agents, id);
    if at < 0 {
        agents
    } else {
        agents.remove(at)
    }
}

/// Whether a swarm with `active` workers under the cap `max` takes another.
pub open spec fn accepts_spawn(active: nat, max: usize) -> bool {
    active < max
}

/// What `position_of` finds is the first worker with the identifier, and it
/// finds one exactly if there is one.
pub proof fn position_of_found(agents: Seq<EphemeralAgent>, id: u128)
    ensures
        -1 <= position_of(agents, id) < agents.len(),
        position_of(agents, id) >= 0 ==> agents[position_of(agents, id)].id == id,
        forall|i: int|
            0 <= i < agents.len() && (position_of(agents, id) < 0 || i < position_of(agents, id))
                ==> (#[trigger] agents[i]).id != id,
    decreases agents.len(),
{
    if agents.len() > 0 {
        position_of_found(agents.drop_last(), id);
        assert forall|i: int| 0 <= i < agents.len() - 1 implies agents.drop_last()[i]
            == agents[i] by {}
    }
}

/// Putting a worker in the place of another changes the count by their
/// difference.
pub proof fn active_count_update(agents: Seq<EphemeralAgent>, i: int, agent: EphemeralAgent)
    requires
        0 <= i < agents.len(),
    ensures
        active_count(agents.update(i, agent)) + (if agents[i].status != AgentStatus::Dissolving {
            1nat
        } else {
            0nat
        }) == active_count(agents) + (if agent.status != AgentStatus::Dissolving {
            1nat
        } else {
            0nat
        }),
    decreases agents.len(),
{
    let updated = agents.update(i, agent);
    if i == agents.len() - 1 {
        assert(updated.drop_last() =~= agents.drop_last());
    } else {
        assert(updated.drop_last() =~= agents.drop_last().update(i, agent));
        active_count_update(agents.drop_last(), i, agent);
    }
}

/// Taking a worker out lowers the count by one if the worker was active.
pub proof fn active_count_remove(agents: Seq<EphemeralAgent>, i: int)
    requires
        0 <= i < agents.len(),
    ensures
        active_count(agents.remove(i)) + (if agents[i].status != AgentStatus::Dissolving {
            1nat
        } else {
            0nat
        }) == active_count(agents),
    decreases agents.len(),
{
    let removed = agents.remove(i);
    if i < agents.len() - 1 {
        assert(removed.drop_last() =~= agents.drop_last().remove(i));
        active_count_remove(agents.drop_last(), i);
    }
}

/// A swarm at its cap refuses a spawn; once one of its active workers is
/// dissolved, whether it stays in the registry or leaves it, the swarm
/// accepts a spawn.
pub proof fn dissolve_frees_slot(agents: Seq<EphemeralAgent>, max: usize, i: int, now_ms: i64)
    requires
        0 <= i < agents.len(),
        agents[i].status != AgentStatus::Dissolving,
        active_count(agents) == max,
    ensures
        !accepts_spawn(active_count(agents), max),
        accepts_spawn(active_count(agents.update(i, agents[i].dissolved(now_ms))), max),
        accepts_spawn(active_count(agents.remove(i)), max),
{
    active_count_update(agents, i, agents[i].dissolved(now_ms));
    active_count_remove(agents, i);
}

/// What solving one problem brought: the solution, and the worker that
/// produced it, as it was dissolved.
#[derive(Debug, Clone)]
pub struct SolvedProblem {
    pub solution: Solution,
    pub agent: EphemeralAgent,
}

/// Whether a swarm with the workers `agents` and the pattern log `log`
/// turns into one with `agents_after` and `log_after` by solving `problem`
/// with a worker of its own, which is spawned under the identifier `id` at
/// `started_ms`, works in `env` and is dissolved at `finished_ms`, with
/// `solved` as the result.
pub open spec fn problem_solved(
    agents: Seq<EphemeralAgent>,
    log: Seq<PatternView>,
    problem: String,
    id: u128,
    started_ms: i64,
    env: SolveEnv,
    finished_ms: i64,
    solved: SolvedProblem,
    agents_after: Seq<EphemeralAgent>,
    log_after: Seq<PatternView>,
) -> bool {
    let kind = classify_spec(problem@);
    let worker = fresh_worker(kind, id, started_ms);
    &&& solved.solution@ == solution_spec(kind, true, problem@, log, env)
    &&& solved.agent.solution is Some
    &&& solved.agent.solution->0@ == outcome_text(solved.solution@)
    &&& solved.agent == worker.solving(problem).completed(solved.agent.solution->0).dissolved(
        finished_ms,
    )
    &&& agents_after == unregistered(agents, id)
    &&& log_after == log.push(
        pattern_spec(worker, problem@, outcome_text(solved.solution@), true, env),
    )
}

/// The coordinator.
pub struct SwarmCoordinator {
    agents: Vec<EphemeralAgent>,
    max_agents: usize,
    total_spawned: usize,
    total_dissolved: usize,
}

impl SwarmCoordinator {
    /// The registered workers, in the order in which they entered.
    pub closed spec fn agents(&self) -> Seq<EphemeralAgent> {
        self.agents@
    }

    /// The cap.
    pub closed spec fn max(&self) -> usize {
        self.max_agents
    }

    /// Number of workers spawned so far.
    pub closed spec fn spawned(&self) -> usize {
        self.total_spawned
    }

    /// Number of workers dissolved so far.
    pub closed spec fn dissolved(&self) -> usize {
        self.total_dissolved
    }

    /// No two workers share an identifier, and every worker that is
    /// registered or was dissolved has been spawned.
    pub open spec fn wf(&self) -> bool {
        &&& distinct_ids(self.agents())
        &&& self.agents().len() + self.dissolved() <= self.spawned()
    }

    /// A coordinator without workers, with the default cap.
    pub fn new() -> (r: SwarmCoordinator)
        ensures
            r.wf(),
            r.agents() == Seq::<EphemeralAgent>::empty(),
            r.max() == DEFAULT_MAX_AGENTS,
            r.spawned() == 0,
            r.dissolved() == 0,
    {
        SwarmCoordinator {
            agents: Vec::new(),
            max_agents: DEFAULT_MAX_AGENTS,
            total_spawned: 0,
            total_dissolved: 0,
        }
    }

    /// Sets the cap. Workers that are registered stay.
    pub fn set_max_agents(&mut self, max: usize)
        ensures
            final(self).max() == max,
            final(self).agents() == old(self).agents(),
            final(self).spawned() == old(self).spawned(),
            final(self).dissolved() == old(self).dissolved(),
    {
        self.max_agents = max;
    }

    /// Number of workers that are not dissolving.
    pub fn active_agents(&self) -> (r: usize)
        ensures
            r == active_count(self.agents()),
    {
        let n = self.agents.len();
        let mut count: usize = 0;
        let mut i: usize = 0;
        while i < n
            invariant
                n == self.agents@.len(),
                i <= n,
                count <= i,
                count == active_count(self.agents@.take(i as int)),
            decreases n - i,
        {
            proof {
                let next = self.agents@.take(i + 1);
                assert(next.drop_last() =~= self.agents@.take(i as int));
            }
            if !self.agents[i].status.is_terminal() {
                count = count + 1;
            }
            i = i + 1;
        }
        assert(self.agents@.take(n as int) =~= self.agents@);
        count
    }

    /// Position of the worker with the identifier `id`.
    fn find(&self, id: u128) -> (r: Option<usize>)
        ensures
            match r {
                Some(i) => i == position_of(self.agents(), id) && i < self.agents().len(),
                None => position_of(self.agents(), id) < 0,
            },
    {
        let n = self.agents.len();
        let mut i: usize = 0;
        while i < n
            invariant
                n == self.agents@.len(),
                i <= n,
                position_of(self.agents@.take(i as int), id) < 0,
            decreases n - i,
        {
            proof {
                let next = self.agents@.take(i + 1);
                assert(next.drop_last() =~= self.agents@.take(i as int));
            }
            if self.agents[i].id == id {
                proof {
                    Self::position_of_prefix(self.agents@, i + 1, id);
                }
                return Some(i);
            }
            i = i + 1;
        }
        assert(self.agents@.take(n as int) =~= self.agents@);
        None
    }

    /// A position found in a prefix is the position in the whole.
    proof fn position_of_prefix(agents: Seq<EphemeralAgent>, n: int, id: u128)
        requires
            0 <= n <= agents.len(),
            position_of(agents.take(n), id) >= 0,
        ensures
            position_of(agents, id) == position_of(agents.take(n), id),
        decreases agents.len() - n,
    {
        if n < agents.len() {
            let longer = agents.take(n + 1);
            assert(longer.drop_last() =~= agents.take(n));
            Self::position_of_prefix(agents, n + 1, id);
        } else {
            assert(agents.take(n) =~= agents);
        }
    }

    /// The worker with the identifier `id`, if it is registered.
    pub fn get_agent(&self, id: u128) -> (r: Option<EphemeralAgent>)
        ensures
            match r {
                Some(agent) => position_of(self.agents(), id) >= 0 && agent == self.agents()[position_of(
                    self.agents(),
                    id,
                )],
                None => position_of(self.agents(), id) < 0,
            },
    {
        match self.find(id) {
            Some(i) => Some(self.agents[i].duplicate()),
            None => None,
        }
    }

    /// The registered workers, in the order in which they entered.
    pub fn list_agents(&self) -> (r: Vec<EphemeralAgent>)
        ensures
            r@ == self.agents(),
    {
        let n = self.agents.len();
        let mut out: Vec<EphemeralAgent> = Vec::new();
        let mut i: usize = 0;
        while i < n
            invariant
                n == self.agents@.len(),
                i <= n,
                out@ == self.agents@.take(i as int),
            decreases n - i,
        {
            out.push(self.agents[i].duplicate());
            i = i + 1;
        }
        out
    }

    /// Keeps `distinct_ids` when a worker enters the registry.
    proof fn registered_distinct(agents: Seq<EphemeralAgent>, agent: EphemeralAgent)
        requires
            distinct_ids(agents),
        ensures
            distinct_ids(registered(agents, agent)),
            registered(agents, agent).len() <= agents.len() + 1,
    {
        position_of_found(agents, agent.id);
    }

    /// Spawns a worker of the given kind under the identifier `id` at the
    /// time `now_ms`, unless the swarm is at its cap.
    ///
    /// The worker enters the registry active. A registered worker with the
    /// same identifier gives way to it.
    pub fn spawn_agent_with(&mut self, agent_type: AgentType, id: u128, now_ms: i64) -> (r: Result<
        u128,
        CoordinatorError,
    >)
        requires
            old(self).wf(),
            accepts_spawn(active_count(old(self).agents()), old(self).max()) ==> old(
                self,
            ).spawned() < usize::MAX,
        ensures
            final(self).wf(),
            final(self).max() == old(self).max(),
            final(self).dissolved() == old(self).dissolved(),
            r is Ok <==> accepts_spawn(active_count(old(self).agents()), old(self).max()),
            match r {
                Ok(spawned) => {
                    &&& spawned == id
                    &&& final(self).agents() == registered(
                        old(self).agents(),
                        fresh_worker(agent_type, id, now_ms),
                    )
                    &&& final(self).spawned() == old(self).spawned() + 1
                },
                Err(e) => {
                    &&& e == CoordinatorError::CapacityReached {
                        active: active_count(old(self).agents()) as usize,
                        max: old(self).max(),
                    }
                    &&& final(self).agents() == old(self).agents()
                    &&& final(self).spawned() == old(self).spawned()
                },
            },
    {
        let active = self.active_agents();
        if active >= self.max_agents {
            return Err(CoordinatorError::CapacityReached { active, max: self.max_agents });
        }
        let mut agent = EphemeralAgent::create(agent_type, id, now_ms, true);
        let spawned = agent.spawn_at(now_ms);
        assert(spawned is Ok);
        proof {
            Self::registered_distinct(self.agents@, agent);
        }
        self.total_spawned = self.total_spawned + 1;
        match self.find(id) {
            Some(i) => {
                self.agents[i] = agent;
            },
            None => {
                self.agents.push(agent);
            },
        }
        Ok(id)
    }

    /// Spawns a worker of the given kind under a fresh identifier at the
    /// current time, unless the swarm is at its cap.
    pub fn spawn_agent(&mut self, agent_type: AgentType) -> (r: Result<u128, CoordinatorError>)
        requires
            old(self).wf(),
            accepts_spawn(active_count(old(self).agents()), old(self).max()) ==> old(
                self,
            ).spawned() < usize::MAX,
        ensures
            final(self).wf(),
            final(self).max() == old(self).max(),
            final(self).dissolved() == old(self).dissolved(),
            r is Ok <==> accepts_spawn(active_count(old(self).agents()), old(self).max()),
            match r {
                Ok(id) => {
                    &&& spawned_into(old(self).agents(), final(self).agents(), agent_type, id)
                    &&& final(self).spawned() == old(self).spawned() + 1
                },
                Err(e) => {
                    &&& e == CoordinatorError::CapacityReached {
                        active: active_count(old(self).agents()) as usize,
                        max: old(self).max(),
                    }
                    &&& final(self).agents() == old(self).agents()
                    &&& final(self).spawned() == old(self).spawned()
                },
            },
    {
        self.spawn_agent_with(agent_type, fresh_id(), now_millis())
    }

    /// Marks the worker with the identifier `id` as dissolving at the time
    /// `now_ms`. The worker stays registered but no longer counts against
    /// the cap.
    ///
    /// `Ok(false)` and no change if no such worker is registered; an error
    /// and no change if the worker has not completed its task.
    pub fn begin_dissolve(&mut self, id: u128, now_ms: i64) -> (r: Result<bool, CoordinatorError>)
        requires
            old(self).wf(),
        ensures
            final(self).wf(),
            final(self).max() == old(self).max(),
            final(self).spawned() == old(self).spawned(),
            final(self).dissolved() == old(self).dissolved(),
            ({
                let at = position_of(old(self).agents(), id);
                if at < 0 {
                    r == Ok::<bool, CoordinatorError>(false) && final(self).agents() == old(
                        self,
                    ).agents()
                } else if old(self).agents()[at].status == AgentStatus::Completed {
                    r == Ok::<bool, CoordinatorError>(true) && final(self).agents() == old(
                        self,
                    ).agents().update(at, old(self).agents()[at].dissolved(now_ms))
                } else {
                    r == Err::<bool, CoordinatorError>(
                        CoordinatorError::Agent(
                            AgentError::InvalidTransition {
                                from: old(self).agents()[at].status,
                                to: AgentStatus::Dissolving,
                            },
                        ),
                    ) && final(self).agents() == old(self).agents()
                }
            }),
    {
        match self.find(id) {
            None => Ok(false),
            Some(i) => {
                let mut agent = self.agents[i].duplicate();
                match agent.dissolve_at(now_ms) {
                    Ok(()) => {
                        self.agents[i] = agent;
                        Ok(true)
                    },
                    Err(e) => Err(CoordinatorError::Agent(e)),
                }
            },
        }
    }

    /// Takes the worker with the identifier `id` out of the registry, if it
    /// is registered and dissolving, and counts it as dissolved.
    pub fn finish_dissolve(&mut self, id: u128) -> (r: Option<EphemeralAgent>)
        requires
            old(self).wf(),
        ensures
            final(self).wf(),
            final(self).max() == old(self).max(),
            final(self).spawned() == old(self).spawned(),
            ({
                let at = position_of(old(self).agents(), id);
                if at >= 0 && old(self).agents()[at].status == AgentStatus::Dissolving {
                    &&& r == Some(old(self).agents()[at])
                    &&& final(self).agents() == old(self).agents().remove(at)
                    &&& final(self).dissolved() == old(self).dissolved() + 1
                } else {
                    &&& r is None
                    &&& final(self).agents() == old(self).agents()
                    &&& final(self).dissolved() == old(self).dissolved()
                }
            }),
    {
        match self.find(id) {
            None => None,
            Some(i) => {
                if self.agents[i].status.is_terminal() {
                    let agent = self.agents.remove(i);
                    self.total_dissolved = self.total_dissolved + 1;
                    Some(agent)
                } else {
                    None
                }
            },
        }
    }

    /// What a spawn comes to, given whether the keeper of the workers'
    /// records took the record of the spawned worker `id`: the identifier if
    /// it did, the failure if it did not. The worker stays registered either
    /// way.
    pub fn settle_spawn(id: u128, persisted: bool) -> (r: Result<u128, CoordinatorError>)
        ensures
            r == if persisted {
                Ok::<u128, CoordinatorError>(id)
            } else {
                Err::<u128, CoordinatorError>(CoordinatorError::StoreFailed)
            },
    {
        if persisted {
            Ok(id)
        } else {
            Err(CoordinatorError::StoreFailed)
        }
    }

    /// Ends the dissolving of the worker with the identifier `id`, given
    /// whether the keeper of the workers' records took the record of it.
    ///
    /// If it did, the worker leaves the registry as `finish_dissolve` says.
    /// If it did not, the failure is handed on and nothing changes: the
    /// worker stays registered as dissolving.
    pub fn settle_dissolve(&mut self, id: u128, persisted: bool) -> (r: Result<
        Option<EphemeralAgent>,
        CoordinatorError,
    >)
        requires
            old(self).wf(),
        ensures
            final(self).wf(),
            final(self).max() == old(self).max(),
            final(self).spawned() == old(self).spawned(),
            r is Ok <==> persisted,
            ({
                let at = position_of(old(self).agents(), id);
                if !persisted {
                    &&& r == Err::<Option<EphemeralAgent>, CoordinatorError>(
                        CoordinatorError::StoreFailed,
                    )
                    &&& final(self).agents() == old(self).agents()
                    &&& final(self).dissolved() == old(self).dissolved()
                } else if at >= 0 && old(self).agents()[at].status == AgentStatus::Dissolving {
                    &&& r == Ok::<Option<EphemeralAgent>, CoordinatorError>(
                        Some(old(self).agents()[at]),
                    )
                    &&& final(self).agents() == old(self).agents().remove(at)
                    &&& final(self).dissolved() == old(self).dissolved() + 1
                } else {
                    &&& r == Ok::<Option<EphemeralAgent>, CoordinatorError>(None)
                    &&& final(self).agents() == old(self).agents()
                    &&& final(self).dissolved() == old(self).dissolved()
                }
            }),
    {
        if persisted {
            Ok(self.finish_dissolve(id))
        } else {
            Err(CoordinatorError::StoreFailed)
        }
    }

    /// Dissolves the worker with the identifier `id` at the time `now_ms`
    /// and takes it out of the registry.
    ///
    /// `Ok(None)` and no change if no such worker is registered; an error
    /// and no change if the worker has not completed its task.
    pub fn dissolve_agent_at(&mut self, id: u128, now_ms: i64) -> (r: Result<
        Option<EphemeralAgent>,
        CoordinatorError,
    >)
        requires
            old(self).wf(),
        ensures
            final(self).wf(),
            final(self).max() == old(self).max(),
            final(self).spawned() == old(self).spawned(),
            ({
                let at = position_of(old(self).agents(), id);
                if at < 0 {
                    &&& r == Ok::<Option<EphemeralAgent>, CoordinatorError>(None)
                    &&& final(self).agents() == old(self).agents()
                    &&& final(self).dissolved() == old(self).dissolved()
                } else if old(self).agents()[at].status == AgentStatus::Completed {
                    &&& r == Ok::<Option<EphemeralAgent>, CoordinatorError>(
                        Some(old(self).agents()[at].dissolved(now_ms)),
                    )
                    &&& final(self).agents() == old(self).agents().remove(at)
                    &&& final(self).dissolved() == old(self).dissolved() + 1
                } else {
                    &&& r == Err::<Option<EphemeralAgent>, CoordinatorError>(
                        CoordinatorError::Agent(
                            AgentError::InvalidTransition {
                                from: old(self).agents()[at].status,
                                to: AgentStatus::Dissolving,
                            },
                        ),
                    )
                    &&& final(self).agents() == old(self).agents()
                    &&& final(self).dissolved() == old(self).dissolved()
                }
            }),
    {
        let ghost before = self.agents@;
        let ghost at = position_of(before, id);
        proof {
            position_of_found(before, id);
        }
        match self.begin_dissolve(id, now_ms) {
            Err(e) => Err(e),
            Ok(false) => Ok(None),
            Ok(true) => {
                proof {
                    Self::position_of_update(before, id, before[at].dissolved(now_ms));
                }
                Ok(self.finish_dissolve(id))
            },
        }
    }

    /// Putting a worker in the place of the one with the same identifier
    /// leaves the position of that identifier as it is.
    proof fn position_of_update(agents: Seq<EphemeralAgent>, id: u128, agent: EphemeralAgent)
        requires
            position_of(agents, id) >= 0,
            agent.id == id,
        ensures
            position_of(agents.update(position_of(agents, id), agent), id) == position_of(
                agents,
                id,
            ),
        decreases agents.len(),
    {
        position_of_found(agents, id);
        let at = position_of(agents, id);
        let updated = agents.update(at, agent);
        if at == agents.len() - 1 {
            assert(updated.drop_last() =~= agents.drop_last());
        } else {
            assert(updated.drop_last() =~= agents.drop_last().update(at, agent));
            Self::position_of_update(agents.drop_last(), id, agent);
        }
    }

    /// Dissolves the worker with the identifier `id` at the current time
    /// and takes it out of the registry.
    pub fn dissolve_agent(&mut self, id: u128) -> (r: Result<
        Option<EphemeralAgent>,
        CoordinatorError,
    >)
        requires
            old(self).wf(),
        ensures
            final(self).wf(),
            final(self).max() == old(self).max(),
            final(self).spawned() == old(self).spawned(),
            ({
                let at = position_of(old(self).agents(), id);
                if at < 0 {
                    &&& r == Ok::<Option<EphemeralAgent>, CoordinatorError>(None)
                    &&& final(self).agents() == old(self).agents()
                    &&& final(self).dissolved() == old(self).dissolved()
                } else if old(self).agents()[at].status == AgentStatus::Completed {
                    &&& r is Ok
                    &&& r->Ok_0 is Some
                    &&& r->Ok_0->0.completed_at is Some
                    &&& r->Ok_0->0 == old(self).agents()[at].dissolved(
                        r->Ok_0->0.completed_at->0,
                    )
                    &&& final(self).agents() == old(self).agents().remove(at)
                    &&& final(self).dissolved() == old(self).dissolved() + 1
                } else {
                    &&& r == Err::<Option<EphemeralAgent>, CoordinatorError>(
                        CoordinatorError::Agent(
                            AgentError::InvalidTransition {
                                from: old(self).agents()[at].status,
                                to: AgentStatus::Dissolving,
                            },
                        ),
                    )
                    &&& final(self).agents() == old(self).agents()
                    &&& final(self).dissolved() == old(self).dissolved()
                }
            }),
    {
        self.dissolve_agent_at(id, now_millis())
    }

    /// Lets the registered worker with the identifier `id` solve `problem`
    /// in `env`, with the pattern log `store` at hand.
    ///
    /// Refused, with no change, if no such worker is registered or if the
    /// worker is not active.
    pub fn solve_with_agent(
        &mut self,
        id: u128,
        problem: String,
        store: &mut PatternStore,
        env: &SolveEnv,
    ) -> (r: Result<Solution, CoordinatorError>)
        requires
            old(self).wf(),
        ensures
            final(self).wf(),
            final(self).max() == old(self).max(),
            final(self).spawned() == old(self).spawned(),
            final(self).dissolved() == old(self).dissolved(),
            ({
                let at = position_of(old(self).agents(), id);
                if at < 0 {
                    &&& r == Err::<Solution, CoordinatorError>(
                        CoordinatorError::AgentNotFound { id },
                    )
                    &&& final(self).agents() == old(self).agents()
                    &&& final(store)@ == old(store)@
                } else if old(self).agents()[at].status != AgentStatus::Active {
                    &&& r == Err::<Solution, CoordinatorError>(
                        CoordinatorError::Agent(
                            AgentError::InvalidTransition {
                                from: old(self).agents()[at].status,
                                to: AgentStatus::Solving,
                            },
                        ),
                    )
                    &&& final(self).agents() == old(self).agents()
                    &&& final(store)@ == old(store)@
                } else {
                    let worker = old(self).agents()[at];
                    &&& r is Ok
                    &&& r->Ok_0@ == solution_spec(
                        worker.agent_type,
                        worker.store_attached,
                        problem@,
                        old(store)@,
                        *env,
                    )
                    &&& final(self).agents().len() == old(self).agents().len()
                    &&& final(self).agents()[at].solution is Some
                    &&& final(self).agents()[at].solution->0@ == outcome_text(r->Ok_0@)
                    &&& final(self).agents() == old(self).agents().update(
                        at,
                        worker.solving(problem).completed(final(self).agents()[at].solution->0),
                    )
                    &&& final(store)@ == if worker.store_attached {
                        old(store)@.push(
                            pattern_spec(worker, problem@, outcome_text(r->Ok_0@), true, *env),
                        )
                    } else {
                        old(store)@
                    }
                }
            }),
    {
        proof {
            position_of_found(self.agents@, id);
        }
        match self.find(id) {
            None => Err(CoordinatorError::AgentNotFound { id }),
            Some(i) => {
                let mut agent = self.agents[i].duplicate();
                match agent.solve_in(problem, store, env) {
                    Ok(solution) => {
                        self.agents[i] = agent;
                        Ok(solution)
                    },
                    Err(e) => Err(CoordinatorError::Agent(e)),
                }
            },
        }
    }

    /// Solves `problem` with a worker of its own: spawns a worker of the
    /// kind that the problem calls for under the identifier `id` at
    /// `started_ms`, lets it solve the problem in `env` with the pattern log
    /// `store` at hand, and dissolves it at `finished_ms`.
    ///
    /// Refused, with no change, if the swarm is at its cap. A registered
    /// worker with the identifier `id` gives way.
    pub fn solve_problem_at(
        &mut self,
        problem: String,
        store: &mut PatternStore,
        id: u128,
        started_ms: i64,
        env: &SolveEnv,
        finished_ms: i64,
    ) -> (r: Result<SolvedProblem, CoordinatorError>)
        requires
            old(self).wf(),
            accepts_spawn(active_count(old(self).agents()), old(self).max()) ==> old(
                self,
            ).spawned() < usize::MAX,
        ensures
            final(self).wf(),
            final(self).max() == old(self).max(),
            r is Ok <==> accepts_spawn(active_count(old(self).agents()), old(self).max()),
            match r {
                Ok(solved) => problem_solved(
                    old(self).agents(),
                    old(store)@,
                    problem,
                    id,
                    started_ms,
                    *env,
                    finished_ms,
                    solved,
                    final(self).agents(),
                    final(store)@,
                ) && final(self).spawned() == old(self).spawned() + 1 && final(self).dissolved()
                    == old(self).dissolved() + 1,
                Err(e) => {
                    &&& e == CoordinatorError::CapacityReached {
                        active: active_count(old(self).agents()) as usize,
                        max: old(self).max(),
                    }
                    &&& final(self).agents() == old(self).agents()
                    &&& final(self).spawned() == old(self).spawned()
                    &&& final(self).dissolved() == old(self).dissolved()
                    &&& final(store)@ == old(store)@
                },
            },
    {
        let ghost before = self.agents@;
        let agent_type = classify(problem.as_str());
        self.spawn_agent_with(agent_type, id, started_ms)?;
        let ghost fresh = fresh_worker(agent_type, id, started_ms);
        let ghost entered = self.agents@;
        proof {
            position_of_found(before, id);
            Self::position_of_registered(before, fresh);
        }
        let ghost at = position_of(entered, id);
        let solved = self.solve_with_agent(id, problem, store, env);
        let solution = solved.unwrap();
        let ghost worked = self.agents@;
        proof {
            Self::position_of_update(entered, id, worked[at]);
        }
        let dissolved = self.dissolve_agent_at(id, finished_ms);
        let gone = dissolved.unwrap();
        let agent = gone.unwrap();
        proof {
            assert(worked.remove(at) =~= entered.remove(at));
            if position_of(before, id) < 0 {
                assert(entered.remove(at) =~= before);
            } else {
                assert(entered.remove(at) =~= before.remove(at));
            }
        }
        Ok(SolvedProblem { solution, agent })
    }

    /// Where a worker is found once it has entered the registry.
    proof fn position_of_registered(agents: Seq<EphemeralAgent>, agent: EphemeralAgent)
        ensures
            position_of(registered(agents, agent), agent.id) == if position_of(agents, agent.id)
                < 0 {
                agents.len() as int
            } else {
                position_of(agents, agent.id)
            },
    {
        position_of_found(agents, agent.id);
        if position_of(agents, agent.id) < 0 {
            let grown = agents.push(agent);
            assert(grown.drop_last() =~= agents);
        } else {
            Self::position_of_update(agents, agent.id, agent);
        }
    }

    /// Solves `problem` with a worker of its own, under a fresh identifier,
    /// reading the clock as it goes, without an estimate of the numeric
    /// model.
    pub fn solve_problem(&mut self, problem: String, store: &mut PatternStore) -> (r: Result<
        SolvedProblem,
        CoordinatorError,
    >)
        requires
            old(self).wf(),
            accepts_spawn(active_count(old(self).agents()), old(self).max()) ==> old(
                self,
            ).spawned() < usize::MAX,
        ensures
            final(self).wf(),
            final(self).max() == old(self).max(),
            r is Ok <==> accepts_spawn(active_count(old(self).agents()), old(self).max()),
            match r {
                Ok(solved) => {
                    &&& exists|id: u128, started_ms: i64, env: SolveEnv, finished_ms: i64|
                        env.neural is None && #[trigger] problem_solved(
                            old(self).agents(),
                            old(store)@,
                            problem,
                            id,
                            started_ms,
                            env,
                            finished_ms,
                            solved,
                            final(self).agents(),
                            final(store)@,
                        )
                    &&& final(self).spawned() == old(self).spawned() + 1
                    &&& final(self).dissolved() == old(self).dissolved() + 1
                },
                Err(e) => {
                    &&& e == CoordinatorError::CapacityReached {
                        active: active_count(old(self).agents()) as usize,
                        max: old(self).max(),
                    }
                    &&& final(self).agents() == old(self).agents()
                    &&& final(self).spawned() == old(self).spawned()
                    &&& final(self).dissolved() == old(self).dissolved()
                    &&& final(store)@ == old(store)@
                },
            },
    {
        let id = fresh_id();
        let started = now_millis();
        let env = SolveEnv { now_ms: started, pattern_id: fresh_id(), neural: None };
        self.solve_problem_at(problem, store, id, started, &env, now_millis())
    }

    /// The numbers of the swarm, given the mean lifespan of the workers
    /// dissolved so far.
    pub open spec fn get_stats_spec(&self, average_lifespan_ms: Option<u64>) -> SwarmStats {
        SwarmStats {
            active_agents: self.agents().len() as usize,
            total_spawned: self.spawned(),
            total_dissolved: self.dissolved(),
            average_lifespan_ms: match average_lifespan_ms {
                Some(ms) => ms,
                None => 0,
            },
            max_agents: self.max(),
        }
    }

    /// The numbers of the swarm. `average_lifespan_ms` is the mean lifespan
    /// of the workers dissolved so far, as the keeper of their records
    /// reports it; zero stands for none.
    pub fn get_stats(&self, average_lifespan_ms: Option<u64>) -> (r: SwarmStats)
        ensures
            r == self.get_stats_spec(average_lifespan_ms),
    {
        SwarmStats {
            active_agents: self.agents.len(),
            total_spawned: self.total_spawned,
            total_dissolved: self.total_dissolved,
            average_lifespan_ms: match average_lifespan_ms {
                Some(ms) => ms,
                None => 0,
            },
            max_agents: self.max_agents,
        }
    }
}

} // verus!
