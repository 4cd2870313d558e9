//! A pool of idle workers for callers that would rather reuse workers than
//! spawn one per task.
//!
//! The pool keeps one queue per kind, each bounded by the same capacity. A
//! worker waits in the pool only while it is idle: active, with nothing left
//! of an earlier task, not even a start time. A task takes the worker that has waited longest, or a
//! new one where none waits; after the task the worker is reset and queued
//! again, or let go where its queue is full. The workers that the pool makes
//! read and feed the pattern log.

use vstd::prelude::*;
use crate::agent::{
    outcome_text,
    pattern_spec,
    solution_spec,
    EphemeralAgent,
    Solution,
    SolutionView,
    SolveEnv,
};
use crate::clock::{fresh_id, now_millis};
use crate::api::{agent_type_named, kind_named};
use crate::payload::{task_of_payload, Task};
use crate::status::AgentType;
use crate::store::{PatternStore, PatternView};

verus! {

/// Number of worker kinds.
pub const KIND_COUNT: usize = 9;

/// The kinds, in the order of their declaration.
pub open spec fn kind_at(i: int) -> AgentType {
    if i == 0 {
        AgentType::Solver
    } else if i == 1 {
        AgentType::Analyzer
    } else if i == 2 {
        AgentType::Optimizer
    } else if i == 3 {
        AgentType::PatternMatcher
    } else if i == 4 {
        AgentType::OutcomePredictor
    } else if i == 5 {
        AgentType::AlternativeGen
    } else if i == 6 {
        AgentType::ContextAnalyzer
    } else if i == 7 {
        AgentType::ErrorAnalyzer
    } else {
        AgentType::PerformanceAnalyzer
    }
}

/// The position of a kind in the order of the kinds.
pub open spec fn kind_index(kind: AgentType) -> int {
    match kind {
        AgentType::Solver => 0,
        AgentType::Analyzer => 1,
        AgentType::Optimizer => 2,
        AgentType::PatternMatcher => 3,
        AgentType::OutcomePredictor => 4,
        AgentType::AlternativeGen => 5,
        AgentType::ContextAnalyzer => 6,
        AgentType::ErrorAnalyzer => 7,
        AgentType::PerformanceAnalyzer => 8,
    }
}

/// The kinds, in the order of their declaration.
pub fn all_kinds() -> (r: Vec<AgentType>)
    ensures
        r@.len() == KIND_COUNT,
        forall|i: int| 0 <= i < KIND_COUNT ==> #[trigger] r@[i] == kind_at(i),
{
    let mut kinds: Vec<AgentType> = Vec::new();
    kinds.push(AgentType::Solver);
    kinds.push(AgentType::Analyzer);
    kinds.push(AgentType::Optimizer);
    kinds.push(AgentType::PatternMatcher);
    kinds.push(AgentType::OutcomePredictor);
    kinds.push(AgentType::AlternativeGen);
    kinds.push(AgentType::ContextAnalyzer);
    kinds.push(AgentType::ErrorAnalyzer);
    kinds.push(AgentType::PerformanceAnalyzer);
    kinds
}

/// Whether every worker is idle.
pub open spec fn all_idle(agents: Seq<EphemeralAgent>) -> bool {
    forall|i: int| 0 <= i < agents.len() ==> (#[trigger] agents[i]).is_idle()
}

/// Number of workers of the kind.
pub open spec fn count_of_kind(agents: Seq<EphemeralAgent>, kind: AgentType) -> nat
    decreases agents.len(),
{
    if agents.len() == 0 {
        0
    } else {
        count_of_kind(agents.drop_last(), kind) + if agents.last().agent_type == kind {
            1nat
        } else {
            0nat
        }
    }
}

/// Position of the first worker of the kind at or after `from`, `-1` if
/// there is none.
pub open spec fn first_of_kind(agents: Seq<EphemeralAgent>, kind: AgentType, from: int) -> int
    decreases agents.len() - from,
{
    if from < 0 || from >= agents.len() {
        -1
    } else if agents[from].agent_type == kind {
        from
    } else {
        first_of_kind(agents, kind, from + 1)
    }
}

/// A worker of the given kind as the pool makes it at `now_ms` to wait for
/// a task: idle, with access to the pattern log.
pub open spec fn pooled_worker(kind: AgentType, id: u128, now_ms: i64) -> EphemeralAgent {
    EphemeralAgent::created(kind, id, now_ms, true).recycled(id, now_ms)
}

/// A worker of the given kind as the pool makes it at `now_ms` for a task
/// that finds none waiting: spawned at `now_ms`, with access to the pattern
/// log.
pub open spec fn new_worker(kind: AgentType, id: u128, now_ms: i64) -> EphemeralAgent {
    EphemeralAgent::created(kind, id, now_ms, true).spawned(now_ms)
}

/// The worker that a task of the kind gets: the one of the kind that has
/// waited longest, or a new one.
pub open spec fn worker_for(
    idle: Seq<EphemeralAgent>,
    kind: AgentType,
    id: u128,
    now_ms: i64,
) -> EphemeralAgent {
    let at = first_of_kind(idle, kind, 0);
    if at < 0 {
        new_worker(kind, id, now_ms)
    } else {
        idle[at]
    }
}

/// The pool after a task of the kind took its worker.
pub open spec fn without_worker(idle: Seq<EphemeralAgent>, kind: AgentType) -> Seq<EphemeralAgent> {
    let at = first_of_kind(idle, kind, 0);
    if at < 0 {
        idle
    } else {
        idle.remove(at)
    }
}

/// The pool after `agent` came back at `now_ms` under the identifier `id`:
/// reset and queued where its queue has room, let go where it has none.
pub open spec fn with_returned(
    idle: Seq<EphemeralAgent>,
    capacity: usize,
    agent: EphemeralAgent,
    id: u128,
    now_ms: i64,
) -> Seq<EphemeralAgent> {
    if count_of_kind(idle, agent.agent_type) < capacity {
        idle.push(agent.recycled(id, now_ms))
    } else {
        idle
    }
}

/// Whether a pool with the waiting workers `idle` and the pattern log `log`
/// turns into one with `idle_after` and `log_after` by processing the task
/// `payload` in `env`, with `solution` as the result.
pub open spec fn task_processed(
    idle: Seq<EphemeralAgent>,
    capacity: usize,
    log: Seq<PatternView>,
    payload: String,
    worker_id: u128,
    next_id: u128,
    env: SolveEnv,
    solution: SolutionView,
    idle_after: Seq<EphemeralAgent>,
    log_after: Seq<PatternView>,
) -> bool {
    let kind = kind_named(task_of_payload(payload@).tool);
    let worker = worker_for(idle, kind, worker_id, env.now_ms);
    &&& solution == solution_spec(kind, worker.store_attached, payload@, log, env)
    &&& log_after == if worker.store_attached {
        log.push(pattern_spec(worker, payload@, outcome_text(solution), true, env))
    } else {
        log
    }
    &&& idle_after == with_returned(
        without_worker(idle, kind),
        capacity,
        worker,
        next_id,
        env.now_ms,
    )
}

/// Queueing a worker raises the count of its kind by one and leaves the
/// other counts.
pub proof fn count_of_kind_push(agents: Seq<EphemeralAgent>, agent: EphemeralAgent, kind: AgentType)
    ensures
        count_of_kind(agents.push(agent), kind) == count_of_kind(agents, kind) + if agent.agent_type
            == kind {
            1nat
        } else {
            0nat
        },
{
    assert(agents.push(agent).drop_last() =~= agents);
}

/// Taking a worker out lowers the count of its kind by one and leaves the
/// other counts.
pub proof fn count_of_kind_remove(agents: Seq<EphemeralAgent>, i: int, kind: AgentType)
    requires
        0 <= i < agents.len(),
    ensures
        count_of_kind(agents.remove(i), kind) + (if agents[i].agent_type == kind {
            1nat
        } else {
            0nat
        }) == count_of_kind(agents, kind),
    decreases agents.len(),
{
    let removed = agents.remove(i);
    if i < agents.len() - 1 {
        assert(removed.drop_last() =~= agents.drop_last().remove(i));
        count_of_kind_remove(agents.drop_last(), i, kind);
    }
}

/// What `first_of_kind` finds is of the kind, and nothing is found only if
/// no worker at or after `from` is of the kind.
pub proof fn first_of_kind_found(agents: Seq<EphemeralAgent>, kind: AgentType, from: int)
    requires
        0 <= from <= agents.len(),
    ensures
        first_of_kind(agents, kind, from) < 0 || (from <= first_of_kind(agents, kind, from)
            < agents.len() && agents[first_of_kind(agents, kind, from)].agent_type == kind),
    decreases agents.len() - from,
{
    if from < agents.len() && agents[from].agent_type != kind {
        first_of_kind_found(agents, kind, from + 1);
    }
}

/// The numbers of a pool.
#[derive(Debug, Clone)]
pub struct PoolStatus {
    /// Number of idle workers, by kind, in the order of the kinds.
    pub idle: Vec<usize>,
    pub total_spawned: usize,
    pub total_dissolved: usize,
}

/// The pool.
pub struct AgentPool {
    idle: Vec<EphemeralAgent>,
    capacity: usize,
    total_spawned: usize,
    total_dissolved: usize,
}

impl AgentPool {
    /// The waiting workers, the one that has waited longest first.
    pub closed spec fn idle(&self) -> Seq<EphemeralAgent> {
        self.idle@
    }

    /// The number of workers of one kind that the pool holds at most.
    pub closed spec fn capacity(&self) -> usize {
        self.capacity
    }

    /// Number of workers made so far.
    pub closed spec fn spawned(&self) -> usize {
        self.total_spawned
    }

    /// Number of workers let go so far.
    pub closed spec fn dissolved(&self) -> usize {
        self.total_dissolved
    }

    /// Every waiting worker is idle, and no queue is longer than the
    /// capacity.
    pub open spec fn wf(&self) -> bool {
        &&& all_idle(self.idle())
        &&& forall|kind: AgentType| #[trigger]
            count_of_kind(self.idle(), kind) <= self.capacity()
    }

    /// An empty pool whose queues hold up to `capacity` workers each.
    pub fn new(capacity: usize) -> (r: AgentPool)
        ensures
            r.wf(),
            r.idle() == Seq::<EphemeralAgent>::empty(),
            r.capacity() == capacity,
            r.spawned() == 0,
            r.dissolved() == 0,
    {
        AgentPool { idle: Vec::new(), capacity, total_spawned: 0, total_dissolved: 0 }
    }

    /// Number of waiting workers of the kind.
    pub fn idle_of(&self, kind: AgentType) -> (r: usize)
        ensures
            r == count_of_kind(self.idle(), kind),
    {
        let n = self.idle.len();
        let mut count: usize = 0;
        let mut i: usize = 0;
        while i < n
            invariant
                n == self.idle@.len(),
                i <= n,
                count <= i,
                count == count_of_kind(self.idle@.take(i as int), kind),
            decreases n - i,
        {
            proof {
                let next = self.idle@.take(i + 1);
                assert(next.drop_last() =~= self.idle@.take(i as int));
            }
            if self.idle[i].agent_type == kind {
                count = count + 1;
            }
            i = i + 1;
        }
        assert(self.idle@.take(n as int) =~= self.idle@);
        count
    }

    /// Position of the waiting worker of the kind that has waited longest.
    fn find(&self, kind: AgentType) -> (r: Option<usize>)
        ensures
            match r {
                Some(i) => i == first_of_kind(self.idle(), kind, 0) && i < self.idle().len(),
                None => first_of_kind(self.idle(), kind, 0) < 0,
            },
    {
        let n = self.idle.len();
        let mut i: usize = 0;
        while i < n
            invariant
                n == self.idle@.len(),
                i <= n,
                first_of_kind(self.idle@, kind, 0) == first_of_kind(self.idle@, kind, i as int),
            decreases n - i,
        {
            if self.idle[i].agent_type == kind {
                return Some(i);
            }
            i = i + 1;
        }
        None
    }

    /// Makes an idle worker of the kind under the identifier `id` at
    /// `now_ms` and queues it, if its queue has room.
    pub fn add_idle(&mut self, kind: AgentType, id: u128, now_ms: i64) -> (r: bool)
        requires
            old(self).wf(),
            old(self).spawned() < usize::MAX,
        ensures
            final(self).wf(),
            final(self).capacity() == old(self).capacity(),
            final(self).dissolved() == old(self).dissolved(),
            r == (count_of_kind(old(self).idle(), kind) < old(self).capacity()),
            r ==> final(self).idle() == old(self).idle().push(pooled_worker(kind, id, now_ms))
                && final(self).spawned() == old(self).spawned() + 1,
            !r ==> final(self).idle() == old(self).idle() && final(self).spawned() == old(
                self,
            ).spawned(),
    {
        if self.idle_of(kind) >= self.capacity {
            return false;
        }
        let mut agent = EphemeralAgent::create(kind, id, now_ms, true);
        agent.reset_at(id, now_ms);
        let ghost before = self.idle@;
        self.idle.push(agent);
        self.total_spawned = self.total_spawned + 1;
        proof {
            assert(self.idle@.drop_last() =~= before);
            assert forall|k: AgentType| #[trigger]
                count_of_kind(self.idle@, k) <= self.capacity by {
                assert(count_of_kind(before, k) <= self.capacity);
            }
        }
        true
    }

    /// Takes the worker for a task of the kind out of the pool: the one of
    /// the kind that has waited longest, or a new one under the identifier
    /// `id`, made at `now_ms`, where none waits.
    pub fn checkout(&mut self, kind: AgentType, id: u128, now_ms: i64) -> (r: EphemeralAgent)
        requires
            old(self).wf(),
            old(self).spawned() < usize::MAX,
        ensures
            final(self).wf(),
            final(self).capacity() == old(self).capacity(),
            final(self).dissolved() == old(self).dissolved(),
            r == worker_for(old(self).idle(), kind, id, now_ms),
            r.is_ready(),
            first_of_kind(old(self).idle(), kind, 0) >= 0 ==> r.is_idle(),
            r.agent_type == kind,
            final(self).idle() == without_worker(old(self).idle(), kind),
            final(self).spawned() == old(self).spawned() + if first_of_kind(
                old(self).idle(),
                kind,
                0,
            ) < 0 {
                1int
            } else {
                0int
            },
    {
        let ghost before = self.idle@;
        proof {
            first_of_kind_found(before, kind, 0);
        }
        match self.find(kind) {
            Some(i) => {
                let agent = self.idle.remove(i);
                proof {
                    assert forall|k: AgentType| #[trigger]
                        count_of_kind(self.idle@, k) <= self.capacity by {
                        count_of_kind_remove(before, i as int, k);
                    }
                }
                agent
            },
            None => {
                let mut agent = EphemeralAgent::create(kind, id, now_ms, true);
                let spawned = agent.spawn_at(now_ms);
                assert(spawned is Ok);
                self.total_spawned = self.total_spawned + 1;
                agent
            },
        }
    }

    /// Takes a worker back at `now_ms`: resets it under the identifier `id`
    /// and queues it, or lets it go where its queue is full.
    pub fn recycle(&mut self, agent: EphemeralAgent, id: u128, now_ms: i64) -> (r: bool)
        requires
            old(self).wf(),
            old(self).dissolved() < usize::MAX,
        ensures
            final(self).wf(),
            final(self).capacity() == old(self).capacity(),
            final(self).spawned() == old(self).spawned(),
            r == (count_of_kind(old(self).idle(), agent.agent_type) < old(self).capacity()),
            final(self).idle() == with_returned(
                old(self).idle(),
                old(self).capacity(),
                agent,
                id,
                now_ms,
            ),
            final(self).dissolved() == old(self).dissolved() + if r {
                0int
            } else {
                1int
            },
    {
        if self.idle_of(agent.agent_type) >= self.capacity {
            self.total_dissolved = self.total_dissolved + 1;
            return false;
        }
        let mut agent = agent;
        agent.reset_at(id, now_ms);
        let ghost before = self.idle@;
        self.idle.push(agent);
        proof {
            assert(self.idle@.drop_last() =~= before);
            assert forall|k: AgentType| #[trigger]
                count_of_kind(self.idle@, k) <= self.capacity by {
                assert(count_of_kind(before, k) <= self.capacity);
            }
        }
        true
    }

    /// The kind of worker that a task calls for: the kind that the task
    /// kind names, a solver where it names none.
    pub open spec fn kind_for(payload: Seq<char>) -> AgentType {
        kind_named(task_of_payload(payload).tool)
    }

    /// Whether the queue of the kind has room for the worker of a task of
    /// the kind once the task is done.
    pub open spec fn has_room_after(
        idle: Seq<EphemeralAgent>,
        capacity: usize,
        kind: AgentType,
    ) -> bool {
        count_of_kind(without_worker(idle, kind), kind) < capacity
    }

    /// Processes a task: takes the worker for it out of the pool, lets it
    /// solve the task in `env`, and takes the worker back.
    ///
    /// `worker_id` is the identifier of the worker if a new one is made,
    /// `next_id` the one under which the worker waits for its next task.
    pub fn process_task_in(
        &mut self,
        payload: String,
        store: &mut PatternStore,
        worker_id: u128,
        next_id: u128,
        env: &SolveEnv,
    ) -> (r: Solution)
        requires
            old(self).wf(),
            old(self).spawned() < usize::MAX,
            old(self).dissolved() < usize::MAX,
        ensures
            final(self).wf(),
            final(self).capacity() == old(self).capacity(),
            final(self).spawned() == old(self).spawned() + if first_of_kind(
                old(self).idle(),
                Self::kind_for(payload@),
                0,
            ) < 0 {
                1int
            } else {
                0int
            },
            final(self).dissolved() == old(self).dissolved() + if Self::has_room_after(
                old(self).idle(),
                old(self).capacity(),
                Self::kind_for(payload@),
            ) {
                0int
            } else {
                1int
            },
            task_processed(
                old(self).idle(),
                old(self).capacity(),
                old(store)@,
                payload,
                worker_id,
                next_id,
                *env,
                r@,
                final(self).idle(),
                final(store)@,
            ),
    {
        let task = Task::from_payload(payload.as_str());
        let kind = agent_type_named(task.tool.as_str());
        let mut worker = self.checkout(kind, worker_id, env.now_ms);
        let solved = worker.solve_in(payload, store, env);
        let solution = solved.unwrap();
        self.recycle(worker, next_id, env.now_ms);
        solution
    }

    /// Processes a task at the current time, without an estimate of the
    /// numeric model, under fresh identifiers.
    pub fn process_task(&mut self, payload: String, store: &mut PatternStore) -> (r: Solution)
        requires
            old(self).wf(),
            old(self).spawned() < usize::MAX,
            old(self).dissolved() < usize::MAX,
        ensures
            final(self).wf(),
            final(self).capacity() == old(self).capacity(),
            final(self).spawned() == old(self).spawned() + if first_of_kind(
                old(self).idle(),
                Self::kind_for(payload@),
                0,
            ) < 0 {
                1int
            } else {
                0int
            },
            final(self).dissolved() == old(self).dissolved() + if Self::has_room_after(
                old(self).idle(),
                old(self).capacity(),
                Self::kind_for(payload@),
            ) {
                0int
            } else {
                1int
            },
            exists|worker_id: u128, next_id: u128, env: SolveEnv|
                env.neural is None && #[trigger] task_processed(
                    old(self).idle(),
                    old(self).capacity(),
                    old(store)@,
                    payload,
                    worker_id,
                    next_id,
                    env,
                    r@,
                    final(self).idle(),
                    final(store)@,
                ),
    {
        let env = SolveEnv { now_ms: now_millis(), pattern_id: fresh_id(), neural: None };
        self.process_task_in(payload, store, fresh_id(), fresh_id(), &env)
    }

    /// Fills the queue of every kind with up to `per_kind` more idle
    /// workers, made at the current time under fresh identifiers.
    pub fn warm_up(&mut self, per_kind: usize)
        requires
            old(self).wf(),
            old(self).spawned() + KIND_COUNT * per_kind <= usize::MAX,
        ensures
            final(self).wf(),
            final(self).capacity() == old(self).capacity(),
            final(self).dissolved() == old(self).dissolved(),
            final(self).spawned() - old(self).spawned() == final(self).idle().len() - old(
                self,
            ).idle().len(),
            forall|kind: AgentType| #[trigger]
                count_of_kind(final(self).idle(), kind) == if count_of_kind(old(self).idle(), kind)
                    + per_kind > old(self).capacity() {
                    old(self).capacity() as int
                } else {
                    count_of_kind(old(self).idle(), kind) + per_kind
                },
    {
        let kinds = all_kinds();
        let mut k: usize = 0;
        while k < KIND_COUNT
            invariant
                k <= KIND_COUNT,
                kinds@.len() == KIND_COUNT,
                forall|i: int| 0 <= i < KIND_COUNT ==> #[trigger] kinds@[i] == kind_at(i),
                self.wf(),
                self.capacity() == old(self).capacity(),
                self.dissolved() == old(self).dissolved(),
                self.spawned() <= old(self).spawned() + k * per_kind,
                self.spawned() - old(self).spawned() == self.idle().len() - old(self).idle().len(),
                old(self).spawned() + KIND_COUNT * per_kind <= usize::MAX,
                forall|i: int|
                    0 <= i < KIND_COUNT ==> #[trigger] count_of_kind(self.idle(), kind_at(i)) == if i
                        < k && count_of_kind(old(self).idle(), kind_at(i)) + per_kind > old(
                        self,
                    ).capacity() {
                        old(self).capacity() as int
                    } else if i < k {
                        count_of_kind(old(self).idle(), kind_at(i)) + per_kind
                    } else {
                        count_of_kind(old(self).idle(), kind_at(i)) as int
                    },
            decreases KIND_COUNT - k,
        {
            let kind = kinds[k];
            let ghost start = self.idle();
            let ghost spawned_before = self.spawned();
            proof {
                let base = old(self).spawned();
                assert(base + k * per_kind + per_kind <= base + KIND_COUNT * per_kind)
                    by (nonlinear_arith)
                    requires
                        k < KIND_COUNT,
                ;
            }
            let mut j: usize = 0;
            while j < per_kind
                invariant
                    j <= per_kind,
                    k < KIND_COUNT,
                    kind == kind_at(k as int),
                    self.wf(),
                    self.capacity() == old(self).capacity(),
                    self.dissolved() == old(self).dissolved(),
                    self.spawned() <= spawned_before + j,
                    self.spawned() - self.idle().len() == spawned_before - start.len(),
                    spawned_before + per_kind <= usize::MAX,
                    forall|i: int|
                        0 <= i < KIND_COUNT && i != k ==> #[trigger] count_of_kind(
                            self.idle(),
                            kind_at(i),
                        ) == count_of_kind(start, kind_at(i)),
                    count_of_kind(self.idle(), kind) == if count_of_kind(start, kind) + j
                        > self.capacity() {
                        self.capacity() as int
                    } else {
                        count_of_kind(start, kind) + j
                    },
                decreases per_kind - j,
            {
                let ghost before = self.idle();
                let id = fresh_id();
                let now = now_millis();
                self.add_idle(kind, id, now);
                proof {
                    assert forall|i: int| 0 <= i < KIND_COUNT && i != k implies #[trigger]
                        count_of_kind(self.idle(), kind_at(i)) == count_of_kind(
                        start,
                        kind_at(i),
                    ) by {
                        count_of_kind_push(before, pooled_worker(kind, id, now), kind_at(i));
                    }
                    count_of_kind_push(before, pooled_worker(kind, id, now), kind);
                }
                j = j + 1;
            }
            proof {
                let base = old(self).spawned();
                assert(spawned_before + per_kind <= base + (k + 1) * per_kind) by (nonlinear_arith)
                    requires
                        spawned_before <= base + k * per_kind,
                ;
            }
            k = k + 1;
        }
        proof {
            assert forall|kind: AgentType| #[trigger]
                count_of_kind(self.idle(), kind) == if count_of_kind(old(self).idle(), kind)
                    + per_kind > old(self).capacity() {
                    old(self).capacity() as int
                } else {
                    count_of_kind(old(self).idle(), kind) + per_kind
                } by {
                let i = kind_index(kind);
                assert(kind_at(i) == kind);
            }
        }
    }

    /// The numbers of the pool.
    pub fn status(&self) -> (r: PoolStatus)
        ensures
            r.idle@.len() == KIND_COUNT,
            forall|i: int|
                0 <= i < KIND_COUNT ==> #[trigger] r.idle@[i] == count_of_kind(
                    self.idle(),
                    kind_at(i),
                ),
            r.total_spawned == self.spawned(),
            r.total_dissolved == self.dissolved(),
    {
        let mut idle: Vec<usize> = Vec::new();
        idle.push(self.idle_of(AgentType::Solver));
        idle.push(self.idle_of(AgentType::Analyzer));
        idle.push(self.idle_of(AgentType::Optimizer));
        idle.push(self.idle_of(AgentType::PatternMatcher));
        idle.push(self.idle_of(AgentType::OutcomePredictor));
        idle.push(self.idle_of(AgentType::AlternativeGen));
        idle.push(self.idle_of(AgentType::ContextAnalyzer));
        idle.push(self.idle_of(AgentType::ErrorAnalyzer));
        idle.push(self.idle_of(AgentType::PerformanceAnalyzer));
        PoolStatus {
            idle,
            total_spawned: self.total_spawned,
            total_dissolved: self.total_dissolved,
        }
    }
}

/// A worker that a task gets from a pool of idle workers is ready: active,
/// with no problem, no result, no completion time and no lifespan left of
/// an earlier task. If it waited in the pool, it has no start time either.
pub proof fn pooled_workers_are_idle(
    idle: Seq<EphemeralAgent>,
    kind: AgentType,
    id: u128,
    now_ms: i64,
)
    requires
        all_idle(idle),
    ensures
        worker_for(idle, kind, id, now_ms).is_ready(),
        first_of_kind(idle, kind, 0) >= 0 ==> worker_for(idle, kind, id, now_ms).is_idle(),
        worker_for(idle, kind, id, now_ms).agent_type == kind,
        all_idle(without_worker(idle, kind)),
{
    first_of_kind_found(idle, kind, 0);
}

/// Whatever state a worker comes back in, the pool stays a pool of idle
/// workers.
pub proof fn returned_workers_are_idle(
    idle: Seq<EphemeralAgent>,
    capacity: usize,
    agent: EphemeralAgent,
    id: u128,
    now_ms: i64,
)
    requires
        all_idle(idle),
    ensures
        agent.recycled(id, now_ms).is_idle(),
        all_idle(with_returned(idle, capacity, agent, id, now_ms)),
{
}

} // verus!
