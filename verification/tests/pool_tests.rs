use ruv_swarm::agent::{EphemeralAgent, Solution, SolveEnv};
use ruv_swarm::pool::{all_kinds, AgentPool};
use ruv_swarm::status::{AgentStatus, AgentType};
use ruv_swarm::store::PatternStore;

fn env(now_ms: i64, pattern_id: u128) -> SolveEnv {
    SolveEnv { now_ms, pattern_id, neural: None }
}

fn assert_idle(a: &EphemeralAgent) {
    assert_ready(a);
    assert_eq!(a.started_at, None);
}

fn assert_ready(a: &EphemeralAgent) {
    assert_eq!(a.status, AgentStatus::Active);
    assert_eq!(a.problem, None);
    assert_eq!(a.solution, None);
    assert_eq!(a.completed_at, None);
    assert_eq!(a.lifespan_ms, 0);
}

#[test]
fn a_new_pool_is_empty() {
    let pool = AgentPool::new(2);
    let status = pool.status();
    assert_eq!(status.idle, vec![0; 9]);
    assert_eq!(status.total_spawned, 0);
    assert_eq!(status.total_dissolved, 0);
    assert_eq!(
        all_kinds(),
        vec![
            AgentType::Solver,
            AgentType::Analyzer,
            AgentType::Optimizer,
            AgentType::PatternMatcher,
            AgentType::OutcomePredictor,
            AgentType::AlternativeGen,
            AgentType::ContextAnalyzer,
            AgentType::ErrorAnalyzer,
            AgentType::PerformanceAnalyzer,
        ]
    );
}

#[test]
fn warm_up_fills_every_queue() {
    let mut pool = AgentPool::new(3);
    pool.warm_up(2);
    assert_eq!(pool.status().idle, vec![2; 9]);
    assert_eq!(pool.status().total_spawned, 18);
    pool.warm_up(2);
    assert_eq!(pool.status().idle, vec![3; 9]);
    assert_eq!(pool.status().total_spawned, 27);
    pool.warm_up(0);
    assert_eq!(pool.status().idle, vec![3; 9]);
    assert_eq!(pool.idle_of(AgentType::Optimizer), 3);
}

#[test]
fn checkout_takes_the_worker_that_waited_longest() {
    let mut pool = AgentPool::new(5);
    assert!(pool.add_idle(AgentType::Solver, 1, 10));
    assert!(pool.add_idle(AgentType::Analyzer, 2, 20));
    assert!(pool.add_idle(AgentType::Solver, 3, 30));
    let a = pool.checkout(AgentType::Solver, 100, 500);
    assert_eq!(a.id, 1);
    assert_idle(&a);
    assert!(a.store_attached);
    let b = pool.checkout(AgentType::Solver, 101, 500);
    assert_eq!(b.id, 3);
    assert_eq!(pool.status().total_spawned, 3);
    // pool miss: a new worker, already active
    let c = pool.checkout(AgentType::Solver, 102, 500);
    assert_eq!(c.id, 102);
    assert_eq!(c.agent_type, AgentType::Solver);
    assert_eq!(c.created_at, 500);
    assert_eq!(c.started_at, Some(500));
    assert_ready(&c);
    assert_eq!(pool.status().total_spawned, 4);
    assert_eq!(pool.status().idle, vec![0, 1, 0, 0, 0, 0, 0, 0, 0]);
}

#[test]
fn recycled_workers_wait_idle() {
    let mut pool = AgentPool::new(1);
    let mut store = PatternStore::new();
    let mut a = pool.checkout(AgentType::Optimizer, 1, 100);
    a.solve_in("abc".to_string(), &mut store, &env(110, 1)).unwrap();
    a.dissolve_at(150).unwrap();
    assert_eq!(a.status, AgentStatus::Dissolving);
    assert!(pool.recycle(a, 2, 200));
    assert_eq!(pool.idle_of(AgentType::Optimizer), 1);

    let b = pool.checkout(AgentType::Optimizer, 3, 300);
    assert_eq!(b.id, 2);
    assert_eq!(b.created_at, 200);
    assert_eq!(b.started_at, None);
    assert_idle(&b);
    assert_eq!(pool.status().total_spawned, 1);
}

#[test]
fn a_full_queue_lets_the_worker_go() {
    let mut pool = AgentPool::new(1);
    assert!(pool.add_idle(AgentType::Solver, 1, 0));
    assert!(!pool.add_idle(AgentType::Solver, 2, 0));
    assert!(pool.add_idle(AgentType::Analyzer, 3, 0));
    let extra = EphemeralAgent::create(AgentType::Solver, 9, 0, true);
    assert!(!pool.recycle(extra, 10, 5));
    assert_eq!(pool.idle_of(AgentType::Solver), 1);
    assert_eq!(pool.status().total_dissolved, 1);
    assert_eq!(pool.status().total_spawned, 2);

    let mut none = AgentPool::new(0);
    assert!(!none.add_idle(AgentType::Solver, 1, 0));
    none.warm_up(4);
    assert_eq!(none.status().idle, vec![0; 9]);
    assert_eq!(none.status().total_spawned, 0);
}

#[test]
fn process_task_reuses_workers() {
    let mut pool = AgentPool::new(2);
    let mut store = PatternStore::new();
    let payload = "{\"tool\": \"optimizer\", \"params\": {\"problem\": \"make it fast\"}}";
    match pool.process_task_in(payload.to_string(), &mut store, 1, 2, &env(1000, 50)) {
        Solution::Text(t) => assert_eq!(t, format!("Optimized: {}", payload.to_uppercase())),
        _ => panic!("expected a text"),
    }
    assert_eq!(pool.status().total_spawned, 1);
    assert_eq!(pool.idle_of(AgentType::Optimizer), 1);
    assert_eq!(store.len(), 1);
    let first = store.recent("optimizer", 1);
    assert_eq!(first[0].worker_id, 1);
    assert_eq!(first[0].worker_kind, AgentType::Optimizer);

    pool.process_task_in(payload.to_string(), &mut store, 3, 4, &env(2000, 51));
    // no new worker: the one that came back did the second task
    assert_eq!(pool.status().total_spawned, 1);
    assert_eq!(pool.idle_of(AgentType::Optimizer), 1);
    let second = store.recent("optimizer", 1);
    assert_eq!(second[0].worker_id, 2);
    let waiting = pool.checkout(AgentType::Optimizer, 0, 0);
    assert_eq!(waiting.id, 4);
    assert_idle(&waiting);
}

#[test]
fn process_task_picks_the_kind_by_the_tool() {
    let mut pool = AgentPool::new(2);
    let mut store = PatternStore::new();
    let predict = "{\"tool\": \"outcome_predictor\", \"params\": {}}";
    match pool.process_task_in(predict.to_string(), &mut store, 1, 2, &env(0, 1)) {
        Solution::Prediction(r) => {
            assert!(r.store_available);
            assert_eq!(r.prediction.historical_attempts, 0);
            assert_eq!(r.prediction.confidence, 300_000);
        }
        _ => panic!("expected a prediction"),
    }
    match pool.process_task_in(predict.to_string(), &mut store, 1, 2, &env(0, 2)) {
        Solution::Prediction(r) => assert_eq!(r.prediction.historical_attempts, 1),
        _ => panic!("expected a prediction"),
    }
    for general in ["{\"tool\": \"general\", \"params\": {}}", "not json", "{\"tool\": \"batch\"}"] {
        match pool.process_task_in(general.to_string(), &mut store, 5, 6, &env(0, 3)) {
            Solution::Text(t) => assert!(t.starts_with("Solution: ")),
            _ => panic!("expected a text"),
        }
    }
    assert_eq!(pool.idle_of(AgentType::Solver), 1);
    assert_eq!(pool.idle_of(AgentType::OutcomePredictor), 1);
}

#[test]
fn process_task_reads_the_clock_where_no_time_is_given() {
    let mut pool = AgentPool::new(1);
    let mut store = PatternStore::new();
    pool.warm_up(1);
    match pool.process_task("{\"tool\": \"analyzer\", \"params\": {}}".to_string(), &mut store) {
        Solution::Text(t) => assert!(t.starts_with("Analysis: ")),
        _ => panic!("expected a text"),
    }
    assert_eq!(pool.status().total_spawned, 9);
    assert_eq!(pool.status().idle, vec![1; 9]);
    assert_eq!(store.len(), 1);
    assert!(store.recent("analyzer", 1)[0].timestamp_ms > 1_577_836_800_000);
}
