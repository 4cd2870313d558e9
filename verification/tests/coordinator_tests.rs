use ruv_swarm::agent::{AgentError, Solution, SolveEnv};
use ruv_swarm::coordinator::{classify, CoordinatorError, SwarmCoordinator, SwarmStats};
use ruv_swarm::status::{AgentStatus, AgentType};
use ruv_swarm::store::PatternStore;

fn env(now_ms: i64) -> SolveEnv {
    SolveEnv { now_ms, pattern_id: 1, neural: None }
}

fn text_of(s: Solution) -> String {
    match s {
        Solution::Text(t) => t,
        _ => panic!("expected a text"),
    }
}

fn ids(c: &SwarmCoordinator) -> Vec<u128> {
    c.list_agents().iter().map(|a| a.id).collect()
}

#[test]
fn a_new_coordinator_is_empty_with_a_cap_of_three() {
    let c = SwarmCoordinator::new();
    assert_eq!(
        c.get_stats(None),
        SwarmStats { active_agents: 0, total_spawned: 0, total_dissolved: 0, average_lifespan_ms: 0, max_agents: 3 }
    );
    assert_eq!(c.active_agents(), 0);
    assert!(c.list_agents().is_empty());
    assert!(c.get_agent(1).is_none());
}

#[test]
fn spawn_registers_an_active_worker() {
    let mut c = SwarmCoordinator::new();
    assert_eq!(c.spawn_agent_with(AgentType::Analyzer, 11, 500), Ok(11));
    let a = c.get_agent(11).unwrap();
    assert_eq!(a.id, 11);
    assert_eq!(a.agent_type, AgentType::Analyzer);
    assert_eq!(a.status, AgentStatus::Active);
    assert_eq!(a.created_at, 500);
    assert_eq!(a.started_at, Some(500));
    assert!(a.store_attached);
    assert_eq!(c.active_agents(), 1);
    assert_eq!(c.get_stats(Some(12)).total_spawned, 1);
    assert_eq!(c.get_stats(Some(12)).average_lifespan_ms, 12);
}

#[test]
fn spawn_is_refused_at_the_cap_and_accepted_after_a_dissolve() {
    let mut c = SwarmCoordinator::new();
    c.set_max_agents(2);
    assert_eq!(c.spawn_agent_with(AgentType::Solver, 1, 0), Ok(1));
    assert_eq!(c.spawn_agent_with(AgentType::Solver, 2, 0), Ok(2));
    assert_eq!(
        c.spawn_agent_with(AgentType::Solver, 3, 0),
        Err(CoordinatorError::CapacityReached { active: 2, max: 2 })
    );
    assert_eq!(ids(&c), vec![1, 2]);
    assert_eq!(c.get_stats(None).total_spawned, 2);

    // the first worker does its task and is marked as dissolving:
    // it is still registered but frees its slot
    c.solve_with_agent(1, "abc".to_string(), &mut PatternStore::new(), &env(5)).unwrap();
    assert_eq!(
        c.spawn_agent_with(AgentType::Solver, 3, 0),
        Err(CoordinatorError::CapacityReached { active: 2, max: 2 })
    );
    assert_eq!(c.begin_dissolve(1, 10), Ok(true));
    assert_eq!(ids(&c), vec![1, 2]);
    assert_eq!(c.active_agents(), 1);
    assert_eq!(c.spawn_agent_with(AgentType::Solver, 3, 0), Ok(3));
    assert_eq!(ids(&c), vec![1, 2, 3]);
    assert_eq!(
        c.spawn_agent_with(AgentType::Solver, 4, 0),
        Err(CoordinatorError::CapacityReached { active: 2, max: 2 })
    );

    let gone = c.finish_dissolve(1).unwrap();
    assert_eq!(gone.id, 1);
    assert_eq!(gone.status, AgentStatus::Dissolving);
    assert_eq!(gone.lifespan_ms, 10);
    assert_eq!(ids(&c), vec![2, 3]);
    let stats = c.get_stats(None);
    assert_eq!(stats.total_spawned, 3);
    assert_eq!(stats.total_dissolved, 1);
    assert_eq!(stats.active_agents, 2);
}

#[test]
fn a_cap_of_zero_refuses_everything() {
    let mut c = SwarmCoordinator::new();
    c.set_max_agents(0);
    assert_eq!(
        c.spawn_agent_with(AgentType::Solver, 1, 0),
        Err(CoordinatorError::CapacityReached { active: 0, max: 0 })
    );
    match c.solve_problem_at("abc".to_string(), &mut PatternStore::new(), 1, 0, &env(0), 0) {
        Err(e) => assert_eq!(e, CoordinatorError::CapacityReached { active: 0, max: 0 }),
        Ok(_) => panic!("solved above the cap"),
    }
    assert_eq!(c.get_stats(None).total_spawned, 0);
}

#[test]
fn a_worker_with_a_known_identifier_gives_way() {
    let mut c = SwarmCoordinator::new();
    c.spawn_agent_with(AgentType::Solver, 1, 0).unwrap();
    c.spawn_agent_with(AgentType::Solver, 2, 0).unwrap();
    c.spawn_agent_with(AgentType::Optimizer, 1, 50).unwrap();
    assert_eq!(ids(&c), vec![1, 2]);
    let a = c.get_agent(1).unwrap();
    assert_eq!(a.agent_type, AgentType::Optimizer);
    assert_eq!(a.created_at, 50);
    assert_eq!(c.get_stats(None).total_spawned, 3);
    assert_eq!(c.get_stats(None).active_agents, 2);
}

#[test]
fn dissolve_takes_a_completed_worker_out() {
    let mut c = SwarmCoordinator::new();
    c.spawn_agent_with(AgentType::Solver, 1, 100).unwrap();
    // unknown identifier: nothing happens
    assert!(matches!(c.dissolve_agent_at(9, 0), Ok(None)));
    assert_eq!(c.begin_dissolve(9, 0), Ok(false));
    assert!(c.finish_dissolve(9).is_none());
    // an active worker has not done its task yet
    let refused = CoordinatorError::Agent(AgentError::InvalidTransition {
        from: AgentStatus::Active,
        to: AgentStatus::Dissolving,
    });
    match c.dissolve_agent_at(1, 200) {
        Err(e) => assert_eq!(e, refused),
        Ok(_) => panic!("dissolved an active worker"),
    }
    assert_eq!(c.begin_dissolve(1, 200), Err(refused));
    assert!(c.finish_dissolve(1).is_none());
    assert_eq!(c.get_agent(1).unwrap().status, AgentStatus::Active);

    let mut store = PatternStore::new();
    assert_eq!(
        text_of(c.solve_with_agent(1, "abc".to_string(), &mut store, &env(150)).unwrap()),
        "Solution: cba"
    );
    assert_eq!(store.len(), 1);
    assert_eq!(store.recent("unknown", 1)[0].worker_id, 1);
    assert_eq!(c.get_agent(1).unwrap().status, AgentStatus::Completed);
    assert_eq!(c.get_agent(1).unwrap().solution, Some("Solution: cba".to_string()));
    // a completed worker cannot be taken out before it is marked
    assert!(c.finish_dissolve(1).is_none());
    let gone = c.dissolve_agent_at(1, 350).unwrap().unwrap();
    assert_eq!(gone.status, AgentStatus::Dissolving);
    assert_eq!(gone.completed_at, Some(350));
    assert_eq!(gone.lifespan_ms, 250);
    assert!(c.get_agent(1).is_none());
    assert_eq!(c.get_stats(None).total_dissolved, 1);
}

#[test]
fn solve_with_agent_needs_an_active_registered_worker() {
    let mut c = SwarmCoordinator::new();
    let mut store = PatternStore::new();
    match c.solve_with_agent(5, "abc".to_string(), &mut store, &env(0)) {
        Err(e) => assert_eq!(e, CoordinatorError::AgentNotFound { id: 5 }),
        Ok(_) => panic!("nobody to solve it"),
    }
    c.spawn_agent_with(AgentType::Solver, 5, 0).unwrap();
    c.solve_with_agent(5, "abc".to_string(), &mut store, &env(0)).unwrap();
    match c.solve_with_agent(5, "def".to_string(), &mut store, &env(0)) {
        Err(e) => assert_eq!(
            e,
            CoordinatorError::Agent(AgentError::InvalidTransition {
                from: AgentStatus::Completed,
                to: AgentStatus::Solving,
            })
        ),
        Ok(_) => panic!("a worker solves one task"),
    }
    assert_eq!(c.get_agent(5).unwrap().problem, Some("abc".to_string()));
    assert_eq!(store.len(), 1);
}

#[test]
fn problems_are_classified_by_their_words() {
    assert_eq!(classify("please analyze this"), AgentType::Analyzer);
    assert_eq!(classify("optimize and analyze"), AgentType::Analyzer);
    assert_eq!(classify("optimize this"), AgentType::Optimizer);
    assert_eq!(classify("Analyze this"), AgentType::Solver);
    assert_eq!(classify("Optimize this"), AgentType::Solver);
    assert_eq!(classify(""), AgentType::Solver);
    assert_eq!(classify("reanalyzed"), AgentType::Analyzer);
}

#[test]
fn solve_problem_uses_a_worker_of_its_own() {
    let mut c = SwarmCoordinator::new();
    c.spawn_agent_with(AgentType::Solver, 1, 0).unwrap();
    let mut store = PatternStore::new();
    let solved = c
        .solve_problem_at("please analyze this".to_string(), &mut store, 77, 1000, &env(1010), 1040)
        .unwrap();
    assert_eq!(store.len(), 1);
    let recorded = &store.recent("unknown", 1)[0];
    assert_eq!(recorded.worker_id, 77);
    assert_eq!(recorded.worker_kind, AgentType::Analyzer);
    assert_eq!(recorded.timestamp_ms, 1010);
    assert_eq!(recorded.outcome, "Analysis: please analyze this (length: 19, words: 3)");
    assert_eq!(text_of(solved.solution), "Analysis: please analyze this (length: 19, words: 3)");
    assert_eq!(solved.agent.id, 77);
    assert_eq!(solved.agent.agent_type, AgentType::Analyzer);
    assert_eq!(solved.agent.status, AgentStatus::Dissolving);
    assert_eq!(solved.agent.created_at, 1000);
    assert_eq!(solved.agent.started_at, Some(1000));
    assert_eq!(solved.agent.completed_at, Some(1040));
    assert_eq!(solved.agent.lifespan_ms, 40);
    assert_eq!(solved.agent.problem, Some("please analyze this".to_string()));
    assert_eq!(
        solved.agent.solution,
        Some("Analysis: please analyze this (length: 19, words: 3)".to_string())
    );
    assert_eq!(ids(&c), vec![1]);
    let stats = c.get_stats(None);
    assert_eq!(stats.total_spawned, 2);
    assert_eq!(stats.total_dissolved, 1);
    assert_eq!(stats.active_agents, 1);
}

#[test]
fn solve_problem_is_refused_at_the_cap() {
    let mut c = SwarmCoordinator::new();
    for id in 1..=3 {
        c.spawn_agent_with(AgentType::Solver, id, 0).unwrap();
    }
    let mut store = PatternStore::new();
    match c.solve_problem("abc".to_string(), &mut store) {
        Err(e) => assert_eq!(e, CoordinatorError::CapacityReached { active: 3, max: 3 }),
        Ok(_) => panic!("solved above the cap"),
    }
    assert_eq!(ids(&c), vec![1, 2, 3]);
    assert_eq!(store.len(), 0);
    c.set_max_agents(4);
    let solved = c.solve_problem("optimize abc".to_string(), &mut store).unwrap();
    assert_eq!(store.len(), 1);
    assert_eq!(text_of(solved.solution), "Optimized: OPTIMIZE ABC");
    assert_eq!(solved.agent.status, AgentStatus::Dissolving);
    assert_eq!(ids(&c), vec![1, 2, 3]);
    assert_eq!(c.get_stats(None).total_spawned, 4);
    assert_eq!(c.get_stats(None).total_dissolved, 1);
}

#[test]
fn spawn_and_dissolve_read_the_clock_where_no_time_is_given() {
    let mut c = SwarmCoordinator::new();
    let a = c.spawn_agent(AgentType::Solver).unwrap();
    let b = c.spawn_agent(AgentType::Optimizer).unwrap();
    assert_ne!(a, b);
    assert_eq!(ids(&c), vec![a, b]);
    assert!(c.get_agent(a).unwrap().created_at > 1_577_836_800_000);
    c.solve_with_agent(b, "x".to_string(), &mut PatternStore::new(), &env(0)).unwrap();
    let gone = c.dissolve_agent(b).unwrap().unwrap();
    assert_eq!(gone.id, b);
    assert!(gone.completed_at.unwrap() >= gone.started_at.unwrap());
    assert_eq!(ids(&c), vec![a]);
    assert!(matches!(c.dissolve_agent(b), Ok(None)));
}

#[test]
fn registered_workers_draw_on_the_pattern_log() {
    let mut c = SwarmCoordinator::new();
    let mut store = PatternStore::new();
    let payload = "{\"tool\": \"analyze\", \"params\": {\"target\": \"logs\"}}";
    let mut confidences = Vec::new();
    for id in 1..=5u128 {
        c.spawn_agent_with(AgentType::OutcomePredictor, id, 0).unwrap();
        match c.solve_with_agent(id, payload.to_string(), &mut store, &env(id as i64)).unwrap() {
            Solution::Prediction(r) => confidences.push(r.prediction.confidence),
            _ => panic!("expected a prediction"),
        }
        c.dissolve_agent_at(id, 10).unwrap().unwrap();
    }
    assert_eq!(confidences, vec![300_000, 300_000, 300_000, 300_000, 700_000]);
    assert_eq!(store.len(), 5);
    assert!(c.list_agents().is_empty());
}

#[test]
fn a_dissolve_that_is_not_recorded_keeps_the_worker() {
    let mut c = SwarmCoordinator::new();
    c.set_max_agents(1);
    c.spawn_agent_with(AgentType::Solver, 1, 0).unwrap();
    c.solve_with_agent(1, "abc".to_string(), &mut PatternStore::new(), &env(5)).unwrap();
    assert_eq!(c.begin_dissolve(1, 10), Ok(true));
    match c.settle_dissolve(1, false) {
        Err(e) => assert_eq!(e, CoordinatorError::StoreFailed),
        Ok(_) => panic!("settled without the record"),
    }
    assert_eq!(ids(&c), vec![1]);
    assert_eq!(c.get_agent(1).unwrap().status, AgentStatus::Dissolving);
    assert_eq!(c.get_stats(None).total_dissolved, 0);
    // the worker no longer counts against the cap
    assert_eq!(c.spawn_agent_with(AgentType::Solver, 2, 0), Ok(2));
    let gone = c.settle_dissolve(1, true).unwrap().unwrap();
    assert_eq!(gone.id, 1);
    assert_eq!(ids(&c), vec![2]);
    assert_eq!(c.get_stats(None).total_dissolved, 1);
    // nothing to settle for a worker that is not dissolving
    assert!(matches!(c.settle_dissolve(2, true), Ok(None)));
    assert!(matches!(c.settle_dissolve(9, true), Ok(None)));
}

#[test]
fn a_refused_spawn_needs_no_room_in_the_counter() {
    let mut c = SwarmCoordinator::new();
    c.set_max_agents(0);
    for _ in 0..3 {
        assert_eq!(
            c.spawn_agent(AgentType::Solver),
            Err(CoordinatorError::CapacityReached { active: 0, max: 0 })
        );
    }
    assert_eq!(c.get_stats(None).total_spawned, 0);
    assert!(c.list_agents().is_empty());
}

#[test]
fn a_spawn_that_is_not_recorded_fails() {
    assert_eq!(SwarmCoordinator::settle_spawn(7, true), Ok(7));
    assert_eq!(SwarmCoordinator::settle_spawn(7, false), Err(CoordinatorError::StoreFailed));
}
