use ruv_swarm::agent::{AgentError, Solution};
use ruv_swarm::api::{
    agent_status, agent_type_named, demo_ephemeral_solve, demo_problems, list_agents,
    lookup_agent, refusal, requested_agent_type, solve_problem, spawn_agent, swarm_stats,
    SolveRequest, SpawnRequest, StatusError,
};
use ruv_swarm::ident::{bytes_of_id, id_text};
use ruv_swarm::coordinator::{CoordinatorError, SwarmCoordinator};
use ruv_swarm::status::{AgentStatus, AgentType};
use ruv_swarm::store::PatternStore;

fn request(name: Option<&str>) -> SpawnRequest {
    SpawnRequest { agent_type: name.map(|n| n.to_string()) }
}

#[test]
fn spawn_requests_name_three_kinds() {
    assert_eq!(requested_agent_type(&request(Some("analyzer"))), AgentType::Analyzer);
    assert_eq!(requested_agent_type(&request(Some("optimizer"))), AgentType::Optimizer);
    assert_eq!(requested_agent_type(&request(Some("solver"))), AgentType::Solver);
    assert_eq!(requested_agent_type(&request(Some("pattern_matcher"))), AgentType::Solver);
    assert_eq!(requested_agent_type(&request(Some("Analyzer"))), AgentType::Solver);
    assert_eq!(requested_agent_type(&request(None)), AgentType::Solver);
}

#[test]
fn kinds_have_lower_case_names() {
    assert_eq!(agent_type_named("solver"), AgentType::Solver);
    assert_eq!(agent_type_named("analyzer"), AgentType::Analyzer);
    assert_eq!(agent_type_named("optimizer"), AgentType::Optimizer);
    assert_eq!(agent_type_named("pattern_matcher"), AgentType::PatternMatcher);
    assert_eq!(agent_type_named("outcome_predictor"), AgentType::OutcomePredictor);
    assert_eq!(agent_type_named("alternative_gen"), AgentType::AlternativeGen);
    assert_eq!(agent_type_named("context_analyzer"), AgentType::ContextAnalyzer);
    assert_eq!(agent_type_named("error_analyzer"), AgentType::Solver);
    assert_eq!(agent_type_named(""), AgentType::Solver);
}

#[test]
fn refusals_carry_the_message() {
    assert_eq!(
        refusal(&CoordinatorError::CapacityReached { active: 3, max: 3 }).error,
        "Maximum agent capacity reached (3/3)"
    );
    assert_eq!(
        refusal(&CoordinatorError::CapacityReached { active: 12, max: 10 }).error,
        "Maximum agent capacity reached (12/10)"
    );
    assert_eq!(refusal(&CoordinatorError::AgentNotFound { id: 4 }).error, "Agent not found");
    assert_eq!(refusal(&CoordinatorError::StoreFailed).error, "Record could not be stored");
    assert_eq!(
        refusal(&CoordinatorError::Agent(AgentError::InvalidTransition {
            from: AgentStatus::Active,
            to: AgentStatus::Dissolving,
        }))
        .error,
        "Agent cannot move from Active to Dissolving"
    );
}

#[test]
fn spawn_agent_answers_with_the_identifier() {
    let mut c = SwarmCoordinator::new();
    c.set_max_agents(1);
    let response = spawn_agent(&mut c, &request(Some("optimizer"))).unwrap();
    assert_eq!(
        response.message,
        format!("Agent {} spawned successfully", uuid::Uuid::from_u128(response.agent_id))
    );
    let a = c.get_agent(response.agent_id).unwrap();
    assert_eq!(a.agent_type, AgentType::Optimizer);
    assert_eq!(a.status, AgentStatus::Active);
    match spawn_agent(&mut c, &request(None)) {
        Err(e) => assert_eq!(e.error, "Maximum agent capacity reached (1/1)"),
        Ok(_) => panic!("spawned above the cap"),
    }
    assert_eq!(c.list_agents().len(), 1);
}

#[test]
fn solve_problem_answers_with_the_solution() {
    let mut c = SwarmCoordinator::new();
    let mut store = PatternStore::new();
    let response =
        solve_problem(&mut c, &mut store, &SolveRequest { problem: "analyze abc".to_string() })
            .unwrap();
    assert_eq!(store.len(), 1);
    assert_eq!(store.recent("unknown", 1)[0].worker_id, response.agent_id);
    match response.solution {
        Solution::Text(t) => assert_eq!(t, "Analysis: analyze abc (length: 11, words: 2)"),
        _ => panic!("expected a text"),
    }
    assert_eq!(response.agent_type, "Analyzer");
    assert!(c.list_agents().is_empty());
    assert_eq!(c.get_stats(None).total_spawned, 1);
    assert_eq!(c.get_stats(None).total_dissolved, 1);

    c.set_max_agents(0);
    match solve_problem(&mut c, &mut store, &SolveRequest { problem: "abc".to_string() }) {
        Err(e) => assert_eq!(e.error, "Maximum agent capacity reached (0/0)"),
        Ok(_) => panic!("solved above the cap"),
    }
    assert_eq!(store.len(), 1);
}

#[test]
fn the_demonstration_solves_three_problems() {
    assert_eq!(
        demo_problems(),
        vec![
            "Solve this complex equation",
            "Analyze market trends for Q4",
            "Optimize database query performance"
        ]
    );
    let mut c = SwarmCoordinator::new();
    let mut store = PatternStore::new();
    let response = demo_ephemeral_solve(&mut c, &mut store, Some(42)).unwrap();
    assert_eq!(store.len(), 3);
    assert_eq!(store.aggregate("unknown").total_attempts, 3);
    assert_eq!(response.message, "Ephemeral intelligence demonstration complete!");
    assert_eq!(
        response.note,
        "Each problem was solved by a different ephemeral agent that spawned, solved, and dissolved in <100ms"
    );
    let got: Vec<(&str, &str)> =
        response.results.iter().map(|r| (r.problem.as_str(), r.solution.as_str())).collect();
    // the problems begin with capitals, so none says `analyze` or `optimize`
    assert_eq!(
        got,
        vec![
            ("Solve this complex equation", "Solution: noitauqe xelpmoc siht evloS"),
            ("Analyze market trends for Q4", "Solution: 4Q rof sdnert tekram ezylanA"),
            ("Optimize database query performance", "Solution: ecnamrofrep yreuq esabatad ezimitpO"),
        ]
    );
    assert_eq!(response.stats.total_spawned, 3);
    assert_eq!(response.stats.total_dissolved, 3);
    assert_eq!(response.stats.active_agents, 0);
    assert_eq!(response.stats.average_lifespan_ms, 42);
    assert_eq!(response.stats.max_agents, 3);
}

#[test]
fn the_demonstration_is_refused_at_the_cap() {
    let mut c = SwarmCoordinator::new();
    c.set_max_agents(1);
    c.spawn_agent_with(AgentType::Solver, 1, 0).unwrap();
    let mut store = PatternStore::new();
    match demo_ephemeral_solve(&mut c, &mut store, None) {
        Err(e) => assert_eq!(e.error, "Maximum agent capacity reached (1/1)"),
        Ok(_) => panic!("ran above the cap"),
    }
    assert_eq!(c.get_stats(None).total_spawned, 1);
    assert_eq!(c.get_stats(None).total_dissolved, 0);
    assert_eq!(store.len(), 0);
}

#[test]
fn identifiers_are_written_in_five_groups() {
    assert_eq!(id_text(0), "00000000-0000-0000-0000-000000000000");
    assert_eq!(
        id_text(0xa1a2a3a4b1b2c1c2d1d2d3d4d5d6d7d8),
        "a1a2a3a4-b1b2-c1c2-d1d2-d3d4d5d6d7d8"
    );
    assert_eq!(id_text(u128::MAX), "ffffffff-ffff-ffff-ffff-ffffffffffff");
    assert_eq!(id_text(0x0123456789abcdef), "00000000-0000-0000-0123-456789abcdef");
    for id in [1u128, 0x10, 0xdead_beef, u128::MAX / 3, 1 << 127, 0x0fed_cba9_8765_4321_0011_2233_4455_6677] {
        assert_eq!(id_text(id), uuid::Uuid::from_u128(id).to_string());
        assert_eq!(bytes_of_id(id), id.to_be_bytes().to_vec());
    }
}

#[test]
fn agent_status_reads_the_identifier() {
    let mut c = SwarmCoordinator::new();
    c.spawn_agent_with(AgentType::Analyzer, 0x550e8400_e29b_41d4_a716_446655440000, 7).unwrap();
    let shown = agent_status(&c, "550e8400-e29b-41d4-a716-446655440000").unwrap();
    assert_eq!(shown.id, 0x550e8400_e29b_41d4_a716_446655440000);
    assert_eq!(shown.agent_type, AgentType::Analyzer);
    assert_eq!(shown.created_at, 7);
    // the forms without hyphens and in upper case name the same worker
    assert!(agent_status(&c, "550e8400e29b41d4a716446655440000").is_ok());
    assert!(agent_status(&c, "550E8400-E29B-41D4-A716-446655440000").is_ok());
    assert!(agent_status(&c, &id_text(shown.id)).is_ok());
    assert_eq!(
        agent_status(&c, "550e8400-e29b-41d4-a716-446655440001").map(|a| a.id),
        Err(StatusError::NotFound)
    );
    for bad in ["", "7", "not-an-id", "550e8400-e29b-41d4-a716-44665544000", "550e8400-e29b-41d4-a716-44665544000g"] {
        assert_eq!(agent_status(&c, bad).map(|a| a.id), Err(StatusError::BadRequest));
    }
    assert_eq!(lookup_agent(&c, None).map(|a| a.id), Err(StatusError::BadRequest));
    assert_eq!(lookup_agent(&c, Some(5)).map(|a| a.id), Err(StatusError::NotFound));
    assert_eq!(lookup_agent(&c, Some(shown.id)).map(|a| a.id), Ok(shown.id));
}

#[test]
fn lists_and_stats_show_the_swarm() {
    let mut c = SwarmCoordinator::new();
    c.spawn_agent_with(AgentType::Solver, 2, 0).unwrap();
    c.spawn_agent_with(AgentType::Optimizer, 1, 0).unwrap();
    let ids: Vec<u128> = list_agents(&c).iter().map(|a| a.id).collect();
    assert_eq!(ids, vec![2, 1]);
    let stats = swarm_stats(&c, Some(9));
    assert_eq!(stats, c.get_stats(Some(9)));
    assert_eq!(stats.active_agents, 2);
    assert_eq!(stats.total_spawned, 2);
    assert_eq!(stats.average_lifespan_ms, 9);
    assert_eq!(swarm_stats(&c, None).average_lifespan_ms, 0);
}
