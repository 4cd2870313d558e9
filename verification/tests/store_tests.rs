use ruv_swarm::status::AgentType;
use ruv_swarm::store::{ExecutionPattern, PatternStore};

fn pattern(id: u128, tool: &str, success: bool, duration_ms: u64, hour: u32) -> ExecutionPattern {
    ExecutionPattern {
        id,
        tool: tool.to_string(),
        params_json: format!("{{\"n\":{}}}", id),
        params_hash: format!("hash-{}", id),
        outcome: format!("outcome-{}", id),
        success,
        duration_ms,
        timestamp_ms: 1_700_000_000_000 + id as i64,
        hour_of_day: hour,
        day_of_week: 2,
        worker_kind: AgentType::Solver,
        worker_id: 1000 + id,
        error: if success { None } else { Some(format!("error-{}", id)) },
    }
}

fn ids(rows: &[ExecutionPattern]) -> Vec<u128> {
    rows.iter().map(|r| r.id).collect()
}

fn filled() -> PatternStore {
    let mut store = PatternStore::new();
    store.append(pattern(1, "bq", true, 100, 9));
    store.append(pattern(2, "git", false, 50, 9));
    store.append(pattern(3, "bq", false, 300, 10));
    store.append(pattern(4, "bq", true, 201, 9));
    store.append(pattern(5, "git", true, 70, 23));
    store.append(pattern(6, "bq", false, 0, 9));
    store
}

#[test]
fn a_new_store_is_empty() {
    let store = PatternStore::new();
    assert_eq!(store.len(), 0);
    assert!(store.recent("bq", 10).is_empty());
    assert!(store.recent_failures("bq", 5).is_empty());
    let agg = store.aggregate("bq");
    assert_eq!(agg.total_attempts, 0);
    assert_eq!(agg.successful_attempts, 0);
    assert_eq!(agg.average_duration_ms, None);
    let hourly = store.aggregate_by_hour("bq", 9);
    assert_eq!(hourly.sample_size, 0);
    assert_eq!(hourly.success_rate, None);
}

#[test]
fn recent_returns_the_kind_newest_first() {
    let store = filled();
    assert_eq!(store.len(), 6);
    assert_eq!(ids(&store.recent("bq", 10)), vec![6, 4, 3, 1]);
    assert_eq!(ids(&store.recent("git", 10)), vec![5, 2]);
    assert_eq!(ids(&store.recent("bq", 2)), vec![6, 4]);
    assert_eq!(ids(&store.recent("bq", 0)), Vec::<u128>::new());
    assert_eq!(ids(&store.recent("npm", 10)), Vec::<u128>::new());
}

#[test]
fn recent_failures_returns_failed_records_newest_first() {
    let store = filled();
    assert_eq!(ids(&store.recent_failures("bq", 5)), vec![6, 3]);
    assert_eq!(ids(&store.recent_failures("bq", 1)), vec![6]);
    assert_eq!(ids(&store.recent_failures("git", 5)), vec![2]);
    let rows = store.recent_failures("bq", 5);
    assert_eq!(rows[1].error, Some("error-3".to_string()));
}

#[test]
fn aggregate_counts_attempts_successes_and_mean_duration() {
    let store = filled();
    let bq = store.aggregate("bq");
    assert_eq!(bq.total_attempts, 4);
    assert_eq!(bq.successful_attempts, 2);
    // (100 + 300 + 201 + 0) / 4 = 150.25
    assert_eq!(bq.average_duration_ms, Some(150));
    let git = store.aggregate("git");
    assert_eq!(git.total_attempts, 2);
    assert_eq!(git.successful_attempts, 1);
    assert_eq!(git.average_duration_ms, Some(60));
}

#[test]
fn aggregate_takes_large_durations() {
    let mut store = PatternStore::new();
    store.append(pattern(1, "t", true, u64::MAX, 0));
    store.append(pattern(2, "t", true, u64::MAX, 0));
    store.append(pattern(3, "t", true, u64::MAX - 3, 0));
    assert_eq!(store.aggregate("t").average_duration_ms, Some(u64::MAX - 1));
}

#[test]
fn aggregate_by_hour_looks_at_one_hour() {
    let store = filled();
    let nine = store.aggregate_by_hour("bq", 9);
    assert_eq!(nine.sample_size, 3);
    assert_eq!(nine.success_rate, Some(666_666));
    let ten = store.aggregate_by_hour("bq", 10);
    assert_eq!(ten.sample_size, 1);
    assert_eq!(ten.success_rate, Some(0));
    let late = store.aggregate_by_hour("git", 23);
    assert_eq!(late.sample_size, 1);
    assert_eq!(late.success_rate, Some(1_000_000));
    let none = store.aggregate_by_hour("git", 10);
    assert_eq!(none.sample_size, 0);
    assert_eq!(none.success_rate, None);
}

#[test]
fn an_appended_record_comes_back_first_and_unchanged() {
    let mut store = filled();
    let p = ExecutionPattern {
        id: 77,
        tool: "bq".to_string(),
        params_json: "{\"query\":\"SELECT 1\"}".to_string(),
        params_hash: "abc".to_string(),
        outcome: "done".to_string(),
        success: true,
        duration_ms: 12,
        // older than everything in the store: recency is the order of appending
        timestamp_ms: 5,
        hour_of_day: 0,
        day_of_week: 4,
        worker_kind: AgentType::PatternMatcher,
        worker_id: 99,
        error: Some("none".to_string()),
    };
    store.append(p.duplicate());
    let rows = store.recent("bq", 10);
    let first = &rows[0];
    assert_eq!(first.id, p.id);
    assert_eq!(first.tool, p.tool);
    assert_eq!(first.params_json, p.params_json);
    assert_eq!(first.params_hash, p.params_hash);
    assert_eq!(first.outcome, p.outcome);
    assert_eq!(first.success, p.success);
    assert_eq!(first.duration_ms, p.duration_ms);
    assert_eq!(first.timestamp_ms, p.timestamp_ms);
    assert_eq!(first.hour_of_day, p.hour_of_day);
    assert_eq!(first.day_of_week, p.day_of_week);
    assert_eq!(first.worker_kind, p.worker_kind);
    assert_eq!(first.worker_id, p.worker_id);
    assert_eq!(first.error, p.error);
    assert_eq!(ids(&rows), vec![77, 6, 4, 3, 1]);
    assert_eq!(ids(&store.recent("bq", 1)), vec![77]);
}
