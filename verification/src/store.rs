//! The pattern log: an append-only record of executed tasks, and the queries
//! that prediction relies on.
//!
//! "Most recent" means most recently appended.

use vstd::prelude::*;
use crate::fixed::{ratio, ratio_spec, SCALE};
use crate::status::AgentType;

verus! {

/// A record of one executed task.
#[derive(Debug, Clone)]
pub struct ExecutionPattern {
    pub id: u128,
    /// The task kind.
    pub tool: String,
    /// The parameters in compact JSON notation.
    pub params_json: String,
    /// The content hash of `params_json`.
    pub params_hash: String,
    /// What the worker produced.
    pub outcome: String,
    pub success: bool,
    pub duration_ms: u64,
    pub timestamp_ms: i64,
    /// Hour of the day of the timestamp, UTC.
    pub hour_of_day: u32,
    /// Day of the week of the timestamp, Monday = 1.
    pub day_of_week: u32,
    pub worker_kind: AgentType,
    pub worker_id: u128,
    pub error: Option<String>,
}

/// The value that an [`ExecutionPattern`] stands for in contracts.
pub struct PatternView {
    pub id: u128,
    pub tool: Seq<char>,
    pub params_json: Seq<char>,
    pub params_hash: Seq<char>,
    pub outcome: Seq<char>,
    pub success: bool,
    pub duration_ms: u64,
    pub timestamp_ms: i64,
    pub hour_of_day: u32,
    pub day_of_week: u32,
    pub worker_kind: AgentType,
    pub worker_id: u128,
    pub error: Option<Seq<char>>,
}

impl View for ExecutionPattern {
    type V = PatternView;

    open spec fn view(&self) -> PatternView {
        PatternView {
            id: self.id,
            tool: self.tool@,
            params_json: self.params_json@,
            params_hash: self.params_hash@,
            outcome: self.outcome@,
            success: self.success,
            duration_ms: self.duration_ms,
            timestamp_ms: self.timestamp_ms,
            hour_of_day: self.hour_of_day,
            day_of_week: self.day_of_week,
            worker_kind: self.worker_kind,
            worker_id: self.worker_id,
            error: match self.error {
                Some(e) => Some(e@),
                None => None,
            },
        }
    }
}

impl ExecutionPattern {
    /// A copy of the record.
    pub fn duplicate(&self) -> (r: ExecutionPattern)
        ensures
            r@ == self@,
    {
        ExecutionPattern {
            id: self.id,
            tool: self.tool.clone(),
            params_json: self.params_json.clone(),
            params_hash: self.params_hash.clone(),
            outcome: self.outcome.clone(),
            success: self.success,
            duration_ms: self.duration_ms,
            timestamp_ms: self.timestamp_ms,
            hour_of_day: self.hour_of_day,
            day_of_week: self.day_of_week,
            worker_kind: self.worker_kind,
            worker_id: self.worker_id,
            error: match &self.error {
                Some(e) => Some(e.clone()),
                None => None,
            },
        }
    }
}

/// Which records a query looks at: those of one task kind, optionally only
/// those of one hour of the day, optionally only the failed ones.
pub struct Selector {
    pub tool: Seq<char>,
    pub hour: Option<u32>,
    pub failures_only: bool,
}

impl Selector {
    /// Every record of the task kind.
    pub open spec fn of_tool(tool: Seq<char>) -> Selector {
        Selector { tool, hour: None, failures_only: false }
    }

    /// The records of the task kind that fall in the hour of the day.
    pub open spec fn of_hour(tool: Seq<char>, hour: u32) -> Selector {
        Selector { tool, hour: Some(hour), failures_only: false }
    }

    /// The failed records of the task kind.
    pub open spec fn of_failures(tool: Seq<char>) -> Selector {
        Selector { tool, hour: None, failures_only: true }
    }

    /// Whether the query looks at the record.
    pub open spec fn selects(self, p: PatternView) -> bool {
        &&& p.tool == self.tool
        &&& (self.hour is Some ==> p.hour_of_day == self.hour->0)
        &&& (self.failures_only ==> !p.success)
    }
}

/// The selected records, most recent first, at most `limit` of them.
pub open spec fn newest(log: Seq<PatternView>, sel: Selector, limit: nat) -> Seq<PatternView>
    decreases log.len(),
{
    if log.len() == 0 || limit == 0 {
        Seq::empty()
    } else if sel.selects(log.last()) {
        seq![log.last()] + newest(log.drop_last(), sel, (limit - 1) as nat)
    } else {
        newest(log.drop_last(), sel, limit)
    }
}

/// Number of selected records.
pub open spec fn attempts(log: Seq<PatternView>, sel: Selector) -> nat
    decreases log.len(),
{
    if log.len() == 0 {
        0
    } else {
        attempts(log.drop_last(), sel) + if sel.selects(log.last()) {
            1nat
        } else {
            0nat
        }
    }
}

/// Number of selected records that succeeded.
pub open spec fn successes(log: Seq<PatternView>, sel: Selector) -> nat
    decreases log.len(),
{
    if log.len() == 0 {
        0
    } else {
        successes(log.drop_last(), sel) + if sel.selects(log.last()) && log.last().success {
            1nat
        } else {
            0nat
        }
    }
}

/// Sum of the durations of the selected records.
pub open spec fn total_duration(log: Seq<PatternView>, sel: Selector) -> nat
    decreases log.len(),
{
    if log.len() == 0 {
        0
    } else {
        total_duration(log.drop_last(), sel) + if sel.selects(log.last()) {
            log.last().duration_ms as nat
        } else {
            0nat
        }
    }
}

/// The counts nest and the sum is bounded by the largest duration times the
/// number of records.
pub proof fn tallies_bounded(log: Seq<PatternView>, sel: Selector)
    ensures
        successes(log, sel) <= attempts(log, sel) <= log.len(),
        total_duration(log, sel) <= attempts(log, sel) * u64::MAX,
    decreases log.len(),
{
    if log.len() > 0 {
        tallies_bounded(log.drop_last(), sel);
    }
}

/// Success and duration statistics of one task kind.
#[derive(Debug, Clone, Copy, PartialEq, Eq, Structural)]
pub struct Aggregate {
    pub total_attempts: u64,
    pub successful_attempts: u64,
    /// Mean duration in milliseconds, rounded down; `None` without attempts.
    pub average_duration_ms: Option<u64>,
}

impl Aggregate {
    /// No more successes than attempts.
    pub open spec fn wf(self) -> bool {
        self.successful_attempts <= self.total_attempts
    }
}

/// The statistics of one task kind over a log.
pub open spec fn aggregate_spec(log: Seq<PatternView>, tool: Seq<char>) -> Aggregate {
    let sel = Selector::of_tool(tool);
    Aggregate {
        total_attempts: attempts(log, sel) as u64,
        successful_attempts: successes(log, sel) as u64,
        average_duration_ms: if attempts(log, sel) == 0 {
            None
        } else {
            Some((total_duration(log, sel) / attempts(log, sel)) as u64)
        },
    }
}

/// Success statistics of one task kind in one hour of the day.
#[derive(Debug, Clone, Copy, PartialEq, Eq, Structural)]
pub struct HourlyAggregate {
    /// Share of successes in millionths, rounded down; `None` without
    /// samples.
    pub success_rate: Option<u64>,
    pub sample_size: u64,
}

impl HourlyAggregate {
    /// A rate is present exactly with samples, and is at most `1.0`.
    pub open spec fn wf(self) -> bool {
        &&& self.success_rate is Some <==> self.sample_size > 0
        &&& self.success_rate is Some ==> self.success_rate->0 <= SCALE
    }
}

/// The statistics of one task kind in one hour of the day over a log.
pub open spec fn hourly_spec(log: Seq<PatternView>, tool: Seq<char>, hour: u32) -> HourlyAggregate {
    let sel = Selector::of_hour(tool, hour);
    HourlyAggregate {
        success_rate: if attempts(log, sel) == 0 {
            None
        } else {
            Some(ratio_spec(successes(log, sel) as int, attempts(log, sel) as int) as u64)
        },
        sample_size: attempts(log, sel) as u64,
    }
}

/// What one pass over the selected records counts.
struct Tally {
    count: usize,
    succeeded: usize,
    duration: u128,
}

/// The executable form of a [`Selector`].
struct Query {
    tool: String,
    hour: Option<u32>,
    failures_only: bool,
}

impl Query {
    spec fn selector(&self) -> Selector {
        Selector { tool: self.tool@, hour: self.hour, failures_only: self.failures_only }
    }

    fn of(tool: &str, hour: Option<u32>, failures_only: bool) -> (r: Query)
        ensures
            r.selector() == (Selector { tool: tool@, hour, failures_only }),
    {
        Query { tool: String::from_str(tool), hour, failures_only }
    }
}

/// The pattern log.
pub struct PatternStore {
    patterns: Vec<ExecutionPattern>,
}

/// The views of the records, oldest first.
pub open spec fn pattern_views(patterns: Seq<ExecutionPattern>) -> Seq<PatternView> {
    patterns.map_values(|p: ExecutionPattern| p@)
}

impl View for PatternStore {
    type V = Seq<PatternView>;

    /// The records, oldest first.
    closed spec fn view(&self) -> Seq<PatternView> {
        pattern_views(self.patterns@)
    }
}

impl PatternStore {
    /// An empty log.
    pub fn new() -> (r: PatternStore)
        ensures
            r@ == Seq::<PatternView>::empty(),
    {
        let r = PatternStore { patterns: Vec::new() };
        r
    }

    /// Number of records.
    pub fn len(&self) -> (r: usize)
        ensures
            r == self@.len(),
    {
        self.patterns.len()
    }

    /// Appends a record. Earlier records stay as they are.
    pub fn append(&mut self, pattern: ExecutionPattern)
        ensures
            final(self)@ == old(self)@.push(pattern@),
    {
        self.patterns.push(pattern);
    }

    fn selected(&self, query: &Query, i: usize) -> (r: bool)
        requires
            i < self@.len(),
        ensures
            r == query.selector().selects(self@[i as int]),
    {
        let p = &self.patterns[i];
        if !(p.tool == query.tool) {
            return false;
        }
        let hour_ok = match query.hour {
            Some(h) => p.hour_of_day == h,
            None => true,
        };
        hour_ok && (!query.failures_only || !p.success)
    }

    fn tally(&self, query: &Query) -> (r: Tally)
        ensures
            r.count == attempts(self@, query.selector()),
            r.succeeded == successes(self@, query.selector()),
            r.duration == total_duration(self@, query.selector()),
            r.succeeded <= r.count,
    {
        let n = self.patterns.len();
        let ghost sel = query.selector();
        let mut t = Tally { count: 0, succeeded: 0, duration: 0 };
        let mut i: usize = 0;
        while i < n
            invariant
                n == self@.len(),
                sel == query.selector(),
                i <= n,
                t.count == attempts(self@.take(i as int), sel),
                t.succeeded == successes(self@.take(i as int), sel),
                t.duration == total_duration(self@.take(i as int), sel),
            decreases n - i,
        {
            proof {
                let next = self@.take(i + 1);
                assert(next.drop_last() =~= self@.take(i as int));
                tallies_bounded(self@.take(i as int), sel);
                tallies_bounded(next, sel);
            }
            if self.selected(query, i) {
                t.count = t.count + 1;
                if self.patterns[i].success {
                    t.succeeded = t.succeeded + 1;
                }
                t.duration = t.duration + (self.patterns[i].duration_ms as u128);
            }
            i = i + 1;
        }
        proof {
            assert(self@.take(n as int) =~= self@);
            tallies_bounded(self@, sel);
        }
        t
    }

    fn collect(&self, query: &Query, limit: usize) -> (r: Vec<ExecutionPattern>)
        ensures
            pattern_views(r@) == newest(self@, query.selector(), limit as nat),
            r@.len() <= limit,
    {
        let ghost sel = query.selector();
        let mut out: Vec<ExecutionPattern> = Vec::new();
        let mut i: usize = self.patterns.len();
        proof {
            assert(self@.take(i as int) =~= self@);
        }
        while i > 0 && out.len() < limit
            invariant
                sel == query.selector(),
                i <= self@.len(),
                out@.len() <= limit,
                newest(self@, sel, limit as nat) == pattern_views(out@) + newest(
                    self@.take(i as int),
                    sel,
                    (limit - out@.len()) as nat,
                ),
            decreases i,
        {
            proof {
                let cur = self@.take(i as int);
                assert(cur.drop_last() =~= self@.take(i - 1));
            }
            i = i - 1;
            if self.selected(query, i) {
                let copy = self.patterns[i].duplicate();
                proof {
                    let rest = newest(self@.take(i as int), sel, (limit - out@.len() - 1) as nat);
                }
                out.push(copy);
            }
        }
        proof {
            let rest = newest(self@.take(i as int), sel, (limit - out@.len()) as nat);
        }
        out
    }

    /// The records of the task kind `tool`, most recent first, at most
    /// `limit` of them.
    pub fn recent(&self, tool: &str, limit: usize) -> (r: Vec<ExecutionPattern>)
        ensures
            pattern_views(r@) == newest(self@, Selector::of_tool(tool@), limit as nat),
            r@.len() <= limit,
    {
        self.collect(&Query::of(tool, None, false), limit)
    }

    /// The failed records of the task kind `tool`, most recent first, at
    /// most `limit` of them.
    pub fn recent_failures(&self, tool: &str, limit: usize) -> (r: Vec<ExecutionPattern>)
        ensures
            pattern_views(r@) == newest(self@, Selector::of_failures(tool@), limit as nat),
            r@.len() <= limit,
    {
        self.collect(&Query::of(tool, None, true), limit)
    }

    /// Attempts, successes and mean duration of the task kind `tool`.
    pub fn aggregate(&self, tool: &str) -> (r: Aggregate)
        ensures
            r == aggregate_spec(self@, tool@),
            r.wf(),
    {
        let t = self.tally(&Query::of(tool, None, false));
        proof {
            tallies_bounded(self@, Selector::of_tool(tool@));
        }
        let average = if t.count == 0 {
            None
        } else {
            let ghost sel = Selector::of_tool(tool@);
            Some((t.duration / (t.count as u128)) as u64)
        };
        Aggregate {
            total_attempts: t.count as u64,
            successful_attempts: t.succeeded as u64,
            average_duration_ms: average,
        }
    }

    /// Success rate and sample size of the task kind `tool` among the
    /// records of the hour of the day `hour`.
    pub fn aggregate_by_hour(&self, tool: &str, hour: u32) -> (r: HourlyAggregate)
        ensures
            r == hourly_spec(self@, tool@, hour),
            r.wf(),
    {
        let t = self.tally(&Query::of(tool, Some(hour), false));
        let rate = if t.count == 0 {
            None
        } else {
            Some(ratio(t.succeeded as u128, t.count as u128))
        };
        HourlyAggregate { success_rate: rate, sample_size: t.count as u64 }
    }
}

/// A record that was just appended is the first that `recent` returns for
/// its task kind, with every field as it was appended.
pub proof fn appended_is_most_recent(log: Seq<PatternView>, pattern: PatternView, limit: nat)
    requires
        limit > 0,
    ensures
        newest(log.push(pattern), Selector::of_tool(pattern.tool), limit).len() > 0,
        newest(log.push(pattern), Selector::of_tool(pattern.tool), limit)[0] == pattern,
{
    let grown = log.push(pattern);
}

/// Appending a record adds one attempt to its task kind, and one success if
/// it succeeded; other task kinds keep their counts.
pub proof fn append_counts(log: Seq<PatternView>, pattern: PatternView, tool: Seq<char>)
    ensures
        attempts(log.push(pattern), Selector::of_tool(tool)) == attempts(
            log,
            Selector::of_tool(tool),
        ) + if pattern.tool == tool {
            1nat
        } else {
            0nat
        },
        successes(log.push(pattern), Selector::of_tool(tool)) == successes(
            log,
            Selector::of_tool(tool),
        ) + if pattern.tool == tool && pattern.success {
            1nat
        } else {
            0nat
        },
{
    let grown = log.push(pattern);
    assert(grown.drop_last() =~= log);
}

} // verus!
