//! What the history-driven worker kinds compute from the pattern log:
//! similar past attempts, alternatives to a risky task, and the risk of the
//! current hour.

use vstd::prelude::*;
use vstd::seq_lib::*;
use crate::clock::{day_of_week, day_of_week_spec, hour_of_day, hour_of_day_spec};
use crate::features::{is_unbounded_read, reads_without_bound};
use crate::fixed::SCALE;
use crate::payload::{stored_params, Params, ParamsView, Task, TaskView};
use crate::similarity::{similarity, similarity_spec};
use crate::store::{pattern_views, ExecutionPattern, HourlyAggregate, PatternView};
use crate::text::{concat, trim_end, trimmed_end};

verus! {

// ---------------------------------------------------------------------------
// Pattern matching
// ---------------------------------------------------------------------------
/// A past attempt counts as a match above this confidence: `0.3`.
pub const MATCH_THRESHOLD: u64 = 300_000;

/// Number of past attempts that pattern matching looks at.
pub const MATCH_WINDOW: usize = 10;

/// Weight of the similarity to a past success, in tenths.
pub const SUCCESS_WEIGHT: u64 = 9;

/// Weight of the similarity to a past failure, in tenths.
pub const FAILURE_WEIGHT: u64 = 6;

/// A past attempt that resembles the task at hand.
#[derive(Debug, Clone, Copy, PartialEq, Eq, Structural)]
pub struct PatternMatch {
    /// The record of the attempt.
    pub id: u128,
    /// Whether the attempt succeeded.
    pub success: bool,
    /// Similarity to the task, weighted by the outcome, in millionths.
    pub confidence: u64,
    pub duration_ms: u64,
}

/// The past attempts that resemble a task.
#[derive(Debug, Clone)]
pub struct MatchReport {
    /// The matches, ranked by confidence, highest first; of two with the
    /// same confidence the more recent comes first.
    pub patterns: Vec<PatternMatch>,
    /// The record of the first of the matches: one of the highest
    /// confidence.
    pub best_match: Option<u128>,
    /// Whether a pattern log was at hand.
    pub store_available: bool,
}

/// The value that a [`MatchReport`] stands for in contracts.
pub struct MatchReportView {
    pub patterns: Seq<PatternMatch>,
    pub best_match: Option<u128>,
    pub store_available: bool,
}

impl View for MatchReport {
    type V = MatchReportView;

    open spec fn view(&self) -> MatchReportView {
        MatchReportView {
            patterns: self.patterns@,
            best_match: self.best_match,
            store_available: self.store_available,
        }
    }
}

/// The confidence that a past attempt with the given similarity lends:
/// `0.9` of the similarity for a success, `0.6` for a failure.
pub open spec fn match_confidence(similarity: int, success: bool) -> int {
    if success {
        similarity * SUCCESS_WEIGHT / 10
    } else {
        similarity * FAILURE_WEIGHT / 10
    }
}

/// What a past attempt is as a candidate match for parameters.
pub open spec fn candidate(params: ParamsView, row: PatternView) -> PatternMatch {
    PatternMatch {
        id: row.id,
        success: row.success,
        confidence: match_confidence(
            similarity_spec(params, stored_params(row.params_json)),
            row.success,
        ) as u64,
        duration_ms: row.duration_ms,
    }
}

/// The candidates above the threshold, in the order of the rows.
pub open spec fn matches_spec(params: ParamsView, rows: Seq<PatternView>) -> Seq<PatternMatch>
    decreases rows.len(),
{
    if rows.len() == 0 {
        Seq::empty()
    } else {
        let earlier = matches_spec(params, rows.drop_last());
        let c = candidate(params, rows.last());
        if c.confidence > MATCH_THRESHOLD {
            earlier.push(c)
        } else {
            earlier
        }
    }
}

/// Where a match of the confidence `c` enters a ranked list, looking from
/// `from` on: before the first entry of a lower confidence, at the end if
/// there is none.
pub open spec fn rank_from(ranked: Seq<PatternMatch>, c: u64, from: int) -> int
    decreases ranked.len() - from,
{
    if from < 0 || from >= ranked.len() {
        ranked.len() as int
    } else if ranked[from].confidence < c {
        from
    } else {
        rank_from(ranked, c, from + 1)
    }
}

/// The matches ranked by confidence, highest first; matches of the same
/// confidence keep the order they came in.
pub open spec fn ranked(matches: Seq<PatternMatch>) -> Seq<PatternMatch>
    decreases matches.len(),
{
    if matches.len() == 0 {
        Seq::empty()
    } else {
        let earlier = ranked(matches.drop_last());
        earlier.insert(rank_from(earlier, matches.last().confidence, 0), matches.last())
    }
}

/// Whether no entry has a higher confidence than an entry before it.
pub open spec fn is_ranked(matches: Seq<PatternMatch>) -> bool {
    forall|i: int, j: int|
        0 <= i < j < matches.len() ==> (#[trigger] matches[i]).confidence >= (
        #[trigger] matches[j]).confidence
}

/// The record of the first match of a list, if there is one.
pub open spec fn first_id(matches: Seq<PatternMatch>) -> Option<u128> {
    if matches.len() == 0 {
        None
    } else {
        Some(matches[0].id)
    }
}

/// Where a match enters lies in the list or at its end; every entry from
/// `from` up to there has at least its confidence, and the entry there, if
/// there is one, has less.
pub proof fn rank_from_found(ranked: Seq<PatternMatch>, c: u64, from: int)
    requires
        0 <= from <= ranked.len(),
    ensures
        from <= rank_from(ranked, c, from) <= ranked.len(),
        forall|k: int| from <= k < rank_from(ranked, c, from) ==> (#[trigger] ranked[k]).confidence >= c,
        rank_from(ranked, c, from) < ranked.len() ==> ranked[rank_from(ranked, c, from)].confidence
            < c,
    decreases ranked.len() - from,
{
    if from < ranked.len() && ranked[from].confidence >= c {
        rank_from_found(ranked, c, from + 1);
    }
}

/// Ranking keeps every match, each as often as it came, and puts them in
/// the order of their confidence, highest first.
pub proof fn ranked_is_sorted_permutation(matches: Seq<PatternMatch>)
    ensures
        is_ranked(ranked(matches)),
        ranked(matches).len() == matches.len(),
        ranked(matches).to_multiset() == matches.to_multiset(),
    decreases matches.len(),
{
    if matches.len() == 0 {
        assert(matches =~= Seq::<PatternMatch>::empty());
    } else {
        let earlier = ranked(matches.drop_last());
        let m = matches.last();
        ranked_is_sorted_permutation(matches.drop_last());
        rank_from_found(earlier, m.confidence, 0);
        let p = rank_from(earlier, m.confidence, 0);
        let grown = earlier.insert(p, m);
        assert forall|i: int, j: int| 0 <= i < j < grown.len() implies (#[trigger] grown[i]).confidence
            >= (#[trigger] grown[j]).confidence by {
            if i < p && j > p {
                assert(grown[i] == earlier[i]);
                assert(grown[j] == earlier[j - 1]);
            } else if i < p && j == p {
                assert(grown[i] == earlier[i]);
            } else if i < p {
                assert(grown[i] == earlier[i]);
                assert(grown[j] == earlier[j]);
            } else if i == p {
                assert(grown[j] == earlier[j - 1]);
                assert(earlier[p].confidence >= earlier[j - 1].confidence || j - 1 == p);
            } else {
                assert(grown[i] == earlier[i - 1]);
                assert(grown[j] == earlier[j - 1]);
            }
        }
        assert(matches.drop_last().push(m) =~= matches);
        to_multiset_insert(earlier, p, m);
        to_multiset_build(matches.drop_last(), m);
        assert(grown.to_multiset() =~= matches.to_multiset());
    }
}

/// The first of the ranked matches has the highest confidence of all.
pub proof fn first_is_highest(matches: Seq<PatternMatch>, i: int)
    requires
        0 <= i < matches.len(),
    ensures
        ranked(matches).len() > 0,
        ranked(matches)[0].confidence >= matches[i].confidence,
{
    ranked_is_sorted_permutation(matches);
    broadcast use vstd::seq_lib::group_to_multiset_ensures;

    let r = ranked(matches);
    matches.to_multiset_ensures();
    r.to_multiset_ensures();
    assert(matches.contains(matches[i]));
    assert(r.to_multiset().count(matches[i]) > 0);
    assert(r.contains(matches[i]));
    let k = choose|k: int| 0 <= k < r.len() && r[k] == matches[i];
    assert(r[0].confidence >= r[k].confidence);
}

/// The report on the rows as matches for the parameters: the candidates
/// above the threshold, ranked, and the record of the first of them.
pub open spec fn match_report_spec(params: ParamsView, rows: Seq<PatternView>) -> MatchReportView {
    MatchReportView {
        patterns: ranked(matches_spec(params, rows)),
        best_match: first_id(ranked(matches_spec(params, rows))),
        store_available: true,
    }
}

/// The report of a worker that has no pattern log.
pub open spec fn no_matches() -> MatchReportView {
    MatchReportView { patterns: Seq::empty(), best_match: None, store_available: false }
}

impl MatchReport {
    /// The report of a worker that has no pattern log.
    pub fn unavailable() -> (r: MatchReport)
        ensures
            r@ == no_matches(),
    {
        MatchReport { patterns: Vec::new(), best_match: None, store_available: false }
    }

    /// Number of matches.
    pub fn total_found(&self) -> (r: usize)
        ensures
            r == self@.patterns.len(),
    {
        self.patterns.len()
    }
}

/// Where a match of the confidence `c` enters the ranked list.
fn rank_of(ranked_list: &Vec<PatternMatch>, c: u64) -> (r: usize)
    ensures
        r == rank_from(ranked_list@, c, 0),
        r <= ranked_list@.len(),
{
    let n = ranked_list.len();
    let mut i: usize = 0;
    proof {
        rank_from_found(ranked_list@, c, 0);
    }
    while i < n
        invariant
            n == ranked_list@.len(),
            i <= n,
            rank_from(ranked_list@, c, 0) == rank_from(ranked_list@, c, i as int),
        decreases n - i,
    {
        if ranked_list[i].confidence < c {
            return i;
        }
        i = i + 1;
    }
    n
}

/// Scores past attempts of the task kind against the parameters of the task,
/// keeps those above the threshold and ranks them by confidence, highest
/// first; of two with the same confidence the one that comes first in `rows`
/// stays first.
///
/// `rows` are the attempts to look at, most recent first: what
/// `PatternStore::recent` returns for the kind of the task.
pub fn find_similar_patterns(params: &Params, rows: &Vec<ExecutionPattern>) -> (r: MatchReport)
    requires
        params@.wf(),
    ensures
        r@ == match_report_spec(params@, pattern_views(rows@)),
        is_ranked(r@.patterns),
        r@.patterns.to_multiset() == matches_spec(params@, pattern_views(rows@)).to_multiset(),
        r@.best_match == first_id(r@.patterns),
{
    let ghost views = pattern_views(rows@);
    let n = rows.len();
    let mut patterns: Vec<PatternMatch> = Vec::new();
    let mut i: usize = 0;
    while i < n
        invariant
            n == rows@.len(),
            views == pattern_views(rows@),
            params@.wf(),
            i <= n,
            patterns@ == ranked(matches_spec(params@, views.take(i as int))),
        decreases n - i,
    {
        let row = &rows[i];
        let stored = Params::from_stored(row.params_json.as_str());
        let sim = similarity(params, &stored);
        let confidence = if row.success {
            sim * SUCCESS_WEIGHT / 10
        } else {
            sim * FAILURE_WEIGHT / 10
        };
        proof {
            let next = views.take(i + 1);
            assert(next.drop_last() =~= views.take(i as int));
            let kept = matches_spec(params@, views.take(i as int));
            assert(kept.push(candidate(params@, views[i as int])).drop_last() =~= kept);
        }
        if confidence > MATCH_THRESHOLD {
            let found = PatternMatch {
                id: row.id,
                success: row.success,
                confidence,
                duration_ms: row.duration_ms,
            };
            let at = rank_of(&patterns, confidence);
            patterns.insert(at, found);
        }
        i = i + 1;
    }
    proof {
        assert(views.take(n as int) =~= views);
        ranked_is_sorted_permutation(matches_spec(params@, views));
    }
    let best_match = if patterns.len() > 0 {
        Some(patterns[0].id)
    } else {
        None
    };
    MatchReport { patterns, best_match, store_available: true }
}

// ---------------------------------------------------------------------------
// Alternatives
// ---------------------------------------------------------------------------
/// Estimated success probability of a read with a bound added: `0.92`.
pub const BOUNDED_READ_PROBABILITY: u64 = 920_000;

/// Estimated success probability of a retry: `0.7`.
pub const RETRY_PROBABILITY: u64 = 700_000;

/// Number of past failures that the search for alternatives looks at.
pub const FAILURE_WINDOW: usize = 5;

/// A way to run a task that is more likely to succeed.
#[derive(Debug, Clone)]
pub enum Alternative {
    /// The same read with a row limit added. `dataset` and `project` are the
    /// values of the task under these keys, in compact JSON notation.
    BoundedRead { query: String, dataset: Option<String>, project: Option<String> },
    /// The same task once more; the parameters in compact JSON notation.
    Retry { params_json: String },
}

/// The value that an [`Alternative`] stands for in contracts.
pub enum AlternativeView {
    BoundedRead { query: Seq<char>, dataset: Option<Seq<char>>, project: Option<Seq<char>> },
    Retry { params_json: Seq<char> },
}

impl View for Alternative {
    type V = AlternativeView;

    open spec fn view(&self) -> AlternativeView {
        match self {
            Alternative::BoundedRead { query, dataset, project } => AlternativeView::BoundedRead {
                query: query@,
                dataset: match dataset {
                    Some(d) => Some(d@),
                    None => None,
                },
                project: match project {
                    Some(p) => Some(p@),
                    None => None,
                },
            },
            Alternative::Retry { params_json } => AlternativeView::Retry {
                params_json: params_json@,
            },
        }
    }
}

impl AlternativeView {
    /// The estimated success probability, in millionths.
    pub open spec fn probability(self) -> int {
        match self {
            AlternativeView::BoundedRead { .. } => BOUNDED_READ_PROBABILITY as int,
            AlternativeView::Retry { .. } => RETRY_PROBABILITY as int,
        }
    }
}

impl Alternative {
    /// The estimated success probability, in millionths.
    pub fn success_probability(&self) -> (r: u64)
        ensures
            r == self@.probability(),
    {
        match self {
            Alternative::BoundedRead { .. } => BOUNDED_READ_PROBABILITY,
            Alternative::Retry { .. } => RETRY_PROBABILITY,
        }
    }

    /// Why the alternative is proposed.
    pub fn rationale(&self) -> (r: &'static str)
        ensures
            r@ == match self@ {
                AlternativeView::BoundedRead { .. } => "Add LIMIT to prevent expensive full table scan"@,
                AlternativeView::Retry { .. } => "Retry with same parameters"@,
            },
    {
        match self {
            Alternative::BoundedRead { .. } => "Add LIMIT to prevent expensive full table scan",
            Alternative::Retry { .. } => "Retry with same parameters",
        }
    }
}

/// The alternatives to a task.
#[derive(Debug, Clone)]
pub struct AlternativeReport {
    pub alternatives: Vec<Alternative>,
    /// Number of recent failures of the task kind that were looked at.
    pub failures_seen: usize,
    /// Whether a pattern log was at hand.
    pub store_available: bool,
}

/// The value that an [`AlternativeReport`] stands for in contracts.
pub struct AlternativeReportView {
    pub alternatives: Seq<AlternativeView>,
    pub failures_seen: usize,
    pub store_available: bool,
}

impl View for AlternativeReport {
    type V = AlternativeReportView;

    open spec fn view(&self) -> AlternativeReportView {
        AlternativeReportView {
            alternatives: self.alternatives@.map_values(|a: Alternative| a@),
            failures_seen: self.failures_seen,
            store_available: self.store_available,
        }
    }
}

/// The JSON text of the value under `key`, if there is one.
pub open spec fn json_under(params: ParamsView, key: Seq<char>) -> Option<Seq<char>> {
    match params.lookup(key) {
        Some(v) => Some(v.json),
        None => None,
    }
}

/// Whether the task is a risky read: a `bq` task whose `query` is an
/// unbounded bulk read.
pub open spec fn is_risky_read(task: TaskView) -> bool {
    &&& task.tool == "bq"@
    &&& task.params.text_of("query"@) is Some
    &&& is_unbounded_read(task.params.text_of("query"@)->0)
}

/// The alternative to a task: for a risky read the same read without
/// trailing semicolons and with ` LIMIT 1000` added, for anything else a
/// retry.
pub open spec fn alternative_spec(task: TaskView) -> AlternativeView {
    if is_risky_read(task) {
        AlternativeView::BoundedRead {
            query: trim_end(task.params.text_of("query"@)->0, ';') + " LIMIT 1000"@,
            dataset: json_under(task.params, "dataset"@),
            project: json_under(task.params, "project"@),
        }
    } else {
        AlternativeView::Retry { params_json: task.params_json }
    }
}

/// The report on the alternatives to a task, `failures` recent failures of
/// its kind having been looked at.
pub open spec fn alternatives_spec(task: TaskView, failures: nat) -> AlternativeReportView {
    AlternativeReportView {
        alternatives: seq![alternative_spec(task)],
        failures_seen: failures as usize,
        store_available: true,
    }
}

/// The report of a worker that has no pattern log.
pub open spec fn no_alternatives() -> AlternativeReportView {
    AlternativeReportView { alternatives: Seq::empty(), failures_seen: 0, store_available: false }
}

impl AlternativeReport {
    /// The report of a worker that has no pattern log.
    pub fn unavailable() -> (r: AlternativeReport)
        ensures
            r@ == no_alternatives(),
    {
        let r = AlternativeReport {
            alternatives: Vec::new(),
            failures_seen: 0,
            store_available: false,
        };
        assert(r@.alternatives =~= Seq::empty());
        r
    }
}

fn json_of(params: &Params, key: &str) -> (r: Option<String>)
    ensures
        match r {
            Some(t) => json_under(params@, key@) == Some(t@),
            None => json_under(params@, key@) is None,
        },
{
    match params.get(key) {
        Some(v) => Some(v.json.clone()),
        None => None,
    }
}

/// The alternative to the task.
pub fn propose_alternative(task: &Task) -> (r: Alternative)
    ensures
        r@ == alternative_spec(task@),
{
    let is_bq = task.tool == String::from_str("bq");
    if is_bq {
        match task.params.get_text("query") {
            Some(query) => {
                if reads_without_bound(query.as_str()) {
                    let trimmed = trimmed_end(query.as_str(), ';');
                    return Alternative::BoundedRead {
                        query: concat(trimmed.as_str(), " LIMIT 1000"),
                        dataset: json_of(&task.params, "dataset"),
                        project: json_of(&task.params, "project"),
                    };
                }
            },
            None => {},
        }
    }
    Alternative::Retry { params_json: task.params_json.clone() }
}

/// Proposes alternatives to the task, given the recent failures of its
/// kind: what `PatternStore::recent_failures` returns.
pub fn generate_alternatives(task: &Task, failures: &Vec<ExecutionPattern>) -> (r:
    AlternativeReport)
    ensures
        r@ == alternatives_spec(task@, failures@.len()),
{
    let mut alternatives: Vec<Alternative> = Vec::new();
    let proposal = propose_alternative(task);
    let ghost pv = proposal@;
    alternatives.push(proposal);
    let r = AlternativeReport {
        alternatives,
        failures_seen: failures.len(),
        store_available: true,
    };
    assert(r@.alternatives =~= seq![pv]);
    r
}

// ---------------------------------------------------------------------------
// Execution context
// ---------------------------------------------------------------------------
/// The success rate assumed for an hour without samples: `0.5`.
pub const NEUTRAL_HOURLY_RATE: u64 = 500_000;

/// The lowest success rate that the risk is computed from: `0.1`.
pub const RATE_FLOOR: u64 = 100_000;

/// Above this risk the advice is to defer: `1.5`.
pub const DEFER_ABOVE: u64 = 1_500_000;

/// Above this risk the advice is caution: `1.2`.
pub const CAUTION_ABOVE: u64 = 1_200_000;

/// What to do about a task at the current time.
#[derive(Debug, Clone, Copy, PartialEq, Eq, Structural)]
pub enum Recommendation {
    DeferExecution,
    ProceedWithCaution,
    OptimalTiming,
    /// Nothing is known against going ahead: there is no pattern log.
    Proceed,
}

impl Recommendation {
    /// The name of the recommendation.
    pub fn as_str(&self) -> (r: &'static str)
        ensures
            r@ == match *self {
                Recommendation::DeferExecution => "defer_execution"@,
                Recommendation::ProceedWithCaution => "proceed_with_caution"@,
                Recommendation::OptimalTiming => "optimal_timing"@,
                Recommendation::Proceed => "proceed"@,
            },
    {
        match self {
            Recommendation::DeferExecution => "defer_execution",
            Recommendation::ProceedWithCaution => "proceed_with_caution",
            Recommendation::OptimalTiming => "optimal_timing",
            Recommendation::Proceed => "proceed",
        }
    }
}

/// The timing of a task, judged by the history of its kind in the current
/// hour of the day.
#[derive(Debug, Clone, Copy, PartialEq, Eq, Structural)]
pub struct ContextReport {
    /// `1 / max(success rate of the hour, 0.1)`, in millionths; `1.0`
    /// without samples.
    pub risk_factor: u64,
    /// The hour lies in `9..=17`.
    pub business_hours: bool,
    /// The day is a Saturday or Sunday.
    pub weekend: bool,
    /// The risk is above `1.5`.
    pub high_temporal_risk: bool,
    pub recommendation: Recommendation,
    pub current_hour: u32,
    /// Monday = 1.
    pub day_of_week: u32,
    /// Success rate of the hour in millionths, `0.5` without samples.
    pub historical_success_rate: u64,
    pub sample_size: u64,
    /// Whether a pattern log was at hand.
    pub store_available: bool,
}

/// The risk of an hour with the given success rate.
pub open spec fn risk_spec(stats: HourlyAggregate) -> int {
    if stats.sample_size > 0 {
        let rate = hourly_rate_spec(stats);
        (SCALE * SCALE) / (if rate > RATE_FLOOR {
            rate
        } else {
            RATE_FLOOR as int
        })
    } else {
        SCALE as int
    }
}

/// The success rate of the hour, `0.5` without samples.
pub open spec fn hourly_rate_spec(stats: HourlyAggregate) -> int {
    match stats.success_rate {
        Some(r) => r as int,
        None => NEUTRAL_HOURLY_RATE as int,
    }
}

/// The advice for a risk: defer above `1.5`, caution above `1.2`, else the
/// timing is right.
pub open spec fn recommendation_spec(risk: int) -> Recommendation {
    if risk > DEFER_ABOVE {
        Recommendation::DeferExecution
    } else if risk > CAUTION_ABOVE {
        Recommendation::ProceedWithCaution
    } else {
        Recommendation::OptimalTiming
    }
}

/// The report on the timing of a task at the time `ts`, given the
/// statistics of its kind in the hour of `ts`.
pub open spec fn context_spec(stats: HourlyAggregate, ts: int) -> ContextReport {
    let risk = risk_spec(stats);
    ContextReport {
        risk_factor: risk as u64,
        business_hours: 9 <= hour_of_day_spec(ts) <= 17,
        weekend: day_of_week_spec(ts) >= 6,
        high_temporal_risk: risk > DEFER_ABOVE,
        recommendation: recommendation_spec(risk),
        current_hour: hour_of_day_spec(ts) as u32,
        day_of_week: day_of_week_spec(ts) as u32,
        historical_success_rate: hourly_rate_spec(stats) as u64,
        sample_size: stats.sample_size,
        store_available: true,
    }
}

/// The report of a worker that has no pattern log: no risk known, go ahead.
pub open spec fn no_context() -> ContextReport {
    ContextReport {
        risk_factor: SCALE,
        business_hours: false,
        weekend: false,
        high_temporal_risk: false,
        recommendation: Recommendation::Proceed,
        current_hour: 0,
        day_of_week: 0,
        historical_success_rate: 0,
        sample_size: 0,
        store_available: false,
    }
}

/// The risk lies between `1.0` and `10.0`.
pub proof fn risk_bounds(stats: HourlyAggregate)
    requires
        stats.wf(),
    ensures
        SCALE <= risk_spec(stats) <= 10 * SCALE,
{
    if stats.sample_size > 0 {
        let rate = hourly_rate_spec(stats);
        let floor: int = if rate > RATE_FLOOR {
            rate
        } else {
            RATE_FLOOR as int
        };
        assert(1_000_000_000_000int / floor >= 1_000_000 && 1_000_000_000_000int / floor
            <= 10_000_000) by (nonlinear_arith)
            requires
                100_000 <= floor <= 1_000_000,
        ;
    }
}

impl ContextReport {
    /// The report of a worker that has no pattern log.
    pub fn unavailable() -> (r: ContextReport)
        ensures
            r == no_context(),
    {
        ContextReport {
            risk_factor: SCALE,
            business_hours: false,
            weekend: false,
            high_temporal_risk: false,
            recommendation: Recommendation::Proceed,
            current_hour: 0,
            day_of_week: 0,
            historical_success_rate: 0,
            sample_size: 0,
            store_available: false,
        }
    }
}

/// Judges the timing of a task at the time `now_ms`, given the statistics of
/// its kind in the hour of `now_ms`: what `PatternStore::aggregate_by_hour`
/// returns.
pub fn analyze_execution_context(stats: &HourlyAggregate, now_ms: i64) -> (r: ContextReport)
    requires
        stats.wf(),
    ensures
        r == context_spec(*stats, now_ms as int),
        SCALE <= r.risk_factor <= 10 * SCALE,
{
    proof {
        risk_bounds(*stats);
    }
    let hour = hour_of_day(now_ms);
    let day = day_of_week(now_ms);
    let rate = match stats.success_rate {
        Some(r) => r,
        None => NEUTRAL_HOURLY_RATE,
    };
    let risk: u64 = if stats.sample_size > 0 {
        let floor = if rate > RATE_FLOOR {
            rate
        } else {
            RATE_FLOOR
        };
        (SCALE * SCALE) / floor
    } else {
        SCALE
    };
    let recommendation = if risk > DEFER_ABOVE {
        Recommendation::DeferExecution
    } else if risk > CAUTION_ABOVE {
        Recommendation::ProceedWithCaution
    } else {
        Recommendation::OptimalTiming
    };
    ContextReport {
        risk_factor: risk,
        business_hours: hour >= 9 && hour <= 17,
        weekend: day >= 6,
        high_temporal_risk: risk > DEFER_ABOVE,
        recommendation,
        current_hour: hour,
        day_of_week: day,
        historical_success_rate: rate,
        sample_size: stats.sample_size,
        store_available: true,
    }
}

} // verus!
