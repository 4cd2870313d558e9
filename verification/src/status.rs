//! Worker kinds and the lifecycle state machine.

use vstd::prelude::*;

verus! {

/// The closed set of task specialisations a worker may perform.
#[derive(Debug, Clone, Copy, PartialEq, Eq, Hash, Structural)]
pub enum AgentType {
    Solver,
    Analyzer,
    Optimizer,
    PatternMatcher,
    OutcomePredictor,
    AlternativeGen,
    ContextAnalyzer,
    ErrorAnalyzer,
    PerformanceAnalyzer,
}

/// The lifecycle state of a worker.
#[derive(Debug, Clone, Copy, PartialEq, Eq, Structural)]
pub enum AgentStatus {
    Spawning,
    Active,
    Solving,
    Completed,
    Dissolving,
}

/// The name of a kind of worker.
pub open spec fn kind_name(kind: AgentType) -> Seq<char> {
    match kind {
        AgentType::Solver => "Solver"@,
        AgentType::Analyzer => "Analyzer"@,
        AgentType::Optimizer => "Optimizer"@,
        AgentType::PatternMatcher => "PatternMatcher"@,
        AgentType::OutcomePredictor => "OutcomePredictor"@,
        AgentType::AlternativeGen => "AlternativeGen"@,
        AgentType::ContextAnalyzer => "ContextAnalyzer"@,
        AgentType::ErrorAnalyzer => "ErrorAnalyzer"@,
        AgentType::PerformanceAnalyzer => "PerformanceAnalyzer"@,
    }
}

/// The name of a lifecycle state.
pub open spec fn status_name(s: AgentStatus) -> Seq<char> {
    match s {
        AgentStatus::Spawning => "Spawning"@,
        AgentStatus::Active => "Active"@,
        AgentStatus::Solving => "Solving"@,
        AgentStatus::Completed => "Completed"@,
        AgentStatus::Dissolving => "Dissolving"@,
    }
}

impl AgentType {
    /// The name of the kind.
    pub fn name(&self) -> (r: &'static str)
        ensures
            r@ == kind_name(*self),
    {
        match self {
            AgentType::Solver => "Solver",
            AgentType::Analyzer => "Analyzer",
            AgentType::Optimizer => "Optimizer",
            AgentType::PatternMatcher => "PatternMatcher",
            AgentType::OutcomePredictor => "OutcomePredictor",
            AgentType::AlternativeGen => "AlternativeGen",
            AgentType::ContextAnalyzer => "ContextAnalyzer",
            AgentType::ErrorAnalyzer => "ErrorAnalyzer",
            AgentType::PerformanceAnalyzer => "PerformanceAnalyzer",
        }
    }
}

impl AgentStatus {
    /// Position of the state along the lifecycle.
    pub open spec fn rank(self) -> nat {
        match self {
            AgentStatus::Spawning => 0,
            AgentStatus::Active => 1,
            AgentStatus::Solving => 2,
            AgentStatus::Completed => 3,
            AgentStatus::Dissolving => 4,
        }
    }

    /// The only state that may follow `self`, if any.
    pub open spec fn successor(self) -> Option<AgentStatus> {
        match self {
            AgentStatus::Spawning => Some(AgentStatus::Active),
            AgentStatus::Active => Some(AgentStatus::Solving),
            AgentStatus::Solving => Some(AgentStatus::Completed),
            AgentStatus::Completed => Some(AgentStatus::Dissolving),
            AgentStatus::Dissolving => None,
        }
    }

    /// Whether the lifecycle permits moving from `self` to `to` in one step.
    pub open spec fn allows(self, to: AgentStatus) -> bool {
        self.successor() == Some(to)
    }

    /// The state that follows `self`, or `None` for the terminal state.
    pub fn next(self) -> (r: Option<AgentStatus>)
        ensures
            r == self.successor(),
    {
        match self {
            AgentStatus::Spawning => Some(AgentStatus::Active),
            AgentStatus::Active => Some(AgentStatus::Solving),
            AgentStatus::Solving => Some(AgentStatus::Completed),
            AgentStatus::Completed => Some(AgentStatus::Dissolving),
            AgentStatus::Dissolving => None,
        }
    }

    /// Whether the lifecycle permits moving from `self` to `to` in one step.
    pub fn can_move_to(self, to: AgentStatus) -> (r: bool)
        ensures
            r == self.allows(to),
    {
        match self.next() {
            Some(s) => s == to,
            None => false,
        }
    }

    /// The name of the state.
    pub fn name(&self) -> (r: &'static str)
        ensures
            r@ == status_name(*self),
    {
        match self {
            AgentStatus::Spawning => "Spawning",
            AgentStatus::Active => "Active",
            AgentStatus::Solving => "Solving",
            AgentStatus::Completed => "Completed",
            AgentStatus::Dissolving => "Dissolving",
        }
    }

    /// Whether the state is the terminal one.
    pub fn is_terminal(self) -> (r: bool)
        ensures
            r == (self.successor() is None),
            r == (self == AgentStatus::Dissolving),
    {
        self == AgentStatus::Dissolving
    }
}

/// Every permitted step advances the lifecycle by exactly one position: no
/// step skips a state, stays in place, or goes back.
pub proof fn lifecycle_steps_are_forward(from: AgentStatus, to: AgentStatus)
    ensures
        from.allows(to) <==> to.rank() == from.rank() + 1,
{
}

} // verus!
