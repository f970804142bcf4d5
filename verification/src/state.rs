//! The lifecycle states of a query execution.

use crate::text::str_eq;
use vstd::prelude::*;

verus! {

/// Where a query execution stands.
///
/// An execution is queued when it is submitted, runs, and ends as succeeded.
/// `Failed` is the other terminal state; no step of the lifecycle leads to it.
#[derive(Clone, Copy, Debug, PartialEq, Eq, Hash, Structural)]
pub enum QueryState {
    Queued,
    Running,
    Succeeded,
    Failed,
}

impl QueryState {
    /// The name under which the state is stored and reported.
    pub open spec fn name(self) -> Seq<char> {
        match self {
            QueryState::Queued => "QUEUED"@,
            QueryState::Running => "RUNNING"@,
            QueryState::Succeeded => "SUCCEEDED"@,
            QueryState::Failed => "FAILED"@,
        }
    }

    /// The state that a name stands for, if it is the name of one.
    pub open spec fn named(name: Seq<char>) -> Option<QueryState> {
        if name == "QUEUED"@ {
            Some(QueryState::Queued)
        } else if name == "RUNNING"@ {
            Some(QueryState::Running)
        } else if name == "SUCCEEDED"@ {
            Some(QueryState::Succeeded)
        } else if name == "FAILED"@ {
            Some(QueryState::Failed)
        } else {
            None
        }
    }

    /// Whether the lifecycle ends in this state.
    pub open spec fn is_terminal(self) -> bool {
        self == QueryState::Succeeded || self == QueryState::Failed
    }

    /// How far along the lifecycle the state lies.
    pub open spec fn rank(self) -> nat {
        match self {
            QueryState::Queued => 0,
            QueryState::Running => 1,
            QueryState::Succeeded => 2,
            QueryState::Failed => 2,
        }
    }

    /// The state that one tick of the driver leads to, if any.
    pub open spec fn successor(self) -> Option<QueryState> {
        match self {
            QueryState::Queued => Some(QueryState::Running),
            QueryState::Running => Some(QueryState::Succeeded),
            QueryState::Succeeded => None,
            QueryState::Failed => None,
        }
    }

    /// Whether the state is one that a driven execution passes through.
    pub open spec fn is_driven(self) -> bool {
        self != QueryState::Failed
    }

    pub fn as_str(&self) -> (name: &'static str)
        ensures
            name@ == self.name(),
    {
        match self {
            QueryState::Queued => "QUEUED",
            QueryState::Running => "RUNNING",
            QueryState::Succeeded => "SUCCEEDED",
            QueryState::Failed => "FAILED",
        }
    }

    pub fn from_name(name: &str) -> (state: Option<QueryState>)
        ensures
            state == QueryState::named(name@),
    {
        if str_eq(name, "QUEUED") {
            Some(QueryState::Queued)
        } else if str_eq(name, "RUNNING") {
            Some(QueryState::Running)
        } else if str_eq(name, "SUCCEEDED") {
            Some(QueryState::Succeeded)
        } else if str_eq(name, "FAILED") {
            Some(QueryState::Failed)
        } else {
            None
        }
    }

    pub fn is_finished(&self) -> (finished: bool)
        ensures
            finished == self.is_terminal(),
    {
        match self {
            QueryState::Succeeded | QueryState::Failed => true,
            _ => false,
        }
    }

    /// The names of the four states differ from one another.
    pub proof fn lemma_names_differ()
        ensures
            forall|a: QueryState, b: QueryState| a.name() == b.name() ==> a == b,
    {
        reveal_strlit("QUEUED");
        reveal_strlit("RUNNING");
        reveal_strlit("SUCCEEDED");
        reveal_strlit("FAILED");
        assert forall|a: QueryState, b: QueryState| a.name() == b.name() implies a == b by {
            if a != b {
                assert(a.name().len() != b.name().len() || a.name()[0] != b.name()[0]);
            }
        }
    }

    /// A state is found again under its name.
    pub proof fn lemma_name_round_trip(state: QueryState)
        ensures
            QueryState::named(state.name()) == Some(state),
    {
        QueryState::lemma_names_differ();
        assert(QueryState::Queued.name() == "QUEUED"@);
        assert(QueryState::Running.name() == "RUNNING"@);
        assert(QueryState::Succeeded.name() == "SUCCEEDED"@);
        assert(QueryState::Failed.name() == "FAILED"@);
    }
}

} // verus!
