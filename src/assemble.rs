//! The order in which a scenario is drawn from the byte buffer, as a state
//! machine that the driver feeds with the outcome of each draw.
use vstd::prelude::*;
use crate::scenario::GenerationFailure;
use crate::settings::REQUESTS_PER_SCENARIO;

verus! {

/// The kinds of scenario.
#[derive(Clone, Copy, Debug, PartialEq, Eq, Structural)]
pub enum ScenarioKind {
    AbacTypeDirected,
    EvalTypeDirected,
    Rbac,
    SchemaRoundtrip,
}

/// One draw of an external generator, or the end of assembly.
#[derive(Clone, Copy, Debug, PartialEq, Eq, Structural)]
pub enum DrawStep {
    Schema,
    Hierarchy,
    Policy,
    PolicyGroups,
    TargetType,
    Expression,
    Request,
    Entities,
    Finished,
}

/// Number of draws before the request batch.
pub open spec fn prefix_len(kind: ScenarioKind) -> nat {
    match kind {
        ScenarioKind::AbacTypeDirected => 3,
        ScenarioKind::EvalTypeDirected => 4,
        ScenarioKind::Rbac => 2,
        ScenarioKind::SchemaRoundtrip => 1,
    }
}

/// Whether the kind carries a request batch.
pub open spec fn has_requests(kind: ScenarioKind) -> bool {
    kind != ScenarioKind::SchemaRoundtrip
}

/// Whether the kind converts its hierarchy into entities after the requests.
pub open spec fn converts_entities(kind: ScenarioKind) -> bool {
    kind == ScenarioKind::AbacTypeDirected || kind == ScenarioKind::EvalTypeDirected
}

/// The draws before the request batch, in order.
pub open spec fn prefix_step(kind: ScenarioKind, i: nat) -> DrawStep {
    match kind {
        ScenarioKind::AbacTypeDirected => if i == 0 { DrawStep::Schema } else if i == 1 { DrawStep::Hierarchy } else { DrawStep::Policy },
        ScenarioKind::EvalTypeDirected => if i == 0 { DrawStep::Schema } else if i == 1 { DrawStep::Hierarchy } else if i == 2 { DrawStep::TargetType } else { DrawStep::Expression },
        ScenarioKind::Rbac => if i == 0 { DrawStep::Hierarchy } else { DrawStep::PolicyGroups },
        ScenarioKind::SchemaRoundtrip => DrawStep::Schema,
    }
}

/// Total number of draws of a kind.
pub open spec fn plan_len(kind: ScenarioKind) -> nat {
    prefix_len(kind) + (if has_requests(kind) { REQUESTS_PER_SCENARIO as nat } else { 0 })
        + (if converts_entities(kind) { 1nat } else { 0 })
}

/// Draw `i` of a kind: schema first, then the hierarchy, then the policy (or
/// policy groups, or target type and expression), then the request batch,
/// then the conversion of the hierarchy into entities.
pub open spec fn plan_step(kind: ScenarioKind, i: nat) -> DrawStep {
    if i < prefix_len(kind) {
        prefix_step(kind, i)
    } else if has_requests(kind) && i < prefix_len(kind) + REQUESTS_PER_SCENARIO {
        DrawStep::Request
    } else if i < plan_len(kind) {
        DrawStep::Entities
    } else {
        DrawStep::Finished
    }
}

/// Requests among the first `n` draws of a kind.
pub open spec fn requests_among(kind: ScenarioKind, n: nat) -> nat {
    if !has_requests(kind) || n <= prefix_len(kind) {
        0
    } else if n >= prefix_len(kind) + REQUESTS_PER_SCENARIO {
        REQUESTS_PER_SCENARIO as nat
    } else {
        (n - prefix_len(kind)) as nat
    }
}

/// Progress of assembling one scenario.
pub struct Assembly {
    pub kind: ScenarioKind,
    /// Draws completed so far.
    pub done: usize,
    /// Set once a draw has failed; no draw follows.
    pub failure: Option<GenerationFailure>,
}

impl Assembly {
    pub open spec fn wf(self) -> bool {
        self.done <= plan_len(self.kind)
    }

    /// Assembly is over: every draw was made, or one failed.
    pub open spec fn is_over(self) -> bool {
        self.failure is Some || self.done == plan_len(self.kind)
    }

    /// Assembly succeeded: every draw was made and none failed.
    pub open spec fn succeeded(self) -> bool {
        self.failure is None && self.done == plan_len(self.kind)
    }

    /// Starts assembling a scenario of `kind`.
    pub fn new(kind: ScenarioKind) -> (r: Assembly)
        ensures
            r.wf(),
            r.kind == kind,
            r.done == 0,
            r.failure is None,
    {
        Assembly { kind, done: 0, failure: None }
    }

    fn prefix_len_exec(kind: ScenarioKind) -> (r: usize)
        ensures
            r == prefix_len(kind),
    {
        match kind {
            ScenarioKind::AbacTypeDirected => 3,
            ScenarioKind::EvalTypeDirected => 4,
            ScenarioKind::Rbac => 2,
            ScenarioKind::SchemaRoundtrip => 1,
        }
    }

    /// Number of draws that a scenario of `kind` takes.
    pub fn plan_len_exec(kind: ScenarioKind) -> (r: usize)
        ensures
            r == plan_len(kind),
    {
        let p = Self::prefix_len_exec(kind);
        let q = if kind != ScenarioKind::SchemaRoundtrip { REQUESTS_PER_SCENARIO } else { 0 };
        let e: usize = if kind == ScenarioKind::AbacTypeDirected || kind == ScenarioKind::EvalTypeDirected { 1 } else { 0 };
        p + q + e
    }

    /// The next draw to make; `Finished` once assembly is over.
    pub fn next_step(&self) -> (r: DrawStep)
        requires
            self.wf(),
        ensures
            self.is_over() ==> r == DrawStep::Finished,
            !self.is_over() ==> r == plan_step(self.kind, self.done as nat),
    {
        if self.failure.is_some() {
            return DrawStep::Finished;
        }
        let p = Self::prefix_len_exec(self.kind);
        let n = Self::plan_len_exec(self.kind);
        let i = self.done;
        if i < p {
            match self.kind {
                ScenarioKind::AbacTypeDirected => if i == 0 { DrawStep::Schema } else if i == 1 { DrawStep::Hierarchy } else { DrawStep::Policy },
                ScenarioKind::EvalTypeDirected => if i == 0 { DrawStep::Schema } else if i == 1 { DrawStep::Hierarchy } else if i == 2 { DrawStep::TargetType } else { DrawStep::Expression },
                ScenarioKind::Rbac => if i == 0 { DrawStep::Hierarchy } else { DrawStep::PolicyGroups },
                ScenarioKind::SchemaRoundtrip => DrawStep::Schema,
            }
        } else if self.kind != ScenarioKind::SchemaRoundtrip && i < p + REQUESTS_PER_SCENARIO {
            DrawStep::Request
        } else if i < n {
            DrawStep::Entities
        } else {
            DrawStep::Finished
        }
    }

    /// Records the outcome of the pending draw: success moves to the next
    /// draw; a failure ends assembly, and nothing more is drawn.
    pub fn record(&mut self, outcome: Result<(), GenerationFailure>)
        requires
            old(self).wf(),
            !old(self).is_over(),
        ensures
            final(self).wf(),
            final(self).kind == old(self).kind,
            match outcome {
                Ok(()) => final(self).done == old(self).done + 1 && final(self).failure is None,
                Err(e) => final(self).done == old(self).done && final(self).failure == Some(e),
            },
    {
        match outcome {
            Ok(()) => {
                self.done = self.done + 1;
            },
            Err(e) => {
                self.failure = Some(e);
            },
        }
    }

    /// How many requests have been drawn.
    pub fn requests_drawn(&self) -> (r: usize)
        requires
            self.wf(),
        ensures
            r == requests_among(self.kind, self.done as nat),
    {
        let p = Self::prefix_len_exec(self.kind);
        if self.kind == ScenarioKind::SchemaRoundtrip || self.done <= p {
            0
        } else if self.done >= p + REQUESTS_PER_SCENARIO {
            REQUESTS_PER_SCENARIO
        } else {
            self.done - p
        }
    }
}

/// A successful assembly of a kind with requests has drawn exactly eight of
/// them; they are the draws right after the prefix, which holds the
/// hierarchy they depend on; and once a draw fails, assembly is over.
pub proof fn lemma_assembly_draws(a: Assembly)
    requires
        a.wf(),
    ensures
        a.succeeded() && has_requests(a.kind) ==> requests_among(a.kind, a.done as nat) == 8,
        forall|i: nat| i < plan_len(a.kind) ==> (#[trigger] plan_step(a.kind, i) == DrawStep::Request
            <==> has_requests(a.kind) && prefix_len(a.kind) <= i < prefix_len(a.kind) + 8),
        has_requests(a.kind) ==> exists|h: nat| h < prefix_len(a.kind) && #[trigger] plan_step(a.kind, h) == DrawStep::Hierarchy,
        a.failure is Some ==> a.is_over(),
{
    if has_requests(a.kind) {
        if a.kind == ScenarioKind::Rbac {
            assert(plan_step(a.kind, 0) == DrawStep::Hierarchy);
        } else {
            assert(plan_step(a.kind, 1) == DrawStep::Hierarchy);
        }
    }
}

} // verus!
