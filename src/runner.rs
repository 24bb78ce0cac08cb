//! The per-trial state machine of the oracle runner: which oracle call comes
//! next, and how each outcome moves the trial toward `passed`, `failed` or
//! `gave_up`.
use vstd::prelude::*;
use crate::assemble::ScenarioKind;
use crate::settings::REQUESTS_PER_SCENARIO;
use crate::text::{contains_text, has_substring, join, joined};

verus! {

/// Diagnostic text that a well-typed generated input must never provoke.
pub const ARITY_DIAGNOSTIC: &'static str = "wrong number of arguments";

/// Status reason of a trial whose generation failed.
pub const GENERATION_FAILED: &'static str = "arbitrary generation failed";

/// Status reason of a trial whose schema the oracle did not accept.
pub const SCHEMA_REJECTED: &'static str = "schema rejected";

/// Status reason of a trial whose policy passed validation.
pub const VALIDATOR_PASSED: &'static str = "validator_passed";

/// Terminal status of a trial.
#[derive(Clone, Copy, Debug, PartialEq, Eq, Structural)]
pub enum Status {
    Passed,
    Failed,
    GaveUp,
}

/// Where a trial stands.
#[derive(Clone, Copy, Debug, PartialEq, Eq, Structural)]
pub enum Phase {
    /// The schema (or hierarchy) has yet to be converted for the oracle.
    AwaitSchema,
    /// The policy has yet to be validated.
    AwaitValidation,
    /// Requests are being run.
    Executing,
    /// Nothing more to run; the record can be emitted.
    Done,
}

/// What the driver does next for a trial.
#[derive(Clone, Copy, Debug, PartialEq, Eq, Structural)]
pub enum Action {
    ConvertSchema,
    Validate,
    /// Run the oracle on the request of this index.
    Execute(usize),
    Emit,
}

/// The kind validates its policy before running requests.
pub open spec fn validates(kind: ScenarioKind) -> bool {
    kind == ScenarioKind::AbacTypeDirected
}

/// Arity diagnostics are counter-examples for the kind.
pub open spec fn checks_arity(kind: ScenarioKind) -> bool {
    kind == ScenarioKind::AbacTypeDirected || kind == ScenarioKind::EvalTypeDirected
}

/// Number of oracle runs of the kind.
pub open spec fn runs_of(kind: ScenarioKind) -> nat {
    if kind == ScenarioKind::SchemaRoundtrip { 0 } else { REQUESTS_PER_SCENARIO as nat }
}

/// `d` is an arity diagnostic.
pub open spec fn is_arity(d: Seq<char>) -> bool {
    has_substring(d, ARITY_DIAGNOSTIC@)
}

/// `a + b`, or `u64::MAX` where that does not fit.
pub open spec fn sat_add(a: nat, b: nat) -> nat {
    if a + b > u64::MAX { u64::MAX as nat } else { a + b }
}

/// One oracle run as the trial saw it: how many diagnostics it gave, and
/// whether one of them was an arity diagnostic.
pub open spec fn run_of(diagnostics: Seq<String>) -> (nat, bool) {
    (diagnostics.len(), exists|i: int| 0 <= i < diagnostics.len() && is_arity(#[trigger] diagnostics[i]@))
}

/// Diagnostics over the recorded runs, summed up to `u64::MAX`.
pub open spec fn errors_total(runs: Seq<(nat, bool)>) -> nat
    decreases runs.len(),
{
    if runs.len() == 0 { 0 } else { sat_add(errors_total(runs.drop_last()), runs.last().0) }
}

/// Accumulated state of one trial.
pub struct Trial {
    pub kind: ScenarioKind,
    pub phase: Phase,
    pub status: Status,
    pub status_reason: String,
    /// Oracle runs completed.
    pub executed: usize,
    /// Diagnostics over all runs.
    pub total_errors: u64,
    /// Validation errors of the policy.
    pub validation_errors: u64,
    /// Every diagnostic seen so far, in order.
    pub diagnostics: Ghost<Seq<Seq<char>>>,
    /// Every oracle run so far, in order.
    pub runs: Ghost<Seq<(nat, bool)>>,
    /// The kinds of the validation errors, once validated.
    pub validation_kinds: Ghost<Seq<Seq<char>>>,
}

/// The index of the first arity diagnostic of `diagnostics`, if any.
pub fn find_arity(diagnostics: &Vec<String>) -> (r: Option<usize>)
    ensures
        match r {
            Some(j) => j < diagnostics@.len() && is_arity(diagnostics@[j as int]@)
                && forall|m: int| 0 <= m < j ==> !is_arity(#[trigger] diagnostics@[m]@),
            None => forall|m: int| 0 <= m < diagnostics@.len() ==> !is_arity(#[trigger] diagnostics@[m]@),
        },
{
    let mut j: usize = 0;
    while j < diagnostics.len()
        invariant
            j <= diagnostics@.len(),
            forall|m: int| 0 <= m < j ==> !is_arity(#[trigger] diagnostics@[m]@),
        decreases diagnostics@.len() - j,
    {
        if contains_text(diagnostics[j].as_str(), ARITY_DIAGNOSTIC) {
            return Some(j);
        }
        j += 1;
    }
    None
}

impl Trial {
    pub open spec fn wf(self) -> bool {
        &&& self.executed <= runs_of(self.kind)
        &&& self.phase == Phase::Executing ==> self.executed < runs_of(self.kind)
        &&& self.status == Status::Failed ==> self.phase == Phase::Done
        &&& checks_arity(self.kind) && self.status != Status::Failed
            ==> forall|i: int| 0 <= i < self.diagnostics@.len() ==> !is_arity(#[trigger] self.diagnostics@[i])
        &&& self.phase != Phase::Executing && self.phase != Phase::Done ==> self.diagnostics@.len() == 0
            && self.executed == 0
        &&& self.runs@.len() == self.executed
            + (if self.status == Status::Failed && checks_arity(self.kind) { 1nat } else { 0nat })
        &&& self.total_errors == errors_total(self.runs@)
        &&& checks_arity(self.kind) ==> forall|i: int| 0 <= i < self.executed ==> !(#[trigger] self.runs@[i]).1
        &&& self.status == Status::Failed && checks_arity(self.kind) ==> self.runs@.last().1
        &&& self.validation_errors == self.validation_kinds@.len()
    }

    /// A trial whose scenario was assembled, before any oracle call.
    pub fn start(kind: ScenarioKind) -> (r: Trial)
        ensures
            r.wf(),
            r.kind == kind,
            r.phase == Phase::AwaitSchema,
            r.status == Status::GaveUp,
            r.status_reason@ == Seq::<char>::empty(),
            r.executed == 0,
            r.total_errors == 0,
            r.validation_errors == 0,
    {
        Trial {
            kind,
            phase: Phase::AwaitSchema,
            status: Status::GaveUp,
            status_reason: String::new(),
            executed: 0,
            total_errors: 0,
            validation_errors: 0,
            diagnostics: Ghost(Seq::empty()),
            runs: Ghost(Seq::empty()),
            validation_kinds: Ghost(Seq::empty()),
        }
    }

    /// A trial whose scenario could not be assembled: it gives up at once and
    /// no oracle is called.
    pub fn generation_failed(kind: ScenarioKind) -> (r: Trial)
        ensures
            r.wf(),
            r.kind == kind,
            r.phase == Phase::Done,
            r.status == Status::GaveUp,
            r.status_reason@ == GENERATION_FAILED@,
            r.executed == 0,
            r.total_errors == 0,
            r.validation_errors == 0,
            r.diagnostics@.len() == 0,
    {
        Trial {
            kind,
            phase: Phase::Done,
            status: Status::GaveUp,
            status_reason: String::from_str(GENERATION_FAILED),
            executed: 0,
            total_errors: 0,
            validation_errors: 0,
            diagnostics: Ghost(Seq::empty()),
            runs: Ghost(Seq::empty()),
            validation_kinds: Ghost(Seq::empty()),
        }
    }

    /// The next oracle call, or `Emit` once the trial is over.
    pub fn next_action(&self) -> (r: Action)
        ensures
            self.phase == Phase::AwaitSchema ==> r == Action::ConvertSchema,
            self.phase == Phase::AwaitValidation ==> r == Action::Validate,
            self.phase == Phase::Executing ==> r == Action::Execute(self.executed),
            self.phase == Phase::Done ==> r == Action::Emit,
    {
        match self.phase {
            Phase::AwaitSchema => Action::ConvertSchema,
            Phase::AwaitValidation => Action::Validate,
            Phase::Executing => Action::Execute(self.executed),
            Phase::Done => Action::Emit,
        }
    }

    /// Records whether the oracle accepted the scenario's schema (or
    /// hierarchy). A rejected one ends the trial as `gave_up` without running
    /// any request; an accepted one goes on to validation where the kind
    /// validates, else to the requests, with status `passed` so far.
    pub fn schema_converted(&mut self, accepted: bool)
        requires
            old(self).wf(),
            old(self).phase == Phase::AwaitSchema,
        ensures
            final(self).wf(),
            final(self).kind == old(self).kind,
            final(self).executed == 0,
            final(self).total_errors == old(self).total_errors,
            final(self).validation_errors == old(self).validation_errors,
            final(self).diagnostics@.len() == 0,
            !accepted ==> {
                &&& final(self).phase == Phase::Done
                &&& final(self).status == Status::GaveUp
                &&& final(self).status_reason@ == SCHEMA_REJECTED@
            },
            accepted && validates(old(self).kind) ==> {
                &&& final(self).phase == Phase::AwaitValidation
                &&& final(self).status == old(self).status
                &&& final(self).status_reason@ == old(self).status_reason@
            },
            accepted && !validates(old(self).kind) ==> {
                &&& final(self).phase == (if runs_of(old(self).kind) == 0 { Phase::Done } else { Phase::Executing })
                &&& final(self).status == Status::Passed
                &&& final(self).status_reason@ == old(self).status_reason@
            },
    {
        if !accepted {
            self.phase = Phase::Done;
            self.status = Status::GaveUp;
            self.status_reason = String::from_str(SCHEMA_REJECTED);
        } else if self.kind == ScenarioKind::AbacTypeDirected {
            self.phase = Phase::AwaitValidation;
        } else {
            self.status = Status::Passed;
            self.phase = if self.kind == ScenarioKind::SchemaRoundtrip { Phase::Done } else { Phase::Executing };
        }
    }

    /// Records the kinds of the validation errors of the policy. None: the
    /// trial stands as `passed` (`validator_passed`); some: it stands as
    /// `gave_up`, with the kinds joined by `", "` as reason. Either way the
    /// requests are run next.
    pub fn validated(&mut self, error_kinds: &Vec<String>)
        requires
            old(self).wf(),
            old(self).phase == Phase::AwaitValidation,
            validates(old(self).kind),
        ensures
            final(self).wf(),
            final(self).kind == old(self).kind,
            final(self).phase == Phase::Executing,
            final(self).executed == 0,
            final(self).total_errors == old(self).total_errors,
            final(self).validation_errors == error_kinds@.len(),
            final(self).validation_kinds@ == error_kinds@.map_values(|s: String| s@),
            final(self).diagnostics@.len() == 0,
            final(self).runs@ == old(self).runs@,
            error_kinds@.len() == 0 ==> final(self).status == Status::Passed
                && final(self).status_reason@ == VALIDATOR_PASSED@,
            error_kinds@.len() > 0 ==> final(self).status == Status::GaveUp
                && final(self).status_reason@ == joined(error_kinds@.map_values(|s: String| s@), ", "@),
    {
        if error_kinds.len() == 0 {
            self.status = Status::Passed;
            self.status_reason = String::from_str(VALIDATOR_PASSED);
        } else {
            self.status = Status::GaveUp;
            self.status_reason = join(error_kinds, ", ");
        }
        self.validation_errors = error_kinds.len() as u64;
        self.validation_kinds = Ghost(error_kinds@.map_values(|s: String| s@));
        self.phase = Phase::Executing;
    }

    /// Records the diagnostics of the pending oracle run. Their number is
    /// added to the total. Where the kind forbids arity diagnostics and one
    /// is among them, the trial fails at once with that diagnostic as reason
    /// and runs nothing more; otherwise it moves to the next run, or ends
    /// after the last one with its status unchanged.
    pub fn executed(&mut self, diagnostics: &Vec<String>)
        requires
            old(self).wf(),
            old(self).phase == Phase::Executing,
        ensures
            final(self).wf(),
            final(self).kind == old(self).kind,
            final(self).validation_errors == old(self).validation_errors,
            final(self).total_errors == sat_add(old(self).total_errors as nat, diagnostics@.len()),
            final(self).diagnostics@ == old(self).diagnostics@ + diagnostics@.map_values(|s: String| s@),
            final(self).runs@ == old(self).runs@.push(run_of(diagnostics@)),
            final(self).validation_kinds == old(self).validation_kinds,
            ({
                let found = exists|i: int| 0 <= i < diagnostics@.len() && is_arity(#[trigger] diagnostics@[i]@);
                &&& checks_arity(old(self).kind) && found ==> {
                    &&& final(self).status == Status::Failed
                    &&& final(self).phase == Phase::Done
                    &&& final(self).executed == old(self).executed
                    &&& exists|i: int| 0 <= i < diagnostics@.len() && final(self).status_reason@ == (#[trigger] diagnostics@[i])@
                        && is_arity(diagnostics@[i]@)
                }
                &&& !(checks_arity(old(self).kind) && found) ==> {
                    &&& final(self).status == old(self).status
                    &&& final(self).status_reason@ == old(self).status_reason@
                    &&& final(self).executed == old(self).executed + 1
                    &&& final(self).phase == (if final(self).executed == runs_of(old(self).kind) { Phase::Done } else { Phase::Executing })
                }
            }),
    {
        let n = diagnostics.len() as u64;
        self.total_errors = if self.total_errors > u64::MAX - n { u64::MAX } else { self.total_errors + n };
        let ghost before = self.diagnostics@;
        let ghost added = diagnostics@.map_values(|s: String| s@);
        self.diagnostics = Ghost(before + added);
        let ghost prior = self.runs@;
        self.runs = Ghost(prior.push(run_of(diagnostics@)));
        assert(self.runs@.drop_last() =~= prior);
        if self.kind == ScenarioKind::AbacTypeDirected || self.kind == ScenarioKind::EvalTypeDirected {
            match find_arity(diagnostics) {
                Some(j) => {
                    self.status = Status::Failed;
                    self.status_reason = diagnostics[j].clone();
                    self.phase = Phase::Done;
                    return;
                },
                None => {
                    assert forall|i: int| 0 <= i < self.diagnostics@.len() implies !is_arity(#[trigger] self.diagnostics@[i]) by {
                        if i >= before.len() {
                            assert(self.diagnostics@[i] == added[i - before.len()]);
                        } else {
                            assert(self.diagnostics@[i] == before[i]);
                        }
                    }
                },
            }
        }
        self.executed = self.executed + 1;
        if self.executed == REQUESTS_PER_SCENARIO {
            self.phase = Phase::Done;
        }
    }
}

/// How a validator's verdict is written in a status reason.
pub open spec fn verdict_text(passed: bool) -> Seq<char> {
    if passed { "passed"@ } else { "failed"@ }
}

/// The status reason of two validators' verdicts.
pub open spec fn verdicts_reason(production: bool, reference: bool) -> Seq<char> {
    "production: "@ + verdict_text(production) + ", reference: "@ + verdict_text(reference)
}

/// Compares the pass/fail verdicts of the two validators on one input:
/// agreement passes, disagreement fails; the reason records both verdicts.
pub fn compare_verdicts(production: bool, reference: bool) -> (r: (Status, String))
    ensures
        r.0 == (if production == reference { Status::Passed } else { Status::Failed }),
        r.1@ == verdicts_reason(production, reference),
{
    let mut reason = String::from_str("production: ");
    reason.append(if production { "passed" } else { "failed" });
    reason.append(", reference: ");
    reason.append(if reference { "passed" } else { "failed" });
    let status = if production == reference { Status::Passed } else { Status::Failed };
    (status, reason)
}

/// Type safety of generated inputs, as the runner checks it: a trial of a
/// kind that forbids arity diagnostics and that has not failed has seen none.
pub proof fn lemma_no_arity_unless_failed(t: Trial)
    requires
        t.wf(),
        checks_arity(t.kind),
        t.status != Status::Failed,
    ensures
        forall|i: int| 0 <= i < t.diagnostics@.len() ==> !has_substring(#[trigger] t.diagnostics@[i], ARITY_DIAGNOSTIC@),
{
}

} // verus!
