//! The trial loops of the three scenario kinds that run the engine under
//! test: each follows the trial state machine, calls the engine where it
//! says so, and hands every outcome back to it.
use vstd::prelude::*;
use cedar_policy_core::ast::{Expr, PolicySet, Request};
use cedar_policy_core::entities::Entities;
use cedar_policy_validator::{SchemaFragment, ValidatorSchema};
use crate::assemble::ScenarioKind;
use crate::runner::{
    checks_arity, errors_total, is_arity, Phase, Status, Trial, GENERATION_FAILED, SCHEMA_REJECTED, VALIDATOR_PASSED,
};
use crate::settings::REQUESTS_PER_SCENARIO;
use crate::text::joined;

verus! {

#[verifier::external_type_specification]
#[verifier::external_body]
pub struct ExPolicySet(PolicySet);

#[verifier::external_type_specification]
#[verifier::external_body]
pub struct ExRequest(Request);

#[verifier::external_type_specification]
#[verifier::external_body]
pub struct ExEntities(Entities);

#[verifier::external_type_specification]
#[verifier::external_body]
#[verifier::reject_recursive_types(T)]
pub struct ExExpr<T>(Expr<T>);

#[verifier::external_type_specification]
#[verifier::external_body]
pub struct ExSchemaFragment(SchemaFragment);

#[verifier::external_type_specification]
#[verifier::external_body]
pub struct ExValidatorSchema(ValidatorSchema);

/// Whether a schema fragment converts into the validator's form.
pub uninterp spec fn schema_converts(f: SchemaFragment) -> bool;

/// Relies on `Authorizer::is_authorized` of the production engine: the
/// diagnostics' errors of its response, each as text. Nothing is promised of
/// them: besides the arguments, they depend on the stack space left to the
/// calling thread.
#[verifier::external_body]
fn authorize(request: &Request, policies: &PolicySet, entities: &Entities) -> (r: Vec<String>) {
    let response = cedar_policy_core::authorizer::Authorizer::new().is_authorized(request.clone(), policies, entities);
    response.diagnostics.errors.iter().map(|e| e.to_string()).collect()
}

/// A batch of runs took `before` to `after`: runs were made in order up to
/// the first arity diagnostic (where the kind forbids them), each recorded;
/// the trial failed exactly when the last recorded run had one, and
/// otherwise made every run, none with one.
pub open spec fn batch_done(before: Trial, after: Trial) -> bool {
    &&& after.wf()
    &&& after.kind == before.kind
    &&& after.phase == Phase::Done
    &&& after.validation_errors == before.validation_errors
    &&& after.validation_kinds == before.validation_kinds
    &&& after.total_errors == errors_total(after.runs@)
    &&& after.status != Status::Failed ==> {
        &&& after.status == before.status
        &&& after.status_reason@ == before.status_reason@
        &&& after.executed == REQUESTS_PER_SCENARIO
        &&& after.runs@.len() == REQUESTS_PER_SCENARIO
        &&& checks_arity(before.kind) ==> forall|i: int| 0 <= i < after.runs@.len() ==> !(#[trigger] after.runs@[i]).1
    }
    &&& after.status == Status::Failed ==> {
        &&& checks_arity(before.kind)
        &&& 0 < after.runs@.len() <= REQUESTS_PER_SCENARIO
        &&& after.runs@.last().1
        &&& forall|i: int| 0 <= i < after.runs@.len() - 1 ==> !(#[trigger] after.runs@[i]).1
        &&& exists|i: int| 0 <= i < after.diagnostics@.len() && is_arity(#[trigger] after.diagnostics@[i])
    }
}

/// The invariant of a batch in progress.
pub open spec fn batch_progress(before: Trial, t: Trial) -> bool {
    &&& t.wf()
    &&& t.kind == before.kind
    &&& t.phase == Phase::Executing || t.phase == Phase::Done
    &&& t.validation_errors == before.validation_errors
    &&& t.validation_kinds == before.validation_kinds
    &&& t.status != Status::Failed ==> {
        &&& t.status == before.status
        &&& t.status_reason@ == before.status_reason@
        &&& t.phase == Phase::Done ==> t.executed == REQUESTS_PER_SCENARIO
    }
    &&& t.status == Status::Failed ==> {
        &&& checks_arity(before.kind)
        &&& t.executed < REQUESTS_PER_SCENARIO
        &&& exists|i: int| 0 <= i < t.diagnostics@.len() && is_arity(#[trigger] t.diagnostics@[i])
    }
}

/// One run's step: the diagnostics of run `trial.executed` are handed to the
/// trial.
fn record_run(trial: &mut Trial, diags: &Vec<String>, start: Ghost<Trial>)
    requires
        batch_progress(start@, *old(trial)),
        old(trial).phase == Phase::Executing,
    ensures
        batch_progress(start@, *final(trial)),
        final(trial).executed >= old(trial).executed,
        final(trial).phase == Phase::Executing ==> final(trial).executed > old(trial).executed,
{
    let ghost before = trial.diagnostics@;
    trial.executed(diags);
    proof {
        if trial.status == Status::Failed {
            let j = choose|j: int| 0 <= j < diags@.len() && trial.status_reason@ == (#[trigger] diags@[j])@
                && is_arity(diags@[j]@);
            assert(trial.diagnostics@[before.len() + j] == diags@[j]@);
        }
    }
}

/// Authorizes the requests of a batch as the trial directs, until the trial
/// is over.
fn run_requests(trial: &mut Trial, requests: &Vec<Request>, policies: &PolicySet, entities: &Entities)
    requires
        old(trial).wf(),
        old(trial).phase == Phase::Executing,
        old(trial).kind != ScenarioKind::SchemaRoundtrip,
        old(trial).executed == 0,
        requests@.len() == REQUESTS_PER_SCENARIO,
    ensures
        batch_done(*old(trial), *final(trial)),
{
    let ghost start = *trial;
    while trial.phase == Phase::Executing
        invariant
            batch_progress(start, *trial),
            requests@.len() == REQUESTS_PER_SCENARIO,
        decreases REQUESTS_PER_SCENARIO - trial.executed, (if trial.phase == Phase::Executing { 1int } else { 0 }),
    {
        let i = trial.executed;
        let diags = authorize(&requests[i], policies, entities);
        record_run(trial, &diags, Ghost(start));
    }
}

/// Input of the role-based trial: the policy set built from the policy
/// groups, the entities of the hierarchy where they converted, and the
/// request batch.
pub struct RBACFuzzTargetInput {
    pub policy_set: PolicySet,
    pub entities: Option<Entities>,
    pub requests: Vec<Request>,
}

/// What the role-based trial ends with on `input`, whatever the engine
/// answered: given entities, all eight requests were authorized, their runs
/// recorded and their errors summed, and the trial passes.
pub open spec fn rbac_trial_result(input: RBACFuzzTargetInput, t: Trial) -> bool {
    &&& t.wf()
    &&& t.kind == ScenarioKind::Rbac
    &&& t.phase == Phase::Done
    &&& t.validation_errors == 0
    &&& t.total_errors == errors_total(t.runs@)
    &&& input.entities is None ==> t.status == Status::GaveUp && t.status_reason@ == SCHEMA_REJECTED@
        && t.executed == 0 && t.runs@.len() == 0 && t.total_errors == 0
    &&& input.entities is Some ==> {
        &&& t.status == Status::Passed
        &&& t.status_reason@ == Seq::<char>::empty()
        &&& t.executed == REQUESTS_PER_SCENARIO
        &&& t.runs@.len() == REQUESTS_PER_SCENARIO
    }
}

/// The role-based trial. Where the hierarchy did not convert into entities it
/// gives up without authorizing anything; otherwise every request is
/// authorized, the errors are summed, and the trial passes.
pub fn test_rbac(input: &RBACFuzzTargetInput) -> (t: Trial)
    requires
        input.requests@.len() == REQUESTS_PER_SCENARIO,
    ensures
        rbac_trial_result(*input, t),
{
    let mut trial = Trial::start(ScenarioKind::Rbac);
    match &input.entities {
        None => {
            trial.schema_converted(false);
        },
        Some(entities) => {
            trial.schema_converted(true);
            run_requests(&mut trial, &input.requests, &input.policy_set, entities);
        },
    }
    trial
}

/// Relies on `ValidatorSchema::try_from` on a schema fragment: the
/// validator's form of the schema, or `None` where the fragment does not
/// convert (an unknown or cyclic type, for one). Whether it converts is
/// fixed by the fragment.
#[verifier::external_body]
fn convert_schema(fragment: &SchemaFragment) -> (r: Option<ValidatorSchema>)
    ensures
        r is Some <==> schema_converts(*fragment),
{
    ValidatorSchema::try_from(fragment.clone()).ok()
}

/// Relies on `Validator::validate` (after `Validator::new`) in the default
/// validation mode: the kind of each validation error, as text. Nothing is
/// promised of them.
#[verifier::external_body]
fn validation_error_kinds(schema: ValidatorSchema, policies: &PolicySet) -> (r: Vec<String>) {
    let validator = cedar_policy_validator::Validator::new(schema);
    let result = validator.validate(policies, cedar_policy_validator::ValidationMode::default());
    result.validation_errors().map(|e| e.error_kind().to_string()).collect()
}

/// Relies on `Evaluator::interpret` of the production engine, with all
/// extensions and no slots: no diagnostic where it gives a value, else its
/// error as text. Nothing is promised of which: besides the arguments, it
/// depends on the stack space left to the calling thread.
#[verifier::external_body]
fn evaluate(request: &Request, entities: &Entities, expression: &Expr) -> (r: Vec<String>) {
    let extensions = cedar_policy_core::extensions::Extensions::all_available();
    let evaluator = cedar_policy_core::evaluator::Evaluator::new(request.clone(), entities, &extensions);
    match evaluator.interpret(expression, &std::collections::HashMap::new()) {
        Ok(_) => Vec::new(),
        Err(e) => vec![e.to_string()],
    }
}

/// Input of the attribute-based type-directed trial: the generated schema,
/// the entities, the policy set holding the generated policy, and the
/// request batch.
pub struct ABACTypeDirectedFuzzTargetInput {
    pub schema: SchemaFragment,
    pub entities: Entities,
    pub policy_set: PolicySet,
    pub requests: Vec<Request>,
}

/// What the attribute-based type-directed trial ends with on `input`,
/// whatever the engine answered. Where the schema converts: the validation
/// kinds recorded decide between `passed` (none) and `gave_up` (their
/// joined text as reason); then the trial fails exactly when the last
/// recorded run had an arity diagnostic, and otherwise made all eight runs,
/// none with one; the errors of the recorded runs are summed.
pub open spec fn abac_trial_result(input: Option<&ABACTypeDirectedFuzzTargetInput>, t: Trial) -> bool {
    &&& t.wf()
    &&& t.kind == ScenarioKind::AbacTypeDirected
    &&& t.phase == Phase::Done
    &&& t.total_errors == errors_total(t.runs@)
    &&& input is None ==> t.status == Status::GaveUp && t.status_reason@ == GENERATION_FAILED@
        && t.executed == 0 && t.runs@.len() == 0 && t.validation_errors == 0
    &&& input is Some && !schema_converts(input->0.schema) ==> t.status == Status::GaveUp
        && t.status_reason@ == SCHEMA_REJECTED@ && t.executed == 0 && t.runs@.len() == 0
        && t.validation_errors == 0
    &&& input is Some && schema_converts(input->0.schema) ==> {
        &&& t.validation_errors == t.validation_kinds@.len()
        &&& (t.status == Status::Failed <==> t.runs@.len() > 0 && t.runs@.last().1)
        &&& t.status == Status::Failed ==> t.runs@.len() <= REQUESTS_PER_SCENARIO
            && forall|i: int| 0 <= i < t.runs@.len() - 1 ==> !(#[trigger] t.runs@[i]).1
        &&& t.status != Status::Failed ==> {
            &&& t.executed == REQUESTS_PER_SCENARIO
            &&& t.runs@.len() == REQUESTS_PER_SCENARIO
            &&& forall|i: int| 0 <= i < t.runs@.len() ==> !(#[trigger] t.runs@[i]).1
            &&& t.validation_kinds@.len() == 0 ==> t.status == Status::Passed
                && t.status_reason@ == VALIDATOR_PASSED@
            &&& t.validation_kinds@.len() > 0 ==> t.status == Status::GaveUp
                && t.status_reason@ == joined(t.validation_kinds@, ", "@)
        }
    }
    &&& t.status == Status::Failed ==> exists|i: int|
        0 <= i < t.diagnostics@.len() && is_arity(#[trigger] t.diagnostics@[i])
}

/// The attribute-based type-directed trial. Without an input (generation
/// failed) it gives up at once. Otherwise: a schema that does not convert
/// gives up with nothing authorized; else the policy is validated (no error:
/// `passed`; errors: `gave_up`, with their kinds as reason), the requests
/// are authorized in order with their errors summed, and the first arity
/// diagnostic fails the trial at once.
pub fn test_abac_type_directed(input: Option<&ABACTypeDirectedFuzzTargetInput>) -> (t: Trial)
    requires
        input is Some ==> input->0.requests@.len() == REQUESTS_PER_SCENARIO,
    ensures
        abac_trial_result(input, t),
{
    match input {
        None => Trial::generation_failed(ScenarioKind::AbacTypeDirected),
        Some(input) => {
            let mut trial = Trial::start(ScenarioKind::AbacTypeDirected);
            match convert_schema(&input.schema) {
                None => {
                    trial.schema_converted(false);
                },
                Some(schema) => {
                    trial.schema_converted(true);
                    let kinds = validation_error_kinds(schema, &input.policy_set);
                    trial.validated(&kinds);
                    run_requests(&mut trial, &input.requests, &input.policy_set, &input.entities);
                },
            }
            trial
        },
    }
}

/// Input of the expression type-directed trial: the entities, the generated
/// expression and the request batch.
pub struct EvalTypeDirectedFuzzTargetInput {
    pub entities: Entities,
    pub expression: Expr,
    pub requests: Vec<Request>,
}

/// Evaluates the expression for the requests of a batch as the trial
/// directs, until the trial is over.
fn run_evaluations(trial: &mut Trial, requests: &Vec<Request>, entities: &Entities, expression: &Expr)
    requires
        old(trial).wf(),
        old(trial).phase == Phase::Executing,
        old(trial).kind != ScenarioKind::SchemaRoundtrip,
        old(trial).executed == 0,
        requests@.len() == REQUESTS_PER_SCENARIO,
    ensures
        batch_done(*old(trial), *final(trial)),
{
    let ghost start = *trial;
    while trial.phase == Phase::Executing
        invariant
            batch_progress(start, *trial),
            requests@.len() == REQUESTS_PER_SCENARIO,
        decreases REQUESTS_PER_SCENARIO - trial.executed, (if trial.phase == Phase::Executing { 1int } else { 0 }),
    {
        let i = trial.executed;
        let diags = evaluate(&requests[i], entities, expression);
        record_run(trial, &diags, Ghost(start));
    }
}

/// What the expression type-directed trial ends with on `input`, whatever
/// the engine answered: it fails exactly when the last recorded run had an
/// arity diagnostic, and otherwise passes after all eight runs, none with
/// one; the errors of the recorded runs are summed.
pub open spec fn eval_trial_result(input: Option<&EvalTypeDirectedFuzzTargetInput>, t: Trial) -> bool {
    &&& t.wf()
    &&& t.kind == ScenarioKind::EvalTypeDirected
    &&& t.phase == Phase::Done
    &&& t.validation_errors == 0
    &&& t.total_errors == errors_total(t.runs@)
    &&& input is None ==> t.status == Status::GaveUp && t.status_reason@ == GENERATION_FAILED@
        && t.executed == 0 && t.runs@.len() == 0
    &&& input is Some ==> {
        &&& (t.status == Status::Failed <==> t.runs@.len() > 0 && t.runs@.last().1)
        &&& t.status == Status::Failed ==> t.runs@.len() <= REQUESTS_PER_SCENARIO
            && forall|i: int| 0 <= i < t.runs@.len() - 1 ==> !(#[trigger] t.runs@[i]).1
        &&& t.status != Status::Failed ==> {
            &&& t.status == Status::Passed
            &&& t.status_reason@ == Seq::<char>::empty()
            &&& t.executed == REQUESTS_PER_SCENARIO
            &&& t.runs@.len() == REQUESTS_PER_SCENARIO
            &&& forall|i: int| 0 <= i < t.runs@.len() ==> !(#[trigger] t.runs@[i]).1
        }
    }
    &&& t.status == Status::Failed ==> exists|i: int|
        0 <= i < t.diagnostics@.len() && is_arity(#[trigger] t.diagnostics@[i])
}

/// The expression type-directed trial. Without an input (generation failed)
/// it gives up at once. Otherwise the expression is evaluated for the
/// requests in order with the errors summed: the first arity diagnostic fails
/// the trial at once; without one it passes.
pub fn test_eval_type_directed(input: Option<&EvalTypeDirectedFuzzTargetInput>) -> (t: Trial)
    requires
        input is Some ==> input->0.requests@.len() == REQUESTS_PER_SCENARIO,
    ensures
        eval_trial_result(input, t),
{
    match input {
        None => Trial::generation_failed(ScenarioKind::EvalTypeDirected),
        Some(input) => {
            let mut trial = Trial::start(ScenarioKind::EvalTypeDirected);
            trial.schema_converted(true);
            run_evaluations(&mut trial, &input.requests, &input.entities, &input.expression);
            trial
        },
    }
}

} // verus!
