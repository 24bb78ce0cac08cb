use cedar_policy_core::ast::{Context, Entity, EntityUID, EntityUIDEntry, PolicySet, Request};
use cedar_policy_core::entities::{Entities, NoEntitiesSchema, TCComputation};
use cedar_policy_core::extensions::Extensions;
use cedar_policy_core::parser::parse_policyset;
use cedar_policy_validator::SchemaFragment;
use drt_harness::harness::{
    test_abac_type_directed, test_eval_type_directed, test_rbac, ABACTypeDirectedFuzzTargetInput,
    EvalTypeDirectedFuzzTargetInput, RBACFuzzTargetInput,
};
use drt_harness::roundtrip::write_and_reparse;
use drt_harness::runner::{Phase, Status};

const SCHEMA: &str = r#"{"N": {"entityTypes": {"User": {}}, "actions": {"view": {"appliesTo": {"principalTypes": ["User"], "resourceTypes": ["User"]}}}}}"#;

fn alice() -> EntityUID {
    r#"N::User::"alice""#.parse().unwrap()
}

fn requests() -> Vec<Request> {
    let action: EntityUID = r#"N::Action::"view""#.parse().unwrap();
    (0..8)
        .map(|_| {
            Request::new_unchecked(
                EntityUIDEntry::concrete(alice(), None),
                EntityUIDEntry::concrete(action.clone(), None),
                EntityUIDEntry::concrete(alice(), None),
                Some(Context::empty()),
            )
        })
        .collect()
}

fn entities() -> Entities {
    Entities::from_entities(
        vec![Entity::with_uid(alice())],
        None::<&NoEntitiesSchema>,
        TCComputation::ComputeNow,
        Extensions::all_available(),
    )
    .unwrap()
}

fn permit_all() -> PolicySet {
    parse_policyset("permit(principal, action, resource);").unwrap()
}

#[test]
fn permit_all_abac_trial_passes() {
    let input = ABACTypeDirectedFuzzTargetInput {
        schema: SchemaFragment::from_json_str(SCHEMA).unwrap(),
        entities: entities(),
        policy_set: permit_all(),
        requests: requests(),
    };
    let t = test_abac_type_directed(Some(&input));
    assert_eq!(t.status, Status::Passed);
    assert_eq!(t.status_reason, "validator_passed");
    assert_eq!(t.executed, 8);
    assert_eq!(t.total_errors, 0);
    assert_eq!(t.phase, Phase::Done);
}

#[test]
fn cyclic_common_type_gives_up_without_authorizing() {
    let cyclic = r#"{"N": {"commonTypes": {"A": {"type": "B"}, "B": {"type": "A"}}, "entityTypes": {"User": {}}, "actions": {}}}"#;
    let input = ABACTypeDirectedFuzzTargetInput {
        schema: SchemaFragment::from_json_str(cyclic).unwrap(),
        entities: entities(),
        policy_set: permit_all(),
        requests: requests(),
    };
    let t = test_abac_type_directed(Some(&input));
    assert_eq!(t.status, Status::GaveUp);
    assert_eq!(t.status_reason, "schema rejected");
    assert_eq!(t.executed, 0);
}

#[test]
fn failed_generation_gives_up() {
    let t = test_abac_type_directed(None);
    assert_eq!(t.status, Status::GaveUp);
    assert!(t.status_reason.contains("generation failed"));
    let t = test_eval_type_directed(None);
    assert_eq!(t.status, Status::GaveUp);
}

#[test]
fn rbac_trial_runs_every_request() {
    let input = RBACFuzzTargetInput { policy_set: permit_all(), entities: Some(entities()), requests: requests() };
    let t = test_rbac(&input);
    assert_eq!(t.status, Status::Passed);
    assert_eq!(t.executed, 8);
    let input = RBACFuzzTargetInput { policy_set: permit_all(), entities: None, requests: requests() };
    let t = test_rbac(&input);
    assert_eq!(t.status, Status::GaveUp);
    assert_eq!(t.executed, 0);
}

#[test]
fn eval_trial_passes_on_a_well_typed_expression() {
    let expr: cedar_policy_core::ast::Expr = "principal == resource".parse().unwrap();
    let input = EvalTypeDirectedFuzzTargetInput { entities: entities(), expression: expr, requests: requests() };
    let t = test_eval_type_directed(Some(&input));
    assert_eq!(t.status, Status::Passed);
    assert_eq!(t.executed, 8);
    assert_eq!(t.total_errors, 0);
}

#[test]
fn rbac_trial_sums_errors() {
    let erring = parse_policyset("permit(principal, action, resource) when { principal.missing == 1 };").unwrap();
    let input = RBACFuzzTargetInput { policy_set: erring, entities: Some(entities()), requests: requests() };
    let t = test_rbac(&input);
    assert_eq!(t.status, Status::Passed);
    assert_eq!(t.total_errors, 8);
}

#[test]
fn abac_trial_sums_errors() {
    let erring = parse_policyset("permit(principal, action, resource) when { principal.missing == 1 };").unwrap();
    let input = ABACTypeDirectedFuzzTargetInput {
        schema: SchemaFragment::from_json_str(SCHEMA).unwrap(),
        entities: entities(),
        policy_set: erring,
        requests: requests(),
    };
    let t = test_abac_type_directed(Some(&input));
    assert_eq!(t.executed, 8);
    assert_eq!(t.total_errors, 8);
    assert_ne!(t.status, Status::Failed);
}

#[test]
fn schema_writes_and_parses_back() {
    let frag = SchemaFragment::from_json_str(SCHEMA).unwrap();
    let (text, reparsed) = write_and_reparse(&frag).unwrap();
    assert!(text.contains("User"));
    assert!(reparsed.is_some());
}
