use drt_harness::assemble::{Assembly, DrawStep, ScenarioKind};
use drt_harness::hint::{plan_hint_list, size_hint, StepHints};
use drt_harness::ids::{decimal_string, link_id, policy_id};
use drt_harness::record::{eval_representation, seconds_string, status_name, Feature, TrialRecord};
use drt_harness::roundtrip::{
    check_roundtrip, judge_roundtrip, roundtrip_trial, Decl, FragmentModel, RoundtripOutcome,
};
use drt_harness::runner::{compare_verdicts, Action, Phase, Status, Trial};
use drt_harness::scenario::{
    drop_entities, GenLink, GenPolicy, GenRequest, GenerationFailure, PolicyGroup, Scenario,
    ScenarioBody, SlotBinding, SlotKind,
};
use drt_harness::settings::{schema_roundtrip_settings, type_directed_settings};
use drt_harness::text::{contains_text, join};

fn s(x: &str) -> String {
    x.to_string()
}

fn policy(id: &str, slots: Vec<SlotKind>) -> GenPolicy {
    GenPolicy { id: s(id), slots, text: s("permit(principal, action, resource);") }
}

fn link(id: &str, template: &str, slots: &[SlotKind]) -> GenLink {
    GenLink {
        id: s(id),
        template_id: s(template),
        bindings: slots
            .iter()
            .map(|k| SlotBinding { slot: *k, entity: s("User::\"alice\"") })
            .collect(),
    }
}

fn alice_only() -> Vec<String> {
    vec![s("User::\"alice\"")]
}

fn request(principal: &str, resource: &str) -> GenRequest {
    GenRequest { principal: s(principal), action: s("Action::\"view\""), resource: s(resource), context: s("{}") }
}

fn eight_requests() -> Vec<GenRequest> {
    (0..8).map(|_| request("User::\"alice\"", "User::\"alice\"")).collect()
}

#[test]
fn identifiers_follow_indices() {
    assert_eq!(policy_id(0), "p0");
    assert_eq!(policy_id(12), "p12");
    assert_eq!(link_id(1, 3), "t1_l3");
    assert_eq!(link_id(10, 0), "t10_l0");
    assert_eq!(decimal_string(0), "0");
    assert_eq!(decimal_string(1234567890), "1234567890");
    assert_eq!(decimal_string(u64::MAX), "18446744073709551615");
}

#[test]
fn identifiers_are_distinct_across_groups_and_links() {
    let mut ids = vec![];
    for g in 0..3usize {
        ids.push(policy_id(g));
        for l in 0..4usize {
            ids.push(link_id(g, l));
        }
    }
    let mut sorted = ids.clone();
    sorted.sort();
    sorted.dedup();
    assert_eq!(sorted.len(), ids.len());
    assert_eq!(policy_id(1), policy_id(1));
}

#[test]
fn policy_without_slots_is_static() {
    let g = PolicyGroup::assemble(&alice_only(), 0, policy("p0", vec![]), vec![]).unwrap();
    assert!(matches!(g, PolicyGroup::StaticPolicy(p) if p.id == "p0"));
}

#[test]
fn template_with_links_is_accepted() {
    let slots = [SlotKind::Principal, SlotKind::Resource];
    let links = vec![link("t1_l0", "p1", &slots), link("t1_l1", "p1", &slots)];
    let g = PolicyGroup::assemble(&alice_only(), 1, policy("p1", slots.to_vec()), links).unwrap();
    match g {
        PolicyGroup::TemplateWithLinks { template, links } => {
            assert_eq!(template.id, "p1");
            assert_eq!(links.len(), 2);
        }
        _ => panic!("expected a template"),
    }
}

#[test]
fn template_link_count_bounds() {
    let slots = [SlotKind::Principal];
    let none = PolicyGroup::assemble(&alice_only(), 0, policy("p0", slots.to_vec()), vec![]);
    assert!(matches!(none, Err(GenerationFailure::ConstraintViolation)));
    let four: Vec<GenLink> = (0..4).map(|l| link(&format!("t0_l{}", l), "p0", &slots)).collect();
    assert!(PolicyGroup::assemble(&alice_only(), 0, policy("p0", slots.to_vec()), four).is_ok());
    let five: Vec<GenLink> = (0..5).map(|l| link(&format!("t0_l{}", l), "p0", &slots)).collect();
    assert!(PolicyGroup::assemble(&alice_only(), 0, policy("p0", slots.to_vec()), five).is_err());
}

#[test]
fn link_must_bind_every_slot() {
    let slots = vec![SlotKind::Principal, SlotKind::Resource];
    let partial = vec![link("t0_l0", "p0", &[SlotKind::Principal])];
    assert!(PolicyGroup::assemble(&alice_only(), 0, policy("p0", slots), partial).is_err());
}

#[test]
fn identifiers_must_follow_indices() {
    assert!(PolicyGroup::assemble(&alice_only(), 1, policy("p0", vec![]), vec![]).is_err());
    let slots = [SlotKind::Principal];
    let wrong_link = vec![link("t0_l1", "p0", &slots)];
    assert!(PolicyGroup::assemble(&alice_only(), 0, policy("p0", slots.to_vec()), wrong_link).is_err());
}

#[test]
fn scenario_needs_eight_requests_in_hierarchy() {
    let hierarchy = vec![s("User::\"alice\"")];
    let body = ScenarioBody::AbacTypeDirected { schema: s("namespace N {}"), policy: policy("p0", vec![]) };
    let ok = Scenario::assemble(hierarchy.clone(), body.clone(), eight_requests(), 5).unwrap();
    assert_eq!(ok.requests.len(), 8);
    assert_eq!(ok.gen_time_nanos, 5);

    let mut seven = eight_requests();
    seven.pop();
    assert!(matches!(
        Scenario::assemble(hierarchy.clone(), body.clone(), seven, 5),
        Err(GenerationFailure::ConstraintViolation)
    ));

    let mut orphan = eight_requests();
    orphan[3] = request("User::\"bob\"", "User::\"alice\"");
    assert!(Scenario::assemble(hierarchy, body, orphan, 5).is_err());
}

#[test]
fn rbac_scenario_checks_its_groups() {
    let hierarchy = vec![s("User::\"alice\"")];
    let groups = vec![PolicyGroup::StaticPolicy(policy("p0", vec![]))];
    let body = ScenarioBody::Rbac { policy_groups: groups };
    assert!(Scenario::assemble(hierarchy.clone(), body, eight_requests(), 0).is_ok());
    let misnumbered = vec![PolicyGroup::StaticPolicy(policy("p1", vec![]))];
    let body = ScenarioBody::Rbac { policy_groups: misnumbered };
    assert!(Scenario::assemble(hierarchy.clone(), body, eight_requests(), 0).is_err());
    let none = ScenarioBody::Rbac { policy_groups: vec![] };
    assert!(Scenario::assemble(hierarchy, none, eight_requests(), 0).is_err());
}

#[test]
fn dropping_keeps_referenced_entities() {
    let hierarchy = vec![s("User::\"alice\""), s("User::\"bob\""), s("User::\"carol\"")];
    let keep = vec![false, false, true];
    let kept = drop_entities(&hierarchy, &keep, &eight_requests());
    assert_eq!(kept, vec![s("User::\"alice\""), s("User::\"carol\"")]);
}

#[test]
fn assembly_draws_in_order() {
    let mut a = Assembly::new(ScenarioKind::AbacTypeDirected);
    let mut steps = vec![];
    while a.next_step() != DrawStep::Finished {
        steps.push(a.next_step());
        a.record(Ok(()));
    }
    assert_eq!(steps.len(), 12);
    assert_eq!(steps[0], DrawStep::Schema);
    assert_eq!(steps[1], DrawStep::Hierarchy);
    assert_eq!(steps[2], DrawStep::Policy);
    assert!(steps[3..11].iter().all(|d| *d == DrawStep::Request));
    assert_eq!(steps[11], DrawStep::Entities);
    assert_eq!(a.requests_drawn(), 8);
}

#[test]
fn exhausted_buffer_mid_hierarchy_gives_up() {
    let mut a = Assembly::new(ScenarioKind::AbacTypeDirected);
    assert_eq!(a.next_step(), DrawStep::Schema);
    a.record(Ok(()));
    assert_eq!(a.next_step(), DrawStep::Hierarchy);
    a.record(Err(GenerationFailure::NotEnoughData));
    assert_eq!(a.next_step(), DrawStep::Finished);
    assert_eq!(a.failure, Some(GenerationFailure::NotEnoughData));
    assert_eq!(a.requests_drawn(), 0);

    let t = Trial::generation_failed(ScenarioKind::AbacTypeDirected);
    assert_eq!(t.status, Status::GaveUp);
    assert!(t.status_reason.contains("generation failed"));
    assert_eq!(t.next_action(), Action::Emit);
    assert_eq!(t.executed, 0);
}

#[test]
fn permit_all_scenario_passes() {
    let mut t = Trial::start(ScenarioKind::AbacTypeDirected);
    assert_eq!(t.next_action(), Action::ConvertSchema);
    t.schema_converted(true);
    assert_eq!(t.next_action(), Action::Validate);
    t.validated(&vec![]);
    for i in 0..8 {
        assert_eq!(t.next_action(), Action::Execute(i));
        t.executed(&vec![]);
    }
    assert_eq!(t.next_action(), Action::Emit);
    assert_eq!(t.status, Status::Passed);
    assert_eq!(t.status_reason, "validator_passed");
    assert_eq!(t.total_errors, 0);
    assert_eq!(t.validation_errors, 0);
}

#[test]
fn cyclic_common_type_schema_gives_up() {
    let mut t = Trial::start(ScenarioKind::AbacTypeDirected);
    t.schema_converted(false);
    assert_eq!(t.status, Status::GaveUp);
    assert_eq!(t.phase, Phase::Done);
    assert_eq!(t.next_action(), Action::Emit);
    assert_eq!(status_name(t.status), "gave_up");
}

#[test]
fn arity_diagnostic_fails_the_trial() {
    let mut t = Trial::start(ScenarioKind::EvalTypeDirected);
    t.schema_converted(true);
    assert_eq!(t.status, Status::Passed);
    t.executed(&vec![s("type error")]);
    assert_eq!(t.phase, Phase::Executing);
    let bad = s("error while evaluating: wrong number of arguments provided to extension function");
    t.executed(&vec![s("other"), bad.clone()]);
    assert_eq!(t.status, Status::Failed);
    assert_eq!(t.status_reason, bad);
    assert_eq!(t.next_action(), Action::Emit);
    assert_eq!(t.total_errors, 3);
    assert_eq!(t.executed, 1);
}

#[test]
fn rbac_ignores_arity_text() {
    let mut t = Trial::start(ScenarioKind::Rbac);
    t.schema_converted(true);
    for _ in 0..8 {
        t.executed(&vec![s("wrong number of arguments")]);
    }
    assert_eq!(t.status, Status::Passed);
    assert_eq!(t.total_errors, 8);
    assert_eq!(t.phase, Phase::Done);
}

#[test]
fn validation_errors_give_up_with_kinds() {
    let mut t = Trial::start(ScenarioKind::AbacTypeDirected);
    t.schema_converted(true);
    t.validated(&vec![s("unrecognized entity type"), s("unsafe attribute access")]);
    assert_eq!(t.status, Status::GaveUp);
    assert_eq!(t.status_reason, "unrecognized entity type, unsafe attribute access");
    assert_eq!(t.validation_errors, 2);
    assert_eq!(t.next_action(), Action::Execute(0));
}

#[test]
fn verdicts_compare() {
    let (st, reason) = compare_verdicts(true, true);
    assert_eq!(st, Status::Passed);
    assert_eq!(reason, "production: passed, reference: passed");
    let (st, reason) = compare_verdicts(true, false);
    assert_eq!(st, Status::Failed);
    assert_eq!(reason, "production: passed, reference: failed");
}

fn sample_record() -> TrialRecord {
    TrialRecord {
        representation: s("{\"policy\":\"permit\"}\n"),
        property: s("abac-type-directed"),
        status: Status::Passed,
        status_reason: s("validator_passed"),
        features: vec![Feature { name: s("num_actions"), value: 3 }, Feature { name: s("validation_errors"), value: 0 }],
        generate_nanos: 1_500_000_000,
        execute_nanos: 42,
    }
}

#[test]
fn record_line_is_exact() {
    let line = sample_record().to_line();
    assert_eq!(
        line,
        "{\"representation\":\"{\\\"policy\\\":\\\"permit\\\"}\\n\",\"property\":\"abac-type-directed\",\
\"status\":\"passed\",\"status_reason\":\"validator_passed\",\"features\":{\"num_actions\":3,\
\"validation_errors\":0},\"timing\":{\"generate\":1.500000000,\"execute\":0.000000042}}"
    );
}

#[test]
fn record_line_is_deterministic() {
    assert_eq!(sample_record().to_line(), sample_record().to_line());
}

#[test]
fn record_escapes_control_characters() {
    let mut r = sample_record();
    r.representation = s("a\u{1}b\\c\té");
    r.features = vec![];
    let line = r.to_line();
    assert!(line.starts_with("{\"representation\":\"a\\u0001b\\\\c\\té\","));
    assert!(line.contains("\"features\":{}"));
}

#[test]
fn record_from_trial_adds_counts() {
    let mut t = Trial::start(ScenarioKind::AbacTypeDirected);
    t.schema_converted(true);
    t.validated(&vec![]);
    t.executed(&vec![s("e1"), s("e2")]);
    let r = TrialRecord::from_trial(&t, s("rep"), vec![Feature { name: s("num_actions"), value: 1 }], 0, 0);
    assert_eq!(r.property, "abac-type-directed");
    assert_eq!(r.features.len(), 3);
    assert_eq!(r.features[1].name, "validation_errors");
    assert_eq!(r.features[2].name, "total_auth_errors");
    assert_eq!(r.features[2].value, 2);
    let rb = TrialRecord::from_trial(&Trial::start(ScenarioKind::Rbac), s("rep"), vec![], 0, 0);
    assert_eq!(rb.property, "rbac");
    assert!(rb.features.is_empty());
}

#[test]
fn seconds_are_written_with_nine_decimals() {
    assert_eq!(seconds_string(0), "0.000000000");
    assert_eq!(seconds_string(5), "0.000000005");
    assert_eq!(seconds_string(12_000_000_001), "12.000000001");
}

fn decl(name: &str, sets: Vec<Vec<&str>>) -> Decl {
    Decl { name: s(name), body: s("{}"), sets: sets.into_iter().map(|v| v.into_iter().map(s).collect()).collect() }
}

fn fragment(actions: Vec<Decl>) -> FragmentModel {
    FragmentModel {
        namespace: s("N"),
        entity_types: vec![decl("User", vec![vec!["Group"]]), decl("Group", vec![vec![]])],
        actions,
        common_types: vec![],
    }
}

#[test]
fn roundtrip_ignores_action_order() {
    let a = fragment(vec![decl("view", vec![vec!["User"], vec!["Photo", "Album"]]), decl("edit", vec![])]);
    let b = fragment(vec![decl("edit", vec![]), decl("view", vec![vec!["User"], vec!["Album", "Photo"]])]);
    assert!(matches!(check_roundtrip(&a, s("text"), Some(b)), RoundtripOutcome::Equivalent));
}

#[test]
fn roundtrip_reports_mismatch_and_parse_failure() {
    let a = fragment(vec![decl("view", vec![vec!["User"]])]);
    let b = fragment(vec![decl("view", vec![vec!["Group"]])]);
    match check_roundtrip(&a, s("namespace N {}"), Some(b)) {
        RoundtripOutcome::Mismatch { text, .. } => assert_eq!(text, "namespace N {}"),
        _ => panic!("expected a mismatch"),
    }
    assert!(matches!(check_roundtrip(&a, s("bad"), None), RoundtripOutcome::Unparsable { .. }));
}

#[test]
fn text_helpers() {
    assert!(contains_text("abc wrong number of arguments", "wrong number"));
    assert!(!contains_text("abc", "abcd"));
    assert!(contains_text("abc", ""));
    assert_eq!(join(&vec![s("a"), s("b"), s("c")], ", "), "a, b, c");
    assert_eq!(join(&vec![], ", "), "");
}

#[test]
fn settings_profiles() {
    let t = type_directed_settings();
    assert_eq!((t.max_depth, t.max_width), (3, 3));
    assert!(t.match_types && !t.enable_unknowns);
    let r = schema_roundtrip_settings();
    assert_eq!(r.max_width, 7);
    assert!(!r.match_types && !r.enable_action_groups_and_attrs);
}

fn hints() -> StepHints {
    StepHints {
        schema: (1, Some(10)),
        hierarchy: (2, Some(20)),
        policy: (3, Some(30)),
        policy_groups: (0, None),
        target_type: (5, Some(50)),
        expression: (6, Some(60)),
        request: (4, Some(40)),
        entities: (0, Some(0)),
    }
}

#[test]
fn size_hint_sums_the_draws() {
    assert_eq!(size_hint(ScenarioKind::AbacTypeDirected, &hints()), (38, Some(380)));
    assert_eq!(size_hint(ScenarioKind::EvalTypeDirected, &hints()), (46, Some(460)));
    assert_eq!(size_hint(ScenarioKind::SchemaRoundtrip, &hints()), (1, Some(10)));
    assert_eq!(plan_hint_list(ScenarioKind::Rbac, &hints()).len(), 10);
}

#[test]
fn size_hint_unbounded_draw_is_unbounded() {
    assert_eq!(size_hint(ScenarioKind::Rbac, &hints()), (34, None));
}

#[test]
fn record_escapes_backspace_and_form_feed() {
    let mut r = sample_record();
    r.status_reason = s("x\u{8}y\u{c}z\"q");
    assert!(r.to_line().contains("\"status_reason\":\"x\\by\\fz\\\"q\""));
}

#[test]
fn link_bindings_must_name_hierarchy_entities() {
    let slots = [SlotKind::Principal];
    let mut l = link("t0_l0", "p0", &slots);
    l.bindings[0].entity = s("User::\"mallory\"");
    assert!(PolicyGroup::assemble(&alice_only(), 0, policy("p0", slots.to_vec()), vec![l]).is_err());
    let ok = link("t0_l0", "p0", &slots);
    assert!(PolicyGroup::assemble(&alice_only(), 0, policy("p0", slots.to_vec()), vec![ok]).is_ok());
}

#[test]
fn roundtrip_outcomes_become_trial_statuses() {
    let t = roundtrip_trial(&RoundtripOutcome::Equivalent);
    assert_eq!(t.status, Status::Passed);
    assert_eq!(t.phase, Phase::Done);
    let t = roundtrip_trial(&RoundtripOutcome::Unparsable { text: s("x") });
    assert_eq!(t.status, Status::Failed);
    assert_eq!(t.status_reason, "round-tripped schema does not parse");
    let a = fragment(vec![]);
    let t = roundtrip_trial(&RoundtripOutcome::Mismatch { text: s("x"), reparsed: a.clone() });
    assert_eq!(t.status_reason, "round-tripped schema differs");
    let judged = judge_roundtrip(&a, None);
    assert!(matches!(judged, RoundtripOutcome::Unwritable));
    assert_eq!(roundtrip_trial(&judged).status, Status::Failed);
    assert!(matches!(judge_roundtrip(&a, Some((s("t"), Some(a.clone())))), RoundtripOutcome::Equivalent));
}

#[test]
fn eval_representation_is_exact() {
    let reqs = vec![request("User::\"a\"", "User::\"b\""), request("U::\"c\"", "U::\"d\"")];
    let r = eval_representation("namespace N {}", "[]", "1 + 1", &reqs);
    assert_eq!(
        r,
        "{\"schema\":\"namespace N {}\",\"entities\":\"[]\",\"expression\":\"1 + 1\",\"requests\":[\
{\"principal\":\"User::\\\"a\\\"\",\"action\":\"Action::\\\"view\\\"\",\"resource\":\"User::\\\"b\\\"\",\"context\":\"{}\"},\
{\"principal\":\"U::\\\"c\\\"\",\"action\":\"Action::\\\"view\\\"\",\"resource\":\"U::\\\"d\\\"\",\"context\":\"{}\"}]}"
    );
    let parsed: serde_json::Value = serde_json::from_str(&r).unwrap();
    assert_eq!(parsed["requests"][1]["resource"], "U::\"d\"");
    assert_eq!(eval_representation("s", "e", "x", &vec![]), "{\"schema\":\"s\",\"entities\":\"e\",\"expression\":\"x\",\"requests\":[]}");
}
