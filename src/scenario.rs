//! The scenario model: what one trial is made of, with its well-formedness.
use vstd::prelude::*;
use crate::ids::{
    lemma_link_ids_distinct, lemma_policy_ids_distinct, lemma_policy_link_ids_distinct, link_id,
    link_id_spec, policy_id, policy_id_spec,
};
use crate::settings::{MAX_LINKS, MAX_POLICY_GROUPS, MIN_LINKS, MIN_POLICY_GROUPS, REQUESTS_PER_SCENARIO};

verus! {

/// Why assembling a scenario stopped.
#[derive(Clone, Copy, Debug, PartialEq, Eq, Structural)]
pub enum GenerationFailure {
    /// The byte buffer ran out before every draw was made.
    NotEnoughData,
    /// A generated part broke a constraint of the scenario.
    ConstraintViolation,
}

/// A slot of a template, bound by each link.
#[derive(Clone, Copy, Debug, PartialEq, Eq, Structural)]
pub enum SlotKind {
    Principal,
    Resource,
}

/// A generated policy or template: its identifier, its unbound slots and its
/// textual form.
#[derive(Clone, Debug)]
pub struct GenPolicy {
    pub id: String,
    pub slots: Vec<SlotKind>,
    pub text: String,
}

/// A concrete entity for one slot of a template.
#[derive(Clone, Debug)]
pub struct SlotBinding {
    pub slot: SlotKind,
    pub entity: String,
}

/// A link of a template: its own identifier, the template's identifier and a
/// binding for each slot.
#[derive(Clone, Debug)]
pub struct GenLink {
    pub id: String,
    pub template_id: String,
    pub bindings: Vec<SlotBinding>,
}

/// One group of a generated policy set.
#[derive(Clone, Debug)]
pub enum PolicyGroup {
    StaticPolicy(GenPolicy),
    TemplateWithLinks { template: GenPolicy, links: Vec<GenLink> },
}

/// One request: principal, action, resource (entity identifiers in textual
/// form) and context.
#[derive(Clone, Debug)]
pub struct GenRequest {
    pub principal: String,
    pub action: String,
    pub resource: String,
    pub context: String,
}

/// `link` binds `slot`.
pub open spec fn binds(link: GenLink, slot: SlotKind) -> bool {
    exists|j: int| 0 <= j < link.bindings@.len() && (#[trigger] link.bindings@[j]).slot == slot
}

/// `link` binds every slot of `template`.
pub open spec fn binds_all_slots(link: GenLink, template: GenPolicy) -> bool {
    forall|i: int| 0 <= i < template.slots@.len() ==> binds(link, #[trigger] template.slots@[i])
}

/// The policy or template of a group.
pub open spec fn group_policy(g: PolicyGroup) -> GenPolicy {
    match g {
        PolicyGroup::StaticPolicy(p) => p,
        PolicyGroup::TemplateWithLinks { template, .. } => template,
    }
}

/// The links of a group (none for a static policy).
pub open spec fn group_links(g: PolicyGroup) -> Seq<GenLink> {
    match g {
        PolicyGroup::StaticPolicy(_) => Seq::empty(),
        PolicyGroup::TemplateWithLinks { links, .. } => links@,
    }
}

/// Every binding of `link` names an entity of `hierarchy`.
pub open spec fn bindings_in(hierarchy: Seq<String>, link: GenLink) -> bool {
    forall|j: int| 0 <= j < link.bindings@.len() ==> in_hierarchy(hierarchy, (#[trigger] link.bindings@[j]).entity@)
}

/// Link `k` of a template at group index `group` is well formed.
pub open spec fn link_wf(hierarchy: Seq<String>, group: nat, k: int, template: GenPolicy, link: GenLink) -> bool {
    &&& link.id@ == link_id_spec(group, k as nat)
    &&& link.template_id@ == template.id@
    &&& binds_all_slots(link, template)
    &&& bindings_in(hierarchy, link)
}

/// A template at group index `group` has one to four links, each well formed.
pub open spec fn links_wf(hierarchy: Seq<String>, group: nat, template: GenPolicy, links: Seq<GenLink>) -> bool {
    &&& MIN_LINKS <= links.len() <= MAX_LINKS
    &&& forall|k: int| 0 <= k < links.len() ==> link_wf(hierarchy, group, k, template, #[trigger] links[k])
}

/// The group at index `group` is well formed: a policy without slots is
/// static, a template carries between one and four links that each bind
/// every slot, and identifiers follow the group and link indices.
pub open spec fn group_wf(hierarchy: Seq<String>, group: nat, g: PolicyGroup) -> bool {
    match g {
        PolicyGroup::StaticPolicy(p) => {
            &&& p.id@ == policy_id_spec(group)
            &&& p.slots@.len() == 0
        },
        PolicyGroup::TemplateWithLinks { template, links } => {
            &&& template.id@ == policy_id_spec(group)
            &&& template.slots@.len() > 0
            &&& links_wf(hierarchy, group, template, links@)
        },
    }
}

/// Every group of `groups` is well formed at its index.
pub open spec fn groups_wf(hierarchy: Seq<String>, groups: Seq<PolicyGroup>) -> bool {
    &&& MIN_POLICY_GROUPS <= groups.len() <= MAX_POLICY_GROUPS
    &&& forall|i: int| 0 <= i < groups.len() ==> group_wf(hierarchy, i as nat, #[trigger] groups[i])
}

/// `uid` is the identifier of an entity of `hierarchy`.
pub open spec fn in_hierarchy(hierarchy: Seq<String>, uid: Seq<char>) -> bool {
    exists|i: int| 0 <= i < hierarchy.len() && (#[trigger] hierarchy[i])@ == uid
}

/// Every request names a principal and a resource of `hierarchy`.
pub open spec fn requests_wf(hierarchy: Seq<String>, requests: Seq<GenRequest>) -> bool {
    &&& requests.len() == REQUESTS_PER_SCENARIO
    &&& forall|i: int| 0 <= i < requests.len() ==> {
        &&& in_hierarchy(hierarchy, (#[trigger] requests[i]).principal@)
        &&& in_hierarchy(hierarchy, requests[i].resource@)
    }
}

fn has_slot_binding(link: &GenLink, slot: SlotKind) -> (r: bool)
    ensures
        r == binds(*link, slot),
{
    let mut j: usize = 0;
    while j < link.bindings.len()
        invariant
            j <= link.bindings@.len(),
            forall|m: int| 0 <= m < j ==> (#[trigger] link.bindings@[m]).slot != slot,
        decreases link.bindings@.len() - j,
    {
        if link.bindings[j].slot == slot {
            return true;
        }
        j += 1;
    }
    false
}

/// Tells whether `link` binds every slot of `template`.
pub fn link_binds_all_slots(link: &GenLink, template: &GenPolicy) -> (r: bool)
    ensures
        r == binds_all_slots(*link, *template),
{
    let mut i: usize = 0;
    while i < template.slots.len()
        invariant
            i <= template.slots@.len(),
            forall|m: int| 0 <= m < i ==> binds(*link, #[trigger] template.slots@[m]),
        decreases template.slots@.len() - i,
    {
        if !has_slot_binding(link, template.slots[i]) {
            return false;
        }
        i += 1;
    }
    true
}

impl PolicyGroup {
    /// Builds the group at index `group` from a generated policy and the links
    /// drawn for it. A policy without slots becomes a static policy (its links
    /// are ignored); a template needs one to four links, each with the
    /// identifier of its index, naming the template and binding every slot,
    /// to entities of `hierarchy` only.
    pub fn assemble(
        hierarchy: &Vec<String>,
        group: usize,
        policy: GenPolicy,
        links: Vec<GenLink>,
    ) -> (r: Result<PolicyGroup, GenerationFailure>)
        ensures
            match r {
                Ok(g) => group_wf(hierarchy@, group as nat, g) && group_policy(g) == policy
                    && (policy.slots@.len() > 0 ==> group_links(g) == links@),
                Err(e) => e == GenerationFailure::ConstraintViolation,
            },
            r is Ok <==> {
                &&& policy.id@ == policy_id_spec(group as nat)
                &&& (policy.slots@.len() > 0 ==> links_wf(hierarchy@, group as nat, policy, links@))
            },
    {
        let expected = policy_id(group);
        if !(policy.id == expected) {
            return Err(GenerationFailure::ConstraintViolation);
        }
        if policy.slots.len() == 0 {
            return Ok(PolicyGroup::StaticPolicy(policy));
        }
        if !check_links(hierarchy, group, &policy, &links) {
            return Err(GenerationFailure::ConstraintViolation);
        }
        Ok(PolicyGroup::TemplateWithLinks { template: policy, links })
    }
}

/// What distinguishes each kind of scenario.
#[derive(Clone, Debug)]
pub enum ScenarioBody {
    /// A single attribute-based policy over a generated schema.
    AbacTypeDirected { schema: String, policy: GenPolicy },
    /// A single expression generated to match a target type.
    EvalTypeDirected { schema: String, expression: String },
    /// A role-based policy set made of policy groups.
    Rbac { policy_groups: Vec<PolicyGroup> },
}

/// One complete trial: the entity hierarchy (identifiers in textual form),
/// the distinguishing part, the request batch and the time spent generating.
#[derive(Clone, Debug)]
pub struct Scenario {
    pub hierarchy: Vec<String>,
    pub body: ScenarioBody,
    pub requests: Vec<GenRequest>,
    pub gen_time_nanos: u64,
}

pub open spec fn body_wf(hierarchy: Seq<String>, body: ScenarioBody) -> bool {
    match body {
        ScenarioBody::AbacTypeDirected { policy, .. } => policy.slots@.len() == 0,
        ScenarioBody::EvalTypeDirected { .. } => true,
        ScenarioBody::Rbac { policy_groups } => groups_wf(hierarchy, policy_groups@),
    }
}

impl Scenario {
    pub open spec fn wf(self) -> bool {
        &&& requests_wf(self.hierarchy@, self.requests@)
        &&& body_wf(self.hierarchy@, self.body)
    }
}

/// Tells whether `uid` names an entity of `hierarchy`.
pub fn contains_uid(hierarchy: &Vec<String>, uid: &String) -> (r: bool)
    ensures
        r == in_hierarchy(hierarchy@, uid@),
{
    let mut i: usize = 0;
    while i < hierarchy.len()
        invariant
            i <= hierarchy@.len(),
            forall|m: int| 0 <= m < i ==> (#[trigger] hierarchy@[m])@ != uid@,
        decreases hierarchy@.len() - i,
    {
        if hierarchy[i] == *uid {
            return true;
        }
        i += 1;
    }
    false
}

/// Tells whether the batch has the expected size and every request names a
/// principal and a resource of `hierarchy`.
pub fn check_requests(hierarchy: &Vec<String>, requests: &Vec<GenRequest>) -> (r: bool)
    ensures
        r == requests_wf(hierarchy@, requests@),
{
    if requests.len() != REQUESTS_PER_SCENARIO {
        return false;
    }
    let mut i: usize = 0;
    while i < requests.len()
        invariant
            i <= requests@.len(),
            requests@.len() == REQUESTS_PER_SCENARIO,
            forall|m: int| 0 <= m < i ==> {
                &&& in_hierarchy(hierarchy@, (#[trigger] requests@[m]).principal@)
                &&& in_hierarchy(hierarchy@, requests@[m].resource@)
            },
        decreases requests@.len() - i,
    {
        if !contains_uid(hierarchy, &requests[i].principal)
            || !contains_uid(hierarchy, &requests[i].resource) {
            assert(!requests_wf(hierarchy@, requests@)) by {
                let q = requests@[i as int];
                assert(!(in_hierarchy(hierarchy@, q.principal@) && in_hierarchy(hierarchy@, q.resource@)));
            }
            return false;
        }
        i += 1;
    }
    true
}

/// Tells whether `groups` is a well-formed sequence of policy groups.
pub fn check_groups(hierarchy: &Vec<String>, groups: &Vec<PolicyGroup>) -> (r: bool)
    ensures
        r == groups_wf(hierarchy@, groups@),
{
    if groups.len() < MIN_POLICY_GROUPS || groups.len() > MAX_POLICY_GROUPS {
        return false;
    }
    let mut i: usize = 0;
    let mut ok = true;
    while i < groups.len()
        invariant
            i <= groups@.len(),
            MIN_POLICY_GROUPS <= groups@.len() <= MAX_POLICY_GROUPS,
            ok ==> forall|m: int| 0 <= m < i ==> group_wf(hierarchy@, m as nat, #[trigger] groups@[m]),
            !ok ==> !groups_wf(hierarchy@, groups@),
        decreases groups@.len() - i,
    {
        if ok && !check_group(hierarchy, i, &groups[i]) {
            ok = false;
        }
        i += 1;
    }
    ok
}

fn check_body(hierarchy: &Vec<String>, body: &ScenarioBody) -> (r: bool)
    ensures
        r == body_wf(hierarchy@, *body),
{
    match body {
        ScenarioBody::AbacTypeDirected { policy, .. } => policy.slots.len() == 0,
        ScenarioBody::EvalTypeDirected { .. } => true,
        ScenarioBody::Rbac { policy_groups } => check_groups(hierarchy, policy_groups),
    }
}

/// Tells whether every binding of `link` names an entity of `hierarchy`.
pub fn bindings_in_hierarchy(hierarchy: &Vec<String>, link: &GenLink) -> (r: bool)
    ensures
        r == bindings_in(hierarchy@, *link),
{
    let mut j: usize = 0;
    while j < link.bindings.len()
        invariant
            j <= link.bindings@.len(),
            forall|m: int| 0 <= m < j ==> in_hierarchy(hierarchy@, (#[trigger] link.bindings@[m]).entity@),
        decreases link.bindings@.len() - j,
    {
        if !contains_uid(hierarchy, &link.bindings[j].entity) {
            return false;
        }
        j += 1;
    }
    true
}

fn check_links(hierarchy: &Vec<String>, group: usize, template: &GenPolicy, links: &Vec<GenLink>) -> (r: bool)
    ensures
        r == links_wf(hierarchy@, group as nat, *template, links@),
{
    if links.len() < MIN_LINKS || links.len() > MAX_LINKS {
        return false;
    }
    let mut k: usize = 0;
    let mut ok = true;
    while k < links.len()
        invariant
            k <= links@.len(),
            MIN_LINKS <= links@.len() <= MAX_LINKS,
            ok ==> forall|m: int| 0 <= m < k ==> link_wf(hierarchy@, group as nat, m, *template, #[trigger] links@[m]),
            !ok ==> !links_wf(hierarchy@, group as nat, *template, links@),
        decreases links@.len() - k,
    {
        let lid = link_id(group, k);
        if ok && (!(links[k].id == lid) || !(links[k].template_id == template.id)
            || !link_binds_all_slots(&links[k], template) || !bindings_in_hierarchy(hierarchy, &links[k])) {
            assert(!link_wf(hierarchy@, group as nat, k as int, *template, links@[k as int]));
            ok = false;
        }
        k += 1;
    }
    ok
}

/// Tells whether `g` is well formed at index `group`.
pub fn check_group(hierarchy: &Vec<String>, group: usize, g: &PolicyGroup) -> (r: bool)
    ensures
        r == group_wf(hierarchy@, group as nat, *g),
{
    let expected = policy_id(group);
    match g {
        PolicyGroup::StaticPolicy(p) => p.id == expected && p.slots.len() == 0,
        PolicyGroup::TemplateWithLinks { template, links } => {
            template.id == expected && template.slots.len() > 0 && check_links(hierarchy, group, template, links)
        },
    }
}

impl Scenario {
    /// Puts a scenario together from its generated parts. It is accepted
    /// exactly when the batch holds the expected number of requests, each
    /// naming entities of the hierarchy, and the distinguishing part is well
    /// formed; otherwise the generated parts broke a constraint.
    pub fn assemble(
        hierarchy: Vec<String>,
        body: ScenarioBody,
        requests: Vec<GenRequest>,
        gen_time_nanos: u64,
    ) -> (r: Result<Scenario, GenerationFailure>)
        ensures
            r is Ok <==> requests_wf(hierarchy@, requests@) && body_wf(hierarchy@, body),
            match r {
                Ok(s) => {
                    &&& s.wf()
                    &&& s.hierarchy == hierarchy
                    &&& s.body == body
                    &&& s.requests == requests
                    &&& s.gen_time_nanos == gen_time_nanos
                },
                Err(e) => e == GenerationFailure::ConstraintViolation,
            },
    {
        if !check_requests(&hierarchy, &requests) || !check_body(&hierarchy, &body) {
            return Err(GenerationFailure::ConstraintViolation);
        }
        Ok(Scenario { hierarchy, body, requests, gen_time_nanos })
    }
}

/// Some request of `requests` names `uid` as its principal or its resource.
pub open spec fn referenced(requests: Seq<GenRequest>, uid: Seq<char>) -> bool {
    exists|j: int| 0 <= j < requests.len()
        && ((#[trigger] requests[j]).principal@ == uid || requests[j].resource@ == uid)
}

/// The entities of `hierarchy` that stay after dropping: those whose `keep`
/// flag is set and those that some request names, in hierarchy order.
pub open spec fn retained(hierarchy: Seq<String>, keep: Seq<bool>, requests: Seq<GenRequest>) -> Seq<String>
    decreases hierarchy.len(),
{
    if hierarchy.len() == 0 || keep.len() == 0 {
        Seq::empty()
    } else {
        let rest = retained(hierarchy.drop_last(), keep.drop_last(), requests);
        if keep.last() || referenced(requests, hierarchy.last()@) {
            rest.push(hierarchy.last())
        } else {
            rest
        }
    }
}

fn is_referenced(requests: &Vec<GenRequest>, uid: &String) -> (r: bool)
    ensures
        r == referenced(requests@, uid@),
{
    let mut j: usize = 0;
    while j < requests.len()
        invariant
            j <= requests@.len(),
            forall|m: int| 0 <= m < j ==> (#[trigger] requests@[m]).principal@ != uid@
                && requests@[m].resource@ != uid@,
        decreases requests@.len() - j,
    {
        if requests[j].principal == *uid || requests[j].resource == *uid {
            return true;
        }
        j += 1;
    }
    false
}

/// Drops the entities whose `keep` flag is clear, except those that a request
/// names.
pub fn drop_entities(hierarchy: &Vec<String>, keep: &Vec<bool>, requests: &Vec<GenRequest>) -> (r: Vec<String>)
    requires
        keep@.len() == hierarchy@.len(),
    ensures
        r@ == retained(hierarchy@, keep@, requests@),
{
    let mut out: Vec<String> = Vec::new();
    let mut i: usize = 0;
    while i < hierarchy.len()
        invariant
            i <= hierarchy@.len(),
            keep@.len() == hierarchy@.len(),
            out@ == retained(hierarchy@.take(i as int), keep@.take(i as int), requests@),
        decreases hierarchy@.len() - i,
    {
        assert(hierarchy@.take(i + 1).drop_last() =~= hierarchy@.take(i as int));
        assert(keep@.take(i + 1).drop_last() =~= keep@.take(i as int));
        if keep[i] || is_referenced(requests, &hierarchy[i]) {
            out.push(hierarchy[i].clone());
        }
        i += 1;
    }
    assert(hierarchy@.take(i as int) =~= hierarchy@);
    assert(keep@.take(i as int) =~= keep@);
    out
}

/// Every assembled scenario carries exactly eight requests, and each
/// request's principal and resource are entities of the scenario's hierarchy.
pub proof fn lemma_requests_in_hierarchy(s: Scenario)
    requires
        s.wf(),
    ensures
        s.requests@.len() == 8,
        forall|i: int| 0 <= i < s.requests@.len() ==> {
            &&& in_hierarchy(s.hierarchy@, (#[trigger] s.requests@[i]).principal@)
            &&& in_hierarchy(s.hierarchy@, s.requests@[i].resource@)
        },
{
}

/// Every template group of an assembled scenario has between one and four
/// links, and each link binds every slot of its template, to entities of the
/// scenario's hierarchy only.
pub proof fn lemma_template_links(s: Scenario, i: int)
    requires
        s.wf(),
        s.body is Rbac,
        0 <= i < s.body->policy_groups@.len(),
        s.body->policy_groups@[i] is TemplateWithLinks,
    ensures
        ({
            let g = s.body->policy_groups@[i];
            &&& group_policy(g).slots@.len() > 0
            &&& 1 <= group_links(g).len() <= 4
            &&& forall|k: int| 0 <= k < group_links(g).len()
                ==> binds_all_slots(#[trigger] group_links(g)[k], group_policy(g))
            &&& forall|k: int| 0 <= k < group_links(g).len()
                ==> bindings_in(s.hierarchy@, #[trigger] group_links(g)[k])
        }),
{
    let g = s.body->policy_groups@[i];
    assert(group_wf(s.hierarchy@, i as nat, g));
    assert forall|k: int| 0 <= k < group_links(g).len()
        implies binds_all_slots(#[trigger] group_links(g)[k], group_policy(g))
            && bindings_in(s.hierarchy@, group_links(g)[k]) by {
        assert(link_wf(s.hierarchy@, i as nat, k, group_policy(g), group_links(g)[k]));
    }
}

/// In a well-formed policy set no two policies, templates or links share an
/// identifier. Identifiers depend on group and link indices alone, so the
/// same holds of every trial.
pub proof fn lemma_identifiers_unique(hierarchy: Seq<String>, groups: Seq<PolicyGroup>)
    requires
        groups_wf(hierarchy, groups),
    ensures
        forall|i: int, j: int| 0 <= i < groups.len() && 0 <= j < groups.len() && i != j
            ==> (#[trigger] group_policy(groups[i])).id@ != (#[trigger] group_policy(groups[j])).id@,
        forall|i: int, j: int, k: int| 0 <= i < groups.len() && 0 <= j < groups.len()
            && 0 <= k < group_links(groups[j]).len()
            ==> (#[trigger] group_policy(groups[i])).id@ != (#[trigger] group_links(groups[j])[k]).id@,
        forall|i: int, k: int, j: int, m: int| 0 <= i < groups.len() && 0 <= j < groups.len()
            && 0 <= k < group_links(groups[i]).len() && 0 <= m < group_links(groups[j]).len()
            && (i != j || k != m)
            ==> (#[trigger] group_links(groups[i])[k]).id@ != (#[trigger] group_links(groups[j])[m]).id@,
{
    assert forall|i: int, j: int| 0 <= i < groups.len() && 0 <= j < groups.len() && i != j
        implies (#[trigger] group_policy(groups[i])).id@ != (#[trigger] group_policy(groups[j])).id@ by {
        assert(group_wf(hierarchy, i as nat, groups[i]));
        assert(group_wf(hierarchy, j as nat, groups[j]));
        lemma_policy_ids_distinct(i as nat, j as nat);
    }
    assert forall|i: int, j: int, k: int| 0 <= i < groups.len() && 0 <= j < groups.len()
        && 0 <= k < group_links(groups[j]).len()
        implies (#[trigger] group_policy(groups[i])).id@ != (#[trigger] group_links(groups[j])[k]).id@ by {
        assert(group_wf(hierarchy, i as nat, groups[i]));
        assert(group_wf(hierarchy, j as nat, groups[j]));
        assert(link_wf(hierarchy, j as nat, k, group_policy(groups[j]), group_links(groups[j])[k]));
        lemma_policy_link_ids_distinct(i as nat, j as nat, k as nat);
    }
    assert forall|i: int, k: int, j: int, m: int| 0 <= i < groups.len() && 0 <= j < groups.len()
        && 0 <= k < group_links(groups[i]).len() && 0 <= m < group_links(groups[j]).len()
        && (i != j || k != m)
        implies (#[trigger] group_links(groups[i])[k]).id@ != (#[trigger] group_links(groups[j])[m]).id@ by {
        assert(group_wf(hierarchy, i as nat, groups[i]));
        assert(group_wf(hierarchy, j as nat, groups[j]));
        assert(link_wf(hierarchy, i as nat, k, group_policy(groups[i]), group_links(groups[i])[k]));
        assert(link_wf(hierarchy, j as nat, m, group_policy(groups[j]), group_links(groups[j])[m]));
        lemma_link_ids_distinct(i as nat, k as nat, j as nat, m as nat);
    }
}

/// Dropping entities never drops one that a request names: a well-formed
/// request batch stays well formed against what is retained.
pub proof fn lemma_drop_keeps_requests(hierarchy: Seq<String>, keep: Seq<bool>, requests: Seq<GenRequest>)
    requires
        keep.len() == hierarchy.len(),
        requests_wf(hierarchy, requests),
    ensures
        requests_wf(retained(hierarchy, keep, requests), requests),
{
    assert forall|u: Seq<char>| in_hierarchy(hierarchy, u) && referenced(requests, u)
        implies in_hierarchy(retained(hierarchy, keep, requests), u) by {
        lemma_retained_contains(hierarchy, keep, requests, u);
    }
    assert forall|i: int| 0 <= i < requests.len() implies {
        &&& in_hierarchy(retained(hierarchy, keep, requests), (#[trigger] requests[i]).principal@)
        &&& in_hierarchy(retained(hierarchy, keep, requests), requests[i].resource@)
    } by {
        assert(referenced(requests, requests[i].principal@));
        assert(referenced(requests, requests[i].resource@));
    }
}

proof fn lemma_retained_contains(hierarchy: Seq<String>, keep: Seq<bool>, requests: Seq<GenRequest>, u: Seq<char>)
    requires
        keep.len() == hierarchy.len(),
        in_hierarchy(hierarchy, u),
        referenced(requests, u),
    ensures
        in_hierarchy(retained(hierarchy, keep, requests), u),
    decreases hierarchy.len(),
{
    let r = retained(hierarchy, keep, requests);
    let rest = retained(hierarchy.drop_last(), keep.drop_last(), requests);
    if hierarchy.last()@ == u {
        assert(r == rest.push(hierarchy.last()));
        assert(r[r.len() - 1]@ == u);
    } else {
        let i = choose|i: int| 0 <= i < hierarchy.len() && (#[trigger] hierarchy[i])@ == u;
        assert(i < hierarchy.len() - 1);
        assert(hierarchy.drop_last()[i]@ == u);
        lemma_retained_contains(hierarchy.drop_last(), keep.drop_last(), requests, u);
        let j = choose|j: int| 0 <= j < rest.len() && (#[trigger] rest[j])@ == u;
        if keep.last() || referenced(requests, hierarchy.last()@) {
            assert(r[j] == rest[j]);
        }
    }
}

} // verus!
