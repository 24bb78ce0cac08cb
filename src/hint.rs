//! Size hints: how many bytes assembling a scenario may consume, summed over
//! its draws.
use vstd::prelude::*;
use crate::assemble::{plan_len, plan_step, Assembly, DrawStep, ScenarioKind};

verus! {

/// A size hint: the fewest bytes consumed, and the most, if bounded.
pub type SizeHint = (usize, Option<usize>);

/// Sum of the lower bounds.
pub open spec fn sum_lower(h: Seq<SizeHint>) -> int
    decreases h.len(),
{
    if h.len() == 0 { 0 } else { sum_lower(h.drop_last()) + h.last().0 }
}

/// Every hint has an upper bound.
pub open spec fn all_bounded(h: Seq<SizeHint>) -> bool {
    forall|i: int| 0 <= i < h.len() ==> (#[trigger] h[i]).1 is Some
}

/// Sum of the upper bounds that are present.
pub open spec fn sum_upper(h: Seq<SizeHint>) -> int
    decreases h.len(),
{
    if h.len() == 0 {
        0
    } else {
        sum_upper(h.drop_last()) + match h.last().1 {
            Some(u) => u as int,
            None => 0,
        }
    }
}

/// Relies on `arbitrary::size_hint::and_all`: it folds `and` over the hints
/// from `(0, Some(0))`, adding the lower bounds, and the upper bounds while
/// every one so far is present (`None` from the first absent one on). The
/// additions are plain `+`, hence the bounds on the sums.
#[verifier::external_body]
fn and_all(hints: &Vec<SizeHint>) -> (r: SizeHint)
    requires
        sum_lower(hints@) <= usize::MAX,
        sum_upper(hints@) <= usize::MAX,
    ensures
        r.0 == sum_lower(hints@),
        r.1 == (if all_bounded(hints@) { Some(sum_upper(hints@) as usize) } else { None }),
{
    arbitrary::size_hint::and_all(hints.as_slice())
}

/// The size hints of the external generators, one per kind of draw.
#[derive(Clone, Copy, Debug)]
pub struct StepHints {
    pub schema: SizeHint,
    pub hierarchy: SizeHint,
    pub policy: SizeHint,
    pub policy_groups: SizeHint,
    pub target_type: SizeHint,
    pub expression: SizeHint,
    pub request: SizeHint,
    pub entities: SizeHint,
}

/// The hint for one draw.
pub open spec fn step_hint(h: StepHints, step: DrawStep) -> SizeHint {
    match step {
        DrawStep::Schema => h.schema,
        DrawStep::Hierarchy => h.hierarchy,
        DrawStep::Policy => h.policy,
        DrawStep::PolicyGroups => h.policy_groups,
        DrawStep::TargetType => h.target_type,
        DrawStep::Expression => h.expression,
        DrawStep::Request => h.request,
        DrawStep::Entities => h.entities,
        DrawStep::Finished => (0, Some(0)),
    }
}

/// The hints of the draws of a kind, in order.
pub open spec fn plan_hints(kind: ScenarioKind, h: StepHints) -> Seq<SizeHint> {
    Seq::new(plan_len(kind), |i: int| step_hint(h, plan_step(kind, i as nat)))
}

fn step_hint_exec(h: &StepHints, step: DrawStep) -> (r: SizeHint)
    ensures
        r == step_hint(*h, step),
{
    match step {
        DrawStep::Schema => h.schema,
        DrawStep::Hierarchy => h.hierarchy,
        DrawStep::Policy => h.policy,
        DrawStep::PolicyGroups => h.policy_groups,
        DrawStep::TargetType => h.target_type,
        DrawStep::Expression => h.expression,
        DrawStep::Request => h.request,
        DrawStep::Entities => h.entities,
        DrawStep::Finished => (0, Some(0)),
    }
}

/// The hints of the draws of `kind`, in the order they are drawn.
pub fn plan_hint_list(kind: ScenarioKind, h: &StepHints) -> (r: Vec<SizeHint>)
    ensures
        r@ == plan_hints(kind, *h),
{
    let n = Assembly::plan_len_exec(kind);
    let mut a = Assembly::new(kind);
    let mut out: Vec<SizeHint> = Vec::new();
    while a.done < n
        invariant
            n == plan_len(kind),
            a.wf(),
            a.kind == kind,
            a.failure is None,
            out@.len() == a.done,
            forall|i: int| 0 <= i < a.done ==> out@[i] == #[trigger] step_hint(*h, plan_step(kind, i as nat)),
        decreases n - a.done,
    {
        let step = a.next_step();
        out.push(step_hint_exec(h, step));
        a.record(Ok(()));
    }
    assert(out@ =~= plan_hints(kind, *h));
    out
}

/// How many bytes assembling a scenario of `kind` may consume: the hints of
/// its draws summed, lower bounds and upper bounds apart; unbounded where
/// one draw is.
pub fn size_hint(kind: ScenarioKind, h: &StepHints) -> (r: SizeHint)
    requires
        sum_lower(plan_hints(kind, *h)) <= usize::MAX,
        sum_upper(plan_hints(kind, *h)) <= usize::MAX,
    ensures
        r.0 == sum_lower(plan_hints(kind, *h)),
        r.1 == (if all_bounded(plan_hints(kind, *h)) {
            Some(sum_upper(plan_hints(kind, *h)) as usize)
        } else {
            None
        }),
{
    let list = plan_hint_list(kind, h);
    and_all(&list)
}

} // verus!
