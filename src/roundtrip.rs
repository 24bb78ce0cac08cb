//! The schema equivalence check behind the round trip through the alternate
//! textual syntax.
use vstd::prelude::*;
use cedar_policy_validator::SchemaFragment;
use crate::assemble::ScenarioKind;
use crate::runner::{Phase, Status, Trial};
use crate::text::{same_string_set, same_strings};

verus! {

/// One declaration of a schema fragment (entity type, action or common
/// type): its name, the parts whose order matters in a canonical textual
/// form, and the lists whose order does not (parents, principal and
/// resource types).
#[derive(Clone, Debug)]
pub struct Decl {
    pub name: String,
    pub body: String,
    pub sets: Vec<Vec<String>>,
}

/// A schema fragment of one namespace.
#[derive(Clone, Debug)]
pub struct FragmentModel {
    pub namespace: String,
    pub entity_types: Vec<Decl>,
    pub actions: Vec<Decl>,
    pub common_types: Vec<Decl>,
}

/// Two declarations agree field by field, unordered lists as sets.
#[verifier::opaque]
pub open spec fn decl_equiv(a: Decl, b: Decl) -> bool {
    &&& a.name@ == b.name@
    &&& a.body@ == b.body@
    &&& a.sets@.len() == b.sets@.len()
    &&& forall|k: int| 0 <= k < a.sets@.len() ==> same_strings(#[trigger] a.sets@[k]@, b.sets@[k]@)
}

/// Some declaration of `b` is equivalent to `d`.
#[verifier::opaque]
pub open spec fn has_equiv(d: Decl, b: Seq<Decl>) -> bool {
    exists|j: int| 0 <= j < b.len() && decl_equiv(d, #[trigger] b[j])
}

/// Some declaration of `a` is equivalent to `d`.
#[verifier::opaque]
pub open spec fn has_equiv_in(a: Seq<Decl>, d: Decl) -> bool {
    exists|i: int| 0 <= i < a.len() && decl_equiv(#[trigger] a[i], d)
}

/// Two declaration lists agree, order aside.
pub open spec fn decls_equiv(a: Seq<Decl>, b: Seq<Decl>) -> bool {
    &&& a.len() == b.len()
    &&& forall|i: int| 0 <= i < a.len() ==> has_equiv(#[trigger] a[i], b)
    &&& forall|j: int| 0 <= j < b.len() ==> has_equiv_in(a, #[trigger] b[j])
}

/// Two fragments are structurally equal.
pub open spec fn fragment_equiv(a: FragmentModel, b: FragmentModel) -> bool {
    &&& a.namespace@ == b.namespace@
    &&& decls_equiv(a.entity_types@, b.entity_types@)
    &&& decls_equiv(a.actions@, b.actions@)
    &&& decls_equiv(a.common_types@, b.common_types@)
}

/// Tells whether two declarations agree field by field.
pub fn decl_matches(a: &Decl, b: &Decl) -> (r: bool)
    ensures
        r == decl_equiv(*a, *b),
{
    reveal(decl_equiv);
    if !(a.name == b.name) || !(a.body == b.body) || a.sets.len() != b.sets.len() {
        return false;
    }
    let mut k: usize = 0;
    while k < a.sets.len()
        invariant
            k <= a.sets@.len(),
            a.sets@.len() == b.sets@.len(),
            forall|m: int| 0 <= m < k ==> same_strings(#[trigger] a.sets@[m]@, b.sets@[m]@),
        decreases a.sets@.len() - k,
    {
        proof { reveal(decl_equiv); }
        if !same_string_set(&a.sets[k], &b.sets[k]) {
            return false;
        }
        k += 1;
    }
    true
}

fn has_match(d: &Decl, b: &Vec<Decl>) -> (r: bool)
    ensures
        r == has_equiv(*d, b@),
{
    proof { reveal(has_equiv); }
    let mut j: usize = 0;
    while j < b.len()
        invariant
            j <= b@.len(),
            forall|m: int| 0 <= m < j ==> !decl_equiv(*d, #[trigger] b@[m]),
        decreases b@.len() - j,
    {
        if decl_matches(d, &b[j]) {
            proof { reveal(has_equiv); }
            return true;
        }
        j += 1;
    }
    false
}

fn has_match_rev(b: &Vec<Decl>, d: &Decl) -> (r: bool)
    ensures
        r == has_equiv_in(b@, *d),
{
    proof { reveal(has_equiv_in); }
    let mut i: usize = 0;
    while i < b.len()
        invariant
            i <= b@.len(),
            forall|m: int| 0 <= m < i ==> !decl_equiv(#[trigger] b@[m], *d),
        decreases b@.len() - i,
    {
        if decl_matches(&b[i], d) {
            proof { reveal(has_equiv_in); }
            return true;
        }
        i += 1;
    }
    false
}

/// Tells whether two declaration lists agree, order aside.
pub fn decls_match(a: &Vec<Decl>, b: &Vec<Decl>) -> (r: bool)
    ensures
        r == decls_equiv(a@, b@),
{
    if a.len() != b.len() {
        return false;
    }
    let mut i: usize = 0;
    while i < a.len()
        invariant
            i <= a@.len(),
            a@.len() == b@.len(),
            forall|m: int| 0 <= m < i ==> has_equiv(#[trigger] a@[m], b@),
        decreases a@.len() - i,
    {
        if !has_match(&a[i], b) {
            return false;
        }
        i += 1;
    }
    let mut j: usize = 0;
    while j < b.len()
        invariant
            j <= b@.len(),
            a@.len() == b@.len(),
            forall|i: int| 0 <= i < a@.len() ==> has_equiv(#[trigger] a@[i], b@),
            forall|m: int| 0 <= m < j ==> has_equiv_in(a@, #[trigger] b@[m]),
        decreases b@.len() - j,
    {
        if !has_match_rev(a, &b[j]) {
            return false;
        }
        j += 1;
    }
    true
}

/// Tells whether two fragments are structurally equal.
pub fn fragments_match(a: &FragmentModel, b: &FragmentModel) -> (r: bool)
    ensures
        r == fragment_equiv(*a, *b),
{
    a.namespace == b.namespace && decls_match(&a.entity_types, &b.entity_types)
        && decls_match(&a.actions, &b.actions) && decls_match(&a.common_types, &b.common_types)
}

/// Outcome of the round trip of a schema through its alternate syntax.
#[derive(Clone, Debug)]
pub enum RoundtripOutcome {
    Equivalent,
    /// The fragment could not be written in the alternate syntax.
    Unwritable,
    /// The text did not parse back.
    Unparsable { text: String },
    /// The text parsed back into a different fragment.
    Mismatch { text: String, reparsed: FragmentModel },
}

/// Judges a round trip: `text` is the schema written in the alternate
/// syntax and `reparsed` what parsing it gave back, if it parsed. The round
/// trip holds exactly when the text parsed back into a fragment equal to
/// the generated one; otherwise the outcome carries the text and, where it
/// parsed, the fragment it gave, to set against the generated one.
pub fn check_roundtrip(generated: &FragmentModel, text: String, reparsed: Option<FragmentModel>) -> (r: RoundtripOutcome)
    ensures
        (r is Equivalent) <==> (reparsed is Some && fragment_equiv(*generated, reparsed->0)),
        reparsed is None ==> r == (RoundtripOutcome::Unparsable { text }),
        reparsed is Some && !fragment_equiv(*generated, reparsed->0) ==>
            r == (RoundtripOutcome::Mismatch { text, reparsed: reparsed->0 }),
{
    match reparsed {
        None => RoundtripOutcome::Unparsable { text },
        Some(p) => {
            if fragments_match(generated, &p) {
                RoundtripOutcome::Equivalent
            } else {
                RoundtripOutcome::Mismatch { text, reparsed: p }
            }
        },
    }
}

/// Whether a fragment can be written in the alternate syntax.
pub uninterp spec fn natural_writable(f: SchemaFragment) -> bool;

/// Whether a text parses as a schema in the alternate syntax.
pub uninterp spec fn natural_parses(text: Seq<char>) -> bool;

/// Relies on `SchemaFragment::as_natural_schema`: the fragment written in the
/// alternate (human-readable) syntax, or `None` where it cannot be written.
/// Whether it can is fixed by the fragment; the text itself follows the
/// order of hash maps.
#[verifier::external_body]
fn natural_text(fragment: &SchemaFragment) -> (r: Option<String>)
    ensures
        r is Some <==> natural_writable(*fragment),
{
    fragment.as_natural_schema().ok()
}

/// Relies on `SchemaFragment::from_str_natural`: the fragment that a text in
/// the alternate syntax describes (warnings dropped), or `None` where it does
/// not parse.
#[verifier::external_body]
fn parse_natural(text: &str) -> (r: Option<SchemaFragment>)
    ensures
        r is Some <==> natural_parses(text@),
{
    SchemaFragment::from_str_natural(text).ok().map(|(f, _)| f)
}

/// Writes a fragment in the alternate syntax and parses that text back: the
/// text and the fragment it gave, if it parsed; `None` where the fragment
/// cannot be written.
pub fn write_and_reparse(fragment: &SchemaFragment) -> (r: Option<(String, Option<SchemaFragment>)>)
    ensures
        r is Some <==> natural_writable(*fragment),
        r is Some ==> ((r->0).1 is Some <==> natural_parses((r->0).0@)),
{
    match natural_text(fragment) {
        None => None,
        Some(text) => {
            let reparsed = parse_natural(text.as_str());
            Some((text, reparsed))
        },
    }
}

/// Judges a round trip as `write_and_reparse` reports it, with the models of
/// the fragments: one that cannot be written is `Unwritable`; otherwise as
/// `check_roundtrip`.
pub fn judge_roundtrip(generated: &FragmentModel, written: Option<(String, Option<FragmentModel>)>) -> (r: RoundtripOutcome)
    ensures
        written is None ==> r is Unwritable,
        written is Some ==> {
            let (text, reparsed) = written->0;
            &&& (r is Equivalent) <==> (reparsed is Some && fragment_equiv(*generated, reparsed->0))
            &&& reparsed is None ==> r == (RoundtripOutcome::Unparsable { text })
            &&& reparsed is Some && !fragment_equiv(*generated, reparsed->0) ==>
                r == (RoundtripOutcome::Mismatch { text, reparsed: reparsed->0 })
        },
{
    match written {
        None => RoundtripOutcome::Unwritable,
        Some((text, reparsed)) => check_roundtrip(generated, text, reparsed),
    }
}

/// Status reason of a fragment that cannot be written in the alternate syntax.
pub const ROUNDTRIP_UNWRITABLE: &'static str = "schema cannot be written in the alternate syntax";

/// Status reason of a round-tripped text that does not parse.
pub const ROUNDTRIP_UNPARSABLE: &'static str = "round-tripped schema does not parse";

/// Status reason of a round trip that changed the fragment.
pub const ROUNDTRIP_MISMATCH: &'static str = "round-tripped schema differs";

/// The status reason of a round-trip outcome.
pub open spec fn roundtrip_reason(o: RoundtripOutcome) -> Seq<char> {
    match o {
        RoundtripOutcome::Equivalent => Seq::empty(),
        RoundtripOutcome::Unwritable => ROUNDTRIP_UNWRITABLE@,
        RoundtripOutcome::Unparsable { .. } => ROUNDTRIP_UNPARSABLE@,
        RoundtripOutcome::Mismatch { .. } => ROUNDTRIP_MISMATCH@,
    }
}

/// The trial of a round trip: `passed` when it held, else `failed` with the
/// reason that says how it broke.
pub fn roundtrip_trial(outcome: &RoundtripOutcome) -> (t: Trial)
    ensures
        t.wf(),
        t.kind == ScenarioKind::SchemaRoundtrip,
        t.phase == Phase::Done,
        t.status == (if outcome is Equivalent { Status::Passed } else { Status::Failed }),
        t.status_reason@ == roundtrip_reason(*outcome),
        t.executed == 0,
        t.total_errors == 0,
        t.validation_errors == 0,
{
    let mut t = Trial::start(ScenarioKind::SchemaRoundtrip);
    t.schema_converted(true);
    match outcome {
        RoundtripOutcome::Equivalent => {},
        RoundtripOutcome::Unwritable => {
            t.status = Status::Failed;
            t.status_reason = String::from_str(ROUNDTRIP_UNWRITABLE);
        },
        RoundtripOutcome::Unparsable { .. } => {
            t.status = Status::Failed;
            t.status_reason = String::from_str(ROUNDTRIP_UNPARSABLE);
        },
        RoundtripOutcome::Mismatch { .. } => {
            t.status = Status::Failed;
            t.status_reason = String::from_str(ROUNDTRIP_MISMATCH);
        },
    }
    t
}

/// Structural equality of fragments is reflexive: a round trip that gives
/// back the very fragment it started from is judged equivalent.
pub proof fn lemma_fragment_equiv_reflexive(f: FragmentModel)
    ensures
        fragment_equiv(f, f),
{
    lemma_decls_equiv_reflexive(f.entity_types@);
    lemma_decls_equiv_reflexive(f.actions@);
    lemma_decls_equiv_reflexive(f.common_types@);
}

/// Structural equality of fragments is symmetric.
pub proof fn lemma_fragment_equiv_symmetric(a: FragmentModel, b: FragmentModel)
    requires
        fragment_equiv(a, b),
    ensures
        fragment_equiv(b, a),
{
    lemma_decls_equiv_symmetric(a.entity_types@, b.entity_types@);
    lemma_decls_equiv_symmetric(a.actions@, b.actions@);
    lemma_decls_equiv_symmetric(a.common_types@, b.common_types@);
}

proof fn lemma_decl_equiv_reflexive(d: Decl)
    ensures
        decl_equiv(d, d),
{
    reveal(decl_equiv);
    assert forall|k: int| 0 <= k < d.sets@.len() implies same_strings(#[trigger] d.sets@[k]@, d.sets@[k]@) by {
        let v = d.sets@[k]@;
        assert forall|i: int| 0 <= i < v.len() implies crate::text::holds_string(v, (#[trigger] v[i])@) by {}
    }
}

proof fn lemma_decl_equiv_symmetric(a: Decl, b: Decl)
    requires
        decl_equiv(a, b),
    ensures
        decl_equiv(b, a),
{
    reveal(decl_equiv);
    assert forall|k: int| 0 <= k < b.sets@.len() implies same_strings(#[trigger] b.sets@[k]@, a.sets@[k]@) by {
        assert(same_strings(a.sets@[k]@, b.sets@[k]@));
    }
}

proof fn lemma_decls_equiv_reflexive(a: Seq<Decl>)
    ensures
        decls_equiv(a, a),
{
    reveal(has_equiv);
    reveal(has_equiv_in);
    assert forall|i: int| 0 <= i < a.len() implies has_equiv(#[trigger] a[i], a) by {
        lemma_decl_equiv_reflexive(a[i]);
    }
    assert forall|j: int| 0 <= j < a.len() implies has_equiv_in(a, #[trigger] a[j]) by {
        lemma_decl_equiv_reflexive(a[j]);
    }
}

proof fn lemma_flip_in(a: Seq<Decl>, d: Decl)
    requires
        has_equiv_in(a, d),
    ensures
        has_equiv(d, a),
{
    reveal(has_equiv);
    reveal(has_equiv_in);
    let k = choose|k: int| 0 <= k < a.len() && decl_equiv(#[trigger] a[k], d);
    lemma_decl_equiv_symmetric(a[k], d);
}

proof fn lemma_flip(d: Decl, b: Seq<Decl>)
    requires
        has_equiv(d, b),
    ensures
        has_equiv_in(b, d),
{
    reveal(has_equiv);
    reveal(has_equiv_in);
    let k = choose|k: int| 0 <= k < b.len() && decl_equiv(d, #[trigger] b[k]);
    lemma_decl_equiv_symmetric(d, b[k]);
}

proof fn lemma_decls_equiv_symmetric(a: Seq<Decl>, b: Seq<Decl>)
    requires
        decls_equiv(a, b),
    ensures
        decls_equiv(b, a),
{
    assert forall|i: int| 0 <= i < b.len() implies has_equiv(#[trigger] b[i], a) by {
        lemma_flip_in(a, b[i]);
    }
    assert forall|j: int| 0 <= j < a.len() implies has_equiv_in(b, #[trigger] a[j]) by {
        lemma_flip(a[j], b);
    }
}

} // verus!
