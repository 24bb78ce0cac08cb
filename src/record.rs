//! Observability records: one JSON object per line for each trial.
use vstd::prelude::*;
use crate::assemble::ScenarioKind;
use crate::ids::{decimal, decimal_string};
use crate::runner::{Status, Trial};
use crate::scenario::GenRequest;
use crate::text::joined;

verus! {

/// Nanoseconds in one second.
pub const NANOS_PER_SEC: u64 = 1_000_000_000;

/// A named scalar summary statistic of a trial.
#[derive(Clone, Debug)]
pub struct Feature {
    pub name: String,
    pub value: u64,
}

/// Everything a record line carries. Timings are in nanoseconds and are
/// written as fractional seconds.
#[derive(Clone, Debug)]
pub struct TrialRecord {
    pub representation: String,
    pub property: String,
    pub status: Status,
    pub status_reason: String,
    pub features: Vec<Feature>,
    pub generate_nanos: u64,
    pub execute_nanos: u64,
}

/// The name under which a status is written.
pub open spec fn status_text(s: Status) -> Seq<char> {
    match s {
        Status::Passed => "passed"@,
        Status::Failed => "failed"@,
        Status::GaveUp => "gave_up"@,
    }
}

/// The name under which a status is written: `passed`, `failed` or `gave_up`.
pub fn status_name(s: Status) -> (r: &'static str)
    ensures
        r@ == status_text(s),
{
    match s {
        Status::Passed => "passed",
        Status::Failed => "failed",
        Status::GaveUp => "gave_up",
    }
}

/// The property name of a scenario kind.
pub open spec fn property_text(kind: ScenarioKind) -> Seq<char> {
    match kind {
        ScenarioKind::AbacTypeDirected => "abac-type-directed"@,
        ScenarioKind::EvalTypeDirected => "eval-type-directed"@,
        ScenarioKind::Rbac => "rbac"@,
        ScenarioKind::SchemaRoundtrip => "schema-roundtrip"@,
    }
}

/// The property name under which trials of `kind` are recorded.
pub fn property_name(kind: ScenarioKind) -> (r: &'static str)
    ensures
        r@ == property_text(kind),
{
    match kind {
        ScenarioKind::AbacTypeDirected => "abac-type-directed",
        ScenarioKind::EvalTypeDirected => "eval-type-directed",
        ScenarioKind::Rbac => "rbac",
        ScenarioKind::SchemaRoundtrip => "schema-roundtrip",
    }
}

/// A lower-case hexadecimal digit.
pub open spec fn hex_char(d: nat) -> char {
    if d < 10 {
        crate::ids::digit_char(d)
    } else if d == 10 { 'a' }
    else if d == 11 { 'b' }
    else if d == 12 { 'c' }
    else if d == 13 { 'd' }
    else if d == 14 { 'e' }
    else { 'f' }
}

/// How one character is written inside a JSON string.
pub open spec fn escape_char(c: char) -> Seq<char> {
    if c == '"' {
        seq!['\\', '"']
    } else if c == '\\' {
        seq!['\\', '\\']
    } else if c == '\u{8}' {
        seq!['\\', 'b']
    } else if c == '\u{c}' {
        seq!['\\', 'f']
    } else if c == '\n' {
        seq!['\\', 'n']
    } else if c == '\r' {
        seq!['\\', 'r']
    } else if c == '\t' {
        seq!['\\', 't']
    } else if (c as u32) < 0x20 {
        seq!['\\', 'u', '0', '0', hex_char((c as u32 / 16) as nat), hex_char((c as u32 % 16) as nat)]
    } else {
        seq![c]
    }
}

/// The characters of `s`, escaped for a JSON string.
pub open spec fn json_escape(s: Seq<char>) -> Seq<char>
    decreases s.len(),
{
    if s.len() == 0 {
        Seq::empty()
    } else {
        json_escape(s.drop_last()) + escape_char(s.last())
    }
}

/// `s` as a JSON string literal.
pub open spec fn json_string(s: Seq<char>) -> Seq<char> {
    seq!['"'] + json_escape(s) + seq!['"']
}

/// Nine-digit zero-padded rendering of a fraction of a second.
pub open spec fn pad9(digits: Seq<char>) -> Seq<char> {
    Seq::new((9 - digits.len()) as nat, |i: int| '0') + digits
}

/// `nanos` written as seconds with nine decimals.
pub open spec fn seconds_text(nanos: nat) -> Seq<char> {
    decimal(nanos / 1_000_000_000) + seq!['.'] + pad9(decimal(nanos % 1_000_000_000))
}

/// One feature as a JSON member.
pub open spec fn feature_text(f: Feature) -> Seq<char> {
    json_string(f.name@) + seq![':'] + decimal(f.value as nat)
}

/// The features as a JSON object.
pub open spec fn features_text(fs: Seq<Feature>) -> Seq<char> {
    seq!['{'] + joined(fs.map_values(|f: Feature| feature_text(f)), seq![',']) + seq!['}']
}

/// Every member of a record line but the timing.
pub open spec fn record_body(r: TrialRecord) -> Seq<char> {
    "{\"representation\":"@ + json_string(r.representation@)
        + ",\"property\":"@ + json_string(r.property@)
        + ",\"status\":"@ + json_string(status_text(r.status))
        + ",\"status_reason\":"@ + json_string(r.status_reason@)
        + ",\"features\":"@ + features_text(r.features@)
}

/// The timing member of a record line.
pub open spec fn timing_text(generate_nanos: nat, execute_nanos: nat) -> Seq<char> {
    ",\"timing\":{\"generate\":"@ + seconds_text(generate_nanos)
        + ",\"execute\":"@ + seconds_text(execute_nanos) + "}}"@
}

/// The line written for a record.
pub open spec fn record_line(r: TrialRecord) -> Seq<char> {
    record_body(r) + timing_text(r.generate_nanos as nat, r.execute_nanos as nat)
}

/// Relies on `serde_json::to_string` applied to a string slice: it writes the
/// string as a JSON string literal, escaping `"` and `\`, writing `\b`,
/// `\t`, `\n`, `\f` and `\r` for those control characters and `\u00xx`
/// (lower-case hexadecimal) for the other characters below U+0020, and
/// copying every other character unchanged. Serialising into memory does not
/// fail.
#[verifier::external_body]
fn quote_json(s: &str) -> (r: String)
    ensures
        r@ == json_string(s@),
{
    serde_json::to_string(s).unwrap_or_default()
}

/// Appends `s` to `out` as a JSON string literal.
pub fn append_json_string(out: &mut String, s: &str)
    ensures
        final(out)@ == old(out)@ + json_string(s@),
{
    let quoted = quote_json(s);
    out.append(quoted.as_str());
}

/// Writes `nanos` as seconds with nine decimals.
pub fn seconds_string(nanos: u64) -> (r: String)
    ensures
        r@ == seconds_text(nanos as nat),
{
    let mut out = decimal_string(nanos / NANOS_PER_SEC);
    proof { reveal_strlit("."); reveal_strlit("0"); }
    out.append(".");
    let frac = decimal_string(nanos % NANOS_PER_SEC);
    let ghost d = frac@;
    assert(d.len() <= 9) by {
        crate::ids::lemma_decimal_len((nanos % NANOS_PER_SEC) as nat);
    }
    let len = frac.unicode_len();
    let mut k: usize = len;
    let ghost base = out@;
    while k < 9
        invariant
            len == d.len(),
            len <= k <= 9,
            out@ == base + Seq::new((k - len) as nat, |i: int| '0'),
        decreases 9 - k,
    {
        let ghost prev = out@;
        proof { reveal_strlit("0"); }
        out.append("0");
        assert(out@ == prev + seq!['0']);
        assert(Seq::new((k + 1 - len) as nat, |i: int| '0') =~= Seq::new((k - len) as nat, |i: int| '0').push('0'));
        assert(out@ =~= base + Seq::new((k + 1 - len) as nat, |i: int| '0'));
        k += 1;
    }
    out.append(frac.as_str());
    assert(out@ =~= seconds_text(nanos as nat));
    out
}

/// Writes the features as a JSON object.
pub fn features_string(fs: &Vec<Feature>) -> (r: String)
    ensures
        r@ == features_text(fs@),
{
    let ghost items = fs@.map_values(|f: Feature| feature_text(f));
    proof { reveal_strlit("{"); reveal_strlit("}"); reveal_strlit(","); reveal_strlit(":"); }
    let mut out = String::from_str("{");
    let mut i: usize = 0;
    while i < fs.len()
        invariant
            i <= fs@.len(),
            items == fs@.map_values(|f: Feature| feature_text(f)),
            out@ == seq!['{'] + joined(items.take(i as int), seq![',']),
        decreases fs@.len() - i,
    {
        assert(items.take(i + 1).drop_last() =~= items.take(i as int));
        let ghost before = out@;
        proof { reveal_strlit(","); reveal_strlit(":"); }
        if i > 0 {
            out.append(",");
        }
        append_json_string(&mut out, fs[i].name.as_str());
        out.append(":");
        let v = decimal_string(fs[i].value);
        out.append(v.as_str());
        assert(items[i as int] == feature_text(fs@[i as int]));
        assert(items.take(i + 1).last() == items[i as int]);
        if i == 0 {
            assert(items.take(1) =~= seq![items[0]]);
            assert(out@ =~= seq!['{'] + items[0]);
        } else {
            assert(out@ =~= seq!['{'] + joined(items.take(i as int), seq![',']) + seq![','] + items[i as int]);
        }
        assert(out@ =~= seq!['{'] + joined(items.take(i + 1), seq![',']));
        i += 1;
    }
    assert(items.take(i as int) =~= items);
    out.append("}");
    assert(out@ =~= features_text(fs@));
    out
}

/// One request as a JSON object of its four fields.
pub open spec fn request_text(q: GenRequest) -> Seq<char> {
    "{\"principal\":"@ + json_string(q.principal@) + ",\"action\":"@ + json_string(q.action@)
        + ",\"resource\":"@ + json_string(q.resource@) + ",\"context\":"@ + json_string(q.context@) + "}"@
}

/// The representation of an expression scenario: a JSON object with the
/// schema, entities and expression texts and the requests.
pub open spec fn eval_representation_text(
    schema: Seq<char>,
    entities: Seq<char>,
    expression: Seq<char>,
    requests: Seq<GenRequest>,
) -> Seq<char> {
    "{\"schema\":"@ + json_string(schema) + ",\"entities\":"@ + json_string(entities)
        + ",\"expression\":"@ + json_string(expression) + ",\"requests\":["@
        + joined(requests.map_values(|q: GenRequest| request_text(q)), seq![',']) + "]}"@
}

fn request_string(q: &GenRequest) -> (r: String)
    ensures
        r@ == request_text(*q),
{
    let mut out = String::from_str("{\"principal\":");
    append_json_string(&mut out, q.principal.as_str());
    out.append(",\"action\":");
    append_json_string(&mut out, q.action.as_str());
    out.append(",\"resource\":");
    append_json_string(&mut out, q.resource.as_str());
    out.append(",\"context\":");
    append_json_string(&mut out, q.context.as_str());
    out.append("}");
    assert(out@ =~= request_text(*q));
    out
}

/// Writes the representation of an expression scenario, from which it can be
/// replayed by hand.
pub fn eval_representation(schema: &str, entities: &str, expression: &str, requests: &Vec<GenRequest>) -> (r: String)
    ensures
        r@ == eval_representation_text(schema@, entities@, expression@, requests@),
{
    let ghost items = requests@.map_values(|q: GenRequest| request_text(q));
    let mut out = String::from_str("{\"schema\":");
    append_json_string(&mut out, schema);
    out.append(",\"entities\":");
    append_json_string(&mut out, entities);
    out.append(",\"expression\":");
    append_json_string(&mut out, expression);
    out.append(",\"requests\":[");
    let ghost head = out@;
    let mut i: usize = 0;
    while i < requests.len()
        invariant
            i <= requests@.len(),
            items == requests@.map_values(|q: GenRequest| request_text(q)),
            out@ == head + joined(items.take(i as int), seq![',']),
        decreases requests@.len() - i,
    {
        assert(items.take(i + 1).drop_last() =~= items.take(i as int));
        proof { reveal_strlit(","); }
        if i > 0 {
            out.append(",");
        }
        let q = request_string(&requests[i]);
        out.append(q.as_str());
        assert(items[i as int] == request_text(requests@[i as int]));
        assert(items.take(i + 1).last() == items[i as int]);
        if i == 0 {
            assert(items.take(1) =~= seq![items[0]]);
            assert(out@ =~= head + items[0]);
        } else {
            assert(out@ =~= head + joined(items.take(i as int), seq![',']) + seq![','] + items[i as int]);
        }
        assert(out@ =~= head + joined(items.take(i + 1), seq![',']));
        i += 1;
    }
    assert(items.take(i as int) =~= items);
    out.append("]}");
    assert(out@ =~= eval_representation_text(schema@, entities@, expression@, requests@));
    out
}

impl TrialRecord {
    /// The record of a finished trial: its representation and features, the
    /// trial's status and reason, the kind's property name, and the counts
    /// that the trial gathered appended to the features where the kind
    /// validates.
    pub fn from_trial(
        trial: &Trial,
        representation: String,
        features: Vec<Feature>,
        generate_nanos: u64,
        execute_nanos: u64,
    ) -> (r: TrialRecord)
        ensures
            r.representation == representation,
            r.property@ == property_text(trial.kind),
            r.status == trial.status,
            r.status_reason@ == trial.status_reason@,
            trial.kind == ScenarioKind::AbacTypeDirected ==> {
                let n = features@.len() as int;
                &&& r.features@.len() == n + 2
                &&& r.features@.take(n) == features@
                &&& r.features@[n].name@ == "validation_errors"@
                &&& r.features@[n].value == trial.validation_errors
                &&& r.features@[n + 1].name@ == "total_auth_errors"@
                &&& r.features@[n + 1].value == trial.total_errors
            },
            trial.kind != ScenarioKind::AbacTypeDirected ==> r.features@ == features@,
            r.generate_nanos == generate_nanos,
            r.execute_nanos == execute_nanos,
    {
        let mut features = features;
        let ghost given = features@;
        if trial.kind == ScenarioKind::AbacTypeDirected {
            features.push(Feature { name: String::from_str("validation_errors"), value: trial.validation_errors });
            features.push(Feature { name: String::from_str("total_auth_errors"), value: trial.total_errors });
            assert(features@.take(given.len() as int) =~= given);
        }
        TrialRecord {
            representation,
            property: String::from_str(property_name(trial.kind)),
            status: trial.status,
            status_reason: trial.status_reason.clone(),
            features,
            generate_nanos,
            execute_nanos,
        }
    }

    /// The record as one line of JSON (without the line break).
    pub fn to_line(&self) -> (r: String)
        ensures
            r@ == record_line(*self),
    {
        let mut out = String::from_str("{\"representation\":");
        append_json_string(&mut out, self.representation.as_str());
        out.append(",\"property\":");
        append_json_string(&mut out, self.property.as_str());
        out.append(",\"status\":");
        append_json_string(&mut out, status_name(self.status));
        out.append(",\"status_reason\":");
        append_json_string(&mut out, self.status_reason.as_str());
        out.append(",\"features\":");
        let f = features_string(&self.features);
        out.append(f.as_str());
        out.append(",\"timing\":{\"generate\":");
        let g = seconds_string(self.generate_nanos);
        out.append(g.as_str());
        out.append(",\"execute\":");
        let e = seconds_string(self.execute_nanos);
        out.append(e.as_str());
        out.append("}}");
        assert(out@ =~= record_line(*self));
        out
    }
}

/// Two records with the same content but for timing give lines that agree
/// up to the timing member; records with the same content give the same line.
pub proof fn lemma_line_deterministic(a: TrialRecord, b: TrialRecord)
    requires
        a.representation@ == b.representation@,
        a.property@ == b.property@,
        a.status == b.status,
        a.status_reason@ == b.status_reason@,
        a.features@ == b.features@,
    ensures
        record_body(a) == record_body(b),
        a.generate_nanos == b.generate_nanos && a.execute_nanos == b.execute_nanos
            ==> record_line(a) == record_line(b),
{
}

} // verus!
