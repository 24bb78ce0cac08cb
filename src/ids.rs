//! Deterministic identifiers for generated policies, templates and links.
use vstd::prelude::*;

verus! {

/// The character for a decimal digit.
pub open spec fn digit_char(d: nat) -> char {
    if d == 0 { '0' }
    else if d == 1 { '1' }
    else if d == 2 { '2' }
    else if d == 3 { '3' }
    else if d == 4 { '4' }
    else if d == 5 { '5' }
    else if d == 6 { '6' }
    else if d == 7 { '7' }
    else if d == 8 { '8' }
    else { '9' }
}

/// The value of a decimal digit character.
pub open spec fn digit_value(c: char) -> nat {
    if c == '1' { 1 }
    else if c == '2' { 2 }
    else if c == '3' { 3 }
    else if c == '4' { 4 }
    else if c == '5' { 5 }
    else if c == '6' { 6 }
    else if c == '7' { 7 }
    else if c == '8' { 8 }
    else if c == '9' { 9 }
    else { 0 }
}

pub open spec fn is_digit(c: char) -> bool {
    '0' <= c && c <= '9'
}

/// The shortest decimal rendering of `n`.
pub open spec fn decimal(n: nat) -> Seq<char>
    decreases n,
{
    if n < 10 {
        seq![digit_char(n)]
    } else {
        decimal(n / 10).push(digit_char(n % 10))
    }
}

/// Reads a sequence of decimal digits back as a number.
pub open spec fn parse_decimal(s: Seq<char>) -> nat
    decreases s.len(),
{
    if s.len() == 0 {
        0
    } else {
        parse_decimal(s.drop_last()) * 10 + digit_value(s.last())
    }
}

/// Identifier of the policy (or template) of the policy group at `group`.
pub open spec fn policy_id_spec(group: nat) -> Seq<char> {
    seq!['p'] + decimal(group)
}

/// Identifier of link `link` of the template of the policy group at `group`.
pub open spec fn link_id_spec(group: nat, link: nat) -> Seq<char> {
    seq!['t'] + decimal(group) + seq!['_', 'l'] + decimal(link)
}

pub proof fn lemma_decimal_digits(n: nat)
    ensures
        decimal(n).len() >= 1,
        forall|i: int| 0 <= i < decimal(n).len() ==> is_digit(#[trigger] decimal(n)[i]),
        parse_decimal(decimal(n)) == n,
    decreases n,
{
    let s = decimal(n);
    if n >= 10 {
        lemma_decimal_digits(n / 10);
        assert(s.drop_last() =~= decimal(n / 10));
        assert(digit_value(digit_char(n % 10)) == n % 10);
        assert(s.last() == digit_char(n % 10));
        assert(parse_decimal(s) == parse_decimal(s.drop_last()) * 10 + digit_value(s.last()));
        assert(n == (n / 10) * 10 + n % 10);
    } else {
        assert(s.drop_last() =~= Seq::<char>::empty());
        assert(digit_value(digit_char(n)) == n);
        assert(parse_decimal(s) == parse_decimal(s.drop_last()) * 10 + digit_value(s.last()));
    }
}

/// Numbers below `10^k` have at most `k` digits; here for `k == 9`.
pub proof fn lemma_decimal_len(n: nat)
    requires
        n < 1_000_000_000,
    ensures
        decimal(n).len() <= 9,
{
    assert(pow10(0) == 1);
    assert(pow10(1) == 10);
    assert(pow10(2) == 100);
    assert(pow10(3) == 1000);
    assert(pow10(4) == 10000);
    assert(pow10(5) == 100000);
    assert(pow10(6) == 1000000);
    assert(pow10(7) == 10000000);
    assert(pow10(8) == 100000000);
    assert(pow10(9) == 1000000000);
    lemma_decimal_len_bound(n, 9);
}

proof fn lemma_decimal_len_bound(n: nat, k: nat)
    requires
        n < pow10(k),
        k >= 1,
    ensures
        decimal(n).len() <= k,
    decreases k,
{
    if n >= 10 {
        assert(n / 10 < pow10((k - 1) as nat)) by {
            assert(pow10(k) == 10 * pow10((k - 1) as nat));
        }
        if k == 1 {
            assert(pow10(1) == 10 * pow10(0));
        } else {
            lemma_decimal_len_bound(n / 10, (k - 1) as nat);
        }
    }
}

/// `10^k`.
pub open spec fn pow10(k: nat) -> nat
    decreases k,
{
    if k == 0 { 1 } else { 10 * pow10((k - 1) as nat) }
}

pub proof fn lemma_decimal_injective(a: nat, b: nat)
    requires
        decimal(a) == decimal(b),
    ensures
        a == b,
{
    lemma_decimal_digits(a);
    lemma_decimal_digits(b);
}

/// Policy identifiers of two distinct groups differ.
pub proof fn lemma_policy_ids_distinct(g1: nat, g2: nat)
    requires
        g1 != g2,
    ensures
        policy_id_spec(g1) != policy_id_spec(g2),
{
    if policy_id_spec(g1) == policy_id_spec(g2) {
        assert(decimal(g1) =~= policy_id_spec(g1).subrange(1, policy_id_spec(g1).len() as int));
        assert(decimal(g2) =~= policy_id_spec(g2).subrange(1, policy_id_spec(g2).len() as int));
        lemma_decimal_injective(g1, g2);
    }
}

/// A policy identifier never equals a link identifier.
pub proof fn lemma_policy_link_ids_distinct(g1: nat, g2: nat, l: nat)
    ensures
        policy_id_spec(g1) != link_id_spec(g2, l),
{
    assert(policy_id_spec(g1)[0] == 'p');
    assert(link_id_spec(g2, l)[0] == 't');
}

/// Link identifiers are distinct for distinct (group, link) pairs.
pub proof fn lemma_link_ids_distinct(g1: nat, l1: nat, g2: nat, l2: nat)
    requires
        g1 != g2 || l1 != l2,
    ensures
        link_id_spec(g1, l1) != link_id_spec(g2, l2),
{
    if link_id_spec(g1, l1) == link_id_spec(g2, l2) {
        let s = link_id_spec(g1, l1);
        let t = link_id_spec(g2, l2);
        let d1 = decimal(g1);
        let d2 = decimal(g2);
        let n1 = d1.len() as int;
        let n2 = d2.len() as int;
        lemma_decimal_digits(g1);
        lemma_decimal_digits(g2);
        if n1 < n2 {
            assert(s[1 + n1] == '_');
            assert(t[1 + n1] == d2[n1]);
            assert(is_digit(d2[n1]));
        } else if n2 < n1 {
            assert(t[1 + n2] == '_');
            assert(s[1 + n2] == d1[n2]);
            assert(is_digit(d1[n2]));
        } else {
            assert(d1 =~= s.subrange(1, 1 + n1));
            assert(d2 =~= t.subrange(1, 1 + n2));
            lemma_decimal_injective(g1, g2);
            assert(decimal(l1) =~= s.subrange(3 + n1, s.len() as int));
            assert(decimal(l2) =~= t.subrange(3 + n2, t.len() as int));
            lemma_decimal_injective(l1, l2);
        }
    }
}

fn digit_str(d: u64) -> (r: &'static str)
    requires
        d < 10,
    ensures
        r@ == seq![digit_char(d as nat)],
{
    proof {
        reveal_strlit("0");
        reveal_strlit("1");
        reveal_strlit("2");
        reveal_strlit("3");
        reveal_strlit("4");
        reveal_strlit("5");
        reveal_strlit("6");
        reveal_strlit("7");
        reveal_strlit("8");
        reveal_strlit("9");
    }
    if d == 0 { "0" }
    else if d == 1 { "1" }
    else if d == 2 { "2" }
    else if d == 3 { "3" }
    else if d == 4 { "4" }
    else if d == 5 { "5" }
    else if d == 6 { "6" }
    else if d == 7 { "7" }
    else if d == 8 { "8" }
    else { "9" }
}

/// Renders `n` in decimal.
pub fn decimal_string(n: u64) -> (r: String)
    ensures
        r@ == decimal(n as nat),
    decreases n,
{
    if n < 10 {
        String::from_str(digit_str(n))
    } else {
        let mut s = decimal_string(n / 10);
        s.append(digit_str(n % 10));
        s
    }
}

/// The identifier given to the policy or template of the policy group at
/// index `group`: `p` followed by the index.
pub fn policy_id(group: usize) -> (r: String)
    ensures
        r@ == policy_id_spec(group as nat),
{
    let mut s = String::from_str("p");
    proof { reveal_strlit("p"); }
    let d = decimal_string(group as u64);
    s.append(d.as_str());
    s
}

/// The identifier given to link `link` of the template of the policy group
/// at index `group`: `t<group>_l<link>`.
pub fn link_id(group: usize, link: usize) -> (r: String)
    ensures
        r@ == link_id_spec(group as nat, link as nat),
{
    let mut s = String::from_str("t");
    proof {
        reveal_strlit("t");
        reveal_strlit("_l");
    }
    let g = decimal_string(group as u64);
    s.append(g.as_str());
    s.append("_l");
    let l = decimal_string(link as u64);
    s.append(l.as_str());
    assert(s@ =~= link_id_spec(group as nat, link as nat));
    s
}

} // verus!
