//! Text building blocks: characters, decimal numbers and the order of strings.

use vstd::prelude::*;
use vstd::string::*;

verus! {

/// `String::push` puts the character at the end.
pub assume_specification[ String::push ](s: &mut String, ch: char)
    ensures
        final(s)@ == old(s)@.push(ch),
;

/// The characters of a string.
pub fn chars_of(s: &str) -> (res: Vec<char>)
    ensures
        res@ == s@,
{
    let mut out: Vec<char> = Vec::new();
    for c in chars: s.chars()
        invariant
            chars.seq() == s@,
            out@ == s@.take(chars.index() as int),
    {
        out.push(c);
    }
    assert(s@.take(s@.len() as int) =~= s@);
    out
}

/// The character of a decimal digit.
pub open spec fn digit(d: nat) -> char {
    (48 + d) as char
}

/// `n` in decimal, without leading zeros.
pub open spec fn decimal_nat(n: nat) -> Seq<char>
    decreases n,
{
    if n < 10 {
        seq![digit(n)]
    } else {
        decimal_nat(n / 10).push(digit(n % 10))
    }
}

/// `n` in decimal, with a leading minus sign where it is negative.
pub open spec fn decimal(n: int) -> Seq<char> {
    if n < 0 {
        seq!['-'] + decimal_nat((-n) as nat)
    } else {
        decimal_nat(n as nat)
    }
}

/// Appends an unsigned number in decimal.
pub fn push_unsigned(out: &mut String, n: u64)
    ensures
        final(out)@ == old(out)@ + decimal(n as int),
    decreases n,
{
    if n >= 10 {
        push_unsigned(out, n / 10);
    }
    out.push((48u8 + (n % 10) as u8) as char);
    assert(out@ == old(out)@ + decimal(n as int));
}

/// Appends a signed number in decimal.
pub fn push_signed(out: &mut String, n: i64)
    ensures
        final(out)@ == old(out)@ + decimal(n as int),
{
    if n < 0 {
        out.push('-');
        let magnitude: u64 = (-(n + 1)) as u64 + 1;
        push_unsigned(out, magnitude);
        assert(out@ == old(out)@ + decimal(n as int));
    } else {
        push_unsigned(out, n as u64);
    }
}

/// Lexicographic order by code point: whether `a` stands before `b` or is equal to it.
pub open spec fn text_order(a: Seq<char>, b: Seq<char>) -> bool
    decreases a.len(),
{
    if a.len() == 0 {
        true
    } else if b.len() == 0 {
        false
    } else if a[0] != b[0] {
        a[0] < b[0]
    } else {
        text_order(a.drop_first(), b.drop_first())
    }
}

/// [`text_order`] as a relation.
pub open spec fn text_relation() -> spec_fn(Seq<char>, Seq<char>) -> bool {
    |a: Seq<char>, b: Seq<char>| text_order(a, b)
}

proof fn lemma_text_order_reflexive(a: Seq<char>)
    ensures
        text_order(a, a),
    decreases a.len(),
{
    if a.len() > 0 {
        lemma_text_order_reflexive(a.drop_first());
    }
}

proof fn lemma_text_order_antisymmetric(a: Seq<char>, b: Seq<char>)
    requires
        text_order(a, b),
        text_order(b, a),
    ensures
        a == b,
    decreases a.len(),
{
    if a.len() > 0 && b.len() > 0 {
        lemma_text_order_antisymmetric(a.drop_first(), b.drop_first());
        assert(a =~= seq![a[0]] + a.drop_first());
        assert(b =~= seq![b[0]] + b.drop_first());
    } else {
        assert(a =~= b);
    }
}

proof fn lemma_text_order_transitive(a: Seq<char>, b: Seq<char>, c: Seq<char>)
    requires
        text_order(a, b),
        text_order(b, c),
    ensures
        text_order(a, c),
    decreases a.len(),
{
    if a.len() > 0 && b.len() > 0 && c.len() > 0 && a[0] == b[0] && b[0] == c[0] {
        lemma_text_order_transitive(a.drop_first(), b.drop_first(), c.drop_first());
    }
}

proof fn lemma_text_order_total(a: Seq<char>, b: Seq<char>)
    ensures
        text_order(a, b) || text_order(b, a),
    decreases a.len(),
{
    if a.len() > 0 && b.len() > 0 && a[0] == b[0] {
        lemma_text_order_total(a.drop_first(), b.drop_first());
    }
}

/// [`text_order`] is a total order.
pub proof fn lemma_text_relation_is_total()
    ensures
        vstd::relations::total_ordering(text_relation()),
{
    let r = text_relation();
    assert forall|a: Seq<char>| #[trigger] r(a, a) by {
        lemma_text_order_reflexive(a);
    }
    assert forall|a: Seq<char>, b: Seq<char>| #[trigger] r(a, b) && #[trigger] r(b, a) implies a
        == b by {
        lemma_text_order_antisymmetric(a, b);
    }
    assert forall|a: Seq<char>, b: Seq<char>, c: Seq<char>| #[trigger] r(a, b) && #[trigger] r(
        b,
        c,
    ) implies r(a, c) by {
        lemma_text_order_transitive(a, b, c);
    }
    assert forall|a: Seq<char>, b: Seq<char>| #[trigger] r(a, b) || #[trigger] r(b, a) by {
        lemma_text_order_total(a, b);
    }
}

/// Whether `a` stands before `b`, or is equal to it, in lexicographic order.
pub fn stands_before(a: &str, b: &str) -> (res: bool)
    ensures
        res == text_order(a@, b@),
{
    let left = chars_of(a);
    let right = chars_of(b);
    let mut i: usize = 0;
    assert(a@.skip(0) =~= a@);
    assert(b@.skip(0) =~= b@);
    while i < left.len() && i < right.len() && left[i] == right[i]
        invariant
            left@ == a@,
            right@ == b@,
            i <= left.len(),
            i <= right.len(),
            text_order(a@.skip(i as int), b@.skip(i as int)) == text_order(a@, b@),
        decreases left.len() - i,
    {
        assert(a@.skip(i as int).drop_first() =~= a@.skip(i + 1));
        assert(b@.skip(i as int).drop_first() =~= b@.skip(i + 1));
        i += 1;
    }
    if i == left.len() {
        true
    } else if i == right.len() {
        false
    } else {
        left[i] < right[i]
    }
}

/// Puts a string into its place among sorted ones.
fn insert_sorted(texts: &mut Vec<String>, text: String)
    requires
        vstd::relations::sorted_by(old(texts).deep_view(), text_relation()),
    ensures
        vstd::relations::sorted_by(final(texts).deep_view(), text_relation()),
        final(texts).deep_view().to_multiset() == old(texts).deep_view().to_multiset().insert(
            text@,
        ),
{
    let ghost r = text_relation();
    let ghost before = texts.deep_view();
    let mut at: usize = texts.len();
    proof {
        lemma_text_relation_is_total();
    }
    while at > 0 && !stands_before(texts[at - 1].as_str(), text.as_str())
        invariant
            at <= texts.len(),
            r == text_relation(),
            before == texts.deep_view(),
            vstd::relations::total_ordering(r),
            forall|i: int| at <= i < before.len() ==> r(text@, #[trigger] before[i]),
        ensures
            at <= texts.len(),
            at > 0 ==> r(before[at - 1], text@),
            forall|i: int| at <= i < before.len() ==> r(text@, #[trigger] before[i]),
        decreases at,
    {
        assert(r(text@, before[at - 1]) || r(before[at - 1], text@));
        at -= 1;
    }
    let ghost value = text@;
    texts.insert(at, text);
    let ghost after = texts.deep_view();
    assert(after =~= before.insert(at as int, value));
    proof {
        vstd::seq_lib::to_multiset_insert(before, at as int, value);
        assert forall|i: int, j: int| 0 <= i < j < after.len() implies #[trigger] r(
            after[i],
            after[j],
        ) by {
            if i < at && j == at {
                if i < at - 1 {
                    assert(r(before[i], before[at - 1]));
                }
            } else if i == at {
                assert(after[j] == before[j - 1]);
            } else {
                let k = if i < at {
                    i
                } else {
                    i - 1
                };
                let l = if j < at {
                    j
                } else {
                    j - 1
                };
                assert(r(before[k], before[l]));
            }
        }
    }
}

/// Sorts strings into lexicographic order.
pub fn sorted(texts: Vec<String>) -> (res: Vec<String>)
    ensures
        res.deep_view() == texts.deep_view().sort_by(text_relation()),
{
    let ghost all = texts.deep_view();
    let ghost r = text_relation();
    let mut out: Vec<String> = Vec::with_capacity(texts.len());
    let ghost strings = texts@;
    assert(out.deep_view() =~= all.take(0));
    for text in it: texts
        invariant
            it.seq() == strings,
            strings.len() == all.len(),
            forall|i: int| 0 <= i < all.len() ==> all[i] == (#[trigger] strings[i])@,
            r == text_relation(),
            vstd::relations::sorted_by(out.deep_view(), r),
            out.deep_view().to_multiset() == all.take(it.index() as int).to_multiset(),
    {
        proof {
            let i = it.index();
            assert(all.take(i + 1) =~= all.take(i).push(all[i]));
            vstd::seq_lib::to_multiset_build(all.take(i), all[i]);
        }
        insert_sorted(&mut out, text);
    }
    proof {
        assert(all.take(all.len() as int) =~= all);
        lemma_text_relation_is_total();
        all.lemma_sort_by_ensures(r);
        vstd::seq_lib::lemma_sorted_unique(out.deep_view(), all.sort_by(r), r);
    }
    out
}

} // verus!
