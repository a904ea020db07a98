//! Texts in order: character by character, by code point.
use crate::text::{chars_of, texts};
use vstd::prelude::*;
use vstd::seq_lib::group_to_multiset_ensures;

verus! {

/// `a` stands before `b` or is the same text.
pub open spec fn text_le(a: Seq<char>, b: Seq<char>) -> bool
    decreases a.len(),
{
    if a.len() == 0 {
        true
    } else if b.len() == 0 {
        false
    } else if a[0] == b[0] {
        text_le(a.skip(1), b.skip(1))
    } else {
        a[0] < b[0]
    }
}

/// No text stands before an earlier one.
pub open spec fn in_order(list: Seq<Seq<char>>) -> bool {
    forall|i: int, j: int| 0 <= i <= j < list.len() ==> text_le(#[trigger] list[i], #[trigger] list[j])
}

proof fn lemma_text_le_reflexive(a: Seq<char>)
    ensures
        text_le(a, a),
    decreases a.len(),
{
    if a.len() > 0 {
        lemma_text_le_reflexive(a.skip(1));
    }
}

proof fn lemma_text_le_transitive(a: Seq<char>, b: Seq<char>, c: Seq<char>)
    requires
        text_le(a, b),
        text_le(b, c),
    ensures
        text_le(a, c),
    decreases a.len(),
{
    if a.len() > 0 && a[0] == b[0] && b[0] == c[0] {
        lemma_text_le_transitive(a.skip(1), b.skip(1), c.skip(1));
    }
}

proof fn lemma_text_le_total(a: Seq<char>, b: Seq<char>)
    ensures
        text_le(a, b) || text_le(b, a),
    decreases a.len(),
{
    if a.len() > 0 && b.len() > 0 && a[0] == b[0] {
        lemma_text_le_total(a.skip(1), b.skip(1));
    }
}

/// Whether `a` stands before `b` or is the same text.
pub fn stands_before(a: &str, b: &str) -> (r: bool)
    ensures
        r == text_le(a@, b@),
{
    let x: Vec<char> = chars_of(a);
    let y: Vec<char> = chars_of(b);
    let mut i: usize = 0;
    assert(a@.skip(0) =~= a@);
    assert(b@.skip(0) =~= b@);
    while i < x.len() && i < y.len() && x[i] == y[i]
        invariant
            i <= x.len(),
            i <= y.len(),
            x@ == a@,
            y@ == b@,
            text_le(a@, b@) == text_le(a@.skip(i as int), b@.skip(i as int)),
        decreases x.len() - i,
    {
        assert(a@.skip(i as int).skip(1) =~= a@.skip(i + 1));
        assert(b@.skip(i as int).skip(1) =~= b@.skip(i + 1));
        i += 1;
    }
    if i == x.len() {
        true
    } else if i == y.len() {
        false
    } else {
        x[i] < y[i]
    }
}

proof fn lemma_insert_to_multiset(s: Seq<Seq<char>>, i: int, x: Seq<char>)
    requires
        0 <= i <= s.len(),
    ensures
        s.insert(i, x).to_multiset() == s.to_multiset().insert(x),
{
    broadcast use group_to_multiset_ensures;

    let t = s.insert(i, x);
    assert(t.remove(i) =~= s);
    assert(t[i] == x);
    assert(t.contains(x));
    assert(t.to_multiset() =~= s.to_multiset().insert(x));
}

/// The texts of `list` in order.
pub fn sort_texts(list: &Vec<String>) -> (r: Vec<String>)
    ensures
        in_order(texts(r@)),
        texts(r@).to_multiset() == texts(list@).to_multiset(),
{
    let mut out: Vec<String> = Vec::new();
    let mut i: usize = 0;
    assert(texts(out@) =~= texts(list@).take(0));
    while i < list.len()
        invariant
            i <= list.len(),
            in_order(texts(out@)),
            texts(out@).to_multiset() == texts(list@).take(i as int).to_multiset(),
        decreases list.len() - i,
    {
        let item: String = list[i].clone();
        let ghost before = texts(out@);
        let mut at: usize = 0;
        while at < out.len() && stands_before(out[at].as_str(), item.as_str())
            invariant
                at <= out.len(),
                before == texts(out@),
                in_order(before),
                forall|j: int| 0 <= j < at ==> text_le(#[trigger] before[j], item@),
            decreases out.len() - at,
        {
            assert(before[at as int] == out[at as int]@);
            at += 1;
        }
        proof {
            if at < out.len() {
                assert(before[at as int] == out[at as int]@);
                lemma_text_le_total(before[at as int], item@);
            }
            lemma_insert_in_order(before, at as int, item@);
            lemma_insert_to_multiset(before, at as int, item@);
        }
        out.insert(at, item);
        assert(texts(out@) =~= before.insert(at as int, item@));
        proof {
            broadcast use group_to_multiset_ensures;

            assert(texts(list@).take(i + 1) =~= texts(list@).take(i as int).push(item@));
        }
        i += 1;
    }
    assert(texts(list@).take(i as int) =~= texts(list@));
    out
}

proof fn lemma_insert_in_order(s: Seq<Seq<char>>, at: int, x: Seq<char>)
    requires
        in_order(s),
        0 <= at <= s.len(),
        forall|j: int| 0 <= j < at ==> text_le(#[trigger] s[j], x),
        at < s.len() ==> text_le(x, s[at]),
    ensures
        in_order(s.insert(at, x)),
{
    let t = s.insert(at, x);
    assert forall|i: int, j: int| 0 <= i <= j < t.len() implies text_le(
        #[trigger] t[i],
        #[trigger] t[j],
    ) by {
        lemma_text_le_reflexive(x);
        if i < at {
            assert(t[i] == s[i]);
            if j < at {
                assert(t[j] == s[j]);
            } else if j > at {
                assert(t[j] == s[j - 1]);
            }
        } else if i == at {
            if j > at {
                assert(t[j] == s[j - 1]);
                assert(text_le(s[at], s[j - 1]));
                lemma_text_le_transitive(x, s[at], s[j - 1]);
            }
        } else {
            assert(t[i] == s[i - 1]);
            assert(t[j] == s[j - 1]);
        }
    }
}

} // verus!
