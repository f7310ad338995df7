//! The order in which recipients are written: texts compared byte by byte in
//! their UTF-8 form, the shorter of two first when one opens the other.

use vstd::prelude::*;
use vstd::relations::{sorted_by, total_ordering};
use vstd::seq_lib::lemma_sorted_unique;
use vstd::string::StringSliceAdditionalSpecFns;
use vstd::utf8::{encode_utf8, encode_utf8_decode_utf8};

verus! {

/// `a` comes no later than `b` in lexicographic byte order.
pub open spec fn bytes_le(a: Seq<u8>, b: Seq<u8>) -> bool
    decreases a.len(),
{
    if a.len() == 0 {
        true
    } else if b.len() == 0 {
        false
    } else if a[0] != b[0] {
        a[0] < b[0]
    } else {
        bytes_le(a.drop_first(), b.drop_first())
    }
}

/// `a` comes no later than `b` when both are compared in their UTF-8 form.
pub open spec fn text_le(a: Seq<char>, b: Seq<char>) -> bool {
    bytes_le(encode_utf8(a), encode_utf8(b))
}

/// `text_le` as a relation.
pub open spec fn text_order() -> spec_fn(Seq<char>, Seq<char>) -> bool {
    |a: Seq<char>, b: Seq<char>| text_le(a, b)
}

/// The texts that a sequence of strings holds.
pub open spec fn texts(items: Seq<String>) -> Seq<Seq<char>> {
    Seq::new(items.len(), |i: int| items[i]@)
}

/// The texts in ascending order.
pub open spec fn sorted_texts(items: Seq<Seq<char>>) -> Seq<Seq<char>> {
    items.sort_by(text_order())
}

pub proof fn lemma_bytes_le_reflexive(a: Seq<u8>)
    ensures
        bytes_le(a, a),
    decreases a.len(),
{
    if a.len() > 0 {
        lemma_bytes_le_reflexive(a.drop_first());
    }
}

pub proof fn lemma_bytes_le_antisymmetric(a: Seq<u8>, b: Seq<u8>)
    requires
        bytes_le(a, b),
        bytes_le(b, a),
    ensures
        a == b,
    decreases a.len(),
{
    if a.len() == 0 {
        assert(b.len() == 0);
        assert(a =~= b);
    } else {
        lemma_bytes_le_antisymmetric(a.drop_first(), b.drop_first());
        assert(a =~= seq![a[0]] + a.drop_first());
        assert(b =~= seq![b[0]] + b.drop_first());
    }
}

pub proof fn lemma_bytes_le_transitive(a: Seq<u8>, b: Seq<u8>, c: Seq<u8>)
    requires
        bytes_le(a, b),
        bytes_le(b, c),
    ensures
        bytes_le(a, c),
    decreases a.len(),
{
    if a.len() > 0 && a[0] == b[0] && b[0] == c[0] {
        lemma_bytes_le_transitive(a.drop_first(), b.drop_first(), c.drop_first());
    }
}

pub proof fn lemma_bytes_le_total(a: Seq<u8>, b: Seq<u8>)
    ensures
        bytes_le(a, b) || bytes_le(b, a),
    decreases a.len(),
{
    if a.len() > 0 && b.len() > 0 && a[0] == b[0] {
        lemma_bytes_le_total(a.drop_first(), b.drop_first());
    }
}

/// The order of texts is total: any two texts compare, and two texts that
/// compare both ways are the same text.
pub proof fn lemma_text_order_total()
    ensures
        total_ordering(text_order()),
{
    let r = text_order();
    assert forall|x: Seq<char>| #[trigger] r(x, x) by {
        lemma_bytes_le_reflexive(encode_utf8(x));
    }
    assert forall|x: Seq<char>, y: Seq<char>| #[trigger] r(x, y) && #[trigger] r(y, x) implies x
        == y by {
        lemma_bytes_le_antisymmetric(encode_utf8(x), encode_utf8(y));
        encode_utf8_decode_utf8(x);
        encode_utf8_decode_utf8(y);
    }
    assert forall|x: Seq<char>, y: Seq<char>, z: Seq<char>| #[trigger]
        r(x, y) && #[trigger] r(y, z) implies r(x, z) by {
        lemma_bytes_le_transitive(encode_utf8(x), encode_utf8(y), encode_utf8(z));
    }
    assert forall|x: Seq<char>, y: Seq<char>| #[trigger] r(x, y) || #[trigger] r(y, x) by {
        lemma_bytes_le_total(encode_utf8(x), encode_utf8(y));
    }
}

/// The sorted form does not depend on the order in which the texts are given.
pub proof fn lemma_sorted_texts_of_permutation(a: Seq<Seq<char>>, b: Seq<Seq<char>>)
    requires
        a.to_multiset() == b.to_multiset(),
    ensures
        sorted_texts(a) == sorted_texts(b),
{
    lemma_text_order_total();
    a.lemma_sort_by_ensures(text_order());
    b.lemma_sort_by_ensures(text_order());
    lemma_sorted_unique(sorted_texts(a), sorted_texts(b), text_order());
}

/// The sorted form is ascending and holds the given texts, each as often as
/// it was given.
pub proof fn lemma_sorted_texts_ascending(a: Seq<Seq<char>>)
    ensures
        sorted_by(sorted_texts(a), text_order()),
        sorted_texts(a).to_multiset() == a.to_multiset(),
        sorted_texts(a).len() == a.len(),
{
    lemma_text_order_total();
    a.lemma_sort_by_ensures(text_order());
    a.to_multiset_ensures();
    sorted_texts(a).to_multiset_ensures();
}

/// Whether `a` comes no later than `b`.
pub fn text_comes_first(a: &str, b: &str) -> (le: bool)
    ensures
        le == text_le(a@, b@),
{
    let x = a.as_bytes();
    let y = b.as_bytes();
    let mut i: usize = 0;
    assert(x@.skip(0) =~= x@ && y@.skip(0) =~= y@);
    loop
        invariant
            i <= x@.len(),
            i <= y@.len(),
            x@ == encode_utf8(a@),
            y@ == encode_utf8(b@),
            bytes_le(x@, y@) == bytes_le(x@.skip(i as int), y@.skip(i as int)),
        decreases x@.len() - i,
    {
        if i >= x.len() {
            return true;
        }
        if i >= y.len() {
            return false;
        }
        if x[i] != y[i] {
            return x[i] < y[i];
        }
        assert(x@.skip(i as int).drop_first() =~= x@.skip(i + 1));
        assert(y@.skip(i as int).drop_first() =~= y@.skip(i + 1));
        i += 1;
    }
}

/// The strings in ascending order of their texts.
pub fn sort_texts(items: &[String]) -> (sorted: Vec<String>)
    ensures
        texts(sorted@) == sorted_texts(texts(items@)),
{
    let mut sorted: Vec<String> = Vec::new();
    let mut i: usize = 0;
    assert(texts(sorted@) =~= texts(items@.take(0)));
    while i < items.len()
        invariant
            i <= items@.len(),
            sorted_by(texts(sorted@), text_order()),
            texts(sorted@).to_multiset() == texts(items@.take(i as int)).to_multiset(),
        decreases items@.len() - i,
    {
        let item = items[i].clone();
        let mut p: usize = 0;
        let mut searching = true;
        while searching && p < sorted.len()
            invariant
                p <= sorted@.len(),
                forall|j: int| 0 <= j < p ==> text_le(#[trigger] sorted@[j]@, item@),
                !searching ==> p < sorted@.len() && !text_le(sorted@[p as int]@, item@),
            decreases sorted@.len() - p + if searching { 1int } else { 0int },
        {
            if text_comes_first(sorted[p].as_str(), item.as_str()) {
                p += 1;
            } else {
                searching = false;
            }
        }
        proof {
            let before = texts(sorted@);
            let after = before.insert(p as int, item@);
            assert(texts(sorted@.insert(p as int, item)) =~= after);
            assert(sorted_by(after, text_order())) by {
                lemma_text_order_total();
                assert forall|m: int, n: int| 0 <= m < n < after.len() implies #[trigger]
                    text_order()(after[m], after[n]) by {
                    if n == p {
                        assert(after[m] == sorted@[m]@);
                    } else if m == p {
                        lemma_bytes_le_total(encode_utf8(sorted@[p as int]@), encode_utf8(item@));
                        assert(text_order()(before[p as int], before[n - 1]) || n - 1 == p);
                        lemma_bytes_le_transitive(
                            encode_utf8(item@),
                            encode_utf8(before[p as int]),
                            encode_utf8(before[n - 1]),
                        );
                    } else {
                        let m0 = if m < p { m } else { m - 1 };
                        let n0 = if n < p { n } else { n - 1 };
                        assert(text_order()(before[m0], before[n0]));
                    }
                }
            }
            vstd::seq_lib::to_multiset_insert(before, p as int, item@);
            let done = texts(items@.take(i as int));
            assert(texts(items@.take(i + 1)) =~= done.push(item@));
            vstd::seq_lib::to_multiset_build(done, item@);
        }
        sorted.insert(p, item);
        i += 1;
    }
    proof {
        assert(items@.take(i as int) =~= items@);
        lemma_text_order_total();
        texts(items@).lemma_sort_by_ensures(text_order());
        lemma_sorted_unique(texts(sorted@), sorted_texts(texts(items@)), text_order());
    }
    sorted
}

} // verus!
