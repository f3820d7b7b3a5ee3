//! The order of names, and sorting by it.
//!
//! Names are ordered as Rust orders strings: byte by byte over their UTF-8
//! form, a proper prefix before what extends it.

use vstd::prelude::*;
use vstd::relations::{sorted_by, total_ordering};
use vstd::multiset::group_multiset_axioms;
use vstd::seq_lib::{
    group_to_multiset_ensures, lemma_sorted_unique, to_multiset_build, to_multiset_remove,
};
use vstd::utf8::{decode_utf8, encode_utf8, encode_utf8_decode_utf8};

verus! {

/// Whether the bytes `a` come at or before the bytes `b`.
pub open spec fn bytes_le(a: Seq<u8>, b: Seq<u8>) -> bool
    decreases a.len(),
{
    if a.len() == 0 {
        true
    } else if b.len() == 0 {
        false
    } else if a[0] != b[0] {
        a[0] < b[0]
    } else {
        bytes_le(a.drop_first(), b.drop_first())
    }
}

/// Whether the name `a` comes at or before the name `b`.
pub open spec fn text_le(a: Seq<char>, b: Seq<char>) -> bool {
    bytes_le(encode_utf8(a), encode_utf8(b))
}

/// Whether `items` stand in ascending order.
pub open spec fn ascending(items: Seq<Seq<char>>) -> bool {
    forall|i: int, j: int| 0 <= i < j < items.len() ==> text_le(#[trigger] items[i], #[trigger] items[j])
}

/// The strings of `items`, each by its characters.
pub open spec fn texts(items: Seq<String>) -> Seq<Seq<char>> {
    items.map_values(|item: String| item@)
}

/// Of two byte strings, one comes at or before the other.
pub proof fn bytes_le_total(a: Seq<u8>, b: Seq<u8>)
    ensures
        bytes_le(a, b) || bytes_le(b, a),
    decreases a.len(),
{
    if a.len() > 0 && b.len() > 0 && a[0] == b[0] {
        bytes_le_total(a.drop_first(), b.drop_first());
    }
}

/// The order on byte strings passes along a chain.
pub proof fn bytes_le_transitive(a: Seq<u8>, b: Seq<u8>, c: Seq<u8>)
    requires
        bytes_le(a, b),
        bytes_le(b, c),
    ensures
        bytes_le(a, c),
    decreases a.len(),
{
    if a.len() > 0 && b.len() > 0 && c.len() > 0 && a[0] == b[0] && b[0] == c[0] {
        bytes_le_transitive(a.drop_first(), b.drop_first(), c.drop_first());
    }
}

/// Byte strings that come at or before each other are equal.
pub proof fn bytes_le_antisymmetric(a: Seq<u8>, b: Seq<u8>)
    requires
        bytes_le(a, b),
        bytes_le(b, a),
    ensures
        a == b,
    decreases a.len(),
{
    if a.len() > 0 && b.len() > 0 {
        bytes_le_antisymmetric(a.drop_first(), b.drop_first());
        assert(a =~= seq![a[0]] + a.drop_first());
        assert(b =~= seq![b[0]] + b.drop_first());
    } else {
        assert(a =~= b);
    }
}

/// The order of names is total: reflexive, antisymmetric, transitive, and
/// it relates every two names one way or the other.
pub proof fn text_le_is_total_order()
    ensures
        total_ordering(|a: Seq<char>, b: Seq<char>| text_le(a, b)),
{
    let leq = |a: Seq<char>, b: Seq<char>| text_le(a, b);
    assert forall|a: Seq<char>| #[trigger] leq(a, a) by {
        bytes_le_total(encode_utf8(a), encode_utf8(a));
    }
    assert forall|a: Seq<char>, b: Seq<char>| #[trigger] leq(a, b) && #[trigger] leq(b, a) implies a
        == b by {
        bytes_le_antisymmetric(encode_utf8(a), encode_utf8(b));
        encode_utf8_decode_utf8(a);
        encode_utf8_decode_utf8(b);
        assert(decode_utf8(encode_utf8(a)) == decode_utf8(encode_utf8(b)));
    }
    assert forall|a: Seq<char>, b: Seq<char>, c: Seq<char>| #[trigger]
        leq(a, b) && #[trigger] leq(b, c) implies leq(a, c) by {
        bytes_le_transitive(encode_utf8(a), encode_utf8(b), encode_utf8(c));
    }
    assert forall|a: Seq<char>, b: Seq<char>| #[trigger] leq(a, b) || #[trigger] leq(b, a) by {
        bytes_le_total(encode_utf8(a), encode_utf8(b));
    }
}

/// Two ascending lists without repetition that hold the same names are the
/// same list.
pub proof fn ascending_is_unique(x: Seq<Seq<char>>, y: Seq<Seq<char>>)
    requires
        ascending(x),
        ascending(y),
        x.no_duplicates(),
        y.no_duplicates(),
        x.to_set() == y.to_set(),
    ensures
        x == y,
{
    broadcast use group_to_multiset_ensures;

    let leq = |a: Seq<char>, b: Seq<char>| text_le(a, b);
    text_le_is_total_order();
    assert(sorted_by(x, leq));
    assert(sorted_by(y, leq));
    x.lemma_multiset_has_no_duplicates();
    y.lemma_multiset_has_no_duplicates();
    assert forall|a: Seq<char>| x.to_multiset().count(a) == y.to_multiset().count(a) by {
        assert(x.contains(a) <==> x.to_set().contains(a));
        assert(y.contains(a) <==> y.to_set().contains(a));
    }
    assert(x.to_multiset() =~= y.to_multiset());
    lemma_sorted_unique(x, y, leq);
}

/// Lists that hold the same names the same number of times hold the same
/// set of names, and repeat a name both or neither.
pub proof fn same_names(x: Seq<Seq<char>>, y: Seq<Seq<char>>)
    requires
        x.to_multiset() == y.to_multiset(),
    ensures
        x.to_set() == y.to_set(),
        x.no_duplicates() ==> y.no_duplicates(),
{
    broadcast use group_to_multiset_ensures;

    assert forall|a: Seq<char>| x.to_set().contains(a) == y.to_set().contains(a) by {
        assert(x.contains(a) <==> x.to_multiset().count(a) > 0);
        assert(y.contains(a) <==> y.to_multiset().count(a) > 0);
    }
    assert(x.to_set() =~= y.to_set());
    if x.no_duplicates() {
        x.lemma_multiset_has_no_duplicates();
        y.lemma_multiset_has_no_duplicates_conv();
    }
}

/// Whether `a` comes at or before `b`.
pub fn precedes(a: &str, b: &str) -> (out: bool)
    ensures
        out == text_le(a@, b@),
{
    let x = a.as_bytes();
    let y = b.as_bytes();
    let mut at: usize = 0;
    proof {
        assert(x@.skip(0) =~= x@);
        assert(y@.skip(0) =~= y@);
    }
    while at < x.len() && at < y.len()
        invariant
            at <= x@.len(),
            at <= y@.len(),
            x@ == encode_utf8(a@),
            y@ == encode_utf8(b@),
            bytes_le(x@, y@) == bytes_le(x@.skip(at as int), y@.skip(at as int)),
        decreases x@.len() - at,
    {
        proof {
            assert(x@.skip(at as int).drop_first() =~= x@.skip(at + 1));
            assert(y@.skip(at as int).drop_first() =~= y@.skip(at + 1));
        }
        if x[at] != y[at] {
            return x[at] < y[at];
        }
        at += 1;
    }
    x.len() <= y.len()
}

/// The names of `items` in ascending order, each as often as it was given.
pub fn sort_names(items: Vec<String>) -> (out: Vec<String>)
    ensures
        ascending(texts(out@)),
        texts(out@).to_multiset() == texts(items@).to_multiset(),
{
    broadcast use {group_to_multiset_ensures, group_multiset_axioms};

    let mut rest = items;
    let mut sorted: Vec<String> = Vec::new();
    proof {
        assert(texts(sorted@) =~= Seq::empty());
        assert(texts(sorted@).to_multiset().add(texts(rest@).to_multiset()) =~= texts(
            items@,
        ).to_multiset());
    }
    while rest.len() > 0
        invariant
            ascending(texts(sorted@)),
            texts(sorted@).to_multiset().add(texts(rest@).to_multiset()) == texts(
                items@,
            ).to_multiset(),
        decreases rest@.len(),
    {
        let ghost before = rest@;
        let ghost placed = sorted@;
        let item = rest.pop().unwrap();
        let mut at: usize = 0;
        while at < sorted.len() && precedes(sorted[at].as_str(), item.as_str())
            invariant
                at <= sorted@.len(),
                sorted@ == placed,
                forall|k: int| 0 <= k < at ==> text_le(#[trigger] texts(sorted@)[k], item@),
            decreases sorted@.len() - at,
        {
            at += 1;
        }
        sorted.insert(at, item);
        proof {
            let old_texts = texts(placed);
            let new_texts = texts(sorted@);
            assert(new_texts =~= old_texts.insert(at as int, item@));
            assert(new_texts.remove(at as int) =~= old_texts);
            assert(new_texts[at as int] == item@);
            to_multiset_remove(new_texts, at as int);
            new_texts.to_multiset_ensures();
            assert(new_texts.contains(item@));
            assert(new_texts.to_multiset().count(item@) > 0);
            assert(new_texts.to_multiset() =~= old_texts.to_multiset().insert(item@));
            assert(texts(before) =~= texts(rest@).push(item@));
            to_multiset_build(texts(rest@), item@);
            assert(texts(before).to_multiset() =~= texts(rest@).to_multiset().insert(item@));
            assert(new_texts.to_multiset().add(texts(rest@).to_multiset()) =~= texts(
                items@,
            ).to_multiset());
            assert forall|i: int, j: int| 0 <= i < j < new_texts.len() implies text_le(
                #[trigger] new_texts[i],
                #[trigger] new_texts[j],
            ) by {
                if j < at {
                    assert(new_texts[i] == old_texts[i] && new_texts[j] == old_texts[j]);
                } else if j == at {
                    assert(new_texts[i] == old_texts[i]);
                } else if i < at {
                    assert(new_texts[i] == old_texts[i] && new_texts[j] == old_texts[j - 1]);
                } else if i == at {
                    assert(new_texts[j] == old_texts[j - 1]);
                    assert(!text_le(old_texts[at as int], item@));
                    bytes_le_total(encode_utf8(old_texts[at as int]), encode_utf8(item@));
                    if j - 1 > at {
                        assert(text_le(old_texts[at as int], old_texts[j - 1]));
                        bytes_le_transitive(
                            encode_utf8(item@),
                            encode_utf8(old_texts[at as int]),
                            encode_utf8(old_texts[j - 1]),
                        );
                    }
                } else {
                    assert(new_texts[i] == old_texts[i - 1] && new_texts[j] == old_texts[j - 1]);
                }
            }
        }
    }
    proof {
        assert(texts(rest@) =~= Seq::empty());
        assert(texts(sorted@).to_multiset().add(texts(rest@).to_multiset()) =~= texts(
            sorted@,
        ).to_multiset());
    }
    sorted
}

} // verus!
