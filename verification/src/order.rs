//! Putting texts in order.
use vstd::prelude::*;
use vstd::relations::{sorted_by, total_ordering};
use vstd::seq_lib::lemma_sorted_unique;
use crate::encoding::sorted_texts;
use crate::text::{not_after, same_text, text_le};

verus! {

/// The order of texts.
pub open spec fn text_order() -> spec_fn(Seq<char>, Seq<char>) -> bool {
    |a: Seq<char>, b: Seq<char>| text_le(a, b)
}

/// The order of pairs of texts: by the first, then by the second.
pub open spec fn pair_order() -> spec_fn((Seq<char>, Seq<char>), (Seq<char>, Seq<char>)) -> bool {
    |a: (Seq<char>, Seq<char>), b: (Seq<char>, Seq<char>)|
        if a.0 == b.0 {
            text_le(a.1, b.1)
        } else {
            text_le(a.0, b.0)
        }
}

proof fn lemma_le_reflexive(a: Seq<char>)
    ensures
        text_le(a, a),
    decreases a.len(),
{
    if a.len() > 0 {
        lemma_le_reflexive(a.skip(1));
    }
}

proof fn lemma_le_antisymmetric(a: Seq<char>, b: Seq<char>)
    requires
        text_le(a, b),
        text_le(b, a),
    ensures
        a == b,
    decreases a.len(),
{
    if a.len() > 0 {
        lemma_le_antisymmetric(a.skip(1), b.skip(1));
        assert(a =~= seq![a[0]] + a.skip(1));
        assert(b =~= seq![b[0]] + b.skip(1));
    } else {
        assert(a =~= b);
    }
}

proof fn lemma_le_transitive(a: Seq<char>, b: Seq<char>, c: Seq<char>)
    requires
        text_le(a, b),
        text_le(b, c),
    ensures
        text_le(a, c),
    decreases a.len(),
{
    if a.len() > 0 && a[0] == b[0] && b[0] == c[0] {
        lemma_le_transitive(a.skip(1), b.skip(1), c.skip(1));
    }
}

proof fn lemma_le_connected(a: Seq<char>, b: Seq<char>)
    ensures
        text_le(a, b) || text_le(b, a),
    decreases a.len(),
{
    if a.len() > 0 && b.len() > 0 && a[0] == b[0] {
        lemma_le_connected(a.skip(1), b.skip(1));
    }
}

/// Texts are totally ordered.
pub proof fn lemma_text_order()
    ensures
        total_ordering(text_order()),
{
    let leq = text_order();
    assert forall|a: Seq<char>| #[trigger] leq(a, a) by {
        lemma_le_reflexive(a);
    }
    assert forall|a: Seq<char>, b: Seq<char>| #[trigger] leq(a, b) && #[trigger] leq(b, a) implies a
        == b by {
        lemma_le_antisymmetric(a, b);
    }
    assert forall|a: Seq<char>, b: Seq<char>, c: Seq<char>|
        #[trigger] leq(a, b) && #[trigger] leq(b, c) implies leq(a, c) by {
        lemma_le_transitive(a, b, c);
    }
    assert forall|a: Seq<char>, b: Seq<char>| #[trigger] leq(a, b) || #[trigger] leq(b, a) by {
        lemma_le_connected(a, b);
    }
}

/// Pairs of texts are totally ordered.
pub proof fn lemma_pair_order()
    ensures
        total_ordering(pair_order()),
{
    let leq = pair_order();
    assert forall|a: (Seq<char>, Seq<char>)| #[trigger] leq(a, a) by {
        lemma_le_reflexive(a.1);
    }
    assert forall|a: (Seq<char>, Seq<char>), b: (Seq<char>, Seq<char>)|
        #[trigger] leq(a, b) && #[trigger] leq(b, a) implies a == b by {
        if a.0 == b.0 {
            lemma_le_antisymmetric(a.1, b.1);
        } else {
            lemma_le_antisymmetric(a.0, b.0);
        }
    }
    assert forall|
        a: (Seq<char>, Seq<char>),
        b: (Seq<char>, Seq<char>),
        c: (Seq<char>, Seq<char>),
    | #[trigger] leq(a, b) && #[trigger] leq(b, c) implies leq(a, c) by {
        if a.0 == b.0 && b.0 == c.0 {
            lemma_le_transitive(a.1, b.1, c.1);
        } else if a.0 == b.0 || b.0 == c.0 {
        } else {
            lemma_le_transitive(a.0, b.0, c.0);
            if a.0 == c.0 {
                lemma_le_antisymmetric(a.0, b.0);
            }
        }
    }
    assert forall|a: (Seq<char>, Seq<char>), b: (Seq<char>, Seq<char>)|
        #[trigger] leq(a, b) || #[trigger] leq(b, a) by {
        lemma_le_connected(a.0, b.0);
        lemma_le_connected(a.1, b.1);
    }
}

/// The texts in ascending order.
pub open spec fn in_order(texts: Seq<Seq<char>>) -> Seq<Seq<char>> {
    texts.sort_by(text_order())
}

/// The pairs in ascending order.
pub open spec fn pairs_in_order(pairs: Seq<(Seq<char>, Seq<char>)>) -> Seq<
    (Seq<char>, Seq<char>),
> {
    pairs.sort_by(pair_order())
}

/// The texts in ascending order.
pub fn sort_texts(texts: Vec<String>) -> (sorted: Vec<String>)
    ensures
        sorted.deep_view() == in_order(texts.deep_view()),
{
    let ghost all = texts.deep_view();
    let sorted = sorted_texts(texts);
    proof {
        lemma_text_order();
        all.lemma_sort_by_ensures(text_order());
        lemma_sorted_unique(sorted.deep_view(), in_order(all), text_order());
    }
    sorted
}

/// The pairs in ascending order.
pub fn sort_pairs(pairs: &Vec<(String, String)>) -> (sorted: Vec<(String, String)>)
    ensures
        sorted.deep_view() == pairs_in_order(pairs.deep_view()),
{
    let ghost all = pairs.deep_view();
    let mut sorted: Vec<(String, String)> = Vec::new();
    let mut i: usize = 0;
    assert(sorted.deep_view() =~= all.take(0));
    while i < pairs.len()
        invariant
            i <= pairs@.len(),
            all == pairs.deep_view(),
            sorted@.len() == i,
            sorted_by(sorted.deep_view(), pair_order()),
            sorted.deep_view().to_multiset() == all.take(i as int).to_multiset(),
        decreases pairs@.len() - i,
    {
        let mut at: usize = 0;
        while at < sorted.len() && !goes_before(&pairs[i], &sorted[at])
            invariant
                i < pairs@.len(),
                at <= sorted@.len(),
                all == pairs.deep_view(),
                forall|j: int|
                    0 <= j < at ==> !pair_order()(all[i as int], #[trigger] sorted.deep_view()[j]),
            decreases sorted@.len() - at,
        {
            at += 1;
        }
        let ghost before = sorted.deep_view();
        sorted.insert(at, (pairs[i].0.clone(), pairs[i].1.clone()));
        proof {
            let added = all[i as int];
            assert(sorted.deep_view() =~= before.insert(at as int, added));
            lemma_pair_order();
            lemma_insert_sorted(before, at as int, added);
            broadcast use vstd::seq_lib::group_to_multiset_ensures;
            before.to_multiset_ensures();
            assert(all.take(i + 1) =~= all.take(i as int).push(added));
            vstd::seq_lib::to_multiset_build(all.take(i as int), added);
            vstd::seq_lib::to_multiset_insert(before, at as int, added);
        }
        i += 1;
    }
    proof {
        assert(all.take(i as int) =~= all);
        lemma_pair_order();
        all.lemma_sort_by_ensures(pair_order());
        lemma_sorted_unique(sorted.deep_view(), pairs_in_order(all), pair_order());
    }
    sorted
}

/// Whether one pair does not come after another.
fn goes_before(a: &(String, String), b: &(String, String)) -> (before: bool)
    ensures
        before == pair_order()(a.deep_view(), b.deep_view()),
{
    if same_text(a.0.as_str(), b.0.as_str()) {
        not_after(a.1.as_str(), b.1.as_str())
    } else {
        not_after(a.0.as_str(), b.0.as_str())
    }
}

proof fn lemma_insert_sorted(
    pairs: Seq<(Seq<char>, Seq<char>)>,
    at: int,
    added: (Seq<char>, Seq<char>),
)
    requires
        0 <= at <= pairs.len(),
        sorted_by(pairs, pair_order()),
        forall|j: int| 0 <= j < at ==> !pair_order()(added, #[trigger] pairs[j]),
        at < pairs.len() ==> pair_order()(added, pairs[at]),
    ensures
        sorted_by(pairs.insert(at, added), pair_order()),
{
    lemma_pair_order();
    let leq = pair_order();
    let longer = pairs.insert(at, added);
    assert forall|i: int, j: int| 0 <= i < j < longer.len() implies #[trigger] leq(
        longer[i],
        longer[j],
    ) by {
        if i < at && j == at {
            assert(longer[i] == pairs[i]);
            assert(leq(added, pairs[i]) || leq(pairs[i], added));
        } else if i == at {
            assert(longer[j] == pairs[j - 1]);
            if j - 1 > at {
                assert(leq(added, pairs[at]) && leq(pairs[at], pairs[j - 1]));
            }
        } else if j < at {
            assert(longer[i] == pairs[i] && longer[j] == pairs[j]);
            assert(leq(pairs[i], pairs[j]));
        } else if i > at {
            assert(longer[i] == pairs[i - 1] && longer[j] == pairs[j - 1]);
            assert(leq(pairs[i - 1], pairs[j - 1]));
        } else {
            assert(longer[i] == pairs[i] && longer[j] == pairs[j - 1]);
            assert(leq(pairs[i], pairs[j - 1]));
        }
    }
}

} // verus!
