//! A small step lemma for building a filtered sequence element by element,
//! used by the despawn and destroy loops.

use vstd::prelude::*;

verus! {

/// Extending the filtered prefix by one element: the element is appended
/// exactly when it satisfies the predicate.
pub proof fn lemma_filter_one_more<A>(s: Seq<A>, pred: spec_fn(A) -> bool, i: int)
    requires
        0 <= i < s.len(),
    ensures
        s.subrange(0, i + 1).filter(pred) == if pred(s[i]) {
            s.subrange(0, i).filter(pred).push(s[i])
        } else {
            s.subrange(0, i).filter(pred)
        },
{
    let a = s.subrange(0, i);
    let b = s.subrange(i, i + 1);
    assert(s.subrange(0, i + 1) =~= a + b);
    Seq::<A>::filter_distributes_over_add(a, b, pred);
    reveal_with_fuel(Seq::filter, 3);
    assert(b.len() == 1);
    assert(b.drop_last() =~= Seq::<A>::empty());
    assert(b.drop_last().filter(pred) =~= Seq::<A>::empty());
    if pred(s[i]) {
        assert(b.filter(pred) =~= Seq::<A>::empty().push(s[i]));
        assert(a.filter(pred) + b.filter(pred) =~= a.filter(pred).push(s[i]));
    } else {
        assert(b.filter(pred) =~= Seq::<A>::empty());
        assert(a.filter(pred) + b.filter(pred) =~= a.filter(pred));
    }
}

/// The filtered whole sequence is the filtered full prefix.
pub proof fn lemma_filter_full<A>(s: Seq<A>, pred: spec_fn(A) -> bool)
    ensures
        s.subrange(0, s.len() as int).filter(pred) == s.filter(pred),
{
    assert(s.subrange(0, s.len() as int) =~= s);
}

/// The elements of `s` whose positions are not marked in `mask`, in order.
/// Unlike `Seq::filter` this selects by position, so equal elements at
/// different positions are told apart.
pub open spec fn masked_keep<A>(s: Seq<A>, mask: Seq<bool>) -> Seq<A>
    decreases s.len(),
{
    if s.len() == 0 {
        s
    } else {
        let prefix = masked_keep(s.drop_last(), mask.drop_last());
        if mask[s.len() - 1] {
            prefix
        } else {
            prefix.push(s.last())
        }
    }
}

/// Extending the kept prefix by one position: the element is appended exactly
/// when its position is unmarked.
pub proof fn lemma_masked_keep_one_more<A>(s: Seq<A>, mask: Seq<bool>, i: int)
    requires
        0 <= i < s.len(),
        mask.len() == s.len(),
    ensures
        masked_keep(s.subrange(0, i + 1), mask.subrange(0, i + 1)) == if mask[i] {
            masked_keep(s.subrange(0, i), mask.subrange(0, i))
        } else {
            masked_keep(s.subrange(0, i), mask.subrange(0, i)).push(s[i])
        },
{
    let a = s.subrange(0, i + 1);
    let m = mask.subrange(0, i + 1);
    assert(a.len() == i + 1);
    assert(a.drop_last() =~= s.subrange(0, i));
    assert(m.drop_last() =~= mask.subrange(0, i));
    assert(a.last() == s[i]);
    assert(m[a.len() - 1] == mask[i]);
}

/// The kept whole sequence is the kept full prefix.
pub proof fn lemma_masked_keep_full<A>(s: Seq<A>, mask: Seq<bool>)
    requires
        mask.len() == s.len(),
    ensures
        masked_keep(s.subrange(0, s.len() as int), mask.subrange(0, s.len() as int))
            == masked_keep(s, mask),
{
    assert(s.subrange(0, s.len() as int) =~= s);
    assert(mask.subrange(0, s.len() as int) =~= mask);
}

/// Every kept element is an unmarked element of the source, at most as many
/// as the source has.
pub proof fn lemma_masked_keep_len<A>(s: Seq<A>, mask: Seq<bool>)
    ensures
        masked_keep(s, mask).len() <= s.len(),
    decreases s.len(),
{
    if s.len() > 0 {
        lemma_masked_keep_len(s.drop_last(), mask.drop_last());
    }
}

/// Every kept element comes from some position of the source.
pub proof fn lemma_masked_keep_membership<A>(s: Seq<A>, mask: Seq<bool>, x: int)
    requires
        0 <= x < masked_keep(s, mask).len(),
    ensures
        exists|i: int| 0 <= i < s.len() && masked_keep(s, mask)[x] == s[i],
    decreases s.len(),
{
    if s.len() > 0 {
        let prefix = masked_keep(s.drop_last(), mask.drop_last());
        if mask[s.len() - 1] {
            lemma_masked_keep_membership(s.drop_last(), mask.drop_last(), x);
            let i = choose|i: int|
                0 <= i < s.drop_last().len() && masked_keep(s.drop_last(), mask.drop_last())[x]
                    == s.drop_last()[i];
            assert(masked_keep(s, mask)[x] == s[i]);
        } else {
            if x < prefix.len() {
                lemma_masked_keep_membership(s.drop_last(), mask.drop_last(), x);
                let i = choose|i: int|
                    0 <= i < s.drop_last().len() && masked_keep(s.drop_last(), mask.drop_last())[x]
                        == s.drop_last()[i];
                assert(masked_keep(s, mask)[x] == s[i]);
            } else {
                assert(masked_keep(s, mask)[x] == s[s.len() - 1]);
            }
        }
    }
}

/// How many positions a mask marks.
pub open spec fn count_true(mask: Seq<bool>) -> int
    decreases mask.len(),
{
    if mask.len() == 0 {
        0
    } else {
        count_true(mask.drop_last()) + if mask.last() {
            1int
        } else {
            0int
        }
    }
}

/// Keeping the unmarked positions drops exactly the marked ones.
pub proof fn lemma_masked_keep_count<A>(s: Seq<A>, mask: Seq<bool>)
    requires
        mask.len() == s.len(),
    ensures
        masked_keep(s, mask).len() == s.len() - count_true(mask),
    decreases s.len(),
{
    if s.len() > 0 {
        lemma_masked_keep_count(s.drop_last(), mask.drop_last());
        assert(mask[s.len() - 1] == mask.last());
    }
}

/// Marking one further, previously unmarked position raises the count by one;
/// the positions beyond it must agree.
pub proof fn lemma_count_true_flip(m1: Seq<bool>, m2: Seq<bool>, at: int)
    requires
        m1.len() == m2.len(),
        0 <= at < m1.len(),
        !m1[at],
        m2[at],
        forall|i: int| 0 <= i < m1.len() && i != at ==> m1[i] == m2[i],
    ensures
        count_true(m2) == count_true(m1) + 1,
    decreases m1.len(),
{
    if at == m1.len() - 1 {
        lemma_count_true_agree(m1.drop_last(), m2.drop_last());
    } else {
        lemma_count_true_flip(m1.drop_last(), m2.drop_last(), at);
    }
}

/// Equal masks count equally (elementwise equality suffices).
pub proof fn lemma_count_true_agree(m1: Seq<bool>, m2: Seq<bool>)
    requires
        m1.len() == m2.len(),
        forall|i: int| 0 <= i < m1.len() ==> m1[i] == m2[i],
    ensures
        count_true(m1) == count_true(m2),
    decreases m1.len(),
{
    if m1.len() > 0 {
        lemma_count_true_agree(m1.drop_last(), m2.drop_last());
        assert(m1.last() == m1[m1.len() - 1]);
    }
}

} // verus!
