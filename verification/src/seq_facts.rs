//! General facts about sequence filtering and duplicate freedom that more
//! than one module of this crate relies on.

use vstd::prelude::*;

verus! {

/// Filtering a sequence whose elements all satisfy the predicate changes
/// nothing.
pub proof fn lemma_filter_identity<A>(s: Seq<A>, p: spec_fn(A) -> bool)
    requires
        forall|i: int| 0 <= i < s.len() ==> p(#[trigger] s[i]),
    ensures
        s.filter(p) == s,
    decreases s.len(),
{
    reveal(Seq::filter);
    if s.len() > 0 {
        assert(forall|i: int| 0 <= i < s.drop_last().len() ==> p(#[trigger] s.drop_last()[i]));
        lemma_filter_identity(s.drop_last(), p);
        assert(s.drop_last().push(s.last()) =~= s);
    }
}

/// Filtering a sequence whose one failing element stands at `i` removes
/// exactly that element.
pub proof fn lemma_filter_removes_unique<A>(s: Seq<A>, p: spec_fn(A) -> bool, i: int)
    requires
        0 <= i < s.len(),
        !p(s[i]),
        forall|j: int| 0 <= j < s.len() && j != i ==> p(#[trigger] s[j]),
    ensures
        s.filter(p) == s.remove(i),
{
    reveal(Seq::filter);
    let a = s.subrange(0, i);
    let b = seq![s[i]];
    let c = s.subrange(i + 1, s.len() as int);
    assert(s =~= (a + b) + c);
    Seq::filter_distributes_over_add(a + b, c, p);
    Seq::filter_distributes_over_add(a, b, p);
    assert(forall|j: int| 0 <= j < a.len() ==> p(#[trigger] a[j]));
    lemma_filter_identity(a, p);
    assert(forall|j: int| 0 <= j < c.len() ==> p(#[trigger] c[j]));
    lemma_filter_identity(c, p);
    assert(b.filter(p) =~= Seq::<A>::empty()) by {
        reveal_with_fuel(Seq::filter, 3);
        assert(b.drop_last() =~= Seq::<A>::empty());
    }
    assert(s.filter(p) == ((a + b) + c).filter(p));
    assert(s.filter(p) =~= a + c);
    assert(s.remove(i) =~= a + c);
}

/// Filtering keeps the head of a sequence whose head satisfies the predicate.
pub proof fn lemma_filter_keeps_head<A>(s: Seq<A>, p: spec_fn(A) -> bool)
    requires
        s.len() > 0,
        p(s[0]),
    ensures
        s.filter(p).len() >= 1,
        s.filter(p)[0] == s[0],
{
    reveal(Seq::filter);
    let b = seq![s[0]];
    let c = s.subrange(1, s.len() as int);
    assert(s =~= b + c);
    Seq::filter_distributes_over_add(b, c, p);
    assert(b.filter(p) =~= b) by {
        reveal_with_fuel(Seq::filter, 3);
        assert(b.drop_last() =~= Seq::<A>::empty());
    }
}

/// A subrange of a duplicate-free sequence is duplicate-free.
pub proof fn lemma_no_duplicates_subrange<A>(s: Seq<A>, from: int, to: int)
    requires
        0 <= from <= to <= s.len(),
        s.no_duplicates(),
    ensures
        s.subrange(from, to).no_duplicates(),
{
}

/// Filtering a duplicate-free sequence leaves it duplicate-free.
pub proof fn lemma_filter_no_duplicates<A>(s: Seq<A>, p: spec_fn(A) -> bool)
    requires
        s.no_duplicates(),
    ensures
        s.filter(p).no_duplicates(),
    decreases s.len(),
{
    reveal(Seq::filter);
    if s.len() > 0 {
        let d = s.drop_last();
        assert(d.no_duplicates());
        lemma_filter_no_duplicates(d, p);
        if p(s.last()) {
            let f = d.filter(p);
            if f.contains(s.last()) {
                Seq::lemma_filter_contains_rev(d, p, s.last());
                let i = choose|i: int| 0 <= i < d.len() && d[i] == s.last();
                assert(s[i] == s[s.len() - 1]);
                assert(false);
            }
            assert forall|i: int, j: int|
                0 <= i < j < f.push(s.last()).len() implies f.push(s.last())[i] != f.push(
                s.last(),
            )[j] by {
                if j < f.len() {
                    assert(f[i] != f[j]);
                } else {
                    assert(!f.contains(f[i]) ==> false);
                }
            }
        }
    }
}

} // verus!
