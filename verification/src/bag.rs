//! Lists compared without regard to order.

use vstd::prelude::*;
use vstd::multiset::*;

verus! {

/// Removing the item at `i` from a list takes one copy of it out of the list's multiset.
proof fn lemma_remove<T>(s: Seq<T>, i: int)
    requires
        0 <= i < s.len(),
    ensures
        s.remove(i).to_multiset() =~= s.to_multiset().remove(s[i]),
        s.to_multiset().count(s[i]) > 0,
{
    s.to_multiset_ensures();
    assert(s.contains(s[i]));
}

/// The multiset of a list's first `i + 1` items.
proof fn lemma_take_next<T>(s: Seq<T>, i: int)
    requires
        0 <= i < s.len(),
    ensures
        s.take(i + 1).to_multiset() =~= s.take(i).to_multiset().insert(s[i]),
{
    s.take(i).to_multiset_ensures();
    assert(s.take(i + 1) =~= s.take(i).push(s[i]));
}

/// A list's first items occur in it at least as often as among themselves.
proof fn lemma_take_count<T>(s: Seq<T>, i: int, x: T)
    requires
        0 <= i <= s.len(),
    ensures
        s.take(i).to_multiset().count(x) <= s.to_multiset().count(x),
    decreases s.len() - i,
{
    if i < s.len() {
        lemma_take_next(s, i);
        lemma_take_count(s, i + 1, x);
    } else {
        assert(s.take(i) =~= s);
    }
}

/// Whether two lists of numbers hold the same items, each as often.
pub fn same_numbers(a: &Vec<u8>, b: &Vec<u8>) -> (r: bool)
    ensures
        r == (a@.to_multiset() == b@.to_multiset()),
{
    let mut rest = b.clone();
    let mut i: usize = 0;
    proof {
        assert(rest@ =~= b@);
        a@.take(0).to_multiset_ensures();
        assert(a@.take(0).to_multiset() =~= Multiset::empty());
        assert(a@.take(0).to_multiset().add(rest@.to_multiset()) =~= b@.to_multiset());
    }
    while i < a.len()
        invariant
            i <= a.len(),
            a@.take(i as int).to_multiset().add(rest@.to_multiset()) == b@.to_multiset(),
        decreases a.len() - i,
    {
        let mut k: usize = 0;
        while k < rest.len() && rest[k] != a[i]
            invariant
                i < a.len(),
                k <= rest.len(),
                forall|m: int| 0 <= m < k ==> rest[m] != a[i as int],
            decreases rest.len() - k,
        {
            k += 1;
        }
        proof {
            lemma_take_next(a@, i as int);
            lemma_take_count(a@, i + 1, a@[i as int]);
        }
        if k == rest.len() {
            proof {
                rest@.to_multiset_ensures();
                assert(!rest@.contains(a@[i as int]));
                assert(a@.to_multiset().count(a@[i as int]) > b@.to_multiset().count(
                    a@[i as int],
                ));
            }
            return false;
        }
        let ghost before = rest@;
        proof {
            lemma_remove(before, k as int);
        }
        rest.remove(k);
        i += 1;
        proof {
            assert(a@.take(i as int).to_multiset().add(rest@.to_multiset()) =~= a@.take(
                i - 1,
            ).to_multiset().add(before.to_multiset()));
        }
    }
    proof {
        assert(a@.take(i as int) =~= a@);
        rest@.to_multiset_ensures();
        if rest.len() > 0 {
            assert(rest@.to_multiset().count(rest@[0]) > 0) by {
                assert(rest@.contains(rest@[0]));
            }
            assert(a@.to_multiset().count(rest@[0]) < b@.to_multiset().count(rest@[0]));
        } else {
            assert(rest@.to_multiset() =~= Multiset::empty());
            assert(a@.to_multiset() =~= b@.to_multiset());
        }
    }
    rest.len() == 0
}

/// Whether two lists of texts hold the same texts, each as often.
pub fn same_texts(a: &Vec<String>, b: &Vec<String>) -> (r: bool)
    ensures
        r == (a.deep_view().to_multiset() == b.deep_view().to_multiset()),
{
    let mut rest = crate::text::copy_texts(b);
    let mut i: usize = 0;
    let ghost av = a.deep_view();
    let ghost bv = b.deep_view();
    proof {
        av.take(0).to_multiset_ensures();
        assert(av.take(0).to_multiset() =~= Multiset::empty());
        assert(av.take(0).to_multiset().add(rest.deep_view().to_multiset()) =~= bv.to_multiset());
    }
    while i < a.len()
        invariant
            i <= a.len(),
            av == a.deep_view(),
            bv == b.deep_view(),
            av.take(i as int).to_multiset().add(rest.deep_view().to_multiset()) == bv.to_multiset(),
        decreases a.len() - i,
    {
        let mut k: usize = 0;
        while k < rest.len() && rest[k] != a[i]
            invariant
                i < a.len(),
                k <= rest.len(),
                forall|m: int| 0 <= m < k ==> #[trigger] rest[m]@ != a[i as int]@,
            decreases rest.len() - k,
        {
            k += 1;
        }
        proof {
            lemma_take_next(av, i as int);
            lemma_take_count(av, i + 1, av[i as int]);
        }
        let ghost before = rest.deep_view();
        if k == rest.len() {
            proof {
                before.to_multiset_ensures();
                assert(!before.contains(av[i as int])) by {
                    assert forall|m: int| 0 <= m < before.len() implies before[m] != av[i as int] by {
                        assert(before[m] == rest[m]@);
                    }
                }
                assert(av.to_multiset().count(av[i as int]) > bv.to_multiset().count(
                    av[i as int],
                ));
            }
            return false;
        }
        proof {
            assert(before[k as int] == rest[k as int]@);
            lemma_remove(before, k as int);
        }
        rest.remove(k);
        i += 1;
        proof {
            assert(rest.deep_view() =~= before.remove(k as int));
            assert(av.take(i as int).to_multiset().add(rest.deep_view().to_multiset()) =~= av.take(
                i - 1,
            ).to_multiset().add(before.to_multiset()));
        }
    }
    proof {
        let left = rest.deep_view();
        assert(av.take(i as int) =~= av);
        left.to_multiset_ensures();
        if left.len() > 0 {
            assert(left.to_multiset().count(left[0]) > 0) by {
                assert(left.contains(left[0]));
            }
            assert(av.to_multiset().count(left[0]) < bv.to_multiset().count(left[0]));
        } else {
            assert(left.to_multiset() =~= Multiset::empty());
            assert(av.to_multiset() =~= bv.to_multiset());
        }
    }
    rest.len() == 0
}

} // verus!
