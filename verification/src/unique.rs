//! Order-preserving removal of duplicates, the rule behind every room list.

use itertools::Itertools;
use vstd::prelude::*;

verus! {

/// The text of each string of `v`, in the same order.
pub open spec fn names(v: Seq<String>) -> Seq<Seq<char>> {
    v.map_values(|s: String| s@)
}

/// `s` without its repetitions: each value stays where it first occurred.
pub open spec fn first_occurrences<T>(s: Seq<T>) -> Seq<T>
    decreases s.len(),
{
    if s.len() == 0 {
        Seq::empty()
    } else {
        let init = first_occurrences(s.drop_last());
        if init.contains(s.last()) {
            init
        } else {
            init.push(s.last())
        }
    }
}

/// The least index at which `x` stands in `s`, or `s.len()` where it stands nowhere.
pub open spec fn first_position<T>(s: Seq<T>, x: T) -> int
    decreases s.len(),
{
    if s.len() == 0 {
        0
    } else if s.drop_last().contains(x) {
        first_position(s.drop_last(), x)
    } else if s.last() == x {
        s.len() - 1
    } else {
        s.len() as int
    }
}

proof fn lemma_contains_last<T>(s: Seq<T>, x: T)
    requires
        s.len() > 0,
    ensures
        s.contains(x) <==> (s.drop_last().contains(x) || s.last() == x),
{
    let init = s.drop_last();
    if s.contains(x) {
        let i = choose|i: int| 0 <= i < s.len() && s[i] == x;
        if i < s.len() - 1 {
            assert(init[i] == x);
        }
    }
    if init.contains(x) {
        let i = choose|i: int| 0 <= i < init.len() && init[i] == x;
        assert(s[i] == x);
    }
    if s.last() == x {
        assert(s[s.len() - 1] == x);
    }
}

proof fn lemma_contains_push<T>(s: Seq<T>, y: T, x: T)
    ensures
        s.push(y).contains(x) <==> (s.contains(x) || y == x),
{
    let t = s.push(y);
    assert(t.drop_last() =~= s);
    lemma_contains_last(t, x);
}

/// Nothing is lost and nothing is made up: `first_occurrences(s)` holds exactly the values
/// of `s`.
pub proof fn lemma_first_occurrences_same_values<T>(s: Seq<T>)
    ensures
        forall|x: T| first_occurrences(s).contains(x) <==> s.contains(x),
    decreases s.len(),
{
    if s.len() > 0 {
        let init = first_occurrences(s.drop_last());
        lemma_first_occurrences_same_values(s.drop_last());
        assert forall|x: T| first_occurrences(s).contains(x) <==> s.contains(x) by {
            lemma_contains_last(s, x);
            lemma_contains_push(init, s.last(), x);
        }
    }
}

/// No value stands twice in `first_occurrences(s)`.
pub proof fn lemma_first_occurrences_no_duplicates<T>(s: Seq<T>)
    ensures
        first_occurrences(s).no_duplicates(),
    decreases s.len(),
{
    if s.len() > 0 {
        lemma_first_occurrences_no_duplicates(s.drop_last());
    }
}

/// A sequence in which nothing stands twice is left as it is.
pub proof fn lemma_first_occurrences_fixed<T>(s: Seq<T>)
    requires
        s.no_duplicates(),
    ensures
        first_occurrences(s) == s,
    decreases s.len(),
{
    if s.len() > 0 {
        let init = s.drop_last();
        lemma_first_occurrences_fixed(init);
        assert(!init.contains(s.last())) by {
            if init.contains(s.last()) {
                let i = choose|i: int| 0 <= i < init.len() && init[i] == s.last();
                assert(s[i] == s[s.len() - 1]);
            }
        }
        assert(init.push(s.last()) =~= s);
    }
}

/// Removing duplicates twice is removing them once.
pub proof fn lemma_first_occurrences_idempotent<T>(s: Seq<T>)
    ensures
        first_occurrences(first_occurrences(s)) == first_occurrences(s),
{
    lemma_first_occurrences_no_duplicates(s);
    lemma_first_occurrences_fixed(first_occurrences(s));
}

/// Duplicates may be removed from the front part first: the whole comes out the same.
pub proof fn lemma_first_occurrences_absorbs_front<T>(a: Seq<T>, b: Seq<T>)
    ensures
        first_occurrences(first_occurrences(a) + b) == first_occurrences(a + b),
    decreases b.len(),
{
    if b.len() == 0 {
        assert(first_occurrences(a) + b =~= first_occurrences(a));
        assert(a + b =~= a);
        lemma_first_occurrences_idempotent(a);
    } else {
        lemma_first_occurrences_absorbs_front(a, b.drop_last());
        assert((first_occurrences(a) + b).drop_last() =~= first_occurrences(a) + b.drop_last());
        assert((a + b).drop_last() =~= a + b.drop_last());
    }
}

/// Duplicates may be removed from the back part first: the whole comes out the same.
pub proof fn lemma_first_occurrences_absorbs_back<T>(a: Seq<T>, b: Seq<T>)
    ensures
        first_occurrences(a + first_occurrences(b)) == first_occurrences(a + b),
    decreases b.len(),
{
    if b.len() == 0 {
        assert(a + first_occurrences(b) =~= a + b);
    } else {
        let init = b.drop_last();
        let last = b.last();
        lemma_first_occurrences_absorbs_back(a, init);
        assert((a + b).drop_last() =~= a + init);
        if first_occurrences(init).contains(last) {
            // `last` already stands in `a + init`, so it adds nothing on either side
            lemma_first_occurrences_same_values(init);
            lemma_first_occurrences_same_values(a + init);
            assert(init.contains(last));
            let i = choose|i: int| 0 <= i < init.len() && init[i] == last;
            assert((a + init)[a.len() + i] == last);
            assert((a + init).contains(last));
        } else {
            let kept = first_occurrences(init).push(last);
            assert((a + kept).drop_last() =~= a + first_occurrences(init));
        }
    }
}

/// What comes of two lists in turn is what comes of both at once:
/// normalising `front`, then adding `back` and normalising again, gives the
/// normal form of `front + back`.
pub proof fn lemma_first_occurrences_in_steps<T>(kept: Seq<T>, front: Seq<T>, back: Seq<T>)
    ensures
        first_occurrences(first_occurrences(kept + front) + back) == first_occurrences(
            kept + (front + back),
        ),
{
    lemma_first_occurrences_absorbs_front(kept + front, back);
    assert((kept + front) + back =~= kept + (front + back));
}

/// `first_position` finds `x` where `s` holds it, and nothing equal to `x` stands before.
pub proof fn lemma_first_position<T>(s: Seq<T>, x: T)
    ensures
        0 <= first_position(s, x) <= s.len(),
        s.contains(x) <==> first_position(s, x) < s.len(),
        s.contains(x) ==> s[first_position(s, x)] == x,
        forall|i: int| 0 <= i < first_position(s, x) ==> s[i] != x,
    decreases s.len(),
{
    if s.len() > 0 {
        let init = s.drop_last();
        lemma_first_position(init, x);
        lemma_contains_last(s, x);
        assert forall|i: int| 0 <= i < first_position(s, x) implies s[i] != x by {
            if i < init.len() {
                assert(init[i] == s[i]);
                if !init.contains(x) && init[i] == x {
                    assert(init.contains(x));
                }
            }
        }
    }
}

/// The order is kept: of two values of `first_occurrences(s)`, the one that stands first
/// there is the one that `s` reaches first.
pub proof fn lemma_first_occurrences_keeps_order<T>(s: Seq<T>)
    ensures
        forall|i: int, j: int|
            0 <= i < j < first_occurrences(s).len() ==> first_position(
                s,
                #[trigger] first_occurrences(s)[i],
            ) < first_position(s, #[trigger] first_occurrences(s)[j]),
    decreases s.len(),
{
    if s.len() > 0 {
        let init = s.drop_last();
        let kept = first_occurrences(init);
        let all = first_occurrences(s);
        lemma_first_occurrences_keeps_order(init);
        lemma_first_occurrences_same_values(init);
        assert forall|i: int, j: int| 0 <= i < j < all.len() implies first_position(s, all[i])
            < first_position(s, all[j]) by {
            assert(kept.contains(all[i])) by {
                assert(kept[i] == all[i]);
            }
            assert(init.contains(all[i]));
            if j < kept.len() {
                assert(kept.contains(all[j])) by {
                    assert(kept[j] == all[j]);
                }
                assert(init.contains(all[j]));
            } else {
                lemma_first_position(init, all[i]);
            }
        }
    }
}

/// `Itertools::unique` over the strings of a list, collected into a list again. The
/// adaptor yields each string that it has not yielded before, told apart by `Eq` and
/// `Hash`, that is by their text, in the order in which the list holds them: of equal
/// strings the first one is kept.
#[verifier::external_body]
pub(crate) fn unique(items: Vec<String>) -> (kept: Vec<String>)
    ensures
        names(kept@) == first_occurrences(names(items@)),
{
    items.into_iter().unique().collect()
}

/// Whether a string with the text of `x` stands in `v`.
pub fn contains(v: &Vec<String>, x: &String) -> (found: bool)
    ensures
        found == names(v@).contains(x@),
{
    let mut i: usize = 0;
    while i < v.len()
        invariant
            i <= v.len(),
            forall|k: int| 0 <= k < i ==> names(v@)[k] != x@,
        decreases v.len() - i,
    {
        if v[i] == *x {
            assert(names(v@)[i as int] == x@);
            return true;
        }
        i += 1;
    }
    false
}

/// Appends to `target` the strings of `items` that it does not hold yet, each once and in
/// the order of `items`.
pub fn extend_unique(target: &mut Vec<String>, items: &Vec<String>)
    requires
        names(old(target)@).no_duplicates(),
    ensures
        names(final(target)@) == first_occurrences(names(old(target)@) + names(items@)),
        names(final(target)@).no_duplicates(),
{
    proof {
        lemma_first_occurrences_fixed(names(target@));
        assert(names(target@) + names(items@).take(0) =~= names(target@));
    }
    let mut i: usize = 0;
    while i < items.len()
        invariant
            i <= items.len(),
            names(target@) == first_occurrences(
                names(old(target)@) + names(items@).take(i as int),
            ),
        decreases items.len() - i,
    {
        let ghost before = names(old(target)@) + names(items@).take(i as int);
        let ghost after = names(old(target)@) + names(items@).take(i as int + 1);
        proof {
            assert(after.drop_last() =~= before);
            assert(after.last() == items@[i as int]@);
        }
        if !contains(target, &items[i]) {
            let ghost held = names(target@);
            target.push(items[i].clone());
            assert(names(target@) =~= held.push(items@[i as int]@));
        }
        i += 1;
    }
    proof {
        assert(names(items@).take(i as int) =~= names(items@));
        lemma_first_occurrences_no_duplicates(names(old(target)@) + names(items@));
    }
}

} // verus!
