//! A stable sort.
use vstd::prelude::*;

verus! {

/// `x` put into `s` before the first element that it does not come after.
pub open spec fn inserted<T>(x: T, s: Seq<T>, less: spec_fn(T, T) -> bool) -> Seq<T>
    decreases s.len(),
{
    if s.len() > 0 && less(s[0], x) {
        seq![s[0]] + inserted(x, s.skip(1), less)
    } else {
        seq![x] + s
    }
}

/// `s` in order; what ranks the same stays in the order it had.
pub open spec fn sorted_by<T>(s: Seq<T>, less: spec_fn(T, T) -> bool) -> Seq<T>
    decreases s.len(),
{
    if s.len() == 0 {
        s
    } else {
        inserted(s[0], sorted_by(s.skip(1), less), less)
    }
}

/// Whether `less` ranks all values: it is asymmetric, and what neither comes
/// before nor after something ranks the same as it does.
pub open spec fn ranks<T>(less: spec_fn(T, T) -> bool) -> bool {
    &&& forall|a: T, b: T| #[trigger] less(a, b) ==> !less(b, a)
    &&& forall|a: T, b: T, c: T| #![trigger less(b, a), less(c, b)] !less(b, a) && !less(c, b) ==> !less(c, a)
}

/// Whether nothing in `s` comes before something that stands earlier.
pub open spec fn in_rank_order<T>(s: Seq<T>, less: spec_fn(T, T) -> bool) -> bool {
    forall|i: int, j: int| 0 <= i < j < s.len() ==> !#[trigger] less(s[j], s[i])
}

/// Insertion moves elements only.
proof fn inserted_permutes<T>(x: T, s: Seq<T>, less: spec_fn(T, T) -> bool)
    ensures
        inserted(x, s, less).to_multiset() == s.to_multiset().insert(x),
        inserted(x, s, less).len() == s.len() + 1,
    decreases s.len(),
{
    broadcast use vstd::seq_lib::group_to_multiset_ensures;

    if s.len() > 0 && less(s[0], x) {
        inserted_permutes(x, s.skip(1), less);
        vstd::seq_lib::lemma_multiset_commutative(seq![s[0]], inserted(x, s.skip(1), less));
        vstd::seq_lib::lemma_multiset_commutative(seq![s[0]], s.skip(1));
        assert(seq![s[0]] + s.skip(1) =~= s);
        assert(inserted(x, s, less).to_multiset() =~= s.to_multiset().insert(x));
    } else {
        vstd::seq_lib::lemma_multiset_commutative(seq![x], s);
        assert(seq![x] =~= Seq::<T>::empty().push(x));
        assert(seq![x].to_multiset() =~= vstd::multiset::Multiset::<T>::empty().insert(x));
        assert(inserted(x, s, less).to_multiset() =~= s.to_multiset().insert(x));
    }
}

/// Sorting moves elements only: nothing is lost, added or changed.
pub proof fn sorting_permutes<T>(s: Seq<T>, less: spec_fn(T, T) -> bool)
    ensures
        sorted_by(s, less).to_multiset() == s.to_multiset(),
        sorted_by(s, less).len() == s.len(),
    decreases s.len(),
{
    broadcast use vstd::seq_lib::group_to_multiset_ensures;

    if s.len() > 0 {
        sorting_permutes(s.skip(1), less);
        inserted_permutes(s[0], sorted_by(s.skip(1), less), less);
        vstd::seq_lib::lemma_multiset_commutative(seq![s[0]], s.skip(1));
        assert(seq![s[0]] + s.skip(1) =~= s);
        assert(seq![s[0]] =~= Seq::<T>::empty().push(s[0]));
        assert(seq![s[0]].to_multiset() =~= vstd::multiset::Multiset::<T>::empty().insert(s[0]));
        assert(sorted_by(s, less).to_multiset() =~= s.to_multiset());
    }
}

/// What insertion puts where.
proof fn inserted_members<T>(x: T, s: Seq<T>, less: spec_fn(T, T) -> bool, i: int)
    requires
        0 <= i < inserted(x, s, less).len(),
    ensures
        inserted(x, s, less)[i] == x || exists|k: int| 0 <= k < s.len() && inserted(x, s, less)[i] == s[k],
    decreases s.len(),
{
    if s.len() > 0 && less(s[0], x) {
        if i > 0 {
            inserted_members(x, s.skip(1), less, i - 1);
            let y = inserted(x, s.skip(1), less)[i - 1];
            if y != x {
                let k = choose|k: int| 0 <= k < s.skip(1).len() && y == s.skip(1)[k];
                assert(s[k + 1] == y);
            }
        } else {
            assert(inserted(x, s, less)[i] == s[0]);
        }
    } else if i > 0 {
        assert(inserted(x, s, less)[i] == s[i - 1]);
    }
}

/// Insertion keeps the order.
proof fn inserted_keeps_order<T>(x: T, s: Seq<T>, less: spec_fn(T, T) -> bool)
    requires
        ranks(less),
        in_rank_order(s, less),
    ensures
        in_rank_order(inserted(x, s, less), less),
    decreases s.len(),
{
    let out = inserted(x, s, less);
    if s.len() > 0 && less(s[0], x) {
        let rest = inserted(x, s.skip(1), less);
        assert forall|i: int, j: int| 0 <= i < j < s.skip(1).len() implies !#[trigger] less(
            s.skip(1)[j],
            s.skip(1)[i],
        ) by {
            assert(!less(s[j + 1], s[i + 1]));
        }
        inserted_keeps_order(x, s.skip(1), less);
        assert forall|i: int, j: int| 0 <= i < j < out.len() implies !#[trigger] less(out[j], out[i]) by {
            if i == 0 {
                inserted_members(x, s.skip(1), less, j - 1);
                assert(out[j] == rest[j - 1]);
                if rest[j - 1] != x {
                    let k = choose|k: int| 0 <= k < s.skip(1).len() && rest[j - 1] == s.skip(1)[k];
                    assert(!less(s[k + 1], s[0]));
                }
            } else {
                assert(!less(rest[j - 1], rest[i - 1]));
            }
        }
    } else {
        assert forall|i: int, j: int| 0 <= i < j < out.len() implies !#[trigger] less(out[j], out[i]) by {
            if i == 0 {
                if j > 1 {
                    assert(!less(s[j - 1], s[0]));
                }
                assert(!less(s[0], x));
            } else {
                assert(!less(s[j - 1], s[i - 1]));
            }
        }
    }
}

/// Sorting puts everything in order.
pub proof fn sorting_orders<T>(s: Seq<T>, less: spec_fn(T, T) -> bool)
    requires
        ranks(less),
    ensures
        in_rank_order(sorted_by(s, less), less),
    decreases s.len(),
{
    if s.len() > 0 {
        sorting_orders(s.skip(1), less);
        inserted_keeps_order(s[0], sorted_by(s.skip(1), less), less);
    }
}

/// Whether two values rank the same.
pub open spec fn same_rank<T>(a: T, b: T, less: spec_fn(T, T) -> bool) -> bool {
    !less(a, b) && !less(b, a)
}

/// A filter looks at each element on its own.
proof fn filter_front<T>(x: T, s: Seq<T>, p: spec_fn(T) -> bool)
    ensures
        (seq![x] + s).filter(p) == (if p(x) {
            seq![x]
        } else {
            Seq::empty()
        }) + s.filter(p),
{
    reveal(Seq::filter);
    Seq::filter_distributes_over_add(seq![x], s, p);
    assert(seq![x].drop_last() =~= Seq::<T>::empty());
    reveal_with_fuel(Seq::filter, 2);
    assert(seq![x].drop_last().filter(p) =~= Seq::<T>::empty());
    assert(Seq::<T>::empty().push(x) =~= seq![x]);
    assert(seq![x].filter(p) =~= (if p(x) {
        seq![x]
    } else {
        Seq::empty()
    }));
}

/// Insertion puts an element before its equals.
proof fn inserted_is_stable<T>(x: T, s: Seq<T>, less: spec_fn(T, T) -> bool, k: T)
    requires
        ranks(less),
    ensures
        inserted(x, s, less).filter(|y: T| same_rank(y, k, less)) == (seq![x] + s).filter(
            |y: T| same_rank(y, k, less),
        ),
    decreases s.len(),
{
    let p = |y: T| same_rank(y, k, less);
    if s.len() > 0 && less(s[0], x) {
        inserted_is_stable(x, s.skip(1), less, k);
        filter_front(s[0], inserted(x, s.skip(1), less), p);
        filter_front(x, s.skip(1), p);
        filter_front(x, s, p);
        filter_front(s[0], s.skip(1), p);
        assert(seq![s[0]] + s.skip(1) =~= s);
        if p(x) {
            assert(!p(s[0])) by {
                if p(s[0]) {
                    assert(!less(k, x) && !less(s[0], k));
                    assert(!less(s[0], x));
                }
            }
        }
        assert(inserted(x, s, less).filter(p) =~= (seq![x] + s).filter(p));
    }
}

/// Sorting is stable: among elements that rank the same as `k`, the order stays.
pub proof fn sorting_is_stable<T>(s: Seq<T>, less: spec_fn(T, T) -> bool, k: T)
    requires
        ranks(less),
    ensures
        sorted_by(s, less).filter(|y: T| same_rank(y, k, less)) == s.filter(|y: T| same_rank(y, k, less)),
    decreases s.len(),
{
    let p = |y: T| same_rank(y, k, less);
    if s.len() > 0 {
        sorting_is_stable(s.skip(1), less, k);
        inserted_is_stable(s[0], sorted_by(s.skip(1), less), less, k);
        filter_front(s[0], sorted_by(s.skip(1), less), p);
        filter_front(s[0], s.skip(1), p);
        assert(seq![s[0]] + s.skip(1) =~= s);
    }
}

/// Sort `v`; `less` computes `rank`.
pub(crate) fn sort<T, F: Fn(&T, &T) -> bool>(v: Vec<T>, less: F, rank: Ghost<spec_fn(T, T) -> bool>) -> (out: Vec<T>)
    requires
        forall|a: T, b: T| #[trigger] call_requires(less, (&a, &b)),
        forall|a: T, b: T, r: bool| #[trigger] call_ensures(less, (&a, &b), r) ==> r == (rank@)(a, b),
    ensures
        out@ == sorted_by(v@, rank@),
{
    let mut rest: Vec<T> = v;
    let mut out: Vec<T> = Vec::new();
    let ghost whole = v@;
    assert(whole.skip(whole.len() as int) =~= Seq::<T>::empty());
    assert(out@ =~= sorted_by(whole.skip(whole.len() as int), rank@));
    while rest.len() > 0
        invariant
            rest@.len() <= whole.len(),
            rest@ == whole.take(rest@.len() as int),
            out@ == sorted_by(whole.skip(rest@.len() as int), rank@),
            forall|a: T, b: T| #[trigger] call_requires(less, (&a, &b)),
            forall|a: T, b: T, r: bool| #[trigger] call_ensures(less, (&a, &b), r) ==> r == (rank@)(a, b),
        decreases rest@.len(),
    {
        let ghost n = rest@.len();
        match rest.pop() {
            None => {},
            Some(x) => {
                let ghost done = out@;
                let mut i: usize = 0;
                assert(done.skip(0) =~= done);
                assert(done.take(0) + inserted(x, done, rank@) =~= inserted(x, done, rank@));
                while i < out.len() && less(&out[i], &x)
                    invariant
                        i <= out@.len(),
                        out@ == done,
                        inserted(x, done, rank@) == done.take(i as int) + inserted(x, done.skip(i as int), rank@),
                        forall|a: T, b: T| #[trigger] call_requires(less, (&a, &b)),
                        forall|a: T, b: T, r: bool| #[trigger] call_ensures(less, (&a, &b), r) ==> r == (rank@)(a, b),
                    ensures
                        i <= out@.len(),
                        out@ == done,
                        inserted(x, done, rank@) == done.take(i as int) + (seq![x] + done.skip(i as int)),
                    decreases out@.len() - i,
                {
                    assert(done.skip(i as int).skip(1) =~= done.skip(i + 1));
                    assert(done.take(i as int) + (seq![done[i as int]] + inserted(x, done.skip(i + 1), rank@))
                        =~= done.take(i + 1) + inserted(x, done.skip(i + 1), rank@));
                    i += 1;
                }
                out.insert(i, x);
                assert(out@ =~= inserted(x, done, rank@));
                let ghost tail = whole.skip(n - 1);
                assert(tail.skip(1) =~= whole.skip(n as int));
                assert(tail[0] == x);
            },
        }
        assert(rest@ =~= whole.take(n - 1));
    }
    assert(whole.skip(0) =~= whole);
    out
}

} // verus!
