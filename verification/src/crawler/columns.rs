//! Spec tools for the two parallel columns of a characteristics table: the
//! titles and the values, read row by row.
use vstd::prelude::*;

verus! {

/// `f(0) + f(1) + ... + f(n - 1)`.
pub open spec fn collect<A>(n: int, f: spec_fn(int) -> Seq<A>) -> Seq<A>
    decreases n,
{
    if n <= 0 {
        seq![]
    } else {
        collect(n - 1, f) + f(n - 1)
    }
}

/// The rows `i < n` for which `p(i)` holds, in increasing order.
pub open spec fn select(n: int, p: spec_fn(int) -> bool) -> Seq<usize>
    decreases n,
{
    if n <= 0 {
        seq![]
    } else if p(n - 1) {
        select(n - 1, p).push((n - 1) as usize)
    } else {
        select(n - 1, p)
    }
}

/// The value held by `o`, as a sequence of zero or one element.
pub open spec fn opt_seq<A>(o: Option<A>) -> Seq<A> {
    match o {
        Some(a) => seq![a],
        None => seq![],
    }
}

/// `s` without the elements at the positions listed in `idx`, in order.
pub open spec fn without_indexes<A>(s: Seq<A>, idx: Seq<usize>) -> Seq<A>
    decreases s.len(),
{
    if s.len() == 0 {
        seq![]
    } else if idx.contains((s.len() - 1) as usize) {
        without_indexes(s.drop_last(), idx)
    } else {
        without_indexes(s.drop_last(), idx).push(s.last())
    }
}

/// Every row selected by `select(n, p)` is below `n` and satisfies `p`.
pub proof fn lemma_select_members(n: int, p: spec_fn(int) -> bool)
    requires
        n <= usize::MAX + 1,
    ensures
        forall|k: int|
            0 <= k < select(n, p).len() ==> 0 <= #[trigger] select(n, p)[k] < n && p(
                select(n, p)[k] as int,
            ),
    decreases n,
{
    if n > 0 {
        lemma_select_members(n - 1, p);
        let prev = select(n - 1, p);
        if p(n - 1) {
            assert forall|k: int| 0 <= k < select(n, p).len() implies 0 <= #[trigger] select(
                n,
                p,
            )[k] < n && p(select(n, p)[k] as int) by {
                if k < prev.len() {
                    assert(select(n, p)[k] == prev[k]);
                }
            }
        }
    }
}

/// The rows selected by `select(n, p)` are strictly increasing.
pub proof fn lemma_select_increasing(n: int, p: spec_fn(int) -> bool)
    requires
        n <= usize::MAX + 1,
    ensures
        forall|a: int, b: int|
            0 <= a < b < select(n, p).len() ==> #[trigger] select(n, p)[a] < #[trigger] select(
                n,
                p,
            )[b],
    decreases n,
{
    if n > 0 {
        lemma_select_increasing(n - 1, p);
        lemma_select_members(n - 1, p);
        let prev = select(n - 1, p);
        if p(n - 1) {
            assert forall|a: int, b: int| 0 <= a < b < select(n, p).len() implies #[trigger] select(
                n,
                p,
            )[a] < #[trigger] select(n, p)[b] by {
                assert(select(n, p)[a] == prev[a]);
                if b < prev.len() {
                    assert(select(n, p)[b] == prev[b]);
                }
            }
        }
    }
}


/// The rows of two selections that no row satisfies both of are all distinct
/// and below `n`.
pub proof fn lemma_disjoint_selections(n: int, p: spec_fn(int) -> bool, q: spec_fn(int) -> bool)
    requires
        0 <= n <= usize::MAX + 1,
        forall|i: int| 0 <= i < n ==> !(#[trigger] p(i) && q(i)),
    ensures
        (select(n, p) + select(n, q)).no_duplicates(),
        forall|k: int|
            0 <= k < (select(n, p) + select(n, q)).len() ==> #[trigger] (select(n, p) + select(
                n,
                q,
            ))[k] < n,
{
    let a = select(n, p);
    let b = select(n, q);
    let s = a + b;
    lemma_select_members(n, p);
    lemma_select_members(n, q);
    lemma_select_increasing(n, p);
    lemma_select_increasing(n, q);
    assert forall|i: int, j: int| 0 <= i < s.len() && 0 <= j < s.len() && i != j implies s[i]
        != s[j] by {
        if i < a.len() && j < a.len() {
            if i < j {
                assert(a[i] < a[j]);
            } else {
                assert(a[j] < a[i]);
            }
        } else if i >= a.len() && j >= a.len() {
            if i < j {
                assert(b[i - a.len()] < b[j - a.len()]);
            } else {
                assert(b[j - a.len()] < b[i - a.len()]);
            }
        } else if i < a.len() {
            let r = a[i] as int;
            assert(p(r));
            if s[i] == s[j] {
                assert(b[j - a.len()] == a[i]);
                assert(q(b[j - a.len()] as int));
                assert(!(p(r) && q(r)));
            }
        } else {
            let r = a[j] as int;
            assert(p(r));
            if s[i] == s[j] {
                assert(b[i - a.len()] == a[j]);
                assert(q(b[i - a.len()] as int));
                assert(!(p(r) && q(r)));
            }
        }
    }
    assert forall|k: int| 0 <= k < s.len() implies #[trigger] s[k] < n by {
        if k < a.len() {
            assert(s[k] == a[k]);
        } else {
            assert(s[k] == b[k - a.len()]);
        }
    }
}


/// Selecting with a predicate that never holds selects nothing.
pub proof fn lemma_select_none(n: int, p: spec_fn(int) -> bool)
    requires
        forall|i: int| !#[trigger] p(i),
    ensures
        select(n, p) == Seq::<usize>::empty(),
    decreases n,
{
    if n > 0 {
        lemma_select_none(n - 1, p);
    }
}


/// Dropping the same rows from two columns of equal length leaves two columns
/// of equal length: titles and values stay aligned.
pub proof fn lemma_columns_stay_aligned<A, B>(a: Seq<A>, b: Seq<B>, idx: Seq<usize>)
    requires
        a.len() == b.len(),
    ensures
        without_indexes(a, idx).len() == without_indexes(b, idx).len(),
    decreases a.len(),
{
    if a.len() > 0 {
        lemma_columns_stay_aligned(a.drop_last(), b.drop_last(), idx);
    }
}

/// Dropping the same rows from a column and from a column at least as long
/// leaves the second at least as long.
pub proof fn lemma_shorter_column_stays_shorter<A, B>(a: Seq<A>, b: Seq<B>, idx: Seq<usize>)
    requires
        a.len() <= b.len(),
    ensures
        without_indexes(a, idx).len() <= without_indexes(b, idx).len(),
    decreases b.len(),
{
    if a.len() == b.len() {
        lemma_columns_stay_aligned(a, b, idx);
    } else {
        lemma_shorter_column_stays_shorter(a, b.drop_last(), idx);
    }
}

/// Which rows are dropped depends only on which rows below the length are
/// listed.
proof fn lemma_without_indexes_same_rows<A>(s: Seq<A>, a: Seq<usize>, b: Seq<usize>)
    requires
        forall|k: usize| k < s.len() ==> (a.contains(k) <==> b.contains(k)),
    ensures
        without_indexes(s, a) == without_indexes(s, b),
    decreases s.len(),
{
    if s.len() > 0 {
        assert(a.contains((s.len() - 1) as usize) <==> b.contains((s.len() - 1) as usize));
        lemma_without_indexes_same_rows(s.drop_last(), a, b);
    }
}

/// Dropping distinct rows of a column shortens it by their number:
/// `remove_parsed_indexes` removes exactly the rows it is given.
pub proof fn lemma_without_indexes_len<A>(s: Seq<A>, idx: Seq<usize>)
    requires
        s.len() <= usize::MAX,
        idx.no_duplicates(),
        forall|k: int| 0 <= k < idx.len() ==> #[trigger] idx[k] < s.len(),
    ensures
        without_indexes(s, idx).len() == s.len() - idx.len(),
    decreases s.len(),
{
    if s.len() == 0 {
        if idx.len() > 0 {
            assert(idx[0] < s.len());
        }
    } else {
        let last = (s.len() - 1) as usize;
        assert(last == s.len() - 1);
        if idx.contains(last) {
            let j = choose|j: int| 0 <= j < idx.len() && idx[j] == last;
            let rest = idx.remove(j);
            assert forall|a: int, b: int| 0 <= a < b < rest.len() implies rest[a] != rest[b] by {
                let a2 = if a < j { a } else { a + 1 };
                let b2 = if b < j { b } else { b + 1 };
                assert(rest[a] == idx[a2]);
                assert(rest[b] == idx[b2]);
            }
            assert forall|k: int| 0 <= k < rest.len() implies #[trigger] rest[k] < s.drop_last().len() by {
                let k2 = if k < j { k } else { k + 1 };
                assert(rest[k] == idx[k2]);
                assert(k2 != j);
            }
            assert forall|k: usize| k < s.drop_last().len() implies (idx.contains(k) <==> rest.contains(k)) by {
                if idx.contains(k) {
                    let m = choose|m: int| 0 <= m < idx.len() && idx[m] == k;
                    assert(m != j);
                    let m2 = if m < j { m } else { m - 1 };
                    assert(rest[m2] == k);
                }
                if rest.contains(k) {
                    let m = choose|m: int| 0 <= m < rest.len() && rest[m] == k;
                    let m2 = if m < j { m } else { m + 1 };
                    assert(idx[m2] == k);
                }
            }
            lemma_without_indexes_same_rows(s.drop_last(), idx, rest);
            lemma_without_indexes_len(s.drop_last(), rest);
        } else {
            assert forall|k: int| 0 <= k < idx.len() implies #[trigger] idx[k] < s.drop_last().len() by {
                assert(idx[k] != last);
            }
            lemma_without_indexes_len(s.drop_last(), idx);
        }
    }
}

/// `idx` from the largest position down.
pub open spec fn largest_first(idx: Seq<usize>) -> Seq<usize> {
    idx.sort_by(|a: usize, b: usize| a >= b)
}

/// `s` with the elements at the positions of `idx` removed one after another,
/// each position taken in what the removals before it left.
pub open spec fn remove_in_turn<A>(s: Seq<A>, idx: Seq<usize>) -> Seq<A>
    decreases idx.len(),
{
    if idx.len() == 0 {
        s
    } else {
        remove_in_turn(s.remove(idx[0] as int), idx.drop_first())
    }
}

/// Every removal of `remove_in_turn(s, idx)` falls inside what is left of a
/// sequence of length `n`.
pub open spec fn removals_fit(n: int, idx: Seq<usize>) -> bool {
    forall|k: int| 0 <= k < idx.len() ==> #[trigger] idx[k] < n - k
}

/// `a >= b` is a total order on positions.
pub proof fn lemma_largest_first_order()
    ensures
        vstd::relations::total_ordering(|a: usize, b: usize| a >= b),
{
    let geq = |a: usize, b: usize| a >= b;
    assert(vstd::relations::reflexive(geq));
    assert(vstd::relations::antisymmetric(geq));
    assert(vstd::relations::transitive(geq));
    assert(vstd::relations::strongly_connected(geq));
}

/// Removing in turn from a sequence with one more element at its end, at
/// positions that all fall before that element, keeps it at the end.
proof fn lemma_remove_in_turn_push<A>(x: Seq<A>, e: A, idx: Seq<usize>)
    requires
        removals_fit(x.len() as int, idx),
    ensures
        remove_in_turn(x.push(e), idx) == remove_in_turn(x, idx).push(e),
    decreases idx.len(),
{
    if idx.len() > 0 {
        let i = idx[0] as int;
        assert(idx[0] < x.len());
        assert(x.push(e).remove(i) =~= x.remove(i).push(e));
        assert forall|k: int| 0 <= k < idx.drop_first().len() implies #[trigger] idx.drop_first()[k] < x.remove(i).len() - k by {
            assert(idx.drop_first()[k] == idx[k + 1]);
        }
        lemma_remove_in_turn_push(x.remove(i), e, idx.drop_first());
    }
}

/// A strictly decreasing run of positions below `n` fits: its `k`-th
/// element is below `n - k`.
proof fn lemma_strictly_decreasing_fits(n: int, idx: Seq<usize>)
    requires
        forall|a: int, b: int| 0 <= a < b < idx.len() ==> #[trigger] idx[a] > #[trigger] idx[b],
        forall|k: int| 0 <= k < idx.len() ==> #[trigger] idx[k] < n,
    ensures
        removals_fit(n, idx),
    decreases idx.len(),
{
    if idx.len() > 0 {
        let rest = idx.drop_first();
        assert forall|k: int| 0 <= k < rest.len() implies #[trigger] rest[k] < idx[0] by {
            assert(rest[k] == idx[k + 1]);
            assert(idx[0] > idx[k + 1]);
        }
        assert forall|a: int, b: int| 0 <= a < b < rest.len() implies #[trigger] rest[a] > #[trigger] rest[b] by {
            assert(rest[a] == idx[a + 1]);
            assert(rest[b] == idx[b + 1]);
        }
        lemma_strictly_decreasing_fits(idx[0] as int, rest);
        assert forall|k: int| 0 <= k < idx.len() implies #[trigger] idx[k] < n - k by {
            if k > 0 {
                assert(idx[k] == rest[k - 1]);
            }
        }
    }
}

/// Removing in turn the positions of a strictly decreasing run drops exactly
/// those positions.
proof fn lemma_remove_in_turn_drops<A>(s: Seq<A>, idx: Seq<usize>)
    requires
        s.len() <= usize::MAX,
        forall|a: int, b: int| 0 <= a < b < idx.len() ==> #[trigger] idx[a] > #[trigger] idx[b],
        forall|k: int| 0 <= k < idx.len() ==> #[trigger] idx[k] < s.len(),
    ensures
        remove_in_turn(s, idx) == without_indexes(s, idx),
    decreases s.len(),
{
    if s.len() == 0 {
        if idx.len() > 0 {
            assert(idx[0] < s.len());
        }
    } else {
        let last = (s.len() - 1) as usize;
        assert(last == s.len() - 1);
        let rest = idx.drop_first();
        if idx.contains(last) {
            let j = choose|j: int| 0 <= j < idx.len() && idx[j] == last;
            if j > 0 {
                assert(idx[0] > idx[j]);
            }
            assert(idx[0] == last);
            assert(s.remove(last as int) =~= s.drop_last());
            assert forall|a: int, b: int| 0 <= a < b < rest.len() implies #[trigger] rest[a] > #[trigger] rest[b] by {
                assert(rest[a] == idx[a + 1]);
                assert(rest[b] == idx[b + 1]);
            }
            assert forall|k: int| 0 <= k < rest.len() implies #[trigger] rest[k] < s.drop_last().len() by {
                assert(rest[k] == idx[k + 1]);
                assert(idx[0] > idx[k + 1]);
            }
            lemma_remove_in_turn_drops(s.drop_last(), rest);
            assert forall|k: usize| k < s.drop_last().len() implies (idx.contains(k) <==> rest.contains(k)) by {
                if idx.contains(k) {
                    let m = choose|m: int| 0 <= m < idx.len() && idx[m] == k;
                    assert(m != 0);
                    assert(rest[m - 1] == k);
                }
                if rest.contains(k) {
                    let m = choose|m: int| 0 <= m < rest.len() && rest[m] == k;
                    assert(idx[m + 1] == k);
                }
            }
            lemma_without_indexes_same_rows(s.drop_last(), idx, rest);
        } else {
            assert forall|k: int| 0 <= k < idx.len() implies #[trigger] idx[k] < s.drop_last().len() by {
                assert(idx[k] != last);
            }
            lemma_strictly_decreasing_fits(s.drop_last().len() as int, idx);
            assert(s =~= s.drop_last().push(s.last()));
            lemma_remove_in_turn_push(s.drop_last(), s.last(), idx);
            lemma_remove_in_turn_drops(s.drop_last(), idx);
        }
    }
}

/// Distinct rows of a table, taken from the largest down, can be removed one
/// after another, and removing them so drops exactly those rows: what
/// `remove_parsed_indexes` does to a column is `without_indexes`.
pub proof fn lemma_distinct_rows_removed<A>(s: Seq<A>, idx: Seq<usize>)
    requires
        s.len() <= usize::MAX,
        idx.no_duplicates(),
        forall|k: int| 0 <= k < idx.len() ==> #[trigger] idx[k] < s.len(),
    ensures
        removals_fit(s.len() as int, largest_first(idx)),
        remove_in_turn(s, largest_first(idx)) == without_indexes(s, idx),
        remove_in_turn(s, largest_first(idx)).len() == s.len() - idx.len(),
{
    let geq = |a: usize, b: usize| a >= b;
    lemma_largest_first_order();
    idx.lemma_sort_by_ensures(geq);
    let d = largest_first(idx);
    assert(d.to_multiset() == idx.to_multiset());
    broadcast use vstd::seq_lib::group_to_multiset_ensures;
    assert forall|k: int| 0 <= k < d.len() implies #[trigger] d[k] < s.len() by {
        assert(d.to_multiset().count(d[k]) > 0);
        assert(idx.contains(d[k]));
    }
    idx.lemma_multiset_has_no_duplicates();
    assert forall|a: int, b: int| 0 <= a < b < d.len() implies #[trigger] d[a] > #[trigger] d[b] by {
        assert(geq(d[a], d[b]));
        if d[a] == d[b] {
            let m = d.to_multiset();
            assert(idx.to_multiset().count(d[a]) == 1);
            assert(d.remove(b).to_multiset() == m.remove(d[b]));
            assert(d.remove(b)[a] == d[a]);
            assert(d.remove(b).to_multiset().count(d[a]) > 0);
        }
    }
    lemma_strictly_decreasing_fits(s.len() as int, d);
    lemma_remove_in_turn_drops(s, d);
    assert forall|k: usize| k < s.len() implies (d.contains(k) <==> idx.contains(k)) by {
        assert(d.contains(k) <==> d.to_multiset().count(k) > 0);
        assert(idx.contains(k) <==> idx.to_multiset().count(k) > 0);
    }
    lemma_without_indexes_same_rows(s, d, idx);
    lemma_without_indexes_len(s, idx);
}

} // verus!
