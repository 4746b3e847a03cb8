//! Stable ordering of the entry list.
//!
//! [`stable_sort`] says what the ordered list is. The lemmas show that it is
//! in order, that entries which tie keep the order they had, and that a list
//! with these two properties is unique.

use crate::entry::{
    entry_precedes, entry_views, lemma_order_not_after, lemma_order_not_before, lemma_order_total,
    precedes, same_key, Entry, EntryView, SortDirection, SortField,
};
use vstd::prelude::*;
use vstd::seq_lib::{to_multiset_build, to_multiset_remove};

verus! {

/// No entry of `s` precedes one that stands before it.
pub open spec fn is_sorted(s: Seq<EntryView>, field: SortField, direction: SortDirection) -> bool {
    forall|i: int, j: int|
        0 <= i < j < s.len() ==> !precedes(#[trigger] s[j], #[trigger] s[i], field, direction)
}

/// The entries of `s` that tie with `r` under `field`, in the order they have
/// in `s`.
pub open spec fn class_of(s: Seq<EntryView>, r: EntryView, field: SortField) -> Seq<EntryView>
    decreases s.len(),
{
    if s.len() == 0 {
        Seq::empty()
    } else if same_key(s.last(), r, field) {
        class_of(s.drop_last(), r, field).push(s.last())
    } else {
        class_of(s.drop_last(), r, field)
    }
}

/// `t` holds the entries of `s`, and those that tie stand in the order they
/// have in `s`.
pub open spec fn keeps_ties(s: Seq<EntryView>, t: Seq<EntryView>, field: SortField) -> bool {
    forall|r: EntryView| #[trigger] class_of(t, r, field) == class_of(s, r, field)
}

/// Where a new last entry `x` goes in `t`: before the trailing entries that it
/// precedes, after everything else.
pub open spec fn insert_position(
    t: Seq<EntryView>,
    x: EntryView,
    field: SortField,
    direction: SortDirection,
) -> int
    decreases t.len(),
{
    if t.len() == 0 {
        0
    } else if precedes(x, t.last(), field, direction) {
        insert_position(t.drop_last(), x, field, direction)
    } else {
        t.len() as int
    }
}

/// The entries of `s` in the order given by `field` and `direction`; entries
/// that tie keep the order they have in `s`.
pub open spec fn stable_sort(s: Seq<EntryView>, field: SortField, direction: SortDirection) -> Seq<
    EntryView,
>
    decreases s.len(),
{
    if s.len() == 0 {
        Seq::empty()
    } else {
        let t = stable_sort(s.drop_last(), field, direction);
        t.insert(insert_position(t, s.last(), field, direction), s.last())
    }
}

proof fn lemma_class_push(s: Seq<EntryView>, x: EntryView, r: EntryView, field: SortField)
    ensures
        class_of(s.push(x), r, field) == if same_key(x, r, field) {
            class_of(s, r, field).push(x)
        } else {
            class_of(s, r, field)
        },
{
    assert(s.push(x).drop_last() =~= s);
}

proof fn lemma_class_concat(a: Seq<EntryView>, b: Seq<EntryView>, r: EntryView, field: SortField)
    ensures
        class_of(a + b, r, field) == class_of(a, r, field) + class_of(b, r, field),
    decreases b.len(),
{
    if b.len() == 0 {
        assert(a + b =~= a);
        assert(class_of(a, r, field) + class_of(b, r, field) =~= class_of(a, r, field));
    } else {
        lemma_class_concat(a, b.drop_last(), r, field);
        assert((a + b).drop_last() =~= a + b.drop_last());
        assert((class_of(a, r, field) + class_of(b.drop_last(), r, field)).push(b.last())
            =~= class_of(a, r, field) + class_of(b.drop_last(), r, field).push(b.last()));
    }
}

proof fn lemma_class_empty(s: Seq<EntryView>, r: EntryView, field: SortField)
    requires
        forall|i: int| 0 <= i < s.len() ==> !same_key(#[trigger] s[i], r, field),
    ensures
        class_of(s, r, field) == Seq::<EntryView>::empty(),
    decreases s.len(),
{
    if s.len() > 0 {
        lemma_class_empty(s.drop_last(), r, field);
    }
}

proof fn lemma_class_witness(s: Seq<EntryView>, r: EntryView, field: SortField) -> (i: int)
    requires
        class_of(s, r, field).len() > 0,
    ensures
        0 <= i < s.len(),
        same_key(s[i], r, field),
    decreases s.len(),
{
    if same_key(s.last(), r, field) {
        s.len() - 1
    } else {
        lemma_class_witness(s.drop_last(), r, field)
    }
}

proof fn lemma_insert_position(
    t: Seq<EntryView>,
    x: EntryView,
    field: SortField,
    direction: SortDirection,
)
    ensures
        0 <= insert_position(t, x, field, direction) <= t.len(),
        forall|k: int|
            insert_position(t, x, field, direction) <= k < t.len() ==> precedes(
                x,
                #[trigger] t[k],
                field,
                direction,
            ),
        insert_position(t, x, field, direction) > 0 ==> !precedes(
            x,
            t[insert_position(t, x, field, direction) - 1],
            field,
            direction,
        ),
    decreases t.len(),
{
    if t.len() > 0 && precedes(x, t.last(), field, direction) {
        let rest = t.drop_last();
        lemma_insert_position(rest, x, field, direction);
        assert forall|k: int|
            insert_position(t, x, field, direction) <= k < t.len() implies precedes(
            x,
            #[trigger] t[k],
            field,
            direction,
        ) by {
            if k < rest.len() {
                assert(t[k] == rest[k]);
            }
        }
    }
}

proof fn lemma_insert_sorted(
    t: Seq<EntryView>,
    x: EntryView,
    field: SortField,
    direction: SortDirection,
)
    requires
        is_sorted(t, field, direction),
    ensures
        is_sorted(t.insert(insert_position(t, x, field, direction), x), field, direction),
{
    let p = insert_position(t, x, field, direction);
    let u = t.insert(p, x);
    lemma_insert_position(t, x, field, direction);
    assert forall|i: int, j: int| 0 <= i < j < u.len() implies !precedes(
        #[trigger] u[j],
        #[trigger] u[i],
        field,
        direction,
    ) by {
        if j == p {
            // u[i] stands before the place of x, so at or before t[p - 1]
            if precedes(x, t[i], field, direction) {
                if i < p - 1 {
                    lemma_order_not_before(x, t[i], t[p - 1], field, direction);
                }
            }
        } else if i == p {
            lemma_order_total(x, t[j - 1], field, direction);
        } else {
            let ti = if i < p { i } else { i - 1 };
            let tj = if j < p { j } else { j - 1 };
            assert(u[i] == t[ti]);
            assert(u[j] == t[tj]);
        }
    }
}

proof fn lemma_insert_keeps_ties(
    t: Seq<EntryView>,
    x: EntryView,
    r: EntryView,
    field: SortField,
    direction: SortDirection,
)
    ensures
        class_of(t.insert(insert_position(t, x, field, direction), x), r, field) == class_of(
            t.push(x),
            r,
            field,
        ),
{
    let p = insert_position(t, x, field, direction);
    lemma_insert_position(t, x, field, direction);
    let head = t.subrange(0, p);
    let tail = t.subrange(p, t.len() as int);
    assert(t =~= head + tail);
    assert(t.insert(p, x) =~= head.push(x) + tail);
    lemma_class_concat(head.push(x), tail, r, field);
    lemma_class_concat(head, tail, r, field);
    lemma_class_push(head, x, r, field);
    lemma_class_push(t, x, r, field);
    if same_key(x, r, field) {
        assert forall|i: int| 0 <= i < tail.len() implies !same_key(
            #[trigger] tail[i],
            r,
            field,
        ) by {
            assert(tail[i] == t[p + i]);
            lemma_order_total(x, tail[i], field, direction);
        }
        lemma_class_empty(tail, r, field);
        assert(class_of(head, r, field).push(x) + Seq::<EntryView>::empty() =~= (class_of(
            head,
            r,
            field,
        ) + Seq::<EntryView>::empty()).push(x));
    }
}

/// The ordered list is in order and has the length of the list it was made
/// from, and entries that tie stand in it as they stood there.
pub proof fn lemma_stable_sort(s: Seq<EntryView>, field: SortField, direction: SortDirection)
    ensures
        is_sorted(stable_sort(s, field, direction), field, direction),
        keeps_ties(s, stable_sort(s, field, direction), field),
        stable_sort(s, field, direction).len() == s.len(),
    decreases s.len(),
{
    if s.len() > 0 {
        let rest = s.drop_last();
        let t = stable_sort(rest, field, direction);
        lemma_stable_sort(rest, field, direction);
        lemma_insert_sorted(t, s.last(), field, direction);
        lemma_insert_position(t, s.last(), field, direction);
        assert forall|r: EntryView| #[trigger]
            class_of(stable_sort(s, field, direction), r, field) == class_of(s, r, field) by {
            lemma_insert_keeps_ties(t, s.last(), r, field, direction);
            lemma_class_push(t, s.last(), r, field);
            assert(class_of(t, r, field) == class_of(rest, r, field));
        }
    }
}

/// Two lists in order, in which the entries that tie stand alike, are equal.
pub proof fn lemma_sorted_unique(
    a: Seq<EntryView>,
    b: Seq<EntryView>,
    field: SortField,
    direction: SortDirection,
)
    requires
        is_sorted(a, field, direction),
        is_sorted(b, field, direction),
        keeps_ties(a, b, field),
    ensures
        a == b,
    decreases a.len(),
{
    if a.len() == 0 {
        if b.len() > 0 {
            assert(class_of(b, b.last(), field) == class_of(a, b.last(), field));
        }
        assert(a =~= b);
    } else if b.len() == 0 {
        assert(class_of(b, a.last(), field) == class_of(a, a.last(), field));
    } else {
        let x = a.last();
        let y = b.last();
        assert(class_of(b, x, field) == class_of(a, x, field));
        assert(class_of(b, y, field) == class_of(a, y, field));
        let j = lemma_class_witness(b, x, field);
        let i = lemma_class_witness(a, y, field);
        // b[j] ties with x and is not after y; a[i] ties with y and is not after x
        lemma_order_total(x, y, field, direction);
        lemma_order_total(y, y, field, direction);
        lemma_order_total(x, x, field, direction);
        lemma_order_total(b[j], x, field, direction);
        lemma_order_total(a[i], y, field, direction);
        if precedes(y, x, field, direction) {
            lemma_order_not_before(y, x, b[j], field, direction);
        }
        if precedes(x, y, field, direction) {
            lemma_order_not_before(x, y, a[i], field, direction);
        }
        assert(same_key(x, y, field));
        assert(class_of(a, x, field).last() == x);
        assert(class_of(b, x, field).last() == y);
        let ra = a.drop_last();
        let rb = b.drop_last();
        assert forall|r: EntryView| #[trigger]
            class_of(rb, r, field) == class_of(ra, r, field) by {
            assert(class_of(b, r, field) == class_of(a, r, field));
            if same_key(x, r, field) {
                assert(class_of(ra, r, field) =~= class_of(a, r, field).drop_last());
                assert(class_of(rb, r, field) =~= class_of(b, r, field).drop_last());
            }
        }
        lemma_sorted_unique(ra, rb, field, direction);
        assert(a =~= ra.push(x));
        assert(b =~= rb.push(y));
    }
}

/// The ordered list holds the entries of the list it was made from, each as
/// often as it occurs there.
pub proof fn lemma_stable_sort_permutes(
    s: Seq<EntryView>,
    field: SortField,
    direction: SortDirection,
)
    ensures
        stable_sort(s, field, direction).to_multiset() == s.to_multiset(),
    decreases s.len(),
{
    if s.len() > 0 {
        let rest = s.drop_last();
        let x = s.last();
        let t = stable_sort(rest, field, direction);
        let at = insert_position(t, x, field, direction);
        let u = t.insert(at, x);
        lemma_stable_sort_permutes(rest, field, direction);
        lemma_insert_position(t, x, field, direction);
        assert(u.remove(at) =~= t);
        assert(u[at] == x);
        to_multiset_remove(u, at);
        u.to_multiset_ensures();
        assert(u.to_multiset().count(x) > 0);
        assert(u.to_multiset() =~= u.to_multiset().remove(x).insert(x));
        to_multiset_build(rest, x);
        assert(s =~= rest.push(x));
    } else {
        assert(s =~= Seq::<EntryView>::empty());
    }
}

/// A list that is in order is its own ordered list.
pub proof fn lemma_sort_of_sorted(s: Seq<EntryView>, field: SortField, direction: SortDirection)
    requires
        is_sorted(s, field, direction),
    ensures
        stable_sort(s, field, direction) == s,
{
    lemma_stable_sort(s, field, direction);
    lemma_sorted_unique(s, stable_sort(s, field, direction), field, direction);
}

/// Ordering a list that is in order the other way round and then back gives
/// the list again.
pub proof fn lemma_sort_there_and_back(
    s: Seq<EntryView>,
    field: SortField,
    direction: SortDirection,
)
    requires
        is_sorted(s, field, direction),
    ensures
        stable_sort(stable_sort(s, field, direction.reversed()), field, direction) == s,
{
    let there = stable_sort(s, field, direction.reversed());
    let back = stable_sort(there, field, direction);
    lemma_stable_sort(s, field, direction.reversed());
    lemma_stable_sort(there, field, direction);
    assert forall|r: EntryView| #[trigger] class_of(back, r, field) == class_of(s, r, field) by {
        assert(class_of(there, r, field) == class_of(s, r, field));
    }
    lemma_sorted_unique(s, back, field, direction);
}

/// Tells whether the entries are in the order given by `field` and
/// `direction`.
pub fn is_ordered(entries: &Vec<Entry>, field: SortField, direction: SortDirection) -> (r: bool)
    ensures
        r == is_sorted(entry_views(entries@), field, direction),
{
    let ghost views = entry_views(entries@);
    if entries.len() == 0 {
        return true;
    }
    let mut i: usize = 1;
    while i < entries.len()
        invariant
            1 <= i <= entries.len(),
            views == entry_views(entries@),
            is_sorted(views.take(i as int), field, direction),
        decreases entries.len() - i,
    {
        if entry_precedes(&entries[i], &entries[i - 1], field, direction) {
            proof {
                assert(precedes(views[i as int], views[i - 1], field, direction));
            }
            return false;
        }
        proof {
            let next = views.take(i + 1);
            assert forall|j: int, k: int| 0 <= j < k < next.len() implies !precedes(
                #[trigger] next[k],
                #[trigger] next[j],
                field,
                direction,
            ) by {
                if k < i {
                    assert(views.take(i as int)[j] == next[j]);
                    assert(views.take(i as int)[k] == next[k]);
                } else if j < i - 1 {
                    assert(views.take(i as int)[j] == next[j]);
                    assert(views.take(i as int)[i - 1] == next[i - 1]);
                    if precedes(next[k], next[j], field, direction) {
                        lemma_order_not_before(next[k], next[j], next[i - 1], field, direction);
                    }
                }
            }
        }
        i = i + 1;
    }
    proof {
        assert(views.take(entries.len() as int) =~= views);
    }
    true
}

/// Merges two ordered vectors into one. Of two entries that tie, the one from
/// `a` comes first.
fn merge(a: Vec<Entry>, b: Vec<Entry>, field: SortField, direction: SortDirection) -> (out: Vec<
    Entry,
>)
    requires
        is_sorted(entry_views(a@), field, direction),
        is_sorted(entry_views(b@), field, direction),
    ensures
        is_sorted(entry_views(out@), field, direction),
        keeps_ties(entry_views(a@) + entry_views(b@), entry_views(out@), field),
{
    let ghost a0 = entry_views(a@);
    let ghost b0 = entry_views(b@);
    let ghost a_all = a@;
    let ghost b_all = b@;
    let mut a = a;
    let mut b = b;
    // the merged tail, largest entry first
    let mut rev: Vec<Entry> = Vec::new();
    proof {
        assert(a0.subrange(a.len() as int, a0.len() as int) =~= Seq::<EntryView>::empty());
        assert(b0.subrange(b.len() as int, b0.len() as int) =~= Seq::<EntryView>::empty());
        assert(entry_views(rev@).reverse() =~= Seq::<EntryView>::empty());
        assert(a@ =~= a_all.subrange(0, a.len() as int));
        assert(b@ =~= b_all.subrange(0, b.len() as int));
        assert forall|r: EntryView| #[trigger]
            class_of(entry_views(rev@).reverse(), r, field) == class_of(
                a0.subrange(a.len() as int, a0.len() as int),
                r,
                field,
            ) + class_of(b0.subrange(b.len() as int, b0.len() as int), r, field) by {
            assert(Seq::<EntryView>::empty() + Seq::<EntryView>::empty() =~= Seq::<
                EntryView,
            >::empty());
        }
    }
    while a.len() > 0 || b.len() > 0
        invariant
            a0 == entry_views(a_all),
            b0 == entry_views(b_all),
            a.len() <= a_all.len(),
            b.len() <= b_all.len(),
            a@ == a_all.subrange(0, a.len() as int),
            b@ == b_all.subrange(0, b.len() as int),
            is_sorted(a0, field, direction),
            is_sorted(b0, field, direction),
            is_sorted(entry_views(rev@).reverse(), field, direction),
            forall|r: EntryView| #[trigger]
                class_of(entry_views(rev@).reverse(), r, field) == class_of(
                    a0.subrange(a.len() as int, a0.len() as int),
                    r,
                    field,
                ) + class_of(b0.subrange(b.len() as int, b0.len() as int), r, field),
            forall|i: int, k: int|
                0 <= i < a.len() && 0 <= k < rev.len() ==> !precedes(
                    #[trigger] rev@[k]@,
                    #[trigger] a0[i],
                    field,
                    direction,
                ),
            forall|i: int, k: int|
                0 <= i < b.len() && 0 <= k < rev.len() ==> !precedes(
                    #[trigger] rev@[k]@,
                    #[trigger] b0[i],
                    field,
                    direction,
                ),
            forall|i: int|
                a.len() <= i < a0.len() && b.len() > 0 ==> precedes(
                    b0[b.len() - 1],
                    #[trigger] a0[i],
                    field,
                    direction,
                ),
        decreases a.len() + b.len(),
    {
        let from_a = if b.len() == 0 {
            true
        } else if a.len() == 0 {
            false
        } else {
            entry_precedes(&b[b.len() - 1], &a[a.len() - 1], field, direction)
        };
        let ghost n: int = a.len() as int;
        let ghost m: int = b.len() as int;
        let ghost tail = entry_views(rev@).reverse();
        let ghost ta = a0.subrange(n, a0.len() as int);
        let ghost tb = b0.subrange(m, b0.len() as int);
        let ghost old_rev = rev@;
        if from_a {
            let x = a.pop().unwrap();
            rev.push(x);
            proof {
                let xv = a0[n - 1];
                assert(x@ == xv);
                let next = entry_views(rev@).reverse();
                assert(next =~= seq![xv] + tail);
                assert(a0.subrange(n - 1, a0.len() as int) =~= seq![xv] + ta);
                assert(a@ =~= a_all.subrange(0, n - 1));
                assert forall|i: int, k: int| 0 <= i < m && 0 <= k < rev.len() implies !precedes(
                    #[trigger] rev@[k]@,
                    #[trigger] b0[i],
                    field,
                    direction,
                ) by {
                    if k == old_rev.len() {
                        if i < m - 1 {
                            lemma_order_not_after(b0[i], b0[m - 1], xv, field, direction);
                        }
                        lemma_order_total(b0[i], xv, field, direction);
                    } else {
                        assert(rev@[k] == old_rev[k]);
                    }
                }
                assert forall|i: int, k: int|
                    0 <= i < n - 1 && 0 <= k < rev.len() implies !precedes(
                    #[trigger] rev@[k]@,
                    #[trigger] a0[i],
                    field,
                    direction,
                ) by {
                    if k < old_rev.len() {
                        assert(rev@[k] == old_rev[k]);
                    }
                }
                assert(is_sorted(next, field, direction)) by {
                    assert forall|i: int, j: int| 0 <= i < j < next.len() implies !precedes(
                        #[trigger] next[j],
                        #[trigger] next[i],
                        field,
                        direction,
                    ) by {
                        if i == 0 {
                            assert(next[j] == tail[j - 1]);
                            assert(tail[j - 1] == old_rev[old_rev.len() - j]@);
                        } else {
                            assert(next[i] == tail[i - 1]);
                            assert(next[j] == tail[j - 1]);
                        }
                    }
                }
                assert forall|r: EntryView| #[trigger]
                    class_of(next, r, field) == class_of(
                        a0.subrange(n - 1, a0.len() as int),
                        r,
                        field,
                    ) + class_of(tb, r, field) by {
                    assert(class_of(tail, r, field) == class_of(ta, r, field) + class_of(
                        tb,
                        r,
                        field,
                    ));
                    lemma_class_concat(seq![xv], tail, r, field);
                    lemma_class_concat(seq![xv], ta, r, field);
                    assert(class_of(seq![xv], r, field) + (class_of(ta, r, field) + class_of(
                        tb,
                        r,
                        field,
                    )) =~= (class_of(seq![xv], r, field) + class_of(ta, r, field)) + class_of(
                        tb,
                        r,
                        field,
                    ));
                }
            }
        } else {
            let y = b.pop().unwrap();
            rev.push(y);
            proof {
                let yv = b0[m - 1];
                assert(y@ == yv);
                let next = entry_views(rev@).reverse();
                assert(next =~= seq![yv] + tail);
                assert(b0.subrange(m - 1, b0.len() as int) =~= seq![yv] + tb);
                assert(b@ =~= b_all.subrange(0, m - 1));
                assert forall|i: int, k: int| 0 <= i < n && 0 <= k < rev.len() implies !precedes(
                    #[trigger] rev@[k]@,
                    #[trigger] a0[i],
                    field,
                    direction,
                ) by {
                    if k == old_rev.len() {
                        if precedes(yv, a0[i], field, direction) {
                            lemma_order_not_before(yv, a0[i], a0[n - 1], field, direction);
                        }
                    } else {
                        assert(rev@[k] == old_rev[k]);
                    }
                }
                assert forall|i: int, k: int|
                    0 <= i < m - 1 && 0 <= k < rev.len() implies !precedes(
                    #[trigger] rev@[k]@,
                    #[trigger] b0[i],
                    field,
                    direction,
                ) by {
                    if k < old_rev.len() {
                        assert(rev@[k] == old_rev[k]);
                    }
                }
                assert forall|i: int| n <= i < a0.len() && m - 1 > 0 implies precedes(
                    b0[m - 2],
                    #[trigger] a0[i],
                    field,
                    direction,
                ) by {
                    lemma_order_not_after(b0[m - 2], b0[m - 1], a0[i], field, direction);
                }
                assert(is_sorted(next, field, direction)) by {
                    assert forall|i: int, j: int| 0 <= i < j < next.len() implies !precedes(
                        #[trigger] next[j],
                        #[trigger] next[i],
                        field,
                        direction,
                    ) by {
                        if i == 0 {
                            assert(next[j] == tail[j - 1]);
                            assert(tail[j - 1] == old_rev[old_rev.len() - j]@);
                        } else {
                            assert(next[i] == tail[i - 1]);
                            assert(next[j] == tail[j - 1]);
                        }
                    }
                }
                assert forall|r: EntryView| #[trigger]
                    class_of(next, r, field) == class_of(ta, r, field) + class_of(
                        b0.subrange(m - 1, b0.len() as int),
                        r,
                        field,
                    ) by {
                    assert(class_of(tail, r, field) == class_of(ta, r, field) + class_of(
                        tb,
                        r,
                        field,
                    ));
                    lemma_class_concat(seq![yv], tail, r, field);
                    lemma_class_concat(seq![yv], tb, r, field);
                    if same_key(yv, r, field) {
                        assert forall|i: int| 0 <= i < ta.len() implies !same_key(
                            #[trigger] ta[i],
                            r,
                            field,
                        ) by {
                            assert(ta[i] == a0[n + i]);
                            lemma_order_total(yv, ta[i], field, direction);
                        }
                        lemma_class_empty(ta, r, field);
                        assert(class_of(seq![yv], r, field) + (Seq::<EntryView>::empty()
                            + class_of(tb, r, field)) =~= Seq::<EntryView>::empty() + (class_of(
                            seq![yv],
                            r,
                            field,
                        ) + class_of(tb, r, field)));
                    } else {
                        lemma_class_empty(seq![yv], r, field);
                        assert(Seq::<EntryView>::empty() + class_of(tb, r, field) =~= class_of(
                            tb,
                            r,
                            field,
                        ));
                        assert(Seq::<EntryView>::empty() + (class_of(ta, r, field) + class_of(
                            tb,
                            r,
                            field,
                        )) =~= class_of(ta, r, field) + class_of(tb, r, field));
                    }
                }
            }
        }
    }
    let ghost merged = entry_views(rev@).reverse();
    proof {
        assert(a0.subrange(0, a0.len() as int) =~= a0);
        assert(b0.subrange(0, b0.len() as int) =~= b0);
        assert forall|r: EntryView| #[trigger]
            class_of(merged, r, field) == class_of(a0 + b0, r, field) by {
            lemma_class_concat(a0, b0, r, field);
        }
    }
    let mut out: Vec<Entry> = Vec::new();
    proof {
        assert(entry_views(out@) + entry_views(rev@).reverse() =~= merged);
    }
    while rev.len() > 0
        invariant
            entry_views(out@) + entry_views(rev@).reverse() == merged,
        decreases rev.len(),
    {
        let ghost before_out = entry_views(out@);
        let ghost before_rev = entry_views(rev@);
        let e = rev.pop().unwrap();
        out.push(e);
        proof {
            assert(entry_views(out@) =~= before_out.push(e@));
            assert(entry_views(rev@) =~= before_rev.drop_last());
            assert(before_rev.reverse() =~= seq![e@] + before_rev.drop_last().reverse());
            assert(before_out.push(e@) + before_rev.drop_last().reverse() =~= before_out + (
            seq![e@] + before_rev.drop_last().reverse()));
        }
    }
    proof {
        assert(entry_views(rev@).reverse() =~= Seq::<EntryView>::empty());
        assert(entry_views(out@) + Seq::<EntryView>::empty() =~= entry_views(out@));
    }
    out
}

/// Puts the entries in the order given by `field` and `direction`. Entries
/// that tie keep the order in which they came.
pub fn sort_entries(entries: Vec<Entry>, field: SortField, direction: SortDirection) -> (out: Vec<
    Entry,
>)
    ensures
        entry_views(out@) == stable_sort(entry_views(entries@), field, direction),
    decreases entries.len(),
{
    let ghost whole = entry_views(entries@);
    if entries.len() < 2 {
        proof {
            if whole.len() == 1 {
                assert(stable_sort(whole.drop_last(), field, direction) =~= Seq::<
                    EntryView,
                >::empty());
                assert(Seq::<EntryView>::empty().insert(0, whole.last()) =~= whole);
            } else {
                assert(whole =~= Seq::<EntryView>::empty());
            }
        }
        return entries;
    }
    let middle: usize = entries.len() / 2;
    let mut front = entries;
    let back = front.split_off(middle);
    let ghost front_view = entry_views(front@);
    let ghost back_view = entry_views(back@);
    proof {
        assert(whole =~= front_view + back_view);
    }
    let front_sorted = sort_entries(front, field, direction);
    let back_sorted = sort_entries(back, field, direction);
    proof {
        lemma_stable_sort(front_view, field, direction);
        lemma_stable_sort(back_view, field, direction);
    }
    let out = merge(front_sorted, back_sorted, field, direction);
    proof {
        let fs = entry_views(front_sorted@);
        let bs = entry_views(back_sorted@);
        let result = entry_views(out@);
        let expected = stable_sort(whole, field, direction);
        lemma_stable_sort(whole, field, direction);
        assert forall|r: EntryView| #[trigger]
            class_of(expected, r, field) == class_of(result, r, field) by {
            assert(class_of(result, r, field) == class_of(fs + bs, r, field));
            lemma_class_concat(fs, bs, r, field);
            lemma_class_concat(front_view, back_view, r, field);
            assert(class_of(fs, r, field) == class_of(front_view, r, field));
            assert(class_of(bs, r, field) == class_of(back_view, r, field));
            assert(class_of(expected, r, field) == class_of(whole, r, field));
        }
        lemma_sorted_unique(result, expected, field, direction);
    }
    out
}

} // verus!
