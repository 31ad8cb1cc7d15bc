//! The order in which an event queue hands out its events, stated over sequences.
use vstd::prelude::*;

verus! {

/// `true` if the times in `s` never decrease.
pub open spec fn sorted<E>(s: Seq<(u32, E)>) -> bool {
    forall|i: int, j: int| 0 <= i < j < s.len() ==> s[i].0 <= s[j].0
}

/// The events of `s` with time `t`, in order.
pub open spec fn events_at<E>(s: Seq<(u32, E)>, t: u32) -> Seq<E>
    decreases s.len(),
{
    if s.len() == 0 {
        seq![]
    } else if s.last().0 == t {
        events_at(s.drop_last(), t).push(s.last().1)
    } else {
        events_at(s.drop_last(), t)
    }
}

/// The index at which an event with time `t` goes in a sorted sequence of pending
/// events: before every event with a time at least `t`.
pub open spec fn insert_index<E>(s: Seq<(u32, E)>, t: u32) -> nat
    decreases s.len(),
{
    if s.len() == 0 {
        0
    } else if s[0].0 >= t {
        0
    } else {
        1 + insert_index(s.drop_first(), t)
    }
}

/// `events_at` distributes over concatenation.
pub proof fn lemma_events_at_add<E>(a: Seq<(u32, E)>, b: Seq<(u32, E)>, t: u32)
    ensures
        events_at(a + b, t) == events_at(a, t) + events_at(b, t),
    decreases b.len(),
{
    if b.len() == 0 {
        assert(a + b =~= a);
        assert(events_at(b, t) =~= Seq::<E>::empty());
        assert(events_at(a, t) + events_at(b, t) =~= events_at(a, t));
    } else {
        lemma_events_at_add(a, b.drop_last(), t);
        assert((a + b).drop_last() =~= a + b.drop_last());
        assert((a + b).last() == b.last());
        if b.last().0 == t {
            assert(events_at(a, t) + events_at(b, t) =~= (events_at(a, t) + events_at(
                b.drop_last(),
                t,
            )).push(b.last().1));
        }
    }
}

/// The events at `t` of a single pending event.
pub proof fn lemma_events_at_single<E>(x: (u32, E), t: u32)
    ensures
        events_at(seq![x], t) == (if x.0 == t {
            seq![x.1]
        } else {
            Seq::<E>::empty()
        }),
{
    let s = seq![x];
    assert(s.drop_last() =~= Seq::<(u32, E)>::empty());
    assert(events_at(s.drop_last(), t) =~= Seq::<E>::empty());
    if x.0 == t {
        assert(Seq::<E>::empty().push(x.1) =~= seq![x.1]);
    }
}

/// Events with other times do not show up among the events at `t`.
pub proof fn lemma_events_at_none<E>(s: Seq<(u32, E)>, t: u32)
    requires
        forall|i: int| 0 <= i < s.len() ==> s[i].0 != t,
    ensures
        events_at(s, t) == Seq::<E>::empty(),
    decreases s.len(),
{
    if s.len() > 0 {
        lemma_events_at_none(s.drop_last(), t);
    }
}

/// There are events at `t` exactly when some event has time `t`.
pub proof fn lemma_events_at_nonempty<E>(s: Seq<(u32, E)>, t: u32)
    ensures
        (events_at(s, t).len() > 0) == (exists|i: int| 0 <= i < s.len() && s[i].0 == t),
    decreases s.len(),
{
    if s.len() > 0 {
        lemma_events_at_nonempty(s.drop_last(), t);
        if s.last().0 == t {
            assert(s[s.len() - 1].0 == t);
        } else {
            if exists|i: int| 0 <= i < s.len() && s[i].0 == t {
                let i = choose|i: int| 0 <= i < s.len() && s[i].0 == t;
                assert(i < s.len() - 1);
                assert(s.drop_last()[i].0 == t);
            }
            if exists|i: int| 0 <= i < s.drop_last().len() && s.drop_last()[i].0 == t {
                let i = choose|i: int| 0 <= i < s.drop_last().len() && s.drop_last()[i].0 == t;
                assert(s[i].0 == t);
            }
        }
    }
}

/// In a sorted sequence, the events before the insert index have times below `t`
/// and the rest have times at least `t`.
pub proof fn lemma_insert_index<E>(s: Seq<(u32, E)>, t: u32)
    requires
        sorted(s),
    ensures
        insert_index(s, t) <= s.len(),
        forall|i: int| 0 <= i < insert_index(s, t) ==> s[i].0 < t,
        forall|i: int| insert_index(s, t) <= i < s.len() ==> s[i].0 >= t,
    decreases s.len(),
{
    if s.len() > 0 {
        if s[0].0 < t {
            lemma_insert_index(s.drop_first(), t);
            assert forall|i: int| 0 <= i < insert_index(s, t) implies s[i].0 < t by {
                if i > 0 {
                    assert(s[i] == s.drop_first()[i - 1]);
                }
            }
            assert forall|i: int| insert_index(s, t) <= i < s.len() implies s[i].0 >= t by {
                assert(s[i] == s.drop_first()[i - 1]);
            }
        }
    }
}

/// The insert index is the first index whose time is at least `t`, for any sequence in
/// which the times below some index are under `t` and the rest at least `t`.
pub proof fn lemma_insert_index_at<E>(s: Seq<(u32, E)>, t: u32, k: int)
    requires
        0 <= k <= s.len(),
        forall|i: int| 0 <= i < k ==> s[i].0 < t,
        forall|i: int| k <= i < s.len() ==> s[i].0 >= t,
    ensures
        insert_index(s, t) == k,
    decreases s.len(),
{
    if s.len() > 0 && k > 0 {
        lemma_insert_index_at(s.drop_first(), t, k - 1);
    }
}

/// Inserting an event at its insert index keeps a sequence sorted, puts the event
/// first among the events at its time, and leaves the events at every other time alone.
pub proof fn lemma_insert<E>(s: Seq<(u32, E)>, t: u32, e: E)
    requires
        sorted(s),
    ensures
        sorted(s.insert(insert_index(s, t) as int, (t, e))),
        events_at(s.insert(insert_index(s, t) as int, (t, e)), t) == seq![e] + events_at(s, t),
        forall|u: u32|
            u != t ==> events_at(s.insert(insert_index(s, t) as int, (t, e)), u) == events_at(s, u),
{
    let k = insert_index(s, t) as int;
    lemma_insert_index(s, t);
    let n = s.insert(k, (t, e));
    assert(n =~= s.take(k) + seq![(t, e)] + s.skip(k));
    assert(s =~= s.take(k) + s.skip(k));
    assert forall|u: u32| #[trigger] events_at(n, u) == events_at(s.take(k), u) + events_at(
        seq![(t, e)],
        u,
    ) + events_at(s.skip(k), u) by {
        lemma_events_at_add(s.take(k) + seq![(t, e)], s.skip(k), u);
        lemma_events_at_add(s.take(k), seq![(t, e)], u);
    }
    assert forall|u: u32| #[trigger] events_at(s, u) == events_at(s.take(k), u) + events_at(
        s.skip(k),
        u,
    ) by {
        lemma_events_at_add(s.take(k), s.skip(k), u);
    }
    lemma_events_at_none(s.take(k), t);
    lemma_events_at_single((t, e), t);
    assert(events_at(n, t) =~= seq![e] + events_at(s, t));
    assert forall|u: u32| u != t implies events_at(n, u) == events_at(s, u) by {
        lemma_events_at_single((t, e), u);
        assert(events_at(n, u) =~= events_at(s, u));
    }
    assert forall|i: int, j: int| 0 <= i < j < n.len() implies n[i].0 <= n[j].0 by {
        if j < k {
        } else if j == k {
        } else if i < k {
            assert(n[j] == s[j - 1]);
        } else if i == k {
            assert(n[j] == s[j - 1]);
        } else {
            assert(n[i] == s[i - 1]);
            assert(n[j] == s[j - 1]);
        }
    }
}

/// Removing the first event of a sequence removes it from the front of the
/// events at its time.
pub proof fn lemma_drop_first<E>(s: Seq<(u32, E)>)
    requires
        s.len() > 0,
    ensures
        events_at(s, s[0].0) == seq![s[0].1] + events_at(s.drop_first(), s[0].0),
        forall|u: u32| u != s[0].0 ==> events_at(s.drop_first(), u) == events_at(s, u),
{
    assert(s =~= seq![s[0]] + s.drop_first());
    lemma_events_at_add(seq![s[0]], s.drop_first(), s[0].0);
    lemma_events_at_single(s[0], s[0].0);
    assert forall|u: u32| u != s[0].0 implies events_at(s.drop_first(), u) == events_at(s, u) by {
        lemma_events_at_add(seq![s[0]], s.drop_first(), u);
        lemma_events_at_single(s[0], u);
        assert(events_at(s, u) =~= events_at(s.drop_first(), u));
    }
}

/// In a sorted sequence whose times are all at least `t`, the events at `t` come first,
/// and every event after them has a later time.
pub proof fn lemma_front<E>(s: Seq<(u32, E)>, t: u32)
    requires
        sorted(s),
        forall|i: int| 0 <= i < s.len() ==> s[i].0 >= t,
    ensures
        events_at(s, t).len() <= s.len(),
        forall|i: int| 0 <= i < events_at(s, t).len() ==> s[i] == (t, #[trigger] events_at(s, t)[i]),
        forall|i: int| events_at(s, t).len() <= i < s.len() ==> s[i].0 > t,
    decreases s.len(),
{
    if s.len() > 0 {
        let p = s.drop_last();
        lemma_front(p, t);
        let q = events_at(p, t);
        if s.last().0 == t {
            assert forall|i: int| 0 <= i < p.len() implies p[i].0 == t by {
                assert(s[i].0 <= s[s.len() - 1].0);
            }
            if q.len() < p.len() {
                assert(p[q.len() as int].0 > t);
            }
            assert forall|i: int| 0 <= i < events_at(s, t).len() implies s[i] == (
                t,
                #[trigger] events_at(s, t)[i],
            ) by {
                if i < p.len() {
                    assert(events_at(s, t)[i] == q[i]);
                    assert(s[i] == p[i]);
                }
            }
        } else {
            assert forall|i: int| 0 <= i < events_at(s, t).len() implies s[i] == (
                t,
                #[trigger] events_at(s, t)[i],
            ) by {
                assert(s[i] == p[i]);
            }
            assert forall|i: int| events_at(s, t).len() <= i < s.len() implies s[i].0 > t by {
                if i < p.len() {
                    assert(s[i] == p[i]);
                }
            }
        }
    }
}

/// Reversing after a push puts the pushed element first.
pub proof fn lemma_reverse_push<E>(s: Seq<E>, e: E)
    ensures
        s.push(e).reverse() == seq![e] + s.reverse(),
{
    assert(s.push(e).reverse() =~= seq![e] + s.reverse());
}

/// Reversing after dropping the last element drops the first of the reversal.
pub proof fn lemma_reverse_drop_last<E>(s: Seq<E>)
    requires
        s.len() > 0,
    ensures
        s.drop_last().reverse() == s.reverse().drop_first(),
        s.reverse()[0] == s.last(),
{
    assert(s.drop_last().reverse() =~= s.reverse().drop_first());
}

} // verus!
