//! An event queue implemented as a radix heap.
use vstd::prelude::*;
use vstd::pervasive::VecAdditionalExecFns;
use vstd::std_specs::bits::{
    axiom_u32_leading_zeros, axiom_u32_trailing_zeros, u32_leading_zeros, u32_trailing_zeros,
};

use super::order::{
    events_at, insert_index, lemma_front, lemma_drop_first, lemma_events_at_add, lemma_events_at_none,
    lemma_events_at_nonempty, lemma_events_at_single, lemma_insert, lemma_insert_index, lemma_insert_index_at,
    lemma_reverse_drop_last, lemma_reverse_push, sorted,
};

verus! {

/// The radix distance of two times: the position, counted from 1, of the highest bit
/// in which they differ, or `0` if they are equal.
pub open spec fn radix(a: u32, b: u32) -> u32 {
    (32 - u32_leading_zeros(a ^ b)) as u32
}

/// `true` if bit `i` of `x` is set.
pub open spec fn bit(x: u32, i: u32) -> bool {
    (x >> i) & 1u32 == 1u32
}

/// The bits of two times agree above their radix distance and differ just below it.
pub proof fn lemma_radix_bits(a: u32, b: u32)
    ensures
        radix(a, b) <= 32,
        (a ^ b) >> radix(a, b) == 0,
        radix(a, b) > 0 ==> bit(a ^ b, (radix(a, b) - 1) as u32),
        radix(a, b) == 0 <==> a == b,
{
    let x = a ^ b;
    axiom_u32_leading_zeros(x);
    let l = u32_leading_zeros(x);
    if l < 32 {
        let s = (31 - l) as u32;
        assert((x >> s) & 1u32 != 0u32 ==> (x >> s) & 1u32 == 1u32) by (bit_vector);
    }
    assert(a ^ b == 0u32 <==> a == b) by (bit_vector);
}

/// The radix distance is the only distance with its bit pattern.
pub proof fn lemma_radix_unique(a: u32, b: u32, r: u32)
    requires
        r <= 32,
        (a ^ b) >> r == 0,
        r > 0 ==> bit(a ^ b, (r - 1) as u32),
    ensures
        radix(a, b) == r,
{
    lemma_radix_bits(a, b);
    let r0 = radix(a, b);
    let x = a ^ b;
    assert(r == r0) by (bit_vector)
        requires
            r <= 32,
            r0 <= 32,
            x >> r == 0,
            x >> r0 == 0,
            r > 0 ==> (x >> ((r - 1) as u32)) & 1 == 1,
            r0 > 0 ==> (x >> ((r0 - 1) as u32)) & 1 == 1,
    ;
}

/// A later time at radix distance `c + 1` has bit `c` set where the earlier one has it clear.
pub proof fn lemma_radix_later(a: u32, b: u32)
    requires
        a < b,
    ensures
        radix(a, b) > 0,
        bit(b, (radix(a, b) - 1) as u32),
        !bit(a, (radix(a, b) - 1) as u32),
        a >> radix(a, b) == b >> radix(a, b),
{
    lemma_radix_bits(a, b);
    let r = radix(a, b);
    let c = (r - 1) as u32;
    let x = a ^ b;
    assert(bit(b, c) && !bit(a, c) && a >> r == b >> r) by (bit_vector)
        requires
            a < b,
            1 <= r <= 32,
            c == r - 1,
            x == a ^ b,
            x >> r == 0,
            (x >> c) & 1 == 1,
    ;
}

/// Facts about the radix distances of every time once the queue's time moves
/// from `t0` to `m`, where `m` lies in bucket `k` of `t0`.
pub proof fn lemma_rebase(t0: u32, m: u32, k: u32, t: u32)
    requires
        k < 32,
        t0 < m,
        radix(t0, m) == k + 1,
    ensures
        radix(t0, t) > k + 1 ==> radix(m, t) == radix(t0, t),
        radix(t0, t) <= k ==> radix(m, t) == k + 1,
        radix(t0, t) == k + 1 ==> radix(m, t) <= k,
        radix(t0, t) > k + 1 && t0 < t ==> m < t,
{
    lemma_radix_bits(t0, m);
    lemma_radix_bits(t0, t);
    lemma_radix_bits(m, t);
    lemma_radix_later(t0, m);
    let x = t0 ^ m;
    let y = t0 ^ t;
    let z = m ^ t;
    let rt = radix(t0, t);
    let rz = radix(m, t);
    let k1 = (k + 1) as u32;
    assert(z == x ^ y) by (bit_vector)
        requires
            x == t0 ^ m,
            y == t0 ^ t,
            z == m ^ t,
    ;
    if rt > k1 {
        let j = (rt - 1) as u32;
        assert(z >> rt == 0 && (z >> j) & 1 == 1) by (bit_vector)
            requires
                z == x ^ y,
                k < j,
                j < 32,
                rt == j + 1,
                k1 == k + 1,
                x >> k1 == 0,
                y >> rt == 0,
                (y >> j) & 1 == 1,
        ;
        lemma_radix_unique(m, t, rt);
        if t0 < t {
            lemma_radix_later(t0, t);
            assert(m < t) by (bit_vector)
                requires
                    z == m ^ t,
                    z >> rt == 0,
                    (z >> j) & 1 == 1,
                    (t >> j) & 1 == 1,
                    rt == j + 1,
                    j < 32,
            ;
        }
    } else if rt <= k {
        assert(z >> k1 == 0 && (z >> k) & 1 == 1) by (bit_vector)
            requires
                z == x ^ y,
                k < 32,
                k1 == k + 1,
                rt <= k,
                x >> k1 == 0,
                (x >> k) & 1 == 1,
                y >> rt == 0,
        ;
        lemma_radix_unique(m, t, k1);
    } else {
        assert(z >> k == 0) by (bit_vector)
            requires
                z == x ^ y,
                k < 32,
                k1 == k + 1,
                rt == k1,
                x >> k1 == 0,
                (x >> k) & 1 == 1,
                y >> k1 == 0,
                (y >> k) & 1 == 1,
        ;
        assert(rz <= k) by (bit_vector)
            requires
                z >> k == 0,
                rz <= 32,
                z >> rz == 0,
                rz > 0 ==> (z >> ((rz - 1) as u32)) & 1 == 1,
        ;
    }
}

/// Setting bit `b` of `f` sets that bit and leaves the others alone.
pub proof fn lemma_set_bit(f: u32, b: u32)
    requires
        b < 32,
    ensures
        forall|i: u32| i < 32 ==> #[trigger] bit(f | (1u32 << b), i) == (i == b || bit(f, i)),
{
    assert forall|i: u32| i < 32 implies #[trigger] bit(f | (1u32 << b), i) == (i == b || bit(
        f,
        i,
    )) by {
        assert(((f | (1u32 << b)) >> i) & 1 == 1 <==> (i == b || (f >> i) & 1 == 1)) by (bit_vector)
            requires
                b < 32,
                i < 32,
        ;
    }
}

/// Flipping a set bit `b` of `f` clears it and leaves the others alone.
pub proof fn lemma_clear_bit(f: u32, b: u32)
    requires
        b < 32,
        bit(f, b),
    ensures
        forall|i: u32| i < 32 ==> #[trigger] bit(f ^ (1u32 << b), i) == (i != b && bit(f, i)),
{
    assert forall|i: u32| i < 32 implies #[trigger] bit(f ^ (1u32 << b), i) == (i != b && bit(
        f,
        i,
    )) by {
        assert(((f ^ (1u32 << b)) >> i) & 1 == 1 <==> (i != b && (f >> i) & 1 == 1)) by (bit_vector)
            requires
                b < 32,
                i < 32,
                (f >> b) & 1 == 1,
        ;
    }
}

/// The lowest set bit of a non-zero `f` is its trailing zero count, and `f` is zero
/// exactly when no bit is set.
pub proof fn lemma_lowest_bit(f: u32)
    ensures
        f != 0 ==> u32_trailing_zeros(f) < 32 && bit(f, u32_trailing_zeros(f)),
        f != 0 ==> forall|i: u32| i < u32_trailing_zeros(f) ==> !#[trigger] bit(f, i),
        f == 0 ==> forall|i: u32| i < 32 ==> !#[trigger] bit(f, i),
{
    axiom_u32_trailing_zeros(f);
    if f == 0 {
        assert forall|i: u32| i < 32 implies !#[trigger] bit(f, i) by {
            assert((0u32 >> i) & 1 == 0) by (bit_vector);
        }
    }
}


/// Pushing an event onto a sequence adds it to the events at its own time only.
pub proof fn lemma_events_at_push<E>(s: Seq<(u32, E)>, x: (u32, E), u: u32)
    ensures
        events_at(s.push(x), u) == (if x.0 == u {
            events_at(s, u).push(x.1)
        } else {
            events_at(s, u)
        }),
{
    assert(s.push(x).drop_last() =~= s);
}

/// The radix distance of two times, as [`radix`] states it.
fn radix_dist(lhs: u32, rhs: u32) -> (r: u32)
    ensures
        r == radix(lhs, rhs),
        r <= 32,
{
    proof {
        lemma_radix_bits(lhs, rhs);
    }
    32 - (lhs ^ rhs).leading_zeros()
}

/// An event queue implemented as a radix heap.
///
/// Events are handed out in order of time; of events with the same time,
/// the one pushed most recently is handed out first.
pub struct RadixEventQueue<E> {
    /// The current time: every pending event is at or after it.
    time: u32,
    /// The pending events at the current time, in the order they were pushed.
    head: Vec<E>,
    /// Bucket `c` holds the pending events whose radix distance from the
    /// current time is `c + 1`, in the order they arrived.
    buckets: Vec<Vec<(u32, E)>>,
    /// The smallest time in each bucket, or `u32::MAX` if the bucket is empty.
    mins: Vec<u32>,
    /// Bit `c` is set exactly when bucket `c` is not empty.
    filled: u32,
    /// The pending events in the order they will be handed out.
    model: Ghost<Seq<(u32, E)>>,
}

impl<E> View for RadixEventQueue<E> {
    type V = Seq<(u32, E)>;

    /// The pending events, paired with their times, in the order [`pop`](RadixEventQueue::pop)
    /// hands them out.
    closed spec fn view(&self) -> Seq<(u32, E)> {
        self.model@
    }
}

impl<E> RadixEventQueue<E> {
    /// The current time of the queue: the time of the event most recently handed out,
    /// or `0` if none has been.
    pub closed spec fn spec_time(&self) -> u32 {
        self.time
    }

    /// The events at time `t` held by the buckets, in the order they arrived.
    closed spec fn raw(&self, t: u32) -> Seq<E> {
        if t == self.time {
            self.head@
        } else if 1 <= radix(self.time, t) <= 32 {
            events_at(self.buckets@[radix(self.time, t) - 1]@, t)
        } else {
            Seq::empty()
        }
    }

    /// `true` if the bucket minimum `m` is right for bucket `v`.
    closed spec fn min_ok(v: Seq<(u32, E)>, m: u32) -> bool {
        &&& v.len() == 0 ==> m == u32::MAX
        &&& v.len() > 0 ==> (exists|i: int| 0 <= i < v.len() && v[i].0 == m)
        &&& forall|i: int| 0 <= i < v.len() ==> m <= v[i].0
    }

    /// The internal consistency of the queue.
    pub closed spec fn wf(&self) -> bool {
        &&& self.buckets@.len() == 32
        &&& self.mins@.len() == 32
        &&& forall|c: int|
            0 <= c < 32 ==> (#[trigger] self.buckets@[c]@.len() > 0) == bit(self.filled, c as u32)
        &&& forall|c: int, i: int|
            0 <= c < 32 && 0 <= i < self.buckets@[c]@.len() ==> radix(
                self.time,
                #[trigger] self.buckets@[c]@[i].0,
            ) == c + 1 && self.time < self.buckets@[c]@[i].0
        &&& forall|c: int| 0 <= c < 32 ==> Self::min_ok(#[trigger] self.buckets@[c]@, self.mins@[c])
        &&& sorted(self.model@)
        &&& forall|t: u32| #[trigger] events_at(self.model@, t) == self.raw(t).reverse()
    }

    /// Every pending event is at or after the current time, and the head holds
    /// events exactly when some pending event is at the current time.
    proof fn lemma_pending_times(&self)
        requires
            self.wf(),
        ensures
            forall|i: int| 0 <= i < self.model@.len() ==> self.model@[i].0 >= self.time,
            self.head@.len() > 0 ==> exists|i: int|
                0 <= i < self.model@.len() && self.model@[i].0 == self.time,
            self.head@.len() > 0 ==> self.model@.len() > 0 && self.model@[0].0 == self.time,
    {
        let s = self.model@;
        assert forall|i: int| 0 <= i < s.len() implies s[i].0 >= self.time by {
            let t = s[i].0;
            lemma_events_at_nonempty(s, t);
            assert(events_at(s, t).len() > 0);
            assert(self.raw(t).reverse().len() > 0);
            if t != self.time {
                let v = self.buckets@[radix(self.time, t) - 1]@;
                lemma_events_at_nonempty(v, t);
                let j = choose|j: int| 0 <= j < v.len() && v[j].0 == t;
                assert(self.buckets@[radix(self.time, t) - 1]@[j].0 == t);
            }
        }
        if self.head@.len() > 0 {
            assert(events_at(s, self.time) == self.raw(self.time).reverse());
            lemma_events_at_nonempty(s, self.time);
            let i = choose|i: int| 0 <= i < s.len() && s[i].0 == self.time;
            assert(s[0].0 <= s[i].0);
        }
    }

    /// Creates a new, empty event queue at time `0`.
    pub fn new() -> (r: Self)
        ensures
            r.wf(),
            r@ == Seq::<(u32, E)>::empty(),
            r.spec_time() == 0,
    {
        let mut buckets: Vec<Vec<(u32, E)>> = Vec::new();
        let mut mins: Vec<u32> = Vec::new();
        let mut c: usize = 0;
        while c < 32
            invariant
                c <= 32,
                buckets@.len() == c,
                mins@.len() == c,
                forall|j: int| 0 <= j < c ==> (#[trigger] buckets@[j])@.len() == 0,
                forall|j: int| 0 <= j < c ==> #[trigger] mins@[j] == u32::MAX,
            decreases 32 - c,
        {
            buckets.push(Vec::new());
            mins.push(u32::MAX);
            c = c + 1;
        }
        let r = RadixEventQueue {
            time: 0,
            head: Vec::new(),
            buckets,
            mins,
            filled: 0,
            model: Ghost(Seq::empty()),
        };
        proof {
            lemma_lowest_bit(0);
            assert forall|t: u32| #[trigger] events_at(r.model@, t) == r.raw(t).reverse() by {
                if t != r.time {
                    lemma_radix_bits(r.time, t);
                    assert(r.buckets@[radix(r.time, t) - 1]@ =~= Seq::<(u32, E)>::empty());
                }
                assert(r.raw(t).reverse() =~= Seq::<E>::empty());
            }
        }
        r
    }

    /// Appends an event to bucket `b` and updates its minimum.
    fn bucket_push(&mut self, b: usize, t: u32, e: E)
        requires
            b < old(self).buckets@.len(),
            old(self).mins@.len() == old(self).buckets@.len(),
        ensures
            final(self).buckets@.len() == old(self).buckets@.len(),
            final(self).buckets@[b as int]@ == old(self).buckets@[b as int]@.push((t, e)),
            forall|c: int|
                0 <= c < final(self).buckets@.len() && c != b ==> #[trigger] final(self).buckets@[c]
                    == old(self).buckets@[c],
            final(self).mins@ == old(self).mins@.update(
                b as int,
                if t < old(self).mins@[b as int] {
                    t
                } else {
                    old(self).mins@[b as int]
                },
            ),
            final(self).time == old(self).time,
            final(self).head == old(self).head,
            final(self).filled == old(self).filled,
            final(self).model == old(self).model,
    {
        let mut v: Vec<(u32, E)> = Vec::new();
        self.buckets.set_and_swap(b, &mut v);
        v.push((t, e));
        self.buckets.set_and_swap(b, &mut v);
        let m = self.mins[b];
        self.mins.set(b, if t < m { t } else { m });
    }

    /// Returns the current time of the queue: the time of the event most recently
    /// handed out, or `0` if none has been.
    pub fn time(&self) -> (r: u32)
        ensures
            r == self.spec_time(),
    {
        self.time
    }

    /// Pushes an event to the queue at the specified time.
    ///
    /// The most recently pushed event at any specific time is always the first
    /// of them to be popped. The time may not be before the current time.
    pub fn push(&mut self, time: u32, event: E)
        requires
            old(self).wf(),
            old(self).spec_time() <= time,
        ensures
            final(self).wf(),
            final(self)@ == old(self)@.insert(insert_index(old(self)@, time) as int, (time, event)),
            final(self).spec_time() == old(self).spec_time(),
    {
        let ghost old_self = *self;
        let ghost s = self.model@;
        let d = radix_dist(self.time, time);
        proof {
            lemma_radix_bits(self.time, time);
        }
        if d >= 1 {
            let b = d - 1;
            self.bucket_push(b as usize, time, event);
            proof {
                lemma_set_bit(self.filled, b);
            }
            self.filled = self.filled | (1u32 << b);
        } else {
            self.head.push(event);
        }
        proof {
            lemma_insert(s, time, event);
            self.model = Ghost(s.insert(insert_index(s, time) as int, (time, event)));
            let b = d as int - 1;
            assert forall|c: int| 0 <= c < 32 implies (#[trigger] self.buckets@[c]@.len() > 0)
                == bit(self.filled, c as u32) by {
                if c != b {
                    assert(self.buckets@[c] == old_self.buckets@[c]);
                }
            }
            assert forall|c: int, i: int|
                0 <= c < 32 && 0 <= i < self.buckets@[c]@.len() implies radix(
                self.time,
                #[trigger] self.buckets@[c]@[i].0,
            ) == c + 1 && self.time < self.buckets@[c]@[i].0 by {
                if c != b {
                    assert(self.buckets@[c] == old_self.buckets@[c]);
                } else if i < old_self.buckets@[c]@.len() {
                    assert(self.buckets@[c]@[i] == old_self.buckets@[c]@[i]);
                }
            }
            assert forall|c: int| 0 <= c < 32 implies Self::min_ok(
                #[trigger] self.buckets@[c]@,
                self.mins@[c],
            ) by {
                if c != b {
                    assert(self.buckets@[c] == old_self.buckets@[c]);
                } else {
                    let v = self.buckets@[c]@;
                    let ov = old_self.buckets@[c]@;
                    assert(v[ov.len() as int].0 == time);
                    if ov.len() > 0 {
                        let j = choose|j: int| 0 <= j < ov.len() && ov[j].0 == old_self.mins@[c];
                        assert(v[j] == ov[j]);
                    }
                    assert forall|i: int| 0 <= i < v.len() implies self.mins@[c] <= v[i].0 by {
                        if i < ov.len() {
                            assert(v[i] == ov[i]);
                        }
                    }
                }
            }
            assert forall|t: u32| #[trigger] events_at(self.model@, t) == self.raw(t).reverse() by {
                assert(events_at(s, t) == old_self.raw(t).reverse());
                if t == time {
                    if d >= 1 {
                        lemma_events_at_push(old_self.buckets@[b]@, (time, event), t);
                    }
                    lemma_reverse_push(old_self.raw(t), event);
                    assert(self.raw(t) == old_self.raw(t).push(event));
                } else {
                    lemma_radix_bits(self.time, t);
                    if t != self.time && radix(self.time, t) as int - 1 == b {
                        lemma_events_at_push(old_self.buckets@[b]@, (time, event), t);
                    }
                    if t != self.time && radix(self.time, t) as int - 1 != b {
                        assert(self.buckets@[radix(self.time, t) - 1] == old_self.buckets@[radix(
                            self.time,
                            t,
                        ) - 1]);
                    }
                    assert(self.raw(t) == old_self.raw(t));
                }
            }
        }
    }

    /// The queue holds no events exactly when the head and every bucket are empty.
    proof fn lemma_empty(&self)
        requires
            self.wf(),
        ensures
            (self.model@.len() == 0) == (self.head@.len() == 0 && self.filled == 0),
    {
        let s = self.model@;
        lemma_lowest_bit(self.filled);
        if s.len() == 0 {
            assert(events_at(s, self.time) =~= Seq::<E>::empty());
            assert(self.raw(self.time).reverse().len() == 0);
            if self.filled != 0 {
                let c = u32_trailing_zeros(self.filled) as int;
                assert(self.buckets@[c]@.len() > 0);
                let v = self.buckets@[c]@;
                let u = v[0].0;
                assert(radix(self.time, self.buckets@[c]@[0].0) == c + 1);
                lemma_events_at_nonempty(v, u);
                assert(events_at(s, u) =~= Seq::<E>::empty());
                assert(self.raw(u).reverse().len() == 0);
            }
        } else {
            if self.head@.len() == 0 && self.filled == 0 {
                let u = s[0].0;
                lemma_events_at_nonempty(s, u);
                assert(self.raw(u).reverse().len() > 0);
                if u != self.time {
                    lemma_radix_bits(self.time, u);
                    let c = radix(self.time, u) - 1;
                    assert(!bit(self.filled, c as u32));
                    assert(self.buckets@[c as int]@.len() == 0);
                }
            }
        }
    }

    /// Returns `true` if the event queue is empty.
    pub fn is_empty(&self) -> (r: bool)
        requires
            self.wf(),
        ensures
            r == (self@.len() == 0),
    {
        proof {
            self.lemma_empty();
        }
        self.head.len() == 0 && self.filled == 0
    }

    /// Moves the current time forward to the earliest pending event, and spreads the
    /// events of the lowest non-empty bucket over the lower buckets and the head.
    fn reassign(&mut self)
        requires
            old(self).wf(),
            old(self).head@.len() == 0,
            old(self).filled != 0,
        ensures
            final(self).wf(),
            final(self)@ == old(self)@,
            final(self).head@.len() > 0,
    {
        let ghost os = *self;
        let ghost t0 = self.time;
        proof {
            lemma_lowest_bit(self.filled);
        }
        let k = self.filled.trailing_zeros();
        let ku = k as usize;
        let m = self.mins[ku];
        let mut v: Vec<(u32, E)> = Vec::new();
        self.buckets.set_and_swap(ku, &mut v);
        self.mins.set(ku, u32::MAX);
        proof {
            lemma_clear_bit(self.filled, k);
        }
        self.filled = self.filled ^ (1u32 << k);
        let ghost w = v@;
        proof {
            assert(os.buckets@[k as int]@.len() > 0);
            assert(Self::min_ok(os.buckets@[k as int]@, os.mins@[k as int]));
            let j = choose|j: int| 0 <= j < w.len() && w[j].0 == m;
            assert(radix(t0, os.buckets@[k as int]@[j].0) == k + 1);
            assert forall|c: int| 0 <= c < k implies #[trigger] self.buckets@[c]@.len() == 0 by {
                assert(!bit(os.filled, c as u32));
            }
        }
        let mut rev: Vec<(u32, E)> = Vec::new();
        while v.len() > 0
            invariant
                w == v@ + rev@.reverse(),
            decreases v.len(),
        {
            let x = v.pop().unwrap();
            proof {
                lemma_reverse_push(rev@, x);
            }
            rev.push(x);
            assert(w == v@ + rev@.reverse());
        }
        assert(rev@.reverse() == w);
        let ghost mut p: int = 0;
        while rev.len() > 0
            invariant
                0 <= p <= w.len(),
                rev@.reverse() == w.skip(p),
                os.wf(),
                k < 32,
                ku == k,
                m == os.mins@[k as int],
                w == os.buckets@[k as int]@,
                t0 == os.time,
                t0 < m,
                radix(t0, m) == k + 1,
                self.buckets@.len() == 32,
                self.mins@.len() == 32,
                self.time == t0,
                self.model == os.model,
                self.head@ == events_at(w.take(p), m),
                forall|c: int, u: u32|
                    0 <= c < k ==> #[trigger] events_at(self.buckets@[c]@, u) == (if radix(m, u)
                        == c + 1 {
                        events_at(w.take(p), u)
                    } else {
                        Seq::empty()
                    }),
                forall|c: int, i: int|
                    0 <= c < k && 0 <= i < self.buckets@[c]@.len() ==> radix(
                        m,
                        #[trigger] self.buckets@[c]@[i].0,
                    ) == c + 1 && m < self.buckets@[c]@[i].0,
                forall|c: int|
                    0 <= c < k ==> (#[trigger] self.buckets@[c]@.len() > 0) == bit(
                        self.filled,
                        c as u32,
                    ),
                forall|c: int| 0 <= c < k ==> Self::min_ok(#[trigger] self.buckets@[c]@, self.mins@[c]),
                self.buckets@[k as int]@.len() == 0,
                self.mins@[k as int] == u32::MAX,
                !bit(self.filled, k),
                forall|c: int| k < c < 32 ==> #[trigger] self.buckets@[c] == os.buckets@[c],
                forall|c: int| k < c < 32 ==> #[trigger] self.mins@[c] == os.mins@[c],
                forall|c: u32| k < c < 32 ==> #[trigger] bit(self.filled, c) == bit(os.filled, c),
            decreases rev.len(),
        {
            let ghost before = *self;
            proof {
                lemma_reverse_drop_last(rev@);
                assert(w[p] == rev@.last());
                assert(w.skip(p + 1) == w.skip(p).drop_first());
                assert(w.take(p + 1) == w.take(p).push(w[p]));
            }
            let (u, e) = rev.pop().unwrap();
            proof {
                assert(radix(t0, os.buckets@[k as int]@[p].0) == k + 1);
                assert(Self::min_ok(os.buckets@[k as int]@, os.mins@[k as int]));
                assert(m <= os.buckets@[k as int]@[p].0);
                lemma_rebase(t0, m, k, u);
                lemma_radix_bits(m, u);
            }
            let d = radix_dist(m, u);
            if d >= 1 {
                let b = d - 1;
                self.bucket_push(b as usize, u, e);
                proof {
                    lemma_set_bit(self.filled, b);
                }
                self.filled = self.filled | (1u32 << b);
                proof {
                    let bi = b as int;
                    assert forall|c: int, x: u32|
                        0 <= c < k implies #[trigger] events_at(self.buckets@[c]@, x) == (if radix(
                        m,
                        x,
                    ) == c + 1 {
                        events_at(w.take(p + 1), x)
                    } else {
                        Seq::empty()
                    }) by {
                        lemma_events_at_push(w.take(p), (u, e), x);
                        assert(events_at(before.buckets@[c]@, x) == (if radix(m, x) == c + 1 {
                            events_at(w.take(p), x)
                        } else {
                            Seq::empty()
                        }));
                        if c == bi {
                            lemma_events_at_push(before.buckets@[c]@, (u, e), x);
                        } else {
                            assert(self.buckets@[c] == before.buckets@[c]);
                        }
                    }
                    assert forall|c: int, i: int|
                        0 <= c < k && 0 <= i < self.buckets@[c]@.len() implies radix(
                        m,
                        #[trigger] self.buckets@[c]@[i].0,
                    ) == c + 1 && m < self.buckets@[c]@[i].0 by {
                        if c != bi {
                            assert(self.buckets@[c] == before.buckets@[c]);
                        } else if i < before.buckets@[c]@.len() {
                            assert(self.buckets@[c]@[i] == before.buckets@[c]@[i]);
                        }
                    }
                    assert forall|c: int|
                        0 <= c < k implies (#[trigger] self.buckets@[c]@.len() > 0) == bit(
                        self.filled,
                        c as u32,
                    ) by {
                        if c != bi {
                            assert(self.buckets@[c] == before.buckets@[c]);
                        }
                    }
                    assert forall|c: int| 0 <= c < k implies Self::min_ok(
                        #[trigger] self.buckets@[c]@,
                        self.mins@[c],
                    ) by {
                        if c != bi {
                            assert(self.buckets@[c] == before.buckets@[c]);
                        } else {
                            let nv = self.buckets@[c]@;
                            let ov = before.buckets@[c]@;
                            assert(nv[ov.len() as int].0 == u);
                            if ov.len() > 0 {
                                let j = choose|j: int| 0 <= j < ov.len() && ov[j].0 == before.mins@[c];
                                assert(nv[j] == ov[j]);
                            }
                            assert forall|i: int| 0 <= i < nv.len() implies self.mins@[c] <= nv[i].0 by {
                                if i < ov.len() {
                                    assert(nv[i] == ov[i]);
                                }
                            }
                        }
                    }
                    assert(self.buckets@[k as int] == before.buckets@[k as int]);
                    assert forall|c: int| k < c < 32 implies #[trigger] self.buckets@[c] == os.buckets@[c] by {
                        assert(self.buckets@[c] == before.buckets@[c]);
                    }
                    lemma_events_at_push(w.take(p), (u, e), m);
                }
            } else {
                self.head.push(e);
                proof {
                    lemma_events_at_push(w.take(p), (u, e), m);
                    assert forall|c: int, x: u32|
                        0 <= c < k implies #[trigger] events_at(self.buckets@[c]@, x) == (if radix(
                        m,
                        x,
                    ) == c + 1 {
                        events_at(w.take(p + 1), x)
                    } else {
                        Seq::empty()
                    }) by {
                        lemma_events_at_push(w.take(p), (u, e), x);
                        assert(events_at(before.buckets@[c]@, x) == (if radix(m, x) == c + 1 {
                            events_at(w.take(p), x)
                        } else {
                            Seq::empty()
                        }));
                        if x == u {
                            lemma_radix_bits(m, x);
                        }
                    }
                }
            }
            proof {
                p = p + 1;
            }
        }
        self.time = m;
        proof {
            assert(w.take(p) == w);
            self.lemma_reassigned(os, k, m, w);
        }
    }

    /// The state that [`reassign`](Self::reassign) leaves behind is consistent.
    proof fn lemma_reassigned(&self, os: Self, k: u32, m: u32, w: Seq<(u32, E)>)
        requires
            os.wf(),
            os.head@.len() == 0,
            k < 32,
            bit(os.filled, k),
            forall|c: u32| c < k ==> !#[trigger] bit(os.filled, c),
            m == os.mins@[k as int],
            w == os.buckets@[k as int]@,
            os.time < m,
            radix(os.time, m) == k + 1,
            self.buckets@.len() == 32,
            self.mins@.len() == 32,
            self.time == m,
            self.model == os.model,
            self.head@ == events_at(w, m),
            forall|c: int, u: u32|
                0 <= c < k ==> #[trigger] events_at(self.buckets@[c]@, u) == (if radix(m, u) == c
                    + 1 {
                    events_at(w, u)
                } else {
                    Seq::empty()
                }),
            forall|c: int, i: int|
                0 <= c < k && 0 <= i < self.buckets@[c]@.len() ==> radix(
                    m,
                    #[trigger] self.buckets@[c]@[i].0,
                ) == c + 1 && m < self.buckets@[c]@[i].0,
            forall|c: int|
                0 <= c < k ==> (#[trigger] self.buckets@[c]@.len() > 0) == bit(self.filled, c as u32),
            forall|c: int| 0 <= c < k ==> Self::min_ok(#[trigger] self.buckets@[c]@, self.mins@[c]),
            self.buckets@[k as int]@.len() == 0,
            self.mins@[k as int] == u32::MAX,
            !bit(self.filled, k),
            forall|c: int| k < c < 32 ==> #[trigger] self.buckets@[c] == os.buckets@[c],
            forall|c: int| k < c < 32 ==> #[trigger] self.mins@[c] == os.mins@[c],
            forall|c: u32| k < c < 32 ==> #[trigger] bit(self.filled, c) == bit(os.filled, c),
        ensures
            self.wf(),
            self.head@.len() > 0,
    {
        let t0 = os.time;
        assert(w.len() > 0);
        assert(Self::min_ok(w, m));
        let j = choose|j: int| 0 <= j < w.len() && w[j].0 == m;
        lemma_events_at_nonempty(w, m);
        assert forall|c: int| 0 <= c < 32 implies (#[trigger] self.buckets@[c]@.len() > 0) == bit(
            self.filled,
            c as u32,
        ) by {
            if c > k {
                assert(self.buckets@[c] == os.buckets@[c]);
                assert(bit(self.filled, c as u32) == bit(os.filled, c as u32));
            }
        }
        assert forall|c: int, i: int|
            0 <= c < 32 && 0 <= i < self.buckets@[c]@.len() implies radix(
            self.time,
            #[trigger] self.buckets@[c]@[i].0,
        ) == c + 1 && self.time < self.buckets@[c]@[i].0 by {
            if c > k {
                assert(self.buckets@[c] == os.buckets@[c]);
                let u = os.buckets@[c]@[i].0;
                assert(radix(t0, u) == c + 1 && t0 < u);
                lemma_rebase(t0, m, k, u);
            }
        }
        assert forall|c: int| 0 <= c < 32 implies Self::min_ok(
            #[trigger] self.buckets@[c]@,
            self.mins@[c],
        ) by {
            if c > k {
                assert(self.buckets@[c] == os.buckets@[c]);
                assert(self.mins@[c] == os.mins@[c]);
            }
        }
        assert forall|t: u32| #[trigger] events_at(self.model@, t) == self.raw(t).reverse() by {
            assert(events_at(os.model@, t) == os.raw(t).reverse());
            lemma_rebase(t0, m, k, t);
            lemma_radix_bits(t0, t);
            lemma_radix_bits(m, t);
            lemma_radix_bits(t0, m);
            let rt = radix(t0, t);
            let rm = radix(m, t);
            if t == m {
                assert(self.raw(t) == os.raw(t));
            } else if rm <= k {
                let c = rm - 1;
                assert(events_at(self.buckets@[c as int]@, t) == events_at(w, t));
                assert(self.raw(t) == os.raw(t));
            } else if rm == k + 1 {
                assert(self.raw(t) =~= Seq::<E>::empty());
                if t != t0 {
                    assert(!bit(os.filled, (rt - 1) as u32));
                    assert(os.buckets@[rt - 1]@.len() == 0);
                    assert(os.buckets@[rt - 1]@ =~= Seq::<(u32, E)>::empty());
                }
                assert(os.raw(t) =~= Seq::<E>::empty());
            } else {
                assert(self.buckets@[rm - 1] == os.buckets@[rm - 1]);
                assert(self.raw(t) == os.raw(t));
            }
        }
    }

    /// Pops the next event from the queue: the earliest pending event, and of those
    /// at the same time, the one pushed most recently. The current time moves to
    /// the time of the popped event.
    pub fn pop(&mut self) -> (r: Option<(u32, E)>)
        requires
            old(self).wf(),
        ensures
            final(self).wf(),
            old(self)@.len() == 0 ==> r is None && final(self)@ == old(self)@
                && final(self).spec_time() == old(self).spec_time(),
            old(self)@.len() > 0 ==> r == Some(old(self)@[0]) && final(self)@ == old(self)@.drop_first() && final(self).spec_time() == old(self)@[0].0,
    {
        if self.is_empty() {
            return None;
        }
        if self.head.len() == 0 {
            proof {
                self.lemma_empty();
            }
            self.reassign();
        }
        proof {
            self.lemma_pending_times();
        }
        let ghost before = *self;
        let ghost s = self.model@;
        let e = self.head.pop().unwrap();
        proof {
            let h = before.head@;
            assert(events_at(s, self.time) == h.reverse());
            lemma_reverse_drop_last(h);
            lemma_drop_first(s);
            assert(events_at(s, s[0].0)[0] == s[0].1);
            self.model = Ghost(s.drop_first());
            assert forall|i: int, j: int|
                0 <= i < j < self.model@.len() implies self.model@[i].0 <= self.model@[j].0 by {
                assert(self.model@[i] == s[i + 1]);
                assert(self.model@[j] == s[j + 1]);
            }
            assert forall|t: u32| #[trigger] events_at(self.model@, t) == self.raw(t).reverse() by {
                assert(events_at(s, t) == before.raw(t).reverse());
                if t == self.time {
                    assert(events_at(s, t) =~= seq![s[0].1] + events_at(self.model@, t));
                    assert(events_at(self.model@, t) =~= events_at(s, t).drop_first());
                } else {
                    assert(self.raw(t) == before.raw(t));
                }
            }
        }
        Some((self.time, e))
    }

    /// Pushes a sequence of events to the queue at the specified time.
    ///
    /// These events are popped in the order they have in `events`, before any event
    /// that was already pending at the same time. The time may not be before the
    /// current time.
    pub fn push_ordered(&mut self, time: u32, events: Vec<E>)
        requires
            old(self).wf(),
            old(self).spec_time() <= time,
        ensures
            final(self).wf(),
            final(self)@ == old(self)@.take(insert_index(old(self)@, time) as int) + events@.map_values(
                |e: E| (time, e),
            ) + old(self)@.skip(insert_index(old(self)@, time) as int),
            final(self).spec_time() == old(self).spec_time(),
    {
        let ghost s = self.model@;
        let ghost k = insert_index(s, time) as int;
        let ghost all = events@;
        let mut events = events;
        proof {
            lemma_insert_index(s, time);
            assert(s.take(k) + all.skip(all.len() as int).map_values(|e: E| (time, e)) + s.skip(k)
                =~= s);
            assert(all.take(all.len() as int) =~= all);
        }
        while events.len() > 0
            invariant
                self.wf(),
                self.spec_time() == old(self).spec_time(),
                self.spec_time() <= time,
                sorted(s),
                0 <= k <= s.len(),
                forall|i: int| 0 <= i < k ==> s[i].0 < time,
                forall|i: int| k <= i < s.len() ==> s[i].0 >= time,
                k == insert_index(s, time),
                events@.len() <= all.len(),
                events@ == all.take(events@.len() as int),
                self@ == s.take(k) + all.skip(events@.len() as int).map_values(|e: E| (time, e))
                    + s.skip(k),
            decreases events.len(),
        {
            let ghost n = events@.len() as int;
            let ghost cur = self@;
            let e = events.pop().unwrap();
            proof {
                assert(e == all.take(n)[n - 1]);
                assert(e == all[n - 1]);
                let mid = all.skip(n).map_values(|e: E| (time, e));
                assert(cur == s.take(k) + (mid + s.skip(k)));
                lemma_insert_index_at(cur, time, k);
            }
            self.push(time, e);
            proof {
                let mid = all.skip(n).map_values(|e: E| (time, e));
                assert(all.skip(n - 1).map_values(|e: E| (time, e)) =~= seq![(time, e)] + mid);
                assert(self@ =~= s.take(k) + all.skip(n - 1).map_values(|e: E| (time, e)) + s.skip(
                    k,
                ));
                assert(events@ =~= all.take(n - 1));
            }
        }
        proof {
            assert(all.skip(0) =~= all);
        }
    }

    /// Drains all events happening at the earliest pending time from the queue,
    /// and returns that time with the drained events, in the order the queue would
    /// have popped them. If the queue is empty, the returned time is the current
    /// time of the queue and no event is drained.
    pub fn drain_top(&mut self) -> (r: (u32, DrainTop<E>))
        requires
            old(self).wf(),
        ensures
            final(self).wf(),
            old(self)@.len() == 0 ==> r.0 == old(self).spec_time() && r.1@.len() == 0 && final(self)@ == old(self)@ && final(self).spec_time() == old(self).spec_time(),
            old(self)@.len() > 0 ==> r.0 == old(self)@[0].0 && final(self).spec_time() == r.0
                && r.1@.len() > 0 && old(self)@ == r.1@.map_values(|e: E| (r.0, e)) + final(self)@
                && (final(self)@.len() > 0 ==> final(self)@[0].0 > r.0),
    {
        proof {
            self.lemma_empty();
        }
        if self.head.len() == 0 && self.filled != 0 {
            self.reassign();
        }
        proof {
            self.lemma_pending_times();
            self.lemma_empty();
        }
        let ghost before = *self;
        let ghost s = self.model@;
        let mut h: Vec<E> = Vec::new();
        std::mem::swap(&mut h, &mut self.head);
        let ghost n = h@.len() as int;
        proof {
            let q = events_at(s, self.time);
            assert(q == h@.reverse());
            lemma_front(s, self.time);
            let rest = s.skip(n);
            self.model = Ghost(rest);
            assert(s =~= s.take(n) + rest);
            assert(s.take(n) =~= q.map_values(|e: E| (self.time, e)));
            assert forall|i: int, j: int| 0 <= i < j < rest.len() implies rest[i].0 <= rest[j].0 by {
                assert(rest[i] == s[i + n]);
                assert(rest[j] == s[j + n]);
            }
            assert forall|t: u32| #[trigger] events_at(self.model@, t) == self.raw(t).reverse() by {
                assert(events_at(s, t) == before.raw(t).reverse());
                lemma_events_at_add(s.take(n), rest, t);
                if t == self.time {
                    lemma_events_at_none(rest, t);
                    assert(self.raw(t).reverse() =~= Seq::<E>::empty());
                } else {
                    lemma_events_at_none(s.take(n), t);
                    assert(events_at(s.take(n), t) + events_at(rest, t) =~= events_at(rest, t));
                    assert(self.raw(t) == before.raw(t));
                }
            }
            if s.len() == 0 {
                assert(rest =~= s);
            }
        }
        (self.time, DrainTop { inner: h })
    }
}

/// The pending events of a queue come out in order of time, and none of them is
/// before the current time of the queue.
pub proof fn lemma_pending_in_order<E>(q: &RadixEventQueue<E>)
    requires
        q.wf(),
    ensures
        sorted(q@),
        forall|i: int| 0 <= i < q@.len() ==> q@[i].0 >= q.spec_time(),
{
    q.lemma_pending_times();
}

/// The event a pop hands out has the earliest pending time, which is not before
/// the current time; of the events at that time it is the one pushed last, as
/// [`lemma_insert`](crate::world::queue::order::lemma_insert) shows of every push.
pub proof fn lemma_pop_is_earliest<E>(q: &RadixEventQueue<E>)
    requires
        q.wf(),
        q@.len() > 0,
    ensures
        forall|i: int| 0 <= i < q@.len() ==> q@[0].0 <= #[trigger] q@[i].0,
        q@[0].0 >= q.spec_time(),
{
    lemma_pending_in_order(q);
    assert forall|i: int| 0 <= i < q@.len() implies q@[0].0 <= #[trigger] q@[i].0 by {
        if i > 0 {
            assert(sorted(q@));
        }
    }
}

impl<E> Default for RadixEventQueue<E> {
    fn default() -> (r: Self)
        ensures
            r.wf(),
            r@ == Seq::<(u32, E)>::empty(),
            r.spec_time() == 0,
    {
        Self::new()
    }
}

/// The events at one time drained from a [`RadixEventQueue`] by
/// [`drain_top`](RadixEventQueue::drain_top), handed out in the order the queue
/// would have popped them.
pub struct DrainTop<E> {
    /// The drained events in the order they were pushed; they are handed out from the back.
    inner: Vec<E>,
}

impl<E> View for DrainTop<E> {
    type V = Seq<E>;

    /// The events not yet handed out, in the order they will be.
    closed spec fn view(&self) -> Seq<E> {
        self.inner@.reverse()
    }
}

impl<E> DrainTop<E> {
    /// Hands out the next drained event, if any is left.
    pub fn next(&mut self) -> (r: Option<E>)
        ensures
            old(self)@.len() == 0 ==> r is None && final(self)@ == old(self)@,
            old(self)@.len() > 0 ==> r == Some(old(self)@[0]) && final(self)@ == old(self)@.drop_first(),
    {
        proof {
            if self.inner@.len() > 0 {
                lemma_reverse_drop_last(self.inner@);
            }
        }
        self.inner.pop()
    }

    /// The number of events left, as a lower and an upper bound.
    pub fn size_hint(&self) -> (r: (usize, Option<usize>))
        ensures
            r.0 == self@.len(),
            r.1 == Some(r.0),
    {
        (self.inner.len(), Some(self.inner.len()))
    }
}
} // verus!
