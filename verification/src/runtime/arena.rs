//! A generational arena: items are stored in slots, and an id names a slot and
//! the generation the slot had when the item was stored. Removing an item bumps
//! the generation of its slot, so that the old id no longer finds anything, and
//! puts the slot on a list of free slots for later items.
use std::marker::PhantomData;

use vstd::pervasive::VecAdditionalExecFns;
use vstd::prelude::*;

verus! {

/// The raw id of a slot of an arena: its index and generation.
#[derive(Copy, Clone, Debug, PartialEq, Eq, Hash, Structural)]
pub struct RawId {
    i: usize,
    gen: usize,
}

impl RawId {
    /// The index of the slot the id names.
    pub closed spec fn index(self) -> usize {
        self.i
    }

    /// The generation the id names.
    pub closed spec fn generation(self) -> usize {
        self.gen
    }

    /// Creates an id for the slot at an index, with generation `0`.
    pub fn dummy_id(i: usize) -> (r: RawId)
        ensures
            r.index() == i,
            r.generation() == 0,
    {
        RawId { i, gen: 0 }
    }
}

/// A type that wraps the raw id of an arena.
pub trait ArenaId: Sized {
    /// The raw id this id wraps.
    spec fn spec_raw(&self) -> RawId;

    /// Wraps a raw id.
    fn from_raw(raw: RawId) -> (r: Self)
        ensures
            r.spec_raw() == raw,
    ;

    /// Returns the raw id this id wraps.
    fn raw(&self) -> (r: RawId)
        ensures
            r == self.spec_raw(),
    ;
}

impl ArenaId for RawId {
    open spec fn spec_raw(&self) -> RawId {
        *self
    }

    fn from_raw(raw: RawId) -> (r: Self) {
        raw
    }

    fn raw(&self) -> (r: RawId) {
        *self
    }
}

/// A slot of an arena.
struct Node<E> {
    gen: usize,
    value: Entry<E>,
}

/// What a slot holds: an item, or nothing and the next free slot.
enum Entry<E> {
    Item(E),
    Empty(Option<usize>),
}

/// The item a slot holds, if any.
spec fn node_item<E>(n: Node<E>) -> Option<E> {
    match n.value {
        Entry::Item(e) => Some(e),
        Entry::Empty(_) => None,
    }
}

/// An arena of items of type `E`, named by ids of type `I`.
pub struct Arena<I, E> {
    vec: Vec<Node<E>>,
    empty: Option<usize>,
    free: Ghost<Seq<usize>>,
    _pd: PhantomData<I>,
}

impl<I, E> Arena<I, E> {
    /// The slots of the arena: the generation of each, and the item it holds.
    pub closed spec fn slots(&self) -> Seq<(usize, Option<E>)> {
        self.vec@.map_values(|n: Node<E>| (n.gen, node_item(n)))
    }

    /// The first free slot, which the next item will take.
    pub closed spec fn free_head(&self) -> Option<usize> {
        self.empty
    }

    /// The item that an id finds: the item in its slot, when the slot holds one
    /// and has the id's generation.
    pub open spec fn spec_get(&self, id: RawId) -> Option<E> {
        if id.index() < self.slots().len() && self.slots()[id.index() as int].0 == id.generation() {
            self.slots()[id.index() as int].1
        } else {
            None
        }
    }

    /// The free slots are a list without repeats, linked from the head through
    /// each free slot to the next.
    pub closed spec fn wf(&self) -> bool {
        let f = self.free@;
        &&& f.no_duplicates()
        &&& forall|k: int|
            0 <= k < f.len() ==> {
                &&& (#[trigger] f[k]) < self.vec@.len()
                &&& self.vec@[f[k] as int].value == Entry::<E>::Empty(
                    if k + 1 < f.len() {
                        Some(f[k + 1])
                    } else {
                        None
                    },
                )
            }
        &&& self.empty == (if f.len() > 0 {
            Some(f[0])
        } else {
            None
        })
    }

    /// Creates an empty arena.
    pub fn new() -> (r: Self)
        ensures
            r.wf(),
            r.slots() == Seq::<(usize, Option<E>)>::empty(),
            r.free_head() is None,
    {
        let r = Arena { vec: Vec::new(), empty: None, free: Ghost(Seq::empty()), _pd: PhantomData };
        proof {
            assert(r.slots() =~= Seq::<(usize, Option<E>)>::empty());
        }
        r
    }

    /// `true` when `next` is this arena after `value` was stored with the id `id`:
    /// without a free slot, the item takes a new slot of generation `0` at the end,
    /// and the id names it. With one, the item takes the first free slot, keeping
    /// its generation; the id then has that generation, and the index the end of
    /// the arena had, which is not the index of the slot.
    pub open spec fn spec_pushed(&self, next: &Self, value: E, id: RawId) -> bool {
        match self.free_head() {
            None => {
                &&& next.slots() == self.slots().push((0usize, Some(value)))
                &&& id.index() == self.slots().len()
                &&& id.generation() == 0
                &&& next.free_head() is None
            },
            Some(n) => {
                &&& n < self.slots().len()
                &&& self.slots()[n as int].1 is None
                &&& next.slots() == self.slots().update(
                    n as int,
                    (self.slots()[n as int].0, Some(value)),
                )
                &&& id.index() == self.slots().len()
                &&& id.generation() == self.slots()[n as int].0
            },
        }
    }

    /// Stores an item and returns its id: see [`spec_pushed`](Arena::spec_pushed).
    pub fn push(&mut self, value: E) -> (id: I) where I: ArenaId
        requires
            old(self).wf(),
        ensures
            final(self).wf(),
            old(self).spec_pushed(&*final(self), value, id.spec_raw()),
    {
        let i = self.vec.len();
        let ghost f = self.free@;
        let gen = if let Some(n) = self.empty {
            proof {
                assert(f[0] == n);
            }
            let g = self.vec[n].gen;
            let next = match self.vec[n].value {
                Entry::Empty(u) => u,
                Entry::Item(_) => None,
            };
            self.vec.set(n, Node { gen: g, value: Entry::Item(value) });
            self.empty = next;
            self.free = Ghost(f.drop_first());
            proof {
                let f2 = f.drop_first();
                assert forall|k: int| 0 <= k < f2.len() implies #[trigger] f2[k] != n by {
                    assert(f[k + 1] == f2[k]);
                    assert(f[0] != f[k + 1]);
                }
                assert(self.slots() =~= old(self).slots().update(n as int, (g, Some(value))));
            }
            g
        } else {
            self.vec.push(Node { gen: 0, value: Entry::Item(value) });
            proof {
                assert(f.len() == 0);
                assert(self.slots() =~= old(self).slots().push((0usize, Some(value))));
            }
            0
        };
        I::from_raw(RawId { gen, i })
    }

    /// Returns the item an id finds, if any.
    pub fn get(&self, id: I) -> (r: Option<&E>) where I: ArenaId
        requires
            id.spec_raw().index() < self.slots().len(),
        ensures
            match r {
                Some(e) => self.spec_get(id.spec_raw()) == Some(*e),
                None => self.spec_get(id.spec_raw()) is None,
            },
    {
        let rid = id.raw();
        let v = &self.vec[rid.i];
        if rid.gen == v.gen {
            match &v.value {
                Entry::Item(e) => Some(e),
                _ => None,
            }
        } else {
            None
        }
    }

    /// Returns `true` if the index of an id names a slot of the arena, which
    /// [`get`](Arena::get) and [`get_mut`](Arena::get_mut) require.
    pub fn has_slot(&self, id: I) -> (r: bool) where I: ArenaId
        ensures
            r == (id.spec_raw().index() < self.slots().len()),
    {
        id.raw().i < self.vec.len()
    }

    /// Returns a mutable reference to the item an id finds, if any.
    #[verifier::rlimit(40)]
    pub fn get_mut(&mut self, id: I) -> (r: Option<&mut E>) where I: ArenaId
        requires
            old(self).wf(),
            id.spec_raw().index() < old(self).slots().len(),
        ensures
            r matches Some(e) ==> old(self).spec_get(id.spec_raw()) == Some(*e),
            r matches Some(e) ==> final(self).wf(),
            r matches Some(e) ==> final(self).free_head() == old(self).free_head(),
            r matches Some(e) ==> final(self).slots() == old(self).slots().update(
                id.spec_raw().index() as int,
                (id.spec_raw().generation(), Some(*final(e))),
            ),
            r is None ==> old(self).spec_get(id.spec_raw()) is None && *final(self) == *old(self),
    {
        let rid = id.raw();
        proof {
            let f = self.free@;
            if self.spec_get(rid) is Some {
                assert forall|k: int| 0 <= k < f.len() implies #[trigger] f[k] != rid.i by {
                }
            }
        }
        if rid.gen != self.vec[rid.i].gen {
            return None;
        }
        if let Entry::Empty(_) = &self.vec[rid.i].value {
            return None;
        }
        let v = &mut self.vec[rid.i];
        match &mut v.value {
            Entry::Item(e) => Some(e),
            Entry::Empty(_) => None,
        }
    }

    /// Removes the item an id finds, if any, and returns it.
    ///
    /// When the generations match, the slot's generation is bumped and the slot
    /// becomes the first free slot.
    pub fn remove(&mut self, id: I) -> (r: Option<E>) where I: ArenaId
        requires
            old(self).wf(),
            id.spec_raw().index() < old(self).slots().len(),
            old(self).slots()[id.spec_raw().index() as int].0 == id.spec_raw().generation() ==> {
                &&& old(self).slots()[id.spec_raw().index() as int].1 is Some
                &&& id.spec_raw().generation() < usize::MAX
            },
        ensures
            final(self).wf(),
            r == old(self).spec_get(id.spec_raw()),
            match r {
                Some(_) => {
                    &&& final(self).slots() == old(self).slots().update(
                        id.spec_raw().index() as int,
                        ((id.spec_raw().generation() + 1) as usize, None),
                    )
                    &&& final(self).free_head() == Some(id.spec_raw().index())
                },
                None => final(self).slots() == old(self).slots() && final(self).free_head()
                    == old(self).free_head(),
            },
    {
        let rid = id.raw();
        let g = self.vec[rid.i].gen;
        if rid.gen != g {
            return None;
        }
        let ghost f = self.free@;
        proof {
            assert forall|k: int| 0 <= k < f.len() implies #[trigger] f[k] != rid.i by {
            }
        }
        let mut old_node = Node { gen: g + 1, value: Entry::Empty(self.empty) };
        self.vec.set_and_swap(rid.i, &mut old_node);
        self.empty = Some(rid.i);
        self.free = Ghost(seq![rid.i].add(f));
        proof {
            let f2 = self.free@;
            assert forall|k: int| 0 <= k < f2.len() implies #[trigger] f2[k] < self.vec@.len() by {
                if k > 0 {
                    assert(f2[k] == f[k - 1]);
                }
            }
            assert forall|a: int, b: int| 0 <= a < b < f2.len() implies f2[a] != f2[b] by {
                if a > 0 {
                    assert(f2[a] == f[a - 1]);
                }
                assert(f2[b] == f[b - 1]);
            }
            assert forall|k: int| 0 <= k < f2.len() implies self.vec@[#[trigger] f2[k] as int].value
                == Entry::<E>::Empty(
                if k + 1 < f2.len() {
                    Some(f2[k + 1])
                } else {
                    None
                },
            ) by {
                if k > 0 {
                    assert(f2[k] == f[k - 1]);
                    assert(f2[k] != rid.i);
                    if k + 1 < f2.len() {
                        assert(f2[k + 1] == f[k]);
                    }
                } else {
                    if f.len() > 0 {
                        assert(f2[1] == f[0]);
                    }
                }
            }
            assert(self.slots() =~= old(self).slots().update(rid.i as int, ((g + 1) as usize, None)));
        }
        match old_node.value {
            Entry::Item(e) => Some(e),
            Entry::Empty(_) => None,
        }
    }

    /// Returns the ids of the slots that hold an item, in slot order, each with
    /// the slot's generation.
    pub fn ids(&self) -> (r: Vec<RawId>)
        ensures
            forall|k: int|
                0 <= k < r@.len() ==> self.spec_get(#[trigger] r@[k]) is Some,
            forall|k1: int, k2: int|
                0 <= k1 < k2 < r@.len() ==> (#[trigger] r@[k1]).index() < (#[trigger] r@[k2]).index(),
            forall|j: int|
                0 <= j < self.slots().len() && (#[trigger] self.slots()[j]).1 is Some ==> exists|k: int|
                    0 <= k < r@.len() && r@[k].index() == j,
    {
        let mut r: Vec<RawId> = Vec::new();
        let mut j: usize = 0;
        while j < self.vec.len()
            invariant
                j <= self.vec@.len(),
                forall|k: int| 0 <= k < r@.len() ==> self.spec_get(#[trigger] r@[k]) is Some,
                forall|k: int| 0 <= k < r@.len() ==> (#[trigger] r@[k]).index() < j,
                forall|k1: int, k2: int|
                    0 <= k1 < k2 < r@.len() ==> (#[trigger] r@[k1]).index() < (#[trigger] r@[k2]).index(),
                forall|m: int|
                    0 <= m < j && (#[trigger] self.slots()[m]).1 is Some ==> exists|k: int|
                        0 <= k < r@.len() && r@[k].index() == m,
            decreases self.vec@.len() - j,
        {
            let n = &self.vec[j];
            if let Entry::Item(_) = &n.value {
                let id = RawId { i: j, gen: n.gen };
                let ghost r0 = r@;
                r.push(id);
                proof {
                    assert(r@[r@.len() - 1] == id);
                    assert forall|m: int|
                        0 <= m < j + 1 && (#[trigger] self.slots()[m]).1 is Some implies exists|k: int|
                        0 <= k < r@.len() && r@[k].index() == m by {
                        if m == j {
                            assert(r@[r@.len() - 1].index() == m);
                        } else {
                            let k = choose|k: int| 0 <= k < r0.len() && r0[k].index() == m;
                            assert(r@[k] == r0[k]);
                        }
                    }
                }
            }
            j = j + 1;
        }
        r
    }
}


/// An item pushed into an arena with no free slot is found by the id that push
/// returns, and an id of any other slot finds what it found before.
pub proof fn lemma_push_then_get<I, E>(a: Arena<I, E>, b: Arena<I, E>, v: E, id: RawId, other: RawId)
    requires
        a.free_head() is None,
        a.spec_pushed(&b, v, id),
        other.index() != id.index(),
    ensures
        b.spec_get(id) == Some(v),
        b.spec_get(other) == a.spec_get(other),
{
}

/// An item pushed into an arena with no free slot comes back from a removal by
/// the id that push returned: the arena before the removal finds it by that id,
/// and after the removal (the slot's generation bumped, its item taken) the id
/// finds nothing, so a second removal by it gives `None`, while an id of any other
/// slot finds what it found before the push.
pub proof fn lemma_push_remove_round_trip<I, E>(
    a: Arena<I, E>,
    b: Arena<I, E>,
    c: Arena<I, E>,
    v: E,
    id: RawId,
    other: RawId,
)
    requires
        a.free_head() is None,
        a.spec_pushed(&b, v, id),
        c.slots() == b.slots().update(id.index() as int, ((id.generation() + 1) as usize, None)),
        other.index() != id.index(),
    ensures
        b.spec_get(id) == Some(v),
        c.spec_get(id) is None,
        c.spec_get(other) == a.spec_get(other),
{
}

/// The arenas a new arena goes through as it stores `vals` one after the other,
/// with no removal between, and the ids each store returns.
pub open spec fn spec_pushed_in_order<I, E>(arenas: Seq<Arena<I, E>>, vals: Seq<E>, ids: Seq<RawId>) -> bool {
    &&& arenas.len() == vals.len() + 1
    &&& ids.len() == vals.len()
    &&& arenas[0].slots().len() == 0
    &&& arenas[0].free_head() is None
    &&& forall|k: int| 0 <= k < vals.len() ==> #[trigger] arenas[k].spec_pushed(&arenas[k + 1], vals[k], ids[k])
}

/// After the first `j` stores into a new arena, the arena holds their items in
/// slots `0` to `j - 1` of generation `0`, and has no free slot.
proof fn lemma_pushes_prefix<I, E>(arenas: Seq<Arena<I, E>>, vals: Seq<E>, ids: Seq<RawId>, j: int)
    requires
        spec_pushed_in_order(arenas, vals, ids),
        0 <= j <= vals.len(),
    ensures
        arenas[j].free_head() is None,
        arenas[j].slots().len() == j,
        forall|k: int| 0 <= k < j ==> #[trigger] arenas[j].slots()[k] == (0usize, Some(vals[k])),
        forall|k: int| 0 <= k < j ==> (#[trigger] ids[k]).index() == k && ids[k].generation() == 0,
    decreases j,
{
    if j > 0 {
        let k = j - 1;
        lemma_pushes_prefix(arenas, vals, ids, k);
        assert(arenas[k].spec_pushed(&arenas[k + 1], vals[k], ids[k]));
        assert(k + 1 == j);
    }
}

/// Storing items one after the other into a new arena: the id each store returns
/// finds its item in the arena at the end.
pub proof fn lemma_pushes_then_get<I, E>(arenas: Seq<Arena<I, E>>, vals: Seq<E>, ids: Seq<RawId>)
    requires
        spec_pushed_in_order(arenas, vals, ids),
    ensures
        forall|k: int| 0 <= k < vals.len() ==> #[trigger] arenas.last().spec_get(ids[k]) == Some(vals[k]),
{
    let n = vals.len() as int;
    lemma_pushes_prefix(arenas, vals, ids, n);
    assert forall|k: int| 0 <= k < vals.len() implies #[trigger] arenas.last().spec_get(ids[k]) == Some(vals[k]) by {
        assert(arenas.last() == arenas[n]);
        assert(arenas[n].slots()[k] == (0usize, Some(vals[k])));
    }
}

/// Once an item is removed, its id finds nothing, even after a later item takes
/// its slot; that later item is found by the slot's index with the next generation.
pub proof fn lemma_removed_id_stays_stale<I, E>(
    a: Arena<I, E>,
    b: Arena<I, E>,
    c: Arena<I, E>,
    id: RawId,
    v: E,
    fresh: RawId,
)
    requires
        a.spec_get(id) is Some,
        id.generation() < usize::MAX,
        b.slots() == a.slots().update(id.index() as int, ((id.generation() + 1) as usize, None)),
        c.slots() == b.slots().update(id.index() as int, (b.slots()[id.index() as int].0, Some(v))),
        fresh.index() == id.index(),
        fresh.generation() == id.generation() + 1,
    ensures
        b.spec_get(id) is None,
        c.spec_get(id) is None,
        c.spec_get(fresh) == Some(v),
{
}

} // verus!
