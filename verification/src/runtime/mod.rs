//! An event driven combat runtime and the jobs built on it.
//!
//! Everything here is driven by an event queue: the user advances the queue and
//! reacts to each event, and the types in this module hold the state that the
//! events change: actors, their effects, and the cooldowns of their jobs.
use radix_heap::RadixHeapMap;
use std::cmp::Reverse;
use vstd::multiset::Multiset;
use vstd::pervasive::VecAdditionalExecFns;
use vstd::prelude::*;

use self::arena::{Arena, ArenaId, RawId};
use self::heap::{heap_events, heap_len, heap_new, heap_order, heap_pop, heap_push, heap_top};
use self::enums::{DamageElement, DamageType};
use self::math::PlayerStats;

/// A generational arena.
pub mod arena;
/// Cooldown bookkeeping for a job.
pub mod cooldown;
/// Plain event payloads.
pub mod event;
/// An event queue implemented as a radix heap.
pub mod eventqueue;
/// The radix heap of event times that orders the events of a runtime.
pub mod heap;
/// Clans, jobs, and damage kinds.
pub mod enums;
/// The game's math.
pub mod math;
/// Logic and types for Gunbreaker.
pub mod gnb;
/// Logic and types for Dragoon.
pub mod drg;
/// The effects on the two sides of a hit, read as buffs.
pub mod snapshot;

verus! {

/// Why an action could not be cast.
#[derive(Copy, Clone, Debug, PartialEq, Eq, Structural)]
pub enum ActionError<J> {
    /// The global cooldown is still running, with this much time left.
    GlobalCooldown(u32),
    /// The animation lock is still running, with this much time left.
    AnimationLock(u32),
    /// The cooldown of the action is still running, with this much time left.
    ActionCooldown(u32),
    /// The action needs a target and none is present.
    TargetAbsent,
    /// An error specific to the job.
    Job(J),
}

/// The identity of an actor, handed out by an [`Arena`](arena::Arena).
#[derive(Copy, Clone, Debug, PartialEq, Eq, Hash, Structural)]
pub struct ActorId(pub RawId);

impl ArenaId for ActorId {
    open spec fn spec_raw(&self) -> RawId {
        self.0
    }

    fn from_raw(raw: RawId) -> (r: Self) {
        ActorId(raw)
    }

    fn raw(&self) -> (r: RawId) {
        self.0
    }
}

/// An amount of damage of a certain type and element.
#[derive(Copy, Clone, Debug, PartialEq, Eq, Structural)]
pub struct DamageInstance {
    /// The amount of damage.
    pub dmg: u64,
    /// The type of the damage.
    pub ty: DamageType,
    /// The element of the damage.
    pub el: DamageElement,
}

/// A specific instance of an effect on an actor.
#[derive(Copy, Clone, Debug)]
pub struct EffectInstance {
    /// The effect.
    pub effect: StatusEffect,
    /// The time left on the effect.
    pub time: u32,
    /// The number of stacks of the effect.
    pub stack: u8,
}

impl EffectInstance {
    /// Creates an instance of an effect with some time left and some stacks.
    pub fn new(effect: StatusEffect, time: u32, stack: u8) -> (r: Self)
        ensures
            r == (EffectInstance { effect, time, stack }),
    {
        Self { effect, time, stack }
    }

    /// Advances the effect by some time, down to no time left; returns `true` once
    /// no time is left.
    pub fn advance(&mut self, time: u32) -> (r: bool)
        ensures
            final(self).time == (if old(self).time > time {
                (old(self).time - time) as u32
            } else {
                0
            }),
            final(self).effect == old(self).effect,
            final(self).stack == old(self).stack,
            r == (final(self).time == 0),
    {
        self.time = self.time.saturating_sub(time);
        self.time == 0
    }
}

/// A modifier for a specific type of value, either incoming or outgoing.
#[derive(Copy, Clone, Debug, PartialEq, Eq, Structural)]
pub struct ValueModifier<T> {
    /// The modifier for incoming events.
    pub incoming: Option<T>,
    /// The modifier for outgoing events.
    pub outgoing: Option<T>,
}

impl<T> Default for ValueModifier<T> {
    fn default() -> (r: Self)
        ensures
            r == (ValueModifier::<T> { incoming: None, outgoing: None }),
    {
        ValueModifier { incoming: None, outgoing: None }
    }
}

impl<T> ValueModifier<T> {
    /// Creates a modifier for neither side.
    pub fn empty() -> (r: Self)
        ensures
            r == (ValueModifier::<T> { incoming: None, outgoing: None }),
    {
        Self { incoming: None, outgoing: None }
    }

    /// Creates a modifier for outgoing events only.
    pub fn outgoing(t: T) -> (r: Self)
        ensures
            r == (ValueModifier::<T> { incoming: None, outgoing: Some(t) }),
    {
        Self { incoming: None, outgoing: Some(t) }
    }

    /// Creates a modifier for incoming events only.
    pub fn incoming(t: T) -> (r: Self)
        ensures
            r == (ValueModifier::<T> { incoming: Some(t), outgoing: None }),
    {
        Self { incoming: Some(t), outgoing: None }
    }
}

/// A damage multiplier `mul / div`.
#[derive(Copy, Clone, Debug, PartialEq, Eq, Structural)]
pub struct DamageScale {
    /// The numerator.
    pub mul: u64,
    /// The denominator.
    pub div: u64,
}

/// The table of what a status effect changes.
#[derive(Copy, Clone, Debug)]
pub struct StatusEffectVTable {
    /// The name of the effect.
    pub name: &'static str,
    /// The damage multiplier of the effect.
    pub damage: ValueModifier<DamageScale>,
    /// The Critical Hit chance the effect adds, scaled by `1000`.
    pub crit: ValueModifier<u64>,
    /// The Direct Hit chance the effect adds, scaled by `1000`.
    pub dhit: ValueModifier<u64>,
    /// The amounts the effect adds to each stat.
    pub stats: Option<PlayerStats>,
}

impl StatusEffectVTable {
    /// Creates a table with a name and no modifiers.
    pub fn empty(name: &'static str) -> (r: Self)
        ensures
            r.name == name,
            r.damage == (ValueModifier::<DamageScale> { incoming: None, outgoing: None }),
            r.crit == (ValueModifier::<u64> { incoming: None, outgoing: None }),
            r.dhit == (ValueModifier::<u64> { incoming: None, outgoing: None }),
            r.stats is None,
    {
        StatusEffectVTable {
            name,
            damage: ValueModifier::empty(),
            crit: ValueModifier::empty(),
            dhit: ValueModifier::empty(),
            stats: None,
        }
    }
}

/// A status effect: its identity and its table.
///
/// Two status effects are the same effect exactly when their ids are equal.
#[derive(Copy, Clone, Debug)]
pub struct StatusEffect {
    /// The identity of the effect.
    pub id: u32,
    /// What the effect changes.
    pub vtable: StatusEffectVTable,
}

impl StatusEffect {
    /// Creates a status effect with an identity from a table.
    pub fn new(id: u32, vtable: StatusEffectVTable) -> (r: Self)
        ensures
            r.id == id,
            r.vtable == vtable,
    {
        StatusEffect { id, vtable }
    }
}

impl PartialEq for StatusEffect {
    fn eq(&self, other: &Self) -> (r: bool) {
        self.id == other.id
    }
}

impl vstd::std_specs::cmp::PartialEqSpecImpl for StatusEffect {
    open spec fn obeys_eq_spec() -> bool {
        true
    }

    open spec fn eq_spec(&self, other: &Self) -> bool {
        self.id == other.id
    }
}

impl Eq for StatusEffect {

}

/// An actor taking part in the simulation.
#[derive(Clone, Debug)]
pub struct Actor {
    /// The name of the actor.
    pub name: &'static str,
    /// The health of the actor.
    pub health: u64,
    /// The effects on the actor, each with the actor that applied it.
    pub effects: Vec<(ActorId, EffectInstance)>,
    /// The actors that mirror this one.
    pub mirrors: Vec<ActorId>,
}


/// `a - b`, or `0` when `b` is larger.
pub open spec fn effect_time_sub(a: u32, b: u32) -> u32 {
    if a > b {
        (a - b) as u32
    } else {
        0
    }
}

/// The effects left after some time passes: each loses the time, and those with
/// no time left are gone; the others keep their order.
pub open spec fn advanced_effects(effects: Seq<(ActorId, EffectInstance)>, time: u32) -> Seq<(ActorId, EffectInstance)>
    decreases effects.len(),
{
    if effects.len() == 0 {
        Seq::empty()
    } else {
        let prev = advanced_effects(effects.drop_last(), time);
        let (id, e) = effects.last();
        let t = effect_time_sub(e.time, time);
        if t > 0 {
            prev.push((id, EffectInstance { time: t, ..e }))
        } else {
            prev
        }
    }
}

/// `true` if an entry is the effect `effect` applied by `source`.
pub open spec fn effect_key_is(entry: (ActorId, EffectInstance), source: ActorId, effect: StatusEffect) -> bool {
    entry.0 == source && entry.1.effect.id == effect.id
}

impl Actor {
    /// No effect is on the actor twice from the same source.
    pub open spec fn wf(&self) -> bool {
        forall|i: int, j: int|
            #![trigger self.effects@[i], self.effects@[j]]
            0 <= i < j < self.effects@.len() ==> !effect_key_is(
                self.effects@[i],
                self.effects@[j].0,
                self.effects@[j].1.effect,
            )
    }

    /// The position of the effect `effect` applied by `source`, if it is on the actor.
    pub open spec fn spec_find(&self, source: ActorId, effect: StatusEffect) -> Option<int> {
        if exists|i: int| 0 <= i < self.effects@.len() && effect_key_is(#[trigger] self.effects@[i], source, effect) {
            Some(choose|i: int| 0 <= i < self.effects@.len() && effect_key_is(#[trigger] self.effects@[i], source, effect))
        } else {
            None
        }
    }

    /// Returns the position of the effect `effect` applied by `source`, if it is on
    /// the actor.
    fn find(&self, source: ActorId, effect: StatusEffect) -> (r: Option<usize>)
        requires
            self.wf(),
        ensures
            match r {
                Some(i) => i < self.effects@.len() && effect_key_is(self.effects@[i as int], source, effect)
                    && self.spec_find(source, effect) == Some(i as int),
                None => self.spec_find(source, effect) is None,
            },
    {
        let mut i: usize = 0;
        while i < self.effects.len()
            invariant
                self.wf(),
                i <= self.effects@.len(),
                forall|k: int| 0 <= k < i ==> !effect_key_is(#[trigger] self.effects@[k], source, effect),
            decreases self.effects@.len() - i,
        {
            let (id, e) = self.effects[i];
            if id == source && e.effect.id == effect.id {
                proof {
                    let c = choose|k: int| 0 <= k < self.effects@.len() && effect_key_is(#[trigger] self.effects@[k], source, effect);
                    if c != i {
                        if c < i {
                        } else {
                            assert(!effect_key_is(self.effects@[i as int], self.effects@[c].0, self.effects@[c].1.effect));
                        }
                    }
                }
                return Some(i);
            }
            i = i + 1;
        }
        None
    }

    /// Returns `true` if the effect `effect` applied by `source` is on the actor.
    pub fn has_effect(&self, source: ActorId, effect: StatusEffect) -> (r: bool)
        requires
            self.wf(),
        ensures
            r == self.spec_find(source, effect) is Some,
    {
        self.find(source, effect).is_some()
    }

    /// Puts an effect applied by `source` on the actor, in place of the same
    /// effect from the same source if it is there already.
    pub fn apply_effect(&mut self, source: ActorId, effect: EffectInstance)
        requires
            old(self).wf(),
        ensures
            final(self).wf(),
            final(self).name == old(self).name,
            final(self).health == old(self).health,
            final(self).mirrors == old(self).mirrors,
            match old(self).spec_find(source, effect.effect) {
                Some(i) => final(self).effects@ == old(self).effects@.update(i, (source, effect)),
                None => final(self).effects@ == old(self).effects@.push((source, effect)),
            },
    {
        match self.find(source, effect.effect) {
            Some(i) => {
                self.effects.set(i, (source, effect));
                proof {
                    assert forall|a: int, b: int| #![trigger self.effects@[a], self.effects@[b]] 0 <= a < b < self.effects@.len() implies !effect_key_is(
                        self.effects@[a],
                        self.effects@[b].0,
                        self.effects@[b].1.effect,
                    ) by {
                        assert(!effect_key_is(old(self).effects@[a], old(self).effects@[b].0, old(self).effects@[b].1.effect));
                    }
                }
            },
            None => {
                self.effects.push((source, effect));
                proof {
                    assert forall|a: int, b: int| #![trigger self.effects@[a], self.effects@[b]] 0 <= a < b < self.effects@.len() implies !effect_key_is(
                        self.effects@[a],
                        self.effects@[b].0,
                        self.effects@[b].1.effect,
                    ) by {
                        if b < old(self).effects@.len() {
                            assert(!effect_key_is(old(self).effects@[a], old(self).effects@[b].0, old(self).effects@[b].1.effect));
                        } else {
                            assert(!effect_key_is(old(self).effects@[a], source, effect.effect));
                        }
                    }
                }
            },
        }
    }

    /// Takes the effect `effect` applied by `source` off the actor, and returns it
    /// if it was there.
    pub fn remove_effect(&mut self, source: ActorId, effect: StatusEffect) -> (r: Option<EffectInstance>)
        requires
            old(self).wf(),
        ensures
            final(self).wf(),
            final(self).name == old(self).name,
            final(self).health == old(self).health,
            final(self).mirrors == old(self).mirrors,
            match old(self).spec_find(source, effect) {
                Some(i) => r == Some(old(self).effects@[i].1) && final(self).effects@ == old(self).effects@.remove(i),
                None => r is None && final(self).effects@ == old(self).effects@,
            },
    {
        match self.find(source, effect) {
            Some(i) => {
                let (_, e) = self.effects.remove(i);
                proof {
                    let o = old(self).effects@;
                    assert forall|a: int, b: int| #![trigger self.effects@[a], self.effects@[b]] 0 <= a < b < self.effects@.len() implies !effect_key_is(
                        self.effects@[a],
                        self.effects@[b].0,
                        self.effects@[b].1.effect,
                    ) by {
                        let oa = if a < i { a } else { a + 1 };
                        let ob = if b < i { b } else { b + 1 };
                        assert(self.effects@[a] == o[oa]);
                        assert(self.effects@[b] == o[ob]);
                        assert(!effect_key_is(o[oa], o[ob].0, o[ob].1.effect));
                    }
                }
                Some(e)
            },
            None => None,
        }
    }

    /// Advances the effects on the actor by some time: each loses the time, and
    /// those with no time left are removed.
    pub fn advance(&mut self, time: u32)
        ensures
            final(self).effects@ == advanced_effects(old(self).effects@, time),
            final(self).name == old(self).name,
            final(self).health == old(self).health,
            final(self).mirrors == old(self).mirrors,
    {
        let mut kept: Vec<(ActorId, EffectInstance)> = Vec::new();
        let mut i: usize = 0;
        proof {
            assert(self.effects@.take(0) =~= Seq::<(ActorId, EffectInstance)>::empty());
        }
        while i < self.effects.len()
            invariant
                i <= self.effects@.len(),
                kept@ == advanced_effects(self.effects@.take(i as int), time),
            decreases self.effects@.len() - i,
        {
            proof {
                assert(self.effects@.take(i as int + 1).drop_last() =~= self.effects@.take(i as int));
            }
            let (id, e) = self.effects[i];
            let mut e2 = e;
            if !e2.advance(time) {
                kept.push((id, e2));
            }
            i = i + 1;
        }
        proof {
            assert(self.effects@.take(i as int) =~= self.effects@);
        }
        self.effects = kept;
    }
}


/// The events held in `slots`, each with its time: one for each slot that holds
/// one.
pub open spec fn slot_events<E>(slots: Seq<Option<(u32, E)>>) -> Multiset<(u32, E)>
    decreases slots.len(),
{
    if slots.len() == 0 {
        Multiset::empty()
    } else {
        let rest = slot_events(slots.drop_last());
        match slots.last() {
            Some(x) => rest.insert(x),
            None => rest,
        }
    }
}

/// Adding a slot at the end adds its event, if it holds one.
proof fn lemma_slot_events_push<E>(s: Seq<Option<(u32, E)>>, x: Option<(u32, E)>)
    ensures
        slot_events(s.push(x)) == match x {
            Some(v) => slot_events(s).insert(v),
            None => slot_events(s),
        },
{
    assert(s.push(x).drop_last() =~= s);
}

/// The event of a slot is among the events of the slots.
proof fn lemma_slot_events_contains<E>(s: Seq<Option<(u32, E)>>, i: int)
    requires
        0 <= i < s.len(),
        s[i] is Some,
    ensures
        slot_events(s).count(s[i]->Some_0) > 0,
    decreases s.len(),
{
    if i < s.len() - 1 {
        lemma_slot_events_contains(s.drop_last(), i);
    }
}

/// An event among the events of the slots is held by one of them.
proof fn lemma_slot_events_held<E>(s: Seq<Option<(u32, E)>>, x: (u32, E)) -> (i: int)
    requires
        slot_events(s).count(x) > 0,
    ensures
        0 <= i < s.len(),
        s[i] == Some(x),
    decreases s.len(),
{
    if s.len() == 0 {
        assert(false);
        0
    } else if s.last() == Some(x) {
        s.len() - 1
    } else {
        lemma_slot_events_held(s.drop_last(), x)
    }
}

/// Filling an empty slot adds its event.
proof fn lemma_slot_events_fill<E>(s: Seq<Option<(u32, E)>>, i: int, v: (u32, E))
    requires
        0 <= i < s.len(),
        s[i] is None,
    ensures
        slot_events(s.update(i, Some(v))) =~= slot_events(s).insert(v),
    decreases s.len(),
{
    let t = s.update(i, Some(v));
    if i == s.len() - 1 {
        assert(t.drop_last() =~= s.drop_last());
    } else {
        lemma_slot_events_fill(s.drop_last(), i, v);
        assert(t.drop_last() =~= s.drop_last().update(i, Some(v)));
    }
}

/// Emptying a slot that holds an event takes that event away.
proof fn lemma_slot_events_take<E>(s: Seq<Option<(u32, E)>>, i: int)
    requires
        0 <= i < s.len(),
        s[i] is Some,
    ensures
        slot_events(s.update(i, None)) =~= slot_events(s).remove(s[i]->Some_0),
    decreases s.len(),
{
    let t = s.update(i, None);
    if i == s.len() - 1 {
        assert(t.drop_last() =~= s.drop_last());
    } else {
        lemma_slot_events_take(s.drop_last(), i);
        lemma_slot_events_contains(s.drop_last(), i);
        assert(t.drop_last() =~= s.drop_last().update(i, None));
    }
}

/// `true` when the slot `next` holds the actor of the slot `prev`, if any, with its
/// effects advanced by `time`, and the slot keeps its generation.
pub open spec fn actor_advanced(prev: (usize, Option<Actor>), next: (usize, Option<Actor>), time: u32) -> bool {
    &&& next.0 == prev.0
    &&& match (prev.1, next.1) {
        (None, None) => true,
        (Some(a), Some(b)) => {
            &&& b.effects@ == advanced_effects(a.effects@, time)
            &&& b.name == a.name
            &&& b.health == a.health
            &&& b.mirrors == a.mirrors
        },
        _ => false,
    }
}

/// `true` when the slots `next` hold the actors of the slots `prev`, each with its
/// effects advanced by `time`.
pub open spec fn actors_advanced(prev: Seq<(usize, Option<Actor>)>, next: Seq<(usize, Option<Actor>)>, time: u32) -> bool {
    &&& next.len() == prev.len()
    &&& forall|j: int| 0 <= j < prev.len() ==> #[trigger] actor_advanced(prev[j], next[j], time)
}

/// The runtime of a simulation: a clock, the events waiting for their time, and
/// the actors.
///
/// The events wait in slots; a radix heap of event times orders them, each time
/// paired with the slot of its event.
pub struct Runtime<E> {
    global_time: u32,
    event_queue: RadixHeapMap<Reverse<u32>, usize>,
    events: Vec<Option<(u32, E)>>,
    free: Vec<usize>,
    actors: Arena<ActorId, Actor>,
}

impl<E> Runtime<E> {
    /// The events waiting for their time, each with its time.
    pub closed spec fn pending(&self) -> Multiset<(u32, E)> {
        slot_events(self.events@)
    }

    /// The time of the runtime.
    pub closed spec fn spec_global(&self) -> u32 {
        self.global_time
    }

    /// The actors, by the slots of their arena.
    pub closed spec fn spec_actors(&self) -> Arena<ActorId, Actor> {
        self.actors
    }

    /// The heap pairs each waiting event's time with its slot, no waiting event
    /// is before the time of the runtime, and the free slots hold no event.
    pub closed spec fn wf(&self) -> bool {
        &&& forall|t: u32, s: usize|
            #[trigger] heap_events(self.event_queue).count((t, s)) == (if s < self.events@.len()
                && self.events@[s as int] is Some && self.events@[s as int]->Some_0.0 == t {
                1nat
            } else {
                0nat
            })
        &&& heap_events(self.event_queue).len() == slot_events(self.events@).len()
        &&& heap_top(self.event_queue) matches Some(top) ==> top == self.global_time
        &&& forall|s: int|
            0 <= s < self.events@.len() && (#[trigger] self.events@[s]) is Some ==> self.global_time
                <= self.events@[s]->Some_0.0
        &&& self.free@.no_duplicates()
        &&& forall|k: int|
            0 <= k < self.free@.len() ==> (#[trigger] self.free@[k]) < self.events@.len()
                && self.events@[self.free@[k] as int] is None
        &&& forall|t: u32| #[trigger] heap_order(self.event_queue, t).no_duplicates()
        &&& forall|t: u32, i: int|
            0 <= i < heap_order(self.event_queue, t).len() ==> {
                let s = #[trigger] heap_order(self.event_queue, t)[i];
                &&& s < self.events@.len()
                &&& self.events@[s as int] is Some
                &&& self.events@[s as int]->Some_0.0 == t
            }
        &&& self.actors.wf()
        &&& self.actors.free_head() is None
    }

    /// The events waiting for the time `t`, in the order they were added.
    pub closed spec fn pending_at(&self, t: u32) -> Seq<E> {
        heap_order(self.event_queue, t).map_values(|s: usize| self.events@[s as int]->Some_0.1)
    }

    /// Creates a runtime at time `0` with no events and no actors.
    pub fn new() -> (r: Self)
        ensures
            r.wf(),
            r.pending() =~= Multiset::empty(),
            forall|t: u32| #[trigger] r.pending_at(t) == Seq::<E>::empty(),
            r.spec_global() == 0,
            r.spec_actors().slots() == Seq::<(usize, Option<Actor>)>::empty(),
    {
        Runtime {
            global_time: 0,
            event_queue: heap_new(),
            events: Vec::new(),
            free: Vec::new(),
            actors: Arena::new(),
        }
    }

    /// Adds an event to happen after `delay`.
    pub fn add_event(&mut self, event: E, delay: u32)
        requires
            old(self).wf(),
            old(self).spec_global() + delay <= u32::MAX,
        ensures
            final(self).wf(),
            final(self).pending() =~= old(self).pending().insert(
                ((old(self).spec_global() + delay) as u32, event),
            ),
            final(self).pending_at((old(self).spec_global() + delay) as u32) == old(self).pending_at(
                (old(self).spec_global() + delay) as u32,
            ).push(event),
            forall|t: u32|
                t != old(self).spec_global() + delay ==> #[trigger] final(self).pending_at(t) == old(
                    self,
                ).pending_at(t),
            final(self).spec_global() == old(self).spec_global(),
            final(self).spec_actors() == old(self).spec_actors(),
    {
        let time = self.global_time + delay;
        let ghost old_events = self.events@;
        let ghost old_free = self.free@;
        let slot = match self.free.pop() {
            Some(s) => {
                proof {
                    assert(old_free[old_free.len() - 1] == s);
                    assert(old_events[s as int] is None);
                    lemma_slot_events_fill(old_events, s as int, (time, event));
                }
                self.events.set(s, Some((time, event)));
                s
            },
            None => {
                proof {
                    lemma_slot_events_push(old_events, Some((time, event)));
                }
                self.events.push(Some((time, event)));
                self.events.len() - 1
            },
        };
        proof {
            assert(slot >= old_events.len() || old_events[slot as int] is None);
            assert(self.events@[slot as int] == Some((time, event)));
            assert forall|s: int| 0 <= s < old_events.len() && s != slot implies #[trigger] self.events@[s]
                == old_events[s] by {
            }
        }
        let ghost old_queue = self.event_queue;
        heap_push(&mut self.event_queue, time, slot);
        proof {
            assert forall|t: u32, i: int| 0 <= i < heap_order(old_queue, t).len() implies #[trigger] heap_order(
                old_queue,
                t,
            )[i] != slot by {
                let s = heap_order(old_queue, t)[i];
                assert(s < old_events.len() && old_events[s as int] is Some);
            }
            assert forall|t: u32| #[trigger] heap_order(self.event_queue, t).no_duplicates() by {
                let o = heap_order(old_queue, t);
                assert(o.no_duplicates());
                if t == time {
                    let n = heap_order(self.event_queue, t);
                    assert(n == o.push(slot));
                    assert forall|a: int, b: int| 0 <= a < n.len() && 0 <= b < n.len() && a != b implies n[a]
                        != n[b] by {
                        if a < o.len() && b < o.len() {
                            assert(n[a] == o[a] && n[b] == o[b]);
                        } else if a < o.len() {
                            assert(n[a] == o[a]);
                            assert(o[a] != slot);
                        } else {
                            assert(n[b] == o[b]);
                            assert(o[b] != slot);
                        }
                    }
                }
            }
            assert forall|t: u32, i: int| 0 <= i < heap_order(self.event_queue, t).len() implies {
                let s = #[trigger] heap_order(self.event_queue, t)[i];
                &&& s < self.events@.len()
                &&& self.events@[s as int] is Some
                &&& self.events@[s as int]->Some_0.0 == t
            } by {
                let o = heap_order(old_queue, t);
                if t == time && i == o.len() {
                } else {
                    assert(heap_order(self.event_queue, t)[i] == o[i]);
                    assert(o[i] != slot);
                }
            }
            assert forall|t: u32| t != time implies #[trigger] self.pending_at(t) == old(self).pending_at(t) by {
                let o = heap_order(old_queue, t);
                assert forall|i: int| 0 <= i < o.len() implies self.events@[o[i] as int] == old_events[o[i] as int] by {
                    assert(o[i] != slot);
                }
                assert(self.pending_at(t) =~= old(self).pending_at(t));
            }
            let o = heap_order(old_queue, time);
            assert forall|i: int| 0 <= i < o.len() implies self.events@[o[i] as int] == old_events[o[i] as int] by {
                assert(o[i] != slot);
            }
            assert(self.pending_at(time) =~= old(self).pending_at(time).push(event));
            assert(self.free@ =~= old_free.take(self.free@.len() as int));
            assert forall|k: int| 0 <= k < self.free@.len() implies (#[trigger] self.free@[k])
                < self.events@.len() && self.events@[self.free@[k] as int] is None by {
                assert(self.free@[k] == old_free[k]);
                assert(old_free[k] != slot);
            }
        }
    }

    /// Advances the runtime to the earliest waiting event and takes it: returns the
    /// time that passed and the event, or `None` when no event waits.
    ///
    /// The effects of every actor lose the time that passed, and those with no
    /// time left are removed. Of several events at the earliest time, the one
    /// added last comes first.
    pub fn advance(&mut self) -> (r: Option<(u32, E)>)
        requires
            old(self).wf(),
        ensures
            final(self).wf(),
            old(self).pending().len() == 0 ==> {
                &&& r is None
                &&& final(self).pending() == old(self).pending()
                &&& forall|t: u32| #[trigger] final(self).pending_at(t) == old(self).pending_at(t)
                &&& final(self).spec_global() == old(self).spec_global()
                &&& final(self).spec_actors() == old(self).spec_actors()
            },
            old(self).pending().len() > 0 ==> (r matches Some(p) && {
                let at = (old(self).spec_global() + p.0) as u32;
                &&& old(self).pending_at(at).len() > 0
                &&& p.1 == old(self).pending_at(at).last()
                &&& final(self).pending_at(at) == old(self).pending_at(at).drop_last()
                &&& forall|t: u32| t != at ==> #[trigger] final(self).pending_at(t) == old(self).pending_at(t)
                &&& old(self).pending().contains(((old(self).spec_global() + p.0) as u32, p.1))
                &&& forall|x: (u32, E)| #[trigger]
                    old(self).pending().contains(x) ==> old(self).spec_global() + p.0 <= x.0
                &&& final(self).pending() =~= old(self).pending().remove(
                    ((old(self).spec_global() + p.0) as u32, p.1),
                )
                &&& final(self).spec_global() == old(self).spec_global() + p.0
                &&& final(self).spec_actors().free_head() == old(self).spec_actors().free_head()
                &&& actors_advanced(old(self).spec_actors().slots(), final(self).spec_actors().slots(), p.0)
            }),
    {
        let ghost old_events = self.events@;
        let ghost old_heap = heap_events(self.event_queue);
        let ghost old_free = self.free@;
        let ghost old_queue = self.event_queue;
        let (time, slot) = match heap_pop(&mut self.event_queue) {
            Some(x) => x,
            None => {
                return None;
            },
        };
        proof {
            assert(old_heap.count((time, slot)) > 0);
        }
        let mut taken: Option<(u32, E)> = None;
        self.events.set_and_swap(slot, &mut taken);
        let event = match taken {
            Some((_, e)) => e,
            None => vstd::pervasive::unreached(),
        };
        proof {
            let o = heap_order(old_queue, time);
            assert(o[o.len() - 1] == slot);
            assert(old_events[slot as int]->Some_0.0 == time);
            assert forall|t: u32, i: int| 0 <= i < heap_order(self.event_queue, t).len() implies {
                let s = #[trigger] heap_order(self.event_queue, t)[i];
                &&& s != slot
                &&& heap_order(self.event_queue, t)[i] == heap_order(old_queue, t)[i]
                &&& i < heap_order(old_queue, t).len()
            } by {
                let ot = heap_order(old_queue, t);
                if t == time {
                    assert(heap_order(self.event_queue, t)[i] == ot[i]);
                    assert(ot.no_duplicates());
                    assert(ot[i] != ot[ot.len() - 1]);
                } else {
                    assert(heap_order(self.event_queue, t)[i] == ot[i]);
                    assert(old_events[ot[i] as int]->Some_0.0 == t);
                }
            }
            assert forall|t: u32| #[trigger] heap_order(self.event_queue, t).no_duplicates() by {
                let n = heap_order(self.event_queue, t);
                let ot = heap_order(old_queue, t);
                assert(ot.no_duplicates());
                assert forall|a: int, b: int| 0 <= a < n.len() && 0 <= b < n.len() && a != b implies n[a]
                    != n[b] by {
                    assert(n[a] == ot[a] && n[b] == ot[b]);
                }
            }
            assert forall|t: u32| #[trigger] self.pending_at(t) =~= (if t == time {
                old(self).pending_at(t).drop_last()
            } else {
                old(self).pending_at(t)
            }) by {
                let n = heap_order(self.event_queue, t);
                assert forall|i: int| 0 <= i < n.len() implies self.events@[n[i] as int] == old_events[n[i] as int] by {
                    assert(n[i] != slot);
                }
            }
            assert(event == old(self).pending_at(time).last());
            lemma_slot_events_take(old_events, slot as int);
            lemma_slot_events_contains(old_events, slot as int);
            assert(old_events.len() == old(self).events.len());
            assert forall|x: (u32, E)| #[trigger] slot_events(old_events).contains(x) implies time <= x.0 by {
                let i = lemma_slot_events_held(old_events, x);
                let si = i as usize;
                assert(si as int == i);
                assert(old_heap.count((x.0, si)) == 1);
                assert(old_heap.contains((x.0, si)));
            }
            assert forall|k: int| 0 <= k < old_free.len() implies old_free[k] != slot by {
            }
        }
        self.free.push(slot);
        let dt = time - self.global_time;
        self.global_time = time;
        proof {
            assert forall|k: int| 0 <= k < self.free@.len() implies (#[trigger] self.free@[k])
                < self.events@.len() && self.events@[self.free@[k] as int] is None by {
                if k < old_free.len() {
                    assert(self.free@[k] == old_free[k]);
                }
            }
            assert forall|s: int| 0 <= s < self.events@.len() && (#[trigger] self.events@[s]) is Some implies time
                <= self.events@[s]->Some_0.0 by {
                assert(old_events[s] == self.events@[s]);
                let si = s as usize;
                assert(old_heap.count((self.events@[s]->Some_0.0, si)) == 1);
                assert(old_heap.contains((self.events@[s]->Some_0.0, si)));
            }
        }
        self.advance_actors(dt);
        Some((dt, event))
    }

    /// Advances the effects of every actor by `time`.
    fn advance_actors(&mut self, time: u32)
        requires
            old(self).actors.wf(),
        ensures
            final(self).actors.wf(),
            final(self).actors.free_head() == old(self).actors.free_head(),
            actors_advanced(old(self).actors.slots(), final(self).actors.slots(), time),
            final(self).global_time == old(self).global_time,
            final(self).event_queue == old(self).event_queue,
            final(self).events == old(self).events,
            final(self).free == old(self).free,
    {
        let ids = self.actors.ids();
        let ghost start = self.actors.slots();
        let mut k: usize = 0;
        while k < ids.len()
            invariant
                k <= ids@.len(),
                self.actors.wf(),
                self.actors.free_head() == old(self).actors.free_head(),
                start == old(self).actors.slots(),
                self.actors.slots().len() == start.len(),
                self.global_time == old(self).global_time,
                self.event_queue == old(self).event_queue,
                self.events == old(self).events,
                self.free == old(self).free,
                forall|m: int|
                    0 <= m < ids@.len() ==> {
                        let id = #[trigger] ids@[m];
                        &&& id.index() < start.len()
                        &&& start[id.index() as int].0 == id.generation()
                        &&& start[id.index() as int].1 is Some
                    },
                forall|m1: int, m2: int|
                    0 <= m1 < m2 < ids@.len() ==> (#[trigger] ids@[m1]).index() < (#[trigger] ids@[m2]).index(),
                forall|j: int|
                    0 <= j < start.len() ==> if exists|m: int| 0 <= m < k && (#[trigger] ids@[m]).index() == j {
                        actor_advanced(start[j], self.actors.slots()[j], time)
                    } else {
                        self.actors.slots()[j] == start[j]
                    },
            decreases ids@.len() - k,
        {
            let id = ActorId(ids[k]);
            let ghost jk = ids@[k as int].index() as int;
            let ghost before = self.actors.slots();
            proof {
                assert(!exists|m: int| 0 <= m < k && (#[trigger] ids@[m]).index() == jk);
                assert(before[jk] == start[jk]);
            }
            match self.actors.get_mut(id) {
                Some(a) => a.advance(time),
                None => {},
            }
            proof {
                assert forall|j: int| 0 <= j < start.len() implies if exists|m: int|
                    0 <= m < k + 1 && (#[trigger] ids@[m]).index() == j {
                    actor_advanced(start[j], self.actors.slots()[j], time)
                } else {
                    self.actors.slots()[j] == start[j]
                } by {
                    if j == jk {
                        assert(ids@[k as int].index() == j);
                    } else {
                        if exists|m: int| 0 <= m < k + 1 && (#[trigger] ids@[m]).index() == j {
                            let m = choose|m: int| 0 <= m < k + 1 && (#[trigger] ids@[m]).index() == j;
                            assert(m < k);
                        }
                    }
                }
            }
            k = k + 1;
        }
        proof {
            assert forall|j: int| 0 <= j < start.len() implies #[trigger] actor_advanced(
                start[j],
                self.actors.slots()[j],
                time,
            ) by {
                if start[j].1 is Some {
                    assert(exists|m: int| 0 <= m < ids@.len() && ids@[m].index() == j);
                } else {
                    if exists|m: int| 0 <= m < k && (#[trigger] ids@[m]).index() == j {
                        let m = choose|m: int| 0 <= m < k && (#[trigger] ids@[m]).index() == j;
                        assert(start[ids@[m].index() as int].1 is Some);
                    }
                }
            }
        }
    }

    /// Adds an actor and returns its id: the next slot of the arena of actors.
    pub fn add_actor(&mut self, actor: Actor) -> (r: ActorId)
        requires
            old(self).wf(),
        ensures
            final(self).wf(),
            final(self).spec_actors().slots() == old(self).spec_actors().slots().push((0usize, Some(actor))),
            r.0.index() == old(self).spec_actors().slots().len(),
            r.0.generation() == 0,
            final(self).pending() == old(self).pending(),
            forall|t: u32| #[trigger] final(self).pending_at(t) == old(self).pending_at(t),
            final(self).spec_global() == old(self).spec_global(),
    {
        self.actors.push(actor)
    }

    /// Returns `true` if an id names a slot of the arena of actors, which
    /// [`get_actor`](Runtime::get_actor) and [`get_actor_mut`](Runtime::get_actor_mut)
    /// require.
    pub fn has_actor_slot(&self, actor: ActorId) -> (r: bool)
        ensures
            r == (actor.0.index() < self.spec_actors().slots().len()),
    {
        self.actors.has_slot(actor)
    }

    /// Returns the actor an id finds, if any.
    pub fn get_actor(&self, actor: ActorId) -> (r: Option<&Actor>)
        requires
            actor.0.index() < self.spec_actors().slots().len(),
        ensures
            match r {
                Some(a) => self.spec_actors().spec_get(actor.0) == Some(*a),
                None => self.spec_actors().spec_get(actor.0) is None,
            },
    {
        self.actors.get(actor)
    }

    /// Returns a mutable reference to the actor an id finds, if any.
    pub fn get_actor_mut(&mut self, actor: ActorId) -> (r: Option<&mut Actor>)
        requires
            old(self).wf(),
            actor.0.index() < old(self).spec_actors().slots().len(),
        ensures
            final(self).wf(),
            final(self).pending() == old(self).pending(),
            forall|t: u32| #[trigger] final(self).pending_at(t) == old(self).pending_at(t),
            final(self).spec_global() == old(self).spec_global(),
            r matches Some(a) ==> old(self).spec_actors().spec_get(actor.0) == Some(*a),
            r matches Some(a) ==> final(self).spec_actors().slots() == old(self).spec_actors().slots().update(
                actor.0.index() as int,
                (actor.0.generation(), Some(*final(a))),
            ),
            r is None ==> old(self).spec_actors().spec_get(actor.0) is None && final(self).spec_actors()
                == old(self).spec_actors(),
    {
        self.actors.get_mut(actor)
    }

    /// Returns the time of the runtime.
    pub fn global(&self) -> (r: u32)
        ensures
            r == self.spec_global(),
    {
        self.global_time
    }

    /// Returns the number of events waiting for their time.
    pub fn events(&self) -> (r: usize)
        requires
            self.wf(),
        ensures
            r == self.pending().len(),
    {
        heap_len(&self.event_queue)
    }
}

impl<E> Default for Runtime<E> {
    fn default() -> (r: Self)
        ensures
            r.wf(),
            r.pending() =~= Multiset::empty(),
            r.spec_global() == 0,
            r.spec_actors().slots() == Seq::<(usize, Option<Actor>)>::empty(),
    {
        Self::new()
    }
}

} // verus!
