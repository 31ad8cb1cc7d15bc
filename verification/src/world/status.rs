//! Status effect handling.
//!
//! The term Status Effect encompasses both buffs and debuffs,
//! as well as any "proc" type effects.
//!
//! Each status effect has a [`StatusVTable`] that holds the name and duration of
//! the effect, as well as the modifiers it applies to values such as damage or
//! critical hit chance. A specific instance of a status effect on an actor is a
//! [`StatusInstance`].
use vstd::prelude::*;

use crate::enums::{DamageElement, DamageInstance, DamageType};
use crate::math::{Buffs, EotSnapshot, PlayerStats, SpeedStat};

use super::{status_op, ActorId, Event, SinkOp};

verus! {

/// A specific instance of a status effect inflicted upon an actor.
#[derive(Copy, Clone, Debug)]
pub struct StatusInstance {
    /// The ID of the actor who inflicted this status.
    pub source: ActorId,
    /// The status effect.
    pub effect: StatusEffect,
    /// The time remaining on the status.
    pub time: u32,
    /// The number of stacks of the status.
    pub stack: u8,
}

impl StatusInstance {
    /// Creates a new status instance of an effect applied by some source actor,
    /// with the effect's duration and `1` stack.
    pub fn new(source: ActorId, effect: StatusEffect) -> (r: Self)
        ensures
            r == (StatusInstance { source, effect, time: effect.vtable.duration, stack: 1 }),
    {
        Self::new_stack(source, effect, 1)
    }

    /// Creates a new status instance of an effect applied by some source actor,
    /// with the effect's duration and the given number of stacks.
    pub fn new_stack(source: ActorId, effect: StatusEffect, stack: u8) -> (r: Self)
        ensures
            r == (StatusInstance { source, effect, time: effect.vtable.duration, stack }),
    {
        StatusInstance { source, effect, stack, time: effect.vtable.duration }
    }

    /// Removes the status effect from the actor.
    pub fn remove(&mut self)
        ensures
            *final(self) == (StatusInstance { stack: 0, ..*old(self) }),
    {
        self.stack = 0;
    }

    /// Decreases the number of stacks of the status, down to a minimum of `0`.
    ///
    /// If the number stacks reaches `0`, the status instance will be removed
    /// from the actor.
    pub fn sub_stacks(&mut self, stacks: u8)
        ensures
            *final(self) == (StatusInstance {
                stack: if old(self).stack >= stacks {
                    (old(self).stack - stacks) as u8
                } else {
                    0
                },
                ..*old(self)
            }),
    {
        self.stack = self.stack.saturating_sub(stacks);
    }

    /// Increases the number of stacks of the status, up to a certain maximum.
    pub fn add_stacks(&mut self, stacks: u8, max: u8)
        ensures
            *final(self) == (StatusInstance {
                stack: if old(self).stack + stacks <= max {
                    (old(self).stack + stacks) as u8
                } else {
                    max
                },
                ..*old(self)
            }),
    {
        let s: u16 = self.stack as u16 + stacks as u16;
        self.stack = if s <= max as u16 {
            s as u8
        } else {
            max
        };
    }

    /// Advances the status instance forward by a certain amount of time.
    ///
    /// A permanent status is unchanged. Any other loses the time, and is removed
    /// once no time is left.
    pub fn advance(&mut self, time: u32)
        ensures
            old(self).effect.vtable.permanent ==> *final(self) == *old(self),
            !old(self).effect.vtable.permanent ==> final(self).time == (if old(self).time > time {
                (old(self).time - time) as u32
            } else {
                0
            }) && final(self).stack == (if old(self).time > time {
                old(self).stack
            } else {
                0
            }) && final(self).source == old(self).source && final(self).effect == old(
                self,
            ).effect,
    {
        if !self.effect.vtable.permanent {
            self.time = self.time.saturating_sub(time);
            if self.time == 0 {
                self.stack = 0;
            }
        }
    }
}

/// A status effect: its identity and its [`StatusVTable`].
///
/// Two status effects are the same effect exactly when their ids are equal.
#[derive(Copy, Clone, Debug)]
pub struct StatusEffect {
    /// The identity of the effect.
    pub id: u32,
    /// The name, duration and modifiers of the effect.
    pub vtable: StatusVTable,
}

impl StatusEffect {
    /// Creates a new [`StatusEffect`] with the given identity from a certain VTable.
    pub fn new(id: u32, vtable: StatusVTable) -> (r: Self)
        ensures
            r == (StatusEffect { id, vtable }),
    {
        StatusEffect { id, vtable }
    }
}

impl PartialEq for StatusEffect {
    fn eq(&self, other: &Self) -> (r: bool) {
        self.id == other.id
    }
}

impl vstd::std_specs::cmp::PartialEqSpecImpl for StatusEffect {
    open spec fn obeys_eq_spec() -> bool {
        true
    }

    open spec fn eq_spec(&self, other: &Self) -> bool {
        self.id == other.id
    }
}

impl Eq for StatusEffect {

}

/// A status effect with no modifiers.
pub open spec fn spec_plain_status(id: u32, name: &'static str, duration: u32) -> StatusEffect {
    StatusEffect {
        id,
        vtable: StatusVTable {
            name,
            permanent: false,
            damage: ValueModifier { incoming: None, outgoing: None },
            crit: ValueModifier { incoming: None, outgoing: None },
            dhit: ValueModifier { incoming: None, outgoing: None },
            haste: None,
            stats: None,
            duration,
        },
    }
}

/// Returns a status effect with no modifiers.
pub fn plain_status(id: u32, name: &'static str, duration: u32) -> (r: StatusEffect)
    ensures
        r == spec_plain_status(id, name, duration),
{
    StatusEffect::new(
        id,
        StatusVTable {
            name,
            permanent: false,
            damage: ValueModifier::empty(),
            crit: ValueModifier::empty(),
            dhit: ValueModifier::empty(),
            haste: None,
            stats: None,
            duration,
        },
    )
}

/// A status effect with one modifier of each kind given, and no others.
pub open spec fn spec_status(
    id: u32,
    name: &'static str,
    duration: u32,
    damage: ValueModifier<DamageMod>,
    crit: ValueModifier<u64>,
    dhit: ValueModifier<u64>,
    haste: Option<HasteMod>,
) -> StatusEffect {
    StatusEffect {
        id,
        vtable: StatusVTable {
            name,
            permanent: false,
            damage,
            crit,
            dhit,
            haste,
            stats: None,
            duration,
        },
    }
}

/// Returns a status effect with the given modifiers and no others.
pub fn status_with(
    id: u32,
    name: &'static str,
    duration: u32,
    damage: ValueModifier<DamageMod>,
    crit: ValueModifier<u64>,
    dhit: ValueModifier<u64>,
    haste: Option<HasteMod>,
) -> (r: StatusEffect)
    ensures
        r == spec_status(id, name, duration, damage, crit, dhit, haste),
{
    StatusEffect::new(
        id,
        StatusVTable { name, permanent: false, damage, crit, dhit, haste, stats: None, duration },
    )
}

/// A multiplier of damage, `(base + per_stack * stacks) / div`, where `stacks` is
/// the number of stacks of the status that applies it.
#[derive(Copy, Clone, Debug, PartialEq, Eq, Structural)]
pub struct DamageMod {
    /// The numerator of the multiplier without stacks.
    pub base: u64,
    /// What every stack of the status adds to the numerator.
    pub per_stack: u64,
    /// The denominator of the multiplier.
    pub div: u64,
}

/// A haste multiplier, scaled by `100`.
#[derive(Copy, Clone, Debug, PartialEq, Eq, Structural)]
pub enum HasteMod {
    /// The same multiplier whatever the number of stacks.
    Flat(u64),
    /// A multiplier for `1`, `2`, `3` and `4` stacks; with any other number of
    /// stacks the multiplier is `100`.
    Stacks(u64, u64, u64, u64),
}

/// The VTable for some specific status effect.
#[derive(Copy, Clone, Debug)]
pub struct StatusVTable {
    /// The name of the status effect.
    pub name: &'static str,
    /// If true, the status effect will last forever.
    pub permanent: bool,
    /// The damage modifier of the status effect.
    pub damage: ValueModifier<DamageMod>,
    /// The Critical Hit modifier of the status effect: the chance it adds,
    /// scaled by `1000`.
    pub crit: ValueModifier<u64>,
    /// The Direct Hit modifier of the status effect: the chance it adds, scaled
    /// by `1000`.
    pub dhit: ValueModifier<u64>,
    /// The haste modifier of the status effect.
    pub haste: Option<HasteMod>,
    /// The player stats modifier of the status effect: the amounts it adds to
    /// each stat.
    pub stats: Option<PlayerStats>,
    /// The default duration of the status effect.
    pub duration: u32,
}

impl StatusVTable {
    /// Creates a VTable with the specified name, no modifiers and no duration.
    pub fn empty(name: &'static str) -> (r: Self)
        ensures
            r == (StatusVTable {
                name,
                permanent: false,
                damage: ValueModifier { incoming: None, outgoing: None },
                crit: ValueModifier { incoming: None, outgoing: None },
                dhit: ValueModifier { incoming: None, outgoing: None },
                duration: 0,
                haste: None,
                stats: None,
            }),
    {
        StatusVTable {
            name,
            permanent: false,
            damage: ValueModifier::empty(),
            crit: ValueModifier::empty(),
            dhit: ValueModifier::empty(),
            duration: 0,
            haste: None,
            stats: None,
        }
    }
}

/// A modifier for a specific type of value, either incoming or outgoing.
#[derive(Copy, Clone, Debug, PartialEq, Eq, Structural)]
pub struct ValueModifier<T> {
    /// The modifier for incoming events.
    pub incoming: Option<T>,
    /// The modifier for outgoing events.
    pub outgoing: Option<T>,
}

impl<T> ValueModifier<T> {
    /// Creates a new empty value modifier.
    pub fn empty() -> (r: Self)
        ensures
            r == (ValueModifier::<T> { incoming: None, outgoing: None }),
    {
        ValueModifier { incoming: None, outgoing: None }
    }

    /// Creates a new solely outgoing value modifier.
    pub fn outgoing(t: T) -> (r: Self)
        ensures
            r == (ValueModifier::<T> { incoming: None, outgoing: Some(t) }),
    {
        ValueModifier { incoming: None, outgoing: Some(t) }
    }

    /// Creates a new solely incoming value modifier.
    pub fn incoming(t: T) -> (r: Self)
        ensures
            r == (ValueModifier::<T> { incoming: Some(t), outgoing: None }),
    {
        ValueModifier { incoming: Some(t), outgoing: None }
    }
}

impl<T> Default for ValueModifier<T> {
    fn default() -> (r: Self)
        ensures
            r == (ValueModifier::<T> { incoming: None, outgoing: None }),
    {
        ValueModifier { incoming: None, outgoing: None }
    }
}

/// An event of status modification.
#[derive(Copy, Clone, Debug)]
pub struct StatusEvent {
    /// The status effect to be modified.
    pub status: StatusEffect,
    /// The source actor for the event.
    pub source: ActorId,
    /// The target actor of the event.
    pub target: ActorId,
    /// The kind of modification that will be executed.
    pub kind: StatusEventKind,
}

impl StatusEvent {
    /// The event that applies `status` with `stacks` stacks from `source` to `target`.
    pub open spec fn spec_apply(status: StatusEffect, stacks: u8, source: ActorId, target: ActorId) -> StatusEvent {
        StatusEvent {
            kind: StatusEventKind::Apply { duration: status.vtable.duration, stacks },
            status,
            source,
            target,
        }
    }

    /// The event that applies the damage over time effect `status` with its snapshot.
    pub open spec fn spec_apply_dot(
        status: StatusEffect,
        snapshot: EotSnapshot,
        stacks: u8,
        source: ActorId,
        target: ActorId,
    ) -> StatusEvent {
        StatusEvent {
            kind: StatusEventKind::ApplyDot { duration: status.vtable.duration, snapshot, stacks },
            status,
            source,
            target,
        }
    }

    /// The event that removes `status` from `target`.
    pub open spec fn spec_remove(status: StatusEffect, source: ActorId, target: ActorId) -> StatusEvent {
        StatusEvent { kind: StatusEventKind::Remove, status, source, target }
    }

    /// The event that removes `stacks` stacks of `status` from `target`.
    pub open spec fn spec_remove_stacks(
        status: StatusEffect,
        stacks: u8,
        source: ActorId,
        target: ActorId,
    ) -> StatusEvent {
        StatusEvent { kind: StatusEventKind::RemoveStacks { stacks }, status, source, target }
    }

    /// The event that adds `stacks` stacks of `status` to `target`, up to `max`.
    pub open spec fn spec_add_stacks(
        status: StatusEffect,
        stacks: u8,
        max: u8,
        source: ActorId,
        target: ActorId,
    ) -> StatusEvent {
        StatusEvent { kind: StatusEventKind::AddStacks { stacks, max }, status, source, target }
    }

    /// The event that applies `status` or extends it, up to `multiple` times its duration.
    pub open spec fn spec_apply_or_extend(
        status: StatusEffect,
        stacks: u8,
        multiple: u32,
        source: ActorId,
        target: ActorId,
    ) -> StatusEvent {
        StatusEvent {
            kind: StatusEventKind::ApplyOrExtend {
                duration: status.vtable.duration,
                stacks,
                max: (status.vtable.duration * multiple) as u32,
            },
            status,
            source,
            target,
        }
    }

    /// The event that applies `status` or adds stacks to it, up to `max`.
    pub open spec fn spec_apply_or_add_stacks(
        status: StatusEffect,
        stacks: u8,
        max: u8,
        source: ActorId,
        target: ActorId,
    ) -> StatusEvent {
        StatusEvent {
            kind: StatusEventKind::ApplyOrAddStacks { duration: status.vtable.duration, stacks, max },
            status,
            source,
            target,
        }
    }

    /// Applies a status effect with a certain number of stacks on to a target actor.
    pub fn apply(status: StatusEffect, stacks: u8, source: ActorId, target: ActorId) -> (r: Self)
        ensures
            r == Self::spec_apply(status, stacks, source, target),
    {
        StatusEvent {
            kind: StatusEventKind::Apply { duration: status.vtable.duration, stacks },
            status,
            source,
            target,
        }
    }

    /// Applies a DoT status effect with a certain number of stacks on to a target actor.
    pub fn apply_dot(
        status: StatusEffect,
        snapshot: EotSnapshot,
        stacks: u8,
        source: ActorId,
        target: ActorId,
    ) -> (r: Self)
        ensures
            r == Self::spec_apply_dot(status, snapshot, stacks, source, target),
    {
        StatusEvent {
            kind: StatusEventKind::ApplyDot { duration: status.vtable.duration, snapshot, stacks },
            status,
            source,
            target,
        }
    }

    /// Removes a status effect from a target actor.
    pub fn remove(status: StatusEffect, source: ActorId, target: ActorId) -> (r: Self)
        ensures
            r == Self::spec_remove(status, source, target),
    {
        StatusEvent { kind: StatusEventKind::Remove, status, source, target }
    }

    /// Removes a certain number of stacks from a status effect from a target actor.
    pub fn remove_stacks(status: StatusEffect, stacks: u8, source: ActorId, target: ActorId) -> (r:
        Self)
        ensures
            r == Self::spec_remove_stacks(status, stacks, source, target),
    {
        StatusEvent { kind: StatusEventKind::RemoveStacks { stacks }, status, source, target }
    }

    /// Adds a certain number of stacks to a status effect on a target actor.
    pub fn add_stacks(
        status: StatusEffect,
        stacks: u8,
        max: u8,
        source: ActorId,
        target: ActorId,
    ) -> (r: Self)
        ensures
            r == Self::spec_add_stacks(status, stacks, max, source, target),
    {
        StatusEvent { kind: StatusEventKind::AddStacks { stacks, max }, status, source, target }
    }

    /// Applies a status effect or extends the duration if it already exists on a
    /// target actor, up to `multiple` times its duration.
    ///
    /// The number of `stacks` will be overwritten.
    pub fn apply_or_extend(
        status: StatusEffect,
        stacks: u8,
        multiple: u32,
        source: ActorId,
        target: ActorId,
    ) -> (r: Self)
        requires
            status.vtable.duration * multiple <= u32::MAX,
        ensures
            r == Self::spec_apply_or_extend(status, stacks, multiple, source, target),
    {
        StatusEvent {
            kind: StatusEventKind::ApplyOrExtend {
                duration: status.vtable.duration,
                stacks,
                max: status.vtable.duration * multiple,
            },
            status,
            source,
            target,
        }
    }

    /// Applies a status effect or adds to the number of stacks if it already
    /// exists on a target actor; the duration is then unchanged.
    pub fn apply_or_add_stacks(
        status: StatusEffect,
        stacks: u8,
        max: u8,
        source: ActorId,
        target: ActorId,
    ) -> (r: Self)
        ensures
            r == Self::spec_apply_or_add_stacks(status, stacks, max, source, target),
    {
        StatusEvent {
            kind: StatusEventKind::ApplyOrAddStacks { duration: status.vtable.duration, stacks, max },
            status,
            source,
            target,
        }
    }
}

/// The kind of modification a status event will do.
#[derive(Copy, Clone, Debug, PartialEq, Eq, Structural)]
pub enum StatusEventKind {
    /// Applies the status with a duration and a number of stacks.
    Apply { duration: u32, stacks: u8 },
    /// Applies a damage over time status with its snapshot.
    ApplyDot { duration: u32, snapshot: EotSnapshot, stacks: u8 },
    /// Removes the status.
    Remove,
    /// Removes a number of stacks of the status.
    RemoveStacks { stacks: u8 },
    /// Adds a number of stacks to the status, up to a maximum.
    AddStacks { stacks: u8, max: u8 },
    /// Applies the status, or extends its duration up to a maximum.
    ApplyOrExtend { duration: u32, stacks: u8, max: u32 },
    /// Applies the status, or adds stacks to it up to a maximum.
    ApplyOrAddStacks { duration: u32, stacks: u8, max: u8 },
}


impl DamageMod {
    /// The numerator of the multiplier with `stack` stacks.
    pub open spec fn spec_mult(self, stack: u8) -> int {
        self.base + self.per_stack * stack
    }
}

impl HasteMod {
    /// The haste multiplier with `stack` stacks, scaled by `100`.
    pub open spec fn spec_value(self, stack: u8) -> u64 {
        match self {
            HasteMod::Flat(v) => v,
            HasteMod::Stacks(a, b, c, d) => if stack == 1 {
                a
            } else if stack == 2 {
                b
            } else if stack == 3 {
                c
            } else if stack == 4 {
                d
            } else {
                100
            },
        }
    }

    /// Returns the haste multiplier with `stack` stacks, scaled by `100`.
    pub fn value(&self, stack: u8) -> (r: u64)
        ensures
            r == self.spec_value(stack),
    {
        match self {
            HasteMod::Flat(v) => *v,
            HasteMod::Stacks(a, b, c, d) => if stack == 1 {
                *a
            } else if stack == 2 {
                *b
            } else if stack == 3 {
                *c
            } else if stack == 4 {
                *d
            } else {
                100
            },
        }
    }
}

/// A trait describing a job status effect.
///
/// These effects come from job traits or gauges, for example Bard's Army's Paeon.
/// Unlike a [`StatusEffect`], a job effect reads the state of the job.
pub trait JobEffect {
    /// `true` when the effect's values can be computed.
    spec fn spec_valid(&self) -> bool;

    /// The damage after the effect's damage modifier.
    spec fn spec_damage(&self, damage: u64, dmg_ty: DamageType, dmg_el: DamageElement) -> u64;

    /// The Critical Hit chance the effect adds, scaled by `1000`.
    spec fn spec_crit(&self) -> u64;

    /// The Direct Hit chance the effect adds, scaled by `1000`.
    spec fn spec_dhit(&self) -> u64;

    /// The haste multiplier of the effect, scaled by `100`.
    spec fn spec_haste(&self) -> u64;

    /// The damage modifier for the job effect.
    fn damage(&self, damage: u64, dmg_ty: DamageType, dmg_el: DamageElement) -> (r: u64)
        requires
            self.spec_valid(),
        ensures
            r == self.spec_damage(damage, dmg_ty, dmg_el),
    ;

    /// The Critical Hit modifier for the job effect.
    fn crit(&self) -> (r: u64)
        requires
            self.spec_valid(),
        ensures
            r == self.spec_crit(),
    ;

    /// The Direct Hit modifier for the job effect.
    fn dhit(&self) -> (r: u64)
        requires
            self.spec_valid(),
        ensures
            r == self.spec_dhit(),
    ;

    /// The haste modifier for the job effect.
    fn haste(&self) -> (r: u64)
        requires
            self.spec_valid(),
        ensures
            r == self.spec_haste(),
    ;
}

/// The damage modifier of a status instance on one side, if it has one.
pub open spec fn damage_mod_of(s: StatusInstance, incoming: bool) -> Option<DamageMod> {
    if incoming {
        s.effect.vtable.damage.incoming
    } else {
        s.effect.vtable.damage.outgoing
    }
}

/// Applies the damage modifier `m` of a status with `stack` stacks to `acc`.
pub open spec fn damage_step(m: DamageMod, stack: u8, acc: int) -> int {
    acc * m.spec_mult(stack) / m.div as int
}

/// `true` when [`damage_step`] can be computed in `u64` arithmetic.
pub open spec fn damage_step_ok(m: DamageMod, stack: u8, acc: int) -> bool {
    &&& m.div > 0
    &&& m.spec_mult(stack) <= u64::MAX
    &&& acc * m.spec_mult(stack) <= u64::MAX
}

/// The damage after the modifiers of every status of `list` on one side, in order.
pub open spec fn fold_damage(list: Seq<StatusInstance>, incoming: bool, acc: int) -> int
    decreases list.len(),
{
    if list.len() == 0 {
        acc
    } else {
        let prev = fold_damage(list.drop_last(), incoming, acc);
        match damage_mod_of(list.last(), incoming) {
            Some(m) => damage_step(m, list.last().stack, prev),
            None => prev,
        }
    }
}

/// `true` when every step of [`fold_damage`] can be computed in `u64` arithmetic.
pub open spec fn fold_damage_ok(list: Seq<StatusInstance>, incoming: bool, acc: int) -> bool
    decreases list.len(),
{
    if list.len() == 0 {
        true
    } else {
        &&& fold_damage_ok(list.drop_last(), incoming, acc)
        &&& match damage_mod_of(list.last(), incoming) {
            Some(m) => damage_step_ok(m, list.last().stack, fold_damage(list.drop_last(), incoming, acc)),
            None => true,
        }
    }
}

/// The chance a status instance adds on one side, `0` if it adds none.
pub open spec fn chance_of(s: StatusInstance, dhit: bool, incoming: bool) -> u64 {
    let m = if dhit {
        s.effect.vtable.dhit
    } else {
        s.effect.vtable.crit
    };
    let side = if incoming {
        m.incoming
    } else {
        m.outgoing
    };
    match side {
        Some(v) => v,
        None => 0,
    }
}

/// The sum of the chances the statuses of `list` add on one side.
pub open spec fn sum_chance(list: Seq<StatusInstance>, dhit: bool, incoming: bool) -> int
    decreases list.len(),
{
    if list.len() == 0 {
        0
    } else {
        sum_chance(list.drop_last(), dhit, incoming) + chance_of(list.last(), dhit, incoming)
    }
}

/// The haste multiplier of a status instance, `None` if it has no haste modifier.
pub open spec fn haste_of(s: StatusInstance) -> Option<u64> {
    match s.effect.vtable.haste {
        Some(h) => Some(h.spec_value(s.stack)),
        None => None,
    }
}

/// The haste after the multipliers of every status of `list`, in order.
pub open spec fn fold_haste(list: Seq<StatusInstance>, acc: int) -> int
    decreases list.len(),
{
    if list.len() == 0 {
        acc
    } else {
        let prev = fold_haste(list.drop_last(), acc);
        match haste_of(list.last()) {
            Some(h) => prev * h / 100,
            None => prev,
        }
    }
}

/// `true` when every step of [`fold_haste`] can be computed in `u64` arithmetic.
pub open spec fn fold_haste_ok(list: Seq<StatusInstance>, acc: int) -> bool
    decreases list.len(),
{
    if list.len() == 0 {
        true
    } else {
        &&& fold_haste_ok(list.drop_last(), acc)
        &&& match haste_of(list.last()) {
            Some(h) => fold_haste(list.drop_last(), acc) * h <= u64::MAX,
            None => true,
        }
    }
}

/// `a + b`, saturating at the largest `u16`.
pub open spec fn add_stat(a: u16, b: u16) -> u16 {
    if a + b > u16::MAX {
        u16::MAX
    } else {
        (a + b) as u16
    }
}

/// Every stat of `a` raised by the same stat of `b`, saturating.
pub open spec fn add_stats(a: PlayerStats, b: PlayerStats) -> PlayerStats {
    PlayerStats {
        str: add_stat(a.str, b.str),
        vit: add_stat(a.vit, b.vit),
        dex: add_stat(a.dex, b.dex),
        intel: add_stat(a.intel, b.intel),
        mnd: add_stat(a.mnd, b.mnd),
        det: add_stat(a.det, b.det),
        crt: add_stat(a.crt, b.crt),
        dh: add_stat(a.dh, b.dh),
        sks: add_stat(a.sks, b.sks),
        sps: add_stat(a.sps, b.sps),
        ten: add_stat(a.ten, b.ten),
        pie: add_stat(a.pie, b.pie),
    }
}

/// The stats after the stat modifiers of every status of `list`, in order.
pub open spec fn fold_stats(list: Seq<StatusInstance>, acc: PlayerStats) -> PlayerStats
    decreases list.len(),
{
    if list.len() == 0 {
        acc
    } else {
        let prev = fold_stats(list.drop_last(), acc);
        match list.last().effect.vtable.stats {
            Some(p) => add_stats(prev, p),
            None => prev,
        }
    }
}

/// A prefix of a list of statuses is the list one element shorter, plus that element.
proof fn lemma_take_next(list: Seq<StatusInstance>, i: int)
    requires
        0 <= i < list.len(),
    ensures
        list.take(i + 1).drop_last() == list.take(i),
        list.take(i + 1).last() == list[i],
        list.take(i + 1).len() == i + 1,
{
    assert(list.take(i + 1).drop_last() =~= list.take(i));
}

/// A fold that can be computed over a list can be computed over its prefixes.
proof fn lemma_fold_damage_ok_prefix(list: Seq<StatusInstance>, incoming: bool, acc: int, i: int)
    requires
        fold_damage_ok(list, incoming, acc),
        0 <= i <= list.len(),
    ensures
        fold_damage_ok(list.take(i), incoming, acc),
    decreases list.len(),
{
    if i == list.len() {
        assert(list.take(i) =~= list);
    } else {
        assert(list.drop_last().take(i) =~= list.take(i));
        lemma_fold_damage_ok_prefix(list.drop_last(), incoming, acc, i);
    }
}

/// A fold that can be computed over a list can be computed over its prefixes.
proof fn lemma_fold_haste_ok_prefix(list: Seq<StatusInstance>, acc: int, i: int)
    requires
        fold_haste_ok(list, acc),
        0 <= i <= list.len(),
    ensures
        fold_haste_ok(list.take(i), acc),
    decreases list.len(),
{
    if i == list.len() {
        assert(list.take(i) =~= list);
    } else {
        assert(list.drop_last().take(i) =~= list.take(i));
        lemma_fold_haste_ok_prefix(list.drop_last(), acc, i);
    }
}

/// The chances of a prefix add up to no more than those of the whole list.
proof fn lemma_sum_chance_prefix(list: Seq<StatusInstance>, dhit: bool, incoming: bool, i: int)
    requires
        0 <= i <= list.len(),
    ensures
        0 <= sum_chance(list.take(i), dhit, incoming) <= sum_chance(list, dhit, incoming),
    decreases list.len(),
{
    if i == list.len() {
        assert(list.take(i) =~= list);
        lemma_sum_chance_nonneg(list, dhit, incoming);
    } else {
        assert(list.drop_last().take(i) =~= list.take(i));
        lemma_sum_chance_prefix(list.drop_last(), dhit, incoming, i);
    }
}

/// The chances of a list add up to a nonnegative amount.
proof fn lemma_sum_chance_nonneg(list: Seq<StatusInstance>, dhit: bool, incoming: bool)
    ensures
        sum_chance(list, dhit, incoming) >= 0,
    decreases list.len(),
{
    if list.len() > 0 {
        lemma_sum_chance_nonneg(list.drop_last(), dhit, incoming);
    }
}

/// Applies the damage modifiers of one side of `list` to `start`.
fn apply_damage_mods(list: &[StatusInstance], incoming: bool, start: u64) -> (r: u64)
    requires
        fold_damage_ok(list@, incoming, start as int),
    ensures
        r == fold_damage(list@, incoming, start as int),
{
    let mut acc = start;
    let mut i: usize = 0;
    proof {
        assert(list@.take(0) =~= Seq::<StatusInstance>::empty());
    }
    while i < list.len()
        invariant
            i <= list@.len(),
            fold_damage_ok(list@, incoming, start as int),
            acc == fold_damage(list@.take(i as int), incoming, start as int),
        decreases list@.len() - i,
    {
        proof {
            lemma_take_next(list@, i as int);
            lemma_fold_damage_ok_prefix(list@, incoming, start as int, i as int + 1);
        }
        let s = list[i];
        let m = if incoming {
            s.effect.vtable.damage.incoming
        } else {
            s.effect.vtable.damage.outgoing
        };
        if let Some(m) = m {
            let k = m.base + m.per_stack * (s.stack as u64);
            let prod = acc * k;
            proof {
                assert(prod / m.div <= prod) by (nonlinear_arith)
                    requires
                        m.div > 0,
                ;
            }
            acc = prod / m.div;
        }
        i = i + 1;
    }
    proof {
        assert(list@.take(i as int) =~= list@);
    }
    acc
}

/// Adds the chances of one side of `list` to `start`.
fn add_chances(list: &[StatusInstance], dhit: bool, incoming: bool, start: u64) -> (r: u64)
    requires
        start + sum_chance(list@, dhit, incoming) <= u64::MAX,
    ensures
        r == start + sum_chance(list@, dhit, incoming),
{
    let mut acc = start;
    let mut i: usize = 0;
    proof {
        assert(list@.take(0) =~= Seq::<StatusInstance>::empty());
    }
    while i < list.len()
        invariant
            i <= list@.len(),
            start + sum_chance(list@, dhit, incoming) <= u64::MAX,
            acc == start + sum_chance(list@.take(i as int), dhit, incoming),
        decreases list@.len() - i,
    {
        proof {
            lemma_take_next(list@, i as int);
            lemma_sum_chance_prefix(list@, dhit, incoming, i as int + 1);
        }
        let s = list[i];
        let m = if dhit {
            s.effect.vtable.dhit
        } else {
            s.effect.vtable.crit
        };
        let side = if incoming {
            m.incoming
        } else {
            m.outgoing
        };
        if let Some(v) = side {
            acc = acc + v;
        }
        i = i + 1;
    }
    proof {
        assert(list@.take(i as int) =~= list@);
    }
    acc
}

/// Applies the haste multipliers of `list` to `start`.
fn apply_haste_mods(list: &[StatusInstance], start: u64) -> (r: u64)
    requires
        fold_haste_ok(list@, start as int),
    ensures
        r == fold_haste(list@, start as int),
{
    let mut acc = start;
    let mut i: usize = 0;
    proof {
        assert(list@.take(0) =~= Seq::<StatusInstance>::empty());
    }
    while i < list.len()
        invariant
            i <= list@.len(),
            fold_haste_ok(list@, start as int),
            acc == fold_haste(list@.take(i as int), start as int),
        decreases list@.len() - i,
    {
        proof {
            lemma_take_next(list@, i as int);
            lemma_fold_haste_ok_prefix(list@, start as int, i as int + 1);
        }
        let s = list[i];
        if let Some(h) = s.effect.vtable.haste {
            let v = h.value(s.stack);
            let prod = acc * v;
            proof {
                assert(prod / 100 <= prod) by (nonlinear_arith);
            }
            acc = prod / 100;
        }
        i = i + 1;
    }
    proof {
        assert(list@.take(i as int) =~= list@);
    }
    acc
}

/// `a + b`, saturating at the largest `u16`.
fn add_stat_exec(a: u16, b: u16) -> (r: u16)
    ensures
        r == add_stat(a, b),
{
    if a > u16::MAX - b {
        u16::MAX
    } else {
        a + b
    }
}

/// Applies the stat modifiers of `list` to `start`.
fn apply_stat_mods(list: &[StatusInstance], start: PlayerStats) -> (r: PlayerStats)
    ensures
        r == fold_stats(list@, start),
{
    let mut acc = start;
    let mut i: usize = 0;
    proof {
        assert(list@.take(0) =~= Seq::<StatusInstance>::empty());
    }
    while i < list.len()
        invariant
            i <= list@.len(),
            acc == fold_stats(list@.take(i as int), start),
        decreases list@.len() - i,
    {
        proof {
            lemma_take_next(list@, i as int);
        }
        let s = list[i];
        if let Some(p) = s.effect.vtable.stats {
            acc = PlayerStats {
                str: add_stat_exec(acc.str, p.str),
                vit: add_stat_exec(acc.vit, p.vit),
                dex: add_stat_exec(acc.dex, p.dex),
                intel: add_stat_exec(acc.intel, p.intel),
                mnd: add_stat_exec(acc.mnd, p.mnd),
                det: add_stat_exec(acc.det, p.det),
                crt: add_stat_exec(acc.crt, p.crt),
                dh: add_stat_exec(acc.dh, p.dh),
                sks: add_stat_exec(acc.sks, p.sks),
                sps: add_stat_exec(acc.sps, p.sps),
                ten: add_stat_exec(acc.ten, p.ten),
                pie: add_stat_exec(acc.pie, p.pie),
            };
        }
        i = i + 1;
    }
    proof {
        assert(list@.take(i as int) =~= list@);
    }
    acc
}

/// A snapshot of the statuses for some event.
pub struct StatusSnapshot<'a, J> {
    /// The status effects present on the source of the event.
    pub source: &'a [StatusInstance],
    /// The status effects present on the target of the event.
    ///
    /// This may be empty if no meaningful target exists.
    pub target: &'a [StatusInstance],
    /// The job effects present on the source of the event.
    ///
    /// This is `None` if the source has no job effects, or if the source is
    /// not a player.
    pub job: Option<&'a J>,
}

impl<'a, J> StatusSnapshot<'a, J> {
    /// Creates an empty status snapshot: no statuses on either side and no job effect.
    pub fn empty() -> (r: Self)
        ensures
            r.source@ == Seq::<StatusInstance>::empty(),
            r.target@ == Seq::<StatusInstance>::empty(),
            r.job is None,
    {
        let v: &[StatusInstance] = &[];
        StatusSnapshot { source: v, target: v, job: None }
    }
}

impl<'a, J: JobEffect> StatusSnapshot<'a, J> {
    /// `true` when the job effect, if there is one, can be read.
    pub open spec fn job_valid(&self) -> bool {
        match self.job {
            Some(j) => j.spec_valid(),
            None => true,
        }
    }

    /// The damage after the job effect, before any status.
    pub open spec fn job_damage(&self, base: u64, dmg_ty: DamageType, dmg_el: DamageElement) -> int {
        match self.job {
            Some(j) => j.spec_damage(base, dmg_ty, dmg_el) as int,
            None => base as int,
        }
    }

    /// The damage after the job effect and the incoming modifiers of the target.
    pub open spec fn target_damage(&self, base: u64, dmg_ty: DamageType, dmg_el: DamageElement) -> int {
        fold_damage(self.target@, true, self.job_damage(base, dmg_ty, dmg_el))
    }

    /// The chance the job effect adds.
    pub open spec fn job_chance(&self, dhit: bool) -> int {
        match self.job {
            Some(j) => if dhit {
                j.spec_dhit() as int
            } else {
                j.spec_crit() as int
            },
            None => 0,
        }
    }

    /// The chance before the cap: `base` and the chances of the job effect,
    /// the target's incoming and the source's outgoing modifiers.
    pub open spec fn total_chance(&self, base: u64, dhit: bool) -> int {
        base + self.job_chance(dhit) + sum_chance(self.target@, dhit, true) + sum_chance(
            self.source@,
            dhit,
            false,
        )
    }

    /// The haste multiplier of the job effect, `100` without one.
    pub open spec fn job_haste(&self) -> int {
        match self.job {
            Some(j) => 100 * j.spec_haste() / 100,
            None => 100,
        }
    }
}

impl<'a, J: JobEffect> StatusSnapshot<'a, J> {
    /// Adds the chance of the job effect to `acc`.
    fn job_chance_exec(&self, dhit: bool, acc: u64) -> (r: u64)
        requires
            self.job_valid(),
            acc + self.job_chance(dhit) <= u64::MAX,
        ensures
            r == acc + self.job_chance(dhit),
    {
        match self.job {
            Some(j) => if dhit {
                acc + j.dhit()
            } else {
                acc + j.crit()
            },
            None => acc,
        }
    }

    /// The chance of one hit type, capped at `1000`.
    fn chance(&self, base: u64, dhit: bool) -> (r: u64)
        requires
            self.job_valid(),
            self.total_chance(base, dhit) <= u64::MAX,
        ensures
            r == (if self.total_chance(base, dhit) < 1000 {
                self.total_chance(base, dhit)
            } else {
                1000
            }),
    {
        proof {
            lemma_sum_chance_nonneg(self.target@, dhit, true);
            lemma_sum_chance_nonneg(self.source@, dhit, false);
        }
        let acc = self.job_chance_exec(dhit, base);
        let acc = add_chances(self.target, dhit, true, acc);
        let acc = add_chances(self.source, dhit, false, acc);
        if acc < 1000 {
            acc
        } else {
            1000
        }
    }
}

impl<'a, J: JobEffect> Buffs for StatusSnapshot<'a, J> {
    open spec fn spec_damage(&self, base: u64, dmg_ty: DamageType, dmg_el: DamageElement) -> u64 {
        fold_damage(self.source@, false, self.target_damage(base, dmg_ty, dmg_el)) as u64
    }

    open spec fn damage_defined(&self, base: u64, dmg_ty: DamageType, dmg_el: DamageElement) -> bool {
        &&& self.job_valid()
        &&& fold_damage_ok(self.target@, true, self.job_damage(base, dmg_ty, dmg_el))
        &&& fold_damage_ok(self.source@, false, self.target_damage(base, dmg_ty, dmg_el))
    }

    open spec fn spec_crit_chance(&self, base: u64) -> u64 {
        if self.total_chance(base, false) < 1000 {
            self.total_chance(base, false) as u64
        } else {
            1000
        }
    }

    open spec fn crit_defined(&self, base: u64) -> bool {
        &&& self.job_valid()
        &&& self.total_chance(base, false) <= u64::MAX
    }

    open spec fn spec_dhit_chance(&self, base: u64) -> u64 {
        if self.total_chance(base, true) < 1000 {
            self.total_chance(base, true) as u64
        } else {
            1000
        }
    }

    open spec fn dhit_defined(&self, base: u64) -> bool {
        &&& self.job_valid()
        &&& self.total_chance(base, true) <= u64::MAX
    }

    open spec fn spec_stats(&self, base: PlayerStats) -> PlayerStats {
        fold_stats(self.source@, base)
    }

    open spec fn spec_haste(&self, base: u64) -> u64 {
        (base * fold_haste(self.source@, self.job_haste()) / 100) as u64
    }

    open spec fn haste_defined(&self, base: u64) -> bool {
        &&& self.job_valid()
        &&& (match self.job {
            Some(j) => 100 * j.spec_haste() <= u64::MAX,
            None => true,
        })
        &&& fold_haste_ok(self.source@, self.job_haste())
        &&& base * fold_haste(self.source@, self.job_haste()) <= u64::MAX
    }

    fn damage(&self, base: u64, dmg_ty: DamageType, dmg_el: DamageElement) -> (r: u64) {
        let mut acc = base;
        if let Some(x) = self.job {
            acc = x.damage(base, dmg_ty, dmg_el);
        }
        acc = apply_damage_mods(self.target, true, acc);
        apply_damage_mods(self.source, false, acc)
    }

    fn crit_chance(&self, base: u64) -> (r: u64) {
        self.chance(base, false)
    }

    fn dhit_chance(&self, base: u64) -> (r: u64) {
        self.chance(base, true)
    }

    fn stats(&self, base: PlayerStats) -> (r: PlayerStats) {
        apply_stat_mods(self.source, base)
    }

    fn haste(&self, base: u64) -> (r: u64) {
        let mut acc: u64 = 100;
        if let Some(x) = self.job {
            acc = acc * x.haste();
            acc = acc / 100;
        }
        acc = apply_haste_mods(self.source, acc);
        let prod = base * acc;
        prod / 100
    }
}


/// A snapshot with no statuses and no job effect changes nothing: damage, stats
/// and haste come out as they went in, and a chance only meets the cap.
pub proof fn lemma_empty_snapshot_neutral<J: JobEffect>(
    snap: StatusSnapshot<J>,
    base: u64,
    dmg_ty: DamageType,
    dmg_el: DamageElement,
    stats: PlayerStats,
)
    requires
        snap.source@.len() == 0,
        snap.target@.len() == 0,
        snap.job is None,
    ensures
        snap.damage_defined(base, dmg_ty, dmg_el),
        snap.spec_damage(base, dmg_ty, dmg_el) == base,
        snap.crit_defined(base),
        snap.spec_crit_chance(base) == (if base < 1000 {
            base
        } else {
            1000
        }),
        snap.spec_dhit_chance(base) == (if base < 1000 {
            base
        } else {
            1000
        }),
        snap.spec_stats(stats) == stats,
        snap.haste_defined(base) <==> base * 100 <= u64::MAX,
        snap.spec_haste(base) == base,
{
    assert(base * 100 / 100 == base) by (nonlinear_arith);
}

/// A helper trait for easily submitting status events on to the operations an
/// event sink is asked for.
///
/// A list of operations does not know the actor it belongs to: each method takes
/// the `source` of the event.
pub trait StatusEventExt: View<V = Seq<SinkOp>> {
    /// Applies a status effect with a certain number of stacks on to a target actor.
    fn apply_status(&mut self, source: ActorId, status: StatusEffect, stacks: u8, target: ActorId, delay: u32)
        ensures
            final(self)@ == old(self)@.push(status_op(StatusEvent::spec_apply(status, stacks, source, target), delay)),
    ;

    /// Applies a status effect with a certain number of stacks on to a target
    /// actor, lengthened by the `cascade` of an area of effect.
    fn apply_status_cascade_remove(
        &mut self,
        source: ActorId,
        status: StatusEffect,
        stacks: u8,
        target: ActorId,
        delay: u32,
        cascade: u32,
    )
        requires
            status.vtable.duration + cascade <= u32::MAX,
        ensures
            final(self)@ == old(self)@.push(
                status_op(
                    StatusEvent {
                        source,
                        target,
                        status,
                        kind: StatusEventKind::Apply { duration: (status.vtable.duration + cascade) as u32, stacks },
                    },
                    delay,
                ),
            ),
    ;

    /// Applies a DoT status effect with a certain number of stacks on to a target
    /// actor; the sink snapshots `damage` with the speed `stat`.
    fn apply_dot(
        &mut self,
        status: StatusEffect,
        damage: DamageInstance,
        stat: SpeedStat,
        stacks: u8,
        target: ActorId,
        delay: u32,
    )
        ensures
            final(self)@ == old(self)@.push(SinkOp::Dot { status, damage, stat, stacks, target, delay }),
    ;

    /// Removes a status effect from a target actor.
    fn remove_status(&mut self, source: ActorId, status: StatusEffect, target: ActorId, delay: u32)
        ensures
            final(self)@ == old(self)@.push(status_op(StatusEvent::spec_remove(status, source, target), delay)),
    ;

    /// Removes a certain number of stacks from a status effect on a target actor.
    fn remove_stacks(&mut self, source: ActorId, status: StatusEffect, stacks: u8, target: ActorId, delay: u32)
        ensures
            final(self)@ == old(self)@.push(
                status_op(StatusEvent::spec_remove_stacks(status, stacks, source, target), delay),
            ),
    ;

    /// Adds a certain number of stacks to a status effect on a target actor, up to `max`.
    fn add_stacks(
        &mut self,
        source: ActorId,
        status: StatusEffect,
        stacks: u8,
        max: u8,
        target: ActorId,
        delay: u32,
    )
        ensures
            final(self)@ == old(self)@.push(
                status_op(StatusEvent::spec_add_stacks(status, stacks, max, source, target), delay),
            ),
    ;

    /// Applies a status effect or extends the duration if it already exists on a
    /// target actor, up to `multiple` times its duration.
    ///
    /// The number of `stacks` will be overwritten. To add stacks, use
    /// [`apply_or_add_stacks`](StatusEventExt::apply_or_add_stacks).
    fn apply_or_extend_status(
        &mut self,
        source: ActorId,
        status: StatusEffect,
        stacks: u8,
        multiple: u32,
        target: ActorId,
        delay: u32,
    )
        requires
            status.vtable.duration * multiple <= u32::MAX,
        ensures
            final(self)@ == old(self)@.push(
                status_op(StatusEvent::spec_apply_or_extend(status, stacks, multiple, source, target), delay),
            ),
    ;

    /// Applies a status effect or adds to the number of stacks if it already
    /// exists on a target actor; the duration is then unchanged. To refresh the
    /// duration, use [`apply_or_extend_status`](StatusEventExt::apply_or_extend_status).
    fn apply_or_add_stacks(
        &mut self,
        source: ActorId,
        status: StatusEffect,
        stacks: u8,
        max: u8,
        target: ActorId,
        delay: u32,
    )
        ensures
            final(self)@ == old(self)@.push(
                status_op(StatusEvent::spec_apply_or_add_stacks(status, stacks, max, source, target), delay),
            ),
    ;
}

impl StatusEventExt for Vec<SinkOp> {
    fn apply_status(&mut self, source: ActorId, status: StatusEffect, stacks: u8, target: ActorId, delay: u32) {
        let event = StatusEvent::apply(status, stacks, source, target);
        self.push(SinkOp::Event { event: Event::Status(event), delay });
    }

    fn apply_status_cascade_remove(
        &mut self,
        source: ActorId,
        status: StatusEffect,
        stacks: u8,
        target: ActorId,
        delay: u32,
        cascade: u32,
    ) {
        let event = StatusEvent {
            source,
            target,
            status,
            kind: StatusEventKind::Apply { duration: status.vtable.duration + cascade, stacks },
        };
        self.push(SinkOp::Event { event: Event::Status(event), delay });
    }

    fn apply_dot(
        &mut self,
        status: StatusEffect,
        damage: DamageInstance,
        stat: SpeedStat,
        stacks: u8,
        target: ActorId,
        delay: u32,
    ) {
        self.push(SinkOp::Dot { status, damage, stat, stacks, target, delay });
    }

    fn remove_status(&mut self, source: ActorId, status: StatusEffect, target: ActorId, delay: u32) {
        let event = StatusEvent::remove(status, source, target);
        self.push(SinkOp::Event { event: Event::Status(event), delay });
    }

    fn remove_stacks(&mut self, source: ActorId, status: StatusEffect, stacks: u8, target: ActorId, delay: u32) {
        let event = StatusEvent::remove_stacks(status, stacks, source, target);
        self.push(SinkOp::Event { event: Event::Status(event), delay });
    }

    fn add_stacks(
        &mut self,
        source: ActorId,
        status: StatusEffect,
        stacks: u8,
        max: u8,
        target: ActorId,
        delay: u32,
    ) {
        let event = StatusEvent::add_stacks(status, stacks, max, source, target);
        self.push(SinkOp::Event { event: Event::Status(event), delay });
    }

    fn apply_or_extend_status(
        &mut self,
        source: ActorId,
        status: StatusEffect,
        stacks: u8,
        multiple: u32,
        target: ActorId,
        delay: u32,
    ) {
        let event = StatusEvent::apply_or_extend(status, stacks, multiple, source, target);
        self.push(SinkOp::Event { event: Event::Status(event), delay });
    }

    fn apply_or_add_stacks(
        &mut self,
        source: ActorId,
        status: StatusEffect,
        stacks: u8,
        max: u8,
        target: ActorId,
        delay: u32,
    ) {
        let event = StatusEvent::apply_or_add_stacks(status, stacks, max, source, target);
        self.push(SinkOp::Event { event: Event::Status(event), delay });
    }
}

} // verus!
