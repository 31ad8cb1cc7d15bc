//! The effects on the two sides of a hit, read as the buffs of the game's math.
use vstd::prelude::*;

use crate::enums::{DamageElement, DamageType};
use crate::math::{Buffs, PlayerStats};

use super::{DamageScale, EffectInstance};

verus! {

/// The damage multiplier of an effect on one side, if it has one.
pub open spec fn scale_of(e: EffectInstance, incoming: bool) -> Option<DamageScale> {
    if incoming {
        e.effect.vtable.damage.incoming
    } else {
        e.effect.vtable.damage.outgoing
    }
}

/// The damage after the multipliers of every effect of `list` on one side, in order.
pub open spec fn fold_scale(list: Seq<EffectInstance>, incoming: bool, acc: int) -> int
    decreases list.len(),
{
    if list.len() == 0 {
        acc
    } else {
        let prev = fold_scale(list.drop_last(), incoming, acc);
        match scale_of(list.last(), incoming) {
            Some(m) => prev * m.mul / m.div as int,
            None => prev,
        }
    }
}

/// `true` when every step of [`fold_scale`] can be computed in `u64` arithmetic.
pub open spec fn fold_scale_ok(list: Seq<EffectInstance>, incoming: bool, acc: int) -> bool
    decreases list.len(),
{
    if list.len() == 0 {
        true
    } else {
        &&& fold_scale_ok(list.drop_last(), incoming, acc)
        &&& match scale_of(list.last(), incoming) {
            Some(m) => m.div > 0 && fold_scale(list.drop_last(), incoming, acc) * m.mul <= u64::MAX,
            None => true,
        }
    }
}

/// The chance an effect adds on one side, `0` if it adds none.
pub open spec fn effect_chance(e: EffectInstance, dhit: bool, incoming: bool) -> u64 {
    let m = if dhit {
        e.effect.vtable.dhit
    } else {
        e.effect.vtable.crit
    };
    match (if incoming {
        m.incoming
    } else {
        m.outgoing
    }) {
        Some(v) => v,
        None => 0,
    }
}

/// The sum of the chances the effects of `list` add on one side.
pub open spec fn sum_effect_chance(list: Seq<EffectInstance>, dhit: bool, incoming: bool) -> int
    decreases list.len(),
{
    if list.len() == 0 {
        0
    } else {
        sum_effect_chance(list.drop_last(), dhit, incoming) + effect_chance(list.last(), dhit, incoming)
    }
}

/// `a + b`, saturating at the largest `u16`.
pub open spec fn add_stat(a: u16, b: u16) -> u16 {
    if a + b > u16::MAX {
        u16::MAX
    } else {
        (a + b) as u16
    }
}

/// The stats after the stat bonuses of every effect of `list`, in order.
pub open spec fn fold_effect_stats(list: Seq<EffectInstance>, acc: PlayerStats) -> PlayerStats
    decreases list.len(),
{
    if list.len() == 0 {
        acc
    } else {
        let p = fold_effect_stats(list.drop_last(), acc);
        match list.last().effect.vtable.stats {
            Some(b) => PlayerStats {
                str: add_stat(p.str, b.str),
                vit: add_stat(p.vit, b.vit),
                dex: add_stat(p.dex, b.dex),
                intel: add_stat(p.intel, b.intel),
                mnd: add_stat(p.mnd, b.mnd),
                det: add_stat(p.det, b.det),
                crt: add_stat(p.crt, b.crt),
                dh: add_stat(p.dh, b.dh),
                sks: add_stat(p.sks, b.sks),
                sps: add_stat(p.sps, b.sps),
                ten: add_stat(p.ten, b.ten),
                pie: add_stat(p.pie, b.pie),
            },
            None => p,
        }
    }
}

/// A prefix of a list is the list one element shorter, plus that element.
proof fn lemma_take_next(list: Seq<EffectInstance>, i: int)
    requires
        0 <= i < list.len(),
    ensures
        list.take(i + 1).drop_last() == list.take(i),
        list.take(i + 1).last() == list[i],
        list.take(i + 1).len() == i + 1,
{
    assert(list.take(i + 1).drop_last() =~= list.take(i));
}

/// A fold that can be computed over a list can be computed over its prefixes.
proof fn lemma_fold_scale_ok_prefix(list: Seq<EffectInstance>, incoming: bool, acc: int, i: int)
    requires
        fold_scale_ok(list, incoming, acc),
        0 <= i <= list.len(),
    ensures
        fold_scale_ok(list.take(i), incoming, acc),
    decreases list.len(),
{
    if i == list.len() {
        assert(list.take(i) =~= list);
    } else {
        assert(list.drop_last().take(i) =~= list.take(i));
        lemma_fold_scale_ok_prefix(list.drop_last(), incoming, acc, i);
    }
}

/// The chances of a prefix add up to no more than those of the whole list.
proof fn lemma_sum_prefix(list: Seq<EffectInstance>, dhit: bool, incoming: bool, i: int)
    requires
        0 <= i <= list.len(),
    ensures
        0 <= sum_effect_chance(list.take(i), dhit, incoming) <= sum_effect_chance(list, dhit, incoming),
    decreases list.len(),
{
    if i == list.len() {
        assert(list.take(i) =~= list);
        lemma_sum_nonneg(list, dhit, incoming);
    } else {
        assert(list.drop_last().take(i) =~= list.take(i));
        lemma_sum_prefix(list.drop_last(), dhit, incoming, i);
    }
}

/// The chances of a list add up to a nonnegative amount.
proof fn lemma_sum_nonneg(list: Seq<EffectInstance>, dhit: bool, incoming: bool)
    ensures
        sum_effect_chance(list, dhit, incoming) >= 0,
    decreases list.len(),
{
    if list.len() > 0 {
        lemma_sum_nonneg(list.drop_last(), dhit, incoming);
    }
}

/// The effects of `list` with a damage multiplier on one side, in order.
pub open spec fn damage_effects_of(list: Seq<EffectInstance>, incoming: bool) -> Seq<EffectInstance>
    decreases list.len(),
{
    if list.len() == 0 {
        Seq::empty()
    } else {
        let rest = damage_effects_of(list.drop_last(), incoming);
        if scale_of(list.last(), incoming) is Some {
            rest.push(list.last())
        } else {
            rest
        }
    }
}

/// Returns the effects of `list` with a damage multiplier on one side, in order:
/// the outgoing buffs of a source, or the incoming debuffs of a target, that a
/// damage over time effect keeps from when it was applied.
pub fn damage_effects(list: &[EffectInstance], incoming: bool) -> (r: Vec<EffectInstance>)
    ensures
        r@ == damage_effects_of(list@, incoming),
{
    let mut r: Vec<EffectInstance> = Vec::new();
    let mut i: usize = 0;
    proof {
        assert(list@.take(0) =~= Seq::<EffectInstance>::empty());
    }
    while i < list.len()
        invariant
            i <= list@.len(),
            r@ == damage_effects_of(list@.take(i as int), incoming),
        decreases list@.len() - i,
    {
        proof {
            lemma_take_next(list@, i as int);
        }
        let e = list[i];
        let m = if incoming {
            e.effect.vtable.damage.incoming
        } else {
            e.effect.vtable.damage.outgoing
        };
        if m.is_some() {
            r.push(e);
        }
        i = i + 1;
    }
    proof {
        assert(list@.take(i as int) =~= list@);
    }
    r
}

/// Applies the damage multipliers of one side of `list` to `start`.
fn apply_scales(list: &[EffectInstance], incoming: bool, start: u64) -> (r: u64)
    requires
        fold_scale_ok(list@, incoming, start as int),
    ensures
        r == fold_scale(list@, incoming, start as int),
{
    let mut acc = start;
    let mut i: usize = 0;
    proof {
        assert(list@.take(0) =~= Seq::<EffectInstance>::empty());
    }
    while i < list.len()
        invariant
            i <= list@.len(),
            fold_scale_ok(list@, incoming, start as int),
            acc == fold_scale(list@.take(i as int), incoming, start as int),
        decreases list@.len() - i,
    {
        proof {
            lemma_take_next(list@, i as int);
            lemma_fold_scale_ok_prefix(list@, incoming, start as int, i as int + 1);
        }
        let e = list[i];
        let m = if incoming {
            e.effect.vtable.damage.incoming
        } else {
            e.effect.vtable.damage.outgoing
        };
        if let Some(m) = m {
            let prod = acc * m.mul;
            proof {
                assert(prod / m.div <= prod) by (nonlinear_arith)
                    requires
                        m.div > 0,
                ;
            }
            acc = prod / m.div;
        }
        i = i + 1;
    }
    proof {
        assert(list@.take(i as int) =~= list@);
    }
    acc
}

/// Adds the chances of one side of `list` to `start`.
fn add_effect_chances(list: &[EffectInstance], dhit: bool, incoming: bool, start: u64) -> (r: u64)
    requires
        start + sum_effect_chance(list@, dhit, incoming) <= u64::MAX,
    ensures
        r == start + sum_effect_chance(list@, dhit, incoming),
{
    let mut acc = start;
    let mut i: usize = 0;
    proof {
        assert(list@.take(0) =~= Seq::<EffectInstance>::empty());
    }
    while i < list.len()
        invariant
            i <= list@.len(),
            start + sum_effect_chance(list@, dhit, incoming) <= u64::MAX,
            acc == start + sum_effect_chance(list@.take(i as int), dhit, incoming),
        decreases list@.len() - i,
    {
        proof {
            lemma_take_next(list@, i as int);
            lemma_sum_prefix(list@, dhit, incoming, i as int + 1);
        }
        let e = list[i];
        let m = if dhit {
            e.effect.vtable.dhit
        } else {
            e.effect.vtable.crit
        };
        let side = if incoming {
            m.incoming
        } else {
            m.outgoing
        };
        if let Some(v) = side {
            acc = acc + v;
        }
        i = i + 1;
    }
    proof {
        assert(list@.take(i as int) =~= list@);
    }
    acc
}

/// `a + b`, saturating at the largest `u16`.
fn add_stat_exec(a: u16, b: u16) -> (r: u16)
    ensures
        r == add_stat(a, b),
{
    if a > u16::MAX - b {
        u16::MAX
    } else {
        a + b
    }
}

/// Applies the stat bonuses of `list` to `start`.
fn apply_effect_stats(list: &[EffectInstance], start: PlayerStats) -> (r: PlayerStats)
    ensures
        r == fold_effect_stats(list@, start),
{
    let mut acc = start;
    let mut i: usize = 0;
    proof {
        assert(list@.take(0) =~= Seq::<EffectInstance>::empty());
    }
    while i < list.len()
        invariant
            i <= list@.len(),
            acc == fold_effect_stats(list@.take(i as int), start),
        decreases list@.len() - i,
    {
        proof {
            lemma_take_next(list@, i as int);
        }
        let e = list[i];
        if let Some(b) = e.effect.vtable.stats {
            acc = PlayerStats {
                str: add_stat_exec(acc.str, b.str),
                vit: add_stat_exec(acc.vit, b.vit),
                dex: add_stat_exec(acc.dex, b.dex),
                intel: add_stat_exec(acc.intel, b.intel),
                mnd: add_stat_exec(acc.mnd, b.mnd),
                det: add_stat_exec(acc.det, b.det),
                crt: add_stat_exec(acc.crt, b.crt),
                dh: add_stat_exec(acc.dh, b.dh),
                sks: add_stat_exec(acc.sks, b.sks),
                sps: add_stat_exec(acc.sps, b.sps),
                ten: add_stat_exec(acc.ten, b.ten),
                pie: add_stat_exec(acc.pie, b.pie),
            };
        }
        i = i + 1;
    }
    proof {
        assert(list@.take(i as int) =~= list@);
    }
    acc
}

/// The effects on the source and the target of a hit.
///
/// Read as buffs, the stat bonuses of both sides add to the source's stats; the
/// source's outgoing and the target's incoming Critical Hit chances add up; the
/// Direct Hit chance adds the outgoing chances of both sides; and the damage
/// goes through the source's outgoing multipliers, then the target's incoming
/// ones.
pub struct EffectSnapshot<'a> {
    /// The effects on the source.
    pub source: &'a [EffectInstance],
    /// The effects on the target.
    pub target: &'a [EffectInstance],
}

impl<'a> EffectSnapshot<'a> {
    /// The damage after the source's outgoing multipliers.
    pub open spec fn source_damage(&self, base: u64) -> int {
        fold_scale(self.source@, false, base as int)
    }

    /// The Critical Hit chance before it is cast to `u64`.
    pub open spec fn total_crit(&self, base: u64) -> int {
        base + sum_effect_chance(self.source@, false, false) + sum_effect_chance(self.target@, false, true)
    }

    /// The Direct Hit chance before it is cast to `u64`.
    pub open spec fn total_dhit(&self, base: u64) -> int {
        base + sum_effect_chance(self.source@, true, false) + sum_effect_chance(self.target@, true, false)
    }
}

impl<'a> Buffs for EffectSnapshot<'a> {
    open spec fn spec_damage(&self, base: u64, dmg_ty: DamageType, dmg_el: DamageElement) -> u64 {
        fold_scale(self.target@, true, self.source_damage(base)) as u64
    }

    open spec fn damage_defined(&self, base: u64, dmg_ty: DamageType, dmg_el: DamageElement) -> bool {
        &&& fold_scale_ok(self.source@, false, base as int)
        &&& fold_scale_ok(self.target@, true, self.source_damage(base))
    }

    open spec fn spec_crit_chance(&self, base: u64) -> u64 {
        self.total_crit(base) as u64
    }

    open spec fn crit_defined(&self, base: u64) -> bool {
        self.total_crit(base) <= u64::MAX
    }

    open spec fn spec_dhit_chance(&self, base: u64) -> u64 {
        self.total_dhit(base) as u64
    }

    open spec fn dhit_defined(&self, base: u64) -> bool {
        self.total_dhit(base) <= u64::MAX
    }

    open spec fn spec_stats(&self, base: PlayerStats) -> PlayerStats {
        fold_effect_stats(self.target@, fold_effect_stats(self.source@, base))
    }

    open spec fn spec_haste(&self, base: u64) -> u64 {
        base
    }

    open spec fn haste_defined(&self, base: u64) -> bool {
        true
    }

    fn damage(&self, base: u64, dmg_ty: DamageType, dmg_el: DamageElement) -> (r: u64) {
        let d = apply_scales(self.source, false, base);
        apply_scales(self.target, true, d)
    }

    fn crit_chance(&self, base: u64) -> (r: u64) {
        proof {
            lemma_sum_nonneg(self.source@, false, false);
            lemma_sum_nonneg(self.target@, false, true);
        }
        let c = add_effect_chances(self.source, false, false, base);
        add_effect_chances(self.target, false, true, c)
    }

    fn dhit_chance(&self, base: u64) -> (r: u64) {
        proof {
            lemma_sum_nonneg(self.source@, true, false);
            lemma_sum_nonneg(self.target@, true, false);
        }
        let c = add_effect_chances(self.source, true, false, base);
        add_effect_chances(self.target, true, false, c)
    }

    fn stats(&self, base: PlayerStats) -> (r: PlayerStats) {
        let s = apply_effect_stats(self.source, base);
        apply_effect_stats(self.target, s)
    }

    fn haste(&self, base: u64) -> (r: u64) {
        base
    }
}

} // verus!
