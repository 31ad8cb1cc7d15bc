//! Timing utilities.
//!
//! This module contains various utilities for working
//! with durations and cooldowns.
use vstd::prelude::*;

use crate::math::SpeedStat;

verus! {

/// The lock and snapshot time of a cast, given its scaled cast time, the animation
/// lock of an instant cast and the extra animation lock of the caster.
pub open spec fn spec_cast_times(cast: u16, lock: u16, extra: u16) -> (u16, u16) {
    if cast == 0 {
        ((lock + extra) as u16, 0)
    } else {
        ((cast + 10) as u16, if cast >= 50 {
            (cast - 50) as u16
        } else {
            0
        })
    }
}

/// A source of the scaled durations of an actor: its stats and the haste effects
/// on it.
///
/// This will usually be provided by an actor of the simulation.
pub trait DurationInfo {
    /// The scaled duration of `duration`.
    spec fn spec_duration(&self, duration: ScaleTime) -> u64;

    /// The extra animation delay of instant cast actions.
    spec fn spec_extra_ani_lock(&self) -> u16;

    /// Returns the cast lock and cast snapshot time for a specific [`ScaleTime`].
    ///
    /// The `lock` parameter is the animation lock if the action is an instant cast.
    /// A cast that is not instant locks for its cast time plus `10`, and snapshots
    /// `50` before it ends; an instant cast locks for `lock` plus the extra
    /// animation lock, and snapshots at once.
    fn get_cast(&self, base: ScaleTime, lock: u16) -> (r: (u16, u16))
        requires
            (self.spec_duration(base) as u16) == 0 ==> lock + self.spec_extra_ani_lock()
                <= u16::MAX,
            (self.spec_duration(base) as u16) != 0 ==> (self.spec_duration(base) as u16) + 10
                <= u16::MAX,
        ensures
            r == spec_cast_times(self.spec_duration(base) as u16, lock, self.spec_extra_ani_lock()),
    {
        let cast = self.get_duration(base) as u16;
        if cast == 0 {
            let extra = self.extra_ani_lock();
            (lock + extra, 0)
        } else {
            (cast + 10, if cast >= 50 {
                cast - 50
            } else {
                0
            })
        }
    }

    /// Returns the extra animation delay for instant cast actions.
    fn extra_ani_lock(&self) -> (r: u16)
        ensures
            r == self.spec_extra_ani_lock(),
    ;

    /// Returns the scaled duration of some [`ScaleTime`].
    fn get_duration(&self, duration: ScaleTime) -> (r: u64)
        ensures
            r == self.spec_duration(duration),
    ;
}

/// A cooldown for a job cooldown group.
///
/// Most of the functions on this struct have a parameter named `charges`.
/// This is **not** the number of charges that are being used up,
/// but the total number of charges the action can hold.
#[derive(Copy, Clone, Debug, Default)]
pub struct ActionCd {
    cd: u32,
}

impl View for ActionCd {
    type V = u32;

    /// The time left on the cooldown, counting every used charge.
    closed spec fn view(&self) -> u32 {
        self.cd
    }
}

/// The time until a cooldown group with `cd` left on it can be used, for an
/// action with the cooldown `cooldown` and `charges` charges.
pub open spec fn spec_cd_until(cd: u32, cooldown: u32, charges: u8) -> u32 {
    if cd >= cooldown * (charges - 1) {
        (cd - cooldown * (charges - 1)) as u32
    } else {
        0
    }
}

impl ActionCd {
    /// Creates a new [`ActionCd`].
    pub fn new() -> (r: Self)
        ensures
            r@ == 0,
    {
        ActionCd { cd: 0 }
    }

    /// Applies a cooldown to the cooldown group.
    ///
    /// The time left grows by `cd`, up to the cooldown of all `charges` charges.
    pub fn apply(&mut self, cd: u32, charges: u8)
        requires
            old(self)@ + cd <= u32::MAX,
            cd * charges <= u32::MAX,
        ensures
            final(self)@ == (if old(self)@ + cd <= cd * charges {
                old(self)@ + cd
            } else {
                cd * charges
            }),
    {
        let full = cd * (charges as u32);
        let next = self.cd + cd;
        self.cd = if next <= full {
            next
        } else {
            full
        };
    }

    /// Returns `true` if an action in the cooldown group can be used.
    pub fn available(&self, cd: u32, charges: u8) -> (r: bool)
        requires
            charges >= 1,
            cd * (charges - 1) <= u32::MAX,
        ensures
            r == (spec_cd_until(self@, cd, charges) == 0),
    {
        self.cd_until(cd, charges) == 0
    }

    /// Advances the cooldown forward by a certain amount of time.
    pub fn advance(&mut self, time: u32)
        ensures
            final(self)@ == (if old(self)@ >= time {
                old(self)@ - time
            } else {
                0
            }),
    {
        self.cd = self.cd.saturating_sub(time);
    }

    /// Returns the time until the cooldown group can be used.
    pub fn cd_until(&self, cd: u32, charges: u8) -> (r: u32)
        requires
            charges >= 1,
            cd * (charges - 1) <= u32::MAX,
        ensures
            r == spec_cd_until(self@, cd, charges),
    {
        let held = cd * ((charges as u32) - 1);
        self.cd.saturating_sub(held)
    }
}

/// Advancing a cooldown by some time shortens the time until it can be used by
/// that time, down to `0`.
pub proof fn lemma_advance_cd_until(cd: u32, time: u32, cooldown: u32, charges: u8)
    requires
        charges >= 1,
        cooldown * (charges - 1) <= u32::MAX,
    ensures
        spec_cd_until(
            (if cd >= time {
                cd - time
            } else {
                0
            }) as u32,
            cooldown,
            charges,
        ) == (if spec_cd_until(cd, cooldown, charges) >= time {
            spec_cd_until(cd, cooldown, charges) - time
        } else {
            0
        }),
{
    assert(cooldown * (charges - 1) >= 0) by (nonlinear_arith)
        requires
            charges >= 1,
    ;
}

/// A utility for effect cascading.
///
/// In FFXIV, most effects "cascade" when they hit multiple targets,
/// each target being hit some multiple of `45ms` after the last. This struct
/// provides a simple interface to start a cascade from a specified delay.
#[derive(Copy, Clone, Debug)]
pub struct EventCascade {
    amount: u32,
    time: u32,
}

impl EventCascade {
    /// The number of milliseconds in a base cascade tick.
    ///
    /// Damage is usually `1` tick, while friendly buff
    /// application is usually `0` or `3` ticks.
    pub const TICK: u32 = 45;

    /// The time the cascade activates at next.
    pub closed spec fn spec_time(&self) -> u32 {
        self.time
    }

    /// The time between two activations of the cascade.
    pub closed spec fn spec_amount(&self) -> u32 {
        self.amount
    }

    /// Creates a new cascade with the specified starting time and
    /// a cascade amount as a multiple of [`EventCascade::TICK`].
    pub fn new(start: u32, ticks: u32) -> (r: Self)
        requires
            45 * ticks <= u32::MAX,
        ensures
            r.spec_time() == start,
            r.spec_amount() == 45 * ticks,
    {
        EventCascade { time: start, amount: Self::TICK * ticks }
    }

    /// Creates a new cascade with the specified starting time and
    /// a custom cascade amount in milliseconds.
    pub fn with_amount(start: u32, amount: u32) -> (r: Self)
        ensures
            r.spec_time() == start,
            r.spec_amount() == amount,
    {
        EventCascade { time: start, amount }
    }

    /// Returns the next time the cascade will activate at.
    pub fn next(&mut self) -> (r: u32)
        requires
            old(self).spec_time() + old(self).spec_amount() <= u32::MAX,
        ensures
            r == old(self).spec_time(),
            final(self).spec_time() == old(self).spec_time() + old(self).spec_amount(),
            final(self).spec_amount() == old(self).spec_amount(),
    {
        let out = self.time;
        self.time = self.time + self.amount;
        out
    }
}

/// `true` when `cs` are the states a cascade goes through over successive calls of
/// [`EventCascade::next`], and `outs` what the calls returned.
pub open spec fn spec_cascade_run(cs: Seq<EventCascade>, outs: Seq<u32>) -> bool {
    &&& cs.len() == outs.len() + 1
    &&& forall|k: int|
        0 <= k < outs.len() ==> {
            &&& #[trigger] outs[k] == cs[k].spec_time()
            &&& cs[k + 1].spec_time() == cs[k].spec_time() + cs[k].spec_amount()
            &&& cs[k + 1].spec_amount() == cs[k].spec_amount()
        }
}

/// The states after the first `j` calls of a cascade run.
proof fn lemma_cascade_prefix(cs: Seq<EventCascade>, outs: Seq<u32>, j: int)
    requires
        spec_cascade_run(cs, outs),
        0 <= j <= outs.len(),
    ensures
        cs[j].spec_amount() == cs[0].spec_amount(),
        cs[j].spec_time() == cs[0].spec_time() + j * cs[0].spec_amount(),
    decreases j,
{
    if j > 0 {
        let k = j - 1;
        lemma_cascade_prefix(cs, outs, k);
        assert(outs[k] == cs[k].spec_time());
        assert(k * cs[0].spec_amount() + cs[0].spec_amount() == j * cs[0].spec_amount()) by (nonlinear_arith)
            requires
                k + 1 == j,
        ;
    }
}

/// A cascade hands out its start, then one amount later each call: the `k`th call
/// returns the start plus `k` amounts.
pub proof fn lemma_cascade_run(cs: Seq<EventCascade>, outs: Seq<u32>)
    requires
        spec_cascade_run(cs, outs),
    ensures
        forall|k: int| 0 <= k < outs.len() ==> #[trigger] outs[k] == cs[0].spec_time() + k * cs[0].spec_amount(),
{
    assert forall|k: int| 0 <= k < outs.len() implies #[trigger] outs[k] == cs[0].spec_time() + k * cs[0].spec_amount() by {
        lemma_cascade_prefix(cs, outs, k);
        assert(outs[k] == cs[k].spec_time());
    }
}

/// A duration that can be scaled by haste buffs and stats.
#[derive(Clone, Copy, Debug, Default, PartialEq, Eq, Structural)]
pub struct ScaleTime {
    duration: u32,
    stat: Option<SpeedStat>,
    haste: bool,
}

impl ScaleTime {
    /// The scale time with the given base duration, stat and haste scaling.
    pub closed spec fn spec_of(duration: u32, stat: Option<SpeedStat>, haste: bool) -> ScaleTime {
        ScaleTime { duration, stat, haste }
    }

    /// The parts of a scale time are those it was made of.
    pub proof fn lemma_spec_of(duration: u32, stat: Option<SpeedStat>, haste: bool)
        ensures
            Self::spec_of(duration, stat, haste).spec_duration() == duration,
            Self::spec_of(duration, stat, haste).spec_stat() == stat,
            Self::spec_of(duration, stat, haste).spec_haste() == haste,
    {
    }

    /// The base duration.
    pub closed spec fn spec_duration(&self) -> u32 {
        self.duration
    }

    /// The stat the duration scales off of.
    pub closed spec fn spec_stat(&self) -> Option<SpeedStat> {
        self.stat
    }

    /// Whether haste effects scale the duration.
    pub closed spec fn spec_haste(&self) -> bool {
        self.haste
    }

    /// Returns a [`ScaleTime`] with the specified parameters.
    pub fn new(duration: u32, stat: Option<SpeedStat>, haste: bool) -> (r: Self)
        ensures
            r == ScaleTime::spec_of(duration, stat, haste),
            r.spec_duration() == duration,
            r.spec_stat() == stat,
            r.spec_haste() == haste,
    {
        ScaleTime { duration, stat, haste }
    }

    /// Returns a [`ScaleTime`] with a duration of `0`.
    pub fn zero() -> (r: Self)
        ensures
            r == ScaleTime::spec_of(0, None::<SpeedStat>, false),
            r.spec_duration() == 0,
            r.spec_stat() == None::<SpeedStat>,
            r.spec_haste() == false,
    {
        Self::new(0, None, false)
    }

    /// Returns a [`ScaleTime`] with the specified duration that scales off of
    /// skill speed and is affected by haste buffs.
    pub fn skill(duration: u32) -> (r: Self)
        ensures
            r == ScaleTime::spec_of(duration, Some(SpeedStat::SkillSpeed), true),
            r.spec_duration() == duration,
            r.spec_stat() == Some(SpeedStat::SkillSpeed),
            r.spec_haste() == true,
    {
        Self::new(duration, Some(SpeedStat::SkillSpeed), true)
    }

    /// Returns a [`ScaleTime`] with the specified duration that scales off of
    /// spell speed and is affected by haste buffs.
    pub fn spell(duration: u32) -> (r: Self)
        ensures
            r == ScaleTime::spec_of(duration, Some(SpeedStat::SpellSpeed), true),
            r.spec_duration() == duration,
            r.spec_stat() == Some(SpeedStat::SpellSpeed),
            r.spec_haste() == true,
    {
        Self::new(duration, Some(SpeedStat::SpellSpeed), true)
    }

    /// Returns a [`ScaleTime`] with the specified duration that does not scale off
    /// of any stat and is not affected by haste buffs.
    pub fn none(duration: u32) -> (r: Self)
        ensures
            r == ScaleTime::spec_of(duration, None::<SpeedStat>, false),
            r.spec_duration() == duration,
            r.spec_stat() == None::<SpeedStat>,
            r.spec_haste() == false,
    {
        Self::new(duration, None, false)
    }

    /// Returns the base duration of this scale time.
    pub fn duration(&self) -> (r: u32)
        ensures
            r == self.spec_duration(),
    {
        self.duration
    }

    /// Returns the [`SpeedStat`] this scale time scales off of.
    pub fn stat(&self) -> (r: Option<SpeedStat>)
        ensures
            r == self.spec_stat(),
    {
        self.stat
    }

    /// Returns `true` if this scale time can be affected by haste status effects.
    pub fn haste(&self) -> (r: bool)
        ensures
            r == self.spec_haste(),
    {
        self.haste
    }

    /// Returns `true` if this scale time has a duration of `0`.
    pub fn is_zero(&self) -> (r: bool)
        ensures
            r == (self.spec_duration() == 0),
    {
        self.duration == 0
    }
}


/// A cooldown group whose action holds `charges` charges can be used `charges`
/// times in a row from a cooldown with no time on it: with fewer uses applied it
/// is still available, and after all of them the next charge is a whole
/// cooldown away.
pub proof fn lemma_charges_in_a_row(cooldown: u32, charges: u8, used: u8)
    requires
        charges >= 1,
        used <= charges,
        cooldown * charges <= u32::MAX,
    ensures
        used < charges ==> spec_cd_until((cooldown * used) as u32, cooldown, charges) == 0,
        used == charges ==> spec_cd_until((cooldown * used) as u32, cooldown, charges) == cooldown,
{
    assert(cooldown * used <= cooldown * charges) by (nonlinear_arith)
        requires
            used <= charges,
    ;
    assert(used < charges ==> cooldown * used <= cooldown * (charges - 1)) by (nonlinear_arith);
    assert(cooldown * charges - cooldown * (charges - 1) == cooldown) by (nonlinear_arith);
    assert(cooldown * (charges - 1) >= 0) by (nonlinear_arith)
        requires
            charges >= 1,
    ;
}

} // verus!
