//! The math that FFXIV uses.
//!
//! [`XivMath`] holds a player's stats, misc info, and weapon, and converts
//! potency and base recast times into values modified by those stats and
//! by [`Buffs`]. All of the game's math is integer math: many functions
//! return a scaled integer, and the scale is documented on each function.
use vstd::prelude::*;

pub mod data;

use crate::enums::{spec_job_role, Clan, DamageElement, DamageType, Job, JobRole};
use data::{spec_atk_mod, spec_attack_power, spec_job, spec_level, JobField, LevelField};

verus! {

/// Player main & substats, as shown in game.
#[derive(Copy, Clone, Debug)]
pub struct PlayerStats {
    /// The Strength main stat.
    pub str: u16,
    /// The Vitality main stat.
    pub vit: u16,
    /// The Dexterity main stat.
    pub dex: u16,
    /// The Intelligence main stat.
    pub intel: u16,
    /// The Mind main stat.
    pub mnd: u16,
    /// The Determination substat.
    pub det: u16,
    /// The Critical Hit substat.
    pub crt: u16,
    /// The Direct Hit substat.
    pub dh: u16,
    /// The Skill Speed substat.
    pub sks: u16,
    /// The Spell Speed substat.
    pub sps: u16,
    /// The Tenacity substat.
    pub ten: u16,
    /// The Piety substat.
    pub pie: u16,
}

impl PlayerStats {
    /// Returns a set of player stats with every value set to the
    /// base value for some specific level.
    ///
    /// Main stats, Determination and Piety use the level's main stat value;
    /// the other substats use the level's substat value.
    pub fn default(lvl: u8) -> (r: Self)
        ensures
            r.str == spec_level(lvl, LevelField::MAIN) && r.vit == r.str && r.dex == r.str && r.intel
                == r.str && r.mnd == r.str && r.det == r.str && r.pie == r.str,
            r.crt == spec_level(lvl, LevelField::SUB) && r.dh == r.crt && r.sks == r.crt && r.sps
                == r.crt && r.ten == r.crt,
    {
        let main = data::level(lvl, LevelField::MAIN) as u16;
        let sub = data::level(lvl, LevelField::SUB) as u16;
        PlayerStats {
            str: main,
            vit: main,
            dex: main,
            intel: main,
            mnd: main,
            det: main,
            pie: main,
            crt: sub,
            dh: sub,
            sks: sub,
            sps: sub,
            ten: sub,
        }
    }
}

/// Information about the player that is not tied to gear.
#[derive(Copy, Clone, Debug)]
pub struct PlayerInfo {
    /// The race and clan of the player.
    pub clan: Clan,
    /// The current job or class equipped.
    pub job: Job,
    /// The level of the player.
    pub lvl: u8,
}

/// Information about the weapon the player has equipped.
#[derive(Copy, Clone, Debug)]
pub struct WeaponInfo {
    /// "Physical Damage" or "Magic Damage" field, they are always the same.
    pub wd: u16,
    /// "Auto Attack" field, multiplied by 100.
    pub auto: u16,
    /// "Weapon Delay" field, multiplied by 100.
    pub delay: u16,
}

/// Main interface with all of the game's calculations.
#[derive(Copy, Clone, Debug)]
pub struct XivMath {
    /// The stats of the player.
    pub stats: PlayerStats,
    /// The weapon being used by the player.
    pub weapon: WeaponInfo,
    /// The information of the player.
    pub info: PlayerInfo,
    /// Extra animation lock, often the ping to the servers plus some value accounting for FPS.
    pub ex_lock: u16,
}

/// The stat to use for main stat calculations.
#[derive(Copy, Clone, Debug, PartialEq, Eq, Structural)]
pub enum ActionStat {
    /// Used for damage and healing from tanks, melee, and phys ranged.
    AttackPower,
    /// Used for damage from healers and casters.
    AttackMagic,
    /// Used for heals from healers.
    HealingMagic,
}

/// The stat to use for relevant speed calculations.
#[derive(Copy, Clone, Debug, PartialEq, Eq, Structural)]
pub enum SpeedStat {
    /// Used for the cast and recast times for spells.
    SpellSpeed,
    /// Used for the cast and recast times for weaponskills and auto attacks.
    SkillSpeed,
}

/// Handling of critical and direct hits.
#[derive(Copy, Clone, Debug, PartialEq, Eq, Structural)]
pub enum HitTypeHandle {
    /// The critical/direct hit should be averaged out in damage.
    Avg,
    /// The critical/direct hit occured.
    Yes,
    /// The critical/direct hit did not occur.
    No,
    /// The action is an auto critical/direct hit action.
    Force,
}

impl HitTypeHandle {
    /// Creates a handle from whether or not the hit happened.
    pub fn new(hit: bool) -> (r: Self)
        ensures
            r == (if hit {
                HitTypeHandle::Yes
            } else {
                HitTypeHandle::No
            }),
    {
        if hit {
            HitTypeHandle::Yes
        } else {
            HitTypeHandle::No
        }
    }

    /// Returns `true` if the handle is [`Force`](Self::Force).
    pub fn is_force(&self) -> (r: bool)
        ensures
            r == (*self == HitTypeHandle::Force),
    {
        matches!(self, HitTypeHandle::Force)
    }
}

/// The collection of status effects that interact with the game math.
pub trait Buffs {
    /// The combined damage multiplier applied to `base`.
    spec fn spec_damage(&self, base: u64, dmg_ty: DamageType, dmg_el: DamageElement) -> u64;

    /// `true` when [`damage`](Buffs::damage) can be computed for `base`.
    spec fn damage_defined(&self, base: u64, dmg_ty: DamageType, dmg_el: DamageElement) -> bool;

    /// The combined Critical Hit chance added to `base`.
    spec fn spec_crit_chance(&self, base: u64) -> u64;

    /// `true` when [`crit_chance`](Buffs::crit_chance) can be computed for `base`.
    spec fn crit_defined(&self, base: u64) -> bool;

    /// The combined Direct Hit chance added to `base`.
    spec fn spec_dhit_chance(&self, base: u64) -> u64;

    /// `true` when [`dhit_chance`](Buffs::dhit_chance) can be computed for `base`.
    spec fn dhit_defined(&self, base: u64) -> bool;

    /// The combined effect on the player's stats.
    spec fn spec_stats(&self, base: PlayerStats) -> PlayerStats;

    /// The combined haste effects applied to `base`.
    spec fn spec_haste(&self, base: u64) -> u64;

    /// `true` when [`haste`](Buffs::haste) can be computed for `base`.
    spec fn haste_defined(&self, base: u64) -> bool;

    /// The combined damage multiplier.
    fn damage(&self, base: u64, dmg_ty: DamageType, dmg_el: DamageElement) -> (r: u64)
        requires
            self.damage_defined(base, dmg_ty, dmg_el),
        ensures
            r == self.spec_damage(base, dmg_ty, dmg_el),
    ;

    /// The combined additional Critical Hit chance.
    fn crit_chance(&self, base: u64) -> (r: u64)
        requires
            self.crit_defined(base),
        ensures
            r == self.spec_crit_chance(base),
    ;

    /// The combined additional Direct Hit chance.
    fn dhit_chance(&self, base: u64) -> (r: u64)
        requires
            self.dhit_defined(base),
        ensures
            r == self.spec_dhit_chance(base),
    ;

    /// The combined effect on the player's stats.
    fn stats(&self, base: PlayerStats) -> (r: PlayerStats)
        ensures
            r == self.spec_stats(base),
    ;

    /// The combined haste effects.
    fn haste(&self, base: u64) -> (r: u64)
        requires
            self.haste_defined(base),
        ensures
            r == self.spec_haste(base),
    ;
}

/// `(a * b) / c` computed over the integers.
pub open spec fn muldiv(a: int, b: int, c: int) -> int {
    a * b / c
}

/// The intermediate products of a damage formula chain.
///
/// A chain multiplies `start` by each factor `f[i]` and then divides by `d[i]`,
/// one step at a time, as integer math does.
pub open spec fn chain(start: int, f: Seq<int>, d: Seq<int>) -> int
    decreases f.len(),
{
    if f.len() == 0 {
        start
    } else {
        muldiv(chain(start, f.drop_last(), d.drop_last()), f.last(), d.last())
    }
}

/// `true` if no intermediate product of the chain leaves `u64`.
pub open spec fn chain_fits(start: int, f: Seq<int>, d: Seq<int>) -> bool
    decreases f.len(),
{
    if f.len() == 0 {
        0 <= start <= u64::MAX
    } else {
        chain_fits(start, f.drop_last(), d.drop_last()) && 0 <= chain(
            start,
            f.drop_last(),
            d.drop_last(),
        ) * f.last() <= u64::MAX
    }
}

/// Multiplying bounded non-negative values keeps the product bounded.
pub proof fn lemma_mul_le(a: int, b: int, x: int, y: int)
    requires
        0 <= a <= x,
        0 <= b <= y,
    ensures
        0 <= a * b <= x * y,
{
    assert(0 <= a * b <= x * y) by (nonlinear_arith)
        requires
            0 <= a <= x,
            0 <= b <= y,
    ;
}

impl XivMath {
    /// The level's base main stat.
    pub open spec fn lvl_main(self) -> int {
        spec_level(self.info.lvl, LevelField::MAIN) as int
    }

    /// The level's base substat.
    pub open spec fn lvl_sub(self) -> int {
        spec_level(self.info.lvl, LevelField::SUB) as int
    }

    /// The level's substat divisor.
    pub open spec fn lvl_div(self) -> int {
        spec_level(self.info.lvl, LevelField::DIV) as int
    }

    /// The role of the player's job.
    pub open spec fn role(self) -> JobRole {
        spec_job_role(self.info.job)
    }

    /// The relevant attack power stat.
    pub open spec fn spec_attack_power(self) -> int {
        match spec_attack_power(self.info.job) {
            JobField::DEX => self.stats.dex as int,
            _ => self.stats.str as int,
        }
    }

    /// The relevant attack magic stat.
    pub open spec fn spec_attack_magic(self) -> int {
        if self.role() == JobRole::Healer {
            self.stats.mnd as int
        } else {
            self.stats.intel as int
        }
    }

    /// The main stat used for a specific action handling.
    pub open spec fn spec_main_stat(self, stat: ActionStat) -> int {
        match stat {
            ActionStat::AttackPower => self.spec_attack_power(),
            ActionStat::AttackMagic => self.spec_attack_magic(),
            ActionStat::HealingMagic => self.stats.mnd as int,
        }
    }

    /// The trait modifier for the player's job, scaled by 100.
    pub open spec fn spec_job_trait_mod(self) -> int {
        if self.role() == JobRole::Healer || self.role() == JobRole::Caster {
            130
        } else if self.role() == JobRole::Ranged {
            120
        } else {
            100
        }
    }

    /// The job attribute used for the Weapon Damage modifier.
    pub open spec fn wd_field(self, stat: ActionStat) -> JobField {
        match stat {
            ActionStat::AttackPower => spec_attack_power(self.info.job),
            ActionStat::AttackMagic => if self.role() == JobRole::Healer {
                JobField::MND
            } else {
                JobField::INT
            },
            ActionStat::HealingMagic => JobField::MND,
        }
    }

    /// The Weapon Damage modifier, scaled by 100.
    pub open spec fn spec_wd_mod(self, stat: ActionStat) -> int {
        self.lvl_main() * spec_job(self.info.job, self.wd_field(stat)) / 1000
            + self.weapon.wd as int
    }

    /// `true` if the Attack Damage modifier can be computed for `stat`.
    pub open spec fn atk_damage_defined(self, stat: ActionStat) -> bool {
        let lvl_main = self.lvl_main();
        let main = self.spec_main_stat(stat);
        let atk = spec_atk_mod(self.info.job, self.info.lvl) as int;
        &&& lvl_main > 0
        &&& main < lvl_main ==> (atk * (lvl_main - main) + lvl_main - 1) / lvl_main <= 100
    }

    /// The Attack Damage modifier, scaled by 100.
    pub open spec fn spec_atk_damage(self, stat: ActionStat) -> int {
        let lvl_main = self.lvl_main();
        let main = self.spec_main_stat(stat);
        let atk = spec_atk_mod(self.info.job, self.info.lvl) as int;
        if main < lvl_main {
            100 - (atk * (lvl_main - main) + lvl_main - 1) / lvl_main
        } else {
            atk * (main - lvl_main) / lvl_main + 100
        }
    }

    /// `true` if the level table has the player's level and Determination
    /// and Direct Hit are at least their base values.
    pub open spec fn det_defined(self) -> bool {
        self.lvl_div() > 0 && self.stats.det >= self.lvl_main() && self.stats.dh >= self.lvl_sub()
    }

    /// The Determination modifier, scaled by 1000.
    pub open spec fn spec_det_damage(self, force_dh: bool) -> int {
        140 * (self.stats.det - self.lvl_main()) / self.lvl_div() + 140 * (self.stats.dh
            - self.lvl_sub()) * (if force_dh {
            1int
        } else {
            0int
        }) / self.lvl_div() + 1000
    }

    /// `true` if the Tenacity modifier can be computed.
    pub open spec fn ten_defined(self) -> bool {
        self.role() == JobRole::Tank ==> self.lvl_div() > 0 && self.stats.ten >= self.lvl_sub()
    }

    /// The Tenacity modifier, scaled by 1000.
    pub open spec fn spec_ten_damage(self) -> int {
        if self.role() == JobRole::Tank {
            100 * (self.stats.ten - self.lvl_sub()) / self.lvl_div() + 1000
        } else {
            1000
        }
    }

    /// `true` if the level table has the player's level and Critical Hit is at least
    /// its base value.
    pub open spec fn crit_defined(self) -> bool {
        self.lvl_div() > 0 && self.stats.crt >= self.lvl_sub()
    }

    /// The Critical Hit damage modifier, scaled by 1000.
    pub open spec fn spec_crit_damage(self) -> int {
        200 * (self.stats.crt - self.lvl_sub()) / self.lvl_div() + 1400
    }

    /// The Critical Hit chance, scaled by 1000.
    pub open spec fn spec_crit_chance(self) -> int {
        200 * (self.stats.crt - self.lvl_sub()) / self.lvl_div() + 50
    }

    /// `true` if the level table has the player's level and Direct Hit is at least
    /// its base value.
    pub open spec fn dhit_defined(self) -> bool {
        self.lvl_div() > 0 && self.stats.dh >= self.lvl_sub()
    }

    /// The Direct Hit chance, scaled by 1000.
    pub open spec fn spec_dhit_chance(self) -> int {
        550 * (self.stats.dh - self.lvl_sub()) / self.lvl_div()
    }

    /// `true` if the speed modifier for `stat` can be computed.
    pub open spec fn speed_defined(self, stat: SpeedStat) -> bool {
        self.lvl_div() > 0 && match stat {
            SpeedStat::SkillSpeed => self.stats.sks >= self.lvl_sub(),
            SpeedStat::SpellSpeed => self.stats.sps >= self.lvl_sub(),
        }
    }

    /// The speed modifier, scaled by 1000.
    pub open spec fn spec_speed_mod(self, stat: SpeedStat) -> int {
        match stat {
            SpeedStat::SkillSpeed => 130 * (self.stats.sks - self.lvl_sub()) / self.lvl_div()
                + 1000,
            SpeedStat::SpellSpeed => 130 * (self.stats.sps - self.lvl_sub()) / self.lvl_div()
                + 1000,
        }
    }

    /// The auto attack modifier, scaled by 100.
    pub open spec fn spec_aa_mod(self) -> int {
        (self.lvl_main() * spec_job(self.info.job, spec_attack_power(self.info.job)) / 1000
            + self.weapon.wd as int) * self.weapon.delay as int / 300
    }

    /// This math with its stats replaced by what `buffs` makes of them.
    pub open spec fn spec_with_stats<B: Buffs>(self, buffs: &B) -> XivMath {
        XivMath { stats: buffs.spec_stats(self.stats), ..self }
    }

    /// The crit multiplier, scaled by 1000000.
    pub open spec fn spec_crit_mod<B: Buffs>(self, handle: HitTypeHandle, buffs: &B) -> int {
        let dmg = self.spec_crit_damage();
        match handle {
            HitTypeHandle::Force => dmg * (1000 + (dmg - 1000) * buffs.spec_crit_chance(0)
                / 1000),
            HitTypeHandle::Avg => 1000000 + (dmg - 1000) * buffs.spec_crit_chance(
                self.spec_crit_chance() as u64,
            ),
            HitTypeHandle::Yes => dmg * 1000,
            HitTypeHandle::No => 1000000,
        }
    }

    /// `true` if the crit multiplier can be computed.
    pub open spec fn crit_mod_defined<B: Buffs>(self, handle: HitTypeHandle, buffs: &B) -> bool {
        let dmg = self.spec_crit_damage();
        match handle {
            HitTypeHandle::Force => self.crit_defined() && buffs.crit_defined(0) && (dmg - 1000)
                * buffs.spec_crit_chance(0) <= u64::MAX && dmg * (1000 + (dmg - 1000)
                * buffs.spec_crit_chance(0) / 1000) <= u64::MAX,
            HitTypeHandle::Avg => self.crit_defined() && buffs.crit_defined(
                self.spec_crit_chance() as u64,
            ) && 1000000 + (dmg - 1000) * buffs.spec_crit_chance(self.spec_crit_chance() as u64)
                <= u64::MAX,
            HitTypeHandle::Yes => self.crit_defined(),
            HitTypeHandle::No => true,
        }
    }

    /// The direct hit multiplier, scaled by 1000000.
    pub open spec fn spec_dhit_mod<B: Buffs>(self, handle: HitTypeHandle, buffs: &B) -> int {
        match handle {
            HitTypeHandle::Force => 1250 * (1000 + 250 * buffs.spec_dhit_chance(0) / 1000),
            HitTypeHandle::Avg => 1000000 + 250 * buffs.spec_dhit_chance(
                self.spec_dhit_chance() as u64,
            ),
            HitTypeHandle::Yes => 1250000,
            HitTypeHandle::No => 1000000,
        }
    }

    /// `true` if the direct hit multiplier can be computed.
    pub open spec fn dhit_mod_defined<B: Buffs>(self, handle: HitTypeHandle, buffs: &B) -> bool {
        match handle {
            HitTypeHandle::Force => buffs.dhit_defined(0) && 250 * buffs.spec_dhit_chance(0)
                <= u64::MAX && 1250 * (1000 + 250 * buffs.spec_dhit_chance(0) / 1000)
                <= u64::MAX,
            HitTypeHandle::Avg => self.dhit_defined() && buffs.dhit_defined(
                self.spec_dhit_chance() as u64,
            ) && 1000000 + 250 * buffs.spec_dhit_chance(self.spec_dhit_chance() as u64)
                <= u64::MAX,
            HitTypeHandle::Yes => true,
            HitTypeHandle::No => true,
        }
    }
}


impl XivMath {
    /// Creates a new `XivMath` instance based on the player's stats,
    /// with an extra animation lock of 10ms.
    pub fn new(stats: PlayerStats, weapon: WeaponInfo, player: PlayerInfo) -> (r: Self)
        ensures
            r.stats == stats && r.weapon == weapon && r.info == player && r.ex_lock == 10,
    {
        XivMath { stats, weapon, info: player, ex_lock: 10 }
    }

    /// The relevant attack power stat.
    ///
    /// This is dexterity for ROG/NIN and all phys ranged and strength otherwise.
    pub fn attack_power(&self) -> (r: u64)
        ensures
            r == self.spec_attack_power(),
    {
        match data::attack_power(self.info.job) {
            JobField::DEX => self.stats.dex as u64,
            _ => self.stats.str as u64,
        }
    }

    /// The relevant attack magic stat.
    ///
    /// This is mind for healers and intelligence otherwise.
    pub fn attack_magic(&self) -> (r: u64)
        ensures
            r == self.spec_attack_magic(),
    {
        if self.info.job.healer() {
            self.stats.mnd as u64
        } else {
            self.stats.intel as u64
        }
    }

    /// The relevant healing magic stat, which is always mind.
    pub fn healing_magic(&self) -> (r: u64)
        ensures
            r == self.stats.mnd,
    {
        self.stats.mnd as u64
    }

    /// The speed modifier for a speed stat, scaled by 1000.
    fn speed_mod(&self, stat: SpeedStat) -> (r: u64)
        requires
            self.speed_defined(stat),
        ensures
            r == self.spec_speed_mod(stat),
    {
        match stat {
            SpeedStat::SkillSpeed => self.sks_mod(),
            SpeedStat::SpellSpeed => self.sps_mod(),
        }
    }

    /// Returns the trait modifier for the player's job, scaled by 100.
    ///
    /// This is the modifier for traits like "Main and Mend".
    pub fn job_trait_mod(&self) -> (r: u64)
        ensures
            r == self.spec_job_trait_mod(),
    {
        let job = self.info.job;
        if job.healer() || job.caster() {
            130
        } else if job.ranged() {
            120
        } else {
            100
        }
    }

    /// Returns the stat used to attack for the player's job.
    pub fn job_attack_stat(&self) -> (r: ActionStat)
        ensures
            r == (if self.role() == JobRole::Healer || self.role() == JobRole::Caster {
                ActionStat::AttackMagic
            } else {
                ActionStat::AttackPower
            }),
    {
        self.info.job.attack_stat()
    }

    /// The crit multiplier based on the handling, scaled by `1000000`.
    pub fn crit_mod<B: Buffs>(&self, handle: HitTypeHandle, buffs: &B) -> (r: u64)
        requires
            self.crit_mod_defined(handle, buffs),
        ensures
            r == self.spec_crit_mod(handle, buffs),
    {
        match handle {
            HitTypeHandle::Force => {
                let chance = buffs.crit_chance(0);
                let dmg_mod = self.crit_damage();
                let force_buff = 1000 + (dmg_mod - 1000) * chance / 1000;
                dmg_mod * force_buff
            },
            HitTypeHandle::Avg => {
                let chance = buffs.crit_chance(self.crit_chance());
                let dmg_mod = self.crit_damage();
                1000000 + (dmg_mod - 1000) * chance
            },
            HitTypeHandle::Yes => {
                let dmg_mod = self.crit_damage();
                dmg_mod * 1000
            },
            HitTypeHandle::No => 1000000,
        }
    }

    /// The direct hit multiplier based on the handling, scaled by `1000000`.
    pub fn dhit_mod<B: Buffs>(&self, handle: HitTypeHandle, buffs: &B) -> (r: u64)
        requires
            self.dhit_mod_defined(handle, buffs),
        ensures
            r == self.spec_dhit_mod(handle, buffs),
    {
        match handle {
            HitTypeHandle::Force => 1250 * (1000 + 250 * buffs.dhit_chance(0) / 1000),
            HitTypeHandle::Avg => 1000000 + 250 * buffs.dhit_chance(self.dhit_chance()),
            HitTypeHandle::Yes => 1250000,
            HitTypeHandle::No => 1000000,
        }
    }

    /// The main stat used for a specific action handling.
    pub fn main_stat(&self, stat: ActionStat) -> (r: u64)
        ensures
            r == self.spec_main_stat(stat),
    {
        match stat {
            ActionStat::AttackPower => self.attack_power(),
            ActionStat::AttackMagic => self.attack_magic(),
            ActionStat::HealingMagic => self.healing_magic(),
        }
    }

    /// The Weapon Damage modifier based on the action stat used, scaled by `100`.
    pub fn wd_mod(&self, stat: ActionStat) -> (r: u64)
        ensures
            r == self.spec_wd_mod(stat),
    {
        let stat_field = match stat {
            ActionStat::AttackPower => data::attack_power(self.info.job),
            ActionStat::AttackMagic => if self.info.job.healer() {
                JobField::MND
            } else {
                JobField::INT
            },
            ActionStat::HealingMagic => JobField::MND,
        };
        data::level(self.info.lvl, LevelField::MAIN) * data::job(self.info.job, stat_field) / 1000
            + self.weapon.wd as u64
    }

    /// The Attack Damage modifier based on the action stat used, scaled by `100`.
    pub fn atk_damage(&self, stat: ActionStat) -> (r: u64)
        requires
            self.atk_damage_defined(stat),
        ensures
            r == self.spec_atk_damage(stat),
    {
        let lvl_main = data::level(self.info.lvl, LevelField::MAIN);
        let main = self.main_stat(stat);
        let atk_mod = data::atk_mod(self.info.job, self.info.lvl);
        if main < lvl_main {
            100 - (atk_mod * (lvl_main - main) + lvl_main - 1) / lvl_main
        } else {
            proof {
                lemma_mul_le(atk_mod as int, (main - lvl_main) as int, 195, 65535);
            }
            atk_mod * (main - lvl_main) / lvl_main + 100
        }
    }

    /// The Determination modifier, scaled by `1000`.
    ///
    /// When `force_dh` is set, the Direct Hit substat also adds to the modifier.
    pub fn det_damage(&self, force_dh: bool) -> (r: u64)
        requires
            self.det_defined(),
        ensures
            r == self.spec_det_damage(force_dh),
    {
        let div = data::level(self.info.lvl, LevelField::DIV);
        let ddet = self.stats.det as u64 - data::level(self.info.lvl, LevelField::MAIN);
        let ddh = self.stats.dh as u64 - data::level(self.info.lvl, LevelField::SUB);
        let f: u64 = if force_dh {
            1
        } else {
            0
        };
        140 * ddet / div + 140 * ddh * f / div + 1000
    }

    /// The Tenacity modifier, scaled by `1000`. Only used if the player is a tank.
    pub fn ten_damage(&self) -> (r: u64)
        requires
            self.ten_defined(),
        ensures
            r == self.spec_ten_damage(),
    {
        if self.info.job.tank() {
            100 * (self.stats.ten as u64 - data::level(self.info.lvl, LevelField::SUB))
                / data::level(self.info.lvl, LevelField::DIV) + 1000
        } else {
            1000
        }
    }

    /// The Critical Hit damage modifier, scaled by `1000`. Has a base x1.4 modifier.
    pub fn crit_damage(&self) -> (r: u64)
        requires
            self.crit_defined(),
        ensures
            r == self.spec_crit_damage(),
            1400 <= r <= 8300,
    {
        200 * (self.stats.crt as u64 - data::level(self.info.lvl, LevelField::SUB))
            / data::level(self.info.lvl, LevelField::DIV) + 1400
    }

    /// The Critical Hit chance, scaled by `1000`. Has a base 5% rate.
    pub fn crit_chance(&self) -> (r: u64)
        requires
            self.crit_defined(),
        ensures
            r == self.spec_crit_chance(),
            r <= 7000,
    {
        200 * (self.stats.crt as u64 - data::level(self.info.lvl, LevelField::SUB))
            / data::level(self.info.lvl, LevelField::DIV) + 50
    }

    /// The Direct Hit chance, scaled by `1000`. Unlike crit, the base rate is 0%.
    pub fn dhit_chance(&self) -> (r: u64)
        requires
            self.dhit_defined(),
        ensures
            r == self.spec_dhit_chance(),
            r <= 19000,
    {
        550 * (self.stats.dh as u64 - data::level(self.info.lvl, LevelField::SUB))
            / data::level(self.info.lvl, LevelField::DIV)
    }

    /// The Skill Speed modifier, scaled by `1000`.
    pub fn sks_mod(&self) -> (r: u64)
        requires
            self.speed_defined(SpeedStat::SkillSpeed),
        ensures
            r == self.spec_speed_mod(SpeedStat::SkillSpeed),
            1000 <= r <= 6000,
    {
        130 * (self.stats.sks as u64 - data::level(self.info.lvl, LevelField::SUB))
            / data::level(self.info.lvl, LevelField::DIV) + 1000
    }

    /// The Spell Speed modifier, scaled by `1000`.
    pub fn sps_mod(&self) -> (r: u64)
        requires
            self.speed_defined(SpeedStat::SpellSpeed),
        ensures
            r == self.spec_speed_mod(SpeedStat::SpellSpeed),
            1000 <= r <= 6000,
    {
        130 * (self.stats.sps as u64 - data::level(self.info.lvl, LevelField::SUB))
            / data::level(self.info.lvl, LevelField::DIV) + 1000
    }

    /// The MP regen per tick: 200, plus Piety's share for healers.
    pub fn mp_regen(&self) -> (r: u64)
        requires
            self.role() == JobRole::Healer ==> self.lvl_div() > 0 && self.stats.pie
                >= self.lvl_main(),
        ensures
            r == (if self.role() == JobRole::Healer {
                150 * (self.stats.pie - self.lvl_main()) / self.lvl_div() + 200
            } else {
                200
            }),
    {
        if self.info.job.healer() {
            150 * (self.stats.pie as u64 - data::level(self.info.lvl, LevelField::MAIN))
                / data::level(self.info.lvl, LevelField::DIV) + 200
        } else {
            200
        }
    }

    /// The auto attack modifier, scaled by `100`. Similar to [`wd_mod`](Self::wd_mod)
    /// but includes weapon delay.
    pub fn aa_mod(&self) -> (r: u64)
        ensures
            r == self.spec_aa_mod(),
    {
        let base = data::level(self.info.lvl, LevelField::MAIN) * data::job(
            self.info.job,
            data::attack_power(self.info.job),
        ) / 1000 + self.weapon.wd as u64;
        proof {
            lemma_mul_le(base as int, self.weapon.delay as int, 70000, 65535);
        }
        base * self.weapon.delay as u64 / 300
    }

    /// Returns a copy of this struct but with stats updated by the specified [`Buffs`].
    pub fn with_stats<B: Buffs>(&self, buffs: &B) -> (r: Self)
        ensures
            r == self.spec_with_stats(buffs),
    {
        XivMath { stats: buffs.stats(self.stats), ..*self }
    }
}

/// The value of each step of a damage formula: the running value times
/// each factor, divided by the matching divisor, in order.
pub open spec fn steps(start: int, f: Seq<int>, d: Seq<int>) -> Seq<int>
    decreases f.len(),
{
    if f.len() == 0 {
        seq![start]
    } else {
        let prev = steps(start, f.drop_last(), d.drop_last());
        prev.push(prev.last() * f.last() / d.last())
    }
}

/// `true` if every product in the steps of a damage formula fits in a `u64`.
pub open spec fn steps_fit(start: int, f: Seq<int>, d: Seq<int>) -> bool {
    &&& 0 <= start <= u64::MAX
    &&& forall|i: int|
        0 <= i < f.len() ==> 0 <= #[trigger] steps(start, f.take(i), d.take(i)).last() * f[i]
            <= u64::MAX
}

/// One step of a damage formula in `u64` arithmetic.
pub(crate) fn step(acc: u64, f: u64, d: u64) -> (r: u64)
    requires
        d > 0,
        acc * f <= u64::MAX,
    ensures
        r == acc as int * f as int / d as int,
{
    acc * f / d
}

/// `1` if the potency is below 100, else `0`: the game adds one damage to such attacks.
pub open spec fn low_potency_bonus(potency: u64) -> int {
    if potency < 100 {
        1
    } else {
        0
    }
}

/// A snapshot for some Effect-over-Time status.
#[derive(Copy, Clone, Debug, PartialEq, Eq, Hash, Default, Structural)]
pub struct EotSnapshot {
    /// The base damage before randomization for the status.
    pub base: u64,
    /// The critical hit damage for the status, scaled by 1000.
    pub crit_damage: u16,
    /// The critical hit chance for the status, scaled by 1000.
    pub crit_chance: u16,
    /// The direct hit chance for the status, scaled by 1000.
    pub dhit_chance: u16,
}

impl EotSnapshot {
    /// The crit multiplier of the snapshot, scaled by 1000000.
    pub open spec fn spec_crt_mod(self, handle: HitTypeHandle) -> int {
        let damage = self.crit_damage as int;
        let chance = self.crit_chance as int;
        match handle {
            HitTypeHandle::Force => damage * (1000 + (damage - 1000) * chance / 1000),
            HitTypeHandle::Avg => 1000000 + (damage - 1000) * chance,
            HitTypeHandle::Yes => damage * 1000,
            HitTypeHandle::No => 1000000,
        }
    }

    /// The direct hit multiplier of the snapshot, scaled by 1000000.
    pub open spec fn spec_dh_mod(self, handle: HitTypeHandle) -> int {
        let chance = self.dhit_chance as int;
        match handle {
            HitTypeHandle::Force => 1250 * (1000 + 250 * chance / 1000),
            HitTypeHandle::Avg => 1000000 + 250 * chance,
            HitTypeHandle::Yes => 1250000,
            HitTypeHandle::No => 1000000,
        }
    }

    /// The factors of the damage formula of a tick.
    pub open spec fn eot_factors(self, crit: HitTypeHandle, dhit: HitTypeHandle, rand: u64) -> Seq<
        int,
    > {
        seq![rand as int, self.spec_crt_mod(crit), self.spec_dh_mod(dhit)]
    }

    /// The divisors of the damage formula of a tick.
    pub open spec fn eot_divisors() -> Seq<int> {
        seq![100000, 1000000, 1000000]
    }

    /// `true` if the result of a tick can be computed.
    pub open spec fn eot_defined(self, crit: HitTypeHandle, dhit: HitTypeHandle, rand: u64) -> bool {
        &&& (crit == HitTypeHandle::Force || crit == HitTypeHandle::Avg) ==> self.crit_damage
            >= 1000
        &&& steps_fit(self.base as int, self.eot_factors(crit, dhit, rand), Self::eot_divisors())
    }

    /// The resulting damage/healing of a tick.
    pub open spec fn spec_eot_result(self, crit: HitTypeHandle, dhit: HitTypeHandle, rand: u64) -> int {
        steps(self.base as int, self.eot_factors(crit, dhit, rand), Self::eot_divisors()).last()
    }

    /// The crit multiplier based on the handling, scaled by `1000000`.
    fn crt_mod(&self, handle: HitTypeHandle) -> (r: u64)
        requires
            (handle == HitTypeHandle::Force || handle == HitTypeHandle::Avg) ==> self.crit_damage
                >= 1000,
        ensures
            r == self.spec_crt_mod(handle),
    {
        let damage = self.crit_damage as u64;
        let chance = self.crit_chance as u64;
        proof {
            lemma_mul_le(damage as int, chance as int, 65535, 65535);
        }
        match handle {
            HitTypeHandle::Force => {
                proof {
                    lemma_mul_le((damage - 1000) as int, chance as int, 65535, 65535);
                }
                let inner = 1000 + (damage - 1000) * chance / 1000;
                proof {
                    lemma_mul_le(damage as int, inner as int, 65535, 5000000);
                }
                damage * inner
            },
            HitTypeHandle::Avg => {
                proof {
                    lemma_mul_le((damage - 1000) as int, chance as int, 65535, 65535);
                }
                1000000 + (damage - 1000) * chance
            },
            HitTypeHandle::Yes => damage * 1000,
            HitTypeHandle::No => 1000000,
        }
    }

    /// The direct hit multiplier based on the handling, scaled by `1000000`.
    fn dh_mod(&self, handle: HitTypeHandle) -> (r: u64)
        ensures
            r == self.spec_dh_mod(handle),
    {
        let chance = self.dhit_chance as u64;
        match handle {
            HitTypeHandle::Force => 1250 * (1000 + 250 * chance / 1000),
            HitTypeHandle::Avg => 1000000 + 250 * chance,
            HitTypeHandle::Yes => 1250000,
            HitTypeHandle::No => 1000000,
        }
    }

    /// Returns the resulting damage/healing for this EoT.
    ///
    /// `crit` and `dhit` are the handling for the respective hit types.
    /// If this is a DoT effect, `rand` should be between `95000` and `105000`;
    /// for a HoT effect, between `97000` and `103000`.
    pub fn eot_result(&self, crit: HitTypeHandle, dhit: HitTypeHandle, rand: u64) -> (r: u64)
        requires
            self.eot_defined(crit, dhit, rand),
        ensures
            r == self.spec_eot_result(crit, dhit, rand),
    {
        let ghost f = self.eot_factors(crit, dhit, rand);
        let ghost d = Self::eot_divisors();
        let c = self.crt_mod(crit);
        let h = self.dh_mod(dhit);
        proof {
            lemma_steps_unfold3(self.base as int, f, d);
        }
        let a = step(self.base, rand, 100000);
        let b = step(a, c, 1000000);
        step(b, h, 1000000)
    }
}

/// The steps of a three-step formula, written out.
pub proof fn lemma_steps_unfold3(start: int, f: Seq<int>, d: Seq<int>)
    requires
        f.len() == 3,
        d.len() == 3,
    ensures
        steps(start, f.take(0), d.take(0)).last() == start,
        steps(start, f.take(1), d.take(1)).last() == start * f[0] / d[0],
        steps(start, f.take(2), d.take(2)).last() == (start * f[0] / d[0]) * f[1] / d[1],
        steps(start, f, d).last() == ((start * f[0] / d[0]) * f[1] / d[1]) * f[2] / d[2],
{
    reveal_with_fuel(steps, 4);
    assert(f.take(0).len() == 0);
    assert(f.take(1).drop_last() =~= f.take(0));
    assert(d.take(1).drop_last() =~= d.take(0));
    assert(f.take(2).drop_last() =~= f.take(1));
    assert(d.take(2).drop_last() =~= d.take(1));
    assert(f.drop_last() =~= f.take(2));
    assert(d.drop_last() =~= d.take(2));
}

/// One more step of a damage formula is the last step times the next factor,
/// divided by the next divisor.
pub proof fn lemma_steps_next(start: int, f: Seq<int>, d: Seq<int>, i: int)
    requires
        0 <= i < f.len(),
        f.len() == d.len(),
    ensures
        steps(start, f.take(i + 1), d.take(i + 1)).last() == steps(start, f.take(i), d.take(i)).last()
            * f[i] / d[i],
{
    assert(f.take(i + 1).drop_last() =~= f.take(i));
    assert(d.take(i + 1).drop_last() =~= d.take(i));
}

/// Taking the whole formula is the formula.
pub proof fn lemma_steps_full(start: int, f: Seq<int>, d: Seq<int>)
    ensures
        f.take(f.len() as int) == f,
        d.take(d.len() as int) == d,
{
    assert(f.take(f.len() as int) =~= f);
    assert(d.take(d.len() as int) =~= d);
}

impl XivMath {
    /// The factors of the damage formula before randomization, in order.
    pub open spec fn action_factors(self, stat: ActionStat, force_dh: bool) -> Seq<int> {
        seq![
            self.spec_atk_damage(stat),
            self.spec_det_damage(force_dh),
            self.spec_ten_damage(),
            self.spec_wd_mod(stat),
            self.spec_job_trait_mod(),
        ]
    }

    /// The divisors matching [`action_factors`](Self::action_factors).
    pub open spec fn action_divisors() -> Seq<int> {
        seq![100, 1000, 1000, 100, 100]
    }

    /// The factors applied after the pre-random damage: crit, direct hit, and the random roll.
    pub open spec fn hit_factors<B: Buffs>(
        self,
        crit: HitTypeHandle,
        dhit: HitTypeHandle,
        rand: u64,
        buffs: &B,
    ) -> Seq<int> {
        seq![self.spec_crit_mod(crit, buffs), self.spec_dhit_mod(dhit, buffs), rand as int]
    }

    /// The divisors matching [`hit_factors`](Self::hit_factors).
    pub open spec fn hit_divisors() -> Seq<int> {
        seq![1000000, 1000000, 10000]
    }

    /// The damage of a direct damage action before randomization and buffs,
    /// using this math's stats as they are.
    pub open spec fn spec_action_prerand(self, potency: u64, stat: ActionStat, force_dh: bool) -> int {
        steps(potency as int, self.action_factors(stat, force_dh), Self::action_divisors()).last()
            + low_potency_bonus(potency)
    }

    /// The damage of a direct damage action before the damage buffs, using this math's
    /// stats as they are.
    pub open spec fn spec_action_prebuff<B: Buffs>(
        self,
        potency: u64,
        stat: ActionStat,
        crit: HitTypeHandle,
        dhit: HitTypeHandle,
        rand: u64,
        buffs: &B,
    ) -> int {
        steps(
            self.spec_action_prerand(potency, stat, dhit == HitTypeHandle::Force),
            self.hit_factors(crit, dhit, rand, buffs),
            Self::hit_divisors(),
        ).last()
    }

    /// `true` if the damage of a direct damage action can be computed with this
    /// math's stats as they are.
    pub open spec fn action_defined<B: Buffs>(
        self,
        potency: u64,
        dmg_ty: DamageType,
        dmg_el: DamageElement,
        stat: ActionStat,
        crit: HitTypeHandle,
        dhit: HitTypeHandle,
        rand: u64,
        buffs: &B,
    ) -> bool {
        let force = dhit == HitTypeHandle::Force;
        &&& self.atk_damage_defined(stat)
        &&& self.det_defined()
        &&& self.ten_defined()
        &&& self.crit_mod_defined(crit, buffs)
        &&& self.dhit_mod_defined(dhit, buffs)
        &&& steps_fit(potency as int, self.action_factors(stat, force), Self::action_divisors())
        &&& self.spec_action_prerand(potency, stat, force) <= u64::MAX
        &&& steps_fit(
            self.spec_action_prerand(potency, stat, force),
            self.hit_factors(crit, dhit, rand, buffs),
            Self::hit_divisors(),
        )
        &&& buffs.damage_defined(
            self.spec_action_prebuff(potency, stat, crit, dhit, rand, buffs) as u64,
            dmg_ty,
            dmg_el,
        )
    }

    /// Applies the crit, direct hit, and random roll to a pre-random damage value.
    fn apply_hits<B: Buffs>(
        &self,
        prerand: u64,
        crit: HitTypeHandle,
        dhit: HitTypeHandle,
        rand: u64,
        buffs: &B,
    ) -> (r: u64)
        requires
            self.crit_mod_defined(crit, buffs),
            self.dhit_mod_defined(dhit, buffs),
            steps_fit(prerand as int, self.hit_factors(crit, dhit, rand, buffs), Self::hit_divisors()),
        ensures
            r == steps(
                prerand as int,
                self.hit_factors(crit, dhit, rand, buffs),
                Self::hit_divisors(),
            ).last(),
    {
        let ghost f = self.hit_factors(crit, dhit, rand, buffs);
        let ghost d = Self::hit_divisors();
        let c = self.crit_mod(crit, buffs);
        let h = self.dhit_mod(dhit, buffs);
        proof {
            lemma_steps_unfold3(prerand as int, f, d);
        }
        let a = step(prerand, c, 1000000);
        let b = step(a, h, 1000000);
        step(b, rand, 10000)
    }

    /// Calculates the damage a direct damage action with a certain `potency` will do.
    ///
    /// The damage depends on the type of `stat` used, the job traits, whether or not the
    /// action `crit` or `dhit`, and a random modifier `rand` between `9500` and `10500`
    /// inclusive. The stats used are this math's stats as changed by `buffs`.
    pub fn action_damage<B: Buffs>(
        &self,
        potency: u64,
        dmg_ty: DamageType,
        dmg_el: DamageElement,
        stat: ActionStat,
        crit: HitTypeHandle,
        dhit: HitTypeHandle,
        rand: u64,
        buffs: &B,
    ) -> (r: u64)
        requires
            self.spec_with_stats(buffs).action_defined(
                potency,
                dmg_ty,
                dmg_el,
                stat,
                crit,
                dhit,
                rand,
                buffs,
            ),
        ensures
            r == buffs.spec_damage(
                self.spec_with_stats(buffs).spec_action_prebuff(
                    potency,
                    stat,
                    crit,
                    dhit,
                    rand,
                    buffs,
                ) as u64,
                dmg_ty,
                dmg_el,
            ),
    {
        let this = self.with_stats(buffs);
        let ghost f = this.action_factors(stat, dhit == HitTypeHandle::Force);
        let ghost d = Self::action_divisors();
        let a0 = this.atk_damage(stat);
        let a1 = this.det_damage(dhit.is_force());
        let a2 = this.ten_damage();
        let a3 = this.wd_mod(stat);
        let a4 = this.job_trait_mod();
        proof {
            assert(f.take(0) =~= Seq::<int>::empty());
            assert(d.take(0) =~= Seq::<int>::empty());
            lemma_steps_next(potency as int, f, d, 0);
            lemma_steps_next(potency as int, f, d, 1);
            lemma_steps_next(potency as int, f, d, 2);
            lemma_steps_next(potency as int, f, d, 3);
            lemma_steps_next(potency as int, f, d, 4);
            lemma_steps_full(potency as int, f, d);
        }
        let s1 = step(potency, a0, 100);
        let s2 = step(s1, a1, 1000);
        let s3 = step(s2, a2, 1000);
        let s4 = step(s3, a3, 100);
        let s5 = step(s4, a4, 100);
        let prerand = s5 + if potency < 100 {
            1
        } else {
            0
        };
        let prebuff = this.apply_hits(prerand, crit, dhit, rand, buffs);
        buffs.damage(prebuff, dmg_ty, dmg_el)
    }
}

impl XivMath {
    /// The factors of the damage formula of a damage over time effect, in order.
    ///
    /// Attack magic and attack power apply the same factors in different orders.
    pub open spec fn dot_factors(self, stat: ActionStat, speed_stat: SpeedStat) -> Seq<int> {
        if stat == ActionStat::AttackMagic {
            seq![
                self.spec_wd_mod(stat),
                self.spec_atk_damage(stat),
                self.spec_speed_mod(speed_stat),
                self.spec_det_damage(false),
                self.spec_ten_damage(),
                self.spec_job_trait_mod(),
            ]
        } else {
            seq![
                self.spec_atk_damage(stat),
                self.spec_det_damage(false),
                self.spec_ten_damage(),
                self.spec_speed_mod(speed_stat),
                self.spec_wd_mod(stat),
                self.spec_job_trait_mod(),
            ]
        }
    }

    /// The divisors matching [`dot_factors`](Self::dot_factors).
    pub open spec fn dot_divisors(stat: ActionStat) -> Seq<int> {
        if stat == ActionStat::AttackMagic {
            seq![100, 100, 1000, 1000, 1000, 100]
        } else {
            seq![100, 1000, 1000, 1000, 100, 100]
        }
    }

    /// The damage of a damage over time tick before buffs, using this math's stats as they are.
    pub open spec fn spec_dot_prerand(self, potency: u64, stat: ActionStat, speed_stat: SpeedStat) -> int {
        steps(potency as int, self.dot_factors(stat, speed_stat), Self::dot_divisors(stat)).last()
            + low_potency_bonus(potency)
    }

    /// `true` if a damage over time snapshot can be computed with this math's stats.
    pub open spec fn dot_defined<B: Buffs>(
        self,
        potency: u64,
        dmg_ty: DamageType,
        dmg_el: DamageElement,
        stat: ActionStat,
        speed_stat: SpeedStat,
        buffs: &B,
    ) -> bool {
        &&& stat != ActionStat::HealingMagic
        &&& self.atk_damage_defined(stat)
        &&& self.det_defined()
        &&& self.ten_defined()
        &&& self.speed_defined(speed_stat)
        &&& self.crit_defined()
        &&& self.dhit_defined()
        &&& steps_fit(potency as int, self.dot_factors(stat, speed_stat), Self::dot_divisors(stat))
        &&& self.spec_dot_prerand(potency, stat, speed_stat) <= u64::MAX
        &&& buffs.damage_defined(
            self.spec_dot_prerand(potency, stat, speed_stat) as u64,
            dmg_ty,
            dmg_el,
        )
        &&& buffs.crit_defined(self.spec_crit_chance() as u64)
        &&& buffs.dhit_defined(self.spec_dhit_chance() as u64)
    }

    /// The snapshot of a damage over time effect, using this math's stats as they are.
    pub open spec fn spec_dot_snapshot<B: Buffs>(
        self,
        potency: u64,
        dmg_ty: DamageType,
        dmg_el: DamageElement,
        stat: ActionStat,
        speed_stat: SpeedStat,
        buffs: &B,
    ) -> EotSnapshot {
        EotSnapshot {
            base: buffs.spec_damage(
                self.spec_dot_prerand(potency, stat, speed_stat) as u64,
                dmg_ty,
                dmg_el,
            ),
            crit_chance: buffs.spec_crit_chance(self.spec_crit_chance() as u64) as u16,
            dhit_chance: buffs.spec_dhit_chance(self.spec_dhit_chance() as u64) as u16,
            crit_damage: self.spec_crit_damage() as u16,
        }
    }

    /// Runs six steps of a damage formula.
    fn six_steps(
        start: u64,
        f0: u64,
        f1: u64,
        f2: u64,
        f3: u64,
        f4: u64,
        f5: u64,
        d: (u64, u64, u64, u64, u64, u64),
        ds: Ghost<Seq<int>>,
        fs: Ghost<Seq<int>>,
    ) -> (r: u64)
        requires
            fs@ == seq![f0 as int, f1 as int, f2 as int, f3 as int, f4 as int, f5 as int],
            ds@ == seq![d.0 as int, d.1 as int, d.2 as int, d.3 as int, d.4 as int, d.5 as int],
            d.0 > 0 && d.1 > 0 && d.2 > 0 && d.3 > 0 && d.4 > 0 && d.5 > 0,
            steps_fit(start as int, fs@, ds@),
        ensures
            r == steps(start as int, fs@, ds@).last(),
    {
        let ghost f = fs@;
        let ghost dd = ds@;
        proof {
            assert(f.take(0) =~= Seq::<int>::empty());
            assert(dd.take(0) =~= Seq::<int>::empty());
            lemma_steps_next(start as int, f, dd, 0);
            lemma_steps_next(start as int, f, dd, 1);
            lemma_steps_next(start as int, f, dd, 2);
            lemma_steps_next(start as int, f, dd, 3);
            lemma_steps_next(start as int, f, dd, 4);
            lemma_steps_next(start as int, f, dd, 5);
            lemma_steps_full(start as int, f, dd);
        }
        let s1 = step(start, f0, d.0);
        let s2 = step(s1, f1, d.1);
        let s3 = step(s2, f2, d.2);
        let s4 = step(s3, f3, d.3);
        let s5 = step(s4, f4, d.4);
        step(s5, f5, d.5)
    }

    /// Calculates the snapshot of a damage over time effect with a certain `potency`.
    ///
    /// The damage depends on the type of `stat` used, the job traits, and the `speed_stat`
    /// that the action was modified by. The stats used are this math's stats as changed
    /// by `buffs`. Healing magic cannot be used for a damage over time effect.
    pub fn dot_damage_snapshot<B: Buffs>(
        &self,
        potency: u64,
        dmg_ty: DamageType,
        dmg_el: DamageElement,
        stat: ActionStat,
        speed_stat: SpeedStat,
        buffs: &B,
    ) -> (r: EotSnapshot)
        requires
            self.spec_with_stats(buffs).dot_defined(potency, dmg_ty, dmg_el, stat, speed_stat, buffs),
        ensures
            r == self.spec_with_stats(buffs).spec_dot_snapshot(
                potency,
                dmg_ty,
                dmg_el,
                stat,
                speed_stat,
                buffs,
            ),
    {
        let this = self.with_stats(buffs);
        let atk = this.atk_damage(stat);
        let det = this.det_damage(false);
        let ten = this.ten_damage();
        let spd = this.speed_mod(speed_stat);
        let wd = this.wd_mod(stat);
        let tr = this.job_trait_mod();
        let steps = if stat == ActionStat::AttackMagic {
            Self::six_steps(
                potency,
                wd,
                atk,
                spd,
                det,
                ten,
                tr,
                (100, 100, 1000, 1000, 1000, 100),
                Ghost(Self::dot_divisors(stat)),
                Ghost(this.dot_factors(stat, speed_stat)),
            )
        } else {
            Self::six_steps(
                potency,
                atk,
                det,
                ten,
                spd,
                wd,
                tr,
                (100, 1000, 1000, 1000, 100, 100),
                Ghost(Self::dot_divisors(stat)),
                Ghost(this.dot_factors(stat, speed_stat)),
            )
        };
        let prerand = steps + if potency < 100 {
            1
        } else {
            0
        };
        EotSnapshot {
            base: buffs.damage(prerand, dmg_ty, dmg_el),
            crit_chance: buffs.crit_chance(this.crit_chance()) as u16,
            dhit_chance: buffs.dhit_chance(this.dhit_chance()) as u16,
            crit_damage: this.crit_damage() as u16,
        }
    }

    /// The factors of the damage formula of an auto attack, in order.
    pub open spec fn aa_factors(self, force_dh: bool) -> Seq<int> {
        seq![
            self.spec_atk_damage(ActionStat::AttackPower),
            self.spec_det_damage(force_dh),
            self.spec_ten_damage(),
            self.spec_speed_mod(SpeedStat::SkillSpeed),
            self.spec_aa_mod(),
            self.spec_job_trait_mod(),
        ]
    }

    /// The divisors matching [`aa_factors`](Self::aa_factors).
    pub open spec fn aa_divisors() -> Seq<int> {
        seq![100, 1000, 1000, 1000, 100, 100]
    }

    /// The damage of an auto attack before randomization, using this math's stats as they are.
    pub open spec fn spec_aa_prerand(self, potency: u64, force_dh: bool) -> int {
        steps(potency as int, self.aa_factors(force_dh), Self::aa_divisors()).last()
            + low_potency_bonus(potency)
    }

    /// The damage of an auto attack before the damage buffs, using this math's stats as they are.
    pub open spec fn spec_aa_prebuff<B: Buffs>(
        self,
        potency: u64,
        crit: HitTypeHandle,
        dhit: HitTypeHandle,
        rand: u64,
        buffs: &B,
    ) -> int {
        steps(
            self.spec_aa_prerand(potency, dhit == HitTypeHandle::Force),
            self.hit_factors(crit, dhit, rand, buffs),
            Self::hit_divisors(),
        ).last()
    }

    /// `true` if the damage of an auto attack can be computed with this math's stats.
    pub open spec fn aa_defined<B: Buffs>(
        self,
        potency: u64,
        dmg_ty: DamageType,
        dmg_el: DamageElement,
        crit: HitTypeHandle,
        dhit: HitTypeHandle,
        rand: u64,
        buffs: &B,
    ) -> bool {
        let force = dhit == HitTypeHandle::Force;
        &&& self.atk_damage_defined(ActionStat::AttackPower)
        &&& self.det_defined()
        &&& self.ten_defined()
        &&& self.speed_defined(SpeedStat::SkillSpeed)
        &&& self.crit_mod_defined(crit, buffs)
        &&& self.dhit_mod_defined(dhit, buffs)
        &&& steps_fit(potency as int, self.aa_factors(force), Self::aa_divisors())
        &&& self.spec_aa_prerand(potency, force) <= u64::MAX
        &&& steps_fit(
            self.spec_aa_prerand(potency, force),
            self.hit_factors(crit, dhit, rand, buffs),
            Self::hit_divisors(),
        )
        &&& buffs.damage_defined(
            self.spec_aa_prebuff(potency, crit, dhit, rand, buffs) as u64,
            dmg_ty,
            dmg_el,
        )
    }

    /// Calculates the damage an auto attack with a certain `potency` will do.
    ///
    /// The potency is 100 for ARC/BRD/MCH, and 110 for all other classes/jobs.
    /// `rand` is a random modifier between `9500` and `10500` inclusive.
    pub fn aa_damage<B: Buffs>(
        &self,
        potency: u64,
        dmg_ty: DamageType,
        dmg_el: DamageElement,
        crit: HitTypeHandle,
        dhit: HitTypeHandle,
        rand: u64,
        buffs: &B,
    ) -> (r: u64)
        requires
            self.spec_with_stats(buffs).aa_defined(potency, dmg_ty, dmg_el, crit, dhit, rand, buffs),
        ensures
            r == buffs.spec_damage(
                self.spec_with_stats(buffs).spec_aa_prebuff(potency, crit, dhit, rand, buffs) as u64,
                dmg_ty,
                dmg_el,
            ),
    {
        let this = self.with_stats(buffs);
        let atk = this.atk_damage(ActionStat::AttackPower);
        let det = this.det_damage(dhit.is_force());
        let ten = this.ten_damage();
        let sks = this.sks_mod();
        let aa = this.aa_mod();
        let tr = this.job_trait_mod();
        let steps = Self::six_steps(
            potency,
            atk,
            det,
            ten,
            sks,
            aa,
            tr,
            (100, 1000, 1000, 1000, 100, 100),
            Ghost(Self::aa_divisors()),
            Ghost(this.aa_factors(dhit == HitTypeHandle::Force)),
        );
        let prerand = steps + if potency < 100 {
            1
        } else {
            0
        };
        let prebuff = this.apply_hits(prerand, crit, dhit, rand, buffs);
        buffs.damage(prebuff, dmg_ty, dmg_el)
    }

    /// Calculates the cast or recast time in milliseconds of an action that uses
    /// `speed_stat`, where `base` is the base duration in milliseconds.
    pub fn action_cast_length<B: Buffs>(&self, base: u64, speed_stat: SpeedStat, buffs: &B) -> (r: u64)
        requires
            self.speed_defined(speed_stat),
            self.spec_speed_mod(speed_stat) <= 2000,
            base * (2000 - self.spec_speed_mod(speed_stat)) <= u64::MAX,
            buffs.haste_defined((base * (2000 - self.spec_speed_mod(speed_stat)) / 1000) as u64),
        ensures
            r == buffs.spec_haste((base * (2000 - self.spec_speed_mod(speed_stat)) / 1000) as u64),
    {
        let m = self.speed_mod(speed_stat);
        buffs.haste(base * (2000 - m) / 1000)
    }
}
/// The Determination modifier of a hit that is not a forced direct hit comes from
/// Determination alone, `140 * (det - main) / div + 1000`, whatever the Direct Hit
/// stat; a forced direct hit adds `140 * (dh - sub) / div` to it, so it is never lower.
pub proof fn lemma_det_damage_direct_hit(m: XivMath)
    requires
        m.det_defined(),
    ensures
        m.spec_det_damage(false) == 140 * (m.stats.det - m.lvl_main()) / m.lvl_div() + 1000,
        m.spec_det_damage(true) == m.spec_det_damage(false) + 140 * (m.stats.dh - m.lvl_sub())
            / m.lvl_div(),
        m.spec_det_damage(true) >= m.spec_det_damage(false),
{
    let x = 140 * (m.stats.dh - m.lvl_sub());
    assert(x * 1int == x);
    assert(x * 0int == 0);
    assert(x / m.lvl_div() >= 0) by (nonlinear_arith)
        requires
            x >= 0,
            m.lvl_div() > 0,
    ;
}

/// A physical damage over time tick before buffs is the potency taken through the
/// modifiers in turn, each a product with a floored division: Attack Damage over
/// `100`, Determination `140 * (det - main) / div + 1000` over `1000`, Tenacity over
/// `1000`, the speed modifier `130 * (speed - sub) / div + 1000` of the tick's speed
/// stat over `1000`, Weapon Damage over `100` and the job trait over `100`, plus `1`
/// below `100` potency.
pub proof fn lemma_physical_dot_chain(m: XivMath, potency: u64, speed_stat: SpeedStat)
    requires
        m.lvl_div() > 0,
    ensures
        m.spec_dot_prerand(potency, ActionStat::AttackPower, speed_stat) == potency
            * m.spec_atk_damage(ActionStat::AttackPower) / 100 * (140 * (m.stats.det - m.lvl_main())
            / m.lvl_div() + 1000) / 1000 * m.spec_ten_damage() / 1000 * (130 * ((match speed_stat {
            SpeedStat::SkillSpeed => m.stats.sks,
            SpeedStat::SpellSpeed => m.stats.sps,
        }) - m.lvl_sub()) / m.lvl_div() + 1000) / 1000 * m.spec_wd_mod(ActionStat::AttackPower) / 100
            * m.spec_job_trait_mod() / 100 + (if potency < 100 {
            1int
        } else {
            0int
        }),
{
    let x = 140 * (m.stats.dh - m.lvl_sub());
    assert(x * 0int == 0);
    let st = ActionStat::AttackPower;
    let a = m.spec_atk_damage(st);
    let b = m.spec_det_damage(false);
    let c = m.spec_ten_damage();
    let e = m.spec_speed_mod(speed_stat);
    let w = m.spec_wd_mod(st);
    let t = m.spec_job_trait_mod();
    let f = m.dot_factors(st, speed_stat);
    let d = XivMath::dot_divisors(st);
    let p = potency as int;
    assert(f =~= seq![a, b, c, e, w, t]);
    assert(d =~= seq![100int, 1000, 1000, 1000, 100, 100]);
    assert(seq![a, b, c, e, w, t].drop_last() =~= seq![a, b, c, e, w]);
    assert(seq![a, b, c, e, w].drop_last() =~= seq![a, b, c, e]);
    assert(seq![a, b, c, e].drop_last() =~= seq![a, b, c]);
    assert(seq![a, b, c].drop_last() =~= seq![a, b]);
    assert(seq![a, b].drop_last() =~= seq![a]);
    assert(seq![a].drop_last() =~= Seq::<int>::empty());
    assert(seq![100int, 1000, 1000, 1000, 100, 100].drop_last() =~= seq![100int, 1000, 1000, 1000, 100]);
    assert(seq![100int, 1000, 1000, 1000, 100].drop_last() =~= seq![100int, 1000, 1000, 1000]);
    assert(seq![100int, 1000, 1000, 1000].drop_last() =~= seq![100int, 1000, 1000]);
    assert(seq![100int, 1000, 1000].drop_last() =~= seq![100int, 1000]);
    assert(seq![100int, 1000].drop_last() =~= seq![100int]);
    assert(seq![100int].drop_last() =~= Seq::<int>::empty());
    let s1 = p * a / 100;
    let s2 = s1 * b / 1000;
    let s3 = s2 * c / 1000;
    let s4 = s3 * e / 1000;
    let s5 = s4 * w / 100;
    let s6 = s5 * t / 100;
    assert(steps(p, Seq::<int>::empty(), Seq::<int>::empty()).last() == p);
    assert(steps(p, seq![a], seq![100int]).last() == s1);
    assert(steps(p, seq![a, b], seq![100int, 1000]).last() == s2);
    assert(steps(p, seq![a, b, c], seq![100int, 1000, 1000]).last() == s3);
    assert(steps(p, seq![a, b, c, e], seq![100int, 1000, 1000, 1000]).last() == s4);
    assert(steps(p, seq![a, b, c, e, w], seq![100int, 1000, 1000, 1000, 100]).last() == s5);
    assert(steps(p, seq![a, b, c, e, w, t], seq![100int, 1000, 1000, 1000, 100, 100]).last() == s6);
    assert(0int / m.lvl_div() == 0);
    assert(b == 140 * (m.stats.det - m.lvl_main()) / m.lvl_div() + 1000);
}

/// A magical damage over time tick before buffs takes the potency through Weapon
/// Damage over `100`, Attack Damage over `100`, the speed modifier
/// `130 * (speed - sub) / div + 1000` of the tick's speed stat over `1000`,
/// Determination `140 * (det - main) / div + 1000` over `1000`, Tenacity over `1000`
/// and the job trait over `100`, each a product with a floored division, plus `1`
/// below `100` potency.
pub proof fn lemma_magical_dot_chain(m: XivMath, potency: u64, speed_stat: SpeedStat)
    requires
        m.lvl_div() > 0,
    ensures
        m.spec_dot_prerand(potency, ActionStat::AttackMagic, speed_stat) == potency
            * m.spec_wd_mod(ActionStat::AttackMagic) / 100 * m.spec_atk_damage(ActionStat::AttackMagic)
            / 100 * (130 * ((match speed_stat {
            SpeedStat::SkillSpeed => m.stats.sks,
            SpeedStat::SpellSpeed => m.stats.sps,
        }) - m.lvl_sub()) / m.lvl_div() + 1000) / 1000 * (140 * (m.stats.det - m.lvl_main())
            / m.lvl_div() + 1000) / 1000 * m.spec_ten_damage() / 1000 * m.spec_job_trait_mod() / 100
            + (if potency < 100 {
            1int
        } else {
            0int
        }),
{
    let x = 140 * (m.stats.dh - m.lvl_sub());
    assert(x * 0int == 0);
    let st = ActionStat::AttackMagic;
    let w = m.spec_wd_mod(st);
    let a = m.spec_atk_damage(st);
    let e = m.spec_speed_mod(speed_stat);
    let b = m.spec_det_damage(false);
    let c = m.spec_ten_damage();
    let t = m.spec_job_trait_mod();
    let f = m.dot_factors(st, speed_stat);
    let d = XivMath::dot_divisors(st);
    let p = potency as int;
    assert(f =~= seq![w, a, e, b, c, t]);
    assert(d =~= seq![100int, 100, 1000, 1000, 1000, 100]);
    assert(seq![w, a, e, b, c, t].drop_last() =~= seq![w, a, e, b, c]);
    assert(seq![w, a, e, b, c].drop_last() =~= seq![w, a, e, b]);
    assert(seq![w, a, e, b].drop_last() =~= seq![w, a, e]);
    assert(seq![w, a, e].drop_last() =~= seq![w, a]);
    assert(seq![w, a].drop_last() =~= seq![w]);
    assert(seq![w].drop_last() =~= Seq::<int>::empty());
    assert(seq![100int, 100, 1000, 1000, 1000, 100].drop_last() =~= seq![100int, 100, 1000, 1000, 1000]);
    assert(seq![100int, 100, 1000, 1000, 1000].drop_last() =~= seq![100int, 100, 1000, 1000]);
    assert(seq![100int, 100, 1000, 1000].drop_last() =~= seq![100int, 100, 1000]);
    assert(seq![100int, 100, 1000].drop_last() =~= seq![100int, 100]);
    assert(seq![100int, 100].drop_last() =~= seq![100int]);
    assert(seq![100int].drop_last() =~= Seq::<int>::empty());
    let s1 = p * w / 100;
    let s2 = s1 * a / 100;
    let s3 = s2 * e / 1000;
    let s4 = s3 * b / 1000;
    let s5 = s4 * c / 1000;
    let s6 = s5 * t / 100;
    assert(steps(p, Seq::<int>::empty(), Seq::<int>::empty()).last() == p);
    assert(steps(p, seq![w], seq![100int]).last() == s1);
    assert(steps(p, seq![w, a], seq![100int, 100]).last() == s2);
    assert(steps(p, seq![w, a, e], seq![100int, 100, 1000]).last() == s3);
    assert(steps(p, seq![w, a, e, b], seq![100int, 100, 1000, 1000]).last() == s4);
    assert(steps(p, seq![w, a, e, b, c], seq![100int, 100, 1000, 1000, 1000]).last() == s5);
    assert(steps(p, seq![w, a, e, b, c, t], seq![100int, 100, 1000, 1000, 1000, 100]).last() == s6);
    assert(0int / m.lvl_div() == 0);
    assert(b == 140 * (m.stats.det - m.lvl_main()) / m.lvl_div() + 1000);
}

} // verus!
