//! The game's math: the damage, speed and regeneration formulas of a player.
use vstd::prelude::*;

use crate::math::{lemma_steps_full, lemma_steps_next, step, steps, steps_fit};

use self::data::{
    spec_atk_mod, spec_attack_power, spec_job, spec_level, JobField, LevelField,
};
use super::enums::{spec_healer, spec_tank, Clan, Job};

/// Data tables for the game's math.
pub mod data;

verus! {

/// Player main & substats, as shown in game.
#[derive(Copy, Clone, Debug)]
pub struct PlayerStats {
    /// The Strength main stat.
    pub str: u16,
    /// The Vitality main stat.
    pub vit: u16,
    /// The Dexterity main stat.
    pub dex: u16,
    /// The Intelligence main stat.
    pub intel: u16,
    /// The Mind main stat.
    pub mnd: u16,
    /// The Determination substat.
    pub det: u16,
    /// The Critical Hit substat.
    pub crt: u16,
    /// The Direct Hit substat.
    pub dh: u16,
    /// The Skill Speed substat.
    pub sks: u16,
    /// The Spell Speed substat.
    pub sps: u16,
    /// The Tenacity substat.
    pub ten: u16,
    /// The Piety substat.
    pub pie: u16,
}

/// The clan, job and level of a player.
#[derive(Copy, Clone, Debug)]
pub struct PlayerInfo {
    /// The clan.
    pub clan: Clan,
    /// The job.
    pub job: Job,
    /// The level.
    pub lvl: u8,
}

/// The stats of a weapon.
#[derive(Copy, Clone, Debug)]
pub struct WeaponInfo {
    /// Physical damage.
    pub phys_dmg: u16,
    /// Magic damage.
    pub magic_dmg: u16,
    /// Auto-attack damage.
    pub auto: u16,
    /// Auto-attack delay.
    pub delay: u16,
}

/// The stats, weapon and identity of a player, which the formulas read.
#[derive(Copy, Clone, Debug)]
pub struct XivMath {
    /// The player's stats.
    pub stats: PlayerStats,
    /// The player's weapon.
    pub weapon: WeaponInfo,
    /// The player's clan, job and level.
    pub info: PlayerInfo,
}

/// The stat that scales an action.
#[derive(Copy, Clone, Debug, PartialEq, Eq, Structural)]
pub enum ActionStat {
    /// Physical damage.
    AttackPower,
    /// Magical damage.
    AttackMagic,
    /// Healing.
    HealingMagic,
}

/// The stat that scales a duration.
#[derive(Copy, Clone, Debug, PartialEq, Eq, Structural)]
pub enum SpeedStat {
    /// Spell Speed.
    SpellSpeed,
    /// Skill Speed.
    SkillSpeed,
}

/// How a Critical or Direct Hit is counted.
#[derive(Copy, Clone, Debug, PartialEq, Eq, Structural)]
pub enum CDHHandle {
    /// By its average: the multiplier weighted by the chance.
    Avg,
    /// It happens.
    Yes,
    /// It does not happen.
    No,
}

/// A duration scaled by a speed modifier: `base` times `2000 - speed`, over `1000`.
///
/// The modifier is scaled by `1000`: `1000` keeps the duration, and every point
/// above shortens it by a thousandth. This linear scaling is this library's own
/// choice of formula, not taken from the game's rounding steps; the Gunbreaker
/// simulation uses it for the global cooldown of its actions.
pub open spec fn spec_speed_calc(speed: u64, base: u64) -> int {
    base * (2000 - speed) / 1000
}

/// Returns a duration scaled by a speed modifier, scaled by `1000`.
pub fn speed_calc(speed: u64, base: u64) -> (r: u64)
    requires
        speed <= 2000,
        base <= 1_000_000_000,
    ensures
        r == spec_speed_calc(speed, base),
        r <= 2 * base,
{
    let m = 2000 - speed;
    proof {
        assert(base * m <= base * 2000) by (nonlinear_arith)
            requires
                m <= 2000,
        ;
        assert(base * m / 1000 <= 2 * base) by (nonlinear_arith)
            requires
                base * m <= base * 2000,
        ;
    }
    base * m / 1000
}

/// Runs the steps of a formula: the running value times each factor, divided by
/// the matching divisor, in order.
fn run_steps(start: u64, f: Vec<u64>, d: Vec<u64>) -> (r: u64)
    requires
        f@.len() == d@.len(),
        forall|i: int| 0 <= i < d@.len() ==> d@[i] > 0,
        steps_fit(start as int, f@.map_values(|x: u64| x as int), d@.map_values(|x: u64| x as int)),
    ensures
        r == steps(start as int, f@.map_values(|x: u64| x as int), d@.map_values(|x: u64| x as int)).last(),
{
    let ghost fs = f@.map_values(|x: u64| x as int);
    let ghost ds = d@.map_values(|x: u64| x as int);
    let mut acc = start;
    let mut i: usize = 0;
    proof {
        assert(fs.take(0) =~= Seq::<int>::empty());
        assert(ds.take(0) =~= Seq::<int>::empty());
    }
    while i < f.len()
        invariant
            f@.len() == d@.len(),
            fs == f@.map_values(|x: u64| x as int),
            ds == d@.map_values(|x: u64| x as int),
            forall|j: int| 0 <= j < d@.len() ==> d@[j] > 0,
            steps_fit(start as int, fs, ds),
            i <= f@.len(),
            acc == steps(start as int, fs.take(i as int), ds.take(i as int)).last(),
        decreases f@.len() - i,
    {
        proof {
            lemma_steps_next(start as int, fs, ds, i as int);
            assert(fs[i as int] == f@[i as int]);
            assert(ds[i as int] == d@[i as int]);
        }
        acc = step(acc, f[i], d[i]);
        i = i + 1;
    }
    proof {
        lemma_steps_full(start as int, fs, ds);
    }
    acc
}

impl XivMath {
    /// The level table's value for this player's level.
    pub open spec fn lvl(self, field: LevelField) -> int {
        spec_level(self.info.lvl, field) as int
    }

    /// `true` when the level is in the table.
    pub open spec fn level_known(self) -> bool {
        self.lvl(LevelField::DIV) > 0 && self.lvl(LevelField::MAIN) > 0
    }

    /// The Attack Power stat.
    pub open spec fn spec_attack_power(self) -> int {
        match spec_attack_power(self.info.job) {
            JobField::DEX => self.stats.dex as int,
            _ => self.stats.str as int,
        }
    }

    /// The Attack Magic stat: Mind for healers, Intelligence otherwise.
    pub open spec fn spec_attack_magic(self) -> int {
        if spec_healer(self.info.job) {
            self.stats.mnd as int
        } else {
            self.stats.intel as int
        }
    }

    /// The speed modifier of a speed stat.
    pub open spec fn spec_speed_mod(self, stat: SpeedStat) -> int {
        match stat {
            SpeedStat::SkillSpeed => self.spec_sks_mod(),
            SpeedStat::SpellSpeed => self.spec_sps_mod(),
        }
    }

    /// The Critical Hit multiplier of a handling, scaled by `1000`.
    pub open spec fn spec_crt_mod(self, handle: CDHHandle) -> int {
        match handle {
            CDHHandle::Yes => self.spec_crt_damage(),
            CDHHandle::No => 1000,
            CDHHandle::Avg => 1000 + (self.spec_crt_damage() - 1000) * self.spec_crt_chance() / 1000,
        }
    }

    /// The Direct Hit multiplier of a handling, scaled by `1000`.
    pub open spec fn spec_dh_mod(self, handle: CDHHandle) -> int {
        match handle {
            CDHHandle::Yes => 1250,
            CDHHandle::No => 1000,
            CDHHandle::Avg => 1000 + 250 * self.spec_dh_chance() / 1000,
        }
    }

    /// The main stat an action stat reads.
    pub open spec fn spec_main_stat(self, stat: ActionStat) -> int {
        match stat {
            ActionStat::AttackPower => self.spec_attack_power(),
            ActionStat::AttackMagic => self.spec_attack_magic(),
            ActionStat::HealingMagic => self.stats.mnd as int,
        }
    }

    /// The column of the job table an action stat reads.
    pub open spec fn stat_field(self, stat: ActionStat) -> JobField {
        match stat {
            ActionStat::AttackPower => spec_attack_power(self.info.job),
            ActionStat::AttackMagic => if spec_healer(self.info.job) {
                JobField::MND
            } else {
                JobField::INT
            },
            ActionStat::HealingMagic => JobField::MND,
        }
    }

    /// The Weapon Damage modifier of an action stat.
    pub open spec fn spec_wd_mod(self, stat: ActionStat) -> int {
        self.lvl(LevelField::MAIN) * spec_job(self.info.job, self.stat_field(stat)) / 1000 + if stat
            == ActionStat::AttackPower {
            self.weapon.phys_dmg as int
        } else {
            self.weapon.magic_dmg as int
        }
    }

    /// The Attack Damage modifier of an action stat, scaled by `100`.
    pub open spec fn spec_atk_damage(self, stat: ActionStat) -> int {
        spec_atk_mod(self.info.job, self.info.lvl) * (self.spec_main_stat(stat) - self.lvl(
            LevelField::MAIN,
        )) / self.lvl(LevelField::MAIN) + 100
    }

    /// The Determination multiplier, scaled by `1000`.
    pub open spec fn spec_det_damage(self) -> int {
        130 * (self.stats.det - self.lvl(LevelField::MAIN)) / self.lvl(LevelField::DIV) + 1000
    }

    /// The Tenacity multiplier, scaled by `1000`: `1000` for jobs that are not tanks.
    pub open spec fn spec_ten_damage(self) -> int {
        if spec_tank(self.info.job) {
            100 * (self.stats.ten - self.lvl(LevelField::SUB)) / self.lvl(LevelField::DIV) + 1000
        } else {
            1000
        }
    }

    /// The Critical Hit damage multiplier, scaled by `1000`.
    pub open spec fn spec_crt_damage(self) -> int {
        200 * (self.stats.crt - self.lvl(LevelField::SUB)) / self.lvl(LevelField::DIV) + 1400
    }

    /// The Critical Hit chance, scaled by `1000`.
    pub open spec fn spec_crt_chance(self) -> int {
        200 * (self.stats.crt - self.lvl(LevelField::SUB)) / self.lvl(LevelField::DIV) + 50
    }

    /// The Direct Hit chance, scaled by `1000`.
    pub open spec fn spec_dh_chance(self) -> int {
        550 * (self.stats.dh - self.lvl(LevelField::SUB)) / self.lvl(LevelField::DIV)
    }

    /// The Skill Speed modifier, scaled by `1000`.
    pub open spec fn spec_sks_mod(self) -> int {
        130 * (self.stats.sks - self.lvl(LevelField::SUB)) / self.lvl(LevelField::DIV) + 1000
    }

    /// The Spell Speed modifier, scaled by `1000`.
    pub open spec fn spec_sps_mod(self) -> int {
        130 * (self.stats.sps - self.lvl(LevelField::SUB)) / self.lvl(LevelField::DIV) + 1000
    }

    /// The MP regenerated per tick: `200`, plus a Piety bonus for healers.
    pub open spec fn spec_mp_regen(self) -> int {
        if spec_healer(self.info.job) {
            150 * (self.stats.pie - self.lvl(LevelField::MAIN)) / self.lvl(LevelField::DIV) + 200
        } else {
            200
        }
    }

    /// The auto-attack modifier.
    pub open spec fn spec_aa_mod(self) -> int {
        (self.lvl(LevelField::MAIN) * spec_job(self.info.job, spec_attack_power(self.info.job)) / 1000
            + self.weapon.phys_dmg) * self.weapon.delay / 300
    }

    /// `true` when the substats at or above their base can be read.
    pub open spec fn subs_defined(self) -> bool {
        &&& self.level_known()
        &&& self.stats.crt >= self.lvl(LevelField::SUB)
        &&& self.stats.dh >= self.lvl(LevelField::SUB)
    }

    /// The factors of the direct damage formula, in order.
    pub open spec fn action_factors(self, stat: ActionStat, traits: u64, crit: CDHHandle, dhit: CDHHandle, rand: u64) -> Seq<int> {
        seq![
            self.spec_atk_damage(stat),
            self.spec_det_damage(),
            1,
            self.spec_ten_damage(),
            self.spec_wd_mod(stat),
            traits as int,
            self.spec_crt_mod(crit),
            self.spec_dh_mod(dhit),
            rand as int,
        ]
    }

    /// The divisors of the direct damage formula, in order.
    pub open spec fn action_divisors() -> Seq<int> {
        seq![1, 100, 1000, 1000, 100, 100, 1000, 1000, 10000]
    }

    /// `true` when the stats the damage formulas read are at or above their base.
    pub open spec fn damage_defined(self, stat: ActionStat) -> bool {
        &&& self.subs_defined()
        &&& self.spec_main_stat(stat) >= self.lvl(LevelField::MAIN)
        &&& self.stats.det >= self.lvl(LevelField::MAIN)
        &&& spec_tank(self.info.job) ==> self.stats.ten >= self.lvl(LevelField::SUB)
    }

    /// The damage of a direct damage action before buffs.
    pub open spec fn spec_prebuff_action_damage(
        self,
        potency: u64,
        stat: ActionStat,
        traits: u64,
        crit: CDHHandle,
        dhit: CDHHandle,
        rand: u64,
    ) -> int {
        steps(potency as int, self.action_factors(stat, traits, crit, dhit, rand), Self::action_divisors()).last()
    }

    /// The factors of the damage over time formula before its `+ 1`, in order.
    pub open spec fn dot_factors(self, stat: ActionStat, traits: u64, speed_stat: SpeedStat) -> Seq<int> {
        seq![
            self.spec_atk_damage(stat),
            self.spec_det_damage(),
            1,
            self.spec_ten_damage(),
            self.spec_speed_mod(speed_stat),
            self.spec_wd_mod(stat),
            traits as int,
        ]
    }

    /// The divisors of the damage over time formula before its `+ 1`, in order.
    pub open spec fn dot_divisors() -> Seq<int> {
        seq![1, 100, 1000, 1000, 1000, 100, 100]
    }

    /// The factors of the damage over time formula after its `+ 1`, in order.
    pub open spec fn dot_hit_factors(self, crit: CDHHandle, dhit: CDHHandle, rand: u64) -> Seq<int> {
        seq![rand as int, self.spec_crt_mod(crit), self.spec_dh_mod(dhit)]
    }

    /// The divisors of the damage over time formula after its `+ 1`, in order.
    pub open spec fn dot_hit_divisors() -> Seq<int> {
        seq![10000, 1000, 1000]
    }

    /// The damage of a tick of damage over time before buffs.
    pub open spec fn spec_prebuff_dot_damage(
        self,
        potency: u64,
        stat: ActionStat,
        traits: u64,
        speed_stat: SpeedStat,
        crit: CDHHandle,
        dhit: CDHHandle,
        rand: u64,
    ) -> int {
        steps(
            steps(potency as int, self.dot_factors(stat, traits, speed_stat), Self::dot_divisors()).last() + 1,
            self.dot_hit_factors(crit, dhit, rand),
            Self::dot_hit_divisors(),
        ).last()
    }

    /// The factors of the auto-attack formula, in order.
    pub open spec fn aa_factors(self, traits: u64, crit: CDHHandle, dhit: CDHHandle, rand: u64) -> Seq<int> {
        seq![
            self.spec_atk_damage(ActionStat::AttackPower),
            self.spec_det_damage(),
            1,
            self.spec_ten_damage(),
            self.spec_sks_mod(),
            self.spec_aa_mod(),
            traits as int,
            self.spec_crt_mod(crit),
            self.spec_dh_mod(dhit),
            rand as int,
        ]
    }

    /// The divisors of the auto-attack formula, in order.
    pub open spec fn aa_divisors() -> Seq<int> {
        seq![1, 100, 1000, 1000, 1000, 100, 100, 1000, 1000, 10000]
    }

    /// The damage of an auto-attack before buffs.
    pub open spec fn spec_prebuff_aa_damage(
        self,
        potency: u64,
        traits: u64,
        crit: CDHHandle,
        dhit: CDHHandle,
        rand: u64,
    ) -> int {
        steps(potency as int, self.aa_factors(traits, crit, dhit, rand), Self::aa_divisors()).last()
    }

    /// The length of a cast: `(2000 - speed) * base / 100` times
    /// `(100 - buffs) * (100 - haste) / 100`, over `1000`.
    pub open spec fn spec_action_cast_length(self, base: u64, speed_stat: SpeedStat, buffs: u64, haste: u64) -> int {
        ((2000 - self.spec_speed_mod(speed_stat)) * base / 100) * ((100 - buffs) * (100 - haste) / 100)
            / 1000
    }
}


/// A nonnegative value divided by a positive one is no larger.
proof fn lemma_div_le(a: int, d: int)
    requires
        a >= 0,
        d >= 1,
    ensures
        0 <= a / d <= a,
{
    assert(0 <= a / d <= a) by (nonlinear_arith)
        requires
            a >= 0,
            d >= 1,
    ;
}

impl XivMath {
    /// `true` when the Critical and Direct Hit handlings can be computed: every
    /// handling but [`CDHHandle::No`] reads the Critical Hit stat, and the average
    /// reads the Direct Hit stat.
    pub open spec fn hits_defined(self, crit: CDHHandle, dhit: CDHHandle) -> bool {
        &&& crit != CDHHandle::No ==> self.stats.crt >= self.lvl(LevelField::SUB) && self.lvl(LevelField::DIV) > 0
        &&& dhit == CDHHandle::Avg ==> self.stats.dh >= self.lvl(LevelField::SUB) && self.lvl(LevelField::DIV) > 0
    }

    /// `true` when the multipliers of the damage formulas can be computed.
    pub open spec fn mods_defined(self, stat: ActionStat) -> bool {
        &&& self.lvl(LevelField::MAIN) > 0
        &&& self.lvl(LevelField::DIV) > 0
        &&& self.spec_main_stat(stat) >= self.lvl(LevelField::MAIN)
        &&& self.stats.det >= self.lvl(LevelField::MAIN)
        &&& spec_tank(self.info.job) ==> self.stats.ten >= self.lvl(LevelField::SUB)
    }

    /// `true` when a speed modifier can be computed.
    pub open spec fn speed_defined(self, stat: SpeedStat) -> bool {
        &&& self.lvl(LevelField::DIV) > 0
        &&& match stat {
            SpeedStat::SkillSpeed => self.stats.sks >= self.lvl(LevelField::SUB),
            SpeedStat::SpellSpeed => self.stats.sps >= self.lvl(LevelField::SUB),
        }
    }

    /// Creates the math of a player.
    pub fn new(stats: PlayerStats, weapon: WeaponInfo, info: PlayerInfo) -> (r: Self)
        ensures
            r == (XivMath { stats, weapon, info }),
    {
        XivMath { stats, weapon, info }
    }

    /// The level table's value for this player's level.
    fn lvl_exec(&self, field: LevelField) -> (r: u64)
        ensures
            r == self.lvl(field),
            r <= 10000,
    {
        data::level(self.info.lvl, field)
    }

    /// Returns the Attack Power stat.
    fn attack_power(&self) -> (r: u64)
        ensures
            r == self.spec_attack_power(),
    {
        match data::attack_power(self.info.job) {
            JobField::DEX => self.stats.dex as u64,
            _ => self.stats.str as u64,
        }
    }

    /// Returns the Attack Magic stat.
    fn attack_magic(&self) -> (r: u64)
        ensures
            r == self.spec_attack_magic(),
    {
        if self.info.job.healer() {
            self.stats.mnd as u64
        } else {
            self.stats.intel as u64
        }
    }

    /// Returns the Healing Magic stat.
    fn healing_magic(&self) -> (r: u64)
        ensures
            r == self.stats.mnd,
    {
        self.stats.mnd as u64
    }

    /// `k * (stat - base) / div + add`, the shape of every substat formula.
    fn sub_formula(k: u64, stat: u16, base: u64, div: u64, add: u64) -> (r: u64)
        requires
            k <= 1000,
            stat >= base,
            div > 0,
            add <= 10000,
        ensures
            r == k * (stat - base) / (div as int) + add,
            r <= 1000 * 65535 + 10000,
    {
        let x = stat as u64 - base;
        proof {
            assert(k * x <= 1000 * 65535) by (nonlinear_arith)
                requires
                    k <= 1000,
                    x <= 65535,
            ;
            lemma_div_le(k * x, div as int);
        }
        k * x / div + add
    }

    /// Returns the speed modifier of a speed stat.
    fn speed_mod(&self, stat: SpeedStat) -> (r: u64)
        requires
            self.speed_defined(stat),
        ensures
            r == self.spec_speed_mod(stat),
            r <= 1000 * 65535 + 10000,
    {
        match stat {
            SpeedStat::SkillSpeed => self.sks_mod(),
            SpeedStat::SpellSpeed => self.sps_mod(),
        }
    }

    /// Returns the Critical Hit multiplier of a handling, scaled by `1000`.
    fn crt_mod(&self, handle: CDHHandle) -> (r: u64)
        requires
            handle != CDHHandle::No ==> self.stats.crt >= self.lvl(LevelField::SUB) && self.lvl(LevelField::DIV) > 0,
        ensures
            r == self.spec_crt_mod(handle),
    {
        match handle {
            CDHHandle::Yes => self.crt_damage(),
            CDHHandle::No => 1000,
            CDHHandle::Avg => {
                let d = self.crt_damage();
                let c = self.crt_chance();
                proof {
                    assert((d - 1000) * c <= 100000000 * 100000000) by (nonlinear_arith)
                        requires
                            d - 1000 <= 100000000,
                            c <= 100000000,
                            d >= 1000,
                    ;
                    lemma_div_le((d - 1000) * c, 1000);
                }
                1000 + (d - 1000) * c / 1000
            },
        }
    }

    /// Returns the Direct Hit multiplier of a handling, scaled by `1000`.
    fn dh_mod(&self, handle: CDHHandle) -> (r: u64)
        requires
            handle == CDHHandle::Avg ==> self.stats.dh >= self.lvl(LevelField::SUB) && self.lvl(LevelField::DIV) > 0,
        ensures
            r == self.spec_dh_mod(handle),
    {
        match handle {
            CDHHandle::Yes => 1250,
            CDHHandle::No => 1000,
            CDHHandle::Avg => 1000 + 250 * self.dh_chance() / 1000,
        }
    }

    /// Returns the main stat an action stat reads.
    pub fn main_stat(&self, stat: ActionStat) -> (r: u64)
        ensures
            r == self.spec_main_stat(stat),
    {
        match stat {
            ActionStat::AttackPower => self.attack_power(),
            ActionStat::AttackMagic => self.attack_magic(),
            ActionStat::HealingMagic => self.healing_magic(),
        }
    }

    /// Returns the Weapon Damage modifier of an action stat.
    pub fn wd_mod(&self, stat: ActionStat) -> (r: u64)
        ensures
            r == self.spec_wd_mod(stat),
    {
        let stat_field = match stat {
            ActionStat::AttackPower => data::attack_power(self.info.job),
            ActionStat::AttackMagic => if self.info.job.healer() {
                JobField::MND
            } else {
                JobField::INT
            },
            ActionStat::HealingMagic => JobField::MND,
        };
        let main = self.lvl_exec(LevelField::MAIN);
        let j = data::job(self.info.job, stat_field);
        proof {
            assert(main * j <= 10000 * 200) by (nonlinear_arith)
                requires
                    main <= 10000,
                    j <= 200,
            ;
        }
        main * j / 1000 + if let ActionStat::AttackPower = stat {
            self.weapon.phys_dmg as u64
        } else {
            self.weapon.magic_dmg as u64
        }
    }

    /// Returns the Attack Damage modifier of an action stat, scaled by `100`.
    pub fn atk_damage(&self, stat: ActionStat) -> (r: u64)
        requires
            self.lvl(LevelField::MAIN) > 0,
            self.spec_main_stat(stat) >= self.lvl(LevelField::MAIN),
        ensures
            r == self.spec_atk_damage(stat),
    {
        let lvl_main = self.lvl_exec(LevelField::MAIN);
        let m = data::atk_mod(self.info.job, self.info.lvl);
        let x = self.main_stat(stat) - lvl_main;
        proof {
            assert(m <= 1000);
            assert(m * x <= 1000 * 65535) by (nonlinear_arith)
                requires
                    m <= 1000,
                    x <= 65535,
            ;
            lemma_div_le(m * x, lvl_main as int);
        }
        m * x / lvl_main + 100
    }

    /// Returns the Determination multiplier, scaled by `1000`.
    pub fn det_damage(&self) -> (r: u64)
        requires
            self.lvl(LevelField::DIV) > 0,
            self.stats.det >= self.lvl(LevelField::MAIN),
        ensures
            r == self.spec_det_damage(),
    {
        Self::sub_formula(130, self.stats.det, self.lvl_exec(LevelField::MAIN), self.lvl_exec(LevelField::DIV), 1000)
    }

    /// Returns the Tenacity multiplier, scaled by `1000`.
    pub fn ten_damage(&self) -> (r: u64)
        requires
            spec_tank(self.info.job) ==> self.stats.ten >= self.lvl(LevelField::SUB) && self.lvl(LevelField::DIV) > 0,
        ensures
            r == self.spec_ten_damage(),
    {
        if self.info.job.tank() {
            Self::sub_formula(100, self.stats.ten, self.lvl_exec(LevelField::SUB), self.lvl_exec(LevelField::DIV), 1000)
        } else {
            1000
        }
    }

    /// Returns the Critical Hit damage multiplier, scaled by `1000`.
    pub fn crt_damage(&self) -> (r: u64)
        requires
            self.lvl(LevelField::DIV) > 0,
            self.stats.crt >= self.lvl(LevelField::SUB),
        ensures
            r == self.spec_crt_damage(),
            1400 <= r <= 1000 * 65535 + 10000,
    {
        Self::sub_formula(200, self.stats.crt, self.lvl_exec(LevelField::SUB), self.lvl_exec(LevelField::DIV), 1400)
    }

    /// Returns the Critical Hit chance, scaled by `1000`.
    pub fn crt_chance(&self) -> (r: u64)
        requires
            self.lvl(LevelField::DIV) > 0,
            self.stats.crt >= self.lvl(LevelField::SUB),
        ensures
            r == self.spec_crt_chance(),
            r <= 1000 * 65535 + 10000,
    {
        Self::sub_formula(200, self.stats.crt, self.lvl_exec(LevelField::SUB), self.lvl_exec(LevelField::DIV), 50)
    }

    /// Returns the Direct Hit chance, scaled by `1000`.
    pub fn dh_chance(&self) -> (r: u64)
        requires
            self.lvl(LevelField::DIV) > 0,
            self.stats.dh >= self.lvl(LevelField::SUB),
        ensures
            r == self.spec_dh_chance(),
            r <= 1000 * 65535 + 10000,
    {
        Self::sub_formula(550, self.stats.dh, self.lvl_exec(LevelField::SUB), self.lvl_exec(LevelField::DIV), 0)
    }

    /// Returns the Skill Speed modifier, scaled by `1000`.
    pub fn sks_mod(&self) -> (r: u64)
        requires
            self.lvl(LevelField::DIV) > 0,
            self.stats.sks >= self.lvl(LevelField::SUB),
        ensures
            r == self.spec_sks_mod(),
            r <= 1000 * 65535 + 10000,
    {
        Self::sub_formula(130, self.stats.sks, self.lvl_exec(LevelField::SUB), self.lvl_exec(LevelField::DIV), 1000)
    }

    /// Returns the Spell Speed modifier, scaled by `1000`.
    pub fn sps_mod(&self) -> (r: u64)
        requires
            self.lvl(LevelField::DIV) > 0,
            self.stats.sps >= self.lvl(LevelField::SUB),
        ensures
            r == self.spec_sps_mod(),
            r <= 1000 * 65535 + 10000,
    {
        Self::sub_formula(130, self.stats.sps, self.lvl_exec(LevelField::SUB), self.lvl_exec(LevelField::DIV), 1000)
    }

    /// Returns the MP regenerated per tick.
    pub fn mp_regen(&self) -> (r: u64)
        requires
            spec_healer(self.info.job) ==> self.stats.pie >= self.lvl(LevelField::MAIN) && self.lvl(LevelField::DIV) > 0,
        ensures
            r == self.spec_mp_regen(),
    {
        if self.info.job.healer() {
            Self::sub_formula(150, self.stats.pie, self.lvl_exec(LevelField::MAIN), self.lvl_exec(LevelField::DIV), 200)
        } else {
            200
        }
    }

    /// Returns the auto-attack modifier.
    pub fn aa_mod(&self) -> (r: u64)
        ensures
            r == self.spec_aa_mod(),
    {
        let main = self.lvl_exec(LevelField::MAIN);
        let j = data::job(self.info.job, data::attack_power(self.info.job));
        proof {
            assert(main * j <= 10000 * 200) by (nonlinear_arith)
                requires
                    main <= 10000,
                    j <= 200,
            ;
        }
        let w = main * j / 1000 + self.weapon.phys_dmg as u64;
        let delay = self.weapon.delay as u64;
        proof {
            assert(w * delay <= 3000000 * 65535) by (nonlinear_arith)
                requires
                    w <= 3000000,
                    delay <= 65535,
            ;
        }
        w * delay / 300
    }

    /// Returns the damage of a direct damage action before buffs.
    ///
    /// `traits` is the job's trait multiplier, scaled by `100`, and `rand` the
    /// random roll, scaled by `10000`.
    pub fn prebuff_action_damage(
        &self,
        potency: u64,
        stat: ActionStat,
        traits: u64,
        crit: CDHHandle,
        dhit: CDHHandle,
        rand: u64,
    ) -> (r: u64)
        requires
            self.mods_defined(stat),
            self.hits_defined(crit, dhit),
            steps_fit(potency as int, self.action_factors(stat, traits, crit, dhit, rand), Self::action_divisors()),
        ensures
            r == self.spec_prebuff_action_damage(potency, stat, traits, crit, dhit, rand),
    {
        let f = vec![
            self.atk_damage(stat),
            self.det_damage(),
            1,
            self.ten_damage(),
            self.wd_mod(stat),
            traits,
            self.crt_mod(crit),
            self.dh_mod(dhit),
            rand,
        ];
        let d: Vec<u64> = vec![1, 100, 1000, 1000, 100, 100, 1000, 1000, 10000];
        proof {
            assert(f@.map_values(|x: u64| x as int) =~= self.action_factors(stat, traits, crit, dhit, rand));
            assert(d@.map_values(|x: u64| x as int) =~= Self::action_divisors());
        }
        run_steps(potency, f, d)
    }

    /// Returns the damage of a tick of damage over time before buffs.
    ///
    /// `traits` is the job's trait multiplier, scaled by `100`, and `rand` the
    /// random roll, scaled by `10000`.
    pub fn prebuff_dot_damage(
        &self,
        potency: u64,
        stat: ActionStat,
        traits: u64,
        speed_stat: SpeedStat,
        crit: CDHHandle,
        dhit: CDHHandle,
        rand: u64,
    ) -> (r: u64)
        requires
            self.mods_defined(stat),
            self.speed_defined(speed_stat),
            self.hits_defined(crit, dhit),
            steps_fit(potency as int, self.dot_factors(stat, traits, speed_stat), Self::dot_divisors()),
            steps(potency as int, self.dot_factors(stat, traits, speed_stat), Self::dot_divisors()).last() + 1
                <= u64::MAX,
            steps_fit(
                steps(potency as int, self.dot_factors(stat, traits, speed_stat), Self::dot_divisors()).last() + 1,
                self.dot_hit_factors(crit, dhit, rand),
                Self::dot_hit_divisors(),
            ),
        ensures
            r == self.spec_prebuff_dot_damage(potency, stat, traits, speed_stat, crit, dhit, rand),
    {
        let f = vec![
            self.atk_damage(stat),
            self.det_damage(),
            1,
            self.ten_damage(),
            self.speed_mod(speed_stat),
            self.wd_mod(stat),
            traits,
        ];
        let d: Vec<u64> = vec![1, 100, 1000, 1000, 1000, 100, 100];
        proof {
            assert(f@.map_values(|x: u64| x as int) =~= self.dot_factors(stat, traits, speed_stat));
            assert(d@.map_values(|x: u64| x as int) =~= Self::dot_divisors());
        }
        let d2 = run_steps(potency, f, d) + 1;
        let f2 = vec![rand, self.crt_mod(crit), self.dh_mod(dhit)];
        let dd2: Vec<u64> = vec![10000, 1000, 1000];
        proof {
            assert(f2@.map_values(|x: u64| x as int) =~= self.dot_hit_factors(crit, dhit, rand));
            assert(dd2@.map_values(|x: u64| x as int) =~= Self::dot_hit_divisors());
        }
        run_steps(d2, f2, dd2)
    }

    /// Returns the damage of an auto-attack before buffs.
    ///
    /// `traits` is the job's trait multiplier, scaled by `100`, and `rand` the
    /// random roll, scaled by `10000`.
    pub fn prebuff_aa_damage(
        &self,
        potency: u64,
        traits: u64,
        crit: CDHHandle,
        dhit: CDHHandle,
        rand: u64,
    ) -> (r: u64)
        requires
            self.mods_defined(ActionStat::AttackPower),
            self.speed_defined(SpeedStat::SkillSpeed),
            self.hits_defined(crit, dhit),
            steps_fit(potency as int, self.aa_factors(traits, crit, dhit, rand), Self::aa_divisors()),
        ensures
            r == self.spec_prebuff_aa_damage(potency, traits, crit, dhit, rand),
    {
        let f = vec![
            self.atk_damage(ActionStat::AttackPower),
            self.det_damage(),
            1,
            self.ten_damage(),
            self.sks_mod(),
            self.aa_mod(),
            traits,
            self.crt_mod(crit),
            self.dh_mod(dhit),
            rand,
        ];
        let d: Vec<u64> = vec![1, 100, 1000, 1000, 1000, 100, 100, 1000, 1000, 10000];
        proof {
            assert(f@.map_values(|x: u64| x as int) =~= self.aa_factors(traits, crit, dhit, rand));
            assert(d@.map_values(|x: u64| x as int) =~= Self::aa_divisors());
        }
        run_steps(potency, f, d)
    }

    /// Returns the length of a cast of some base length, scaled by a speed stat,
    /// buffs and haste (both in percent).
    pub fn action_cast_length(&self, base: u64, speed_stat: SpeedStat, buffs: u64, haste: u64) -> (r: u64)
        requires
            self.speed_defined(speed_stat),
            self.spec_speed_mod(speed_stat) <= 2000,
            buffs <= 100,
            haste <= 100,
            (2000 - self.spec_speed_mod(speed_stat)) * base <= u64::MAX,
            ((2000 - self.spec_speed_mod(speed_stat)) * base / 100) * ((100 - buffs) * (100 - haste) / 100)
                <= u64::MAX,
        ensures
            r == self.spec_action_cast_length(base, speed_stat, buffs, haste),
    {
        let s = self.speed_mod(speed_stat);
        let g1 = (2000 - s) * base / 100;
        proof {
            assert((100 - buffs) * (100 - haste) <= 10000) by (nonlinear_arith)
                requires
                    buffs <= 100,
                    haste <= 100,
            ;
        }
        let g2 = (100 - buffs) * (100 - haste) / 100;
        g1 * g2 / 1000
    }
}

} // verus!
