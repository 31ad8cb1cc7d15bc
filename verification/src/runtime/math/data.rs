//! Data tables for the game's math: job attribute modifiers, level constants,
//! and clan attribute bonuses.
use vstd::prelude::*;

use crate::runtime::enums::{spec_tank, Clan, Job};

verus! {

/// The attribute that a job's Attack Power uses: dexterity for the rogue, ninja
/// and physical ranged jobs, and strength otherwise.
pub open spec fn spec_attack_power(job: Job) -> JobField {
    match job {
        Job::ROG | Job::NIN | Job::ARC | Job::BRD | Job::MCH | Job::DNC => JobField::DEX,
        _ => JobField::STR,
    }
}

/// Returns the attribute that a job's Attack Power uses.
pub fn attack_power(job: Job) -> (r: JobField)
    ensures
        r == spec_attack_power(job),
{
    match job {
        Job::ROG | Job::NIN | Job::ARC | Job::BRD | Job::MCH | Job::DNC => JobField::DEX,
        _ => JobField::STR,
    }
}

/// A column of the job attribute table.
#[derive(Copy, Clone, Debug, PartialEq, Eq, Structural)]
pub enum JobField {
    /// Hit points.
    HP,
    /// Magic points.
    MP,
    /// Strength.
    STR,
    /// Vitality.
    VIT,
    /// Dexterity.
    DEX,
    /// Intelligence.
    INT,
    /// Mind.
    MND,
}

/// A column of the level table.
#[derive(Copy, Clone, Debug, PartialEq, Eq, Structural)]
pub enum LevelField {
    /// Magic points.
    MP,
    /// The base main stat.
    MAIN,
    /// The base substat.
    SUB,
    /// The divisor of substat formulas.
    DIV,
    /// Hit points.
    HP,
    /// Threat.
    THREAT,
}

/// A column of the clan attribute table.
#[derive(Copy, Clone, Debug, PartialEq, Eq, Structural)]
pub enum ClanField {
    /// Strength.
    STR,
    /// Vitality.
    VIT,
    /// Dexterity.
    DEX,
    /// Intelligence.
    INT,
    /// Mind.
    MND,
}

/// The Attack Damage modifier of a job at a level: `165` at level 80, rising by
/// `5 / 2` a level from `75` above level 50, `75` otherwise; tanks get `23 / 33`
/// of it.
pub open spec fn spec_atk_mod(job: Job, level: u8) -> u64 {
    let out: u64 = if level == 80 {
        165
    } else if level > 50 {
        ((level - 50) * 5 / 2 + 75) as u64
    } else {
        75
    };
    if spec_tank(job) {
        (23 * out / 33) as u64
    } else {
        out
    }
}

/// Returns the Attack Damage modifier of a job at a level.
pub fn atk_mod(job: Job, level: u8) -> (r: u64)
    ensures
        r == spec_atk_mod(job, level),
{
    let out: u64 = if level == 80 {
        165
    } else if level > 50 {
        ((level - 50) as u64 * 5) / 2 + 75
    } else {
        75
    };
    if job.tank() {
        (23 * out) / 33
    } else {
        out
    }
}

/// The row of the job attribute table for a job: `(hp, mp, str, vit, dex, intel, mnd)`.
pub open spec fn spec_job_row(job: Job) -> (u64, u64, u64, u64, u64, u64, u64) {
    match job {
        Job::GLA => (110, 49, 95, 100, 90, 50, 95),
        Job::PGL => (105, 34, 100, 95, 100, 45, 85),
        Job::MRD => (115, 28, 100, 100, 90, 30, 50),
        Job::LNC => (110, 39, 105, 100, 95, 40, 60),
        Job::ARC => (100, 69, 85, 95, 105, 80, 75),
        Job::CNJ => (100, 117, 50, 95, 100, 105, 105),
        Job::THM => (100, 123, 40, 95, 95, 105, 70),
        Job::PLD => (120, 59, 100, 110, 95, 60, 100),
        Job::MNK => (110, 43, 110, 100, 105, 50, 90),
        Job::WAR => (125, 38, 105, 110, 95, 40, 55),
        Job::DRG => (115, 49, 115, 105, 100, 45, 65),
        Job::BRD => (105, 79, 90, 100, 115, 85, 80),
        Job::WHM => (105, 124, 55, 100, 105, 105, 115),
        Job::BLM => (105, 129, 45, 100, 100, 115, 75),
        Job::ACN => (100, 110, 85, 95, 95, 105, 75),
        Job::SMN => (105, 111, 90, 100, 100, 115, 80),
        Job::SCH => (105, 119, 90, 100, 100, 105, 115),
        Job::ROG => (103, 38, 80, 95, 100, 60, 70),
        Job::NIN => (108, 48, 85, 100, 110, 65, 75),
        Job::MCH => (105, 79, 85, 100, 115, 80, 85),
        Job::DRK => (120, 79, 105, 110, 95, 60, 40),
        Job::AST => (105, 124, 50, 100, 100, 105, 115),
        Job::SAM => (109, 40, 112, 100, 108, 60, 50),
        Job::RDM => (105, 120, 55, 100, 105, 115, 110),
        Job::BLU => (105, 120, 70, 100, 110, 115, 105),
        Job::GNB => (120, 59, 100, 110, 95, 60, 100),
        Job::DNC => (105, 79, 90, 100, 115, 85, 80),
    }
}

/// The value in the job attribute table for a job and field.
pub open spec fn spec_job(job: Job, field: JobField) -> u64 {
    let (hp, mp, str, vit, dex, intel, mnd) = spec_job_row(job);
    match field {
        JobField::HP => hp,
        JobField::MP => mp,
        JobField::STR => str,
        JobField::VIT => vit,
        JobField::DEX => dex,
        JobField::INT => intel,
        JobField::MND => mnd,
    }
}

/// Returns the value in the job attribute table for a job and field.
pub fn job(j: Job, field: JobField) -> (r: u64)
    ensures
        r == spec_job(j, field),
{
    let (hp, mp, str, vit, dex, intel, mnd): (u64, u64, u64, u64, u64, u64, u64) = match j {
        Job::GLA => (110, 49, 95, 100, 90, 50, 95),
        Job::PGL => (105, 34, 100, 95, 100, 45, 85),
        Job::MRD => (115, 28, 100, 100, 90, 30, 50),
        Job::LNC => (110, 39, 105, 100, 95, 40, 60),
        Job::ARC => (100, 69, 85, 95, 105, 80, 75),
        Job::CNJ => (100, 117, 50, 95, 100, 105, 105),
        Job::THM => (100, 123, 40, 95, 95, 105, 70),
        Job::PLD => (120, 59, 100, 110, 95, 60, 100),
        Job::MNK => (110, 43, 110, 100, 105, 50, 90),
        Job::WAR => (125, 38, 105, 110, 95, 40, 55),
        Job::DRG => (115, 49, 115, 105, 100, 45, 65),
        Job::BRD => (105, 79, 90, 100, 115, 85, 80),
        Job::WHM => (105, 124, 55, 100, 105, 105, 115),
        Job::BLM => (105, 129, 45, 100, 100, 115, 75),
        Job::ACN => (100, 110, 85, 95, 95, 105, 75),
        Job::SMN => (105, 111, 90, 100, 100, 115, 80),
        Job::SCH => (105, 119, 90, 100, 100, 105, 115),
        Job::ROG => (103, 38, 80, 95, 100, 60, 70),
        Job::NIN => (108, 48, 85, 100, 110, 65, 75),
        Job::MCH => (105, 79, 85, 100, 115, 80, 85),
        Job::DRK => (120, 79, 105, 110, 95, 60, 40),
        Job::AST => (105, 124, 50, 100, 100, 105, 115),
        Job::SAM => (109, 40, 112, 100, 108, 60, 50),
        Job::RDM => (105, 120, 55, 100, 105, 115, 110),
        Job::BLU => (105, 120, 70, 100, 110, 115, 105),
        Job::GNB => (120, 59, 100, 110, 95, 60, 100),
        Job::DNC => (105, 79, 90, 100, 115, 85, 80),
    };
    match field {
        JobField::HP => hp,
        JobField::MP => mp,
        JobField::STR => str,
        JobField::VIT => vit,
        JobField::DEX => dex,
        JobField::INT => intel,
        JobField::MND => mnd,
    }
}

/// The value in the level table for a level and field.
///
/// Only level 80 is present in the table: every other level gives `0`.
pub open spec fn spec_level(level: u8, field: LevelField) -> u64 {
    if level != 80 {
        0
    } else {
        match field {
            LevelField::MP => 10000,
            LevelField::MAIN => 340,
            LevelField::SUB => 380,
            LevelField::DIV => 1300,
            LevelField::HP => 4400,
            LevelField::THREAT => 569,
        }
    }
}

/// Returns the value in the level table for a level and field.
pub fn level(lvl: u8, field: LevelField) -> (r: u64)
    ensures
        r == spec_level(lvl, field),
{
    if lvl != 80 {
        return 0;
    }
    match field {
        LevelField::MP => 10000,
        LevelField::MAIN => 340,
        LevelField::SUB => 380,
        LevelField::DIV => 1300,
        LevelField::HP => 4400,
        LevelField::THREAT => 569,
    }
}

/// The row of the clan attribute table for a clan: `(str, dex, vit, intel, mnd)`.
pub open spec fn spec_clan_row(clan: Clan) -> (i8, i8, i8, i8, i8) {
    match clan {
        Clan::SeaWolves => (2i8, -1i8, 3i8, -2i8, 1i8),
        Clan::Hellsguard => (0i8, -2i8, 3i8, 0i8, 2i8),
        Clan::Highlander => (3i8, 2i8, 0i8, -2i8, 0i8),
        Clan::Midlander => (2i8, -1i8, 0i8, 3i8, -1i8),
        Clan::Wildwood => (0i8, 3i8, -1i8, 2i8, -1i8),
        Clan::Duskwight => (0i8, 0i8, -1i8, 3i8, 1i8),
        Clan::Sun => (2i8, 3i8, 0i8, -1i8, -1i8),
        Clan::Moon => (-1i8, 2i8, -2i8, 1i8, 3i8),
        Clan::Plainsfolk => (-1i8, 1i8, -1i8, 2i8, 2i8),
        Clan::Dunesfolk => (-1i8, -1i8, -2i8, 4i8, 3i8),
        Clan::Xaela => (3i8, 0i8, 2i8, 0i8, -2i8),
        Clan::Raen => (-1i8, 2i8, -1i8, 0i8, 3i8),
        Clan::Rava => (0i8, 3i8, -2i8, 1i8, 1i8),
        Clan::Veena => (-1i8, 0i8, -1i8, 3i8, 2i8),
        Clan::Helion => (3i8, -3i8, 3i8, -3i8, 3i8),
        Clan::TheLost => (3i8, -3i8, 3i8, -3i8, 3i8),
    }
}

/// The value in the clan attribute table for a clan and field.
pub open spec fn spec_clan(clan: Clan, field: ClanField) -> i8 {
    let (str, dex, vit, intel, mnd) = spec_clan_row(clan);
    match field {
        ClanField::STR => str,
        ClanField::VIT => vit,
        ClanField::DEX => dex,
        ClanField::INT => intel,
        ClanField::MND => mnd,
    }
}

/// Returns the value in the clan attribute table for a clan and field.
pub fn clan(c: Clan, field: ClanField) -> (r: i8)
    ensures
        r == spec_clan(c, field),
{
    let (str, dex, vit, intel, mnd): (i8, i8, i8, i8, i8) = match c {
        Clan::SeaWolves => (2i8, -1i8, 3i8, -2i8, 1i8),
        Clan::Hellsguard => (0i8, -2i8, 3i8, 0i8, 2i8),
        Clan::Highlander => (3i8, 2i8, 0i8, -2i8, 0i8),
        Clan::Midlander => (2i8, -1i8, 0i8, 3i8, -1i8),
        Clan::Wildwood => (0i8, 3i8, -1i8, 2i8, -1i8),
        Clan::Duskwight => (0i8, 0i8, -1i8, 3i8, 1i8),
        Clan::Sun => (2i8, 3i8, 0i8, -1i8, -1i8),
        Clan::Moon => (-1i8, 2i8, -2i8, 1i8, 3i8),
        Clan::Plainsfolk => (-1i8, 1i8, -1i8, 2i8, 2i8),
        Clan::Dunesfolk => (-1i8, -1i8, -2i8, 4i8, 3i8),
        Clan::Xaela => (3i8, 0i8, 2i8, 0i8, -2i8),
        Clan::Raen => (-1i8, 2i8, -1i8, 0i8, 3i8),
        Clan::Rava => (0i8, 3i8, -2i8, 1i8, 1i8),
        Clan::Veena => (-1i8, 0i8, -1i8, 3i8, 2i8),
        Clan::Helion => (3i8, -3i8, 3i8, -3i8, 3i8),
        Clan::TheLost => (3i8, -3i8, 3i8, -3i8, 3i8),
    };
    match field {
        ClanField::STR => str,
        ClanField::VIT => vit,
        ClanField::DEX => dex,
        ClanField::INT => intel,
        ClanField::MND => mnd,
    }
}

} // verus!
