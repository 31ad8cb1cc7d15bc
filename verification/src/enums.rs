//! Various enums for data used in the crate.
use vstd::prelude::*;

use crate::math::ActionStat;

verus! {

/// Clans that a character can be.
#[derive(Copy, Clone, Debug, PartialEq, Eq, Structural)]
pub enum Clan {
    /// The Sea Wolves Roegadyn clan.
    SeaWolves,
    /// The Hellsguard Roegadyn clan.
    Hellsguard,
    /// The Highlander Hyur clan.
    Highlander,
    /// The Midlander Hyur clan.
    Midlander,
    /// The Wildwood Elezen clan.
    Wildwood,
    /// The Duskwight Elezen clan.
    Duskwight,
    /// The Seeker of the Sun Miqo'te clan.
    Sun,
    /// The Keeper of the Moon Miqo'te clan.
    Moon,
    /// The Plainsfolk Lalafell clan.
    Plainsfolk,
    /// The Dunesfolk Lalafell clan.
    Dunesfolk,
    /// The Xaela Au Ra clan.
    Xaela,
    /// The Raen Au Ra clan.
    Raen,
    /// The Rava Viera clan.
    Rava,
    /// The Veena Viera clan.
    Veena,
    /// The Helion Hrothgar clan.
    Helion,
    /// The Lost Hrothgar clan.
    TheLost,
}

/// The human readable name of a clan's base race.
pub open spec fn spec_race_name(c: Clan) -> Seq<char> {
    match c {
        Clan::SeaWolves | Clan::Hellsguard => "Roegadyn"@,
        Clan::Highlander | Clan::Midlander => "Hyur"@,
        Clan::Wildwood | Clan::Duskwight => "Elezen"@,
        Clan::Sun | Clan::Moon => "Miqo'te"@,
        Clan::Plainsfolk | Clan::Dunesfolk => "Lalafell"@,
        Clan::Xaela | Clan::Raen => "Au Ra"@,
        Clan::Rava | Clan::Veena => "Viera"@,
        Clan::Helion | Clan::TheLost => "Hrothgar"@,
    }
}

/// The human readable name of a clan.
pub open spec fn spec_clan_name(c: Clan) -> Seq<char> {
    match c {
        Clan::SeaWolves => "Sea Wolves"@,
        Clan::Hellsguard => "Hellsguard"@,
        Clan::Highlander => "Highlander"@,
        Clan::Midlander => "Midlander"@,
        Clan::Wildwood => "Wildwood"@,
        Clan::Duskwight => "Duskwight"@,
        Clan::Sun => "Seeker of the Sun"@,
        Clan::Moon => "Keeper of the Moon"@,
        Clan::Plainsfolk => "Plainsfolk"@,
        Clan::Dunesfolk => "Dunesfolk"@,
        Clan::Xaela => "Xaela"@,
        Clan::Raen => "Raen"@,
        Clan::Rava => "Rava"@,
        Clan::Veena => "Veena"@,
        Clan::Helion => "Helion"@,
        Clan::TheLost => "The Lost"@,
    }
}

impl Clan {
    /// Returns the human readable name of the clan's base race.
    pub fn race_name(&self) -> (r: &'static str)
        ensures
            r@ == spec_race_name(*self),
    {
        match self {
            Clan::SeaWolves | Clan::Hellsguard => "Roegadyn",
            Clan::Highlander | Clan::Midlander => "Hyur",
            Clan::Wildwood | Clan::Duskwight => "Elezen",
            Clan::Sun | Clan::Moon => "Miqo'te",
            Clan::Plainsfolk | Clan::Dunesfolk => "Lalafell",
            Clan::Xaela | Clan::Raen => "Au Ra",
            Clan::Rava | Clan::Veena => "Viera",
            Clan::Helion | Clan::TheLost => "Hrothgar",
        }
    }

    /// Returns the human readable name of the clan.
    pub fn clan_name(&self) -> (r: &'static str)
        ensures
            r@ == spec_clan_name(*self),
    {
        match self {
            Clan::SeaWolves => "Sea Wolves",
            Clan::Hellsguard => "Hellsguard",
            Clan::Highlander => "Highlander",
            Clan::Midlander => "Midlander",
            Clan::Wildwood => "Wildwood",
            Clan::Duskwight => "Duskwight",
            Clan::Sun => "Seeker of the Sun",
            Clan::Moon => "Keeper of the Moon",
            Clan::Plainsfolk => "Plainsfolk",
            Clan::Dunesfolk => "Dunesfolk",
            Clan::Xaela => "Xaela",
            Clan::Raen => "Raen",
            Clan::Rava => "Rava",
            Clan::Veena => "Veena",
            Clan::Helion => "Helion",
            Clan::TheLost => "The Lost",
        }
    }
}

/// Jobs that a character can be.
#[allow(non_camel_case_types)]
#[derive(Copy, Clone, Debug, PartialEq, Eq, Structural)]
pub enum Job {
    /// The tank class Gladiator.
    GLA,
    /// The melee DPS class Pugilist.
    PGL,
    /// The tank class Marauder.
    MRD,
    /// The melee DPS class Lancer.
    LNC,
    /// The physical ranged DPS class Archer.
    ARC,
    /// The healer class Conjurer.
    CNJ,
    /// The magical ranged DPS class Thaumaturge.
    THM,
    /// The tank job Paladin.
    PLD,
    /// The melee DPS job Monk.
    MNK,
    /// The tank job Warrior.
    WAR,
    /// The melee DPS job Dragoon.
    DRG,
    /// The physical ranged DPS job Bard.
    BRD,
    /// The healer job White Mage.
    WHM,
    /// The magical ranged DPS job Black Mage.
    BLM,
    /// The magical ranged DPS class Arcanist.
    ACN,
    /// The magical ranged DPS job Summoner.
    SMN,
    /// The healer job Scholar.
    SCH,
    /// The melee DPS class Rogue.
    ROG,
    /// The melee DPS job Ninja.
    NIN,
    /// The physical ranged DPS job Machinist.
    MCH,
    /// The tank job Dark Knight.
    DRK,
    /// The healer job Astrologian.
    AST,
    /// The melee DPS job Samurai.
    SAM,
    /// The magical ranged DPS job Red Mage.
    RDM,
    /// The limited magical ranged DPS job Blue Mage.
    BLU,
    /// The tank job Gunbreaker.
    GNB,
    /// The physical ranged DPS job Dancer.
    DNC,
    /// The melee DPS job Reaper.
    RPR,
    /// The healer job Sage.
    SGE,
}

/// The role a job or class belongs to.
#[derive(Copy, Clone, Debug, PartialEq, Eq, Structural)]
pub enum JobRole {
    /// A tank.
    Tank,
    /// A healer.
    Healer,
    /// A melee DPS.
    Melee,
    /// A physical ranged DPS.
    Ranged,
    /// A magical ranged DPS.
    Caster,
}

/// The role of every job and class.
pub open spec fn spec_job_role(j: Job) -> JobRole {
    match j {
        Job::GLA | Job::MRD | Job::PLD | Job::WAR | Job::DRK | Job::GNB => JobRole::Tank,
        Job::CNJ | Job::WHM | Job::SCH | Job::AST | Job::SGE => JobRole::Healer,
        Job::PGL | Job::LNC | Job::MNK | Job::DRG | Job::ROG | Job::NIN | Job::SAM
        | Job::RPR => JobRole::Melee,
        Job::ARC | Job::BRD | Job::MCH | Job::DNC => JobRole::Ranged,
        Job::THM | Job::BLM | Job::ACN | Job::SMN | Job::RDM | Job::BLU => JobRole::Caster,
    }
}

/// The human friendly name of every job and class.
pub open spec fn spec_job_name(j: Job) -> Seq<char> {
    match j {
        Job::GLA => "Gladiator"@,
        Job::PGL => "Pugilist"@,
        Job::MRD => "Marauder"@,
        Job::LNC => "Lancer"@,
        Job::ARC => "Archer"@,
        Job::CNJ => "Conjurer"@,
        Job::THM => "Thaumaturge"@,
        Job::PLD => "Paladin"@,
        Job::MNK => "Monk"@,
        Job::WAR => "Warrior"@,
        Job::DRG => "Dragoon"@,
        Job::BRD => "Bard"@,
        Job::WHM => "White Mage"@,
        Job::BLM => "Black Mage"@,
        Job::ACN => "Arcanist"@,
        Job::SMN => "Summoner"@,
        Job::SCH => "Scholar"@,
        Job::ROG => "Rogue"@,
        Job::NIN => "Ninja"@,
        Job::MCH => "Machinist"@,
        Job::DRK => "Dark Knight"@,
        Job::AST => "Astrologian"@,
        Job::SAM => "Samurai"@,
        Job::RDM => "Red Mage"@,
        Job::BLU => "Blue Mage"@,
        Job::GNB => "Gunbreaker"@,
        Job::DNC => "Dancer"@,
        Job::RPR => "Reaper"@,
        Job::SGE => "Sage"@,
    }
}

impl Job {
    /// Returns the role of the job.
    pub fn role(&self) -> (r: JobRole)
        ensures
            r == spec_job_role(*self),
    {
        match self {
            Job::GLA | Job::MRD | Job::PLD | Job::WAR | Job::DRK | Job::GNB => JobRole::Tank,
            Job::CNJ | Job::WHM | Job::SCH | Job::AST | Job::SGE => JobRole::Healer,
            Job::PGL | Job::LNC | Job::MNK | Job::DRG | Job::ROG | Job::NIN | Job::SAM
            | Job::RPR => JobRole::Melee,
            Job::ARC | Job::BRD | Job::MCH | Job::DNC => JobRole::Ranged,
            Job::THM | Job::BLM | Job::ACN | Job::SMN | Job::RDM | Job::BLU => JobRole::Caster,
        }
    }

    /// Returns `true` if the job is a tank.
    pub fn tank(&self) -> (r: bool)
        ensures
            r == (spec_job_role(*self) == JobRole::Tank),
    {
        matches!(self.role(), JobRole::Tank)
    }

    /// Returns `true` if the job is a healer.
    pub fn healer(&self) -> (r: bool)
        ensures
            r == (spec_job_role(*self) == JobRole::Healer),
    {
        matches!(self.role(), JobRole::Healer)
    }

    /// Returns `true` if the job is a melee DPS.
    pub fn melee(&self) -> (r: bool)
        ensures
            r == (spec_job_role(*self) == JobRole::Melee),
    {
        matches!(self.role(), JobRole::Melee)
    }

    /// Returns `true` if the job is a physical ranged DPS.
    pub fn ranged(&self) -> (r: bool)
        ensures
            r == (spec_job_role(*self) == JobRole::Ranged),
    {
        matches!(self.role(), JobRole::Ranged)
    }

    /// Returns `true` if the job is a magical ranged DPS.
    pub fn caster(&self) -> (r: bool)
        ensures
            r == (spec_job_role(*self) == JobRole::Caster),
    {
        matches!(self.role(), JobRole::Caster)
    }

    /// Returns `true` if the job is a limited job.
    pub fn limited(&self) -> (r: bool)
        ensures
            r == (*self == Job::BLU),
    {
        matches!(self, Job::BLU)
    }

    /// Returns `true` if the job has an associated soul crystal,
    /// that is, it is a job and not a base class.
    pub fn job(&self) -> (r: bool)
        ensures
            r == !(*self == Job::GLA || *self == Job::PGL || *self == Job::MRD || *self == Job::LNC
                || *self == Job::ARC || *self == Job::CNJ || *self == Job::THM || *self == Job::ACN
                || *self == Job::ROG),
    {
        !matches!(
            self,
            Job::GLA | Job::PGL | Job::MRD | Job::LNC | Job::ARC | Job::CNJ | Job::THM | Job::ACN
                | Job::ROG
        )
    }

    /// Returns the human friendly name of the job.
    pub fn name(&self) -> (r: &'static str)
        ensures
            r@ == spec_job_name(*self),
    {
        match self {
            Job::GLA => "Gladiator",
            Job::PGL => "Pugilist",
            Job::MRD => "Marauder",
            Job::LNC => "Lancer",
            Job::ARC => "Archer",
            Job::CNJ => "Conjurer",
            Job::THM => "Thaumaturge",
            Job::PLD => "Paladin",
            Job::MNK => "Monk",
            Job::WAR => "Warrior",
            Job::DRG => "Dragoon",
            Job::BRD => "Bard",
            Job::WHM => "White Mage",
            Job::BLM => "Black Mage",
            Job::ACN => "Arcanist",
            Job::SMN => "Summoner",
            Job::SCH => "Scholar",
            Job::ROG => "Rogue",
            Job::NIN => "Ninja",
            Job::MCH => "Machinist",
            Job::DRK => "Dark Knight",
            Job::AST => "Astrologian",
            Job::SAM => "Samurai",
            Job::RDM => "Red Mage",
            Job::BLU => "Blue Mage",
            Job::GNB => "Gunbreaker",
            Job::DNC => "Dancer",
            Job::RPR => "Reaper",
            Job::SGE => "Sage",
        }
    }

    /// Returns the stat the job attacks with: [`AttackMagic`] for healers and
    /// casters, and [`AttackPower`] for everyone else.
    ///
    /// [`AttackMagic`]: ActionStat::AttackMagic
    /// [`AttackPower`]: ActionStat::AttackPower
    pub fn attack_stat(&self) -> (r: ActionStat)
        ensures
            r == (if spec_job_role(*self) == JobRole::Healer || spec_job_role(*self)
                == JobRole::Caster {
                ActionStat::AttackMagic
            } else {
                ActionStat::AttackPower
            }),
    {
        match self.role() {
            JobRole::Healer | JobRole::Caster => ActionStat::AttackMagic,
            _ => ActionStat::AttackPower,
        }
    }
}

/// Elements that damage can be.
#[derive(Copy, Clone, Debug, PartialEq, Eq, Hash, Structural)]
pub enum DamageElement {
    /// No element.
    NoElement,
    /// Fire.
    Fire,
    /// Earth.
    Earth,
    /// Ice.
    Ice,
    /// Water.
    Water,
    /// Wind.
    Wind,
    /// Lightning.
    Lightning,
}

/// The types that damage can be.
#[derive(Copy, Clone, Debug, PartialEq, Eq, Hash, Structural)]
pub enum DamageType {
    /// Slashing physical damage.
    Slashing,
    /// Piercing physical damage.
    Piercing,
    /// Blunt physical damage.
    Blunt,
    /// Magical damage.
    Magical,
    /// Unique damage, also known as "Darkness" damage.
    Unique,
}

impl DamageType {
    /// Returns `true` if the damage type is physical.
    pub fn physical(&self) -> (r: bool)
        ensures
            r == (*self == DamageType::Slashing || *self == DamageType::Piercing || *self
                == DamageType::Blunt),
    {
        matches!(self, DamageType::Slashing | DamageType::Piercing | DamageType::Blunt)
    }

    /// Returns `true` if the damage type is magical.
    pub fn magical(&self) -> (r: bool)
        ensures
            r == (*self == DamageType::Magical),
    {
        matches!(self, DamageType::Magical)
    }

    /// Returns `true` if the damage type is unique.
    pub fn unique(&self) -> (r: bool)
        ensures
            r == (*self == DamageType::Unique),
    {
        matches!(self, DamageType::Unique)
    }
}

/// The category an action belongs to.
#[derive(Copy, Clone, Debug, PartialEq, Eq, Hash, Structural)]
pub enum ActionCategory {
    /// A weaponskill.
    Weaponskill,
    /// A spell.
    Spell,
    /// An ability.
    Ability,
}

impl ActionCategory {
    /// `true` if the category is a weaponskill or a spell.
    pub open spec fn skill_or_spell_spec(&self) -> bool {
        *self == ActionCategory::Weaponskill || *self == ActionCategory::Spell
    }

    /// Returns `true` if the category is a weaponskill or a spell.
    pub fn skill_or_spell(&self) -> (r: bool)
        ensures
            r == self.skill_or_spell_spec(),
    {
        matches!(self, ActionCategory::Weaponskill | ActionCategory::Spell)
    }
}

/// An instance of damage.
#[derive(Copy, Clone, Debug, PartialEq, Eq, Hash, Structural)]
pub struct DamageInstance {
    /// The damage.
    pub dmg: u64,
    /// The type of the damage.
    pub ty: DamageType,
    /// The element of the damage.
    pub el: DamageElement,
    /// The hit is a guaranteed critical hit.
    pub force_crit: bool,
    /// The hit is a guaranteed direct hit.
    pub force_dhit: bool,
}

/// A damage instance of `dmg` unique damage with no element and no guaranteed
/// hit type.
pub open spec fn spec_damage(dmg: u64) -> DamageInstance {
    DamageInstance {
        dmg,
        ty: DamageType::Unique,
        el: DamageElement::NoElement,
        force_crit: false,
        force_dhit: false,
    }
}

impl DamageInstance {
    /// Creates a basic damage instance from an amount of damage
    /// and the attack power stat used for the damage.
    pub fn basic(dmg: u64, stat: ActionStat) -> (r: Self)
        ensures
            r.dmg == dmg,
            r.el == DamageElement::NoElement,
            r.ty == (match stat {
                ActionStat::AttackMagic => DamageType::Magical,
                ActionStat::AttackPower => DamageType::Slashing,
                ActionStat::HealingMagic => DamageType::Unique,
            }),
    {
        DamageInstance {
            dmg,
            el: DamageElement::NoElement,
            ty: match stat {
                ActionStat::AttackMagic => DamageType::Magical,
                ActionStat::AttackPower => DamageType::Slashing,
                ActionStat::HealingMagic => DamageType::Unique,
            },
            force_crit: false,
            force_dhit: false,
        }
    }

    /// Creates a damage instance of `dmg` unique damage with no element and no
    /// guaranteed hit type.
    pub fn new(dmg: u64) -> (r: Self)
        ensures
            r == spec_damage(dmg),
    {
        DamageInstance {
            dmg,
            ty: DamageType::Unique,
            el: DamageElement::NoElement,
            force_crit: false,
            force_dhit: false,
        }
    }

    /// Makes the damage slashing damage.
    pub fn slashing(self) -> (r: Self)
        ensures
            r == (DamageInstance { ty: DamageType::Slashing, ..self }),
    {
        DamageInstance { ty: DamageType::Slashing, ..self }
    }

    /// Makes the damage piercing damage.
    pub fn piercing(self) -> (r: Self)
        ensures
            r == (DamageInstance { ty: DamageType::Piercing, ..self }),
    {
        DamageInstance { ty: DamageType::Piercing, ..self }
    }

    /// Makes the damage magical damage.
    pub fn magical(self) -> (r: Self)
        ensures
            r == (DamageInstance { ty: DamageType::Magical, ..self }),
    {
        DamageInstance { ty: DamageType::Magical, ..self }
    }

    /// Makes the hit a guaranteed critical hit.
    pub fn force_crit(self) -> (r: Self)
        ensures
            r == (DamageInstance { force_crit: true, ..self }),
    {
        DamageInstance { force_crit: true, ..self }
    }

    /// Makes the hit a guaranteed direct hit.
    pub fn force_dhit(self) -> (r: Self)
        ensures
            r == (DamageInstance { force_dhit: true, ..self }),
    {
        DamageInstance { force_dhit: true, ..self }
    }

    /// Applies a damage falloff to the damage: only `falloff` percent of it is kept.
    pub fn falloff(self, falloff: u8) -> (r: Self)
        requires
            self.dmg * falloff <= u64::MAX,
        ensures
            r == (DamageInstance { dmg: (self.dmg * falloff / 100) as u64, ..self }),
    {
        DamageInstance { dmg: self.dmg * (falloff as u64) / 100, ..self }
    }
}

} // verus!
