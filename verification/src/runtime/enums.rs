//! Clans, jobs, and the kinds of damage.
use vstd::prelude::*;

verus! {

/// A clan of a playable race.
#[derive(Copy, Clone, Debug, PartialEq, Eq, Structural)]
pub enum Clan {
    /// The Sea Wolves clan of the Roegadyn.
    SeaWolves,
    /// The Hellguard clan of the Roegadyn.
    Hellsguard,
    /// The Highlander clan of the Hyur.
    Highlander,
    /// The Midlander clan of the Hyur.
    Midlander,
    /// The Wildwood clan of the Elezen.
    Wildwood,
    /// The Duskwight clan of the Elezen.
    Duskwight,
    /// The Seeker of the Sun clan of the Miqo'te.
    Sun,
    /// The Keeper of the Moon clan of the Miqo'te.
    Moon,
    /// The Plainsfolf clan of the Lalafell.
    Plainsfolk,
    /// The Dunesfolk clan of the Lalafell.
    Dunesfolk,
    /// The Xaela clan of the Au Ra.
    Xaela,
    /// The Raen clan of the Au Ra.
    Raen,
    /// The Rava clan of the Viera.
    Rava,
    /// The Veena clan of the Viera.
    Veena,
    /// The Helion clan of the Hrothgar.
    Helion,
    /// The The Lost clan of the Hrothgar.
    TheLost,
}

/// The name of the race of a clan.
pub open spec fn spec_race_name(c: Clan) -> Seq<char> {
    match c {
        Clan::SeaWolves => "Roegadyn"@,
        Clan::Hellsguard => "Roegadyn"@,
        Clan::Highlander => "Hyur"@,
        Clan::Midlander => "Hyur"@,
        Clan::Wildwood => "Elezen"@,
        Clan::Duskwight => "Elezen"@,
        Clan::Sun => "Miqo'te"@,
        Clan::Moon => "Miqo'te"@,
        Clan::Plainsfolk => "Lalafell"@,
        Clan::Dunesfolk => "Lalafell"@,
        Clan::Xaela => "Au Ra"@,
        Clan::Raen => "Au Ra"@,
        Clan::Rava => "Viera"@,
        Clan::Veena => "Viera"@,
        Clan::Helion => "Hrothgar"@,
        Clan::TheLost => "Hrothgar"@,
    }
}

/// The name of a clan.
pub open spec fn spec_clan_name(c: Clan) -> Seq<char> {
    match c {
        Clan::SeaWolves => "Sea Wolves"@,
        Clan::Hellsguard => "Hellguard"@,
        Clan::Highlander => "Highlander"@,
        Clan::Midlander => "Midlander"@,
        Clan::Wildwood => "Wildwood"@,
        Clan::Duskwight => "Duskwight"@,
        Clan::Sun => "Seeker of the Sun"@,
        Clan::Moon => "Keeper of the Moon"@,
        Clan::Plainsfolk => "Plainsfolf"@,
        Clan::Dunesfolk => "Dunesfolk"@,
        Clan::Xaela => "Xaela"@,
        Clan::Raen => "Raen"@,
        Clan::Rava => "Rava"@,
        Clan::Veena => "Veena"@,
        Clan::Helion => "Helion"@,
        Clan::TheLost => "The Lost"@,
    }
}

impl Clan {
    /// Returns the name of the race of the clan.
    pub fn race_name(&self) -> (r: &'static str)
        ensures
            r@ == spec_race_name(*self),
    {
        match self {
            Clan::SeaWolves => "Roegadyn",
            Clan::Hellsguard => "Roegadyn",
            Clan::Highlander => "Hyur",
            Clan::Midlander => "Hyur",
            Clan::Wildwood => "Elezen",
            Clan::Duskwight => "Elezen",
            Clan::Sun => "Miqo'te",
            Clan::Moon => "Miqo'te",
            Clan::Plainsfolk => "Lalafell",
            Clan::Dunesfolk => "Lalafell",
            Clan::Xaela => "Au Ra",
            Clan::Raen => "Au Ra",
            Clan::Rava => "Viera",
            Clan::Veena => "Viera",
            Clan::Helion => "Hrothgar",
            Clan::TheLost => "Hrothgar",
        }
    }

    /// Returns the name of the clan.
    pub fn clan_name(&self) -> (r: &'static str)
        ensures
            r@ == spec_clan_name(*self),
    {
        match self {
            Clan::SeaWolves => "Sea Wolves",
            Clan::Hellsguard => "Hellguard",
            Clan::Highlander => "Highlander",
            Clan::Midlander => "Midlander",
            Clan::Wildwood => "Wildwood",
            Clan::Duskwight => "Duskwight",
            Clan::Sun => "Seeker of the Sun",
            Clan::Moon => "Keeper of the Moon",
            Clan::Plainsfolk => "Plainsfolf",
            Clan::Dunesfolk => "Dunesfolk",
            Clan::Xaela => "Xaela",
            Clan::Raen => "Raen",
            Clan::Rava => "Rava",
            Clan::Veena => "Veena",
            Clan::Helion => "Helion",
            Clan::TheLost => "The Lost",
        }
    }
}

/// A job or class.
#[derive(Copy, Clone, Debug, PartialEq, Eq, Structural)]
pub enum Job {
    /// Gladiator.
    GLA,
    /// Pugilist.
    PGL,
    /// Marauder.
    MRD,
    /// Lancer.
    LNC,
    /// Archer.
    ARC,
    /// Conjurer.
    CNJ,
    /// Thaumaturge.
    THM,
    /// Paladin.
    PLD,
    /// Monk.
    MNK,
    /// Warrior.
    WAR,
    /// Dragoon.
    DRG,
    /// Bard.
    BRD,
    /// White Mage.
    WHM,
    /// Black Mage.
    BLM,
    /// Arcanist.
    ACN,
    /// Summoner.
    SMN,
    /// Scholar.
    SCH,
    /// Rogue.
    ROG,
    /// Ninja.
    NIN,
    /// Machinist.
    MCH,
    /// Dark Knight.
    DRK,
    /// Astrologian.
    AST,
    /// Samurai.
    SAM,
    /// Red Mage.
    RDM,
    /// Blue Mage.
    BLU,
    /// Gunbreaker.
    GNB,
    /// Dancer.
    DNC,
}

/// `true` for a tank job.
pub open spec fn spec_tank(j: Job) -> bool {
    match j {
        Job::GLA | Job::MRD | Job::PLD | Job::WAR | Job::DRK | Job::GNB => true,
        _ => false,
    }
}

/// `true` for a healer job.
pub open spec fn spec_healer(j: Job) -> bool {
    match j {
        Job::CNJ | Job::WHM | Job::SCH | Job::AST => true,
        _ => false,
    }
}

/// `true` for a melee DPS job.
pub open spec fn spec_melee(j: Job) -> bool {
    match j {
        Job::PGL | Job::MNK | Job::LNC | Job::DRG | Job::ROG | Job::NIN | Job::SAM => true,
        _ => false,
    }
}

/// `true` for a physical ranged DPS job.
pub open spec fn spec_phys_ranged(j: Job) -> bool {
    match j {
        Job::ARC | Job::BRD | Job::MCH | Job::DNC => true,
        _ => false,
    }
}

/// `true` for a caster job.
pub open spec fn spec_caster(j: Job) -> bool {
    match j {
        Job::THM | Job::BLM | Job::ACN | Job::SMN | Job::RDM | Job::BLU => true,
        _ => false,
    }
}

/// The name of a job.
pub open spec fn spec_job_name(j: Job) -> Seq<char> {
    match j {
        Job::GLA => "Gladiator"@,
        Job::PGL => "Pugilist"@,
        Job::MRD => "Marauder"@,
        Job::LNC => "Lancer"@,
        Job::ARC => "Archer"@,
        Job::CNJ => "Conjurer"@,
        Job::THM => "Thaumaturge"@,
        Job::PLD => "Paladin"@,
        Job::MNK => "Monk"@,
        Job::WAR => "Warrior"@,
        Job::DRG => "Dragoon"@,
        Job::BRD => "Bard"@,
        Job::WHM => "White Mage"@,
        Job::BLM => "Black Mage"@,
        Job::ACN => "Arcanist"@,
        Job::SMN => "Summoner"@,
        Job::SCH => "Scholar"@,
        Job::ROG => "Rogue"@,
        Job::NIN => "Ninja"@,
        Job::MCH => "Machinist"@,
        Job::DRK => "Dark Knight"@,
        Job::AST => "Astrologian"@,
        Job::SAM => "Samurai"@,
        Job::RDM => "Red Mage"@,
        Job::BLU => "Blue Mage"@,
        Job::GNB => "Gunbreaker"@,
        Job::DNC => "Dancer"@,
    }
}

impl Job {
    /// Returns `true` if the job is a tank.
    pub fn tank(&self) -> (r: bool)
        ensures
            r == spec_tank(*self),
    {
        match self {
            Job::GLA | Job::MRD | Job::PLD | Job::WAR | Job::DRK | Job::GNB => true,
            _ => false,
        }
    }

    /// Returns `true` if the job is a healer.
    pub fn healer(&self) -> (r: bool)
        ensures
            r == spec_healer(*self),
    {
        match self {
            Job::CNJ | Job::WHM | Job::SCH | Job::AST => true,
            _ => false,
        }
    }

    /// Returns `true` if the job is a melee DPS.
    pub fn melee(&self) -> (r: bool)
        ensures
            r == spec_melee(*self),
    {
        match self {
            Job::PGL | Job::MNK | Job::LNC | Job::DRG | Job::ROG | Job::NIN | Job::SAM => true,
            _ => false,
        }
    }

    /// Returns `true` if the job is a physical ranged DPS.
    pub fn phys_ranged(&self) -> (r: bool)
        ensures
            r == spec_phys_ranged(*self),
    {
        match self {
            Job::ARC | Job::BRD | Job::MCH | Job::DNC => true,
            _ => false,
        }
    }

    /// Returns `true` if the job is a caster.
    pub fn caster(&self) -> (r: bool)
        ensures
            r == spec_caster(*self),
    {
        match self {
            Job::THM | Job::BLM | Job::ACN | Job::SMN | Job::RDM | Job::BLU => true,
            _ => false,
        }
    }

    /// Returns the name of the job.
    pub fn job_name(&self) -> (r: &'static str)
        ensures
            r@ == spec_job_name(*self),
    {
        match self {
            Job::GLA => "Gladiator",
            Job::PGL => "Pugilist",
            Job::MRD => "Marauder",
            Job::LNC => "Lancer",
            Job::ARC => "Archer",
            Job::CNJ => "Conjurer",
            Job::THM => "Thaumaturge",
            Job::PLD => "Paladin",
            Job::MNK => "Monk",
            Job::WAR => "Warrior",
            Job::DRG => "Dragoon",
            Job::BRD => "Bard",
            Job::WHM => "White Mage",
            Job::BLM => "Black Mage",
            Job::ACN => "Arcanist",
            Job::SMN => "Summoner",
            Job::SCH => "Scholar",
            Job::ROG => "Rogue",
            Job::NIN => "Ninja",
            Job::MCH => "Machinist",
            Job::DRK => "Dark Knight",
            Job::AST => "Astrologian",
            Job::SAM => "Samurai",
            Job::RDM => "Red Mage",
            Job::BLU => "Blue Mage",
            Job::GNB => "Gunbreaker",
            Job::DNC => "Dancer",
        }
    }
}

/// The element of some damage.
#[derive(Copy, Clone, Debug, PartialEq, Eq, Structural)]
pub enum DamageElement {
    /// No element.
    NoElement,
    /// Fire.
    Fire,
    /// Earth.
    Earth,
    /// Ice.
    Ice,
    /// Water.
    Water,
    /// Wind.
    Wind,
    /// Lightning.
    Lightning,
}

/// The type of some damage.
#[derive(Copy, Clone, Debug, PartialEq, Eq, Structural)]
pub enum DamageType {
    /// Slashing.
    Slashing,
    /// Piercing.
    Piercing,
    /// Blunt.
    Blunt,
    /// Magic.
    Magic,
}

} // verus!
