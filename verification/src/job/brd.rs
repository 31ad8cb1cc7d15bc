//! Logic and types for Bard.
use vstd::prelude::*;
use vstd::string::StringExecFns;

use rand::rngs::StdRng;

use crate::enums::{spec_damage, ActionCategory, DamageElement, DamageInstance, DamageType};
use crate::job::{self, CastInitInfo, JobAction, JobState};
use crate::math::SpeedStat;
use crate::rng::gen_ratio;
use crate::timing::{spec_cast_times, spec_cd_until, ActionCd, DurationInfo, ScaleTime};
use crate::util::{
    add_sat, count_ones, lemma_count_ones_le, push_decimal, spec_count_ones, spec_decimal,
    spec_status_proc_error, status_proc_error, sub_sat, GaugeU8,
};
use crate::world::{
    aoe_ops, aoe_status_ops, apply_op, consume_status, damage_op, first_target, get_status,
    has_status, push_aoe_all, push_aoe_status, remove_op, spec_get_status, spec_has_status,
    status_op, Action, ActorId, CastContext, DamageEventExt, Event, EventError, SinkOp,
};
use crate::world::status::{
    plain_status, spec_plain_status, spec_status, status_with, DamageMod, HasteMod, JobEffect,
    StatusEffect, StatusEvent, StatusEventExt, ValueModifier,
};

verus! {

/// The entry points of the Bard job: checking and executing its actions.
#[derive(Clone, Copy, Debug, Default)]
pub struct BrdJob;

/// An action specific to the Bard job.
#[derive(Clone, Copy, Debug, PartialEq, Eq, Hash, Structural)]
pub enum BrdAction {
    /// The action "Heavy Shot".
    HeavyShot,
    /// The action "Straight Shot".
    StraightShot,
    /// The action "Raging Strikes".
    RagingStrikes,
    /// The action "Venomous Bite".
    VenomousBite,
    /// The action "Bloodletter".
    Bloodletter,
    /// The action "RepellingShot".
    RepellingShot,
    /// The action "Quick Nock".
    QuickNock,
    /// The action "Windbite".
    Windbite,
    /// The action "Barrage".
    Barrage,
    /// The action "Mage's Ballad".
    MagesBallad,
    /// The action "The Warden's Paean".
    WardensPaean,
    /// The action "Army's Paeon".
    ArmysPaeon,
    /// The action "Rain of Death".
    RainOfDeath,
    /// The action "Battle Voice".
    BattleVoice,
    /// The action "The Wanderer's Minuet".
    WanderersMinuet,
    /// The action "Empyreal Arrow".
    EmpyrealArrow,
    /// The action "Iron Jaws".
    IronJaws,
    /// The action "Sidewinder".
    Sidewinder,
    /// The action "Troubadour".
    Troubadour,
    /// The action "Caustic Bite".
    CausticBite,
    /// The action "Stormbite".
    Stormbite,
    /// The action "Nature's Minne".
    NaturesMinne,
    /// The action "Refulgent Arrow".
    RefulgentArrow,
    /// The action "Shadowbite".
    Shadowbite,
    /// The action "Burst Shot".
    BurstShot,
    /// The action "Apex Arrow".
    ApexArrow,
    /// The action "Ladonsbite".
    Ladonsbite,
    /// The action "Radiant Finale".
    RadiantFinale,
    /// The action "Pitch Perfect".
    PitchPerfect,
    /// The action "Blast Arrow".
    BlastArrow,
    /// The action "Heartbreak Shot".
    HeartbreakShot,
    /// The action "Resonant Arrow".
    ResonantArrow,
    /// The action "Radiant Encore".
    RadiantEncore,
}

/// Returns the base GCD recast time, or `None` if the action is not a GCD.
pub open spec fn spec_brd_gcd(a: BrdAction) -> Option<ScaleTime> {
    match a {
        BrdAction::HeavyShot | BrdAction::StraightShot | BrdAction::VenomousBite | BrdAction::QuickNock | BrdAction::Windbite | BrdAction::IronJaws | BrdAction::CausticBite | BrdAction::Stormbite | BrdAction::RefulgentArrow | BrdAction::Shadowbite | BrdAction::BurstShot | BrdAction::ApexArrow | BrdAction::Ladonsbite | BrdAction::BlastArrow | BrdAction::ResonantArrow | BrdAction::RadiantEncore => Some(ScaleTime::spec_of(2500u32, Some(SpeedStat::SkillSpeed), true)),
        BrdAction::RagingStrikes | BrdAction::Bloodletter | BrdAction::RepellingShot | BrdAction::Barrage | BrdAction::MagesBallad | BrdAction::WardensPaean | BrdAction::ArmysPaeon | BrdAction::RainOfDeath | BrdAction::BattleVoice | BrdAction::WanderersMinuet | BrdAction::EmpyrealArrow | BrdAction::Sidewinder | BrdAction::Troubadour | BrdAction::NaturesMinne | BrdAction::RadiantFinale | BrdAction::PitchPerfect | BrdAction::HeartbreakShot => None::<ScaleTime>,
    }
}

/// Returns the human friendly name of the action.
pub open spec fn spec_brd_name(a: BrdAction) -> Seq<char> {
    match a {
        BrdAction::HeavyShot => "Heavy Shot"@,
        BrdAction::StraightShot => "Straight Shot"@,
        BrdAction::RagingStrikes => "Raging Strikes"@,
        BrdAction::VenomousBite => "Venomous Bite"@,
        BrdAction::Bloodletter => "Bloodletter"@,
        BrdAction::RepellingShot => "RepellingShot"@,
        BrdAction::QuickNock => "Quick Nock"@,
        BrdAction::Windbite => "Windbite"@,
        BrdAction::Barrage => "Barrage"@,
        BrdAction::MagesBallad => "Mage's Ballad"@,
        BrdAction::WardensPaean => "The Warden's Paean"@,
        BrdAction::ArmysPaeon => "Army's Paeon"@,
        BrdAction::RainOfDeath => "Rain of Death"@,
        BrdAction::BattleVoice => "Battle Voice"@,
        BrdAction::WanderersMinuet => "The Wanderer's Minuet"@,
        BrdAction::EmpyrealArrow => "Empyreal Arrow"@,
        BrdAction::IronJaws => "Iron Jaws"@,
        BrdAction::Sidewinder => "Sidewinder"@,
        BrdAction::Troubadour => "Troubadour"@,
        BrdAction::CausticBite => "Caustic Bite"@,
        BrdAction::Stormbite => "Stormbite"@,
        BrdAction::NaturesMinne => "Nature's Minne"@,
        BrdAction::RefulgentArrow => "Refulgent Arrow"@,
        BrdAction::Shadowbite => "Shadowbite"@,
        BrdAction::BurstShot => "Burst Shot"@,
        BrdAction::ApexArrow => "Apex Arrow"@,
        BrdAction::Ladonsbite => "Ladonsbite"@,
        BrdAction::RadiantFinale => "Radiant Finale"@,
        BrdAction::PitchPerfect => "Pitch Perfect"@,
        BrdAction::BlastArrow => "Blast Arrow"@,
        BrdAction::HeartbreakShot => "Heartbreak Shot"@,
        BrdAction::ResonantArrow => "Resonant Arrow"@,
        BrdAction::RadiantEncore => "Radiant Encore"@,
    }
}

/// Returns the cooldown of the action in milliseconds.
pub open spec fn spec_brd_cooldown(a: BrdAction) -> u32 {
    match a {
        BrdAction::HeavyShot | BrdAction::StraightShot | BrdAction::VenomousBite | BrdAction::QuickNock | BrdAction::Windbite | BrdAction::IronJaws | BrdAction::CausticBite | BrdAction::Stormbite | BrdAction::RefulgentArrow | BrdAction::Shadowbite | BrdAction::BurstShot | BrdAction::ApexArrow | BrdAction::Ladonsbite | BrdAction::BlastArrow | BrdAction::HeartbreakShot | BrdAction::ResonantArrow | BrdAction::RadiantEncore => 0u32,
        BrdAction::RagingStrikes | BrdAction::Barrage | BrdAction::MagesBallad | BrdAction::ArmysPaeon | BrdAction::BattleVoice | BrdAction::WanderersMinuet | BrdAction::NaturesMinne => 120000u32,
        BrdAction::Bloodletter | BrdAction::RainOfDeath | BrdAction::EmpyrealArrow => 15000u32,
        BrdAction::RepellingShot => 30000u32,
        BrdAction::WardensPaean => 45000u32,
        BrdAction::Sidewinder => 60000u32,
        BrdAction::Troubadour => 90000u32,
        BrdAction::RadiantFinale => 110000u32,
        BrdAction::PitchPerfect => 1000u32,
    }
}

/// Returns the number of charges the action has, or `1` if it is a single charge action.
pub open spec fn spec_brd_cd_charges(a: BrdAction) -> u8 {
    match a {
        BrdAction::HeavyShot | BrdAction::StraightShot | BrdAction::RagingStrikes | BrdAction::VenomousBite | BrdAction::RepellingShot | BrdAction::QuickNock | BrdAction::Windbite | BrdAction::Barrage | BrdAction::MagesBallad | BrdAction::WardensPaean | BrdAction::ArmysPaeon | BrdAction::RainOfDeath | BrdAction::BattleVoice | BrdAction::WanderersMinuet | BrdAction::EmpyrealArrow | BrdAction::IronJaws | BrdAction::Sidewinder | BrdAction::Troubadour | BrdAction::CausticBite | BrdAction::Stormbite | BrdAction::NaturesMinne | BrdAction::RefulgentArrow | BrdAction::Shadowbite | BrdAction::BurstShot | BrdAction::ApexArrow | BrdAction::Ladonsbite | BrdAction::RadiantFinale | BrdAction::PitchPerfect | BrdAction::BlastArrow | BrdAction::HeartbreakShot | BrdAction::ResonantArrow | BrdAction::RadiantEncore => 1u8,
        BrdAction::Bloodletter => 3u8,
    }
}

/// Returns the delay in milliseconds for the damage and statuses to be applied.
pub open spec fn spec_brd_effect_delay(a: BrdAction) -> u32 {
    match a {
        BrdAction::HeavyShot | BrdAction::StraightShot | BrdAction::RagingStrikes | BrdAction::VenomousBite | BrdAction::Bloodletter | BrdAction::RepellingShot | BrdAction::QuickNock | BrdAction::Windbite | BrdAction::Barrage | BrdAction::MagesBallad | BrdAction::WardensPaean | BrdAction::ArmysPaeon | BrdAction::RainOfDeath | BrdAction::BattleVoice | BrdAction::WanderersMinuet | BrdAction::EmpyrealArrow | BrdAction::IronJaws | BrdAction::Sidewinder | BrdAction::Troubadour | BrdAction::CausticBite | BrdAction::Stormbite | BrdAction::NaturesMinne | BrdAction::RefulgentArrow | BrdAction::Shadowbite | BrdAction::BurstShot | BrdAction::ApexArrow | BrdAction::Ladonsbite | BrdAction::RadiantFinale | BrdAction::PitchPerfect | BrdAction::BlastArrow | BrdAction::HeartbreakShot | BrdAction::ResonantArrow | BrdAction::RadiantEncore => 0u32,
    }
}

/// Returns the category of the action.
pub open spec fn spec_brd_category(a: BrdAction) -> ActionCategory {
    match a {
        BrdAction::HeavyShot | BrdAction::StraightShot | BrdAction::VenomousBite | BrdAction::QuickNock | BrdAction::Windbite | BrdAction::IronJaws | BrdAction::CausticBite | BrdAction::Stormbite | BrdAction::RefulgentArrow | BrdAction::Shadowbite | BrdAction::BurstShot | BrdAction::ApexArrow | BrdAction::Ladonsbite | BrdAction::BlastArrow | BrdAction::ResonantArrow | BrdAction::RadiantEncore => ActionCategory::Weaponskill,
        BrdAction::RagingStrikes | BrdAction::Bloodletter | BrdAction::RepellingShot | BrdAction::Barrage | BrdAction::MagesBallad | BrdAction::WardensPaean | BrdAction::ArmysPaeon | BrdAction::RainOfDeath | BrdAction::BattleVoice | BrdAction::WanderersMinuet | BrdAction::EmpyrealArrow | BrdAction::Sidewinder | BrdAction::Troubadour | BrdAction::NaturesMinne | BrdAction::RadiantFinale | BrdAction::PitchPerfect | BrdAction::HeartbreakShot => ActionCategory::Ability,
    }
}

impl BrdAction {
    /// Returns the base GCD recast time, or `None` if the action is not a GCD.
    pub fn gcd(&self) -> (r: Option<ScaleTime>)
        ensures
            r == spec_brd_gcd(*self),
    {
        match self {
            BrdAction::HeavyShot | BrdAction::StraightShot | BrdAction::VenomousBite | BrdAction::QuickNock | BrdAction::Windbite | BrdAction::IronJaws | BrdAction::CausticBite | BrdAction::Stormbite | BrdAction::RefulgentArrow | BrdAction::Shadowbite | BrdAction::BurstShot | BrdAction::ApexArrow | BrdAction::Ladonsbite | BrdAction::BlastArrow | BrdAction::ResonantArrow | BrdAction::RadiantEncore => Some(ScaleTime::skill(2500)),
            BrdAction::RagingStrikes | BrdAction::Bloodletter | BrdAction::RepellingShot | BrdAction::Barrage | BrdAction::MagesBallad | BrdAction::WardensPaean | BrdAction::ArmysPaeon | BrdAction::RainOfDeath | BrdAction::BattleVoice | BrdAction::WanderersMinuet | BrdAction::EmpyrealArrow | BrdAction::Sidewinder | BrdAction::Troubadour | BrdAction::NaturesMinne | BrdAction::RadiantFinale | BrdAction::PitchPerfect | BrdAction::HeartbreakShot => None,
        }
    }

    /// Returns the human friendly name of the action.
    pub fn name(&self) -> (r: &'static str)
        ensures
            r@ == spec_brd_name(*self),
    {
        proof {
            reveal_strlit("Heavy Shot");
            reveal_strlit("Straight Shot");
            reveal_strlit("Raging Strikes");
            reveal_strlit("Venomous Bite");
            reveal_strlit("Bloodletter");
            reveal_strlit("RepellingShot");
            reveal_strlit("Quick Nock");
            reveal_strlit("Windbite");
            reveal_strlit("Barrage");
            reveal_strlit("Mage's Ballad");
            reveal_strlit("The Warden's Paean");
            reveal_strlit("Army's Paeon");
            reveal_strlit("Rain of Death");
            reveal_strlit("Battle Voice");
            reveal_strlit("The Wanderer's Minuet");
            reveal_strlit("Empyreal Arrow");
            reveal_strlit("Iron Jaws");
            reveal_strlit("Sidewinder");
            reveal_strlit("Troubadour");
            reveal_strlit("Caustic Bite");
            reveal_strlit("Stormbite");
            reveal_strlit("Nature's Minne");
            reveal_strlit("Refulgent Arrow");
            reveal_strlit("Shadowbite");
            reveal_strlit("Burst Shot");
            reveal_strlit("Apex Arrow");
            reveal_strlit("Ladonsbite");
            reveal_strlit("Radiant Finale");
            reveal_strlit("Pitch Perfect");
            reveal_strlit("Blast Arrow");
            reveal_strlit("Heartbreak Shot");
            reveal_strlit("Resonant Arrow");
            reveal_strlit("Radiant Encore");
        }
        match self {
            BrdAction::HeavyShot => "Heavy Shot",
            BrdAction::StraightShot => "Straight Shot",
            BrdAction::RagingStrikes => "Raging Strikes",
            BrdAction::VenomousBite => "Venomous Bite",
            BrdAction::Bloodletter => "Bloodletter",
            BrdAction::RepellingShot => "RepellingShot",
            BrdAction::QuickNock => "Quick Nock",
            BrdAction::Windbite => "Windbite",
            BrdAction::Barrage => "Barrage",
            BrdAction::MagesBallad => "Mage's Ballad",
            BrdAction::WardensPaean => "The Warden's Paean",
            BrdAction::ArmysPaeon => "Army's Paeon",
            BrdAction::RainOfDeath => "Rain of Death",
            BrdAction::BattleVoice => "Battle Voice",
            BrdAction::WanderersMinuet => "The Wanderer's Minuet",
            BrdAction::EmpyrealArrow => "Empyreal Arrow",
            BrdAction::IronJaws => "Iron Jaws",
            BrdAction::Sidewinder => "Sidewinder",
            BrdAction::Troubadour => "Troubadour",
            BrdAction::CausticBite => "Caustic Bite",
            BrdAction::Stormbite => "Stormbite",
            BrdAction::NaturesMinne => "Nature's Minne",
            BrdAction::RefulgentArrow => "Refulgent Arrow",
            BrdAction::Shadowbite => "Shadowbite",
            BrdAction::BurstShot => "Burst Shot",
            BrdAction::ApexArrow => "Apex Arrow",
            BrdAction::Ladonsbite => "Ladonsbite",
            BrdAction::RadiantFinale => "Radiant Finale",
            BrdAction::PitchPerfect => "Pitch Perfect",
            BrdAction::BlastArrow => "Blast Arrow",
            BrdAction::HeartbreakShot => "Heartbreak Shot",
            BrdAction::ResonantArrow => "Resonant Arrow",
            BrdAction::RadiantEncore => "Radiant Encore",
        }
    }

    /// Returns the cooldown of the action in milliseconds.
    pub fn cooldown(&self) -> (r: u32)
        ensures
            r == spec_brd_cooldown(*self),
    {
        match self {
            BrdAction::HeavyShot | BrdAction::StraightShot | BrdAction::VenomousBite | BrdAction::QuickNock | BrdAction::Windbite | BrdAction::IronJaws | BrdAction::CausticBite | BrdAction::Stormbite | BrdAction::RefulgentArrow | BrdAction::Shadowbite | BrdAction::BurstShot | BrdAction::ApexArrow | BrdAction::Ladonsbite | BrdAction::BlastArrow | BrdAction::HeartbreakShot | BrdAction::ResonantArrow | BrdAction::RadiantEncore => 0,
            BrdAction::RagingStrikes | BrdAction::Barrage | BrdAction::MagesBallad | BrdAction::ArmysPaeon | BrdAction::BattleVoice | BrdAction::WanderersMinuet | BrdAction::NaturesMinne => 120000,
            BrdAction::Bloodletter | BrdAction::RainOfDeath | BrdAction::EmpyrealArrow => 15000,
            BrdAction::RepellingShot => 30000,
            BrdAction::WardensPaean => 45000,
            BrdAction::Sidewinder => 60000,
            BrdAction::Troubadour => 90000,
            BrdAction::RadiantFinale => 110000,
            BrdAction::PitchPerfect => 1000,
        }
    }

    /// Returns the number of charges the action has, or `1` if it is a single charge action.
    pub fn cd_charges(&self) -> (r: u8)
        ensures
            r == spec_brd_cd_charges(*self),
    {
        match self {
            BrdAction::HeavyShot | BrdAction::StraightShot | BrdAction::RagingStrikes | BrdAction::VenomousBite | BrdAction::RepellingShot | BrdAction::QuickNock | BrdAction::Windbite | BrdAction::Barrage | BrdAction::MagesBallad | BrdAction::WardensPaean | BrdAction::ArmysPaeon | BrdAction::RainOfDeath | BrdAction::BattleVoice | BrdAction::WanderersMinuet | BrdAction::EmpyrealArrow | BrdAction::IronJaws | BrdAction::Sidewinder | BrdAction::Troubadour | BrdAction::CausticBite | BrdAction::Stormbite | BrdAction::NaturesMinne | BrdAction::RefulgentArrow | BrdAction::Shadowbite | BrdAction::BurstShot | BrdAction::ApexArrow | BrdAction::Ladonsbite | BrdAction::RadiantFinale | BrdAction::PitchPerfect | BrdAction::BlastArrow | BrdAction::HeartbreakShot | BrdAction::ResonantArrow | BrdAction::RadiantEncore => 1,
            BrdAction::Bloodletter => 3,
        }
    }

    /// Returns the delay in milliseconds for the damage and statuses to be applied.
    pub fn effect_delay(&self) -> (r: u32)
        ensures
            r == spec_brd_effect_delay(*self),
    {
        match self {
            BrdAction::HeavyShot | BrdAction::StraightShot | BrdAction::RagingStrikes | BrdAction::VenomousBite | BrdAction::Bloodletter | BrdAction::RepellingShot | BrdAction::QuickNock | BrdAction::Windbite | BrdAction::Barrage | BrdAction::MagesBallad | BrdAction::WardensPaean | BrdAction::ArmysPaeon | BrdAction::RainOfDeath | BrdAction::BattleVoice | BrdAction::WanderersMinuet | BrdAction::EmpyrealArrow | BrdAction::IronJaws | BrdAction::Sidewinder | BrdAction::Troubadour | BrdAction::CausticBite | BrdAction::Stormbite | BrdAction::NaturesMinne | BrdAction::RefulgentArrow | BrdAction::Shadowbite | BrdAction::BurstShot | BrdAction::ApexArrow | BrdAction::Ladonsbite | BrdAction::RadiantFinale | BrdAction::PitchPerfect | BrdAction::BlastArrow | BrdAction::HeartbreakShot | BrdAction::ResonantArrow | BrdAction::RadiantEncore => 0,
        }
    }

    /// Returns the category of the action.
    pub fn category(&self) -> (r: ActionCategory)
        ensures
            r == spec_brd_category(*self),
    {
        match self {
            BrdAction::HeavyShot | BrdAction::StraightShot | BrdAction::VenomousBite | BrdAction::QuickNock | BrdAction::Windbite | BrdAction::IronJaws | BrdAction::CausticBite | BrdAction::Stormbite | BrdAction::RefulgentArrow | BrdAction::Shadowbite | BrdAction::BurstShot | BrdAction::ApexArrow | BrdAction::Ladonsbite | BrdAction::BlastArrow | BrdAction::ResonantArrow | BrdAction::RadiantEncore => ActionCategory::Weaponskill,
            BrdAction::RagingStrikes | BrdAction::Bloodletter | BrdAction::RepellingShot | BrdAction::Barrage | BrdAction::MagesBallad | BrdAction::WardensPaean | BrdAction::ArmysPaeon | BrdAction::RainOfDeath | BrdAction::BattleVoice | BrdAction::WanderersMinuet | BrdAction::EmpyrealArrow | BrdAction::Sidewinder | BrdAction::Troubadour | BrdAction::NaturesMinne | BrdAction::RadiantFinale | BrdAction::PitchPerfect | BrdAction::HeartbreakShot => ActionCategory::Ability,
        }
    }

    /// Returns the cooldown group this action is part of, or `None` if the
    /// action has no cooldown group.
    pub fn cd_group(&self) -> (r: Option<BrdCdGroup>)
        ensures
            r == spec_brd_cd_group(*self),
    {
        match self {
            BrdAction::RagingStrikes => Some(BrdCdGroup::Raging),
            BrdAction::Bloodletter | BrdAction::RainOfDeath | BrdAction::HeartbreakShot => Some(BrdCdGroup::Bloodletter),
            BrdAction::Barrage => Some(BrdCdGroup::Barrage),
            BrdAction::MagesBallad => Some(BrdCdGroup::Ballad),
            BrdAction::ArmysPaeon => Some(BrdCdGroup::Paeon),
            BrdAction::BattleVoice => Some(BrdCdGroup::Voice),
            BrdAction::WanderersMinuet => Some(BrdCdGroup::Minuet),
            BrdAction::EmpyrealArrow => Some(BrdCdGroup::Empyreal),
            BrdAction::Sidewinder => Some(BrdCdGroup::Sidewinder),
            BrdAction::RadiantFinale => Some(BrdCdGroup::Finale),
            BrdAction::PitchPerfect => Some(BrdCdGroup::Pitch),
            _ => None,
        }
    }
}

/// The cooldown group an action is part of.
pub open spec fn spec_brd_cd_group(a: BrdAction) -> Option<BrdCdGroup> {
    match a {
        BrdAction::RagingStrikes => Some(BrdCdGroup::Raging),
        BrdAction::Bloodletter | BrdAction::RainOfDeath | BrdAction::HeartbreakShot => Some(BrdCdGroup::Bloodletter),
        BrdAction::Barrage => Some(BrdCdGroup::Barrage),
        BrdAction::MagesBallad => Some(BrdCdGroup::Ballad),
        BrdAction::ArmysPaeon => Some(BrdCdGroup::Paeon),
        BrdAction::BattleVoice => Some(BrdCdGroup::Voice),
        BrdAction::WanderersMinuet => Some(BrdCdGroup::Minuet),
        BrdAction::EmpyrealArrow => Some(BrdCdGroup::Empyreal),
        BrdAction::Sidewinder => Some(BrdCdGroup::Sidewinder),
        BrdAction::RadiantFinale => Some(BrdCdGroup::Finale),
        BrdAction::PitchPerfect => Some(BrdCdGroup::Pitch),
        _ => None,
    }
}

/// The various cooldown groups an action can be part of.
#[derive(Clone, Copy, Debug, PartialEq, Eq, Hash, Structural)]
pub enum BrdCdGroup {
    /// The cooldown group for Raging Strikes.
    Raging,
    /// The cooldown group for Bloodletter, Heartbreak Shot and Rain of Death.
    Bloodletter,
    /// The cooldown group for Barrage.
    Barrage,
    /// The cooldown group for Mage's Ballad.
    Ballad,
    /// The cooldown group for Army's Paeon.
    Paeon,
    /// The cooldown group for Battle Voice.
    Voice,
    /// The cooldown group for The Wanderer's Minuet.
    Minuet,
    /// The cooldown group for Empyreal Arrow.
    Empyreal,
    /// The cooldown group for Sidewinder.
    Sidewinder,
    /// The cooldown group for Radiant Finale.
    Finale,
    /// The cooldown group for Pitch Perfect.
    Pitch,
    /// The cooldown group for the time between charges of Bloodletter, Heartbreak Shot and Rain of Death.
    BloodLetterChg,
}

/// The active cooldowns of the cooldown groups.
#[derive(Clone, Copy, Debug, Default)]
pub struct BrdCds {
    raging: ActionCd,
    bloodletter: ActionCd,
    barrage: ActionCd,
    ballad: ActionCd,
    paeon: ActionCd,
    voice: ActionCd,
    minuet: ActionCd,
    empyreal: ActionCd,
    sidewinder: ActionCd,
    finale: ActionCd,
    pitch: ActionCd,
    bloodletter_chg: ActionCd,
}

impl BrdCds {
    /// The time left on the cooldown of a group, counting every used charge.
    pub closed spec fn spec_cd(&self, group: BrdCdGroup) -> u32 {
        match group {
            BrdCdGroup::Raging => self.raging@,
            BrdCdGroup::Bloodletter => self.bloodletter@,
            BrdCdGroup::Barrage => self.barrage@,
            BrdCdGroup::Ballad => self.ballad@,
            BrdCdGroup::Paeon => self.paeon@,
            BrdCdGroup::Voice => self.voice@,
            BrdCdGroup::Minuet => self.minuet@,
            BrdCdGroup::Empyreal => self.empyreal@,
            BrdCdGroup::Sidewinder => self.sidewinder@,
            BrdCdGroup::Finale => self.finale@,
            BrdCdGroup::Pitch => self.pitch@,
            BrdCdGroup::BloodLetterChg => self.bloodletter_chg@,
        }
    }

    /// Creates the cooldowns with every group off cooldown.
    pub fn new() -> (r: Self)
        ensures
            forall|g: BrdCdGroup| #[trigger] r.spec_cd(g) == 0,
    {
        BrdCds {
            raging: ActionCd::new(),
            bloodletter: ActionCd::new(),
            barrage: ActionCd::new(),
            ballad: ActionCd::new(),
            paeon: ActionCd::new(),
            voice: ActionCd::new(),
            minuet: ActionCd::new(),
            empyreal: ActionCd::new(),
            sidewinder: ActionCd::new(),
            finale: ActionCd::new(),
            pitch: ActionCd::new(),
            bloodletter_chg: ActionCd::new(),
        }
    }

    /// Applies a cooldown to the specified cooldown group.
    pub fn apply(&mut self, cdg: BrdCdGroup, cooldown: u32, charges: u8)
        requires
            old(self).spec_cd(cdg) + cooldown <= u32::MAX,
            cooldown * charges <= u32::MAX,
        ensures
            final(self).spec_cd(cdg) == (if old(self).spec_cd(cdg) + cooldown <= cooldown * charges {
                old(self).spec_cd(cdg) + cooldown
            } else {
                cooldown * charges
            }),
            forall|g: BrdCdGroup| g != cdg ==> #[trigger] final(self).spec_cd(g) == old(self).spec_cd(g),
    {
        match cdg {
            BrdCdGroup::Raging => self.raging.apply(cooldown, charges),
            BrdCdGroup::Bloodletter => self.bloodletter.apply(cooldown, charges),
            BrdCdGroup::Barrage => self.barrage.apply(cooldown, charges),
            BrdCdGroup::Ballad => self.ballad.apply(cooldown, charges),
            BrdCdGroup::Paeon => self.paeon.apply(cooldown, charges),
            BrdCdGroup::Voice => self.voice.apply(cooldown, charges),
            BrdCdGroup::Minuet => self.minuet.apply(cooldown, charges),
            BrdCdGroup::Empyreal => self.empyreal.apply(cooldown, charges),
            BrdCdGroup::Sidewinder => self.sidewinder.apply(cooldown, charges),
            BrdCdGroup::Finale => self.finale.apply(cooldown, charges),
            BrdCdGroup::Pitch => self.pitch.apply(cooldown, charges),
            BrdCdGroup::BloodLetterChg => self.bloodletter_chg.apply(cooldown, charges),
        }
    }

    /// Checks if the specified cooldown group is available.
    pub fn available(&self, cdg: BrdCdGroup, cooldown: u32, charges: u8) -> (r: bool)
        requires
            charges >= 1,
            cooldown * (charges - 1) <= u32::MAX,
        ensures
            r == (spec_cd_until(self.spec_cd(cdg), cooldown, charges) == 0),
    {
        match cdg {
            BrdCdGroup::Raging => self.raging.available(cooldown, charges),
            BrdCdGroup::Bloodletter => self.bloodletter.available(cooldown, charges),
            BrdCdGroup::Barrage => self.barrage.available(cooldown, charges),
            BrdCdGroup::Ballad => self.ballad.available(cooldown, charges),
            BrdCdGroup::Paeon => self.paeon.available(cooldown, charges),
            BrdCdGroup::Voice => self.voice.available(cooldown, charges),
            BrdCdGroup::Minuet => self.minuet.available(cooldown, charges),
            BrdCdGroup::Empyreal => self.empyreal.available(cooldown, charges),
            BrdCdGroup::Sidewinder => self.sidewinder.available(cooldown, charges),
            BrdCdGroup::Finale => self.finale.available(cooldown, charges),
            BrdCdGroup::Pitch => self.pitch.available(cooldown, charges),
            BrdCdGroup::BloodLetterChg => self.bloodletter_chg.available(cooldown, charges),
        }
    }

    /// Advances the cooldowns forward by a certain amount of time.
    pub fn advance(&mut self, time: u32)
        ensures
            forall|g: BrdCdGroup| #[trigger] final(self).spec_cd(g) == (if old(self).spec_cd(g) >= time {
                old(self).spec_cd(g) - time
            } else {
                0
            }),
    {
        self.raging.advance(time);
        self.bloodletter.advance(time);
        self.barrage.advance(time);
        self.ballad.advance(time);
        self.paeon.advance(time);
        self.voice.advance(time);
        self.minuet.advance(time);
        self.empyreal.advance(time);
        self.sidewinder.advance(time);
        self.finale.advance(time);
        self.pitch.advance(time);
        self.bloodletter_chg.advance(time);
    }

    /// Gets the cooldown until the specified cooldown group can be used.
    pub fn cd_until(&self, group: BrdCdGroup, cooldown: u32, charges: u8) -> (r: u32)
        requires
            charges >= 1,
            cooldown * (charges - 1) <= u32::MAX,
        ensures
            r == spec_cd_until(self.spec_cd(group), cooldown, charges),
    {
        match group {
            BrdCdGroup::Raging => self.raging.cd_until(cooldown, charges),
            BrdCdGroup::Bloodletter => self.bloodletter.cd_until(cooldown, charges),
            BrdCdGroup::Barrage => self.barrage.cd_until(cooldown, charges),
            BrdCdGroup::Ballad => self.ballad.cd_until(cooldown, charges),
            BrdCdGroup::Paeon => self.paeon.cd_until(cooldown, charges),
            BrdCdGroup::Voice => self.voice.cd_until(cooldown, charges),
            BrdCdGroup::Minuet => self.minuet.cd_until(cooldown, charges),
            BrdCdGroup::Empyreal => self.empyreal.cd_until(cooldown, charges),
            BrdCdGroup::Sidewinder => self.sidewinder.cd_until(cooldown, charges),
            BrdCdGroup::Finale => self.finale.cd_until(cooldown, charges),
            BrdCdGroup::Pitch => self.pitch.cd_until(cooldown, charges),
            BrdCdGroup::BloodLetterChg => self.bloodletter_chg.cd_until(cooldown, charges),
        }
    }
}

/// The status effect "Hawk's Eye", which readies Straight Shot.
pub open spec fn spec_hawks_eye() -> StatusEffect {
    spec_plain_status(201, "Hawk's Eye", 30000)
}

/// Returns the status effect "Hawk's Eye".
pub fn hawks_eye() -> (r: StatusEffect)
    ensures
        r == spec_hawks_eye(),
{
    plain_status(201, "Hawk's Eye", 30000)
}

/// The status effect "Blast Arrow Ready".
pub open spec fn spec_blast_arrow() -> StatusEffect {
    spec_plain_status(202, "Blast Arrow Ready", 10000)
}

/// Returns the status effect "Blast Arrow Ready".
pub fn blast_arrow() -> (r: StatusEffect)
    ensures
        r == spec_blast_arrow(),
{
    plain_status(202, "Blast Arrow Ready", 10000)
}

/// The status effect "Raging Strikes": outgoing damage is multiplied by `115 / 100`.
pub open spec fn spec_raging_strikes() -> StatusEffect {
    spec_status(
        203,
        "Raging Strikes",
        20000,
        ValueModifier { incoming: None, outgoing: Some(DamageMod { base: 115, per_stack: 0, div: 100 }) },
        ValueModifier { incoming: None, outgoing: None },
        ValueModifier { incoming: None, outgoing: None },
        None,
    )
}

/// Returns the status effect "Raging Strikes".
pub fn raging_strikes() -> (r: StatusEffect)
    ensures
        r == spec_raging_strikes(),
{
    status_with(
        203,
        "Raging Strikes",
        20000,
        ValueModifier::outgoing(DamageMod { base: 115, per_stack: 0, div: 100 }),
        ValueModifier::empty(),
        ValueModifier::empty(),
        None,
    )
}

/// The status effect "Barrage".
pub open spec fn spec_barrage() -> StatusEffect {
    spec_plain_status(204, "Barrage", 10000)
}

/// Returns the status effect "Barrage".
pub fn barrage() -> (r: StatusEffect)
    ensures
        r == spec_barrage(),
{
    plain_status(204, "Barrage", 10000)
}

/// The status effect "Resonant Arrow Ready".
pub open spec fn spec_resonant_arrow() -> StatusEffect {
    spec_plain_status(205, "Resonant Arrow Ready", 30000)
}

/// Returns the status effect "Resonant Arrow Ready".
pub fn resonant_arrow() -> (r: StatusEffect)
    ensures
        r == spec_resonant_arrow(),
{
    plain_status(205, "Resonant Arrow Ready", 30000)
}

/// The status effect "Radiant Encore Ready"; its stacks are the Coda it was granted with.
pub open spec fn spec_radiant_encore() -> StatusEffect {
    spec_plain_status(206, "Radiant Encore Ready", 30000)
}

/// Returns the status effect "Radiant Encore Ready".
pub fn radiant_encore() -> (r: StatusEffect)
    ensures
        r == spec_radiant_encore(),
{
    plain_status(206, "Radiant Encore Ready", 30000)
}

/// The status effect "Battle Voice": adds `200` to the outgoing Direct Hit chance.
pub open spec fn spec_battle_voice() -> StatusEffect {
    spec_status(
        207,
        "Battle Voice",
        15000,
        ValueModifier { incoming: None, outgoing: None },
        ValueModifier { incoming: None, outgoing: None },
        ValueModifier { incoming: None, outgoing: Some(200) },
        None,
    )
}

/// Returns the status effect "Battle Voice".
pub fn battle_voice() -> (r: StatusEffect)
    ensures
        r == spec_battle_voice(),
{
    status_with(
        207,
        "Battle Voice",
        15000,
        ValueModifier::empty(),
        ValueModifier::empty(),
        ValueModifier::outgoing(200),
        None,
    )
}

/// The status effect "Radiant Finale": outgoing damage is multiplied by `(100 + 2 * stacks) / 100`.
pub open spec fn spec_radiant_finale() -> StatusEffect {
    spec_status(
        208,
        "Radiant Finale",
        15000,
        ValueModifier { incoming: None, outgoing: Some(DamageMod { base: 100, per_stack: 2, div: 100 }) },
        ValueModifier { incoming: None, outgoing: None },
        ValueModifier { incoming: None, outgoing: None },
        None,
    )
}

/// Returns the status effect "Radiant Finale".
pub fn radiant_finale() -> (r: StatusEffect)
    ensures
        r == spec_radiant_finale(),
{
    status_with(
        208,
        "Radiant Finale",
        15000,
        ValueModifier::outgoing(DamageMod { base: 100, per_stack: 2, div: 100 }),
        ValueModifier::empty(),
        ValueModifier::empty(),
        None,
    )
}

/// The status effect "Mage's Ballad": outgoing damage is multiplied by `11 / 10`.
pub open spec fn spec_ballad() -> StatusEffect {
    spec_status(
        209,
        "Mage's Ballad",
        5000,
        ValueModifier { incoming: None, outgoing: Some(DamageMod { base: 11, per_stack: 0, div: 10 }) },
        ValueModifier { incoming: None, outgoing: None },
        ValueModifier { incoming: None, outgoing: None },
        None,
    )
}

/// Returns the status effect "Mage's Ballad".
pub fn ballad() -> (r: StatusEffect)
    ensures
        r == spec_ballad(),
{
    status_with(
        209,
        "Mage's Ballad",
        5000,
        ValueModifier::outgoing(DamageMod { base: 11, per_stack: 0, div: 10 }),
        ValueModifier::empty(),
        ValueModifier::empty(),
        None,
    )
}

/// The status effect "Army's Paeon": adds `30` to the outgoing Direct Hit chance.
pub open spec fn spec_paeon() -> StatusEffect {
    spec_status(
        210,
        "Army's Paeon",
        5000,
        ValueModifier { incoming: None, outgoing: None },
        ValueModifier { incoming: None, outgoing: None },
        ValueModifier { incoming: None, outgoing: Some(30) },
        None,
    )
}

/// Returns the status effect "Army's Paeon".
pub fn paeon() -> (r: StatusEffect)
    ensures
        r == spec_paeon(),
{
    status_with(
        210,
        "Army's Paeon",
        5000,
        ValueModifier::empty(),
        ValueModifier::empty(),
        ValueModifier::outgoing(30),
        None,
    )
}

/// The status effect "The Wanderer's Minuet": adds `20` to the outgoing Critical Hit chance.
pub open spec fn spec_minuet() -> StatusEffect {
    spec_status(
        211,
        "The Wanderer's Minuet",
        5000,
        ValueModifier { incoming: None, outgoing: None },
        ValueModifier { incoming: None, outgoing: Some(20) },
        ValueModifier { incoming: None, outgoing: None },
        None,
    )
}

/// Returns the status effect "The Wanderer's Minuet".
pub fn minuet() -> (r: StatusEffect)
    ensures
        r == spec_minuet(),
{
    status_with(
        211,
        "The Wanderer's Minuet",
        5000,
        ValueModifier::empty(),
        ValueModifier::outgoing(20),
        ValueModifier::empty(),
        None,
    )
}

/// The status effect "Troubadour": incoming damage is multiplied by `9 / 10`.
pub open spec fn spec_troubadour() -> StatusEffect {
    spec_status(
        212,
        "Troubadour",
        15000,
        ValueModifier { incoming: Some(DamageMod { base: 9, per_stack: 0, div: 10 }), outgoing: None },
        ValueModifier { incoming: None, outgoing: None },
        ValueModifier { incoming: None, outgoing: None },
        None,
    )
}

/// Returns the status effect "Troubadour".
pub fn troubadour() -> (r: StatusEffect)
    ensures
        r == spec_troubadour(),
{
    status_with(
        212,
        "Troubadour",
        15000,
        ValueModifier::incoming(DamageMod { base: 9, per_stack: 0, div: 10 }),
        ValueModifier::empty(),
        ValueModifier::empty(),
        None,
    )
}

/// The status effect "Army's Ethos"; its stacks are the Repertoire of the song that ended.
pub open spec fn spec_ethos() -> StatusEffect {
    spec_plain_status(213, "Army's Ethos", 30000)
}

/// Returns the status effect "Army's Ethos".
pub fn ethos() -> (r: StatusEffect)
    ensures
        r == spec_ethos(),
{
    plain_status(213, "Army's Ethos", 30000)
}

/// The status effect "Army's Muse": a haste of `99`, `98`, `96` or `88` hundredths for `1` to `4` stacks.
pub open spec fn spec_muse() -> StatusEffect {
    spec_status(
        214,
        "Army's Muse",
        10000,
        ValueModifier { incoming: None, outgoing: None },
        ValueModifier { incoming: None, outgoing: None },
        ValueModifier { incoming: None, outgoing: None },
        Some(HasteMod::Stacks(99, 98, 96, 88)),
    )
}

/// Returns the status effect "Army's Muse".
pub fn muse() -> (r: StatusEffect)
    ensures
        r == spec_muse(),
{
    status_with(
        214,
        "Army's Muse",
        10000,
        ValueModifier::empty(),
        ValueModifier::empty(),
        ValueModifier::empty(),
        Some(HasteMod::Stacks(99, 98, 96, 88)),
    )
}

/// The status effect "Caustic Bite", a damage over time effect.
pub open spec fn spec_caustic_bite() -> StatusEffect {
    spec_plain_status(215, "Caustic Bite", 45000)
}

/// Returns the status effect "Caustic Bite".
pub fn caustic_bite() -> (r: StatusEffect)
    ensures
        r == spec_caustic_bite(),
{
    plain_status(215, "Caustic Bite", 45000)
}

/// The status effect "Stormbite", a damage over time effect.
pub open spec fn spec_stormbite() -> StatusEffect {
    spec_plain_status(216, "Stormbite", 45000)
}

/// Returns the status effect "Stormbite".
pub fn stormbite() -> (r: StatusEffect)
    ensures
        r == spec_stormbite(),
{
    plain_status(216, "Stormbite", 45000)
}


/// The length of a song.
pub const SONG_LEN: u16 = 45000;

/// A custom cast error for Bard actions.
#[derive(Clone, Copy, Debug, PartialEq, Eq, Structural)]
pub enum BrdError {
    /// Not enough Soul Voice gauge.
    SoulVoice(u8),
    /// Not under the effect of Straight Shot Ready.
    HawksEye,
    /// Not enough stacks of Repertoire to cast Pitch Perfect.
    PitchPerfect,
    /// Not under the effect of Blast Arrow Ready.
    BlastArrow,
    /// Not enough Coda.
    Coda,
    /// Not under the effect of Resonant Arrow Ready.
    ResonantArrow,
    /// Not under the effect of Radiant Encore Ready.
    RadiantEncore,
}

/// A Bard error as an error of the world.
pub open spec fn brd_err(e: BrdError) -> EventError {
    EventError::Job(job::CastError::Brd(e))
}

/// Returns a Bard error as an error of the world.
fn err(e: BrdError) -> (r: EventError)
    ensures
        r == brd_err(e),
{
    EventError::Job(job::CastError::Brd(e))
}

/// The state of the Bard Song gauge.
#[derive(Clone, Copy, Debug)]
pub enum BrdSong {
    /// Mage's Ballad is active.
    Ballad,
    /// Army's Paeon is active, with its Repertoire.
    Paeon(GaugeU8<4>),
    /// The Wanderer's Minuet is active, with its Repertoire.
    Minuet(GaugeU8<3>),
}

/// The song of the Song gauge, with the Repertoire it holds.
#[derive(Clone, Copy, Debug, PartialEq, Eq, Structural)]
pub enum SongView {
    /// Mage's Ballad is active.
    Ballad,
    /// Army's Paeon is active, with its Repertoire.
    Paeon(u8),
    /// The Wanderer's Minuet is active, with its Repertoire.
    Minuet(u8),
}

impl View for BrdSong {
    type V = SongView;

    open spec fn view(&self) -> SongView {
        match self {
            BrdSong::Ballad => SongView::Ballad,
            BrdSong::Paeon(r) => SongView::Paeon(r@),
            BrdSong::Minuet(r) => SongView::Minuet(r@),
        }
    }
}

/// The status effect associated with a song.
pub open spec fn spec_song_buff(s: SongView) -> StatusEffect {
    match s {
        SongView::Ballad => spec_ballad(),
        SongView::Paeon(_) => spec_paeon(),
        SongView::Minuet(_) => spec_minuet(),
    }
}

impl BrdSong {
    /// Returns the status effect associated with the song.
    pub fn song_buff(&self) -> (r: StatusEffect)
        ensures
            r == spec_song_buff(self@),
    {
        match self {
            BrdSong::Ballad => ballad(),
            BrdSong::Paeon(..) => paeon(),
            BrdSong::Minuet(..) => minuet(),
        }
    }
}

/// The Coda gauge.
#[derive(Clone, Copy, Debug, Default)]
pub struct Coda {
    bits: u8,
}

impl View for Coda {
    type V = u8;

    /// The Coda held: bit `0` for Mage's Coda, bit `1` for Army's Coda and bit `2`
    /// for Wanderer's Coda.
    closed spec fn view(&self) -> u8 {
        self.bits
    }
}

impl Coda {
    /// Grants Mage's Coda.
    pub fn grant_mages(&mut self)
        ensures
            final(self)@ == old(self)@ | 1,
    {
        self.bits = self.bits | 1;
    }

    /// Grants Army's Coda.
    pub fn grant_armys(&mut self)
        ensures
            final(self)@ == old(self)@ | 2,
    {
        self.bits = self.bits | 2;
    }

    /// Grants Wanderer's Coda.
    pub fn grant_wanderers(&mut self)
        ensures
            final(self)@ == old(self)@ | 4,
    {
        self.bits = self.bits | 4;
    }

    /// Returns the number of Coda present.
    pub fn count(&self) -> (r: u8)
        ensures
            r == spec_count_ones(self@),
    {
        count_ones(self.bits)
    }

    /// Clears the Coda gauge.
    pub fn clear(&mut self)
        ensures
            final(self)@ == 0,
    {
        self.bits = 0;
    }
}

/// The state of the Bard job gauges.
#[derive(Clone, Copy, Debug, Default)]
pub struct BrdState {
    /// The Song gauge: the song and the time left on it.
    pub song: Option<(BrdSong, u16)>,
    /// The Soul Voice gauge.
    pub soul: GaugeU8<100>,
    /// The Coda gauge.
    pub coda: Coda,
    /// A counter that names the current song instance, so that the events of an
    /// earlier song can be told apart and discarded.
    pub song_gen: u16,
}

/// The Bard state as plain values.
#[derive(Clone, Copy, Debug)]
pub struct BrdGauges {
    /// The song and the time left on it.
    pub song: Option<(SongView, u16)>,
    /// The Soul Voice gauge.
    pub soul: u8,
    /// The Coda held.
    pub coda: u8,
    /// The song counter.
    pub song_gen: u16,
}

impl BrdState {
    /// `true` for the state of a Bard that has done nothing yet.
    pub open spec fn spec_is_new(&self) -> bool {
        &&& self.song is None
        &&& self.soul@ == 0
        &&& self.coda@ == 0
        &&& self.song_gen == 0
    }

    /// Creates the state of a Bard that has done nothing yet: no song, and every
    /// gauge empty.
    pub fn new() -> (r: Self)
        ensures
            r.spec_is_new(),
    {
        BrdState { song: None, soul: GaugeU8::new(), coda: Coda { bits: 0 }, song_gen: 0 }
    }

    /// The state as plain values.
    pub open spec fn gauges(&self) -> BrdGauges {
        BrdGauges {
            song: match self.song {
                Some((s, t)) => Some((s@, t)),
                None => None,
            },
            soul: self.soul@,
            coda: self.coda@,
            song_gen: self.song_gen,
        }
    }
}

impl JobState for BrdState {
    open spec fn spec_advanced(&self, time: u32, next: &Self) -> bool {
        &&& next.gauges().song == match self.gauges().song {
            Some((s, t)) => Some((s, (if t >= time {
                t - time
            } else {
                0
            }) as u16)),
            None => None,
        }
        &&& next.gauges().soul == self.gauges().soul
        &&& next.gauges().coda == self.gauges().coda
        &&& next.song_gen == self.song_gen
    }

    fn advance(&mut self, time: u32) {
        let song = self.song;
        match song {
            Some((s, t)) => {
                let left: u16 = if (t as u32) >= time {
                    ((t as u32) - time) as u16
                } else {
                    0
                };
                self.song = Some((s, left));
            },
            None => {},
        }
    }
}

impl JobAction for BrdAction {
    open spec fn spec_category(&self) -> ActionCategory {
        spec_brd_category(*self)
    }

    open spec fn spec_gcd(&self) -> bool {
        spec_brd_gcd(*self) is Some
    }

    fn category(&self) -> (r: ActionCategory) {
        BrdAction::category(self)
    }

    fn gcd(&self) -> (r: bool) {
        BrdAction::gcd(self).is_some()
    }
}

/// A custom event for Bard.
#[derive(Clone, Copy, Debug, PartialEq, Eq, Structural)]
pub enum BrdEvent {
    /// A song tick will happen.
    SongTick {
        /// The generation of the song: see [`BrdState::song_gen`].
        gen: u16,
    },
}

impl BrdEvent {
    /// Creates a new [`SongTick`](BrdEvent::SongTick) event.
    pub fn song_tick(gen: u16) -> (r: Self)
        ensures
            r == (BrdEvent::SongTick { gen }),
    {
        BrdEvent::SongTick { gen }
    }
}

/// The alternate cooldown group an action is part of.
pub open spec fn spec_brd_alt_cd_group(a: BrdAction) -> Option<BrdCdGroup> {
    match a {
        BrdAction::Bloodletter | BrdAction::RainOfDeath | BrdAction::HeartbreakShot => Some(
            BrdCdGroup::BloodLetterChg,
        ),
        _ => None,
    }
}

impl BrdAction {
    /// Returns the alternate cooldown group that this action is part of, or `None`
    /// if it has none. It is used for the time between uses of charged actions.
    pub fn alt_cd_group(&self) -> (r: Option<BrdCdGroup>)
        ensures
            r == spec_brd_alt_cd_group(*self),
    {
        match self {
            BrdAction::Bloodletter | BrdAction::RainOfDeath | BrdAction::HeartbreakShot => Some(
                BrdCdGroup::BloodLetterChg,
            ),
            _ => None,
        }
    }
}

/// A Bard action as an action of the world.
pub open spec fn brd_action(ac: BrdAction) -> Action {
    Action::Job(job::Action::Brd(ac))
}

/// A hit of `pot` piercing potency.
pub open spec fn brd_hit(pot: u64) -> DamageInstance {
    DamageInstance { ty: DamageType::Piercing, ..spec_damage(pot) }
}

/// A hit of `pot` piercing potency with a damage falloff of `f` percent.
pub open spec fn brd_hit_falloff(pot: u64, f: u8) -> DamageInstance {
    DamageInstance { dmg: (pot * f / 100) as u64, ..brd_hit(pot) }
}

/// Returns a hit of `pot` piercing potency.
fn hit(pot: u64) -> (r: DamageInstance)
    ensures
        r == brd_hit(pot),
{
    DamageInstance::new(pot).piercing()
}

/// `true` if casting the action rolls for Hawk's Eye, given whether it has a target.
pub open spec fn spec_rolls_hawks_eye(ac: BrdAction, has_target: bool) -> bool {
    has_target && match ac {
        BrdAction::HeavyShot | BrdAction::BurstShot | BrdAction::VenomousBite
        | BrdAction::CausticBite | BrdAction::QuickNock | BrdAction::Ladonsbite
        | BrdAction::Windbite | BrdAction::Stormbite | BrdAction::IronJaws => true,
        _ => false,
    }
}

/// Returns `true` if casting the action rolls for Hawk's Eye (a `35%` chance):
/// the outcome of that roll is the `hawks_eye` argument of [`BrdJob::cast_snap`].
pub fn rolls_hawks_eye(ac: BrdAction, ctx: &CastContext) -> (r: bool)
    ensures
        r == spec_rolls_hawks_eye(ac, ctx.spec_targets().len() > 0),
{
    let has_target = first_target(ctx).is_some();
    has_target && match ac {
        BrdAction::HeavyShot | BrdAction::BurstShot | BrdAction::VenomousBite
        | BrdAction::CausticBite | BrdAction::QuickNock | BrdAction::Ladonsbite
        | BrdAction::Windbite | BrdAction::Stormbite | BrdAction::IronJaws => true,
        _ => false,
    }
}

/// The operation that grants Hawk's Eye when the roll for it succeeded.
pub open spec fn hawks_eye_ops(me: ActorId, proc: bool) -> Seq<SinkOp> {
    if proc {
        seq![apply_op(spec_hawks_eye(), 1, me, me, 0)]
    } else {
        Seq::empty()
    }
}

/// The operation that applies a Bard damage over time effect.
pub open spec fn brd_dot_op(status: StatusEffect, pot: u64, t: ActorId) -> SinkOp {
    SinkOp::Dot {
        status,
        damage: brd_hit(pot),
        stat: SpeedStat::SkillSpeed,
        stacks: 1,
        target: t,
        delay: 0,
    }
}

/// The song counter after one more song.
pub open spec fn next_gen(gen: u16) -> u16 {
    if gen == u16::MAX {
        0
    } else {
        (gen + 1) as u16
    }
}

/// The operations that grant Army's Muse when a song replaces Army's Paeon, or
/// when Army's Ethos is active.
pub open spec fn muse_ops(g: BrdGauges, ctx: CastContext) -> Seq<SinkOp> {
    let me = ctx.this;
    match g.song {
        Some((SongView::Paeon(rep), _)) => if rep > 0 {
            seq![apply_op(spec_muse(), rep, me, me, 0)]
        } else {
            Seq::empty()
        },
        _ => match spec_get_status(ctx.statuses@, spec_ethos(), me) {
            Some(e) => seq![remove_op(spec_ethos(), me, me, 0), apply_op(spec_muse(), e.stack, me, me, 0)],
            None => Seq::empty(),
        },
    }
}

/// The operations of starting a song: the statuses of the other two songs are
/// removed, the status of the song is applied, and its first tick is scheduled.
pub open spec fn song_ops(me: ActorId, song: SongView, gen: u16) -> Seq<SinkOp> {
    let (r1, r2) = match song {
        SongView::Ballad => (spec_paeon(), spec_minuet()),
        SongView::Paeon(_) => (spec_ballad(), spec_minuet()),
        SongView::Minuet(_) => (spec_ballad(), spec_paeon()),
    };
    seq![
        remove_op(r1, me, me, 0),
        remove_op(r2, me, me, 0),
        apply_op(spec_song_buff(song), 1, me, me, 0),
        SinkOp::Event {
            event: Event::Job(job::JobEvent::Brd(BrdEvent::SongTick { gen }), me),
            delay: 3000,
        },
    ]
}

/// A Repertoire proc: Soul Voice grows by `5`, and the song gains Repertoire or,
/// for Mage's Ballad, advances the Bloodletter cooldown by `7500`. Without a
/// song nothing happens.
pub open spec fn spec_repertoire(g: BrdGauges, me: ActorId) -> (BrdGauges, Seq<SinkOp>) {
    match g.song {
        Some((s, t)) => (
            BrdGauges {
                soul: add_sat(g.soul, 5, 100),
                song: Some(
                    (
                        match s {
                            SongView::Ballad => SongView::Ballad,
                            SongView::Paeon(r) => SongView::Paeon(add_sat(r, 1, 4)),
                            SongView::Minuet(r) => SongView::Minuet(add_sat(r, 1, 3)),
                        },
                        t,
                    ),
                ),
                ..g
            },
            if s is Ballad {
                seq![
                    SinkOp::Event {
                        event: Event::AdvCd(job::CdGroup::Brd(BrdCdGroup::Bloodletter), 7500, me),
                        delay: 0,
                    },
                ]
            } else {
                Seq::empty()
            },
        ),
        None => (g, Seq::empty()),
    }
}

/// The potency of Pitch Perfect for a number of Repertoire stacks.
pub open spec fn spec_pitch_potency(rep: u8) -> Option<u64> {
    if rep == 1 {
        Some(100)
    } else if rep == 2 {
        Some(220)
    } else if rep == 3 {
        Some(360)
    } else {
        None
    }
}

/// The potency of Radiant Encore for a number of Coda it was granted with.
pub open spec fn spec_encore_potency(stacks: u8) -> u64 {
    if stacks == 1 {
        500
    } else if stacks == 2 {
        600
    } else if stacks == 3 {
        900
    } else {
        0
    }
}

/// What casting a Bard action does: the gauges it leaves, the operations it asks
/// of the event sink in order, and whether it succeeded. `proc` is the outcome of
/// the roll for Hawk's Eye, used only when the action rolls for it.
pub open spec fn spec_brd_cast_snap(ac: BrdAction, g: BrdGauges, ctx: CastContext, proc: bool) -> (
    BrdGauges,
    Seq<SinkOp>,
    Result<(), EventError>,
) {
    let me = ctx.this;
    let tg = ctx.spec_targets();
    let has_t = tg.len() > 0;
    let t = tg[0];
    let a = brd_action(ac);
    let no_target = (g, Seq::<SinkOp>::empty(), Err::<(), EventError>(EventError::NoTarget));
    let he = hawks_eye_ops(me, proc);
    let barrage = ctx.has_own(spec_barrage());
    match ac {
        BrdAction::HeavyShot | BrdAction::BurstShot => if !has_t {
            no_target
        } else {
            (g, he + seq![damage_op(a, brd_hit(220), t, 0)], Ok(()))
        },
        BrdAction::StraightShot | BrdAction::RefulgentArrow => if !has_t {
            no_target
        } else if barrage {
            (
                g,
                seq![
                    status_op(StatusEvent::spec_remove(spec_barrage(), me, me), 0),
                    damage_op(a, brd_hit(280), t, 0),
                    damage_op(a, brd_hit(280), t, 45),
                    damage_op(a, brd_hit(280), t, 90),
                ],
                Ok(()),
            )
        } else if ctx.has_own(spec_hawks_eye()) {
            (
                g,
                seq![
                    status_op(StatusEvent::spec_remove(spec_hawks_eye(), me, me), 0),
                    damage_op(a, brd_hit(280), t, 0),
                ],
                Ok(()),
            )
        } else {
            (g, Seq::empty(), Err(brd_err(BrdError::HawksEye)))
        },
        BrdAction::RagingStrikes => (g, seq![apply_op(spec_raging_strikes(), 1, me, me, 0)], Ok(())),
        BrdAction::VenomousBite | BrdAction::CausticBite => if !has_t {
            no_target
        } else {
            (
                g,
                he + seq![brd_dot_op(spec_caustic_bite(), 20, t), damage_op(a, brd_hit(150), t, 0)],
                Ok(()),
            )
        },
        BrdAction::Bloodletter | BrdAction::HeartbreakShot => if !has_t {
            no_target
        } else {
            (g, seq![damage_op(a, brd_hit(110), t, 0)], Ok(()))
        },
        BrdAction::QuickNock | BrdAction::Ladonsbite => if !has_t {
            no_target
        } else {
            (g, he + aoe_ops(a, brd_hit(130), brd_hit(130), tg, 0, 45), Ok(()))
        },
        BrdAction::Windbite | BrdAction::Stormbite => if !has_t {
            no_target
        } else {
            (
                g,
                he + seq![brd_dot_op(spec_stormbite(), 25, t), damage_op(a, brd_hit(100), t, 0)],
                Ok(()),
            )
        },
        BrdAction::Barrage => (
            g,
            seq![
                apply_op(spec_barrage(), 1, me, me, 0),
                apply_op(spec_resonant_arrow(), 1, me, me, 0),
            ],
            Ok(()),
        ),
        BrdAction::MagesBallad | BrdAction::ArmysPaeon | BrdAction::WanderersMinuet => if !ctx.in_combat {
            (g, Seq::empty(), Err(EventError::InCombat))
        } else {
            let song = match ac {
                BrdAction::MagesBallad => SongView::Ballad,
                BrdAction::ArmysPaeon => SongView::Paeon(0),
                _ => SongView::Minuet(0),
            };
            let gen = next_gen(g.song_gen);
            (
                BrdGauges { song: Some((song, SONG_LEN)), song_gen: gen, ..g },
                (if ac is ArmysPaeon {
                    Seq::empty()
                } else {
                    muse_ops(g, ctx)
                }) + song_ops(me, song, gen),
                Ok(()),
            )
        },
        BrdAction::RainOfDeath => if !has_t {
            no_target
        } else {
            (g, aoe_ops(a, brd_hit(100), brd_hit(100), tg, 0, 45), Ok(()))
        },
        BrdAction::BattleVoice => (
            g,
            aoe_status_ops(spec_battle_voice(), 1, me, tg, 0, 135),
            Ok(()),
        ),
        BrdAction::EmpyrealArrow => if !has_t {
            no_target
        } else {
            let rep = spec_repertoire(g, me);
            (rep.0, rep.1 + seq![damage_op(a, brd_hit(240), t, 0)], Ok(()))
        },
        BrdAction::IronJaws => if !has_t {
            no_target
        } else {
            (
                g,
                he + (if spec_has_status(ctx.target_statuses@, spec_stormbite(), me) {
                    seq![brd_dot_op(spec_stormbite(), 25, t)]
                } else {
                    Seq::empty()
                }) + (if spec_has_status(ctx.target_statuses@, spec_caustic_bite(), me) {
                    seq![brd_dot_op(spec_caustic_bite(), 20, t)]
                } else {
                    Seq::empty()
                }) + seq![damage_op(a, brd_hit(100), t, 0)],
                Ok(()),
            )
        },
        BrdAction::Sidewinder => if !has_t {
            no_target
        } else {
            (g, seq![damage_op(a, brd_hit(320), t, 0)], Ok(()))
        },
        BrdAction::Shadowbite => if !has_t {
            no_target
        } else {
            let pot: u64 = if barrage {
                270
            } else {
                170
            };
            (
                g,
                (if barrage {
                    seq![status_op(StatusEvent::spec_remove(spec_barrage(), me, me), 0)]
                } else {
                    seq![remove_op(spec_hawks_eye(), me, me, 0)]
                }) + aoe_ops(a, brd_hit(pot), brd_hit(pot), tg, 0, 45),
                Ok(()),
            )
        },
        BrdAction::ApexArrow => if !has_t {
            no_target
        } else if g.soul < 20 {
            (g, Seq::empty(), Err(brd_err(BrdError::SoulVoice(20))))
        } else {
            let pot = (g.soul * 6) as u64;
            (
                BrdGauges { soul: 0, ..g },
                (if g.soul >= 80 {
                    seq![apply_op(spec_blast_arrow(), 1, me, me, 0)]
                } else {
                    Seq::empty()
                }) + aoe_ops(a, brd_hit(pot), brd_hit(pot), tg, 0, 45),
                Ok(()),
            )
        },
        BrdAction::RadiantFinale => {
            let stacks = spec_count_ones(g.coda);
            (
                BrdGauges { coda: 0, ..g },
                seq![apply_op(spec_radiant_encore(), stacks, me, me, 0)] + aoe_status_ops(
                    spec_radiant_finale(),
                    stacks,
                    me,
                    tg,
                    0,
                    135,
                ),
                Ok(()),
            )
        },
        BrdAction::PitchPerfect => if !has_t {
            no_target
        } else {
            match g.song {
                Some((SongView::Minuet(rep), time)) => {
                    let cleared = BrdGauges { song: Some((SongView::Minuet(0), time)), ..g };
                    match spec_pitch_potency(rep) {
                        Some(pot) => (
                            cleared,
                            aoe_ops(a, brd_hit(pot), brd_hit_falloff(pot, 50), tg, 0, 45),
                            Ok(()),
                        ),
                        None => (cleared, Seq::empty(), Err(brd_err(BrdError::PitchPerfect))),
                    }
                },
                _ => (g, Seq::empty(), Err(brd_err(BrdError::PitchPerfect))),
            }
        },
        BrdAction::BlastArrow | BrdAction::ResonantArrow => {
            let (st, e, f) = if ac is BlastArrow {
                (spec_blast_arrow(), BrdError::BlastArrow, 40u8)
            } else {
                (spec_resonant_arrow(), BrdError::ResonantArrow, 50u8)
            };
            if !has_t {
                no_target
            } else if !ctx.has_own(st) {
                (g, Seq::empty(), Err(brd_err(e)))
            } else {
                (
                    g,
                    seq![status_op(StatusEvent::spec_remove(st, me, me), 0)] + aoe_ops(
                        a,
                        brd_hit(600),
                        brd_hit_falloff(600, f),
                        tg,
                        0,
                        45,
                    ),
                    Ok(()),
                )
            }
        },
        BrdAction::RadiantEncore => if !has_t {
            no_target
        } else {
            match spec_get_status(ctx.statuses@, spec_radiant_encore(), me) {
                Some(s) => {
                    let pot = spec_encore_potency(s.stack);
                    (
                        g,
                        seq![remove_op(spec_radiant_encore(), me, me, 0)] + aoe_ops(
                            a,
                            brd_hit(pot),
                            brd_hit_falloff(pot, 50),
                            tg,
                            0,
                            45,
                        ),
                        Ok(()),
                    )
                },
                None => (g, Seq::empty(), Err(brd_err(BrdError::RadiantEncore))),
            }
        },
        _ => (g, Seq::empty(), Ok(())),
    }
}

/// The exec side of [`spec_repertoire`].
fn repertoire(state: &mut BrdState, me: ActorId, ops: &mut Vec<SinkOp>)
    ensures
        final(state).gauges() == spec_repertoire(old(state).gauges(), me).0,
        final(ops)@ == old(ops)@ + spec_repertoire(old(state).gauges(), me).1,
{
    let song = state.song;
    match song {
        Some((s, t)) => {
            state.soul.add_assign(5);
            let ns = match s {
                BrdSong::Ballad => {
                    ops.push(
                        SinkOp::Event {
                            event: Event::AdvCd(
                                job::CdGroup::Brd(BrdCdGroup::Bloodletter),
                                7500,
                                me,
                            ),
                            delay: 0,
                        },
                    );
                    BrdSong::Ballad
                },
                BrdSong::Paeon(r) => {
                    let mut r = r;
                    r.add_assign(1);
                    BrdSong::Paeon(r)
                },
                BrdSong::Minuet(r) => {
                    let mut r = r;
                    r.add_assign(1);
                    BrdSong::Minuet(r)
                },
            };
            state.song = Some((ns, t));
        },
        None => {
            assert(old(ops)@ + Seq::<SinkOp>::empty() =~= old(ops)@);
        },
    }
}

/// Starts a song: grants Army's Muse where due, replaces the song, and asks for
/// the song statuses and the first song tick.
fn start_song(state: &mut BrdState, ctx: &CastContext, ops: &mut Vec<SinkOp>, ac: BrdAction)
    requires
        ac is MagesBallad || ac is ArmysPaeon || ac is WanderersMinuet,
        ctx.in_combat,
    ensures
        final(state).gauges() == spec_brd_cast_snap(ac, old(state).gauges(), *ctx, false).0,
        final(ops)@ == old(ops)@ + spec_brd_cast_snap(ac, old(state).gauges(), *ctx, false).1,
{
    let me = ctx.this;
    let ghost g = old(state).gauges();
    let ghost start = ops@;
    if ac != BrdAction::ArmysPaeon {
        let song = state.song;
        match song {
            Some((BrdSong::Paeon(rep), _)) => {
                if rep.value() > 0 {
                    ops.apply_status(me, muse(), rep.value(), me, 0);
                }
            },
            _ => {
                match get_status(&ctx.statuses, ethos(), me) {
                    Some(e) => {
                        ops.remove_status(me, ethos(), me, 0);
                        ops.apply_status(me, muse(), e.stack, me, 0);
                    },
                    None => {},
                }
            },
        }
    }
    let ghost after_muse = ops@;
    let (song, r1, r2, buff) = match ac {
        BrdAction::MagesBallad => (BrdSong::Ballad, paeon(), minuet(), ballad()),
        BrdAction::ArmysPaeon => (BrdSong::Paeon(GaugeU8::new()), ballad(), minuet(), paeon()),
        _ => (BrdSong::Minuet(GaugeU8::new()), ballad(), paeon(), minuet()),
    };
    state.song = Some((song, SONG_LEN));
    state.song_gen = if state.song_gen == u16::MAX {
        0
    } else {
        state.song_gen + 1
    };
    ops.remove_status(me, r1, me, 0);
    ops.remove_status(me, r2, me, 0);
    ops.apply_status(me, buff, 1, me, 0);
    ops.push(
        SinkOp::Event {
            event: Event::Job(job::JobEvent::Brd(BrdEvent::song_tick(state.song_gen)), me),
            delay: 3000,
        },
    );
    proof {
        let m = if ac is ArmysPaeon {
            Seq::<SinkOp>::empty()
        } else {
            muse_ops(g, *ctx)
        };
        assert(after_muse =~= start + m);
        assert(ops@ =~= start + (m + song_ops(me, song@, state.song_gen)));
    }
}

impl BrdJob {
    /// Executes the specified action: the changes to the job gauges it makes, the
    /// operations it asks of the event sink in order, and whether it succeeded.
    ///
    /// `hawks_eye` is the outcome of the roll for Hawk's Eye; it is only used when
    /// [`rolls_hawks_eye`] says the action rolls for it.
    pub fn cast_snap(ac: BrdAction, state: &mut BrdState, ctx: &CastContext, hawks_eye: bool) -> (r: (
        Vec<SinkOp>,
        Result<(), EventError>,
    ))
        requires
            135 * ctx.spec_targets().len() <= u32::MAX,
        ensures
            final(state).gauges() == spec_brd_cast_snap(ac, old(state).gauges(), *ctx, hawks_eye).0,
            r.0@ == spec_brd_cast_snap(ac, old(state).gauges(), *ctx, hawks_eye).1,
            r.1 == spec_brd_cast_snap(ac, old(state).gauges(), *ctx, hawks_eye).2,
    {
        let mut ops: Vec<SinkOp> = Vec::new();
        let me = ctx.this;
        let a = Action::Job(job::Action::Brd(ac));
        let target = first_target(ctx);
        match ac {
            BrdAction::MagesBallad | BrdAction::ArmysPaeon | BrdAction::WanderersMinuet => {
                if !ctx.in_combat {
                    return (ops, Err(EventError::InCombat));
                }
                start_song(state, ctx, &mut ops, ac);
                assert(ops@ =~= spec_brd_cast_snap(ac, old(state).gauges(), *ctx, hawks_eye).1);
                return (ops, Ok(()));
            },
            BrdAction::RagingStrikes => {
                ops.apply_status(me, raging_strikes(), 1, me, 0);
                return (ops, Ok(()));
            },
            BrdAction::Barrage => {
                ops.apply_status(me, barrage(), 1, me, 0);
                ops.apply_status(me, resonant_arrow(), 1, me, 0);
                return (ops, Ok(()));
            },
            BrdAction::BattleVoice => {
                push_aoe_status(&mut ops, battle_voice(), 1, ctx, 0, 3);
                assert(ops@ =~= spec_brd_cast_snap(ac, old(state).gauges(), *ctx, hawks_eye).1);
                return (ops, Ok(()));
            },
            BrdAction::RadiantFinale => {
                let stacks = state.coda.count();
                ops.apply_status(me, radiant_encore(), stacks, me, 0);
                state.coda.clear();
                push_aoe_status(&mut ops, radiant_finale(), stacks, ctx, 0, 3);
                assert(ops@ =~= spec_brd_cast_snap(ac, old(state).gauges(), *ctx, hawks_eye).1);
                return (ops, Ok(()));
            },
            BrdAction::RepellingShot | BrdAction::WardensPaean | BrdAction::NaturesMinne
            | BrdAction::Troubadour => {
                return (ops, Ok(()));
            },
            _ => {},
        }
        let t = match target {
            Some(t) => t,
            None => {
                return (ops, Err(EventError::NoTarget));
            },
        };
        cast_on_target(ac, state, ctx, hawks_eye, t, ops)
    }
}

/// The actions of [`BrdJob::cast_snap`] that need a target, once they have one.
fn cast_on_target(
    ac: BrdAction,
    state: &mut BrdState,
    ctx: &CastContext,
    proc: bool,
    t: ActorId,
    ops: Vec<SinkOp>,
) -> (r: (Vec<SinkOp>, Result<(), EventError>))
    requires
        ops@.len() == 0,
        ctx.spec_targets().len() > 0,
        t == ctx.spec_targets()[0],
        135 * ctx.spec_targets().len() <= u32::MAX,
        !(ac is MagesBallad || ac is ArmysPaeon || ac is WanderersMinuet || ac is RagingStrikes
            || ac is Barrage || ac is BattleVoice || ac is RadiantFinale || ac is RepellingShot
            || ac is WardensPaean || ac is NaturesMinne || ac is Troubadour),
    ensures
        final(state).gauges() == spec_brd_cast_snap(ac, old(state).gauges(), *ctx, proc).0,
        r.0@ == spec_brd_cast_snap(ac, old(state).gauges(), *ctx, proc).1,
        r.1 == spec_brd_cast_snap(ac, old(state).gauges(), *ctx, proc).2,
{
    let mut ops = ops;
    let me = ctx.this;
    let a = Action::Job(job::Action::Brd(ac));
    let ghost g = old(state).gauges();
    let ghost expected = spec_brd_cast_snap(ac, g, *ctx, proc).1;
    if proc && match ac {
        BrdAction::HeavyShot | BrdAction::BurstShot | BrdAction::VenomousBite
        | BrdAction::CausticBite | BrdAction::QuickNock | BrdAction::Ladonsbite
        | BrdAction::Windbite | BrdAction::Stormbite | BrdAction::IronJaws => true,
        _ => false,
    } {
        ops.apply_status(me, hawks_eye(), 1, me, 0);
    }
    match ac {
        BrdAction::HeavyShot | BrdAction::BurstShot => {
            ops.damage(a, hit(220), t, 0);
        },
        BrdAction::StraightShot | BrdAction::RefulgentArrow => {
            if consume_status(ctx, &mut ops, barrage(), 0) {
                ops.damage(a, hit(280), t, 0);
                ops.damage(a, hit(280), t, 45);
                ops.damage(a, hit(280), t, 90);
            } else if consume_status(ctx, &mut ops, hawks_eye(), 0) {
                ops.damage(a, hit(280), t, 0);
            } else {
                assert(ops@ =~= expected);
                return (ops, Err(err(BrdError::HawksEye)));
            }
        },
        BrdAction::VenomousBite | BrdAction::CausticBite | BrdAction::Windbite
        | BrdAction::Stormbite => {
            let (st, dot_pot, pot): (StatusEffect, u64, u64) = if ac == BrdAction::VenomousBite
                || ac == BrdAction::CausticBite {
                (caustic_bite(), 20, 150)
            } else {
                (stormbite(), 25, 100)
            };
            ops.push(
                SinkOp::Dot {
                    status: st,
                    damage: hit(dot_pot),
                    stat: SpeedStat::SkillSpeed,
                    stacks: 1,
                    target: t,
                    delay: 0,
                },
            );
            ops.damage(a, hit(pot), t, 0);
        },
        BrdAction::Bloodletter | BrdAction::HeartbreakShot | BrdAction::Sidewinder => {
            let pot: u64 = if ac == BrdAction::Sidewinder {
                320
            } else {
                110
            };
            ops.damage(a, hit(pot), t, 0);
        },
        BrdAction::QuickNock | BrdAction::Ladonsbite | BrdAction::RainOfDeath => {
            let pot: u64 = if ac == BrdAction::RainOfDeath {
                100
            } else {
                130
            };
            push_aoe_all(&mut ops, a, hit(pot), hit(pot), ctx, 0, 1);
        },
        BrdAction::EmpyrealArrow => {
            repertoire(state, me, &mut ops);
            ops.damage(a, hit(240), t, 0);
        },
        BrdAction::IronJaws => {
            if has_status(&ctx.target_statuses, stormbite(), me) {
                ops.push(
                    SinkOp::Dot {
                        status: stormbite(),
                        damage: hit(25),
                        stat: SpeedStat::SkillSpeed,
                        stacks: 1,
                        target: t,
                        delay: 0,
                    },
                );
            }
            if has_status(&ctx.target_statuses, caustic_bite(), me) {
                ops.push(
                    SinkOp::Dot {
                        status: caustic_bite(),
                        damage: hit(20),
                        stat: SpeedStat::SkillSpeed,
                        stacks: 1,
                        target: t,
                        delay: 0,
                    },
                );
            }
            ops.damage(a, hit(100), t, 0);
        },
        BrdAction::Shadowbite => {
            let b = consume_status(ctx, &mut ops, barrage(), 0);
            if !b {
                ops.remove_status(me, hawks_eye(), me, 0);
            }
            let pot: u64 = if b {
                270
            } else {
                170
            };
            push_aoe_all(&mut ops, a, hit(pot), hit(pot), ctx, 0, 1);
        },
        BrdAction::ApexArrow => {
            if state.soul.value() < 20 {
                return (ops, Err(err(BrdError::SoulVoice(20))));
            }
            let pot = (state.soul.value() as u64) * 6;
            if state.soul.value() >= 80 {
                ops.apply_status(me, blast_arrow(), 1, me, 0);
            }
            state.soul.clear();
            push_aoe_all(&mut ops, a, hit(pot), hit(pot), ctx, 0, 1);
        },
        BrdAction::PitchPerfect => {
            let song = state.song;
            let rep_stacks = match song {
                Some((BrdSong::Minuet(rep), time)) => {
                    state.song = Some((BrdSong::Minuet(GaugeU8::new()), time));
                    rep.value()
                },
                _ => {
                    return (ops, Err(err(BrdError::PitchPerfect)));
                },
            };
            let pot: u64 = if rep_stacks == 1 {
                100
            } else if rep_stacks == 2 {
                220
            } else if rep_stacks == 3 {
                360
            } else {
                return (ops, Err(err(BrdError::PitchPerfect)));
            };
            push_aoe_all(&mut ops, a, hit(pot), hit(pot).falloff(50), ctx, 0, 1);
        },
        BrdAction::BlastArrow | BrdAction::ResonantArrow => {
            let (st, e, f): (StatusEffect, BrdError, u8) = if ac == BrdAction::BlastArrow {
                (blast_arrow(), BrdError::BlastArrow, 40)
            } else {
                (resonant_arrow(), BrdError::ResonantArrow, 50)
            };
            if !consume_status(ctx, &mut ops, st, 0) {
                assert(ops@ =~= Seq::<SinkOp>::empty());
                return (ops, Err(err(e)));
            }
            push_aoe_all(&mut ops, a, hit(600), hit(600).falloff(f), ctx, 0, 1);
        },
        _ => {
            let pot = match get_status(&ctx.statuses, radiant_encore(), me) {
                Some(s) => if s.stack == 1 {
                    500
                } else if s.stack == 2 {
                    600
                } else if s.stack == 3 {
                    900
                } else {
                    0
                },
                None => {
                    return (ops, Err(err(BrdError::RadiantEncore)));
                },
            };
            ops.remove_status(me, radiant_encore(), me, 0);
            push_aoe_all(&mut ops, a, hit(pot), hit(pot).falloff(50), ctx, 0, 1);
        },
    }
    assert(ops@ =~= expected);
    (ops, Ok(()))
}

/// The first requirement casting an action fails, if any.
pub open spec fn spec_brd_check_error(ac: BrdAction, g: BrdGauges, ctx: CastContext) -> Option<EventError> {
    match ac {
        BrdAction::ApexArrow => if g.soul < 20 {
            Some(brd_err(BrdError::SoulVoice(20)))
        } else {
            None
        },
        BrdAction::StraightShot | BrdAction::RefulgentArrow | BrdAction::Shadowbite => if !ctx.has_own(
            spec_hawks_eye(),
        ) || !ctx.has_own(spec_barrage()) {
            Some(brd_err(BrdError::HawksEye))
        } else {
            None
        },
        BrdAction::PitchPerfect => match g.song {
            Some((SongView::Minuet(x), _)) => if x > 0 {
                None
            } else {
                Some(brd_err(BrdError::PitchPerfect))
            },
            _ => Some(brd_err(BrdError::PitchPerfect)),
        },
        BrdAction::BlastArrow => if !ctx.has_own(spec_blast_arrow()) {
            Some(brd_err(BrdError::BlastArrow))
        } else {
            None
        },
        BrdAction::RadiantFinale => if spec_count_ones(g.coda) == 0 {
            Some(brd_err(BrdError::Coda))
        } else {
            None
        },
        BrdAction::ResonantArrow => if !ctx.has_own(spec_resonant_arrow()) {
            Some(brd_err(BrdError::ResonantArrow))
        } else {
            None
        },
        BrdAction::RadiantEncore => if !ctx.has_own(spec_radiant_encore()) {
            Some(brd_err(BrdError::RadiantEncore))
        } else {
            None
        },
        _ => None,
    }
}

/// The timing information of casting an action: its GCD, the lock and snapshot of
/// an instant cast with an animation lock of `600`, its cooldown, and a second
/// cooldown of `1000` on its cooldown group.
pub open spec fn spec_brd_cast_info<D: DurationInfo>(ac: BrdAction, di: &D) -> CastInitInfo<BrdCdGroup> {
    let times = spec_cast_times(
        di.spec_duration(ScaleTime::spec_of(0, None, false)) as u16,
        600,
        di.spec_extra_ani_lock(),
    );
    CastInitInfo {
        gcd: match spec_brd_gcd(ac) {
            Some(v) => di.spec_duration(v) as u16,
            None => 0,
        },
        lock: times.0,
        snap: times.1,
        mp: 0,
        cd: match spec_brd_cd_group(ac) {
            Some(g) => Some((g, spec_brd_cooldown(ac), spec_brd_cd_charges(ac))),
            None => None,
        },
        alt_cd: match spec_brd_cd_group(ac) {
            Some(g) => Some((g, 1000u32, 1u8)),
            None => None,
        },
    }
}

impl BrdJob {
    /// Checks that a certain action may be cast, and returns the timing information
    /// of the cast, or the first requirement the action fails.
    pub fn check_cast<D: DurationInfo>(
        action: BrdAction,
        state: &BrdState,
        ctx: &CastContext,
        di: &D,
    ) -> (r: Result<CastInitInfo<BrdCdGroup>, EventError>)
        requires
            (di.spec_duration(ScaleTime::spec_of(0, None, false)) as u16) == 0 ==> 600
                + di.spec_extra_ani_lock() <= u16::MAX,
            (di.spec_duration(ScaleTime::spec_of(0, None, false)) as u16) != 0 ==> (di.spec_duration(
                ScaleTime::spec_of(0, None, false),
            ) as u16) + 10 <= u16::MAX,
        ensures
            r == match spec_brd_check_error(action, state.gauges(), *ctx) {
                Some(e) => Err(e),
                None => Ok(spec_brd_cast_info(action, di)),
            },
    {
        let gcd = match action.gcd() {
            Some(v) => di.get_duration(v),
            None => 0,
        } as u16;
        let (lock, snap) = di.get_cast(ScaleTime::zero(), 600);
        let cd = match action.cd_group() {
            Some(v) => Some((v, action.cooldown(), action.cd_charges())),
            None => None,
        };
        let alt_cd = match action.cd_group() {
            Some(v) => Some((v, 1000u32, 1u8)),
            None => None,
        };
        let me = ctx.this;
        let failed = match action {
            BrdAction::ApexArrow => state.soul.value() < 20,
            BrdAction::StraightShot | BrdAction::RefulgentArrow | BrdAction::Shadowbite => !has_status(
                &ctx.statuses,
                hawks_eye(),
                me,
            ) || !has_status(&ctx.statuses, barrage(), me),
            BrdAction::PitchPerfect => match state.song {
                Some((BrdSong::Minuet(x), _)) => x.value() == 0,
                _ => true,
            },
            BrdAction::BlastArrow => !has_status(&ctx.statuses, blast_arrow(), me),
            BrdAction::RadiantFinale => state.coda.count() == 0,
            BrdAction::ResonantArrow => !has_status(&ctx.statuses, resonant_arrow(), me),
            BrdAction::RadiantEncore => !has_status(&ctx.statuses, radiant_encore(), me),
            _ => false,
        };
        if failed {
            let e = match action {
                BrdAction::ApexArrow => BrdError::SoulVoice(20),
                BrdAction::PitchPerfect => BrdError::PitchPerfect,
                BrdAction::BlastArrow => BrdError::BlastArrow,
                BrdAction::RadiantFinale => BrdError::Coda,
                BrdAction::ResonantArrow => BrdError::ResonantArrow,
                BrdAction::RadiantEncore => BrdError::RadiantEncore,
                _ => BrdError::HawksEye,
            };
            return Err(err(e));
        }
        Ok(CastInitInfo { gcd, lock, snap, mp: 0, cd, alt_cd })
    }
}

/// What a song tick of the song counter `gen` does: when the song is over, it is
/// removed and grants Army's Ethos for the Repertoire of Army's Paeon; otherwise a
/// Repertoire proc (when `rep_proc`) happens and the next tick is scheduled. A tick
/// of an earlier song, or without a song, does nothing.
pub open spec fn spec_song_tick(g: BrdGauges, me: ActorId, gen: u16, rep_proc: bool) -> (BrdGauges, Seq<
    SinkOp,
>) {
    match g.song {
        Some((song, time)) => if gen != g.song_gen {
            (g, Seq::empty())
        } else if time == 0 {
            (
                BrdGauges { song: None, ..g },
                match song {
                    SongView::Paeon(rep) => if rep > 0 {
                        seq![apply_op(spec_ethos(), rep, me, me, 0)]
                    } else {
                        Seq::empty()
                    },
                    _ => Seq::empty(),
                },
            )
        } else {
            let after = if rep_proc {
                spec_repertoire(g, me)
            } else {
                (g, Seq::empty())
            };
            (
                after.0,
                after.1 + seq![
                    SinkOp::Event {
                        event: Event::Job(job::JobEvent::Brd(BrdEvent::SongTick { gen: g.song_gen }), me),
                        delay: 3000,
                    },
                ],
            )
        },
        None => (g, Seq::empty()),
    }
}

impl BrdJob {
    /// Reacts to a song tick event of the actor `me`; `rep_proc` is the outcome of the
    /// roll for a Repertoire proc (an `80%` chance).
    pub fn song_tick(state: &mut BrdState, me: ActorId, gen: u16, rep_proc: bool) -> (ops: Vec<SinkOp>)
        ensures
            final(state).gauges() == spec_song_tick(old(state).gauges(), me, gen, rep_proc).0,
            ops@ == spec_song_tick(old(state).gauges(), me, gen, rep_proc).1,
    {
        let mut ops: Vec<SinkOp> = Vec::new();
        let song = state.song;
        match song {
            Some((s, time)) => {
                if gen == state.song_gen {
                    if time == 0 {
                        match s {
                            BrdSong::Paeon(rep) => {
                                if rep.value() > 0 {
                                    ops.apply_status(me, ethos(), rep.value(), me, 0);
                                }
                            },
                            _ => {},
                        }
                        state.song = None;
                    } else {
                        if rep_proc {
                            repertoire(state, me, &mut ops);
                        }
                        ops.push(
                            SinkOp::Event {
                                event: Event::Job(
                                    job::JobEvent::Brd(BrdEvent::song_tick(state.song_gen)),
                                    me,
                                ),
                                delay: 3000,
                            },
                        );
                    }
                }
            },
            None => {},
        }
        ops
    }
}

impl BrdJob {
    /// Reacts to the tick of another actor: while a song is active, a party member
    /// within `50` of the actor `me` gets the status of the song.
    pub fn actor_tick(state: &BrdState, me: ActorId, other: ActorId, party_in_range: bool) -> (ops: Vec<
        SinkOp,
    >)
        ensures
            ops@ == match state.gauges().song {
                Some((s, _)) => if party_in_range {
                    seq![apply_op(spec_song_buff(s), 1, me, other, 0)]
                } else {
                    Seq::empty()
                },
                None => Seq::empty(),
            },
    {
        let mut ops: Vec<SinkOp> = Vec::new();
        match state.song {
            Some((s, _)) => {
                if party_in_range {
                    ops.apply_status(me, s.song_buff(), 1, other, 0);
                }
            },
            None => {},
        }
        ops
    }
}


/// The Repertoire of Army's Paeon, `0` when another song or none is active.
pub open spec fn paeon_rep(state: BrdState) -> u8 {
    match state.song {
        Some((BrdSong::Paeon(rep), _)) => rep@,
        _ => 0,
    }
}

/// The job effect of Bard: Army's Paeon hastes the Bard by `4%` for every
/// stack of Repertoire.
#[derive(Clone, Copy, Debug)]
pub struct BrdJobEffect(pub BrdState);

impl BrdJobEffect {
    /// Creates the job effect of a Bard state.
    pub fn new(state: BrdState) -> (r: Self)
        ensures
            r.0 == state,
    {
        BrdJobEffect(state)
    }
}

impl BrdJob {
    /// Returns the effect the job state has on the values of the Bard: the haste of
    /// Army's Paeon.
    pub fn effect(state: &BrdState) -> (r: Option<BrdJobEffect>)
        ensures
            r == Some(BrdJobEffect(*state)),
    {
        Some(BrdJobEffect::new(*state))
    }
}

impl JobEffect for BrdJobEffect {
    open spec fn spec_valid(&self) -> bool {
        4 * paeon_rep(self.0) <= 100
    }

    open spec fn spec_damage(&self, damage: u64, dmg_ty: DamageType, dmg_el: DamageElement) -> u64 {
        damage
    }

    open spec fn spec_crit(&self) -> u64 {
        0
    }

    open spec fn spec_dhit(&self) -> u64 {
        0
    }

    open spec fn spec_haste(&self) -> u64 {
        (100 - 4 * paeon_rep(self.0)) as u64
    }

    fn damage(&self, damage: u64, dmg_ty: DamageType, dmg_el: DamageElement) -> (r: u64) {
        damage
    }

    fn crit(&self) -> (r: u64) {
        0
    }

    fn dhit(&self) -> (r: u64) {
        0
    }

    fn haste(&self) -> (r: u64) {
        100 - if let Some((BrdSong::Paeon(rep), _)) = &self.0.song {
            rep.value() as u64 * 4
        } else {
            0
        }
    }
}


/// The random event for a Straight Shot proc: a `35%` chance.
#[derive(Clone, Copy, Debug, PartialEq, Eq, Structural)]
pub struct HawksEyeProc;

impl HawksEyeProc {
    /// Returns the chance of the proc, as a numerator over a denominator.
    pub fn ratio(&self) -> (r: (u32, u32))
        ensures
            r == (35u32, 100u32),
    {
        (35, 100)
    }

    /// Rolls the proc: `true` with the probability of its [`ratio`](HawksEyeProc::ratio).
    pub fn sample(&self, rng: &mut StdRng) -> (r: bool) {
        let (n, d) = self.ratio();
        gen_ratio(rng, n, d)
    }
}

/// The random event for a Repertoire proc: an `80%` chance.
#[derive(Clone, Copy, Debug, PartialEq, Eq, Structural)]
pub struct RepertoireProc;

impl RepertoireProc {
    /// Returns the chance of the proc, as a numerator over a denominator.
    pub fn ratio(&self) -> (r: (u32, u32))
        ensures
            r == (8u32, 10u32),
    {
        (8, 10)
    }

    /// Rolls the proc: `true` with the probability of its [`ratio`](RepertoireProc::ratio).
    pub fn sample(&self, rng: &mut StdRng) -> (r: bool) {
        let (n, d) = self.ratio();
        gen_ratio(rng, n, d)
    }
}


/// The message of a Bard error.
pub open spec fn spec_brd_error_message(e: BrdError) -> Seq<char> {
    match e {
        BrdError::SoulVoice(req) => "Not enough Soul Voice gauge, needed at least "@ + spec_decimal(req) + "."@,
        BrdError::HawksEye => spec_status_proc_error(spec_hawks_eye()),
        BrdError::PitchPerfect => "Not enough stacks of Repertoire to cast 'Pitch Perfect'."@,
        BrdError::BlastArrow => spec_status_proc_error(spec_blast_arrow()),
        BrdError::Coda => "Not enough Coda."@,
        BrdError::ResonantArrow => spec_status_proc_error(spec_resonant_arrow()),
        BrdError::RadiantEncore => spec_status_proc_error(spec_radiant_encore()),
    }
}

impl BrdError {
    /// Returns the message of the error.
    pub fn message(&self) -> (r: String)
        ensures
            r@ == spec_brd_error_message(*self),
    {
        match self {
            BrdError::SoulVoice(req) => {
                let mut s = String::from_str("Not enough Soul Voice gauge, needed at least ");
                push_decimal(&mut s, *req);
                s.append(".");
                s
            },
            BrdError::HawksEye => status_proc_error(hawks_eye()),
            BrdError::PitchPerfect => String::from_str("Not enough stacks of Repertoire to cast 'Pitch Perfect'."),
            BrdError::BlastArrow => status_proc_error(blast_arrow()),
            BrdError::Coda => String::from_str("Not enough Coda."),
            BrdError::ResonantArrow => status_proc_error(resonant_arrow()),
            BrdError::RadiantEncore => status_proc_error(radiant_encore()),
        }
    }
}


impl BrdJob {
    /// Rolls what a cast needs, then executes the action: draws the Hawk's Eye
    /// proc when [`rolls_hawks_eye`] says the action rolls it, and hands the outcome
    /// to [`BrdJob::cast_snap`]; an action that rolls none gets no proc.
    pub fn roll_and_cast(ac: BrdAction, state: &mut BrdState, ctx: &CastContext, rng: &mut StdRng) -> (r: (
        Vec<SinkOp>,
        Result<(), EventError>,
    ))
        requires
            135 * ctx.spec_targets().len() <= u32::MAX,
        ensures
            exists|hawks_eye: bool|
                {
                    &&& (spec_rolls_hawks_eye(ac, ctx.spec_targets().len() > 0) || !hawks_eye)
                    &&& final(state).gauges() == #[trigger] spec_brd_cast_snap(ac, old(state).gauges(), *ctx, hawks_eye).0
                    &&& r.0@ == spec_brd_cast_snap(ac, old(state).gauges(), *ctx, hawks_eye).1
                    &&& r.1 == spec_brd_cast_snap(ac, old(state).gauges(), *ctx, hawks_eye).2
                },
    {
        let hawks_eye = if rolls_hawks_eye(ac, ctx) {
            HawksEyeProc.sample(rng)
        } else {
            false
        };
        Self::cast_snap(ac, state, ctx, hawks_eye)
    }
}

} // verus!
