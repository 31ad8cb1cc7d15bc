//! Logic and types for Dancer.
use vstd::prelude::*;

use rand::rngs::StdRng;

use crate::enums::{spec_damage, ActionCategory, DamageInstance, DamageType};
use crate::job::{self, CastInitInfo, JobAction, JobState};
use crate::math::SpeedStat;
use crate::rng::{gen_ratio, lemma_reordered_steps_differ, partial_shuffle_steps, shuffle_steps};
use crate::timing::{spec_cast_times, spec_cd_until, ActionCd, DurationInfo, ScaleTime};
use crate::util::{
    add_sat, combo_advanced, combo_at, combo_pot, sub_sat, ComboStage, ComboState, GaugeU8,
};
use crate::world::{
    aoe_ops, apply_op, consume_status, damage_op, error_op, first_target, has_status, push_aoe_all,
    remove_op, spec_has_status, status_op, Action, ActorId, CastContext, DamageEventExt, Event,
    EventError, SinkOp,
};
use crate::world::status::{
    plain_status, spec_plain_status, spec_status, status_with, DamageMod, StatusEffect, StatusEvent,
    StatusEventExt, StatusEventKind, StatusVTable, ValueModifier,
};

verus! {

/// The entry points of the Dancer job: checking and executing its actions.
#[derive(Clone, Copy, Debug, Default)]
pub struct DncJob;

/// An action specific to the Dancer job.
#[derive(Clone, Copy, Debug, PartialEq, Eq, Hash, Structural)]
pub enum DncAction {
    /// The action "Cascade".
    Cascade,
    /// The action "Fountain".
    Fountain,
    /// The action "Windmill".
    Windmill,
    /// The action "Standard Step".
    StandardStep,
    /// The action "ReverseCascade".
    ReverseCascade,
    /// The action "Bladeshower".
    Bladeshower,
    /// The action "Fan Dance".
    FanDance,
    /// The action "Rising Windmill".
    RisingWindmill,
    /// The action "Fountainfall".
    Fountainfall,
    /// The action "Bloodshower".
    Bloodshower,
    /// The action "Fan Dance II".
    FanDance2,
    /// The action "En Avant".
    EnAvant,
    /// The action "Curing Waltz".
    CuringWaltz,
    /// The action "Shield Samba".
    ShieldSamba,
    /// The action "Closed Position".
    ClosedPosition,
    /// The action "Ending".
    Ending,
    /// The action "Devilment".
    Devilment,
    /// The action "Fan Dance III".
    FanDance3,
    /// The action "Technical Step".
    TechnicalStep,
    /// The action "Flourish".
    Flourish,
    /// The action "Saber Dance".
    SaberDance,
    /// The action "Improvisation".
    Improvisation,
    /// The action "Fan Dance IV".
    FanDance4,
    /// The action "Starfall Dance".
    StarfallDance,
    /// The action "Emboite".
    Emboite,
    /// The action "Entrechat".
    Entrechat,
    /// The action "Jete".
    Jete,
    /// The action "Pirouette".
    Pirouette,
    /// The action "Standard Finish".
    StandardFinish,
    /// The action "Technical Finish".
    TechnicalFinish,
    /// The action "Improvised Finish".
    ImprovisedFinish,
    /// The action "Tillana".
    Tillana,
}

/// Returns `true` if the action may be used while under the effect of Standard Step or Technical Step.
pub open spec fn spec_dnc_step_valid(a: DncAction) -> bool {
    match a {
        DncAction::Cascade | DncAction::Fountain | DncAction::Windmill | DncAction::StandardStep | DncAction::ReverseCascade | DncAction::Bladeshower | DncAction::FanDance | DncAction::RisingWindmill | DncAction::Fountainfall | DncAction::Bloodshower | DncAction::FanDance2 | DncAction::ClosedPosition | DncAction::Ending | DncAction::Devilment | DncAction::FanDance3 | DncAction::TechnicalStep | DncAction::Flourish | DncAction::SaberDance | DncAction::Improvisation | DncAction::FanDance4 | DncAction::StarfallDance | DncAction::ImprovisedFinish | DncAction::Tillana => false,
        DncAction::EnAvant | DncAction::CuringWaltz | DncAction::ShieldSamba | DncAction::Emboite | DncAction::Entrechat | DncAction::Jete | DncAction::Pirouette | DncAction::StandardFinish | DncAction::TechnicalFinish => true,
    }
}

/// Returns the base GCD recast time, or `None` if the action is not a GCD.
pub open spec fn spec_dnc_gcd(a: DncAction) -> Option<ScaleTime> {
    match a {
        DncAction::Cascade | DncAction::Fountain | DncAction::Windmill | DncAction::ReverseCascade | DncAction::Bladeshower | DncAction::RisingWindmill | DncAction::Fountainfall | DncAction::Bloodshower | DncAction::SaberDance | DncAction::StarfallDance => Some(ScaleTime::spec_of(2500u32, Some(SpeedStat::SkillSpeed), true)),
        DncAction::StandardStep | DncAction::TechnicalStep | DncAction::StandardFinish | DncAction::TechnicalFinish | DncAction::Tillana => Some(ScaleTime::spec_of(1500u32, None, false)),
        DncAction::FanDance | DncAction::FanDance2 | DncAction::EnAvant | DncAction::CuringWaltz | DncAction::ShieldSamba | DncAction::ClosedPosition | DncAction::Ending | DncAction::Devilment | DncAction::FanDance3 | DncAction::Flourish | DncAction::Improvisation | DncAction::FanDance4 | DncAction::ImprovisedFinish => None::<ScaleTime>,
        DncAction::Emboite | DncAction::Entrechat | DncAction::Jete | DncAction::Pirouette => Some(ScaleTime::spec_of(1000u32, None, false)),
    }
}

/// Returns the human friendly name of the action.
pub open spec fn spec_dnc_name(a: DncAction) -> Seq<char> {
    match a {
        DncAction::Cascade => "Cascade"@,
        DncAction::Fountain => "Fountain"@,
        DncAction::Windmill => "Windmill"@,
        DncAction::StandardStep => "Standard Step"@,
        DncAction::ReverseCascade => "ReverseCascade"@,
        DncAction::Bladeshower => "Bladeshower"@,
        DncAction::FanDance => "Fan Dance"@,
        DncAction::RisingWindmill => "Rising Windmill"@,
        DncAction::Fountainfall => "Fountainfall"@,
        DncAction::Bloodshower => "Bloodshower"@,
        DncAction::FanDance2 => "Fan Dance II"@,
        DncAction::EnAvant => "En Avant"@,
        DncAction::CuringWaltz => "Curing Waltz"@,
        DncAction::ShieldSamba => "Shield Samba"@,
        DncAction::ClosedPosition => "Closed Position"@,
        DncAction::Ending => "Ending"@,
        DncAction::Devilment => "Devilment"@,
        DncAction::FanDance3 => "Fan Dance III"@,
        DncAction::TechnicalStep => "Technical Step"@,
        DncAction::Flourish => "Flourish"@,
        DncAction::SaberDance => "Saber Dance"@,
        DncAction::Improvisation => "Improvisation"@,
        DncAction::FanDance4 => "Fan Dance IV"@,
        DncAction::StarfallDance => "Starfall Dance"@,
        DncAction::Emboite => "Emboite"@,
        DncAction::Entrechat => "Entrechat"@,
        DncAction::Jete => "Jete"@,
        DncAction::Pirouette => "Pirouette"@,
        DncAction::StandardFinish => "Standard Finish"@,
        DncAction::TechnicalFinish => "Technical Finish"@,
        DncAction::ImprovisedFinish => "Improvised Finish"@,
        DncAction::Tillana => "Tillana"@,
    }
}

/// Returns the cooldown of the action in milliseconds.
pub open spec fn spec_dnc_cooldown(a: DncAction) -> u32 {
    match a {
        DncAction::Cascade | DncAction::Fountain | DncAction::Windmill | DncAction::StandardStep | DncAction::ReverseCascade | DncAction::Bladeshower | DncAction::RisingWindmill | DncAction::Fountainfall | DncAction::Bloodshower | DncAction::SaberDance | DncAction::StarfallDance | DncAction::Emboite | DncAction::Entrechat | DncAction::Jete | DncAction::Pirouette | DncAction::StandardFinish | DncAction::TechnicalFinish | DncAction::Tillana => 0u32,
        DncAction::FanDance | DncAction::FanDance2 | DncAction::Ending | DncAction::FanDance3 | DncAction::FanDance4 => 1000u32,
        DncAction::EnAvant | DncAction::ClosedPosition => 30000u32,
        DncAction::CuringWaltz | DncAction::Flourish => 60000u32,
        DncAction::ShieldSamba => 90000u32,
        DncAction::Devilment | DncAction::TechnicalStep | DncAction::Improvisation => 120000u32,
        DncAction::ImprovisedFinish => 1500u32,
    }
}

/// Returns the number of charges the action has, or `1` if it is a single charge action.
pub open spec fn spec_dnc_cd_charges(a: DncAction) -> u8 {
    match a {
        DncAction::Cascade | DncAction::Fountain | DncAction::Windmill | DncAction::StandardStep | DncAction::ReverseCascade | DncAction::Bladeshower | DncAction::FanDance | DncAction::RisingWindmill | DncAction::Fountainfall | DncAction::Bloodshower | DncAction::FanDance2 | DncAction::CuringWaltz | DncAction::ShieldSamba | DncAction::ClosedPosition | DncAction::Ending | DncAction::Devilment | DncAction::FanDance3 | DncAction::TechnicalStep | DncAction::Flourish | DncAction::SaberDance | DncAction::Improvisation | DncAction::FanDance4 | DncAction::StarfallDance | DncAction::Emboite | DncAction::Entrechat | DncAction::Jete | DncAction::Pirouette | DncAction::StandardFinish | DncAction::TechnicalFinish | DncAction::ImprovisedFinish | DncAction::Tillana => 1u8,
        DncAction::EnAvant => 3u8,
    }
}

/// Returns the delay in milliseconds for the damage and statuses to be applied.
pub open spec fn spec_dnc_effect_delay(a: DncAction) -> u32 {
    match a {
        DncAction::Cascade | DncAction::Fountain | DncAction::Windmill | DncAction::StandardStep | DncAction::ReverseCascade | DncAction::Bladeshower | DncAction::FanDance | DncAction::RisingWindmill | DncAction::Fountainfall | DncAction::Bloodshower | DncAction::FanDance2 | DncAction::EnAvant | DncAction::CuringWaltz | DncAction::ShieldSamba | DncAction::ClosedPosition | DncAction::Ending | DncAction::Devilment | DncAction::FanDance3 | DncAction::TechnicalStep | DncAction::Flourish | DncAction::SaberDance | DncAction::Improvisation | DncAction::FanDance4 | DncAction::StarfallDance | DncAction::Emboite | DncAction::Entrechat | DncAction::Jete | DncAction::Pirouette | DncAction::StandardFinish | DncAction::TechnicalFinish | DncAction::ImprovisedFinish | DncAction::Tillana => 0u32,
    }
}

/// Returns the category of the action.
pub open spec fn spec_dnc_category(a: DncAction) -> ActionCategory {
    match a {
        DncAction::Cascade | DncAction::Fountain | DncAction::Windmill | DncAction::StandardStep | DncAction::ReverseCascade | DncAction::Bladeshower | DncAction::RisingWindmill | DncAction::Fountainfall | DncAction::Bloodshower | DncAction::TechnicalStep | DncAction::SaberDance | DncAction::StarfallDance | DncAction::StandardFinish | DncAction::TechnicalFinish | DncAction::Tillana => ActionCategory::Weaponskill,
        DncAction::FanDance | DncAction::FanDance2 | DncAction::EnAvant | DncAction::CuringWaltz | DncAction::ShieldSamba | DncAction::ClosedPosition | DncAction::Ending | DncAction::Devilment | DncAction::FanDance3 | DncAction::Flourish | DncAction::Improvisation | DncAction::FanDance4 | DncAction::Emboite | DncAction::Entrechat | DncAction::Jete | DncAction::Pirouette | DncAction::ImprovisedFinish => ActionCategory::Ability,
    }
}

impl DncAction {
    /// Returns `true` if the action may be used while under the effect of Standard Step or Technical Step.
    pub fn step_valid(&self) -> (r: bool)
        ensures
            r == spec_dnc_step_valid(*self),
    {
        match self {
            DncAction::Cascade | DncAction::Fountain | DncAction::Windmill | DncAction::StandardStep | DncAction::ReverseCascade | DncAction::Bladeshower | DncAction::FanDance | DncAction::RisingWindmill | DncAction::Fountainfall | DncAction::Bloodshower | DncAction::FanDance2 | DncAction::ClosedPosition | DncAction::Ending | DncAction::Devilment | DncAction::FanDance3 | DncAction::TechnicalStep | DncAction::Flourish | DncAction::SaberDance | DncAction::Improvisation | DncAction::FanDance4 | DncAction::StarfallDance | DncAction::ImprovisedFinish | DncAction::Tillana => false,
            DncAction::EnAvant | DncAction::CuringWaltz | DncAction::ShieldSamba | DncAction::Emboite | DncAction::Entrechat | DncAction::Jete | DncAction::Pirouette | DncAction::StandardFinish | DncAction::TechnicalFinish => true,
        }
    }

    /// Returns the base GCD recast time, or `None` if the action is not a GCD.
    pub fn gcd(&self) -> (r: Option<ScaleTime>)
        ensures
            r == spec_dnc_gcd(*self),
    {
        match self {
            DncAction::Cascade | DncAction::Fountain | DncAction::Windmill | DncAction::ReverseCascade | DncAction::Bladeshower | DncAction::RisingWindmill | DncAction::Fountainfall | DncAction::Bloodshower | DncAction::SaberDance | DncAction::StarfallDance => Some(ScaleTime::skill(2500)),
            DncAction::StandardStep | DncAction::TechnicalStep | DncAction::StandardFinish | DncAction::TechnicalFinish | DncAction::Tillana => Some(ScaleTime::none(1500)),
            DncAction::FanDance | DncAction::FanDance2 | DncAction::EnAvant | DncAction::CuringWaltz | DncAction::ShieldSamba | DncAction::ClosedPosition | DncAction::Ending | DncAction::Devilment | DncAction::FanDance3 | DncAction::Flourish | DncAction::Improvisation | DncAction::FanDance4 | DncAction::ImprovisedFinish => None,
            DncAction::Emboite | DncAction::Entrechat | DncAction::Jete | DncAction::Pirouette => Some(ScaleTime::none(1000)),
        }
    }

    /// Returns the human friendly name of the action.
    pub fn name(&self) -> (r: &'static str)
        ensures
            r@ == spec_dnc_name(*self),
    {
        proof {
            reveal_strlit("Cascade");
            reveal_strlit("Fountain");
            reveal_strlit("Windmill");
            reveal_strlit("Standard Step");
            reveal_strlit("ReverseCascade");
            reveal_strlit("Bladeshower");
            reveal_strlit("Fan Dance");
            reveal_strlit("Rising Windmill");
            reveal_strlit("Fountainfall");
            reveal_strlit("Bloodshower");
            reveal_strlit("Fan Dance II");
            reveal_strlit("En Avant");
            reveal_strlit("Curing Waltz");
            reveal_strlit("Shield Samba");
            reveal_strlit("Closed Position");
            reveal_strlit("Ending");
            reveal_strlit("Devilment");
            reveal_strlit("Fan Dance III");
            reveal_strlit("Technical Step");
            reveal_strlit("Flourish");
            reveal_strlit("Saber Dance");
            reveal_strlit("Improvisation");
            reveal_strlit("Fan Dance IV");
            reveal_strlit("Starfall Dance");
            reveal_strlit("Emboite");
            reveal_strlit("Entrechat");
            reveal_strlit("Jete");
            reveal_strlit("Pirouette");
            reveal_strlit("Standard Finish");
            reveal_strlit("Technical Finish");
            reveal_strlit("Improvised Finish");
            reveal_strlit("Tillana");
        }
        match self {
            DncAction::Cascade => "Cascade",
            DncAction::Fountain => "Fountain",
            DncAction::Windmill => "Windmill",
            DncAction::StandardStep => "Standard Step",
            DncAction::ReverseCascade => "ReverseCascade",
            DncAction::Bladeshower => "Bladeshower",
            DncAction::FanDance => "Fan Dance",
            DncAction::RisingWindmill => "Rising Windmill",
            DncAction::Fountainfall => "Fountainfall",
            DncAction::Bloodshower => "Bloodshower",
            DncAction::FanDance2 => "Fan Dance II",
            DncAction::EnAvant => "En Avant",
            DncAction::CuringWaltz => "Curing Waltz",
            DncAction::ShieldSamba => "Shield Samba",
            DncAction::ClosedPosition => "Closed Position",
            DncAction::Ending => "Ending",
            DncAction::Devilment => "Devilment",
            DncAction::FanDance3 => "Fan Dance III",
            DncAction::TechnicalStep => "Technical Step",
            DncAction::Flourish => "Flourish",
            DncAction::SaberDance => "Saber Dance",
            DncAction::Improvisation => "Improvisation",
            DncAction::FanDance4 => "Fan Dance IV",
            DncAction::StarfallDance => "Starfall Dance",
            DncAction::Emboite => "Emboite",
            DncAction::Entrechat => "Entrechat",
            DncAction::Jete => "Jete",
            DncAction::Pirouette => "Pirouette",
            DncAction::StandardFinish => "Standard Finish",
            DncAction::TechnicalFinish => "Technical Finish",
            DncAction::ImprovisedFinish => "Improvised Finish",
            DncAction::Tillana => "Tillana",
        }
    }

    /// Returns the cooldown of the action in milliseconds.
    pub fn cooldown(&self) -> (r: u32)
        ensures
            r == spec_dnc_cooldown(*self),
    {
        match self {
            DncAction::Cascade | DncAction::Fountain | DncAction::Windmill | DncAction::StandardStep | DncAction::ReverseCascade | DncAction::Bladeshower | DncAction::RisingWindmill | DncAction::Fountainfall | DncAction::Bloodshower | DncAction::SaberDance | DncAction::StarfallDance | DncAction::Emboite | DncAction::Entrechat | DncAction::Jete | DncAction::Pirouette | DncAction::StandardFinish | DncAction::TechnicalFinish | DncAction::Tillana => 0,
            DncAction::FanDance | DncAction::FanDance2 | DncAction::Ending | DncAction::FanDance3 | DncAction::FanDance4 => 1000,
            DncAction::EnAvant | DncAction::ClosedPosition => 30000,
            DncAction::CuringWaltz | DncAction::Flourish => 60000,
            DncAction::ShieldSamba => 90000,
            DncAction::Devilment | DncAction::TechnicalStep | DncAction::Improvisation => 120000,
            DncAction::ImprovisedFinish => 1500,
        }
    }

    /// Returns the number of charges the action has, or `1` if it is a single charge action.
    pub fn cd_charges(&self) -> (r: u8)
        ensures
            r == spec_dnc_cd_charges(*self),
    {
        match self {
            DncAction::Cascade | DncAction::Fountain | DncAction::Windmill | DncAction::StandardStep | DncAction::ReverseCascade | DncAction::Bladeshower | DncAction::FanDance | DncAction::RisingWindmill | DncAction::Fountainfall | DncAction::Bloodshower | DncAction::FanDance2 | DncAction::CuringWaltz | DncAction::ShieldSamba | DncAction::ClosedPosition | DncAction::Ending | DncAction::Devilment | DncAction::FanDance3 | DncAction::TechnicalStep | DncAction::Flourish | DncAction::SaberDance | DncAction::Improvisation | DncAction::FanDance4 | DncAction::StarfallDance | DncAction::Emboite | DncAction::Entrechat | DncAction::Jete | DncAction::Pirouette | DncAction::StandardFinish | DncAction::TechnicalFinish | DncAction::ImprovisedFinish | DncAction::Tillana => 1,
            DncAction::EnAvant => 3,
        }
    }

    /// Returns the delay in milliseconds for the damage and statuses to be applied.
    pub fn effect_delay(&self) -> (r: u32)
        ensures
            r == spec_dnc_effect_delay(*self),
    {
        match self {
            DncAction::Cascade | DncAction::Fountain | DncAction::Windmill | DncAction::StandardStep | DncAction::ReverseCascade | DncAction::Bladeshower | DncAction::FanDance | DncAction::RisingWindmill | DncAction::Fountainfall | DncAction::Bloodshower | DncAction::FanDance2 | DncAction::EnAvant | DncAction::CuringWaltz | DncAction::ShieldSamba | DncAction::ClosedPosition | DncAction::Ending | DncAction::Devilment | DncAction::FanDance3 | DncAction::TechnicalStep | DncAction::Flourish | DncAction::SaberDance | DncAction::Improvisation | DncAction::FanDance4 | DncAction::StarfallDance | DncAction::Emboite | DncAction::Entrechat | DncAction::Jete | DncAction::Pirouette | DncAction::StandardFinish | DncAction::TechnicalFinish | DncAction::ImprovisedFinish | DncAction::Tillana => 0,
        }
    }

    /// Returns the category of the action.
    pub fn category(&self) -> (r: ActionCategory)
        ensures
            r == spec_dnc_category(*self),
    {
        match self {
            DncAction::Cascade | DncAction::Fountain | DncAction::Windmill | DncAction::StandardStep | DncAction::ReverseCascade | DncAction::Bladeshower | DncAction::RisingWindmill | DncAction::Fountainfall | DncAction::Bloodshower | DncAction::TechnicalStep | DncAction::SaberDance | DncAction::StarfallDance | DncAction::StandardFinish | DncAction::TechnicalFinish | DncAction::Tillana => ActionCategory::Weaponskill,
            DncAction::FanDance | DncAction::FanDance2 | DncAction::EnAvant | DncAction::CuringWaltz | DncAction::ShieldSamba | DncAction::ClosedPosition | DncAction::Ending | DncAction::Devilment | DncAction::FanDance3 | DncAction::Flourish | DncAction::Improvisation | DncAction::FanDance4 | DncAction::Emboite | DncAction::Entrechat | DncAction::Jete | DncAction::Pirouette | DncAction::ImprovisedFinish => ActionCategory::Ability,
        }
    }

    /// Returns the cooldown group this action is part of, or `None` if the
    /// action has no cooldown group.
    pub fn cd_group(&self) -> (r: Option<DncCdGroup>)
        ensures
            r == spec_dnc_cd_group(*self),
    {
        match self {
            DncAction::StandardStep => Some(DncCdGroup::Standard),
            DncAction::FanDance => Some(DncCdGroup::Fan1),
            DncAction::FanDance2 => Some(DncCdGroup::Fan2),
            DncAction::ClosedPosition | DncAction::Ending => Some(DncCdGroup::Closed),
            DncAction::Devilment => Some(DncCdGroup::Devilment),
            DncAction::FanDance3 => Some(DncCdGroup::Fan3),
            DncAction::TechnicalStep => Some(DncCdGroup::Tech),
            DncAction::Flourish => Some(DncCdGroup::Flourish),
            DncAction::FanDance4 => Some(DncCdGroup::Fan4),
            DncAction::ImprovisedFinish => Some(DncCdGroup::ImprovFinish),
            _ => None,
        }
    }
}

/// The cooldown group an action is part of.
pub open spec fn spec_dnc_cd_group(a: DncAction) -> Option<DncCdGroup> {
    match a {
        DncAction::StandardStep => Some(DncCdGroup::Standard),
        DncAction::FanDance => Some(DncCdGroup::Fan1),
        DncAction::FanDance2 => Some(DncCdGroup::Fan2),
        DncAction::ClosedPosition | DncAction::Ending => Some(DncCdGroup::Closed),
        DncAction::Devilment => Some(DncCdGroup::Devilment),
        DncAction::FanDance3 => Some(DncCdGroup::Fan3),
        DncAction::TechnicalStep => Some(DncCdGroup::Tech),
        DncAction::Flourish => Some(DncCdGroup::Flourish),
        DncAction::FanDance4 => Some(DncCdGroup::Fan4),
        DncAction::ImprovisedFinish => Some(DncCdGroup::ImprovFinish),
        _ => None,
    }
}

/// The various cooldown groups an action can be part of.
#[derive(Clone, Copy, Debug, PartialEq, Eq, Hash, Structural)]
pub enum DncCdGroup {
    /// The cooldown group for Standard Step.
    Standard,
    /// The cooldown group for Fan Dance.
    Fan1,
    /// The cooldown group for Fan Dance II.
    Fan2,
    /// The cooldown group for Closed Position and Ending.
    Closed,
    /// The cooldown group for Devilment.
    Devilment,
    /// The cooldown group for Fan Dance III.
    Fan3,
    /// The cooldown group for Technical Step.
    Tech,
    /// The cooldown group for Flourish.
    Flourish,
    /// The cooldown group for Fan Dance IV.
    Fan4,
    /// The cooldown group for Improvised Finish.
    ImprovFinish,
}

/// The active cooldowns of the cooldown groups.
#[derive(Clone, Copy, Debug, Default)]
pub struct DncCds {
    standard: ActionCd,
    fan_1: ActionCd,
    fan_2: ActionCd,
    closed: ActionCd,
    devilment: ActionCd,
    fan_3: ActionCd,
    tech: ActionCd,
    flourish: ActionCd,
    fan_4: ActionCd,
    improv_finish: ActionCd,
}

impl DncCds {
    /// The time left on the cooldown of a group, counting every used charge.
    pub closed spec fn spec_cd(&self, group: DncCdGroup) -> u32 {
        match group {
            DncCdGroup::Standard => self.standard@,
            DncCdGroup::Fan1 => self.fan_1@,
            DncCdGroup::Fan2 => self.fan_2@,
            DncCdGroup::Closed => self.closed@,
            DncCdGroup::Devilment => self.devilment@,
            DncCdGroup::Fan3 => self.fan_3@,
            DncCdGroup::Tech => self.tech@,
            DncCdGroup::Flourish => self.flourish@,
            DncCdGroup::Fan4 => self.fan_4@,
            DncCdGroup::ImprovFinish => self.improv_finish@,
        }
    }

    /// Creates the cooldowns with every group off cooldown.
    pub fn new() -> (r: Self)
        ensures
            forall|g: DncCdGroup| #[trigger] r.spec_cd(g) == 0,
    {
        DncCds {
            standard: ActionCd::new(),
            fan_1: ActionCd::new(),
            fan_2: ActionCd::new(),
            closed: ActionCd::new(),
            devilment: ActionCd::new(),
            fan_3: ActionCd::new(),
            tech: ActionCd::new(),
            flourish: ActionCd::new(),
            fan_4: ActionCd::new(),
            improv_finish: ActionCd::new(),
        }
    }

    /// Applies a cooldown to the specified cooldown group.
    pub fn apply(&mut self, cdg: DncCdGroup, cooldown: u32, charges: u8)
        requires
            old(self).spec_cd(cdg) + cooldown <= u32::MAX,
            cooldown * charges <= u32::MAX,
        ensures
            final(self).spec_cd(cdg) == (if old(self).spec_cd(cdg) + cooldown <= cooldown * charges {
                old(self).spec_cd(cdg) + cooldown
            } else {
                cooldown * charges
            }),
            forall|g: DncCdGroup| g != cdg ==> #[trigger] final(self).spec_cd(g) == old(self).spec_cd(g),
    {
        match cdg {
            DncCdGroup::Standard => self.standard.apply(cooldown, charges),
            DncCdGroup::Fan1 => self.fan_1.apply(cooldown, charges),
            DncCdGroup::Fan2 => self.fan_2.apply(cooldown, charges),
            DncCdGroup::Closed => self.closed.apply(cooldown, charges),
            DncCdGroup::Devilment => self.devilment.apply(cooldown, charges),
            DncCdGroup::Fan3 => self.fan_3.apply(cooldown, charges),
            DncCdGroup::Tech => self.tech.apply(cooldown, charges),
            DncCdGroup::Flourish => self.flourish.apply(cooldown, charges),
            DncCdGroup::Fan4 => self.fan_4.apply(cooldown, charges),
            DncCdGroup::ImprovFinish => self.improv_finish.apply(cooldown, charges),
        }
    }

    /// Checks if the specified cooldown group is available.
    pub fn available(&self, cdg: DncCdGroup, cooldown: u32, charges: u8) -> (r: bool)
        requires
            charges >= 1,
            cooldown * (charges - 1) <= u32::MAX,
        ensures
            r == (spec_cd_until(self.spec_cd(cdg), cooldown, charges) == 0),
    {
        match cdg {
            DncCdGroup::Standard => self.standard.available(cooldown, charges),
            DncCdGroup::Fan1 => self.fan_1.available(cooldown, charges),
            DncCdGroup::Fan2 => self.fan_2.available(cooldown, charges),
            DncCdGroup::Closed => self.closed.available(cooldown, charges),
            DncCdGroup::Devilment => self.devilment.available(cooldown, charges),
            DncCdGroup::Fan3 => self.fan_3.available(cooldown, charges),
            DncCdGroup::Tech => self.tech.available(cooldown, charges),
            DncCdGroup::Flourish => self.flourish.available(cooldown, charges),
            DncCdGroup::Fan4 => self.fan_4.available(cooldown, charges),
            DncCdGroup::ImprovFinish => self.improv_finish.available(cooldown, charges),
        }
    }

    /// Advances the cooldowns forward by a certain amount of time.
    pub fn advance(&mut self, time: u32)
        ensures
            forall|g: DncCdGroup| #[trigger] final(self).spec_cd(g) == (if old(self).spec_cd(g) >= time {
                old(self).spec_cd(g) - time
            } else {
                0
            }),
    {
        self.standard.advance(time);
        self.fan_1.advance(time);
        self.fan_2.advance(time);
        self.closed.advance(time);
        self.devilment.advance(time);
        self.fan_3.advance(time);
        self.tech.advance(time);
        self.flourish.advance(time);
        self.fan_4.advance(time);
        self.improv_finish.advance(time);
    }

    /// Gets the cooldown until the specified cooldown group can be used.
    pub fn cd_until(&self, group: DncCdGroup, cooldown: u32, charges: u8) -> (r: u32)
        requires
            charges >= 1,
            cooldown * (charges - 1) <= u32::MAX,
        ensures
            r == spec_cd_until(self.spec_cd(group), cooldown, charges),
    {
        match group {
            DncCdGroup::Standard => self.standard.cd_until(cooldown, charges),
            DncCdGroup::Fan1 => self.fan_1.cd_until(cooldown, charges),
            DncCdGroup::Fan2 => self.fan_2.cd_until(cooldown, charges),
            DncCdGroup::Closed => self.closed.cd_until(cooldown, charges),
            DncCdGroup::Devilment => self.devilment.cd_until(cooldown, charges),
            DncCdGroup::Fan3 => self.fan_3.cd_until(cooldown, charges),
            DncCdGroup::Tech => self.tech.cd_until(cooldown, charges),
            DncCdGroup::Flourish => self.flourish.cd_until(cooldown, charges),
            DncCdGroup::Fan4 => self.fan_4.cd_until(cooldown, charges),
            DncCdGroup::ImprovFinish => self.improv_finish.cd_until(cooldown, charges),
        }
    }
}

/// The status effect "Silken Symmetry".
pub open spec fn spec_silken_symm() -> StatusEffect {
    spec_plain_status(301, "Silken Symmetry", 30000)
}

/// Returns the status effect "Silken Symmetry".
pub fn silken_symm() -> (r: StatusEffect)
    ensures
        r == spec_silken_symm(),
{
    plain_status(301, "Silken Symmetry", 30000)
}

/// The status effect "Silken Flow".
pub open spec fn spec_silken_flow() -> StatusEffect {
    spec_plain_status(302, "Silken Flow", 30000)
}

/// Returns the status effect "Silken Flow".
pub fn silken_flow() -> (r: StatusEffect)
    ensures
        r == spec_silken_flow(),
{
    plain_status(302, "Silken Flow", 30000)
}

/// The status effect "Standard Step".
pub open spec fn spec_standard_step() -> StatusEffect {
    spec_plain_status(303, "Standard Step", 15000)
}

/// Returns the status effect "Standard Step".
pub fn standard_step() -> (r: StatusEffect)
    ensures
        r == spec_standard_step(),
{
    plain_status(303, "Standard Step", 15000)
}

/// The status effect "Standard Finish" with one completed step: outgoing damage is multiplied by `102 / 100`.
pub open spec fn spec_standard_finish_1() -> StatusEffect {
    spec_status(
        304,
        "Standard Finish",
        60000,
        ValueModifier { incoming: None, outgoing: Some(DamageMod { base: 102, per_stack: 0, div: 100 }) },
        ValueModifier { incoming: None, outgoing: None },
        ValueModifier { incoming: None, outgoing: None },
        None,
    )
}

/// Returns the status effect "Standard Finish".
pub fn standard_finish_1() -> (r: StatusEffect)
    ensures
        r == spec_standard_finish_1(),
{
    status_with(
        304,
        "Standard Finish",
        60000,
        ValueModifier::outgoing(DamageMod { base: 102, per_stack: 0, div: 100 }),
        ValueModifier::empty(),
        ValueModifier::empty(),
        None,
    )
}

/// The status effect "Standard Finish" with two completed steps: outgoing damage is multiplied by `105 / 100`.
pub open spec fn spec_standard_finish_2() -> StatusEffect {
    spec_status(
        305,
        "Standard Finish",
        60000,
        ValueModifier { incoming: None, outgoing: Some(DamageMod { base: 105, per_stack: 0, div: 100 }) },
        ValueModifier { incoming: None, outgoing: None },
        ValueModifier { incoming: None, outgoing: None },
        None,
    )
}

/// Returns the status effect "Standard Finish".
pub fn standard_finish_2() -> (r: StatusEffect)
    ensures
        r == spec_standard_finish_2(),
{
    status_with(
        305,
        "Standard Finish",
        60000,
        ValueModifier::outgoing(DamageMod { base: 105, per_stack: 0, div: 100 }),
        ValueModifier::empty(),
        ValueModifier::empty(),
        None,
    )
}

/// The status effect "Esprit" from Standard Finish.
pub open spec fn spec_standard_espit() -> StatusEffect {
    spec_plain_status(306, "Esprit", 60000)
}

/// Returns the status effect "Esprit".
pub fn standard_espit() -> (r: StatusEffect)
    ensures
        r == spec_standard_espit(),
{
    plain_status(306, "Esprit", 60000)
}

/// The status effect "Closed Position", which lasts until it is removed.
pub open spec fn spec_closed_position() -> StatusEffect {
    StatusEffect {
        id: 307,
        vtable: StatusVTable {
            name: "Closed Position",
            permanent: true,
            damage: ValueModifier { incoming: None, outgoing: None },
            crit: ValueModifier { incoming: None, outgoing: None },
            dhit: ValueModifier { incoming: None, outgoing: None },
            haste: None,
            stats: None,
            duration: 0,
        },
    }
}

/// Returns the status effect "Closed Position".
pub fn closed_position() -> (r: StatusEffect)
    ensures
        r == spec_closed_position(),
{
    StatusEffect::new(
        307,
        StatusVTable {
            name: "Closed Position",
            permanent: true,
            damage: ValueModifier::empty(),
            crit: ValueModifier::empty(),
            dhit: ValueModifier::empty(),
            haste: None,
            stats: None,
            duration: 0,
        },
    )
}

/// The status effect "Dance Partner", which lasts until it is removed.
pub open spec fn spec_dance_partner() -> StatusEffect {
    StatusEffect {
        id: 308,
        vtable: StatusVTable {
            name: "Dance Partner",
            permanent: true,
            damage: ValueModifier { incoming: None, outgoing: None },
            crit: ValueModifier { incoming: None, outgoing: None },
            dhit: ValueModifier { incoming: None, outgoing: None },
            haste: None,
            stats: None,
            duration: 0,
        },
    }
}

/// Returns the status effect "Dance Partner".
pub fn dance_partner() -> (r: StatusEffect)
    ensures
        r == spec_dance_partner(),
{
    StatusEffect::new(
        308,
        StatusVTable {
            name: "Dance Partner",
            permanent: true,
            damage: ValueModifier::empty(),
            crit: ValueModifier::empty(),
            dhit: ValueModifier::empty(),
            haste: None,
            stats: None,
            duration: 0,
        },
    )
}

/// The status effect "Devilment": adds `200` to the outgoing Critical Hit and Direct Hit chances.
pub open spec fn spec_devilment() -> StatusEffect {
    spec_status(
        309,
        "Devilment",
        20000,
        ValueModifier { incoming: None, outgoing: None },
        ValueModifier { incoming: None, outgoing: Some(200) },
        ValueModifier { incoming: None, outgoing: Some(200) },
        None,
    )
}

/// Returns the status effect "Devilment".
pub fn devilment() -> (r: StatusEffect)
    ensures
        r == spec_devilment(),
{
    status_with(
        309,
        "Devilment",
        20000,
        ValueModifier::empty(),
        ValueModifier::outgoing(200),
        ValueModifier::outgoing(200),
        None,
    )
}

/// The status effect "Flourishing Starfall".
pub open spec fn spec_starfall() -> StatusEffect {
    spec_plain_status(310, "Flourishing Starfall", 20000)
}

/// Returns the status effect "Flourishing Starfall".
pub fn starfall() -> (r: StatusEffect)
    ensures
        r == spec_starfall(),
{
    plain_status(310, "Flourishing Starfall", 20000)
}

/// The status effect "Threefold Fan Dance".
pub open spec fn spec_fan_dance_3() -> StatusEffect {
    spec_plain_status(311, "Threefold Fan Dance", 30000)
}

/// Returns the status effect "Threefold Fan Dance".
pub fn fan_dance_3() -> (r: StatusEffect)
    ensures
        r == spec_fan_dance_3(),
{
    plain_status(311, "Threefold Fan Dance", 30000)
}

/// The status effect "Technical Step".
pub open spec fn spec_technical_step() -> StatusEffect {
    spec_plain_status(312, "Technical Step", 15000)
}

/// Returns the status effect "Technical Step".
pub fn technical_step() -> (r: StatusEffect)
    ensures
        r == spec_technical_step(),
{
    plain_status(312, "Technical Step", 15000)
}

/// The status effect "Technical Finish" with 1 completed step: outgoing damage is multiplied by `101 / 100`.
pub open spec fn spec_technical_finish_1() -> StatusEffect {
    spec_status(
        313,
        "Technical Finish",
        20000,
        ValueModifier { incoming: None, outgoing: Some(DamageMod { base: 101, per_stack: 0, div: 100 }) },
        ValueModifier { incoming: None, outgoing: None },
        ValueModifier { incoming: None, outgoing: None },
        None,
    )
}

/// Returns the status effect "Technical Finish".
pub fn technical_finish_1() -> (r: StatusEffect)
    ensures
        r == spec_technical_finish_1(),
{
    status_with(
        313,
        "Technical Finish",
        20000,
        ValueModifier::outgoing(DamageMod { base: 101, per_stack: 0, div: 100 }),
        ValueModifier::empty(),
        ValueModifier::empty(),
        None,
    )
}

/// The status effect "Technical Finish" with 2 completed steps: outgoing damage is multiplied by `102 / 100`.
pub open spec fn spec_technical_finish_2() -> StatusEffect {
    spec_status(
        314,
        "Technical Finish",
        20000,
        ValueModifier { incoming: None, outgoing: Some(DamageMod { base: 102, per_stack: 0, div: 100 }) },
        ValueModifier { incoming: None, outgoing: None },
        ValueModifier { incoming: None, outgoing: None },
        None,
    )
}

/// Returns the status effect "Technical Finish".
pub fn technical_finish_2() -> (r: StatusEffect)
    ensures
        r == spec_technical_finish_2(),
{
    status_with(
        314,
        "Technical Finish",
        20000,
        ValueModifier::outgoing(DamageMod { base: 102, per_stack: 0, div: 100 }),
        ValueModifier::empty(),
        ValueModifier::empty(),
        None,
    )
}

/// The status effect "Technical Finish" with 3 completed steps: outgoing damage is multiplied by `103 / 100`.
pub open spec fn spec_technical_finish_3() -> StatusEffect {
    spec_status(
        315,
        "Technical Finish",
        20000,
        ValueModifier { incoming: None, outgoing: Some(DamageMod { base: 103, per_stack: 0, div: 100 }) },
        ValueModifier { incoming: None, outgoing: None },
        ValueModifier { incoming: None, outgoing: None },
        None,
    )
}

/// Returns the status effect "Technical Finish".
pub fn technical_finish_3() -> (r: StatusEffect)
    ensures
        r == spec_technical_finish_3(),
{
    status_with(
        315,
        "Technical Finish",
        20000,
        ValueModifier::outgoing(DamageMod { base: 103, per_stack: 0, div: 100 }),
        ValueModifier::empty(),
        ValueModifier::empty(),
        None,
    )
}

/// The status effect "Technical Finish" with 4 completed steps: outgoing damage is multiplied by `105 / 100`.
pub open spec fn spec_technical_finish_4() -> StatusEffect {
    spec_status(
        316,
        "Technical Finish",
        20000,
        ValueModifier { incoming: None, outgoing: Some(DamageMod { base: 105, per_stack: 0, div: 100 }) },
        ValueModifier { incoming: None, outgoing: None },
        ValueModifier { incoming: None, outgoing: None },
        None,
    )
}

/// Returns the status effect "Technical Finish".
pub fn technical_finish_4() -> (r: StatusEffect)
    ensures
        r == spec_technical_finish_4(),
{
    status_with(
        316,
        "Technical Finish",
        20000,
        ValueModifier::outgoing(DamageMod { base: 105, per_stack: 0, div: 100 }),
        ValueModifier::empty(),
        ValueModifier::empty(),
        None,
    )
}

/// The status effect "Esprit" from Technical Finish.
pub open spec fn spec_technical_espit() -> StatusEffect {
    spec_plain_status(317, "Esprit", 20000)
}

/// Returns the status effect "Esprit".
pub fn technical_espit() -> (r: StatusEffect)
    ensures
        r == spec_technical_espit(),
{
    plain_status(317, "Esprit", 20000)
}

/// The status effect "Flourishing Finish".
pub open spec fn spec_flourish_finish() -> StatusEffect {
    spec_plain_status(318, "Flourishing Finish", 30000)
}

/// Returns the status effect "Flourishing Finish".
pub fn flourish_finish() -> (r: StatusEffect)
    ensures
        r == spec_flourish_finish(),
{
    plain_status(318, "Flourishing Finish", 30000)
}

/// The status effect "Flourishing Symmetry".
pub open spec fn spec_flourish_symm() -> StatusEffect {
    spec_plain_status(319, "Flourishing Symmetry", 30000)
}

/// Returns the status effect "Flourishing Symmetry".
pub fn flourish_symm() -> (r: StatusEffect)
    ensures
        r == spec_flourish_symm(),
{
    plain_status(319, "Flourishing Symmetry", 30000)
}

/// The status effect "Flourishing Flow".
pub open spec fn spec_flourish_flow() -> StatusEffect {
    spec_plain_status(320, "Flourishing Flow", 30000)
}

/// Returns the status effect "Flourishing Flow".
pub fn flourish_flow() -> (r: StatusEffect)
    ensures
        r == spec_flourish_flow(),
{
    plain_status(320, "Flourishing Flow", 30000)
}

/// The status effect "Fourfold Fan Dance".
pub open spec fn spec_fan_dance_4() -> StatusEffect {
    spec_plain_status(321, "Fourfold Fan Dance", 30000)
}

/// Returns the status effect "Fourfold Fan Dance".
pub fn fan_dance_4() -> (r: StatusEffect)
    ensures
        r == spec_fan_dance_4(),
{
    plain_status(321, "Fourfold Fan Dance", 30000)
}


/// A custom cast error for Dancer actions.
#[derive(Clone, Copy, Debug, PartialEq, Eq, Structural)]
pub enum DncError {
    /// The feather gauge was empty.
    Feather,
    /// Not under the effect of Threefold Fan Dance.
    Fan3,
    /// Not under the effect of Fourfold Fan Dance.
    Fan4,
    /// Not enough esprit.
    Esprit,
    /// Not under the effect of Flourishing Starfall.
    Starfall,
    /// Not under the effect of Flourishing/Silken Symmetry.
    Symmetry,
    /// Not under the effect of Flourishing/Silken Flow.
    Flow,
    /// Not under the effect of Flourishing Finish.
    Tillana,
    /// Not under the effect of Standard Step.
    StandardStep,
    /// Not under the effect of Technical Step.
    TechnicalStep,
    /// Not under the effect of Standard/Technical Step.
    Step,
    /// Under the effect of Standard/Technical Step.
    StepInvalid,
    /// Closed Position is not the active action.
    PartnerActive,
    /// Ending is not the active action.
    PartnerInactive,
}

/// The operation that submits a Dancer error.
pub open spec fn dnc_error_op(e: DncError) -> SinkOp {
    error_op(EventError::Job(job::CastError::Dnc(e)))
}

impl DncError {
    /// Submits the cast error.
    pub fn submit(self, ops: &mut Vec<SinkOp>)
        ensures
            final(ops)@ == old(ops)@.push(dnc_error_op(self)),
    {
        ops.push(SinkOp::Error { error: EventError::Job(job::CastError::Dnc(self)) });
    }
}

/// A dance step.
#[derive(Clone, Copy, Debug, PartialEq, Eq, Structural)]
pub enum Step {
    /// The step Emboite.
    Emboite,
    /// The step Entrechat.
    Entrechat,
    /// The step Jete.
    Jete,
    /// The step Pirouette.
    Pirouette,
}

/// The Dance Step gauge.
#[derive(Clone, Copy, Debug, Default, PartialEq, Eq)]
pub enum StepGauge {
    /// No dance step is active.
    #[default]
    NoDance,
    /// Technical step is active.
    Tech {
        /// The sequence of steps.
        steps: [Step; 4],
        /// The number of steps completed.
        completed: u8,
    },
    /// Standard step is active.
    Std {
        /// The sequence of steps.
        steps: [Step; 2],
        /// The number of steps completed.
        completed: u8,
    },
}

/// The step gauge after `step` is executed: it counts as completed when it is
/// the next step of the active dance.
pub open spec fn spec_step_executed(g: StepGauge, step: Step) -> StepGauge {
    match g {
        StepGauge::Std { steps, completed } => if completed < 2 && steps@[completed as int] == step {
            StepGauge::Std { steps, completed: (completed + 1) as u8 }
        } else {
            g
        },
        StepGauge::Tech { steps, completed } => if completed < 4 && steps@[completed as int] == step {
            StepGauge::Tech { steps, completed: (completed + 1) as u8 }
        } else {
            g
        },
        StepGauge::NoDance => g,
    }
}

impl StepGauge {
    /// Executes the specified step.
    pub fn execute(&mut self, step: Step)
        ensures
            *final(self) == spec_step_executed(*old(self), step),
    {
        let cur = *self;
        *self = match cur {
            StepGauge::Std { steps, completed } => if completed < 2 && steps[completed as usize]
                == step {
                StepGauge::Std { steps, completed: completed + 1 }
            } else {
                cur
            },
            StepGauge::Tech { steps, completed } => if completed < 4 && steps[completed as usize]
                == step {
                StepGauge::Tech { steps, completed: completed + 1 }
            } else {
                cur
            },
            StepGauge::NoDance => cur,
        };
    }
}

/// The possible states the main combo can be in.
#[derive(Clone, Copy, Debug, PartialEq, Eq, Structural)]
pub enum MainCombo {
    /// Combo Action: Cascade is met.
    Cascade,
    /// Combo Action: Windmill is met.
    Windmill,
}

impl ComboStage for MainCombo {
    fn same(&self, other: &Self) -> (r: bool) {
        *self == *other
    }
}

/// The combos for Dancer.
#[derive(Clone, Copy, Debug, Default)]
pub struct DncCombos {
    /// The main combo.
    pub main: ComboState<MainCombo>,
}

/// The main combo stage an action needs, if it needs one.
pub open spec fn spec_dnc_main_needed(action: DncAction) -> Option<MainCombo> {
    match action {
        DncAction::Fountain => Some(MainCombo::Cascade),
        DncAction::Bladeshower => Some(MainCombo::Windmill),
        _ => None,
    }
}

impl DncCombos {
    /// Checks that the main combo prerequisite is met for a certain action.
    pub fn check_main_for(&self, action: DncAction) -> (r: bool)
        ensures
            r == match spec_dnc_main_needed(action) {
                Some(c) => combo_at(self.main.combo, c),
                None => true,
            },
    {
        let c = match action {
            DncAction::Fountain => MainCombo::Cascade,
            DncAction::Bladeshower => MainCombo::Windmill,
            _ => return true,
        };
        self.main.check(c)
    }

    /// Advances the combos forward by a certain amount of time.
    pub fn advance(&mut self, time: u32)
        ensures
            final(self).main.combo == combo_advanced(old(self).main.combo, time),
    {
        self.main.advance(time);
    }
}

/// The state of the Dancer job gauges and combos.
#[derive(Clone, Copy, Debug, Default)]
pub struct DncState {
    /// The combos for Dancer.
    pub combos: DncCombos,
    /// The Fourfold Feathers gauge.
    pub feathers: GaugeU8<4>,
    /// The Esprit gauge.
    pub esprit: GaugeU8<100>,
    /// The Dance Step gauge.
    pub step: StepGauge,
    /// The dance partner, or `None` if there is none.
    pub partner: Option<ActorId>,
}

/// The Dancer state as plain values.
#[derive(Clone, Copy, Debug)]
pub struct DncGauges {
    /// The main combo.
    pub main: Option<(MainCombo, u32)>,
    /// The Fourfold Feathers gauge.
    pub feathers: u8,
    /// The Esprit gauge.
    pub esprit: u8,
    /// The Dance Step gauge.
    pub step: StepGauge,
    /// The dance partner.
    pub partner: Option<ActorId>,
}

impl DncState {
    /// `true` for the state of a Dancer that has done nothing yet.
    pub open spec fn spec_is_new(&self) -> bool {
        &&& self.combos.main.combo is None
        &&& self.feathers@ == 0
        &&& self.esprit@ == 0
        &&& self.step == StepGauge::NoDance
        &&& self.partner is None
    }

    /// Creates the state of a Dancer that has done nothing yet: no combo, every
    /// gauge empty, no dance and no partner.
    pub fn new() -> (r: Self)
        ensures
            r.spec_is_new(),
    {
        DncState {
            combos: DncCombos { main: ComboState::new() },
            feathers: GaugeU8::new(),
            esprit: GaugeU8::new(),
            step: StepGauge::NoDance,
            partner: None,
        }
    }

    /// The state as plain values.
    pub open spec fn gauges(&self) -> DncGauges {
        DncGauges {
            main: self.combos.main.combo,
            feathers: self.feathers@,
            esprit: self.esprit@,
            step: self.step,
            partner: self.partner,
        }
    }
}

impl JobState for DncState {
    open spec fn spec_advanced(&self, time: u32, next: &Self) -> bool {
        next.gauges() == self.gauges()
    }

    fn advance(&mut self, time: u32) {
    }
}

impl JobAction for DncAction {
    open spec fn spec_category(&self) -> ActionCategory {
        spec_dnc_category(*self)
    }

    open spec fn spec_gcd(&self) -> bool {
        spec_dnc_gcd(*self) is Some
    }

    fn category(&self) -> (r: ActionCategory) {
        DncAction::category(self)
    }

    fn gcd(&self) -> (r: bool) {
        DncAction::gcd(self).is_some()
    }
}

/// A random event that casting a Dancer action may roll.
#[derive(Clone, Copy, Debug, PartialEq, Eq, Structural)]
pub enum DncRoll {
    /// The `50%` chance for Silken Symmetry or Silken Flow.
    SymmFlow,
    /// The `50%` chance for a Fourfold Feather.
    Feather,
    /// The `50%` chance for Threefold Fan Dance.
    FanDance3,
    /// The random sequence of the two steps of Standard Step.
    StdSteps,
    /// The random sequence of the four steps of Technical Step.
    TechSteps,
}

/// The random event casting the action rolls, given the gauges and whether it
/// has a target, if it rolls one.
pub open spec fn spec_dnc_roll(ac: DncAction, g: DncGauges, has_target: bool) -> Option<DncRoll> {
    match ac {
        DncAction::Cascade | DncAction::Windmill => if has_target {
            Some(DncRoll::SymmFlow)
        } else {
            None
        },
        DncAction::Fountain => if has_target && combo_at(g.main, MainCombo::Cascade) {
            Some(DncRoll::SymmFlow)
        } else {
            None
        },
        DncAction::Bladeshower => if has_target && combo_at(g.main, MainCombo::Windmill) {
            Some(DncRoll::SymmFlow)
        } else {
            None
        },
        DncAction::ReverseCascade | DncAction::RisingWindmill | DncAction::Fountainfall
        | DncAction::Bloodshower => if has_target {
            Some(DncRoll::Feather)
        } else {
            None
        },
        DncAction::FanDance | DncAction::FanDance2 => if has_target {
            Some(DncRoll::FanDance3)
        } else {
            None
        },
        DncAction::StandardStep => Some(DncRoll::StdSteps),
        DncAction::TechnicalStep => Some(DncRoll::TechSteps),
        _ => None,
    }
}

/// Returns the random event casting the action rolls, if it rolls one: the
/// outcome of that roll is an argument of [`DncJob::cast_snap`].
pub fn roll_for(ac: DncAction, state: &DncState, ctx: &CastContext) -> (r: Option<DncRoll>)
    ensures
        r == spec_dnc_roll(ac, state.gauges(), ctx.spec_targets().len() > 0),
{
    let has_target = first_target(ctx).is_some();
    match ac {
        DncAction::Cascade | DncAction::Windmill => if has_target {
            Some(DncRoll::SymmFlow)
        } else {
            None
        },
        DncAction::Fountain | DncAction::Bladeshower => if has_target
            && state.combos.check_main_for(ac) {
            Some(DncRoll::SymmFlow)
        } else {
            None
        },
        DncAction::ReverseCascade | DncAction::RisingWindmill | DncAction::Fountainfall
        | DncAction::Bloodshower => if has_target {
            Some(DncRoll::Feather)
        } else {
            None
        },
        DncAction::FanDance | DncAction::FanDance2 => if has_target {
            Some(DncRoll::FanDance3)
        } else {
            None
        },
        DncAction::StandardStep => Some(DncRoll::StdSteps),
        DncAction::TechnicalStep => Some(DncRoll::TechSteps),
        _ => None,
    }
}

/// A Dancer action as an action of the world.
pub open spec fn dnc_action(ac: DncAction) -> Action {
    Action::Job(job::Action::Dnc(ac))
}

/// A hit of `pot` slashing potency.
pub open spec fn dnc_hit(pot: u64) -> DamageInstance {
    DamageInstance { ty: DamageType::Slashing, ..spec_damage(pot) }
}

/// A guaranteed critical direct hit of `pot` slashing potency.
pub open spec fn dnc_hit_ch(pot: u64) -> DamageInstance {
    DamageInstance { force_crit: true, force_dhit: true, ..dnc_hit(pot) }
}

/// Returns a hit of `pot` slashing potency.
fn hit(pot: u64) -> (r: DamageInstance)
    ensures
        r == dnc_hit(pot),
{
    DamageInstance::new(pot).slashing()
}

/// The Esprit gauge after gaining `val`, which only happens under an Esprit status.
pub open spec fn esprit_gain(g: DncGauges, ctx: CastContext, val: u8) -> u8 {
    if ctx.has_own(spec_standard_espit()) || ctx.has_own(spec_technical_espit()) {
        add_sat(g.esprit, val, 100)
    } else {
        g.esprit
    }
}

/// The operation that applies `status` with a duration lengthened by `extra`, from
/// `me` to `t` after `delay`.
pub open spec fn cascade_apply_op(status: StatusEffect, me: ActorId, t: ActorId, delay: u32, extra: u32) -> SinkOp {
    status_op(
        StatusEvent {
            source: me,
            target: t,
            status,
            kind: StatusEventKind::Apply {
                duration: (status.vtable.duration + extra) as u32,
                stacks: 1,
            },
        },
        delay,
    )
}

/// The buff operations of Technical Finish on the actors `list`, each paired with
/// whether it has the Standard Finish Esprit of `me`: the finish `status`, then
/// Esprit where the actor lacks it, each lasting longer by the next time of a
/// cascade that is at `time`.
pub open spec fn tech_buff_ops(me: ActorId, status: StatusEffect, list: Seq<(ActorId, bool)>, time: int) -> Seq<
    SinkOp,
>
    decreases list.len(),
{
    if list.len() == 0 {
        Seq::empty()
    } else {
        let (t, has_std) = list[0];
        let first = cascade_apply_op(status, me, t, 650, time as u32);
        if has_std {
            seq![first] + tech_buff_ops(me, status, list.drop_first(), time + 135)
        } else {
            seq![first, cascade_apply_op(spec_technical_espit(), me, t, 650, (time + 135) as u32)]
                + tech_buff_ops(me, status, list.drop_first(), time + 270)
        }
    }
}

/// The operations that apply a finish status and its Esprit to `me` and the
/// dance partner.
pub open spec fn finish_ops(me: ActorId, partner: Option<ActorId>, status: StatusEffect) -> Seq<SinkOp> {
    seq![apply_op(status, 1, me, me, 0), apply_op(spec_standard_espit(), 1, me, me, 0)] + match partner {
        Some(p) => seq![apply_op(status, 1, me, p, 0), apply_op(spec_standard_espit(), 1, me, p, 0)],
        None => Seq::empty(),
    }
}

/// The potency and status of Standard Finish for a number of completed steps.
pub open spec fn standard_finish(completed: u8) -> (u64, Option<StatusEffect>) {
    if completed == 1 {
        (540, Some(spec_standard_finish_1()))
    } else if completed == 2 {
        (720, Some(spec_standard_finish_2()))
    } else {
        (360, None)
    }
}

/// The potency and status of Technical Finish for a number of completed steps.
pub open spec fn technical_finish(completed: u8) -> (u64, Option<StatusEffect>) {
    if completed == 1 {
        (540, Some(spec_technical_finish_1()))
    } else if completed == 2 {
        (720, Some(spec_technical_finish_2()))
    } else if completed == 3 {
        (900, Some(spec_technical_finish_3()))
    } else if completed == 4 {
        (1200, Some(spec_technical_finish_4()))
    } else {
        (360, None)
    }
}

/// The operation that uses a Silken status, or otherwise removes the matching
/// Flourishing status.
pub open spec fn silken_ops(me: ActorId, ctx: CastContext, silken: StatusEffect, flourish: StatusEffect) -> Seq<
    SinkOp,
> {
    if ctx.has_own(silken) {
        seq![remove_op(silken, me, me, 0)]
    } else {
        seq![remove_op(flourish, me, me, 0)]
    }
}

/// What casting a Dancer action does: the gauges it leaves and the operations it
/// asks of the event sink, in order. `proc` is the outcome of the roll the action
/// makes (see [`spec_dnc_roll`]); `std_steps` and `tech_steps` are the step
/// sequences Standard Step and Technical Step roll; `buff_targets` are the actors
/// within `30` of `me`, each with whether it has the Standard Finish Esprit of `me`.
pub open spec fn spec_dnc_cast_snap(
    ac: DncAction,
    g: DncGauges,
    ctx: CastContext,
    proc: bool,
    std_steps: [Step; 2],
    tech_steps: [Step; 4],
    buff_targets: Seq<(ActorId, bool)>,
) -> (DncGauges, Seq<SinkOp>) {
    let me = ctx.this;
    let tg = ctx.spec_targets();
    let has_t = tg.len() > 0;
    let t = tg[0];
    let a = dnc_action(ac);
    let no_target = (g, seq![error_op(EventError::NoTarget)]);
    let dmg1 = |pot: u64| damage_op(a, dnc_hit(pot), t, 0);
    let aoe = |pot: u64| aoe_ops(a, dnc_hit(pot), dnc_hit(pot), tg, 0, 45);
    let aoe2 = |first: u64, rest: u64| aoe_ops(a, dnc_hit(first), dnc_hit(rest), tg, 0, 45);
    let proc_status = |st: StatusEffect|
        if proc {
            seq![apply_op(st, 1, me, me, 0)]
        } else {
            Seq::<SinkOp>::empty()
        };
    let feather_gain = if proc {
        add_sat(g.feathers, 1, 4)
    } else {
        g.feathers
    };
    match ac {
        DncAction::Cascade => if !has_t {
            no_target
        } else {
            (
                DncGauges {
                    esprit: esprit_gain(g, ctx, 5),
                    main: Some((MainCombo::Cascade, 30000u32)),
                    ..g
                },
                proc_status(spec_silken_symm()) + seq![dmg1(220)],
            )
        },
        DncAction::Fountain => if !has_t {
            no_target
        } else {
            let combo = combo_at(g.main, MainCombo::Cascade);
            (
                DncGauges { esprit: esprit_gain(g, ctx, 5), main: None, ..g },
                (if combo {
                    proc_status(spec_silken_flow())
                } else {
                    Seq::empty()
                }) + seq![
                    dmg1(
                        if combo {
                            280
                        } else {
                            100
                        },
                    ),
                ],
            )
        },
        DncAction::Windmill => if has_t {
            (
                DncGauges {
                    esprit: esprit_gain(g, ctx, 5),
                    main: Some((MainCombo::Windmill, 30000u32)),
                    ..g
                },
                aoe(100) + proc_status(spec_silken_symm()),
            )
        } else {
            (DncGauges { main: None, ..g }, aoe(100))
        },
        DncAction::StandardStep => (
            DncGauges { step: StepGauge::Std { steps: std_steps, completed: 0 }, ..g },
            seq![apply_op(spec_standard_step(), 1, me, me, 0)],
        ),
        DncAction::ReverseCascade => if !has_t {
            no_target
        } else {
            (
                DncGauges {
                    feathers: feather_gain,
                    esprit: esprit_gain(g, ctx, 10),
                    ..g
                },
                silken_ops(me, ctx, spec_silken_symm(), spec_flourish_symm()) + seq![dmg1(280)],
            )
        },
        DncAction::Bladeshower => {
            let combo = combo_at(g.main, MainCombo::Windmill);
            (
                DncGauges {
                    esprit: if has_t {
                        esprit_gain(g, ctx, 5)
                    } else {
                        g.esprit
                    },
                    main: None,
                    ..g
                },
                aoe(
                    if combo {
                        140
                    } else {
                        100
                    },
                ) + (if has_t && combo {
                    proc_status(spec_silken_symm())
                } else {
                    Seq::empty()
                }),
            )
        },
        DncAction::FanDance => if !has_t {
            no_target
        } else {
            (
                DncGauges { feathers: sub_sat(g.feathers, 1), ..g },
                proc_status(spec_fan_dance_3()) + seq![dmg1(150)],
            )
        },
        DncAction::RisingWindmill | DncAction::Bloodshower => {
            let (silken, flourish, pot) = if ac is RisingWindmill {
                (spec_silken_symm(), spec_flourish_symm(), 140u64)
            } else {
                (spec_silken_flow(), spec_flourish_flow(), 180u64)
            };
            (
                if has_t {
                    DncGauges {
                        feathers: feather_gain,
                        esprit: esprit_gain(g, ctx, 10),
                        ..g
                    }
                } else {
                    g
                },
                aoe(pot) + silken_ops(me, ctx, silken, flourish),
            )
        },
        DncAction::Fountainfall => if !has_t {
            no_target
        } else {
            (
                DncGauges {
                    feathers: feather_gain,
                    esprit: esprit_gain(g, ctx, 10),
                    ..g
                },
                silken_ops(me, ctx, spec_silken_flow(), spec_flourish_flow()) + seq![dmg1(340)],
            )
        },
        DncAction::FanDance2 => (
            DncGauges { feathers: sub_sat(g.feathers, 1), ..g },
            aoe(100) + (if has_t {
                proc_status(spec_fan_dance_3())
            } else {
                Seq::empty()
            }),
        ),
        DncAction::ClosedPosition => if !has_t || t == me {
            no_target
        } else {
            (
                DncGauges { partner: Some(t), ..g },
                (match g.partner {
                    Some(p) => seq![
                        remove_op(spec_dance_partner(), me, p, 0),
                        remove_op(spec_closed_position(), me, me, 0),
                    ],
                    None => Seq::empty(),
                }) + seq![
                    apply_op(spec_dance_partner(), 1, me, t, 0),
                    apply_op(spec_closed_position(), 1, me, me, 0),
                ],
            )
        },
        DncAction::Ending => match g.partner {
            Some(p) => (
                DncGauges { partner: None, ..g },
                seq![
                    remove_op(spec_dance_partner(), me, p, 0),
                    remove_op(spec_closed_position(), me, me, 0),
                ],
            ),
            None => (g, Seq::empty()),
        },
        DncAction::Devilment => (
            g,
            seq![apply_op(spec_devilment(), 1, me, me, 0), apply_op(spec_starfall(), 1, me, me, 0)]
                + match g.partner {
                Some(p) => seq![apply_op(spec_devilment(), 1, me, p, 0)],
                None => Seq::empty(),
            },
        ),
        DncAction::FanDance3 => if !has_t {
            no_target
        } else {
            (g, aoe2(200, 100))
        },
        DncAction::TechnicalStep => (
            DncGauges { step: StepGauge::Tech { steps: tech_steps, completed: 0 }, ..g },
            seq![apply_op(spec_technical_step(), 1, me, me, 0)],
        ),
        DncAction::Flourish => (
            g,
            seq![
                apply_op(spec_flourish_symm(), 1, me, me, 0),
                apply_op(spec_flourish_flow(), 1, me, me, 0),
                apply_op(spec_fan_dance_3(), 1, me, me, 0),
                apply_op(spec_fan_dance_4(), 1, me, me, 0),
            ],
        ),
        DncAction::SaberDance => if !has_t {
            no_target
        } else {
            (DncGauges { esprit: sub_sat(g.esprit, 50), ..g }, aoe2(480, 240))
        },
        DncAction::FanDance4 => if !has_t {
            no_target
        } else {
            (g, seq![remove_op(spec_fan_dance_4(), me, me, 0)] + aoe2(300, 150))
        },
        DncAction::StarfallDance => if !has_t {
            no_target
        } else {
            (
                g,
                seq![remove_op(spec_starfall(), me, me, 0)] + aoe_ops(
                    a,
                    dnc_hit_ch(600),
                    dnc_hit_ch(150),
                    tg,
                    0,
                    45,
                ),
            )
        },
        DncAction::Emboite => (DncGauges { step: spec_step_executed(g.step, Step::Emboite), ..g }, Seq::empty()),
        DncAction::Entrechat => (DncGauges { step: spec_step_executed(g.step, Step::Entrechat), ..g }, Seq::empty()),
        DncAction::Jete => (DncGauges { step: spec_step_executed(g.step, Step::Jete), ..g }, Seq::empty()),
        DncAction::Pirouette => (DncGauges { step: spec_step_executed(g.step, Step::Pirouette), ..g }, Seq::empty()),
        DncAction::StandardFinish => {
            let completed = match g.step {
                StepGauge::Std { completed, .. } => completed,
                _ => 0,
            };
            let (pot, status) = standard_finish(completed);
            (
                g,
                (match status {
                    Some(st) => finish_ops(me, g.partner, st),
                    None => Seq::empty(),
                }) + aoe2(pot, pot / 4),
            )
        },
        DncAction::TechnicalFinish => {
            let completed = match g.step {
                StepGauge::Tech { completed, .. } => completed,
                _ => 0,
            };
            let (pot, status) = technical_finish(completed);
            (
                g,
                aoe2(pot, pot / 4) + (match status {
                    Some(st) => tech_buff_ops(me, st, buff_targets, 650),
                    None => Seq::empty(),
                }) + seq![apply_op(spec_flourish_finish(), 1, me, me, 0)],
            )
        },
        DncAction::Tillana => (
            g,
            seq![remove_op(spec_flourish_finish(), me, me, 0)] + finish_ops(
                me,
                g.partner,
                spec_standard_finish_2(),
            ) + aoe2(360, 180),
        ),
        _ => (g, Seq::empty()),
    }
}

/// Pushes the buff operations of Technical Finish; see [`tech_buff_ops`].
fn push_tech_buffs(
    ops: &mut Vec<SinkOp>,
    me: ActorId,
    status: StatusEffect,
    buff_targets: &Vec<(ActorId, bool)>,
)
    requires
        status.vtable.duration <= 20000,
        1000 + 270 * buff_targets@.len() + 20000 <= u32::MAX,
    ensures
        final(ops)@ == old(ops)@ + tech_buff_ops(me, status, buff_targets@, 650),
{
    let ghost base = ops@;
    let ghost list = buff_targets@;
    let espit = technical_espit();
    let mut time: u32 = 650;
    let mut i: usize = 0;
    assert(list.skip(0) =~= list);
    while i < buff_targets.len()
        invariant
            i <= list.len(),
            list == buff_targets@,
            espit == spec_technical_espit(),
            status.vtable.duration <= 20000,
            1000 + 270 * list.len() + 20000 <= u32::MAX,
            650 <= time <= 650 + 270 * i,
            ops@ + tech_buff_ops(me, status, list.skip(i as int), time as int) == base
                + tech_buff_ops(me, status, list, 650),
        decreases buff_targets.len() - i,
    {
        let (t, has_std) = buff_targets[i];
        let ghost before = ops@;
        let ghost rest = list.skip(i as int);
        proof {
            assert(rest[0] == (t, has_std));
            assert(rest.drop_first() =~= list.skip(i + 1));
        }
        ops.push(
            SinkOp::Event {
                event: Event::Status(
                    StatusEvent {
                        source: me,
                        target: t,
                        status,
                        kind: StatusEventKind::Apply { duration: status.vtable.duration + time, stacks: 1 },
                    },
                ),
                delay: 650,
            },
        );
        time = time + 135;
        if !has_std {
            ops.push(
                SinkOp::Event {
                    event: Event::Status(
                        StatusEvent {
                            source: me,
                            target: t,
                            status: espit,
                            kind: StatusEventKind::Apply {
                                duration: espit.vtable.duration + time,
                                stacks: 1,
                            },
                        },
                    ),
                    delay: 650,
                },
            );
            time = time + 135;
        }
        proof {
            assert(ops@ + tech_buff_ops(me, status, list.skip(i + 1), time as int) =~= before
                + tech_buff_ops(me, status, rest, (time - (if has_std {
                135int
            } else {
                270int
            })) as int));
        }
        i = i + 1;
    }
    proof {
        assert(list.skip(list.len() as int) =~= Seq::<(ActorId, bool)>::empty());
        assert(ops@ + Seq::<SinkOp>::empty() =~= ops@);
    }
}

/// Pushes the operations that apply a finish status and its Esprit to `me` and
/// the dance partner.
fn push_finish(ops: &mut Vec<SinkOp>, me: ActorId, partner: Option<ActorId>, status: StatusEffect)
    ensures
        final(ops)@ == old(ops)@ + finish_ops(me, partner, status),
{
    let espit = standard_espit();
    ops.apply_status(me, status, 1, me, 0);
    ops.apply_status(me, espit, 1, me, 0);
    match partner {
        Some(p) => {
            ops.apply_status(me, status, 1, p, 0);
            ops.apply_status(me, espit, 1, p, 0);
        },
        None => {},
    }
    assert(final(ops)@ =~= old(ops)@ + finish_ops(me, partner, status));
}

/// Adds `val` to the Esprit gauge under an Esprit status.
fn gain_esprit(state: &mut DncState, ctx: &CastContext, val: u8)
    ensures
        final(state).gauges() == (DncGauges { esprit: esprit_gain(old(state).gauges(), *ctx, val), ..old(state).gauges() }),
{
    if has_status(&ctx.statuses, standard_espit(), ctx.this) || has_status(
        &ctx.statuses,
        technical_espit(),
        ctx.this,
    ) {
        state.esprit.add_assign(val);
    }
}

/// Uses a Silken status, or otherwise asks for the removal of the matching
/// Flourishing status.
fn use_silken(ops: &mut Vec<SinkOp>, ctx: &CastContext, silken: StatusEffect, flourish: StatusEffect)
    ensures
        final(ops)@ == old(ops)@ + silken_ops(ctx.this, *ctx, silken, flourish),
{
    let me = ctx.this;
    if !consume_status(ctx, ops, silken, 0) {
        ops.remove_status(me, flourish, me, 0);
    }
    assert(final(ops)@ =~= old(ops)@ + silken_ops(me, *ctx, silken, flourish));
}

impl DncJob {
    /// Executes the specified action: the changes to the job gauges and combos it
    /// makes, and the operations it asks of the event sink, in order.
    ///
    /// `proc` is the outcome of the roll the action makes, as [`roll_for`] tells;
    /// `std_steps` and `tech_steps` are the step sequences Standard Step and
    /// Technical Step roll; `buff_targets` are the actors within `30` of the caster,
    /// each with whether it has the caster's Standard Finish Esprit, used by
    /// Technical Finish. An action that needs a target and has none asks only for a
    /// [`NoTarget`](EventError::NoTarget) error, and changes nothing.
    pub fn cast_snap(
        ac: DncAction,
        state: &mut DncState,
        ctx: &CastContext,
        proc: bool,
        std_steps: [Step; 2],
        tech_steps: [Step; 4],
        buff_targets: &Vec<(ActorId, bool)>,
    ) -> (ops: Vec<SinkOp>)
        requires
            45 * ctx.spec_targets().len() <= u32::MAX,
            1000 + 270 * buff_targets@.len() + 20000 <= u32::MAX,
        ensures
            final(state).gauges() == spec_dnc_cast_snap(
                ac,
                old(state).gauges(),
                *ctx,
                proc,
                std_steps,
                tech_steps,
                buff_targets@,
            ).0,
            ops@ == spec_dnc_cast_snap(
                ac,
                old(state).gauges(),
                *ctx,
                proc,
                std_steps,
                tech_steps,
                buff_targets@,
            ).1,
    {
        let mut ops: Vec<SinkOp> = Vec::new();
        let me = ctx.this;
        let a = Action::Job(job::Action::Dnc(ac));
        let target = first_target(ctx);
        let ghost expected = spec_dnc_cast_snap(
            ac,
            old(state).gauges(),
            *ctx,
            proc,
            std_steps,
            tech_steps,
            buff_targets@,
        ).1;
        match ac {
            DncAction::Windmill => {
                push_aoe_all(&mut ops, a, hit(100), hit(100), ctx, 0, 1);
                if target.is_some() {
                    if proc {
                        ops.apply_status(me, silken_symm(), 1, me, 0);
                    }
                    gain_esprit(state, ctx, 5);
                    state.combos.main.set(MainCombo::Windmill);
                } else {
                    state.combos.main.reset();
                }
            },
            DncAction::StandardStep => {
                ops.apply_status(me, standard_step(), 1, me, 0);
                state.step = StepGauge::Std { steps: std_steps, completed: 0 };
            },
            DncAction::Bladeshower => {
                let combo = state.combos.check_main_for(ac);
                let pot: u64 = if combo {
                    140
                } else {
                    100
                };
                push_aoe_all(&mut ops, a, hit(pot), hit(pot), ctx, 0, 1);
                if target.is_some() {
                    if combo && proc {
                        ops.apply_status(me, silken_symm(), 1, me, 0);
                    }
                    gain_esprit(state, ctx, 5);
                }
                state.combos.main.reset();
            },
            DncAction::RisingWindmill | DncAction::Bloodshower => {
                let (silken, flourish, pot): (StatusEffect, StatusEffect, u64) =
                    if ac == DncAction::RisingWindmill {
                    (silken_symm(), flourish_symm(), 140)
                } else {
                    (silken_flow(), flourish_flow(), 180)
                };
                push_aoe_all(&mut ops, a, hit(pot), hit(pot), ctx, 0, 1);
                use_silken(&mut ops, ctx, silken, flourish);
                if target.is_some() {
                    if proc {
                        state.feathers.add_assign(1);
                    }
                    gain_esprit(state, ctx, 10);
                }
            },
            DncAction::FanDance2 => {
                push_aoe_all(&mut ops, a, hit(100), hit(100), ctx, 0, 1);
                state.feathers.sub_assign(1);
                if target.is_some() && proc {
                    ops.apply_status(me, fan_dance_3(), 1, me, 0);
                }
            },
            DncAction::Ending => {
                match state.partner {
                    Some(p) => {
                        ops.remove_status(me, dance_partner(), p, 0);
                        ops.remove_status(me, closed_position(), me, 0);
                        state.partner = None;
                    },
                    None => {},
                }
            },
            DncAction::Devilment => {
                ops.apply_status(me, devilment(), 1, me, 0);
                ops.apply_status(me, starfall(), 1, me, 0);
                match state.partner {
                    Some(p) => {
                        ops.apply_status(me, devilment(), 1, p, 0);
                    },
                    None => {},
                }
            },
            DncAction::TechnicalStep => {
                ops.apply_status(me, technical_step(), 1, me, 0);
                state.step = StepGauge::Tech { steps: tech_steps, completed: 0 };
            },
            DncAction::Flourish => {
                ops.apply_status(me, flourish_symm(), 1, me, 0);
                ops.apply_status(me, flourish_flow(), 1, me, 0);
                ops.apply_status(me, fan_dance_3(), 1, me, 0);
                ops.apply_status(me, fan_dance_4(), 1, me, 0);
            },
            DncAction::Emboite => state.step.execute(Step::Emboite),
            DncAction::Entrechat => state.step.execute(Step::Entrechat),
            DncAction::Jete => state.step.execute(Step::Jete),
            DncAction::Pirouette => state.step.execute(Step::Pirouette),
            DncAction::StandardFinish | DncAction::TechnicalFinish | DncAction::Tillana => {
                cast_finish(ac, state, ctx, buff_targets, &mut ops);
            },
            DncAction::EnAvant | DncAction::CuringWaltz | DncAction::ShieldSamba
            | DncAction::Improvisation | DncAction::ImprovisedFinish => {},
            _ => {
                let t = match target {
                    Some(t) => t,
                    None => {
                        ops.push(SinkOp::Error { error: EventError::NoTarget });
                        assert(ops@ =~= expected);
                        return ops;
                    },
                };
                cast_targeted(ac, state, ctx, proc, t, &mut ops);
            },
        }
        assert(ops@ =~= expected);
        ops
    }
}

/// The finishing moves of [`DncJob::cast_snap`].
fn cast_finish(
    ac: DncAction,
    state: &DncState,
    ctx: &CastContext,
    buff_targets: &Vec<(ActorId, bool)>,
    ops: &mut Vec<SinkOp>,
)
    requires
        ac is StandardFinish || ac is TechnicalFinish || ac is Tillana,
        old(ops)@.len() == 0,
        45 * ctx.spec_targets().len() <= u32::MAX,
        1000 + 270 * buff_targets@.len() + 20000 <= u32::MAX,
    ensures
        final(ops)@ == spec_dnc_cast_snap(
            ac,
            state.gauges(),
            *ctx,
            false,
            [Step::Emboite, Step::Emboite],
            [Step::Emboite, Step::Emboite, Step::Emboite, Step::Emboite],
            buff_targets@,
        ).1,
{
    let me = ctx.this;
    let a = Action::Job(job::Action::Dnc(ac));
    let ghost start = ops@;
    match ac {
        DncAction::StandardFinish => {
            let completed = match state.step {
                StepGauge::Std { completed, .. } => completed,
                _ => 0,
            };
            let (pot, status): (u64, Option<StatusEffect>) = if completed == 1 {
                (540, Some(standard_finish_1()))
            } else if completed == 2 {
                (720, Some(standard_finish_2()))
            } else {
                (360, None)
            };
            match status {
                Some(st) => push_finish(ops, me, state.partner, st),
                None => {},
            }
            push_aoe_all(ops, a, hit(pot), hit(pot / 4), ctx, 0, 1);
        },
        DncAction::TechnicalFinish => {
            let completed = match state.step {
                StepGauge::Tech { completed, .. } => completed,
                _ => 0,
            };
            let (pot, status): (u64, Option<StatusEffect>) = if completed == 1 {
                (540, Some(technical_finish_1()))
            } else if completed == 2 {
                (720, Some(technical_finish_2()))
            } else if completed == 3 {
                (900, Some(technical_finish_3()))
            } else if completed == 4 {
                (1200, Some(technical_finish_4()))
            } else {
                (360, None)
            };
            push_aoe_all(ops, a, hit(pot), hit(pot / 4), ctx, 0, 1);
            match status {
                Some(st) => push_tech_buffs(ops, me, st, buff_targets),
                None => {},
            }
            ops.apply_status(me, flourish_finish(), 1, me, 0);
        },
        _ => {
            ops.remove_status(me, flourish_finish(), me, 0);
            push_finish(ops, me, state.partner, standard_finish_2());
            push_aoe_all(ops, a, hit(360), hit(180), ctx, 0, 1);
        },
    }
    assert(ops@ =~= start + spec_dnc_cast_snap(
        ac,
        state.gauges(),
        *ctx,
        false,
        [Step::Emboite, Step::Emboite],
        [Step::Emboite, Step::Emboite, Step::Emboite, Step::Emboite],
        buff_targets@,
    ).1);
}

/// The actions of [`DncJob::cast_snap`] that need a target, once they have one.
fn cast_targeted(
    ac: DncAction,
    state: &mut DncState,
    ctx: &CastContext,
    proc: bool,
    t: ActorId,
    ops: &mut Vec<SinkOp>,
)
    requires
        ac is Cascade || ac is Fountain || ac is ReverseCascade || ac is FanDance || ac is Fountainfall
            || ac is ClosedPosition || ac is FanDance3 || ac is SaberDance || ac is FanDance4
            || ac is StarfallDance,
        old(ops)@.len() == 0,
        ctx.spec_targets().len() > 0,
        t == ctx.spec_targets()[0],
        45 * ctx.spec_targets().len() <= u32::MAX,
    ensures
        final(state).gauges() == spec_dnc_cast_snap(
            ac,
            old(state).gauges(),
            *ctx,
            proc,
            [Step::Emboite, Step::Emboite],
            [Step::Emboite, Step::Emboite, Step::Emboite, Step::Emboite],
            Seq::empty(),
        ).0,
        final(ops)@ == spec_dnc_cast_snap(
            ac,
            old(state).gauges(),
            *ctx,
            proc,
            [Step::Emboite, Step::Emboite],
            [Step::Emboite, Step::Emboite, Step::Emboite, Step::Emboite],
            Seq::empty(),
        ).1,
{
    let me = ctx.this;
    let a = Action::Job(job::Action::Dnc(ac));
    match ac {
        DncAction::Cascade => {
            if proc {
                ops.apply_status(me, silken_symm(), 1, me, 0);
            }
            gain_esprit(state, ctx, 5);
            state.combos.main.set(MainCombo::Cascade);
            ops.damage(a, hit(220), t, 0);
        },
        DncAction::Fountain => {
            let combo = state.combos.check_main_for(ac);
            if combo && proc {
                ops.apply_status(me, silken_flow(), 1, me, 0);
            }
            gain_esprit(state, ctx, 5);
            state.combos.main.reset();
            ops.push(
                SinkOp::Damage { action: a, damage: hit(combo_pot(100, 280, combo)), target: t, delay: 0 },
            );
        },
        DncAction::ReverseCascade | DncAction::Fountainfall => {
            let (silken, flourish, pot): (StatusEffect, StatusEffect, u64) =
                if ac == DncAction::ReverseCascade {
                (silken_symm(), flourish_symm(), 280)
            } else {
                (silken_flow(), flourish_flow(), 340)
            };
            use_silken(ops, ctx, silken, flourish);
            if proc {
                state.feathers.add_assign(1);
            }
            gain_esprit(state, ctx, 10);
            ops.damage(a, hit(pot), t, 0);
        },
        DncAction::FanDance => {
            state.feathers.sub_assign(1);
            if proc {
                ops.apply_status(me, fan_dance_3(), 1, me, 0);
            }
            ops.damage(a, hit(150), t, 0);
        },
        DncAction::ClosedPosition => {
            if t.0 == me.0 {
                ops.push(SinkOp::Error { error: EventError::NoTarget });
                return ;
            }
            match state.partner {
                Some(p) => {
                    ops.remove_status(me, dance_partner(), p, 0);
                    ops.remove_status(me, closed_position(), me, 0);
                },
                None => {},
            }
            ops.apply_status(me, dance_partner(), 1, t, 0);
            ops.apply_status(me, closed_position(), 1, me, 0);
            state.partner = Some(t);
        },
        DncAction::FanDance3 => {
            push_aoe_all(ops, a, hit(200), hit(100), ctx, 0, 1);
        },
        DncAction::SaberDance => {
            state.esprit.sub_assign(50);
            push_aoe_all(ops, a, hit(480), hit(240), ctx, 0, 1);
        },
        DncAction::FanDance4 => {
            ops.remove_status(me, fan_dance_4(), me, 0);
            push_aoe_all(ops, a, hit(300), hit(150), ctx, 0, 1);
        },
        _ => {
            ops.remove_status(me, starfall(), me, 0);
            push_aoe_all(
                ops,
                a,
                DamageInstance::new(600).slashing().force_crit().force_dhit(),
                DamageInstance::new(150).slashing().force_crit().force_dhit(),
                ctx,
                0,
                1,
            );
        },
    }
    assert(final(ops)@ =~= spec_dnc_cast_snap(
        ac,
        old(state).gauges(),
        *ctx,
        proc,
        [Step::Emboite, Step::Emboite],
        [Step::Emboite, Step::Emboite, Step::Emboite, Step::Emboite],
        Seq::empty(),
    ).1);
}

/// The error of the first check of a cast of an action, if it fails.
pub open spec fn spec_dnc_check_error(ac: DncAction, g: DncGauges, ctx: CastContext) -> Option<EventError> {
    let e = |d: DncError| Some(EventError::Job(job::CastError::Dnc(d)));
    match ac {
        DncAction::FanDance | DncAction::FanDance2 => if g.feathers == 0 {
            e(DncError::Feather)
        } else {
            None
        },
        DncAction::SaberDance => if g.esprit < 50 {
            e(DncError::Esprit)
        } else {
            None
        },
        DncAction::FanDance3 => if !ctx.has_own(spec_fan_dance_3()) {
            e(DncError::Fan3)
        } else {
            None
        },
        DncAction::FanDance4 => if !ctx.has_own(spec_fan_dance_4()) {
            e(DncError::Fan4)
        } else {
            None
        },
        DncAction::StarfallDance => if !ctx.has_own(spec_starfall()) {
            e(DncError::Starfall)
        } else {
            None
        },
        DncAction::ReverseCascade | DncAction::RisingWindmill => if !ctx.has_own(spec_silken_symm())
            && !ctx.has_own(spec_flourish_symm()) {
            e(DncError::Symmetry)
        } else {
            None
        },
        DncAction::Fountainfall | DncAction::Bloodshower => if !ctx.has_own(spec_silken_flow())
            && !ctx.has_own(spec_flourish_flow()) {
            e(DncError::Flow)
        } else {
            None
        },
        DncAction::Tillana => if !ctx.has_own(spec_flourish_finish()) {
            e(DncError::Tillana)
        } else {
            None
        },
        DncAction::StandardFinish => if !ctx.has_own(spec_standard_step()) {
            e(DncError::StandardStep)
        } else {
            None
        },
        DncAction::TechnicalFinish => if !ctx.has_own(spec_technical_step()) {
            e(DncError::TechnicalStep)
        } else {
            None
        },
        DncAction::Jete | DncAction::Pirouette | DncAction::Emboite | DncAction::Entrechat => if !ctx.has_own(
            spec_standard_step(),
        ) && !ctx.has_own(spec_technical_step()) {
            e(DncError::Step)
        } else {
            None
        },
        DncAction::Flourish => if !ctx.in_combat {
            Some(EventError::InCombat)
        } else {
            None
        },
        DncAction::ClosedPosition => if g.partner is Some {
            e(DncError::PartnerActive)
        } else {
            None
        },
        DncAction::Ending => if g.partner is None {
            e(DncError::PartnerInactive)
        } else {
            None
        },
        _ => None,
    }
}

/// The errors checking a cast of an action submits, in order: that of its first
/// check, and then an error for an action that may not be used during a dance
/// while one is active.
pub open spec fn spec_dnc_check_errors(ac: DncAction, g: DncGauges, ctx: CastContext) -> Seq<SinkOp> {
    (match spec_dnc_check_error(ac, g, ctx) {
        Some(err) => seq![error_op(err)],
        None => Seq::empty(),
    }) + (if !spec_dnc_step_valid(ac) && (ctx.has_own(spec_standard_step()) || ctx.has_own(
        spec_technical_step(),
    )) {
        seq![dnc_error_op(DncError::StepInvalid)]
    } else {
        Seq::empty()
    })
}

/// The timing information of casting an action: its GCD, the lock and snapshot of
/// an instant cast with an animation lock of `600`, and its cooldown.
pub open spec fn spec_dnc_cast_info<D: DurationInfo>(ac: DncAction, di: &D) -> CastInitInfo<DncCdGroup> {
    let times = spec_cast_times(
        di.spec_duration(ScaleTime::spec_of(0, None, false)) as u16,
        600,
        di.spec_extra_ani_lock(),
    );
    CastInitInfo {
        gcd: match spec_dnc_gcd(ac) {
            Some(v) => di.spec_duration(v) as u16,
            None => 0,
        },
        lock: times.0,
        snap: times.1,
        mp: 0,
        cd: match spec_dnc_cd_group(ac) {
            Some(g) => Some((g, spec_dnc_cooldown(ac), spec_dnc_cd_charges(ac))),
            None => None,
        },
        alt_cd: None,
    }
}

impl DncJob {
    /// Checks that a certain action may be cast: submits an error for each
    /// requirement the action does not meet, and returns the timing information of
    /// the cast whatever the errors.
    pub fn check_cast<D: DurationInfo>(
        action: DncAction,
        state: &DncState,
        ctx: &CastContext,
        di: &D,
        ops: &mut Vec<SinkOp>,
    ) -> (r: CastInitInfo<DncCdGroup>)
        requires
            (di.spec_duration(ScaleTime::spec_of(0, None, false)) as u16) == 0 ==> 600
                + di.spec_extra_ani_lock() <= u16::MAX,
            (di.spec_duration(ScaleTime::spec_of(0, None, false)) as u16) != 0 ==> (di.spec_duration(
                ScaleTime::spec_of(0, None, false),
            ) as u16) + 10 <= u16::MAX,
        ensures
            r == spec_dnc_cast_info(action, di),
            final(ops)@ == old(ops)@ + spec_dnc_check_errors(action, state.gauges(), *ctx),
    {
        let gcd = match action.gcd() {
            Some(v) => di.get_duration(v),
            None => 0,
        } as u16;
        let (lock, snap) = di.get_cast(ScaleTime::zero(), 600);
        let cd = match action.cd_group() {
            Some(v) => Some((v, action.cooldown(), action.cd_charges())),
            None => None,
        };
        let me = ctx.this;
        let ghost start = ops@;
        let owns = |s: StatusEffect| -> (r: bool)
            ensures
                r == spec_has_status(ctx.statuses@, s, me),
            { has_status(&ctx.statuses, s, me) };
        let err: Option<EventError> = match action {
            DncAction::FanDance | DncAction::FanDance2 => if state.feathers.value() == 0 {
                Some(EventError::Job(job::CastError::Dnc(DncError::Feather)))
            } else {
                None
            },
            DncAction::SaberDance => if state.esprit.value() < 50 {
                Some(EventError::Job(job::CastError::Dnc(DncError::Esprit)))
            } else {
                None
            },
            DncAction::FanDance3 => if !owns(fan_dance_3()) {
                Some(EventError::Job(job::CastError::Dnc(DncError::Fan3)))
            } else {
                None
            },
            DncAction::FanDance4 => if !owns(fan_dance_4()) {
                Some(EventError::Job(job::CastError::Dnc(DncError::Fan4)))
            } else {
                None
            },
            DncAction::StarfallDance => if !owns(starfall()) {
                Some(EventError::Job(job::CastError::Dnc(DncError::Starfall)))
            } else {
                None
            },
            DncAction::ReverseCascade | DncAction::RisingWindmill => if !owns(silken_symm()) && !owns(
                flourish_symm(),
            ) {
                Some(EventError::Job(job::CastError::Dnc(DncError::Symmetry)))
            } else {
                None
            },
            DncAction::Fountainfall | DncAction::Bloodshower => if !owns(silken_flow()) && !owns(
                flourish_flow(),
            ) {
                Some(EventError::Job(job::CastError::Dnc(DncError::Flow)))
            } else {
                None
            },
            DncAction::Tillana => if !owns(flourish_finish()) {
                Some(EventError::Job(job::CastError::Dnc(DncError::Tillana)))
            } else {
                None
            },
            DncAction::StandardFinish => if !owns(standard_step()) {
                Some(EventError::Job(job::CastError::Dnc(DncError::StandardStep)))
            } else {
                None
            },
            DncAction::TechnicalFinish => if !owns(technical_step()) {
                Some(EventError::Job(job::CastError::Dnc(DncError::TechnicalStep)))
            } else {
                None
            },
            DncAction::Jete | DncAction::Pirouette | DncAction::Emboite | DncAction::Entrechat => if !owns(
                standard_step(),
            ) && !owns(technical_step()) {
                Some(EventError::Job(job::CastError::Dnc(DncError::Step)))
            } else {
                None
            },
            DncAction::Flourish => if !ctx.in_combat {
                Some(EventError::InCombat)
            } else {
                None
            },
            DncAction::ClosedPosition => if state.partner.is_some() {
                Some(EventError::Job(job::CastError::Dnc(DncError::PartnerActive)))
            } else {
                None
            },
            DncAction::Ending => if state.partner.is_none() {
                Some(EventError::Job(job::CastError::Dnc(DncError::PartnerInactive)))
            } else {
                None
            },
            _ => None,
        };
        match err {
            Some(e) => ops.push(SinkOp::Error { error: e }),
            None => {},
        }
        if !action.step_valid() {
            if owns(standard_step()) || owns(technical_step()) {
                DncError::StepInvalid.submit(ops);
            }
        }
        assert(ops@ =~= start + spec_dnc_check_errors(action, state.gauges(), *ctx));
        CastInitInfo { gcd, lock, snap, mp: 0, cd, alt_cd: None }
    }
}


/// The random event for a Silken Symmetry or Silken Flow proc: a `50%` chance.
#[derive(Clone, Copy, Debug, PartialEq, Eq, Structural)]
pub struct SymmFlowProc;

impl SymmFlowProc {
    /// Returns the chance of the proc, as a numerator over a denominator.
    pub fn ratio(&self) -> (r: (u32, u32))
        ensures
            r == (1u32, 2u32),
    {
        (1, 2)
    }

    /// Rolls the proc: `true` with the probability of its [`ratio`](SymmFlowProc::ratio).
    pub fn sample(&self, rng: &mut StdRng) -> (r: bool) {
        let (n, d) = self.ratio();
        gen_ratio(rng, n, d)
    }
}

/// The random event for a Fourfold Feather proc: a `50%` chance.
#[derive(Clone, Copy, Debug, PartialEq, Eq, Structural)]
pub struct FeatherProc;

impl FeatherProc {
    /// Returns the chance of the proc, as a numerator over a denominator.
    pub fn ratio(&self) -> (r: (u32, u32))
        ensures
            r == (1u32, 2u32),
    {
        (1, 2)
    }

    /// Rolls the proc: `true` with the probability of its [`ratio`](FeatherProc::ratio).
    pub fn sample(&self, rng: &mut StdRng) -> (r: bool) {
        let (n, d) = self.ratio();
        gen_ratio(rng, n, d)
    }
}

/// The random event for a Threefold Fan Dance proc: a `50%` chance.
#[derive(Clone, Copy, Debug, PartialEq, Eq, Structural)]
pub struct FanDance3Proc;

impl FanDance3Proc {
    /// Returns the chance of the proc, as a numerator over a denominator.
    pub fn ratio(&self) -> (r: (u32, u32))
        ensures
            r == (1u32, 2u32),
    {
        (1, 2)
    }

    /// Rolls the proc: `true` with the probability of its [`ratio`](FanDance3Proc::ratio).
    pub fn sample(&self, rng: &mut StdRng) -> (r: bool) {
        let (n, d) = self.ratio();
        gen_ratio(rng, n, d)
    }
}

/// The random event for a standard step sequence: two different steps.
#[derive(Clone, Copy, Debug, PartialEq, Eq, Structural)]
pub struct StdStepSeqence;

impl StdStepSeqence {
    /// Rolls a standard step sequence: the first two of the four steps after a
    /// partial shuffle, which are two different steps.
    pub fn sample(&self, rng: &mut StdRng) -> (r: [Step; 2])
        ensures
            r[0] != r[1],
    {
        let all = [Step::Emboite, Step::Entrechat, Step::Jete, Step::Pirouette];
        let steps = partial_shuffle_steps(rng, all, 2);
        proof {
            assert(all@.no_duplicates());
            lemma_reordered_steps_differ(all@, steps@);
        }
        [steps[0], steps[1]]
    }
}

/// The random event for a technical step sequence: the four steps in some order.
#[derive(Clone, Copy, Debug, PartialEq, Eq, Structural)]
pub struct TechStepSeqence;

impl TechStepSeqence {
    /// Rolls a technical step sequence: the four steps, shuffled, each once.
    pub fn sample(&self, rng: &mut StdRng) -> (r: [Step; 4])
        ensures
            r@.no_duplicates(),
            r@.to_multiset() == seq![Step::Emboite, Step::Entrechat, Step::Jete, Step::Pirouette].to_multiset(),
    {
        let all = [Step::Emboite, Step::Entrechat, Step::Jete, Step::Pirouette];
        let steps = shuffle_steps(rng, all);
        proof {
            assert(all@ =~= seq![Step::Emboite, Step::Entrechat, Step::Jete, Step::Pirouette]);
            assert(all@.no_duplicates());
            lemma_reordered_steps_differ(all@, steps@);
        }
        steps
    }
}


/// The standard step sequence handed to a cast that rolls none.
pub open spec fn spec_no_std_steps() -> [Step; 2] {
    [Step::Emboite, Step::Entrechat]
}

/// The technical step sequence handed to a cast that rolls none.
pub open spec fn spec_no_tech_steps() -> [Step; 4] {
    [Step::Emboite, Step::Entrechat, Step::Jete, Step::Pirouette]
}

/// `true` when `proc`, `std_steps` and `tech_steps` can come out of the roll
/// `roll` of a cast: the roll it needs is drawn, and the others take their fixed
/// values.
pub open spec fn spec_dnc_rolled(roll: Option<DncRoll>, proc: bool, std_steps: [Step; 2], tech_steps: [Step; 4]) -> bool {
    &&& (roll matches Some(DncRoll::SymmFlow) || roll matches Some(DncRoll::Feather) || roll matches Some(
        DncRoll::FanDance3,
    )) || !proc
    &&& if roll matches Some(DncRoll::StdSteps) {
        std_steps[0] != std_steps[1]
    } else {
        std_steps == spec_no_std_steps()
    }
    &&& if roll matches Some(DncRoll::TechSteps) {
        &&& tech_steps@.no_duplicates()
        &&& tech_steps@.to_multiset() == spec_no_tech_steps()@.to_multiset()
    } else {
        tech_steps == spec_no_tech_steps()
    }
}

impl DncJob {
    /// Rolls what a cast needs, then executes the action: draws the roll that
    /// [`roll_for`] names for the action, if any, and hands its outcome to
    /// [`DncJob::cast_snap`].
    pub fn roll_and_cast(
        ac: DncAction,
        state: &mut DncState,
        ctx: &CastContext,
        buff_targets: &Vec<(ActorId, bool)>,
        rng: &mut StdRng,
    ) -> (ops: Vec<SinkOp>)
        requires
            45 * ctx.spec_targets().len() <= u32::MAX,
            1000 + 270 * buff_targets@.len() + 20000 <= u32::MAX,
        ensures
            exists|proc: bool, std_steps: [Step; 2], tech_steps: [Step; 4]|
                {
                    &&& spec_dnc_rolled(
                        spec_dnc_roll(ac, old(state).gauges(), ctx.spec_targets().len() > 0),
                        proc,
                        std_steps,
                        tech_steps,
                    )
                    &&& final(state).gauges() == #[trigger] spec_dnc_cast_snap(
                        ac,
                        old(state).gauges(),
                        *ctx,
                        proc,
                        std_steps,
                        tech_steps,
                        buff_targets@,
                    ).0
                    &&& ops@ == spec_dnc_cast_snap(
                        ac,
                        old(state).gauges(),
                        *ctx,
                        proc,
                        std_steps,
                        tech_steps,
                        buff_targets@,
                    ).1
                },
    {
        let roll = roll_for(ac, state, ctx);
        let mut proc = false;
        let mut std_steps = [Step::Emboite, Step::Entrechat];
        let mut tech_steps = [Step::Emboite, Step::Entrechat, Step::Jete, Step::Pirouette];
        match roll {
            Some(DncRoll::SymmFlow) => {
                proc = SymmFlowProc.sample(rng);
            },
            Some(DncRoll::Feather) => {
                proc = FeatherProc.sample(rng);
            },
            Some(DncRoll::FanDance3) => {
                proc = FanDance3Proc.sample(rng);
            },
            Some(DncRoll::StdSteps) => {
                std_steps = StdStepSeqence.sample(rng);
            },
            Some(DncRoll::TechSteps) => {
                tech_steps = TechStepSeqence.sample(rng);
            },
            None => {},
        }
        proof {
            assert(spec_no_tech_steps()@ =~= seq![Step::Emboite, Step::Entrechat, Step::Jete, Step::Pirouette]);
            assert(spec_dnc_rolled(roll, proc, std_steps, tech_steps));
        }
        Self::cast_snap(ac, state, ctx, proc, std_steps, tech_steps, buff_targets)
    }
}

/// The step a dance waits for next: the step of its sequence after those completed,
/// or none when no dance is active or every step is done.
pub open spec fn spec_next_step(g: StepGauge) -> Option<Step> {
    match g {
        StepGauge::Std { steps, completed } => if completed < 2 {
            Some(steps@[completed as int])
        } else {
            None
        },
        StepGauge::Tech { steps, completed } => if completed < 4 {
            Some(steps@[completed as int])
        } else {
            None
        },
        StepGauge::NoDance => None,
    }
}

/// The number of steps of the active dance completed so far.
pub open spec fn spec_steps_done(g: StepGauge) -> int {
    match g {
        StepGauge::Std { completed, .. } => completed as int,
        StepGauge::Tech { completed, .. } => completed as int,
        StepGauge::NoDance => 0,
    }
}

/// The sequence of steps of the active dance.
pub open spec fn spec_dance_steps(g: StepGauge) -> Seq<Step> {
    match g {
        StepGauge::Std { steps, .. } => steps@,
        StepGauge::Tech { steps, .. } => steps@,
        StepGauge::NoDance => Seq::empty(),
    }
}

/// Only the next step of a dance counts: executing any other step leaves the step
/// gauge as it was; executing the next one completes exactly one more step. The
/// dance and its sequence of steps never change by a step.
pub proof fn lemma_only_the_next_step_counts(g: StepGauge, step: Step)
    ensures
        spec_next_step(g) != Some(step) ==> spec_step_executed(g, step) == g,
        spec_next_step(g) == Some(step) ==> spec_steps_done(spec_step_executed(g, step))
            == spec_steps_done(g) + 1,
        spec_dance_steps(spec_step_executed(g, step)) == spec_dance_steps(g),
        (spec_step_executed(g, step) is Std) == (g is Std),
        (spec_step_executed(g, step) is Tech) == (g is Tech),
{
}

} // verus!
