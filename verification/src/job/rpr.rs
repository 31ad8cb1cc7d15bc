//! Logic and types for Reaper.
use vstd::prelude::*;
use vstd::string::StringExecFns;

use crate::enums::{spec_damage, ActionCategory, DamageInstance, DamageType};
use crate::job::{self, CastInitInfo, JobAction, JobState};
use crate::math::SpeedStat;
use crate::timing::{spec_cast_times, spec_cd_until, ActionCd, DurationInfo, ScaleTime};
use crate::util::{
    add_sat, combo_advanced, combo_at, combo_pos_pot, combo_pot, push_decimal, spec_decimal,
    spec_status_proc_error, status_proc_error, sub_sat, ComboStage, ComboState, GaugeU8,
};
use crate::world::{
    aoe_ops, apply_op, consume_status, damage_op, error_op, first_target, get_status, has_status,
    push_aoe_all, remove_op, spec_get_status, status_op, Action, ActorId, CastContext, DamageEvent,
    DamageEventExt, Event, EventError, Faction, SinkOp,
};
use crate::world::status::{
    plain_status, spec_plain_status, spec_status, status_with, DamageMod, StatusEffect, StatusEvent,
    StatusEventExt, StatusVTable, ValueModifier,
};

verus! {

/// The entry points of the Reaper job: checking and executing its actions.
#[derive(Clone, Copy, Debug, Default)]
pub struct RprJob;

/// An action specific to the Reaper job.
#[derive(Clone, Copy, Debug, PartialEq, Eq, Hash, Structural)]
pub enum RprAction {
    /// The action "Slice".
    Slice,
    /// The action "Waxing Slice".
    WaxingSlice,
    /// The action "Shadow of Death".
    ShadowOfDeath,
    /// The action "Harpe".
    Harpe,
    /// The action "Hell's Ingress".
    HellsIngress,
    /// The action "Hell's Egress".
    HellsEgress,
    /// The action "Spinning Scythe".
    SpinningScythe,
    /// The action "Infernal Slice".
    InfernalSlice,
    /// The action "Whorl of Death".
    WhorlOfDeath,
    /// The action "Nightmare Scythe".
    NightmareScythe,
    /// The action "Blood Stalk".
    BloodStalk,
    /// The action "Grim Swathe".
    GrimSwathe,
    /// The action "Soul Slice".
    SoulSlice,
    /// The action "Soul Scythe".
    SoulScythe,
    /// The action "Gibbet".
    Gibbet,
    /// The action "Gallows".
    Gallows,
    /// The action "Guillotine".
    Guillotine,
    /// The action "Arcane Circle".
    ArcaneCircle,
    /// The action "Gluttony".
    Gluttony,
    /// The action "Enshroud".
    Enshroud,
    /// The action "Soulsow".
    Soulsow,
    /// The action "Plentiful Harvest".
    PlentifulHarvest,
    /// The action "Communio".
    Communio,
    /// The action "Unveiled Gibbet".
    UnveiledGibbet,
    /// The action "Unveiled Gallows".
    UnveiledGallows,
    /// The action "Void Reaping".
    VoidReaping,
    /// The action "Cross Reaping".
    CrossReaping,
    /// The action "Grim Reaping".
    GrimReaping,
    /// The action "Harvest Moon".
    HarvestMoon,
    /// The action "Lemure's Slice".
    LemuresSlice,
    /// The action "Lemure's Scythe".
    LemuresScythe,
}

/// Returns `true` if the action cannot be used during Enshroud.
pub open spec fn spec_rpr_enshroud_invalid(a: RprAction) -> bool {
    match a {
        RprAction::Slice | RprAction::WaxingSlice | RprAction::SpinningScythe | RprAction::InfernalSlice | RprAction::NightmareScythe | RprAction::BloodStalk | RprAction::GrimSwathe | RprAction::SoulSlice | RprAction::SoulScythe | RprAction::Gibbet | RprAction::Gallows | RprAction::Guillotine | RprAction::Gluttony | RprAction::Enshroud | RprAction::PlentifulHarvest | RprAction::UnveiledGibbet | RprAction::UnveiledGallows => true,
        RprAction::ShadowOfDeath | RprAction::Harpe | RprAction::HellsIngress | RprAction::HellsEgress | RprAction::WhorlOfDeath | RprAction::ArcaneCircle | RprAction::Soulsow | RprAction::Communio | RprAction::VoidReaping | RprAction::CrossReaping | RprAction::GrimReaping | RprAction::HarvestMoon | RprAction::LemuresSlice | RprAction::LemuresScythe => false,
    }
}

/// Returns the base GCD recast time, or `None` if the action is not a GCD.
pub open spec fn spec_rpr_gcd(a: RprAction) -> Option<ScaleTime> {
    match a {
        RprAction::Slice | RprAction::WaxingSlice | RprAction::ShadowOfDeath | RprAction::SpinningScythe | RprAction::InfernalSlice | RprAction::WhorlOfDeath | RprAction::NightmareScythe | RprAction::SoulSlice | RprAction::SoulScythe | RprAction::Gibbet | RprAction::Gallows | RprAction::Guillotine | RprAction::PlentifulHarvest => Some(ScaleTime::spec_of(2500u32, Some(SpeedStat::SkillSpeed), true)),
        RprAction::Harpe | RprAction::Soulsow | RprAction::Communio | RprAction::HarvestMoon => Some(ScaleTime::spec_of(2500u32, Some(SpeedStat::SpellSpeed), true)),
        RprAction::HellsIngress | RprAction::HellsEgress | RprAction::BloodStalk | RprAction::GrimSwathe | RprAction::ArcaneCircle | RprAction::Gluttony | RprAction::Enshroud | RprAction::UnveiledGibbet | RprAction::UnveiledGallows | RprAction::LemuresSlice | RprAction::LemuresScythe => None::<ScaleTime>,
        RprAction::VoidReaping | RprAction::CrossReaping | RprAction::GrimReaping => Some(ScaleTime::spec_of(1500u32, None, false)),
    }
}

/// Returns the base time the action takes to cast.
pub open spec fn spec_rpr_cast(a: RprAction) -> ScaleTime {
    match a {
        RprAction::Slice | RprAction::WaxingSlice | RprAction::ShadowOfDeath | RprAction::HellsIngress | RprAction::HellsEgress | RprAction::SpinningScythe | RprAction::InfernalSlice | RprAction::WhorlOfDeath | RprAction::NightmareScythe | RprAction::BloodStalk | RprAction::GrimSwathe | RprAction::SoulSlice | RprAction::SoulScythe | RprAction::Gibbet | RprAction::Gallows | RprAction::Guillotine | RprAction::ArcaneCircle | RprAction::Gluttony | RprAction::Enshroud | RprAction::PlentifulHarvest | RprAction::UnveiledGibbet | RprAction::UnveiledGallows | RprAction::VoidReaping | RprAction::CrossReaping | RprAction::GrimReaping | RprAction::HarvestMoon | RprAction::LemuresSlice | RprAction::LemuresScythe => ScaleTime::spec_of(0u32, None, false),
        RprAction::Harpe | RprAction::Communio => ScaleTime::spec_of(1300u32, Some(SpeedStat::SpellSpeed), true),
        RprAction::Soulsow => ScaleTime::spec_of(5000u32, Some(SpeedStat::SpellSpeed), true),
    }
}

/// Returns the human friendly name of the action.
pub open spec fn spec_rpr_name(a: RprAction) -> Seq<char> {
    match a {
        RprAction::Slice => "Slice"@,
        RprAction::WaxingSlice => "Waxing Slice"@,
        RprAction::ShadowOfDeath => "Shadow of Death"@,
        RprAction::Harpe => "Harpe"@,
        RprAction::HellsIngress => "Hell's Ingress"@,
        RprAction::HellsEgress => "Hell's Egress"@,
        RprAction::SpinningScythe => "Spinning Scythe"@,
        RprAction::InfernalSlice => "Infernal Slice"@,
        RprAction::WhorlOfDeath => "Whorl of Death"@,
        RprAction::NightmareScythe => "Nightmare Scythe"@,
        RprAction::BloodStalk => "Blood Stalk"@,
        RprAction::GrimSwathe => "Grim Swathe"@,
        RprAction::SoulSlice => "Soul Slice"@,
        RprAction::SoulScythe => "Soul Scythe"@,
        RprAction::Gibbet => "Gibbet"@,
        RprAction::Gallows => "Gallows"@,
        RprAction::Guillotine => "Guillotine"@,
        RprAction::ArcaneCircle => "Arcane Circle"@,
        RprAction::Gluttony => "Gluttony"@,
        RprAction::Enshroud => "Enshroud"@,
        RprAction::Soulsow => "Soulsow"@,
        RprAction::PlentifulHarvest => "Plentiful Harvest"@,
        RprAction::Communio => "Communio"@,
        RprAction::UnveiledGibbet => "Unveiled Gibbet"@,
        RprAction::UnveiledGallows => "Unveiled Gallows"@,
        RprAction::VoidReaping => "Void Reaping"@,
        RprAction::CrossReaping => "Cross Reaping"@,
        RprAction::GrimReaping => "Grim Reaping"@,
        RprAction::HarvestMoon => "Harvest Moon"@,
        RprAction::LemuresSlice => "Lemure's Slice"@,
        RprAction::LemuresScythe => "Lemure's Scythe"@,
    }
}

/// Returns the cooldown of the action in milliseconds.
pub open spec fn spec_rpr_cooldown(a: RprAction) -> u32 {
    match a {
        RprAction::Slice | RprAction::WaxingSlice | RprAction::ShadowOfDeath | RprAction::Harpe | RprAction::HellsIngress | RprAction::HellsEgress | RprAction::SpinningScythe | RprAction::InfernalSlice | RprAction::WhorlOfDeath | RprAction::NightmareScythe | RprAction::BloodStalk | RprAction::GrimSwathe | RprAction::Gibbet | RprAction::Gallows | RprAction::Guillotine | RprAction::Gluttony | RprAction::Soulsow | RprAction::PlentifulHarvest | RprAction::Communio | RprAction::UnveiledGibbet | RprAction::UnveiledGallows | RprAction::VoidReaping | RprAction::CrossReaping | RprAction::GrimReaping | RprAction::HarvestMoon => 0u32,
        RprAction::SoulSlice | RprAction::SoulScythe => 30000u32,
        RprAction::ArcaneCircle => 120000u32,
        RprAction::Enshroud => 15000u32,
        RprAction::LemuresSlice | RprAction::LemuresScythe => 1000u32,
    }
}

/// Returns the number of charges the action has, or `1` if it is a single charge action.
pub open spec fn spec_rpr_cd_charges(a: RprAction) -> u8 {
    match a {
        RprAction::Slice | RprAction::WaxingSlice | RprAction::ShadowOfDeath | RprAction::Harpe | RprAction::HellsIngress | RprAction::HellsEgress | RprAction::SpinningScythe | RprAction::InfernalSlice | RprAction::WhorlOfDeath | RprAction::NightmareScythe | RprAction::BloodStalk | RprAction::GrimSwathe | RprAction::Gibbet | RprAction::Gallows | RprAction::Guillotine | RprAction::ArcaneCircle | RprAction::Gluttony | RprAction::Enshroud | RprAction::Soulsow | RprAction::PlentifulHarvest | RprAction::Communio | RprAction::UnveiledGibbet | RprAction::UnveiledGallows | RprAction::VoidReaping | RprAction::CrossReaping | RprAction::GrimReaping | RprAction::HarvestMoon | RprAction::LemuresSlice | RprAction::LemuresScythe => 1u8,
        RprAction::SoulSlice | RprAction::SoulScythe => 2u8,
    }
}

/// Returns the delay in milliseconds for the damage and statuses to be applied.
pub open spec fn spec_rpr_effect_delay(a: RprAction) -> u32 {
    match a {
        RprAction::Slice | RprAction::WaxingSlice | RprAction::ShadowOfDeath | RprAction::Harpe | RprAction::HellsIngress | RprAction::HellsEgress | RprAction::SpinningScythe | RprAction::InfernalSlice | RprAction::WhorlOfDeath | RprAction::NightmareScythe | RprAction::BloodStalk | RprAction::GrimSwathe | RprAction::SoulSlice | RprAction::SoulScythe | RprAction::Gibbet | RprAction::Gallows | RprAction::Guillotine | RprAction::ArcaneCircle | RprAction::Gluttony | RprAction::Enshroud | RprAction::Soulsow | RprAction::PlentifulHarvest | RprAction::Communio | RprAction::UnveiledGibbet | RprAction::UnveiledGallows | RprAction::VoidReaping | RprAction::CrossReaping | RprAction::GrimReaping | RprAction::HarvestMoon | RprAction::LemuresSlice | RprAction::LemuresScythe => 0u32,
    }
}

/// Returns the category of the action.
pub open spec fn spec_rpr_category(a: RprAction) -> ActionCategory {
    match a {
        RprAction::Slice | RprAction::WaxingSlice | RprAction::ShadowOfDeath | RprAction::SpinningScythe | RprAction::InfernalSlice | RprAction::WhorlOfDeath | RprAction::NightmareScythe | RprAction::SoulSlice | RprAction::SoulScythe | RprAction::Gibbet | RprAction::Gallows | RprAction::Guillotine | RprAction::PlentifulHarvest | RprAction::VoidReaping | RprAction::CrossReaping | RprAction::GrimReaping => ActionCategory::Weaponskill,
        RprAction::Harpe | RprAction::Soulsow | RprAction::Communio | RprAction::HarvestMoon => ActionCategory::Spell,
        RprAction::HellsIngress | RprAction::HellsEgress | RprAction::BloodStalk | RprAction::GrimSwathe | RprAction::ArcaneCircle | RprAction::Gluttony | RprAction::Enshroud | RprAction::UnveiledGibbet | RprAction::UnveiledGallows | RprAction::LemuresSlice | RprAction::LemuresScythe => ActionCategory::Ability,
    }
}

impl RprAction {
    /// Returns `true` if the action cannot be used during Enshroud.
    pub fn enshroud_invalid(&self) -> (r: bool)
        ensures
            r == spec_rpr_enshroud_invalid(*self),
    {
        match self {
            RprAction::Slice | RprAction::WaxingSlice | RprAction::SpinningScythe | RprAction::InfernalSlice | RprAction::NightmareScythe | RprAction::BloodStalk | RprAction::GrimSwathe | RprAction::SoulSlice | RprAction::SoulScythe | RprAction::Gibbet | RprAction::Gallows | RprAction::Guillotine | RprAction::Gluttony | RprAction::Enshroud | RprAction::PlentifulHarvest | RprAction::UnveiledGibbet | RprAction::UnveiledGallows => true,
            RprAction::ShadowOfDeath | RprAction::Harpe | RprAction::HellsIngress | RprAction::HellsEgress | RprAction::WhorlOfDeath | RprAction::ArcaneCircle | RprAction::Soulsow | RprAction::Communio | RprAction::VoidReaping | RprAction::CrossReaping | RprAction::GrimReaping | RprAction::HarvestMoon | RprAction::LemuresSlice | RprAction::LemuresScythe => false,
        }
    }

    /// Returns the base GCD recast time, or `None` if the action is not a GCD.
    pub fn gcd(&self) -> (r: Option<ScaleTime>)
        ensures
            r == spec_rpr_gcd(*self),
    {
        match self {
            RprAction::Slice | RprAction::WaxingSlice | RprAction::ShadowOfDeath | RprAction::SpinningScythe | RprAction::InfernalSlice | RprAction::WhorlOfDeath | RprAction::NightmareScythe | RprAction::SoulSlice | RprAction::SoulScythe | RprAction::Gibbet | RprAction::Gallows | RprAction::Guillotine | RprAction::PlentifulHarvest => Some(ScaleTime::skill(2500)),
            RprAction::Harpe | RprAction::Soulsow | RprAction::Communio | RprAction::HarvestMoon => Some(ScaleTime::spell(2500)),
            RprAction::HellsIngress | RprAction::HellsEgress | RprAction::BloodStalk | RprAction::GrimSwathe | RprAction::ArcaneCircle | RprAction::Gluttony | RprAction::Enshroud | RprAction::UnveiledGibbet | RprAction::UnveiledGallows | RprAction::LemuresSlice | RprAction::LemuresScythe => None,
            RprAction::VoidReaping | RprAction::CrossReaping | RprAction::GrimReaping => Some(ScaleTime::none(1500)),
        }
    }

    /// Returns the base time the action takes to cast.
    pub fn cast(&self) -> (r: ScaleTime)
        ensures
            r == spec_rpr_cast(*self),
    {
        match self {
            RprAction::Slice | RprAction::WaxingSlice | RprAction::ShadowOfDeath | RprAction::HellsIngress | RprAction::HellsEgress | RprAction::SpinningScythe | RprAction::InfernalSlice | RprAction::WhorlOfDeath | RprAction::NightmareScythe | RprAction::BloodStalk | RprAction::GrimSwathe | RprAction::SoulSlice | RprAction::SoulScythe | RprAction::Gibbet | RprAction::Gallows | RprAction::Guillotine | RprAction::ArcaneCircle | RprAction::Gluttony | RprAction::Enshroud | RprAction::PlentifulHarvest | RprAction::UnveiledGibbet | RprAction::UnveiledGallows | RprAction::VoidReaping | RprAction::CrossReaping | RprAction::GrimReaping | RprAction::HarvestMoon | RprAction::LemuresSlice | RprAction::LemuresScythe => ScaleTime::zero(),
            RprAction::Harpe | RprAction::Communio => ScaleTime::spell(1300),
            RprAction::Soulsow => ScaleTime::spell(5000),
        }
    }

    /// Returns the human friendly name of the action.
    pub fn name(&self) -> (r: &'static str)
        ensures
            r@ == spec_rpr_name(*self),
    {
        proof {
            reveal_strlit("Slice");
            reveal_strlit("Waxing Slice");
            reveal_strlit("Shadow of Death");
            reveal_strlit("Harpe");
            reveal_strlit("Hell's Ingress");
            reveal_strlit("Hell's Egress");
            reveal_strlit("Spinning Scythe");
            reveal_strlit("Infernal Slice");
            reveal_strlit("Whorl of Death");
            reveal_strlit("Nightmare Scythe");
            reveal_strlit("Blood Stalk");
            reveal_strlit("Grim Swathe");
            reveal_strlit("Soul Slice");
            reveal_strlit("Soul Scythe");
            reveal_strlit("Gibbet");
            reveal_strlit("Gallows");
            reveal_strlit("Guillotine");
            reveal_strlit("Arcane Circle");
            reveal_strlit("Gluttony");
            reveal_strlit("Enshroud");
            reveal_strlit("Soulsow");
            reveal_strlit("Plentiful Harvest");
            reveal_strlit("Communio");
            reveal_strlit("Unveiled Gibbet");
            reveal_strlit("Unveiled Gallows");
            reveal_strlit("Void Reaping");
            reveal_strlit("Cross Reaping");
            reveal_strlit("Grim Reaping");
            reveal_strlit("Harvest Moon");
            reveal_strlit("Lemure's Slice");
            reveal_strlit("Lemure's Scythe");
        }
        match self {
            RprAction::Slice => "Slice",
            RprAction::WaxingSlice => "Waxing Slice",
            RprAction::ShadowOfDeath => "Shadow of Death",
            RprAction::Harpe => "Harpe",
            RprAction::HellsIngress => "Hell's Ingress",
            RprAction::HellsEgress => "Hell's Egress",
            RprAction::SpinningScythe => "Spinning Scythe",
            RprAction::InfernalSlice => "Infernal Slice",
            RprAction::WhorlOfDeath => "Whorl of Death",
            RprAction::NightmareScythe => "Nightmare Scythe",
            RprAction::BloodStalk => "Blood Stalk",
            RprAction::GrimSwathe => "Grim Swathe",
            RprAction::SoulSlice => "Soul Slice",
            RprAction::SoulScythe => "Soul Scythe",
            RprAction::Gibbet => "Gibbet",
            RprAction::Gallows => "Gallows",
            RprAction::Guillotine => "Guillotine",
            RprAction::ArcaneCircle => "Arcane Circle",
            RprAction::Gluttony => "Gluttony",
            RprAction::Enshroud => "Enshroud",
            RprAction::Soulsow => "Soulsow",
            RprAction::PlentifulHarvest => "Plentiful Harvest",
            RprAction::Communio => "Communio",
            RprAction::UnveiledGibbet => "Unveiled Gibbet",
            RprAction::UnveiledGallows => "Unveiled Gallows",
            RprAction::VoidReaping => "Void Reaping",
            RprAction::CrossReaping => "Cross Reaping",
            RprAction::GrimReaping => "Grim Reaping",
            RprAction::HarvestMoon => "Harvest Moon",
            RprAction::LemuresSlice => "Lemure's Slice",
            RprAction::LemuresScythe => "Lemure's Scythe",
        }
    }

    /// Returns the cooldown of the action in milliseconds.
    pub fn cooldown(&self) -> (r: u32)
        ensures
            r == spec_rpr_cooldown(*self),
    {
        match self {
            RprAction::Slice | RprAction::WaxingSlice | RprAction::ShadowOfDeath | RprAction::Harpe | RprAction::HellsIngress | RprAction::HellsEgress | RprAction::SpinningScythe | RprAction::InfernalSlice | RprAction::WhorlOfDeath | RprAction::NightmareScythe | RprAction::BloodStalk | RprAction::GrimSwathe | RprAction::Gibbet | RprAction::Gallows | RprAction::Guillotine | RprAction::Gluttony | RprAction::Soulsow | RprAction::PlentifulHarvest | RprAction::Communio | RprAction::UnveiledGibbet | RprAction::UnveiledGallows | RprAction::VoidReaping | RprAction::CrossReaping | RprAction::GrimReaping | RprAction::HarvestMoon => 0,
            RprAction::SoulSlice | RprAction::SoulScythe => 30000,
            RprAction::ArcaneCircle => 120000,
            RprAction::Enshroud => 15000,
            RprAction::LemuresSlice | RprAction::LemuresScythe => 1000,
        }
    }

    /// Returns the number of charges the action has, or `1` if it is a single charge action.
    pub fn cd_charges(&self) -> (r: u8)
        ensures
            r == spec_rpr_cd_charges(*self),
    {
        match self {
            RprAction::Slice | RprAction::WaxingSlice | RprAction::ShadowOfDeath | RprAction::Harpe | RprAction::HellsIngress | RprAction::HellsEgress | RprAction::SpinningScythe | RprAction::InfernalSlice | RprAction::WhorlOfDeath | RprAction::NightmareScythe | RprAction::BloodStalk | RprAction::GrimSwathe | RprAction::Gibbet | RprAction::Gallows | RprAction::Guillotine | RprAction::ArcaneCircle | RprAction::Gluttony | RprAction::Enshroud | RprAction::Soulsow | RprAction::PlentifulHarvest | RprAction::Communio | RprAction::UnveiledGibbet | RprAction::UnveiledGallows | RprAction::VoidReaping | RprAction::CrossReaping | RprAction::GrimReaping | RprAction::HarvestMoon | RprAction::LemuresSlice | RprAction::LemuresScythe => 1,
            RprAction::SoulSlice | RprAction::SoulScythe => 2,
        }
    }

    /// Returns the delay in milliseconds for the damage and statuses to be applied.
    pub fn effect_delay(&self) -> (r: u32)
        ensures
            r == spec_rpr_effect_delay(*self),
    {
        match self {
            RprAction::Slice | RprAction::WaxingSlice | RprAction::ShadowOfDeath | RprAction::Harpe | RprAction::HellsIngress | RprAction::HellsEgress | RprAction::SpinningScythe | RprAction::InfernalSlice | RprAction::WhorlOfDeath | RprAction::NightmareScythe | RprAction::BloodStalk | RprAction::GrimSwathe | RprAction::SoulSlice | RprAction::SoulScythe | RprAction::Gibbet | RprAction::Gallows | RprAction::Guillotine | RprAction::ArcaneCircle | RprAction::Gluttony | RprAction::Enshroud | RprAction::Soulsow | RprAction::PlentifulHarvest | RprAction::Communio | RprAction::UnveiledGibbet | RprAction::UnveiledGallows | RprAction::VoidReaping | RprAction::CrossReaping | RprAction::GrimReaping | RprAction::HarvestMoon | RprAction::LemuresSlice | RprAction::LemuresScythe => 0,
        }
    }

    /// Returns the category of the action.
    pub fn category(&self) -> (r: ActionCategory)
        ensures
            r == spec_rpr_category(*self),
    {
        match self {
            RprAction::Slice | RprAction::WaxingSlice | RprAction::ShadowOfDeath | RprAction::SpinningScythe | RprAction::InfernalSlice | RprAction::WhorlOfDeath | RprAction::NightmareScythe | RprAction::SoulSlice | RprAction::SoulScythe | RprAction::Gibbet | RprAction::Gallows | RprAction::Guillotine | RprAction::PlentifulHarvest | RprAction::VoidReaping | RprAction::CrossReaping | RprAction::GrimReaping => ActionCategory::Weaponskill,
            RprAction::Harpe | RprAction::Soulsow | RprAction::Communio | RprAction::HarvestMoon => ActionCategory::Spell,
            RprAction::HellsIngress | RprAction::HellsEgress | RprAction::BloodStalk | RprAction::GrimSwathe | RprAction::ArcaneCircle | RprAction::Gluttony | RprAction::Enshroud | RprAction::UnveiledGibbet | RprAction::UnveiledGallows | RprAction::LemuresSlice | RprAction::LemuresScythe => ActionCategory::Ability,
        }
    }

    /// Returns the cooldown group this action is part of, or `None` if the
    /// action has no cooldown group.
    pub fn cd_group(&self) -> (r: Option<RprCdGroup>)
        ensures
            r == spec_rpr_cd_group(*self),
    {
        match self {
            RprAction::HellsIngress | RprAction::HellsEgress => Some(RprCdGroup::Hells),
            RprAction::BloodStalk | RprAction::GrimSwathe | RprAction::UnveiledGibbet | RprAction::UnveiledGallows => Some(RprCdGroup::Reaver),
            RprAction::SoulSlice | RprAction::SoulScythe => Some(RprCdGroup::Soul),
            RprAction::ArcaneCircle => Some(RprCdGroup::Circle),
            RprAction::Gluttony => Some(RprCdGroup::Gluttony),
            RprAction::Enshroud => Some(RprCdGroup::Enshroud),
            RprAction::LemuresSlice | RprAction::LemuresScythe => Some(RprCdGroup::Lemures),
            _ => None,
        }
    }
}

/// The cooldown group an action is part of.
pub open spec fn spec_rpr_cd_group(a: RprAction) -> Option<RprCdGroup> {
    match a {
        RprAction::HellsIngress | RprAction::HellsEgress => Some(RprCdGroup::Hells),
        RprAction::BloodStalk | RprAction::GrimSwathe | RprAction::UnveiledGibbet | RprAction::UnveiledGallows => Some(RprCdGroup::Reaver),
        RprAction::SoulSlice | RprAction::SoulScythe => Some(RprCdGroup::Soul),
        RprAction::ArcaneCircle => Some(RprCdGroup::Circle),
        RprAction::Gluttony => Some(RprCdGroup::Gluttony),
        RprAction::Enshroud => Some(RprCdGroup::Enshroud),
        RprAction::LemuresSlice | RprAction::LemuresScythe => Some(RprCdGroup::Lemures),
        _ => None,
    }
}

/// The various cooldown groups an action can be part of.
#[derive(Clone, Copy, Debug, PartialEq, Eq, Hash, Structural)]
pub enum RprCdGroup {
    /// The cooldown group for Hell's Ingress and Hell's Egress.
    Hells,
    /// The cooldown group for Blood Stalk, Grim Swathe, Unveiled Gibbet and Unveiled Gallows.
    Reaver,
    /// The cooldown group for Soul Slice and Soul Scythe.
    Soul,
    /// The cooldown group for Arcane Circle.
    Circle,
    /// The cooldown group for Gluttony.
    Gluttony,
    /// The cooldown group for Enshroud.
    Enshroud,
    /// The cooldown group for Lemure's Slice and Lemure's Scythe.
    Lemures,
}

/// The active cooldowns of the cooldown groups.
#[derive(Clone, Copy, Debug, Default)]
pub struct RprCds {
    hells: ActionCd,
    reaver: ActionCd,
    soul: ActionCd,
    circle: ActionCd,
    gluttony: ActionCd,
    enshroud: ActionCd,
    lemures: ActionCd,
}

impl RprCds {
    /// The time left on the cooldown of a group, counting every used charge.
    pub closed spec fn spec_cd(&self, group: RprCdGroup) -> u32 {
        match group {
            RprCdGroup::Hells => self.hells@,
            RprCdGroup::Reaver => self.reaver@,
            RprCdGroup::Soul => self.soul@,
            RprCdGroup::Circle => self.circle@,
            RprCdGroup::Gluttony => self.gluttony@,
            RprCdGroup::Enshroud => self.enshroud@,
            RprCdGroup::Lemures => self.lemures@,
        }
    }

    /// Creates the cooldowns with every group off cooldown.
    pub fn new() -> (r: Self)
        ensures
            forall|g: RprCdGroup| #[trigger] r.spec_cd(g) == 0,
    {
        RprCds {
            hells: ActionCd::new(),
            reaver: ActionCd::new(),
            soul: ActionCd::new(),
            circle: ActionCd::new(),
            gluttony: ActionCd::new(),
            enshroud: ActionCd::new(),
            lemures: ActionCd::new(),
        }
    }

    /// Applies a cooldown to the specified cooldown group.
    pub fn apply(&mut self, cdg: RprCdGroup, cooldown: u32, charges: u8)
        requires
            old(self).spec_cd(cdg) + cooldown <= u32::MAX,
            cooldown * charges <= u32::MAX,
        ensures
            final(self).spec_cd(cdg) == (if old(self).spec_cd(cdg) + cooldown <= cooldown * charges {
                old(self).spec_cd(cdg) + cooldown
            } else {
                cooldown * charges
            }),
            forall|g: RprCdGroup| g != cdg ==> #[trigger] final(self).spec_cd(g) == old(self).spec_cd(g),
    {
        match cdg {
            RprCdGroup::Hells => self.hells.apply(cooldown, charges),
            RprCdGroup::Reaver => self.reaver.apply(cooldown, charges),
            RprCdGroup::Soul => self.soul.apply(cooldown, charges),
            RprCdGroup::Circle => self.circle.apply(cooldown, charges),
            RprCdGroup::Gluttony => self.gluttony.apply(cooldown, charges),
            RprCdGroup::Enshroud => self.enshroud.apply(cooldown, charges),
            RprCdGroup::Lemures => self.lemures.apply(cooldown, charges),
        }
    }

    /// Checks if the specified cooldown group is available.
    pub fn available(&self, cdg: RprCdGroup, cooldown: u32, charges: u8) -> (r: bool)
        requires
            charges >= 1,
            cooldown * (charges - 1) <= u32::MAX,
        ensures
            r == (spec_cd_until(self.spec_cd(cdg), cooldown, charges) == 0),
    {
        match cdg {
            RprCdGroup::Hells => self.hells.available(cooldown, charges),
            RprCdGroup::Reaver => self.reaver.available(cooldown, charges),
            RprCdGroup::Soul => self.soul.available(cooldown, charges),
            RprCdGroup::Circle => self.circle.available(cooldown, charges),
            RprCdGroup::Gluttony => self.gluttony.available(cooldown, charges),
            RprCdGroup::Enshroud => self.enshroud.available(cooldown, charges),
            RprCdGroup::Lemures => self.lemures.available(cooldown, charges),
        }
    }

    /// Advances the cooldowns forward by a certain amount of time.
    pub fn advance(&mut self, time: u32)
        ensures
            forall|g: RprCdGroup| #[trigger] final(self).spec_cd(g) == (if old(self).spec_cd(g) >= time {
                old(self).spec_cd(g) - time
            } else {
                0
            }),
    {
        self.hells.advance(time);
        self.reaver.advance(time);
        self.soul.advance(time);
        self.circle.advance(time);
        self.gluttony.advance(time);
        self.enshroud.advance(time);
        self.lemures.advance(time);
    }

    /// Gets the cooldown until the specified cooldown group can be used.
    pub fn cd_until(&self, group: RprCdGroup, cooldown: u32, charges: u8) -> (r: u32)
        requires
            charges >= 1,
            cooldown * (charges - 1) <= u32::MAX,
        ensures
            r == spec_cd_until(self.spec_cd(group), cooldown, charges),
    {
        match group {
            RprCdGroup::Hells => self.hells.cd_until(cooldown, charges),
            RprCdGroup::Reaver => self.reaver.cd_until(cooldown, charges),
            RprCdGroup::Soul => self.soul.cd_until(cooldown, charges),
            RprCdGroup::Circle => self.circle.cd_until(cooldown, charges),
            RprCdGroup::Gluttony => self.gluttony.cd_until(cooldown, charges),
            RprCdGroup::Enshroud => self.enshroud.cd_until(cooldown, charges),
            RprCdGroup::Lemures => self.lemures.cd_until(cooldown, charges),
        }
    }
}

/// The status effect "Death's Design": incoming damage is multiplied by `110 / 100`.
pub open spec fn spec_deaths_design() -> StatusEffect {
    spec_status(
        401,
        "Death's Design",
        30000,
        ValueModifier { incoming: Some(DamageMod { base: 110, per_stack: 0, div: 100 }), outgoing: None },
        ValueModifier { incoming: None, outgoing: None },
        ValueModifier { incoming: None, outgoing: None },
        None,
    )
}

/// Returns the status effect "Death's Design".
pub fn deaths_design() -> (r: StatusEffect)
    ensures
        r == spec_deaths_design(),
{
    status_with(
        401,
        "Death's Design",
        30000,
        ValueModifier::incoming(DamageMod { base: 110, per_stack: 0, div: 100 }),
        ValueModifier::empty(),
        ValueModifier::empty(),
        None,
    )
}

/// The status effect "Arcane Circle": outgoing damage is multiplied by `103 / 100`.
pub open spec fn spec_arcane_circle() -> StatusEffect {
    spec_status(
        402,
        "Arcane Circle",
        20000,
        ValueModifier { incoming: None, outgoing: Some(DamageMod { base: 103, per_stack: 0, div: 100 }) },
        ValueModifier { incoming: None, outgoing: None },
        ValueModifier { incoming: None, outgoing: None },
        None,
    )
}

/// Returns the status effect "Arcane Circle".
pub fn arcane_circle() -> (r: StatusEffect)
    ensures
        r == spec_arcane_circle(),
{
    status_with(
        402,
        "Arcane Circle",
        20000,
        ValueModifier::outgoing(DamageMod { base: 103, per_stack: 0, div: 100 }),
        ValueModifier::empty(),
        ValueModifier::empty(),
        None,
    )
}

/// The status effect "Circle of Sacrifice".
pub open spec fn spec_circle_sacrifice() -> StatusEffect {
    spec_plain_status(403, "Circle of Sacrifice", 5000)
}

/// Returns the status effect "Circle of Sacrifice".
pub fn circle_sacrifice() -> (r: StatusEffect)
    ensures
        r == spec_circle_sacrifice(),
{
    plain_status(403, "Circle of Sacrifice", 5000)
}

/// The status effect "Bloodsown Sacrifice".
pub open spec fn spec_bloodsown_sacrifice() -> StatusEffect {
    spec_plain_status(404, "Bloodsown Sacrifice", 6000)
}

/// Returns the status effect "Bloodsown Sacrifice".
pub fn bloodsown_sacrifice() -> (r: StatusEffect)
    ensures
        r == spec_bloodsown_sacrifice(),
{
    plain_status(404, "Bloodsown Sacrifice", 6000)
}

/// The status effect "Immortal Sacrifice".
pub open spec fn spec_immortal_sacrifice() -> StatusEffect {
    spec_plain_status(405, "Immortal Sacrifice", 30000)
}

/// Returns the status effect "Immortal Sacrifice".
pub fn immortal_sacrifice() -> (r: StatusEffect)
    ensures
        r == spec_immortal_sacrifice(),
{
    plain_status(405, "Immortal Sacrifice", 30000)
}

/// The status effect "Soul Reaver".
pub open spec fn spec_soul_reaver() -> StatusEffect {
    spec_plain_status(406, "Soul Reaver", 30000)
}

/// Returns the status effect "Soul Reaver".
pub fn soul_reaver() -> (r: StatusEffect)
    ensures
        r == spec_soul_reaver(),
{
    plain_status(406, "Soul Reaver", 30000)
}

/// The status effect "Soulsow", which lasts until it is used.
pub open spec fn spec_soulsow() -> StatusEffect {
    StatusEffect {
        id: 407,
        vtable: StatusVTable {
            name: "Soulsow",
            permanent: true,
            damage: ValueModifier { incoming: None, outgoing: None },
            crit: ValueModifier { incoming: None, outgoing: None },
            dhit: ValueModifier { incoming: None, outgoing: None },
            haste: None,
            stats: None,
            duration: 0,
        },
    }
}

/// Returns the status effect "Soulsow".
pub fn soulsow() -> (r: StatusEffect)
    ensures
        r == spec_soulsow(),
{
    StatusEffect::new(
        407,
        StatusVTable {
            name: "Soulsow",
            permanent: true,
            damage: ValueModifier::empty(),
            crit: ValueModifier::empty(),
            dhit: ValueModifier::empty(),
            haste: None,
            stats: None,
            duration: 0,
        },
    )
}

/// The status effect "Enshroud".
pub open spec fn spec_enshroud() -> StatusEffect {
    spec_plain_status(408, "Enshroud", 30000)
}

/// Returns the status effect "Enshroud".
pub fn enshroud() -> (r: StatusEffect)
    ensures
        r == spec_enshroud(),
{
    plain_status(408, "Enshroud", 30000)
}

/// The status effect "Enhanced Harpe".
pub open spec fn spec_enharpe() -> StatusEffect {
    spec_plain_status(409, "Enhanced Harpe", 20000)
}

/// Returns the status effect "Enhanced Harpe".
pub fn enharpe() -> (r: StatusEffect)
    ensures
        r == spec_enharpe(),
{
    plain_status(409, "Enhanced Harpe", 20000)
}

/// The status effect "Enhanced Gibbet".
pub open spec fn spec_engibbet() -> StatusEffect {
    spec_plain_status(410, "Enhanced Gibbet", 60000)
}

/// Returns the status effect "Enhanced Gibbet".
pub fn engibbet() -> (r: StatusEffect)
    ensures
        r == spec_engibbet(),
{
    plain_status(410, "Enhanced Gibbet", 60000)
}

/// The status effect "Enhanced Gallows".
pub open spec fn spec_engallows() -> StatusEffect {
    spec_plain_status(411, "Enhanced Gallows", 60000)
}

/// Returns the status effect "Enhanced Gallows".
pub fn engallows() -> (r: StatusEffect)
    ensures
        r == spec_engallows(),
{
    plain_status(411, "Enhanced Gallows", 60000)
}

/// The status effect "Enhanced Void Reaping".
pub open spec fn spec_envoid() -> StatusEffect {
    spec_plain_status(412, "Enhanced Void Reaping", 30000)
}

/// Returns the status effect "Enhanced Void Reaping".
pub fn envoid() -> (r: StatusEffect)
    ensures
        r == spec_envoid(),
{
    plain_status(412, "Enhanced Void Reaping", 30000)
}

/// The status effect "Enhanced Cross Reaping".
pub open spec fn spec_encross() -> StatusEffect {
    spec_plain_status(413, "Enhanced Cross Reaping", 30000)
}

/// Returns the status effect "Enhanced Cross Reaping".
pub fn encross() -> (r: StatusEffect)
    ensures
        r == spec_encross(),
{
    plain_status(413, "Enhanced Cross Reaping", 30000)
}


/// A custom cast error for Reaper actions.
#[derive(Clone, Copy, Debug, PartialEq, Eq, Structural)]
pub enum RprError {
    /// Not enough Soul gauge.
    Soul(u8),
    /// Not enough Shroud gauge.
    Shroud(u8),
    /// Not under the effect of Soulsow.
    Soulsow,
    /// Not enough stacks of Lemure Shroud.
    Lemure(u8),
    /// Not enough stacks of Void Shroud.
    Void(u8),
    /// Not under the effect of Immortal Sacrifice.
    Sacrifice,
    /// Under the effect of Bloodsown Circle.
    Bloodsown,
    /// Not under the effect of Soul Reaver.
    SoulReaver,
    /// Not under the effect of Enhanced Gibbet.
    UnvGibbet,
    /// Not under the effect of Enhanced Gallows.
    UnvGallows,
    /// Under the effect of Enshroud.
    Enshroud(RprAction),
}

/// The operation that submits a Reaper error.
pub open spec fn rpr_error_op(e: RprError) -> SinkOp {
    error_op(EventError::Job(job::CastError::Rpr(e)))
}

impl RprError {
    /// Submits the cast error.
    pub fn submit(self, ops: &mut Vec<SinkOp>)
        ensures
            final(ops)@ == old(ops)@.push(rpr_error_op(self)),
    {
        ops.push(SinkOp::Error { error: EventError::Job(job::CastError::Rpr(self)) });
    }
}

/// The possible states the main combo can be in.
#[derive(Clone, Copy, Debug, PartialEq, Eq, Structural)]
pub enum MainCombo {
    /// Combo Action: Slice is met.
    Slice,
    /// Combo Action: Waxing Slice is met.
    Waxing,
    /// Combo Action: Spinning Scythe is met.
    Spinning,
}

impl ComboStage for MainCombo {
    fn same(&self, other: &Self) -> (r: bool) {
        *self == *other
    }
}

/// The combos for Reaper.
#[derive(Clone, Copy, Debug, Default)]
pub struct RprCombos {
    /// The main combo: the Infernal Slice combo and the Nightmare Scythe combo.
    pub main: ComboState<MainCombo>,
}

/// The main combo stage an action needs, if it needs one.
pub open spec fn spec_rpr_main_needed(action: RprAction) -> Option<MainCombo> {
    match action {
        RprAction::WaxingSlice => Some(MainCombo::Slice),
        RprAction::InfernalSlice => Some(MainCombo::Waxing),
        RprAction::NightmareScythe => Some(MainCombo::Spinning),
        _ => None,
    }
}

impl RprCombos {
    /// Checks that the main combo prerequisite is met for a certain action.
    pub fn check_main_for(&self, action: RprAction) -> (r: bool)
        ensures
            r == match spec_rpr_main_needed(action) {
                Some(c) => combo_at(self.main.combo, c),
                None => true,
            },
    {
        let c = match action {
            RprAction::WaxingSlice => MainCombo::Slice,
            RprAction::InfernalSlice => MainCombo::Waxing,
            RprAction::NightmareScythe => MainCombo::Spinning,
            _ => return true,
        };
        self.main.check(c)
    }

    /// Advances the combos forward by a certain amount of time.
    pub fn advance(&mut self, time: u32)
        ensures
            final(self).main.combo == combo_advanced(old(self).main.combo, time),
    {
        self.main.advance(time);
    }
}

/// The state of the Reaper job gauges and combos.
#[derive(Clone, Copy, Debug, Default)]
pub struct RprState {
    /// The combos for Reaper.
    pub combos: RprCombos,
    /// The Soul gauge.
    pub soul: GaugeU8<100>,
    /// The Shroud gauge.
    pub shroud: GaugeU8<100>,
    /// The stacks of Lemure Shroud.
    pub lemure_shroud: GaugeU8<5>,
    /// The stacks of Void Shroud.
    pub void_shroud: GaugeU8<5>,
}

/// The Reaper state as plain values.
#[derive(Clone, Copy, Debug)]
pub struct RprGauges {
    /// The main combo.
    pub main: Option<(MainCombo, u32)>,
    /// The Soul gauge.
    pub soul: u8,
    /// The Shroud gauge.
    pub shroud: u8,
    /// The stacks of Lemure Shroud.
    pub lemure: u8,
    /// The stacks of Void Shroud.
    pub void: u8,
}

impl RprState {
    /// `true` for the state of a Reaper that has done nothing yet.
    pub open spec fn spec_is_new(&self) -> bool {
        &&& self.combos.main.combo is None
        &&& self.soul@ == 0
        &&& self.shroud@ == 0
        &&& self.lemure_shroud@ == 0
        &&& self.void_shroud@ == 0
    }

    /// Creates the state of a Reaper that has done nothing yet: no combo and every
    /// gauge empty.
    pub fn new() -> (r: Self)
        ensures
            r.spec_is_new(),
    {
        RprState {
            combos: RprCombos { main: ComboState::new() },
            soul: GaugeU8::new(),
            shroud: GaugeU8::new(),
            lemure_shroud: GaugeU8::new(),
            void_shroud: GaugeU8::new(),
        }
    }

    /// The state as plain values.
    pub open spec fn gauges(&self) -> RprGauges {
        RprGauges {
            main: self.combos.main.combo,
            soul: self.soul@,
            shroud: self.shroud@,
            lemure: self.lemure_shroud@,
            void: self.void_shroud@,
        }
    }
}

impl JobState for RprState {
    open spec fn spec_advanced(&self, time: u32, next: &Self) -> bool {
        &&& next.combos.main.combo == combo_advanced(self.combos.main.combo, time)
        &&& next.soul == self.soul
        &&& next.shroud == self.shroud
        &&& next.lemure_shroud == self.lemure_shroud
        &&& next.void_shroud == self.void_shroud
    }

    fn advance(&mut self, time: u32) {
        self.combos.advance(time);
    }
}

impl JobAction for RprAction {
    open spec fn spec_category(&self) -> ActionCategory {
        spec_rpr_category(*self)
    }

    open spec fn spec_gcd(&self) -> bool {
        spec_rpr_gcd(*self) is Some
    }

    fn category(&self) -> (r: ActionCategory) {
        RprAction::category(self)
    }

    fn gcd(&self) -> (r: bool) {
        RprAction::gcd(self).is_some()
    }
}

impl RprAction {
    /// Returns the speed stat that scales the cooldown of the action, or `None` if
    /// no stat does: a GCD with a single charge scales by spell speed if it is a
    /// spell, and skill speed otherwise.
    pub fn cd_speed_stat(&self) -> (r: Option<SpeedStat>)
        ensures
            r == (if !(spec_rpr_gcd(*self) is Some) || spec_rpr_cd_charges(*self) > 1 {
                None
            } else if spec_rpr_category(*self) == ActionCategory::Spell {
                Some(SpeedStat::SpellSpeed)
            } else {
                Some(SpeedStat::SkillSpeed)
            }),
    {
        if self.gcd().is_none() || self.cd_charges() > 1 {
            return None;
        }
        Some(
            if self.category() == ActionCategory::Spell {
                SpeedStat::SpellSpeed
            } else {
                SpeedStat::SkillSpeed
            },
        )
    }

    /// Returns the speed stat that scales the GCD of the action, or `None` if no
    /// stat does: the actions with a fixed GCD of `1500`, and those that are not
    /// GCDs.
    pub fn speed_stat(&self) -> (r: Option<SpeedStat>)
        ensures
            r == match spec_rpr_gcd(*self) {
                Some(g) => if g.spec_duration() == 1500 {
                    None
                } else if spec_rpr_category(*self) == ActionCategory::Spell {
                    Some(SpeedStat::SpellSpeed)
                } else {
                    Some(SpeedStat::SkillSpeed)
                },
                None => None,
            },
    {
        match self.gcd() {
            Some(g) => if g.duration() == 1500 {
                None
            } else if self.category() == ActionCategory::Spell {
                Some(SpeedStat::SpellSpeed)
            } else {
                Some(SpeedStat::SkillSpeed)
            },
            None => None,
        }
    }
}

/// A Reaper action as an action of the world.
pub open spec fn rpr_action(ac: RprAction) -> Action {
    Action::Job(job::Action::Rpr(ac))
}

/// A hit of `pot` slashing potency.
pub open spec fn rpr_hit(pot: u64) -> DamageInstance {
    DamageInstance { ty: DamageType::Slashing, ..spec_damage(pot) }
}

/// A hit of `pot` magical potency.
pub open spec fn rpr_magic(pot: u64) -> DamageInstance {
    DamageInstance { ty: DamageType::Magical, ..spec_damage(pot) }
}

/// Returns a hit of `pot` slashing potency.
fn hit(pot: u64) -> (r: DamageInstance)
    ensures
        r == rpr_hit(pot),
{
    DamageInstance::new(pot).slashing()
}

/// Returns a hit of `pot` magical potency.
fn magic(pot: u64) -> (r: DamageInstance)
    ensures
        r == rpr_magic(pot),
{
    DamageInstance::new(pot).magical()
}

/// The operations of Whorl of Death on the first `n` targets: Death's Design
/// applied or extended, then the hit, at each target's time in the cascade.
pub open spec fn whorl_ops(a: Action, me: ActorId, tg: Seq<ActorId>, n: nat) -> Seq<SinkOp>
    decreases n,
{
    if n == 0 {
        Seq::empty()
    } else {
        let i = (n - 1) as int;
        let d = (45 * i) as u32;
        whorl_ops(a, me, tg, (n - 1) as nat) + seq![
            status_op(StatusEvent::spec_apply_or_extend(spec_deaths_design(), 1, 2, me, tg[i]), d),
            damage_op(a, rpr_hit(100), tg[i], d),
        ]
    }
}

/// The operations of Arcane Circle on the first `n` party members: Arcane Circle
/// and Circle of Sacrifice, at each member's time in the cascade.
pub open spec fn circle_ops(me: ActorId, tg: Seq<ActorId>, n: nat) -> Seq<SinkOp>
    decreases n,
{
    if n == 0 {
        Seq::empty()
    } else {
        let i = (n - 1) as int;
        let d = (135 * i) as u32;
        circle_ops(me, tg, (n - 1) as nat) + seq![
            apply_op(spec_arcane_circle(), 1, me, tg[i], d),
            apply_op(spec_circle_sacrifice(), 1, me, tg[i], d),
        ]
    }
}

/// The Soul Reaver operation every GCD makes first: one stack is used by Gibbet,
/// Gallows and Guillotine, and every other GCD removes the status.
pub open spec fn reaver_ops(ac: RprAction, me: ActorId) -> Seq<SinkOp> {
    if spec_rpr_gcd(ac) is Some {
        if ac is Gibbet || ac is Gallows || ac is Guillotine {
            seq![status_op(StatusEvent::spec_remove_stacks(spec_soul_reaver(), 1, me, me), 0)]
        } else {
            seq![remove_op(spec_soul_reaver(), me, me, 0)]
        }
    } else {
        Seq::empty()
    }
}

/// The shroud stacks after one Lemure Shroud is used.
pub open spec fn lemure_used(g: RprGauges) -> (RprGauges, bool) {
    let lemure = sub_sat(g.lemure, 1);
    if lemure == 0 {
        (RprGauges { lemure, void: 0, ..g }, true)
    } else {
        (RprGauges { lemure, void: add_sat(g.void, 1, 5), ..g }, false)
    }
}

/// The Soul, Shroud and Void Shroud an action may add to the gauges.
pub open spec fn spec_rpr_gains(ac: RprAction) -> (int, int, int) {
    match ac {
        RprAction::Slice | RprAction::WaxingSlice | RprAction::SpinningScythe
        | RprAction::InfernalSlice | RprAction::NightmareScythe => (10, 0, 0),
        RprAction::SoulScythe => (50, 0, 0),
        RprAction::Gibbet | RprAction::Gallows | RprAction::Guillotine => (0, 10, 0),
        RprAction::PlentifulHarvest => (0, 50, 0),
        RprAction::VoidReaping | RprAction::CrossReaping | RprAction::GrimReaping => (0, 0, 1),
        _ => (0, 0, 0),
    }
}

/// What casting a Reaper action does after its Soul Reaver operation: the gauges
/// it leaves and the operations it asks of the event sink, in order.
pub open spec fn spec_rpr_cast_body(ac: RprAction, g: RprGauges, ctx: CastContext) -> (RprGauges, Seq<
    SinkOp,
>) {
    let me = ctx.this;
    let tg = ctx.spec_targets();
    let has_t = tg.len() > 0;
    let t = tg[0];
    let a = rpr_action(ac);
    let no_target = (g, seq![error_op(EventError::NoTarget)]);
    let dmg1 = |pot: u64| damage_op(a, rpr_hit(pot), t, 0);
    let aoe = |pot: u64| aoe_ops(a, rpr_hit(pot), rpr_hit(pot), tg, 0, 45);
    match ac {
        RprAction::Slice => if !has_t {
            no_target
        } else {
            (
                RprGauges {
                    main: Some((MainCombo::Slice, 30000u32)),
                    soul: add_sat(g.soul, 10, 100),
                    ..g
                },
                seq![dmg1(320)],
            )
        },
        RprAction::WaxingSlice => if !has_t {
            no_target
        } else {
            let combo = combo_at(g.main, MainCombo::Slice);
            (
                RprGauges {
                    main: if combo {
                        Some((MainCombo::Waxing, 30000u32))
                    } else {
                        None
                    },
                    soul: if combo {
                        add_sat(g.soul, 10, 100)
                    } else {
                        g.soul
                    },
                    ..g
                },
                seq![
                    dmg1(
                        if combo {
                            400
                        } else {
                            160
                        },
                    ),
                ],
            )
        },
        RprAction::ShadowOfDeath => if !has_t {
            no_target
        } else {
            (
                g,
                seq![
                    status_op(StatusEvent::spec_apply_or_extend(spec_deaths_design(), 1, 2, me, t), 0),
                    dmg1(300),
                ],
            )
        },
        RprAction::Harpe => if !has_t {
            no_target
        } else {
            (g, seq![dmg1(300)])
        },
        RprAction::HellsIngress | RprAction::HellsEgress => (
            g,
            seq![apply_op(spec_enharpe(), 1, me, me, 0)],
        ),
        RprAction::SpinningScythe => (
            RprGauges {
                main: if has_t {
                    Some((MainCombo::Spinning, 30000u32))
                } else {
                    None
                },
                soul: if has_t {
                    add_sat(g.soul, 10, 100)
                } else {
                    g.soul
                },
                ..g
            },
            aoe(140),
        ),
        RprAction::InfernalSlice => if !has_t {
            no_target
        } else {
            let combo = combo_at(g.main, MainCombo::Waxing);
            (
                RprGauges {
                    main: None,
                    soul: if combo {
                        add_sat(g.soul, 10, 100)
                    } else {
                        g.soul
                    },
                    ..g
                },
                seq![
                    dmg1(
                        if combo {
                            500
                        } else {
                            180
                        },
                    ),
                ],
            )
        },
        RprAction::WhorlOfDeath => (g, whorl_ops(a, me, tg, tg.len())),
        RprAction::NightmareScythe => {
            let combo = combo_at(g.main, MainCombo::Spinning);
            (
                RprGauges {
                    main: None,
                    soul: if has_t {
                        add_sat(g.soul, 10, 100)
                    } else {
                        g.soul
                    },
                    ..g
                },
                aoe(
                    if combo {
                        180
                    } else {
                        120
                    },
                ),
            )
        },
        RprAction::BloodStalk | RprAction::UnveiledGibbet | RprAction::UnveiledGallows => if !has_t {
            no_target
        } else {
            (
                RprGauges { soul: sub_sat(g.soul, 50), ..g },
                seq![
                    dmg1(
                        if ac is BloodStalk {
                            340
                        } else {
                            400
                        },
                    ),
                    apply_op(spec_soul_reaver(), 1, me, me, 0),
                ],
            )
        },
        RprAction::GrimSwathe => if !has_t {
            no_target
        } else {
            (
                RprGauges { soul: sub_sat(g.soul, 50), ..g },
                aoe(140) + seq![apply_op(spec_soul_reaver(), 1, me, me, 0)],
            )
        },
        RprAction::SoulSlice => if !has_t {
            no_target
        } else {
            (RprGauges { soul: sub_sat(g.soul, 50), ..g }, seq![dmg1(460)])
        },
        RprAction::SoulScythe => (
            RprGauges {
                soul: if has_t {
                    add_sat(g.soul, 50, 100)
                } else {
                    g.soul
                },
                ..g
            },
            aoe(180),
        ),
        RprAction::Gibbet | RprAction::Gallows => if !has_t {
            no_target
        } else {
            let (used, granted) = if ac is Gibbet {
                (spec_engibbet(), spec_engallows())
            } else {
                (spec_engallows(), spec_engibbet())
            };
            let en = ctx.has_own(used);
            (
                RprGauges { shroud: add_sat(g.shroud, 10, 100), ..g },
                (if en {
                    seq![remove_op(used, me, me, 0)]
                } else {
                    Seq::empty()
                }) + seq![
                    dmg1(
                        if en && ctx.positional {
                            520
                        } else if en || ctx.positional {
                            460
                        } else {
                            400
                        },
                    ),
                    apply_op(granted, 1, me, me, 0),
                ],
            )
        },
        RprAction::Guillotine => if !has_t {
            no_target
        } else {
            (RprGauges { shroud: add_sat(g.shroud, 10, 100), ..g }, aoe(200))
        },
        RprAction::ArcaneCircle => (
            g,
            circle_ops(me, tg, tg.len()) + seq![apply_op(spec_bloodsown_sacrifice(), 1, me, me, 0)],
        ),
        RprAction::Gluttony => if !has_t {
            no_target
        } else {
            (
                RprGauges { soul: sub_sat(g.soul, 50), ..g },
                aoe_ops(a, rpr_magic(520), rpr_magic(390), tg, 0, 45) + seq![
                    apply_op(spec_soul_reaver(), 2, me, me, 0),
                ],
            )
        },
        RprAction::Enshroud => (
            RprGauges { shroud: sub_sat(g.shroud, 50), lemure: 5, ..g },
            seq![apply_op(spec_enshroud(), 1, me, me, 0)],
        ),
        RprAction::Soulsow => (g, seq![apply_op(spec_soulsow(), 1, me, me, 0)]),
        RprAction::PlentifulHarvest => if !has_t {
            no_target
        } else {
            let stacks: u8 = match spec_get_status(ctx.statuses@, spec_immortal_sacrifice(), me) {
                Some(s) => s.stack,
                None => 0,
            };
            (
                RprGauges { shroud: add_sat(g.shroud, 50, 100), ..g },
                aoe_ops(
                    a,
                    rpr_hit((680 + 40 * stacks) as u64),
                    rpr_hit((272 + 16 * stacks) as u64),
                    tg,
                    0,
                    45,
                ) + seq![remove_op(spec_immortal_sacrifice(), me, me, 0)],
            )
        },
        RprAction::Communio => if !has_t {
            no_target
        } else {
            (
                RprGauges { lemure: 0, void: 0, ..g },
                aoe_ops(a, rpr_magic(1100), rpr_magic(440), tg, 0, 45) + seq![
                    remove_op(spec_enshroud(), me, me, 0),
                ],
            )
        },
        RprAction::VoidReaping | RprAction::CrossReaping => if !has_t {
            no_target
        } else {
            let (used, granted) = if ac is VoidReaping {
                (spec_envoid(), spec_encross())
            } else {
                (spec_encross(), spec_envoid())
            };
            let en = ctx.has_own(used);
            let (next, ended) = lemure_used(g);
            (
                next,
                (if en {
                    seq![remove_op(used, me, me, 0)]
                } else {
                    Seq::empty()
                }) + (if ended {
                    seq![remove_op(spec_enshroud(), me, me, 0)]
                } else {
                    seq![apply_op(granted, 1, me, me, 0)]
                }) + seq![
                    dmg1(
                        if en {
                            520
                        } else {
                            460
                        },
                    ),
                ],
            )
        },
        RprAction::GrimReaping => {
            let (next, ended) = lemure_used(g);
            let removal = if ended {
                seq![remove_op(spec_enshroud(), me, me, 0)]
            } else {
                Seq::empty()
            };
            if !has_t {
                (next, removal + seq![error_op(EventError::NoTarget)])
            } else {
                (next, removal + aoe(200))
            }
        },
        RprAction::HarvestMoon => if !has_t {
            no_target
        } else {
            (
                g,
                seq![remove_op(spec_soulsow(), me, me, 0)] + aoe_ops(
                    a,
                    rpr_magic(600),
                    rpr_magic(300),
                    tg,
                    0,
                    45,
                ),
            )
        },
        RprAction::LemuresSlice => if !has_t {
            no_target
        } else {
            (RprGauges { void: sub_sat(g.void, 2), ..g }, seq![dmg1(240)])
        },
        RprAction::LemuresScythe => if !has_t {
            no_target
        } else {
            (RprGauges { void: sub_sat(g.void, 2), ..g }, aoe(100))
        },
    }
}

/// What casting a Reaper action does: the gauges it leaves and the operations it
/// asks of the event sink, in order.
pub open spec fn spec_rpr_cast_snap(ac: RprAction, g: RprGauges, ctx: CastContext) -> (RprGauges, Seq<
    SinkOp,
>) {
    let body = spec_rpr_cast_body(ac, g, ctx);
    (body.0, reaver_ops(ac, ctx.this) + body.1)
}

/// Pushes the operations of Whorl of Death on every target.
fn push_whorl(ops: &mut Vec<SinkOp>, a: Action, ctx: &CastContext)
    requires
        45 * ctx.spec_targets().len() <= u32::MAX,
    ensures
        final(ops)@ == old(ops)@ + whorl_ops(a, ctx.this, ctx.spec_targets(), ctx.spec_targets().len()),
{
    let ghost base = ops@;
    let ghost tg = ctx.spec_targets();
    let me = ctx.this;
    let dd = deaths_design();
    let empty: Vec<ActorId> = Vec::new();
    let targets: &Vec<ActorId> = match &ctx.targets {
        Some(v) => v,
        None => &empty,
    };
    assert(targets@ == tg);
    let mut i: usize = 0;
    while i < targets.len()
        invariant
            i <= targets@.len(),
            targets@ == tg,
            45 * tg.len() <= u32::MAX,
            dd == spec_deaths_design(),
            me == ctx.this,
            ops@ == base + whorl_ops(a, me, tg, i as nat),
        decreases targets.len() - i,
    {
        let d = 45 * (i as u32);
        let t = targets[i];
        ops.apply_or_extend_status(me, dd, 1, 2, t, d);
        ops.damage(a, hit(100), t, d);
        proof {
            assert(whorl_ops(a, me, tg, (i + 1) as nat) == whorl_ops(a, me, tg, i as nat) + seq![
                status_op(StatusEvent::spec_apply_or_extend(dd, 1, 2, me, t), d),
                damage_op(a, rpr_hit(100), t, d),
            ]);
            assert(ops@ =~= base + whorl_ops(a, me, tg, (i + 1) as nat));
        }
        i = i + 1;
    }
}

/// Pushes the operations of Arcane Circle on every party member hit.
fn push_circle(ops: &mut Vec<SinkOp>, ctx: &CastContext)
    requires
        135 * ctx.spec_targets().len() <= u32::MAX,
    ensures
        final(ops)@ == old(ops)@ + circle_ops(ctx.this, ctx.spec_targets(), ctx.spec_targets().len()),
{
    let ghost base = ops@;
    let ghost tg = ctx.spec_targets();
    let me = ctx.this;
    let ac = arcane_circle();
    let cs = circle_sacrifice();
    let empty: Vec<ActorId> = Vec::new();
    let targets: &Vec<ActorId> = match &ctx.targets {
        Some(v) => v,
        None => &empty,
    };
    assert(targets@ == tg);
    let mut i: usize = 0;
    while i < targets.len()
        invariant
            i <= targets@.len(),
            targets@ == tg,
            135 * tg.len() <= u32::MAX,
            ac == spec_arcane_circle(),
            cs == spec_circle_sacrifice(),
            me == ctx.this,
            ops@ == base + circle_ops(me, tg, i as nat),
        decreases targets.len() - i,
    {
        let d = 135 * (i as u32);
        let t = targets[i];
        ops.apply_status(me, ac, 1, t, d);
        ops.apply_status(me, cs, 1, t, d);
        proof {
            assert(circle_ops(me, tg, (i + 1) as nat) == circle_ops(me, tg, i as nat) + seq![
                apply_op(ac, 1, me, t, d),
                apply_op(cs, 1, me, t, d),
            ]);
            assert(ops@ =~= base + circle_ops(me, tg, (i + 1) as nat));
        }
        i = i + 1;
    }
}

/// Uses a stack of Lemure Shroud; when none is left, Void Shroud is cleared and
/// the removal of Enshroud is asked for, and otherwise Void Shroud grows by one.
/// Returns `true` when none is left.
fn use_lemure(s: &mut RprState, ops: &mut Vec<SinkOp>, me: ActorId) -> (ended: bool)
    ensures
        final(s).gauges() == lemure_used(old(s).gauges()).0,
        ended == lemure_used(old(s).gauges()).1,
        final(ops)@ == old(ops)@ + (if ended {
            seq![remove_op(spec_enshroud(), me, me, 0)]
        } else {
            Seq::empty()
        }),
{
    s.lemure_shroud.sub_assign(1);
    if s.lemure_shroud.value() == 0 {
        s.void_shroud.clear();
        ops.remove_status(me, enshroud(), me, 0);
        true
    } else {
        s.void_shroud.add_assign(1);
        assert(old(ops)@ + Seq::<SinkOp>::empty() =~= old(ops)@);
        false
    }
}

impl RprJob {
    /// Executes the specified action: the changes to the job gauges and combos it
    /// makes, and the operations it asks of the event sink, in order.
    ///
    /// Every GCD first asks for a stack of Soul Reaver to be used (Gibbet, Gallows
    /// and Guillotine) or for Soul Reaver to be removed. An action that needs a target
    /// and has none then asks only for a [`NoTarget`](EventError::NoTarget) error.
    pub fn cast_snap(ac: RprAction, s: &mut RprState, ctx: &CastContext) -> (ops: Vec<SinkOp>)
        requires
            135 * ctx.spec_targets().len() <= u32::MAX,
        ensures
            final(s).gauges() == spec_rpr_cast_snap(ac, old(s).gauges(), *ctx).0,
            ops@ == spec_rpr_cast_snap(ac, old(s).gauges(), *ctx).1,
    {
        let mut ops: Vec<SinkOp> = Vec::new();
        let me = ctx.this;
        if ac.gcd().is_some() {
            match ac {
                RprAction::Gibbet | RprAction::Gallows | RprAction::Guillotine => {
                    ops.remove_stacks(me, soul_reaver(), 1, me, 0);
                },
                _ => {
                    ops.remove_status(me, soul_reaver(), me, 0);
                },
            }
        }
        let ghost pre = ops@;
        assert(pre == reaver_ops(ac, me));
        cast_body(ac, s, ctx, &mut ops);
        ops
    }
}

/// The exec side of [`spec_rpr_cast_body`].
fn cast_body(ac: RprAction, s: &mut RprState, ctx: &CastContext, ops: &mut Vec<SinkOp>)
    requires
        135 * ctx.spec_targets().len() <= u32::MAX,
    ensures
        final(s).gauges() == spec_rpr_cast_body(ac, old(s).gauges(), *ctx).0,
        final(ops)@ == old(ops)@ + spec_rpr_cast_body(ac, old(s).gauges(), *ctx).1,
{
    let me = ctx.this;
    let a = Action::Job(job::Action::Rpr(ac));
    let target = first_target(ctx);
    let ghost start = ops@;
    let ghost expected = spec_rpr_cast_body(ac, old(s).gauges(), *ctx).1;
    match ac {
        RprAction::HellsIngress | RprAction::HellsEgress => {
            ops.apply_status(me, enharpe(), 1, me, 0);
        },
        RprAction::SpinningScythe => {
            push_aoe_all(ops, a, hit(140), hit(140), ctx, 0, 1);
            if target.is_some() {
                s.soul.add_assign(10);
                s.combos.main.set(MainCombo::Spinning);
            } else {
                s.combos.main.reset();
            }
        },
        RprAction::WhorlOfDeath => {
            push_whorl(ops, a, ctx);
        },
        RprAction::NightmareScythe => {
            let combo = s.combos.main.check(MainCombo::Spinning);
            s.combos.main.reset();
            let pot: u64 = if combo {
                180
            } else {
                120
            };
            push_aoe_all(ops, a, hit(pot), hit(pot), ctx, 0, 1);
            if target.is_some() {
                s.soul.add_assign(10);
            }
        },
        RprAction::SoulScythe => {
            push_aoe_all(ops, a, hit(180), hit(180), ctx, 0, 1);
            if target.is_some() {
                s.soul.add_assign(50);
            }
        },
        RprAction::ArcaneCircle => {
            push_circle(ops, ctx);
            ops.apply_status(me, bloodsown_sacrifice(), 1, me, 0);
        },
        RprAction::Enshroud => {
            s.shroud.sub_assign(50);
            ops.apply_status(me, enshroud(), 1, me, 0);
            s.lemure_shroud.set_max();
        },
        RprAction::Soulsow => {
            ops.apply_status(me, soulsow(), 1, me, 0);
        },
        RprAction::GrimReaping => {
            use_lemure(s, ops, me);
            if target.is_none() {
                ops.push(SinkOp::Error { error: EventError::NoTarget });
            } else {
                push_aoe_all(ops, a, hit(200), hit(200), ctx, 0, 1);
            }
        },
        _ => {
            let t = match target {
                Some(t) => t,
                None => {
                    ops.push(SinkOp::Error { error: EventError::NoTarget });
                    assert(ops@ =~= start + expected);
                    return ;
                },
            };
            cast_targeted(ac, s, ctx, ops, t);
            return ;
        },
    }
    assert(ops@ =~= start + expected);
}

/// The actions of [`cast_body`] that need a target, once they have one.
fn cast_targeted(ac: RprAction, s: &mut RprState, ctx: &CastContext, ops: &mut Vec<SinkOp>, t: ActorId)
    requires
        ctx.spec_targets().len() > 0,
        t == ctx.spec_targets()[0],
        135 * ctx.spec_targets().len() <= u32::MAX,
        !(ac is HellsIngress || ac is HellsEgress || ac is SpinningScythe || ac is WhorlOfDeath
            || ac is NightmareScythe || ac is SoulScythe || ac is ArcaneCircle || ac is Enshroud
            || ac is Soulsow || ac is GrimReaping),
    ensures
        final(s).gauges() == spec_rpr_cast_body(ac, old(s).gauges(), *ctx).0,
        final(ops)@ == old(ops)@ + spec_rpr_cast_body(ac, old(s).gauges(), *ctx).1,
{
    let me = ctx.this;
    let a = Action::Job(job::Action::Rpr(ac));
    let ghost start = ops@;
    let ghost expected = spec_rpr_cast_body(ac, old(s).gauges(), *ctx).1;
    match ac {
        RprAction::Slice => {
            s.combos.main.set(MainCombo::Slice);
            s.soul.add_assign(10);
            ops.damage(a, hit(320), t, 0);
        },
        RprAction::WaxingSlice => {
            let combo = if s.combos.main.check(MainCombo::Slice) {
                s.combos.main.set(MainCombo::Waxing);
                s.soul.add_assign(10);
                true
            } else {
                s.combos.main.reset();
                false
            };
            ops.push(
                SinkOp::Damage {
                    action: a,
                    damage: hit(combo_pot(160, 400, combo)),
                    target: t,
                    delay: 0,
                },
            );
        },
        RprAction::ShadowOfDeath => {
            ops.apply_or_extend_status(me, deaths_design(), 1, 2, t, 0);
            ops.damage(a, hit(300), t, 0);
        },
        RprAction::Harpe => {
            ops.damage(a, hit(300), t, 0);
        },
        RprAction::InfernalSlice => {
            let combo = s.combos.main.check(MainCombo::Waxing);
            if combo {
                s.soul.add_assign(10);
            }
            s.combos.main.reset();
            ops.push(
                SinkOp::Damage {
                    action: a,
                    damage: hit(combo_pot(180, 500, combo)),
                    target: t,
                    delay: 0,
                },
            );
        },
        RprAction::BloodStalk | RprAction::UnveiledGibbet | RprAction::UnveiledGallows => {
            s.soul.sub_assign(50);
            let pot: u64 = if ac == RprAction::BloodStalk {
                340
            } else {
                400
            };
            ops.damage(a, hit(pot), t, 0);
            ops.apply_status(me, soul_reaver(), 1, me, 0);
        },
        RprAction::GrimSwathe => {
            push_aoe_all(ops, a, hit(140), hit(140), ctx, 0, 1);
            s.soul.sub_assign(50);
            ops.apply_status(me, soul_reaver(), 1, me, 0);
        },
        RprAction::SoulSlice => {
            s.soul.sub_assign(50);
            ops.damage(a, hit(460), t, 0);
        },
        RprAction::Gibbet | RprAction::Gallows => {
            let (used, granted) = if ac == RprAction::Gibbet {
                (engibbet(), engallows())
            } else {
                (engallows(), engibbet())
            };
            let en = consume_status(ctx, ops, used, 0);
            s.shroud.add_assign(10);
            let pos = ctx.positional;
            ops.push(
                SinkOp::Damage {
                    action: a,
                    damage: hit(combo_pos_pot(400, 460, 460, 520, en, pos)),
                    target: t,
                    delay: 0,
                },
            );
            ops.apply_status(me, granted, 1, me, 0);
        },
        RprAction::Guillotine => {
            push_aoe_all(ops, a, hit(200), hit(200), ctx, 0, 1);
            s.shroud.add_assign(10);
        },
        RprAction::Gluttony => {
            s.soul.sub_assign(50);
            push_aoe_all(ops, a, magic(520), magic(390), ctx, 0, 1);
            ops.apply_status(me, soul_reaver(), 2, me, 0);
        },
        RprAction::PlentifulHarvest => {
            let stacks: u8 = match get_status(&ctx.statuses, immortal_sacrifice(), me) {
                Some(v) => v.stack,
                None => 0,
            };
            s.shroud.add_assign(50);
            push_aoe_all(
                ops,
                a,
                hit(680 + 40 * (stacks as u64)),
                hit(272 + 16 * (stacks as u64)),
                ctx,
                0,
                1,
            );
            ops.remove_status(me, immortal_sacrifice(), me, 0);
        },
        RprAction::Communio => {
            push_aoe_all(ops, a, magic(1100), magic(440), ctx, 0, 1);
            s.lemure_shroud.clear();
            s.void_shroud.clear();
            ops.remove_status(me, enshroud(), me, 0);
        },
        RprAction::VoidReaping | RprAction::CrossReaping => {
            let (used, granted) = if ac == RprAction::VoidReaping {
                (envoid(), encross())
            } else {
                (encross(), envoid())
            };
            let en = consume_status(ctx, ops, used, 0);
            let ended = use_lemure(s, ops, me);
            if !ended {
                ops.apply_status(me, granted, 1, me, 0);
            }
            ops.push(
                SinkOp::Damage { action: a, damage: hit(combo_pot(460, 520, en)), target: t, delay: 0 },
            );
        },
        RprAction::HarvestMoon => {
            ops.remove_status(me, soulsow(), me, 0);
            push_aoe_all(ops, a, magic(600), magic(300), ctx, 0, 1);
        },
        RprAction::LemuresSlice => {
            s.void_shroud.sub_assign(2);
            ops.damage(a, hit(240), t, 0);
        },
        _ => {
            push_aoe_all(ops, a, hit(100), hit(100), ctx, 0, 1);
            s.void_shroud.sub_assign(2);
        },
    }
    assert(ops@ =~= start + expected);
}

/// The errors checking a cast of an action submits, in order.
pub open spec fn spec_rpr_check_errors(ac: RprAction, s: RprState, ctx: CastContext) -> Seq<SinkOp> {
    let g = s.gauges();
    let enshroud_err = if g.lemure > 0 && spec_rpr_enshroud_invalid(ac) {
        seq![rpr_error_op(RprError::Enshroud(ac))]
    } else {
        Seq::empty()
    };
    let soul_err = if g.soul < 50 {
        seq![rpr_error_op(RprError::Soul(50))]
    } else {
        Seq::empty()
    };
    let other = match ac {
        RprAction::BloodStalk | RprAction::GrimSwathe => soul_err,
        RprAction::UnveiledGibbet => soul_err + (if !ctx.has_own(spec_engibbet()) {
            seq![rpr_error_op(RprError::UnvGibbet)]
        } else {
            Seq::empty()
        }),
        RprAction::UnveiledGallows => soul_err + (if !ctx.has_own(spec_engallows()) {
            seq![rpr_error_op(RprError::UnvGallows)]
        } else {
            Seq::empty()
        }),
        RprAction::Gibbet | RprAction::Gallows | RprAction::Guillotine => if !ctx.has_own(
            spec_soul_reaver(),
        ) {
            seq![rpr_error_op(RprError::SoulReaver)]
        } else {
            Seq::empty()
        },
        RprAction::Enshroud => if g.shroud < 50 {
            seq![rpr_error_op(RprError::Shroud(50))]
        } else {
            Seq::empty()
        },
        RprAction::HarvestMoon => if !ctx.has_own(spec_soulsow()) {
            seq![rpr_error_op(RprError::Soulsow)]
        } else {
            Seq::empty()
        },
        RprAction::VoidReaping | RprAction::CrossReaping | RprAction::GrimReaping
        | RprAction::Communio => if g.lemure == 0 {
            seq![rpr_error_op(RprError::Lemure(1))]
        } else {
            Seq::empty()
        },
        RprAction::LemuresSlice | RprAction::LemuresScythe => if g.void < 2 {
            seq![rpr_error_op(RprError::Void(2))]
        } else {
            Seq::empty()
        },
        RprAction::PlentifulHarvest => (if !ctx.has_own(spec_immortal_sacrifice()) {
            seq![rpr_error_op(RprError::Sacrifice)]
        } else {
            Seq::empty()
        }) + (if ctx.has_own(spec_bloodsown_sacrifice()) {
            seq![rpr_error_op(RprError::Bloodsown)]
        } else {
            Seq::empty()
        }),
        _ => Seq::empty(),
    };
    enshroud_err + other
}

/// The timing information of casting an action: its GCD, the lock and snapshot
/// of its cast time with an animation lock of `600`, and its cooldown.
pub open spec fn spec_rpr_cast_info<D: DurationInfo>(ac: RprAction, di: &D) -> CastInitInfo<RprCdGroup> {
    let times = spec_cast_times(di.spec_duration(spec_rpr_cast(ac)) as u16, 600, di.spec_extra_ani_lock());
    CastInitInfo {
        gcd: match spec_rpr_gcd(ac) {
            Some(v) => di.spec_duration(v) as u16,
            None => 0,
        },
        lock: times.0,
        snap: times.1,
        mp: 0,
        cd: match spec_rpr_cd_group(ac) {
            Some(g) => Some((g, spec_rpr_cooldown(ac), spec_rpr_cd_charges(ac))),
            None => None,
        },
        alt_cd: None,
    }
}

impl RprJob {
    /// Checks that a certain action may be cast: submits an error for each
    /// requirement the action does not meet, and returns the timing information of
    /// the cast whatever the errors.
    pub fn check_cast<D: DurationInfo>(
        action: RprAction,
        state: &RprState,
        ctx: &CastContext,
        di: &D,
        ops: &mut Vec<SinkOp>,
    ) -> (r: CastInitInfo<RprCdGroup>)
        requires
            (di.spec_duration(spec_rpr_cast(action)) as u16) == 0 ==> 600 + di.spec_extra_ani_lock()
                <= u16::MAX,
            (di.spec_duration(spec_rpr_cast(action)) as u16) != 0 ==> (di.spec_duration(
                spec_rpr_cast(action),
            ) as u16) + 10 <= u16::MAX,
        ensures
            r == spec_rpr_cast_info(action, di),
            final(ops)@ == old(ops)@ + spec_rpr_check_errors(action, *state, *ctx),
    {
        let gcd = match action.gcd() {
            Some(v) => di.get_duration(v),
            None => 0,
        } as u16;
        let (lock, snap) = di.get_cast(action.cast(), 600);
        let cd = match action.cd_group() {
            Some(v) => Some((v, action.cooldown(), action.cd_charges())),
            None => None,
        };
        let me = ctx.this;
        let ghost start = ops@;
        if state.lemure_shroud.value() > 0 && action.enshroud_invalid() {
            RprError::Enshroud(action).submit(ops);
        }
        match action {
            RprAction::BloodStalk | RprAction::GrimSwathe => {
                if state.soul.value() < 50 {
                    RprError::Soul(50).submit(ops);
                }
            },
            RprAction::UnveiledGibbet => {
                if state.soul.value() < 50 {
                    RprError::Soul(50).submit(ops);
                }
                if !has_status(&ctx.statuses, engibbet(), me) {
                    RprError::UnvGibbet.submit(ops);
                }
            },
            RprAction::UnveiledGallows => {
                if state.soul.value() < 50 {
                    RprError::Soul(50).submit(ops);
                }
                if !has_status(&ctx.statuses, engallows(), me) {
                    RprError::UnvGallows.submit(ops);
                }
            },
            RprAction::Gibbet | RprAction::Gallows | RprAction::Guillotine => {
                if !has_status(&ctx.statuses, soul_reaver(), me) {
                    RprError::SoulReaver.submit(ops);
                }
            },
            RprAction::Enshroud => {
                if state.shroud.value() < 50 {
                    RprError::Shroud(50).submit(ops);
                }
            },
            RprAction::HarvestMoon => {
                if !has_status(&ctx.statuses, soulsow(), me) {
                    RprError::Soulsow.submit(ops);
                }
            },
            RprAction::VoidReaping | RprAction::CrossReaping | RprAction::GrimReaping
            | RprAction::Communio => {
                if state.lemure_shroud.value() == 0 {
                    RprError::Lemure(1).submit(ops);
                }
            },
            RprAction::LemuresSlice | RprAction::LemuresScythe => {
                if state.void_shroud.value() < 2 {
                    RprError::Void(2).submit(ops);
                }
            },
            RprAction::PlentifulHarvest => {
                if !has_status(&ctx.statuses, immortal_sacrifice(), me) {
                    RprError::Sacrifice.submit(ops);
                }
                if has_status(&ctx.statuses, bloodsown_sacrifice(), me) {
                    RprError::Bloodsown.submit(ops);
                }
            },
            _ => {},
        }
        assert(ops@ =~= start + spec_rpr_check_errors(action, *state, *ctx));
        CastInitInfo { gcd, lock, snap, mp: 0, cd, alt_cd: None }
    }
}

/// What a damage event makes a Reaper `me` do: see [`RprJob::damage_dealt`].
pub open spec fn spec_rpr_damage_dealt(me: ActorId, event: DamageEvent, source_faction: Faction, source_has_circle: bool) -> Seq<SinkOp> {
    (if source_faction == Faction::Party && source_has_circle && (match event.action {
        Action::Job(a) => job::spec_action_category(a),
    }).skill_or_spell_spec() {
        seq![
            status_op(
                StatusEvent::spec_apply_or_add_stacks(spec_immortal_sacrifice(), 1, 8, me, me),
                0,
            ),
            remove_op(spec_circle_sacrifice(), me, event.source, 0),
        ]
    } else {
        Seq::empty()
    })
}

impl RprJob {
    /// Reacts to a damage event: when a party member deals damage with a weaponskill
    /// or a spell while it has the Circle of Sacrifice of the actor `me`, `me` gains
    /// a stack of Immortal Sacrifice (up to `8`) and the Circle of Sacrifice of the
    /// party member is removed.
    pub fn damage_dealt(
        me: ActorId,
        event: &DamageEvent,
        source_faction: Faction,
        source_has_circle: bool,
    ) -> (ops: Vec<SinkOp>)
        ensures
            ops@ == spec_rpr_damage_dealt(me, *event, source_faction, source_has_circle),
    {
        let mut ops: Vec<SinkOp> = Vec::new();
        if source_faction == Faction::Party && source_has_circle && event.action.category().skill_or_spell() {
            ops.apply_or_add_stacks(me, immortal_sacrifice(), 1, 8, me, 0);
            ops.remove_status(me, circle_sacrifice(), event.source, 0);
        }
        ops
    }
}


/// `Cannot use action '<action>' under the effect of '<status>'.`
pub open spec fn spec_cannot_use(action: Seq<char>, status: StatusEffect) -> Seq<char> {
    "Cannot use action '"@ + action + "' under the effect of '"@ + status.vtable.name@ + "'."@
}

/// Returns `Cannot use action '<action>' under the effect of '<status>'.`
fn cannot_use(action: &'static str, status: StatusEffect) -> (r: String)
    ensures
        r@ == spec_cannot_use(action@, status),
{
    let mut s = String::from_str("Cannot use action '");
    s.append(action);
    s.append("' under the effect of '");
    s.append(status.vtable.name);
    s.append("'.");
    s
}

/// `<text><v>.`
fn with_number(text: &'static str, v: u8) -> (r: String)
    ensures
        r@ == text@ + spec_decimal(v) + "."@,
{
    let mut s = String::from_str(text);
    push_decimal(&mut s, v);
    s.append(".");
    s
}

/// The message of a Reaper error.
pub open spec fn spec_rpr_error_message(e: RprError) -> Seq<char> {
    match e {
        RprError::Soul(v) => "Not enough Soul Gauge, needed at least "@ + spec_decimal(v) + "."@,
        RprError::Shroud(v) => "Not enough Shroud Gauge, needed at least "@ + spec_decimal(v) + "."@,
        RprError::Soulsow => spec_status_proc_error(spec_soulsow()),
        RprError::Lemure(v) => "Not enough stacks of Lemure Shroud, needed at least "@ + spec_decimal(v) + "."@,
        RprError::Void(v) => "Not enough stacks of Void Shroud, needed at least "@ + spec_decimal(v) + "."@,
        RprError::Sacrifice => spec_status_proc_error(spec_immortal_sacrifice()),
        RprError::Bloodsown => spec_cannot_use(spec_rpr_name(RprAction::PlentifulHarvest), spec_bloodsown_sacrifice()),
        RprError::SoulReaver => spec_status_proc_error(spec_soul_reaver()),
        RprError::UnvGibbet => spec_status_proc_error(spec_engibbet()),
        RprError::UnvGallows => spec_status_proc_error(spec_engallows()),
        RprError::Enshroud(ac) => spec_cannot_use(spec_rpr_name(ac), spec_enshroud()),
    }
}

impl RprError {
    /// Returns the message of the error.
    pub fn message(&self) -> (r: String)
        ensures
            r@ == spec_rpr_error_message(*self),
    {
        match self {
            RprError::Soul(v) => with_number("Not enough Soul Gauge, needed at least ", *v),
            RprError::Shroud(v) => with_number("Not enough Shroud Gauge, needed at least ", *v),
            RprError::Soulsow => status_proc_error(soulsow()),
            RprError::Lemure(v) => with_number("Not enough stacks of Lemure Shroud, needed at least ", *v),
            RprError::Void(v) => with_number("Not enough stacks of Void Shroud, needed at least ", *v),
            RprError::Sacrifice => status_proc_error(immortal_sacrifice()),
            RprError::Bloodsown => cannot_use(RprAction::PlentifulHarvest.name(), bloodsown_sacrifice()),
            RprError::SoulReaver => status_proc_error(soul_reaver()),
            RprError::UnvGibbet => status_proc_error(engibbet()),
            RprError::UnvGallows => status_proc_error(engallows()),
            RprError::Enshroud(ac) => cannot_use(ac.name(), enshroud()),
        }
    }
}

/// Enshroud costs `50` Shroud: the gauge afterwards is `50` less than before, or
/// empty when it held less, and the Lemure Shroud is full at `5`.
pub proof fn lemma_enshroud_spends_shroud(g: RprGauges, ctx: CastContext)
    ensures
        g.shroud >= 50 ==> spec_rpr_cast_snap(RprAction::Enshroud, g, ctx).0.shroud + 50 == g.shroud,
        g.shroud < 50 ==> spec_rpr_cast_snap(RprAction::Enshroud, g, ctx).0.shroud == 0,
        spec_rpr_cast_snap(RprAction::Enshroud, g, ctx).0.lemure == 5,
{
}

} // verus!
