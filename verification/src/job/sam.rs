//! Logic and types for Samurai.
use vstd::prelude::*;
use vstd::string::StringExecFns;

use crate::enums::{spec_damage, ActionCategory, DamageInstance, DamageType};
use crate::job::{self, CastInitInfo, JobAction, JobState};
use crate::math::SpeedStat;
use crate::timing::{spec_cast_times, spec_cd_until, ActionCd, DurationInfo, ScaleTime};
use crate::util::{
    add_sat, combo_advanced, combo_at, combo_pos_pot, combo_pot, count_ones, lemma_count_ones_le,
    push_decimal, spec_count_ones, spec_decimal, sub_sat, ComboStage, ComboState, GaugeU8,
};
use crate::world::{
    aoe_ops, apply_op, consume_status, consume_status_stack, damage_op, error_op, first_target,
    has_status, push_aoe_all, status_op, Action, ActorId, CastContext, DamageEventExt, Event,
    EventError, SinkOp,
};
use crate::world::status::{
    plain_status, spec_plain_status, DamageMod, HasteMod, StatusEffect, StatusEvent, StatusEventExt,
    StatusVTable, ValueModifier,
};

verus! {

/// The entry points of the Samurai job: checking and executing its actions.
#[derive(Clone, Copy, Debug, Default)]
pub struct SamJob;

/// An action specific to the Samurai job.
#[derive(Clone, Copy, Debug, PartialEq, Eq, Hash, Structural)]
pub enum SamAction {
    /// The action "Hakaze".
    Hakaze,
    /// The action "Jinpu".
    Jinpu,
    /// The action "Shifu".
    Shifu,
    /// The action "Yukikaze".
    Yukikaze,
    /// The action "Gekko".
    Gekko,
    /// The action "Kasha".
    Kasha,
    /// The action "Fuga".
    Fuga,
    /// The action "Mangetsu".
    Mangetsu,
    /// The action "Oka".
    Oka,
    /// The action "Enpi".
    Enpi,
    /// The action "Hissatsu: Shinten".
    Shinten,
    /// The action "Hissatsu: Kyuten".
    Kyuten,
    /// The action "Hissatsu: Gyoten".
    Gyoten,
    /// The action "Hissatsu: Yaten".
    Yaten,
    /// The action "Hagakure".
    Hagakure,
    /// The action "Hissatsu: Guren".
    Guren,
    /// The action "Meikyo Shisui".
    Meikyo,
    /// The action "Hissatsu: Senei".
    Senei,
    /// The action "Ikishoten".
    Ikishoten,
    /// The action "Shoha".
    Shoha,
    /// The action "Shoha II".
    Shoha2,
    /// The action "Fuko".
    Fuko,
    /// The action "Ogi Namikiri".
    Namikiri,
    /// The action "Higanbana".
    Higanbana,
    /// The action "Tenka Goken".
    TenkaGoken,
    /// The action "Midare Setsugekka".
    Midare,
    /// The action "Kaeshi: Higanbana".
    KaeshiHiganbana,
    /// The action "Kaeshi: Goken".
    KaeshiGoken,
    /// The action "Kaeshi: Setsugekka".
    KaeshiSetsugekka,
    /// The action "Kaeshi: Namikiri".
    KaeshiNamikiri,
}

/// Returns `true` if the action uses Tsubame-gaeshi.
pub open spec fn spec_sam_tsubame(a: SamAction) -> bool {
    match a {
        SamAction::Hakaze | SamAction::Jinpu | SamAction::Shifu | SamAction::Yukikaze | SamAction::Gekko | SamAction::Kasha | SamAction::Fuga | SamAction::Mangetsu | SamAction::Oka | SamAction::Enpi | SamAction::Shinten | SamAction::Kyuten | SamAction::Gyoten | SamAction::Yaten | SamAction::Hagakure | SamAction::Guren | SamAction::Meikyo | SamAction::Senei | SamAction::Ikishoten | SamAction::Shoha | SamAction::Shoha2 | SamAction::Fuko | SamAction::Namikiri | SamAction::Higanbana | SamAction::TenkaGoken | SamAction::Midare | SamAction::KaeshiNamikiri => false,
        SamAction::KaeshiHiganbana | SamAction::KaeshiGoken | SamAction::KaeshiSetsugekka => true,
    }
}

/// Returns the base GCD recast time, or `None` if the action is not a GCD.
pub open spec fn spec_sam_gcd(a: SamAction) -> Option<ScaleTime> {
    match a {
        SamAction::Hakaze | SamAction::Jinpu | SamAction::Shifu | SamAction::Yukikaze | SamAction::Gekko | SamAction::Kasha | SamAction::Fuga | SamAction::Mangetsu | SamAction::Oka | SamAction::Enpi | SamAction::Namikiri | SamAction::Higanbana | SamAction::TenkaGoken | SamAction::Midare | SamAction::KaeshiHiganbana | SamAction::KaeshiGoken | SamAction::KaeshiSetsugekka | SamAction::KaeshiNamikiri => Some(ScaleTime::spec_of(2500u32, Some(SpeedStat::SkillSpeed), true)),
        SamAction::Shinten | SamAction::Kyuten | SamAction::Gyoten | SamAction::Yaten | SamAction::Hagakure | SamAction::Guren | SamAction::Meikyo | SamAction::Senei | SamAction::Ikishoten | SamAction::Shoha | SamAction::Shoha2 | SamAction::Fuko => None::<ScaleTime>,
    }
}

/// Returns the base time the action takes to cast.
pub open spec fn spec_sam_cast(a: SamAction) -> ScaleTime {
    match a {
        SamAction::Hakaze | SamAction::Jinpu | SamAction::Shifu | SamAction::Yukikaze | SamAction::Gekko | SamAction::Kasha | SamAction::Fuga | SamAction::Mangetsu | SamAction::Oka | SamAction::Enpi | SamAction::Shinten | SamAction::Kyuten | SamAction::Gyoten | SamAction::Yaten | SamAction::Hagakure | SamAction::Guren | SamAction::Meikyo | SamAction::Senei | SamAction::Ikishoten | SamAction::Shoha | SamAction::Shoha2 | SamAction::Fuko | SamAction::KaeshiHiganbana | SamAction::KaeshiGoken | SamAction::KaeshiSetsugekka | SamAction::KaeshiNamikiri => ScaleTime::spec_of(0u32, None, false),
        SamAction::Namikiri | SamAction::Higanbana | SamAction::TenkaGoken | SamAction::Midare => ScaleTime::spec_of(1300u32, Some(SpeedStat::SkillSpeed), true),
    }
}

/// Returns the human friendly name of the action.
pub open spec fn spec_sam_name(a: SamAction) -> Seq<char> {
    match a {
        SamAction::Hakaze => "Hakaze"@,
        SamAction::Jinpu => "Jinpu"@,
        SamAction::Shifu => "Shifu"@,
        SamAction::Yukikaze => "Yukikaze"@,
        SamAction::Gekko => "Gekko"@,
        SamAction::Kasha => "Kasha"@,
        SamAction::Fuga => "Fuga"@,
        SamAction::Mangetsu => "Mangetsu"@,
        SamAction::Oka => "Oka"@,
        SamAction::Enpi => "Enpi"@,
        SamAction::Shinten => "Hissatsu: Shinten"@,
        SamAction::Kyuten => "Hissatsu: Kyuten"@,
        SamAction::Gyoten => "Hissatsu: Gyoten"@,
        SamAction::Yaten => "Hissatsu: Yaten"@,
        SamAction::Hagakure => "Hagakure"@,
        SamAction::Guren => "Hissatsu: Guren"@,
        SamAction::Meikyo => "Meikyo Shisui"@,
        SamAction::Senei => "Hissatsu: Senei"@,
        SamAction::Ikishoten => "Ikishoten"@,
        SamAction::Shoha => "Shoha"@,
        SamAction::Shoha2 => "Shoha II"@,
        SamAction::Fuko => "Fuko"@,
        SamAction::Namikiri => "Ogi Namikiri"@,
        SamAction::Higanbana => "Higanbana"@,
        SamAction::TenkaGoken => "Tenka Goken"@,
        SamAction::Midare => "Midare Setsugekka"@,
        SamAction::KaeshiHiganbana => "Kaeshi: Higanbana"@,
        SamAction::KaeshiGoken => "Kaeshi: Goken"@,
        SamAction::KaeshiSetsugekka => "Kaeshi: Setsugekka"@,
        SamAction::KaeshiNamikiri => "Kaeshi: Namikiri"@,
    }
}

/// Returns the cooldown of the action in milliseconds.
pub open spec fn spec_sam_cooldown(a: SamAction) -> u32 {
    match a {
        SamAction::Hakaze | SamAction::Jinpu | SamAction::Shifu | SamAction::Yukikaze | SamAction::Gekko | SamAction::Kasha | SamAction::Fuga | SamAction::Mangetsu | SamAction::Oka | SamAction::Enpi | SamAction::Fuko | SamAction::Namikiri | SamAction::Higanbana | SamAction::TenkaGoken | SamAction::Midare | SamAction::KaeshiNamikiri => 0u32,
        SamAction::Shinten | SamAction::Kyuten => 1000u32,
        SamAction::Gyoten | SamAction::Yaten => 10000u32,
        SamAction::Hagakure => 5000u32,
        SamAction::Guren | SamAction::Senei | SamAction::Ikishoten => 120000u32,
        SamAction::Meikyo => 55000u32,
        SamAction::Shoha | SamAction::Shoha2 => 15000u32,
        SamAction::KaeshiHiganbana | SamAction::KaeshiGoken | SamAction::KaeshiSetsugekka => 60000u32,
    }
}

/// Returns the number of charges the action has, or `1` if it is a single charge action.
pub open spec fn spec_sam_cd_charges(a: SamAction) -> u8 {
    match a {
        SamAction::Hakaze | SamAction::Jinpu | SamAction::Shifu | SamAction::Yukikaze | SamAction::Gekko | SamAction::Kasha | SamAction::Fuga | SamAction::Mangetsu | SamAction::Oka | SamAction::Enpi | SamAction::Shinten | SamAction::Kyuten | SamAction::Gyoten | SamAction::Yaten | SamAction::Hagakure | SamAction::Guren | SamAction::Senei | SamAction::Ikishoten | SamAction::Shoha | SamAction::Shoha2 | SamAction::Fuko | SamAction::Namikiri | SamAction::Higanbana | SamAction::TenkaGoken | SamAction::Midare | SamAction::KaeshiNamikiri => 1u8,
        SamAction::Meikyo | SamAction::KaeshiHiganbana | SamAction::KaeshiGoken | SamAction::KaeshiSetsugekka => 2u8,
    }
}

/// Returns the delay in milliseconds for the damage and statuses to be applied.
pub open spec fn spec_sam_effect_delay(a: SamAction) -> u32 {
    match a {
        SamAction::Hakaze | SamAction::Jinpu | SamAction::Shifu | SamAction::Yukikaze | SamAction::Gekko | SamAction::Kasha | SamAction::Fuga | SamAction::Mangetsu | SamAction::Oka | SamAction::Enpi | SamAction::Shinten | SamAction::Kyuten | SamAction::Gyoten | SamAction::Yaten | SamAction::Hagakure | SamAction::Guren | SamAction::Meikyo | SamAction::Senei | SamAction::Ikishoten | SamAction::Shoha | SamAction::Shoha2 | SamAction::Fuko | SamAction::Namikiri | SamAction::Higanbana | SamAction::TenkaGoken | SamAction::Midare | SamAction::KaeshiHiganbana | SamAction::KaeshiGoken | SamAction::KaeshiSetsugekka | SamAction::KaeshiNamikiri => 0u32,
    }
}

/// Returns the category of the action.
pub open spec fn spec_sam_category(a: SamAction) -> ActionCategory {
    match a {
        SamAction::Hakaze | SamAction::Jinpu | SamAction::Shifu | SamAction::Yukikaze | SamAction::Gekko | SamAction::Kasha | SamAction::Fuga | SamAction::Mangetsu | SamAction::Oka | SamAction::Enpi | SamAction::Namikiri | SamAction::Higanbana | SamAction::TenkaGoken | SamAction::Midare | SamAction::KaeshiHiganbana | SamAction::KaeshiGoken | SamAction::KaeshiSetsugekka | SamAction::KaeshiNamikiri => ActionCategory::Weaponskill,
        SamAction::Shinten | SamAction::Kyuten | SamAction::Gyoten | SamAction::Yaten | SamAction::Hagakure | SamAction::Guren | SamAction::Meikyo | SamAction::Senei | SamAction::Ikishoten | SamAction::Shoha | SamAction::Shoha2 | SamAction::Fuko => ActionCategory::Ability,
    }
}

/// Returns the Kenki cost of the action.
pub open spec fn spec_sam_kenki_cost(a: SamAction) -> u8 {
    match a {
        SamAction::Hakaze | SamAction::Jinpu | SamAction::Shifu | SamAction::Yukikaze | SamAction::Gekko | SamAction::Kasha | SamAction::Fuga | SamAction::Mangetsu | SamAction::Oka | SamAction::Enpi | SamAction::Hagakure | SamAction::Meikyo | SamAction::Ikishoten | SamAction::Shoha | SamAction::Shoha2 | SamAction::Fuko | SamAction::Namikiri | SamAction::Higanbana | SamAction::TenkaGoken | SamAction::Midare | SamAction::KaeshiHiganbana | SamAction::KaeshiGoken | SamAction::KaeshiSetsugekka | SamAction::KaeshiNamikiri => 0u8,
        SamAction::Shinten | SamAction::Kyuten | SamAction::Guren | SamAction::Senei => 25u8,
        SamAction::Gyoten | SamAction::Yaten => 10u8,
    }
}

/// Returns the number of Sen needed to perform the iaijutsu, or `None` if the action is not one.
pub open spec fn spec_sam_sen_cost(a: SamAction) -> Option<u8> {
    match a {
        SamAction::Hakaze | SamAction::Jinpu | SamAction::Shifu | SamAction::Yukikaze | SamAction::Gekko | SamAction::Kasha | SamAction::Fuga | SamAction::Mangetsu | SamAction::Oka | SamAction::Enpi | SamAction::Shinten | SamAction::Kyuten | SamAction::Gyoten | SamAction::Yaten | SamAction::Hagakure | SamAction::Guren | SamAction::Meikyo | SamAction::Senei | SamAction::Ikishoten | SamAction::Shoha | SamAction::Shoha2 | SamAction::Fuko | SamAction::Namikiri | SamAction::KaeshiHiganbana | SamAction::KaeshiGoken | SamAction::KaeshiSetsugekka | SamAction::KaeshiNamikiri => None::<u8>,
        SamAction::Higanbana => Some(1u8),
        SamAction::TenkaGoken => Some(2u8),
        SamAction::Midare => Some(3u8),
    }
}

impl SamAction {
    /// Returns `true` if the action uses Tsubame-gaeshi.
    pub fn tsubame(&self) -> (r: bool)
        ensures
            r == spec_sam_tsubame(*self),
    {
        match self {
            SamAction::Hakaze | SamAction::Jinpu | SamAction::Shifu | SamAction::Yukikaze | SamAction::Gekko | SamAction::Kasha | SamAction::Fuga | SamAction::Mangetsu | SamAction::Oka | SamAction::Enpi | SamAction::Shinten | SamAction::Kyuten | SamAction::Gyoten | SamAction::Yaten | SamAction::Hagakure | SamAction::Guren | SamAction::Meikyo | SamAction::Senei | SamAction::Ikishoten | SamAction::Shoha | SamAction::Shoha2 | SamAction::Fuko | SamAction::Namikiri | SamAction::Higanbana | SamAction::TenkaGoken | SamAction::Midare | SamAction::KaeshiNamikiri => false,
            SamAction::KaeshiHiganbana | SamAction::KaeshiGoken | SamAction::KaeshiSetsugekka => true,
        }
    }

    /// Returns the base GCD recast time, or `None` if the action is not a GCD.
    pub fn gcd(&self) -> (r: Option<ScaleTime>)
        ensures
            r == spec_sam_gcd(*self),
    {
        match self {
            SamAction::Hakaze | SamAction::Jinpu | SamAction::Shifu | SamAction::Yukikaze | SamAction::Gekko | SamAction::Kasha | SamAction::Fuga | SamAction::Mangetsu | SamAction::Oka | SamAction::Enpi | SamAction::Namikiri | SamAction::Higanbana | SamAction::TenkaGoken | SamAction::Midare | SamAction::KaeshiHiganbana | SamAction::KaeshiGoken | SamAction::KaeshiSetsugekka | SamAction::KaeshiNamikiri => Some(ScaleTime::skill(2500)),
            SamAction::Shinten | SamAction::Kyuten | SamAction::Gyoten | SamAction::Yaten | SamAction::Hagakure | SamAction::Guren | SamAction::Meikyo | SamAction::Senei | SamAction::Ikishoten | SamAction::Shoha | SamAction::Shoha2 | SamAction::Fuko => None,
        }
    }

    /// Returns the base time the action takes to cast.
    pub fn cast(&self) -> (r: ScaleTime)
        ensures
            r == spec_sam_cast(*self),
    {
        match self {
            SamAction::Hakaze | SamAction::Jinpu | SamAction::Shifu | SamAction::Yukikaze | SamAction::Gekko | SamAction::Kasha | SamAction::Fuga | SamAction::Mangetsu | SamAction::Oka | SamAction::Enpi | SamAction::Shinten | SamAction::Kyuten | SamAction::Gyoten | SamAction::Yaten | SamAction::Hagakure | SamAction::Guren | SamAction::Meikyo | SamAction::Senei | SamAction::Ikishoten | SamAction::Shoha | SamAction::Shoha2 | SamAction::Fuko | SamAction::KaeshiHiganbana | SamAction::KaeshiGoken | SamAction::KaeshiSetsugekka | SamAction::KaeshiNamikiri => ScaleTime::zero(),
            SamAction::Namikiri | SamAction::Higanbana | SamAction::TenkaGoken | SamAction::Midare => ScaleTime::skill(1300),
        }
    }

    /// Returns the human friendly name of the action.
    pub fn name(&self) -> (r: &'static str)
        ensures
            r@ == spec_sam_name(*self),
    {
        proof {
            reveal_strlit("Hakaze");
            reveal_strlit("Jinpu");
            reveal_strlit("Shifu");
            reveal_strlit("Yukikaze");
            reveal_strlit("Gekko");
            reveal_strlit("Kasha");
            reveal_strlit("Fuga");
            reveal_strlit("Mangetsu");
            reveal_strlit("Oka");
            reveal_strlit("Enpi");
            reveal_strlit("Hissatsu: Shinten");
            reveal_strlit("Hissatsu: Kyuten");
            reveal_strlit("Hissatsu: Gyoten");
            reveal_strlit("Hissatsu: Yaten");
            reveal_strlit("Hagakure");
            reveal_strlit("Hissatsu: Guren");
            reveal_strlit("Meikyo Shisui");
            reveal_strlit("Hissatsu: Senei");
            reveal_strlit("Ikishoten");
            reveal_strlit("Shoha");
            reveal_strlit("Shoha II");
            reveal_strlit("Fuko");
            reveal_strlit("Ogi Namikiri");
            reveal_strlit("Higanbana");
            reveal_strlit("Tenka Goken");
            reveal_strlit("Midare Setsugekka");
            reveal_strlit("Kaeshi: Higanbana");
            reveal_strlit("Kaeshi: Goken");
            reveal_strlit("Kaeshi: Setsugekka");
            reveal_strlit("Kaeshi: Namikiri");
        }
        match self {
            SamAction::Hakaze => "Hakaze",
            SamAction::Jinpu => "Jinpu",
            SamAction::Shifu => "Shifu",
            SamAction::Yukikaze => "Yukikaze",
            SamAction::Gekko => "Gekko",
            SamAction::Kasha => "Kasha",
            SamAction::Fuga => "Fuga",
            SamAction::Mangetsu => "Mangetsu",
            SamAction::Oka => "Oka",
            SamAction::Enpi => "Enpi",
            SamAction::Shinten => "Hissatsu: Shinten",
            SamAction::Kyuten => "Hissatsu: Kyuten",
            SamAction::Gyoten => "Hissatsu: Gyoten",
            SamAction::Yaten => "Hissatsu: Yaten",
            SamAction::Hagakure => "Hagakure",
            SamAction::Guren => "Hissatsu: Guren",
            SamAction::Meikyo => "Meikyo Shisui",
            SamAction::Senei => "Hissatsu: Senei",
            SamAction::Ikishoten => "Ikishoten",
            SamAction::Shoha => "Shoha",
            SamAction::Shoha2 => "Shoha II",
            SamAction::Fuko => "Fuko",
            SamAction::Namikiri => "Ogi Namikiri",
            SamAction::Higanbana => "Higanbana",
            SamAction::TenkaGoken => "Tenka Goken",
            SamAction::Midare => "Midare Setsugekka",
            SamAction::KaeshiHiganbana => "Kaeshi: Higanbana",
            SamAction::KaeshiGoken => "Kaeshi: Goken",
            SamAction::KaeshiSetsugekka => "Kaeshi: Setsugekka",
            SamAction::KaeshiNamikiri => "Kaeshi: Namikiri",
        }
    }

    /// Returns the cooldown of the action in milliseconds.
    pub fn cooldown(&self) -> (r: u32)
        ensures
            r == spec_sam_cooldown(*self),
    {
        match self {
            SamAction::Hakaze | SamAction::Jinpu | SamAction::Shifu | SamAction::Yukikaze | SamAction::Gekko | SamAction::Kasha | SamAction::Fuga | SamAction::Mangetsu | SamAction::Oka | SamAction::Enpi | SamAction::Fuko | SamAction::Namikiri | SamAction::Higanbana | SamAction::TenkaGoken | SamAction::Midare | SamAction::KaeshiNamikiri => 0,
            SamAction::Shinten | SamAction::Kyuten => 1000,
            SamAction::Gyoten | SamAction::Yaten => 10000,
            SamAction::Hagakure => 5000,
            SamAction::Guren | SamAction::Senei | SamAction::Ikishoten => 120000,
            SamAction::Meikyo => 55000,
            SamAction::Shoha | SamAction::Shoha2 => 15000,
            SamAction::KaeshiHiganbana | SamAction::KaeshiGoken | SamAction::KaeshiSetsugekka => 60000,
        }
    }

    /// Returns the number of charges the action has, or `1` if it is a single charge action.
    pub fn cd_charges(&self) -> (r: u8)
        ensures
            r == spec_sam_cd_charges(*self),
    {
        match self {
            SamAction::Hakaze | SamAction::Jinpu | SamAction::Shifu | SamAction::Yukikaze | SamAction::Gekko | SamAction::Kasha | SamAction::Fuga | SamAction::Mangetsu | SamAction::Oka | SamAction::Enpi | SamAction::Shinten | SamAction::Kyuten | SamAction::Gyoten | SamAction::Yaten | SamAction::Hagakure | SamAction::Guren | SamAction::Senei | SamAction::Ikishoten | SamAction::Shoha | SamAction::Shoha2 | SamAction::Fuko | SamAction::Namikiri | SamAction::Higanbana | SamAction::TenkaGoken | SamAction::Midare | SamAction::KaeshiNamikiri => 1,
            SamAction::Meikyo | SamAction::KaeshiHiganbana | SamAction::KaeshiGoken | SamAction::KaeshiSetsugekka => 2,
        }
    }

    /// Returns the delay in milliseconds for the damage and statuses to be applied.
    pub fn effect_delay(&self) -> (r: u32)
        ensures
            r == spec_sam_effect_delay(*self),
    {
        match self {
            SamAction::Hakaze | SamAction::Jinpu | SamAction::Shifu | SamAction::Yukikaze | SamAction::Gekko | SamAction::Kasha | SamAction::Fuga | SamAction::Mangetsu | SamAction::Oka | SamAction::Enpi | SamAction::Shinten | SamAction::Kyuten | SamAction::Gyoten | SamAction::Yaten | SamAction::Hagakure | SamAction::Guren | SamAction::Meikyo | SamAction::Senei | SamAction::Ikishoten | SamAction::Shoha | SamAction::Shoha2 | SamAction::Fuko | SamAction::Namikiri | SamAction::Higanbana | SamAction::TenkaGoken | SamAction::Midare | SamAction::KaeshiHiganbana | SamAction::KaeshiGoken | SamAction::KaeshiSetsugekka | SamAction::KaeshiNamikiri => 0,
        }
    }

    /// Returns the category of the action.
    pub fn category(&self) -> (r: ActionCategory)
        ensures
            r == spec_sam_category(*self),
    {
        match self {
            SamAction::Hakaze | SamAction::Jinpu | SamAction::Shifu | SamAction::Yukikaze | SamAction::Gekko | SamAction::Kasha | SamAction::Fuga | SamAction::Mangetsu | SamAction::Oka | SamAction::Enpi | SamAction::Namikiri | SamAction::Higanbana | SamAction::TenkaGoken | SamAction::Midare | SamAction::KaeshiHiganbana | SamAction::KaeshiGoken | SamAction::KaeshiSetsugekka | SamAction::KaeshiNamikiri => ActionCategory::Weaponskill,
            SamAction::Shinten | SamAction::Kyuten | SamAction::Gyoten | SamAction::Yaten | SamAction::Hagakure | SamAction::Guren | SamAction::Meikyo | SamAction::Senei | SamAction::Ikishoten | SamAction::Shoha | SamAction::Shoha2 | SamAction::Fuko => ActionCategory::Ability,
        }
    }

    /// Returns the Kenki cost of the action.
    pub fn kenki_cost(&self) -> (r: u8)
        ensures
            r == spec_sam_kenki_cost(*self),
    {
        match self {
            SamAction::Hakaze | SamAction::Jinpu | SamAction::Shifu | SamAction::Yukikaze | SamAction::Gekko | SamAction::Kasha | SamAction::Fuga | SamAction::Mangetsu | SamAction::Oka | SamAction::Enpi | SamAction::Hagakure | SamAction::Meikyo | SamAction::Ikishoten | SamAction::Shoha | SamAction::Shoha2 | SamAction::Fuko | SamAction::Namikiri | SamAction::Higanbana | SamAction::TenkaGoken | SamAction::Midare | SamAction::KaeshiHiganbana | SamAction::KaeshiGoken | SamAction::KaeshiSetsugekka | SamAction::KaeshiNamikiri => 0,
            SamAction::Shinten | SamAction::Kyuten | SamAction::Guren | SamAction::Senei => 25,
            SamAction::Gyoten | SamAction::Yaten => 10,
        }
    }

    /// Returns the number of Sen needed to perform the iaijutsu, or `None` if the action is not one.
    pub fn sen_cost(&self) -> (r: Option<u8>)
        ensures
            r == spec_sam_sen_cost(*self),
    {
        match self {
            SamAction::Hakaze | SamAction::Jinpu | SamAction::Shifu | SamAction::Yukikaze | SamAction::Gekko | SamAction::Kasha | SamAction::Fuga | SamAction::Mangetsu | SamAction::Oka | SamAction::Enpi | SamAction::Shinten | SamAction::Kyuten | SamAction::Gyoten | SamAction::Yaten | SamAction::Hagakure | SamAction::Guren | SamAction::Meikyo | SamAction::Senei | SamAction::Ikishoten | SamAction::Shoha | SamAction::Shoha2 | SamAction::Fuko | SamAction::Namikiri | SamAction::KaeshiHiganbana | SamAction::KaeshiGoken | SamAction::KaeshiSetsugekka | SamAction::KaeshiNamikiri => None,
            SamAction::Higanbana => Some(1),
            SamAction::TenkaGoken => Some(2),
            SamAction::Midare => Some(3),
        }
    }

    /// Returns the cooldown group this action is part of, or `None` if the
    /// action has no cooldown group.
    pub fn cd_group(&self) -> (r: Option<SamCdGroup>)
        ensures
            r == spec_sam_cd_group(*self),
    {
        match self {
            SamAction::Shinten => Some(SamCdGroup::Shinten),
            SamAction::Kyuten => Some(SamCdGroup::Kyuten),
            SamAction::Gyoten => Some(SamCdGroup::Gyoten),
            SamAction::Yaten => Some(SamCdGroup::Yaten),
            SamAction::Hagakure => Some(SamCdGroup::Hagakure),
            SamAction::Senei | SamAction::Guren => Some(SamCdGroup::Senei),
            SamAction::Ikishoten => Some(SamCdGroup::Ikishoten),
            SamAction::Meikyo => Some(SamCdGroup::Meikyo),
            SamAction::Shoha | SamAction::Shoha2 => Some(SamCdGroup::Shoha),
            SamAction::KaeshiHiganbana | SamAction::KaeshiGoken | SamAction::KaeshiSetsugekka => Some(SamCdGroup::Tsubame),
            _ => None,
        }
    }
}

/// The cooldown group an action is part of.
pub open spec fn spec_sam_cd_group(a: SamAction) -> Option<SamCdGroup> {
    match a {
        SamAction::Shinten => Some(SamCdGroup::Shinten),
        SamAction::Kyuten => Some(SamCdGroup::Kyuten),
        SamAction::Gyoten => Some(SamCdGroup::Gyoten),
        SamAction::Yaten => Some(SamCdGroup::Yaten),
        SamAction::Hagakure => Some(SamCdGroup::Hagakure),
        SamAction::Senei | SamAction::Guren => Some(SamCdGroup::Senei),
        SamAction::Ikishoten => Some(SamCdGroup::Ikishoten),
        SamAction::Meikyo => Some(SamCdGroup::Meikyo),
        SamAction::Shoha | SamAction::Shoha2 => Some(SamCdGroup::Shoha),
        SamAction::KaeshiHiganbana | SamAction::KaeshiGoken | SamAction::KaeshiSetsugekka => Some(SamCdGroup::Tsubame),
        _ => None,
    }
}

/// The various cooldown groups an action can be part of.
#[derive(Clone, Copy, Debug, PartialEq, Eq, Hash, Structural)]
pub enum SamCdGroup {
    /// The cooldown group for Shinten.
    Shinten,
    /// The cooldown group for Kyuten.
    Kyuten,
    /// The cooldown group for Gyoten.
    Gyoten,
    /// The cooldown group for Yaten.
    Yaten,
    /// The cooldown group for Hagakure.
    Hagakure,
    /// The cooldown group for Guren and Senei.
    Senei,
    /// The cooldown group for Ikishoten.
    Ikishoten,
    /// The cooldown group for Meikyo Shisui.
    Meikyo,
    /// The cooldown group for Shoha and Shoha II.
    Shoha,
    /// The cooldown group for Tsubame-gaeshi.
    Tsubame,
}

/// The active cooldowns of the cooldown groups.
#[derive(Clone, Copy, Debug, Default)]
pub struct SamCds {
    shinten: ActionCd,
    kyuten: ActionCd,
    gyoten: ActionCd,
    yaten: ActionCd,
    hagakure: ActionCd,
    senei: ActionCd,
    ikishoten: ActionCd,
    meikyo: ActionCd,
    shoha: ActionCd,
    tsubame: ActionCd,
}

impl SamCds {
    /// The time left on the cooldown of a group, counting every used charge.
    pub closed spec fn spec_cd(&self, group: SamCdGroup) -> u32 {
        match group {
            SamCdGroup::Shinten => self.shinten@,
            SamCdGroup::Kyuten => self.kyuten@,
            SamCdGroup::Gyoten => self.gyoten@,
            SamCdGroup::Yaten => self.yaten@,
            SamCdGroup::Hagakure => self.hagakure@,
            SamCdGroup::Senei => self.senei@,
            SamCdGroup::Ikishoten => self.ikishoten@,
            SamCdGroup::Meikyo => self.meikyo@,
            SamCdGroup::Shoha => self.shoha@,
            SamCdGroup::Tsubame => self.tsubame@,
        }
    }

    /// Creates the cooldowns with every group off cooldown.
    pub fn new() -> (r: Self)
        ensures
            forall|g: SamCdGroup| #[trigger] r.spec_cd(g) == 0,
    {
        SamCds {
            shinten: ActionCd::new(),
            kyuten: ActionCd::new(),
            gyoten: ActionCd::new(),
            yaten: ActionCd::new(),
            hagakure: ActionCd::new(),
            senei: ActionCd::new(),
            ikishoten: ActionCd::new(),
            meikyo: ActionCd::new(),
            shoha: ActionCd::new(),
            tsubame: ActionCd::new(),
        }
    }

    /// Applies a cooldown to the specified cooldown group.
    pub fn apply(&mut self, cdg: SamCdGroup, cooldown: u32, charges: u8)
        requires
            old(self).spec_cd(cdg) + cooldown <= u32::MAX,
            cooldown * charges <= u32::MAX,
        ensures
            final(self).spec_cd(cdg) == (if old(self).spec_cd(cdg) + cooldown <= cooldown * charges {
                old(self).spec_cd(cdg) + cooldown
            } else {
                cooldown * charges
            }),
            forall|g: SamCdGroup| g != cdg ==> #[trigger] final(self).spec_cd(g) == old(self).spec_cd(g),
    {
        match cdg {
            SamCdGroup::Shinten => self.shinten.apply(cooldown, charges),
            SamCdGroup::Kyuten => self.kyuten.apply(cooldown, charges),
            SamCdGroup::Gyoten => self.gyoten.apply(cooldown, charges),
            SamCdGroup::Yaten => self.yaten.apply(cooldown, charges),
            SamCdGroup::Hagakure => self.hagakure.apply(cooldown, charges),
            SamCdGroup::Senei => self.senei.apply(cooldown, charges),
            SamCdGroup::Ikishoten => self.ikishoten.apply(cooldown, charges),
            SamCdGroup::Meikyo => self.meikyo.apply(cooldown, charges),
            SamCdGroup::Shoha => self.shoha.apply(cooldown, charges),
            SamCdGroup::Tsubame => self.tsubame.apply(cooldown, charges),
        }
    }

    /// Checks if the specified cooldown group is available.
    pub fn available(&self, cdg: SamCdGroup, cooldown: u32, charges: u8) -> (r: bool)
        requires
            charges >= 1,
            cooldown * (charges - 1) <= u32::MAX,
        ensures
            r == (spec_cd_until(self.spec_cd(cdg), cooldown, charges) == 0),
    {
        match cdg {
            SamCdGroup::Shinten => self.shinten.available(cooldown, charges),
            SamCdGroup::Kyuten => self.kyuten.available(cooldown, charges),
            SamCdGroup::Gyoten => self.gyoten.available(cooldown, charges),
            SamCdGroup::Yaten => self.yaten.available(cooldown, charges),
            SamCdGroup::Hagakure => self.hagakure.available(cooldown, charges),
            SamCdGroup::Senei => self.senei.available(cooldown, charges),
            SamCdGroup::Ikishoten => self.ikishoten.available(cooldown, charges),
            SamCdGroup::Meikyo => self.meikyo.available(cooldown, charges),
            SamCdGroup::Shoha => self.shoha.available(cooldown, charges),
            SamCdGroup::Tsubame => self.tsubame.available(cooldown, charges),
        }
    }

    /// Advances the cooldowns forward by a certain amount of time.
    pub fn advance(&mut self, time: u32)
        ensures
            forall|g: SamCdGroup| #[trigger] final(self).spec_cd(g) == (if old(self).spec_cd(g) >= time {
                old(self).spec_cd(g) - time
            } else {
                0
            }),
    {
        self.shinten.advance(time);
        self.kyuten.advance(time);
        self.gyoten.advance(time);
        self.yaten.advance(time);
        self.hagakure.advance(time);
        self.senei.advance(time);
        self.ikishoten.advance(time);
        self.meikyo.advance(time);
        self.shoha.advance(time);
        self.tsubame.advance(time);
    }

    /// Gets the cooldown until the specified cooldown group can be used.
    pub fn cd_until(&self, group: SamCdGroup, cooldown: u32, charges: u8) -> (r: u32)
        requires
            charges >= 1,
            cooldown * (charges - 1) <= u32::MAX,
        ensures
            r == spec_cd_until(self.spec_cd(group), cooldown, charges),
    {
        match group {
            SamCdGroup::Shinten => self.shinten.cd_until(cooldown, charges),
            SamCdGroup::Kyuten => self.kyuten.cd_until(cooldown, charges),
            SamCdGroup::Gyoten => self.gyoten.cd_until(cooldown, charges),
            SamCdGroup::Yaten => self.yaten.cd_until(cooldown, charges),
            SamCdGroup::Hagakure => self.hagakure.cd_until(cooldown, charges),
            SamCdGroup::Senei => self.senei.cd_until(cooldown, charges),
            SamCdGroup::Ikishoten => self.ikishoten.cd_until(cooldown, charges),
            SamCdGroup::Meikyo => self.meikyo.cd_until(cooldown, charges),
            SamCdGroup::Shoha => self.shoha.cd_until(cooldown, charges),
            SamCdGroup::Tsubame => self.tsubame.cd_until(cooldown, charges),
        }
    }
}

/// The status effect "Fugetsu": outgoing damage is multiplied by `113 / 100`.
pub open spec fn spec_fugetsu() -> StatusEffect {
    StatusEffect {
        id: 101,
        vtable: StatusVTable {
            name: "Fugetsu",
            permanent: false,
            damage: ValueModifier {
                incoming: None,
                outgoing: Some(DamageMod { base: 113, per_stack: 0, div: 100 }),
            },
            crit: ValueModifier { incoming: None, outgoing: None },
            dhit: ValueModifier { incoming: None, outgoing: None },
            haste: None,
            stats: None,
            duration: 40000,
        },
    }
}

/// The status effect "Fuka": a haste of `87 / 100`.
pub open spec fn spec_fuka() -> StatusEffect {
    StatusEffect {
        id: 102,
        vtable: StatusVTable {
            name: "Fuka",
            permanent: false,
            damage: ValueModifier { incoming: None, outgoing: None },
            crit: ValueModifier { incoming: None, outgoing: None },
            dhit: ValueModifier { incoming: None, outgoing: None },
            haste: Some(HasteMod::Flat(87)),
            stats: None,
            duration: 40000,
        },
    }
}

/// The status effect "Ogi Namikiri Ready".
pub open spec fn spec_ogi_ready() -> StatusEffect {
    spec_plain_status(103, "Ogi Namikiri Ready", 30000)
}

/// The status effect "Meikyo Shisui".
pub open spec fn spec_meikyo() -> StatusEffect {
    spec_plain_status(104, "Meikyo Shisui", 15000)
}

/// The status effect "Enhanced Enpi".
pub open spec fn spec_enenpi() -> StatusEffect {
    spec_plain_status(105, "Enhanced Enpi", 15000)
}

/// The damage over time effect "Higanbana".
pub open spec fn spec_higanbana() -> StatusEffect {
    spec_plain_status(106, "Higanbana", 60000)
}

/// Returns the status effect "Fugetsu".
pub fn fugetsu() -> (r: StatusEffect)
    ensures
        r == spec_fugetsu(),
{
    StatusEffect::new(
        101,
        StatusVTable {
            name: "Fugetsu",
            permanent: false,
            damage: ValueModifier::outgoing(DamageMod { base: 113, per_stack: 0, div: 100 }),
            crit: ValueModifier::empty(),
            dhit: ValueModifier::empty(),
            haste: None,
            stats: None,
            duration: 40000,
        },
    )
}

/// Returns the status effect "Fuka".
pub fn fuka() -> (r: StatusEffect)
    ensures
        r == spec_fuka(),
{
    StatusEffect::new(
        102,
        StatusVTable {
            name: "Fuka",
            permanent: false,
            damage: ValueModifier::empty(),
            crit: ValueModifier::empty(),
            dhit: ValueModifier::empty(),
            haste: Some(HasteMod::Flat(87)),
            stats: None,
            duration: 40000,
        },
    )
}

/// Returns the status effect "Ogi Namikiri Ready".
pub fn ogi_ready() -> (r: StatusEffect)
    ensures
        r == spec_ogi_ready(),
{
    plain_status(103, "Ogi Namikiri Ready", 30000)
}

/// Returns the status effect "Meikyo Shisui".
pub fn meikyo() -> (r: StatusEffect)
    ensures
        r == spec_meikyo(),
{
    plain_status(104, "Meikyo Shisui", 15000)
}

/// Returns the status effect "Enhanced Enpi".
pub fn enenpi() -> (r: StatusEffect)
    ensures
        r == spec_enenpi(),
{
    plain_status(105, "Enhanced Enpi", 15000)
}

/// Returns the damage over time effect "Higanbana".
pub fn higanbana() -> (r: StatusEffect)
    ensures
        r == spec_higanbana(),
{
    plain_status(106, "Higanbana", 60000)
}

/// A custom error for Samurai actions.
#[derive(Clone, Copy, Debug, PartialEq, Eq, Structural)]
pub enum SamError {
    /// Not executed following the specified iaijutsu.
    Kaeshi(SamAction),
    /// Not enough Kenki gauge.
    Kenki(u8),
    /// Incorrect number of Sen for the iaijutsu.
    IaiSen(u8),
    /// No Sen for Hagakure.
    HagaSen,
    /// Not enough stacks of Meditation.
    Meditation,
    /// Not under the effect Ogi Namikiri Ready.
    OgiRdy,
}

/// The operation that submits a Samurai error.
pub open spec fn sam_error_op(e: SamError) -> SinkOp {
    error_op(EventError::Job(job::CastError::Sam(e)))
}

impl SamError {
    /// Submits the cast error.
    pub fn submit(self, ops: &mut Vec<SinkOp>)
        ensures
            final(ops)@ == old(ops)@.push(sam_error_op(self)),
    {
        ops.push(SinkOp::Error { error: EventError::Job(job::CastError::Sam(self)) });
    }
}

/// The possible states the main combo can be in.
#[derive(Clone, Copy, Debug, PartialEq, Eq, Structural)]
pub enum MainCombo {
    /// Combo Action: Hakaze is met.
    Hakaze,
    /// Combo Action: Shifu is met.
    Shifu,
    /// Combo Action: Jinpu is met.
    Jinpu,
    /// Combo Action: Fuko is met.
    Fuko,
}

impl ComboStage for MainCombo {
    fn same(&self, other: &Self) -> (r: bool) {
        *self == *other
    }
}

/// The possible states the Tsubame-gaeshi combo can be in.
#[derive(Clone, Copy, Debug, PartialEq, Eq, Structural)]
pub enum KaeshiCombo {
    /// Able to cast Kaeshi: Higanbana.
    Higanbana,
    /// Able to cast Kaeshi: Goken.
    Goken,
    /// Able to cast Kaeshi: Setsugekka.
    Setsugekka,
    /// Able to cast Kaeshi: Namikiri.
    Namikiri,
}

impl ComboStage for KaeshiCombo {
    fn same(&self, other: &Self) -> (r: bool) {
        *self == *other
    }
}

/// The combos for Samurai.
#[derive(Clone, Copy, Debug, Default)]
pub struct SamCombos {
    /// The main combo: the Kasha, Gekko, Yukikaze, Mangetsu and Oka combos.
    pub main: ComboState<MainCombo>,
    /// The combo for Tsubame-gaeshi.
    pub kaeshi: ComboState<KaeshiCombo>,
}

/// The main combo stage an action needs, if it needs one.
pub open spec fn spec_main_needed(action: SamAction) -> Option<MainCombo> {
    match action {
        SamAction::Jinpu | SamAction::Shifu | SamAction::Yukikaze => Some(MainCombo::Hakaze),
        SamAction::Kasha => Some(MainCombo::Shifu),
        SamAction::Gekko => Some(MainCombo::Jinpu),
        SamAction::Mangetsu | SamAction::Oka => Some(MainCombo::Fuko),
        _ => None,
    }
}

/// The Tsubame-gaeshi combo stage an action needs, if it needs one.
pub open spec fn spec_kaeshi_needed(action: SamAction) -> Option<KaeshiCombo> {
    match action {
        SamAction::KaeshiHiganbana => Some(KaeshiCombo::Higanbana),
        SamAction::KaeshiGoken => Some(KaeshiCombo::Goken),
        SamAction::KaeshiSetsugekka => Some(KaeshiCombo::Setsugekka),
        SamAction::KaeshiNamikiri => Some(KaeshiCombo::Namikiri),
        _ => None,
    }
}

impl SamCombos {
    /// Checks that the main combo prerequisite is met for a certain action.
    pub fn check_main_for(&self, action: SamAction) -> (r: bool)
        ensures
            r == match spec_main_needed(action) {
                Some(c) => combo_at(self.main.combo, c),
                None => true,
            },
    {
        let c = match action {
            SamAction::Jinpu | SamAction::Shifu | SamAction::Yukikaze => MainCombo::Hakaze,
            SamAction::Kasha => MainCombo::Shifu,
            SamAction::Gekko => MainCombo::Jinpu,
            SamAction::Mangetsu | SamAction::Oka => MainCombo::Fuko,
            _ => return true,
        };
        self.main.check(c)
    }

    /// Checks that the Tsubame-gaeshi combo prerequisite is met for a certain action.
    pub fn check_kaeshi_for(&self, action: SamAction) -> (r: bool)
        ensures
            r == match spec_kaeshi_needed(action) {
                Some(c) => combo_at(self.kaeshi.combo, c),
                None => true,
            },
    {
        let c = match action {
            SamAction::KaeshiHiganbana => KaeshiCombo::Higanbana,
            SamAction::KaeshiGoken => KaeshiCombo::Goken,
            SamAction::KaeshiSetsugekka => KaeshiCombo::Setsugekka,
            SamAction::KaeshiNamikiri => KaeshiCombo::Namikiri,
            _ => return true,
        };
        self.kaeshi.check(c)
    }

    /// Advances the combos forward by a certain amount of time.
    pub fn advance(&mut self, time: u32)
        ensures
            final(self).main.combo == combo_advanced(old(self).main.combo, time),
            final(self).kaeshi.combo == combo_advanced(old(self).kaeshi.combo, time),
    {
        self.main.advance(time);
        self.kaeshi.advance(time);
    }
}

/// The Sen gauge.
#[derive(Clone, Copy, Debug, Default)]
pub struct Sen {
    bits: u8,
}

impl View for Sen {
    type V = u8;

    /// The Sen held: bit `0` for Setsu, bit `1` for Getsu and bit `2` for Ka.
    closed spec fn view(&self) -> u8 {
        self.bits
    }
}

impl Sen {
    /// Grants Setsu.
    pub fn grant_setsu(&mut self)
        ensures
            final(self)@ == old(self)@ | 1,
    {
        self.bits = self.bits | 1;
    }

    /// Grants Getsu.
    pub fn grant_getsu(&mut self)
        ensures
            final(self)@ == old(self)@ | 2,
    {
        self.bits = self.bits | 2;
    }

    /// Grants Ka.
    pub fn grant_ka(&mut self)
        ensures
            final(self)@ == old(self)@ | 4,
    {
        self.bits = self.bits | 4;
    }

    /// Returns the number of Sen present.
    pub fn count(&self) -> (r: u8)
        ensures
            r == spec_count_ones(self@),
    {
        count_ones(self.bits)
    }

    /// Clears the Sen gauge.
    pub fn clear(&mut self)
        ensures
            final(self)@ == 0,
    {
        self.bits = 0;
    }
}

/// The Sen a gauge holds after the calls `ops`, from an empty gauge: `0` stands
/// for [`Sen::clear`], and `1`, `2` and `4` for the grants of Setsu, Getsu and Ka,
/// which set that bit of the gauge.
pub open spec fn spec_sen_run(ops: Seq<u8>) -> u8
    decreases ops.len(),
{
    if ops.len() == 0 {
        0
    } else if ops.last() == 0 {
        0
    } else {
        spec_sen_run(ops.drop_last()) | ops.last()
    }
}

/// The grants among `ops` since the last clear.
pub open spec fn since_clear(ops: Seq<u8>) -> Seq<u8>
    decreases ops.len(),
{
    if ops.len() == 0 {
        Seq::empty()
    } else if ops.last() == 0 {
        Seq::empty()
    } else {
        since_clear(ops.drop_last()).push(ops.last())
    }
}

/// The gauge after a run of calls holds the grants since the last clear.
proof fn lemma_sen_run(ops: Seq<u8>)
    requires
        forall|i: int| 0 <= i < ops.len() ==> ops[i] == 0 || is_sen_kind(#[trigger] ops[i]),
    ensures
        spec_sen_run(ops) == spec_sen_after(since_clear(ops)),
        forall|i: int| 0 <= i < since_clear(ops).len() ==> is_sen_kind(#[trigger] since_clear(ops)[i]),
    decreases ops.len(),
{
    if ops.len() > 0 {
        let rest = ops.drop_last();
        assert forall|i: int| 0 <= i < rest.len() implies rest[i] == 0 || is_sen_kind(#[trigger] rest[i]) by {
            assert(rest[i] == ops[i]);
        }
        lemma_sen_run(rest);
        assert(ops.last() == ops[ops.len() - 1]);
        if ops.last() != 0 {
            let k = since_clear(rest).push(ops.last());
            assert(k.drop_last() =~= since_clear(rest));
            assert forall|i: int| 0 <= i < k.len() implies is_sen_kind(#[trigger] k[i]) by {
                if i < k.len() - 1 {
                    assert(k[i] == since_clear(rest)[i]);
                }
            }
        }
    }
}

/// Over any run of grants and clears, the count of Sen is the number of kinds of
/// Sen granted since the last clear (or since the gauge was empty): granting a
/// kind twice counts once, a clear brings the count to `0`, and it is at most `3`.
pub proof fn lemma_sen_count_run(ops: Seq<u8>)
    requires
        forall|i: int| 0 <= i < ops.len() ==> ops[i] == 0 || is_sen_kind(#[trigger] ops[i]),
    ensures
        spec_count_ones(spec_sen_run(ops)) == held(since_clear(ops), 1) + held(since_clear(ops), 2)
            + held(since_clear(ops), 4),
        spec_count_ones(spec_sen_run(ops)) <= 3,
        ops.len() > 0 && ops.last() == 0 ==> spec_count_ones(spec_sen_run(ops)) == 0,
{
    lemma_sen_run(ops);
    lemma_sen_count(since_clear(ops));
}

/// The cooldowns of all charges but one of an action fit in a minute.
proof fn lemma_sam_cd_fits(a: SamAction)
    ensures
        spec_sam_cooldown(a) * (spec_sam_cd_charges(a) - 1) <= 60000,
{
    let c = spec_sam_cooldown(a) as int;
    let n = spec_sam_cd_charges(a) as int;
    assert(n == 1 || (n == 2 && 0 <= c <= 60000));
    assert(c * (n - 1) <= 60000) by (nonlinear_arith)
        requires
            n == 1 || (n == 2 && 0 <= c <= 60000),
    ;
}

/// The Sen an empty gauge holds after the kinds `kinds` are granted in order:
/// `1` for Setsu, `2` for Getsu and `4` for Ka.
pub open spec fn spec_sen_after(kinds: Seq<u8>) -> u8
    decreases kinds.len(),
{
    if kinds.len() == 0 {
        0
    } else {
        spec_sen_after(kinds.drop_last()) | kinds.last()
    }
}

/// `true` for the three kinds of Sen.
pub open spec fn is_sen_kind(k: u8) -> bool {
    k == 1 || k == 2 || k == 4
}

/// `1` when `kinds` holds the kind `k`, `0` otherwise.
pub open spec fn held(kinds: Seq<u8>, k: u8) -> int {
    if kinds.contains(k) {
        1
    } else {
        0
    }
}

/// Granting the kinds of Sen in order leaves each kind's bit set exactly when it
/// was granted.
proof fn lemma_sen_bits(kinds: Seq<u8>)
    requires
        forall|i: int| 0 <= i < kinds.len() ==> is_sen_kind(#[trigger] kinds[i]),
    ensures
        spec_sen_after(kinds) < 8,
        (spec_sen_after(kinds) & 1 != 0) == kinds.contains(1),
        (spec_sen_after(kinds) & 2 != 0) == kinds.contains(2),
        (spec_sen_after(kinds) & 4 != 0) == kinds.contains(4),
    decreases kinds.len(),
{
    if kinds.len() > 0 {
        let rest = kinds.drop_last();
        let k = kinds.last();
        lemma_sen_bits(rest);
        assert(is_sen_kind(kinds[kinds.len() - 1]));
        let b = spec_sen_after(rest);
        assert((b | k) < 8 && ((b | k) & 1 != 0) == (b & 1 != 0 || k == 1) && ((b | k) & 2 != 0) == (
        b & 2 != 0 || k == 2) && ((b | k) & 4 != 0) == (b & 4 != 0 || k == 4)) by (bit_vector)
            requires
                b < 8,
                k == 1 || k == 2 || k == 4,
        ;
        lemma_contains_last(kinds, 1);
        lemma_contains_last(kinds, 2);
        lemma_contains_last(kinds, 4);
    } else {
        assert(0u8 & 1 == 0 && 0u8 & 2 == 0 && 0u8 & 4 == 0) by (bit_vector);
    }
}

/// A sequence holds `j` when the sequence without its last item does, or its last
/// item is `j`.
proof fn lemma_contains_last(kinds: Seq<u8>, j: u8)
    requires
        kinds.len() > 0,
    ensures
        kinds.contains(j) == (kinds.drop_last().contains(j) || kinds.last() == j),
{
    let rest = kinds.drop_last();
    if kinds.contains(j) {
        let i = choose|i: int| 0 <= i < kinds.len() && kinds[i] == j;
        if i < kinds.len() - 1 {
            assert(rest[i] == j);
        }
    }
    if rest.contains(j) {
        let i = choose|i: int| 0 <= i < rest.len() && rest[i] == j;
        assert(kinds[i] == j);
    }
    if kinds.last() == j {
        assert(kinds[kinds.len() - 1] == j);
    }
}

/// The count of Sen is the number of kinds of Sen granted since the gauge was
/// empty: granting a kind twice counts once, and the count is at most `3`.
pub proof fn lemma_sen_count(kinds: Seq<u8>)
    requires
        forall|i: int| 0 <= i < kinds.len() ==> is_sen_kind(#[trigger] kinds[i]),
    ensures
        spec_count_ones(spec_sen_after(kinds)) == held(kinds, 1) + held(kinds, 2) + held(kinds, 4),
        spec_count_ones(spec_sen_after(kinds)) <= 3,
{
    lemma_sen_bits(kinds);
    let b = spec_sen_after(kinds);
    assert(b == 0 || b == 1 || b == 2 || b == 3 || b == 4 || b == 5 || b == 6 || b == 7);
    assert(0u8 & 1 == 0 && 0u8 & 2 == 0 && 0u8 & 4 == 0) by (bit_vector);
    assert(1u8 & 1 != 0 && 1u8 & 2 == 0 && 1u8 & 4 == 0) by (bit_vector);
    assert(2u8 & 1 == 0 && 2u8 & 2 != 0 && 2u8 & 4 == 0) by (bit_vector);
    assert(3u8 & 1 != 0 && 3u8 & 2 != 0 && 3u8 & 4 == 0) by (bit_vector);
    assert(4u8 & 1 == 0 && 4u8 & 2 == 0 && 4u8 & 4 != 0) by (bit_vector);
    assert(5u8 & 1 != 0 && 5u8 & 2 == 0 && 5u8 & 4 != 0) by (bit_vector);
    assert(6u8 & 1 == 0 && 6u8 & 2 != 0 && 6u8 & 4 != 0) by (bit_vector);
    assert(7u8 & 1 != 0 && 7u8 & 2 != 0 && 7u8 & 4 != 0) by (bit_vector);
    reveal_with_fuel(spec_count_ones, 4);
}

/// The state of the Samurai job gauges, cooldowns, and combos.
#[derive(Clone, Copy, Debug, Default)]
pub struct SamState {
    /// The cooldowns for Samurai actions.
    pub cds: SamCds,
    /// The combos for Samurai.
    pub combos: SamCombos,
    /// The Sen gauge.
    pub sen: Sen,
    /// The stacks of Meditation.
    pub meditation: GaugeU8<3>,
    /// The Kenki gauge.
    pub kenki: GaugeU8<100>,
}

/// The parts of the Samurai state that casting an action changes.
#[derive(Clone, Copy, Debug)]
pub struct SamGauges {
    /// The Kenki gauge.
    pub kenki: u8,
    /// The stacks of Meditation.
    pub meditation: u8,
    /// The Sen held.
    pub sen: u8,
    /// The main combo.
    pub main: Option<(MainCombo, u32)>,
    /// The Tsubame-gaeshi combo.
    pub kaeshi: Option<(KaeshiCombo, u32)>,
}

impl SamState {
    /// `true` for the state of a Samurai that has done nothing yet.
    pub open spec fn spec_is_new(&self) -> bool {
        &&& self.kenki@ == 0
        &&& self.meditation@ == 0
        &&& self.sen@ == 0
        &&& self.combos.main.combo is None
        &&& self.combos.kaeshi.combo is None
        &&& forall|g: SamCdGroup| #[trigger] self.cds.spec_cd(g) == 0
    }

    /// Creates the state of a Samurai that has done nothing yet: every gauge empty,
    /// no combo, and every cooldown group available.
    pub fn new() -> (r: Self)
        ensures
            r.spec_is_new(),
    {
        SamState {
            cds: SamCds::new(),
            combos: SamCombos { main: ComboState::new(), kaeshi: ComboState::new() },
            sen: Sen { bits: 0 },
            meditation: GaugeU8::new(),
            kenki: GaugeU8::new(),
        }
    }

    /// The parts of the state that casting an action changes.
    pub open spec fn gauges(&self) -> SamGauges {
        SamGauges {
            kenki: self.kenki@,
            meditation: self.meditation@,
            sen: self.sen@,
            main: self.combos.main.combo,
            kaeshi: self.combos.kaeshi.combo,
        }
    }
}

impl JobState for SamState {
    open spec fn spec_advanced(&self, time: u32, next: &Self) -> bool {
        &&& next.combos.main.combo == combo_advanced(self.combos.main.combo, time)
        &&& next.combos.kaeshi.combo == combo_advanced(self.combos.kaeshi.combo, time)
        &&& forall|g: SamCdGroup| #[trigger]
            next.cds.spec_cd(g) == (if self.cds.spec_cd(g) >= time {
                self.cds.spec_cd(g) - time
            } else {
                0
            })
        &&& next.sen == self.sen
        &&& next.meditation == self.meditation
        &&& next.kenki == self.kenki
    }

    fn advance(&mut self, time: u32) {
        self.combos.advance(time);
        self.cds.advance(time);
    }
}

impl JobAction for SamAction {
    open spec fn spec_category(&self) -> ActionCategory {
        spec_sam_category(*self)
    }

    open spec fn spec_gcd(&self) -> bool {
        spec_sam_gcd(*self) is Some
    }

    fn category(&self) -> (r: ActionCategory) {
        SamAction::category(self)
    }

    fn gcd(&self) -> (r: bool) {
        SamAction::gcd(self).is_some()
    }
}

/// A Samurai action as an action of the world.
pub open spec fn sam_action(ac: SamAction) -> Action {
    Action::Job(job::Action::Sam(ac))
}

/// A hit of `pot` slashing potency.
pub open spec fn sam_hit(pot: u64) -> DamageInstance {
    DamageInstance { ty: DamageType::Slashing, ..spec_damage(pot) }
}

/// A guaranteed critical direct hit of `pot` slashing potency.
pub open spec fn sam_hit_ch(pot: u64) -> DamageInstance {
    DamageInstance { force_crit: true, force_dhit: true, ..sam_hit(pot) }
}

/// Returns a hit of `pot` slashing potency.
fn hit(pot: u64) -> (r: DamageInstance)
    ensures
        r == sam_hit(pot),
{
    DamageInstance::new(pot).slashing()
}

/// Returns a guaranteed critical direct hit of `pot` slashing potency.
fn hit_ch(pot: u64) -> (r: DamageInstance)
    ensures
        r == sam_hit_ch(pot),
{
    DamageInstance::new(pot).slashing().force_crit().force_dhit()
}

/// The Kenki an action may add to the gauge.
pub open spec fn spec_sam_kenki_gain(ac: SamAction, sen: u8) -> int {
    match ac {
        SamAction::Hakaze | SamAction::Jinpu | SamAction::Shifu => 5,
        SamAction::Yukikaze => 15,
        SamAction::Gekko | SamAction::Kasha | SamAction::Fuga | SamAction::Fuko
        | SamAction::Mangetsu | SamAction::Oka | SamAction::Enpi => 10,
        SamAction::Hagakure => spec_count_ones(sen) * 10,
        SamAction::Ikishoten => 50,
        _ => 0,
    }
}

/// `true` if the action adds a stack of Meditation.
pub open spec fn spec_sam_meditates(ac: SamAction) -> bool {
    match ac {
        SamAction::Namikiri | SamAction::Higanbana | SamAction::TenkaGoken | SamAction::Midare
        | SamAction::KaeshiHiganbana | SamAction::KaeshiGoken | SamAction::KaeshiSetsugekka
        | SamAction::KaeshiNamikiri => true,
        _ => false,
    }
}

/// The operation that removes a stack of Meikyo Shisui from the caster, if it has it.
pub open spec fn meikyo_ops(ctx: CastContext) -> Seq<SinkOp> {
    if ctx.has_own(spec_meikyo()) {
        seq![status_op(StatusEvent::spec_remove_stacks(spec_meikyo(), 1, ctx.this, ctx.this), 0)]
    } else {
        Seq::empty()
    }
}

/// What casting a single target action of the main combo does, once it has a
/// target: `needed` is the combo stage it continues, `next` the stage it sets (if
/// any), `kenki` the Kenki it grants, `sen` the Sen bit it grants, `buff` the
/// status it grants on the combo, `on_meikyo` the status Meikyo Shisui grants,
/// and `pots` its potencies: alone, on its positional, on the combo, and on both.
pub open spec fn spec_combo_step(
    ac: SamAction,
    g: SamGauges,
    ctx: CastContext,
    needed: MainCombo,
    next: Option<MainCombo>,
    kenki: u8,
    sen: u8,
    buff: Option<StatusEffect>,
    on_meikyo: Option<StatusEffect>,
    pots: (u64, u64, u64, u64),
) -> (SamGauges, Seq<SinkOp>) {
    let me = ctx.this;
    let t = ctx.spec_targets()[0];
    let meik = ctx.has_own(spec_meikyo());
    let combo = meik || combo_at(g.main, needed);
    let pot = if combo && ctx.positional {
        pots.3
    } else if combo {
        pots.2
    } else if ctx.positional {
        pots.1
    } else {
        pots.0
    };
    let gauges = SamGauges {
        kenki: if combo {
            add_sat(g.kenki, kenki, 100)
        } else {
            g.kenki
        },
        sen: if combo {
            g.sen | sen
        } else {
            g.sen
        },
        main: if combo && next is Some {
            Some((next->0, 30000u32))
        } else {
            None
        },
        kaeshi: None,
        ..g
    };
    let buff_ops = if combo && buff is Some {
        seq![apply_op(buff->0, 1, me, me, 0)]
    } else {
        Seq::empty()
    };
    let meikyo_buff_ops = if meik && on_meikyo is Some {
        seq![apply_op(on_meikyo->0, 1, me, me, 0)]
    } else {
        Seq::empty()
    };
    (gauges, meikyo_ops(ctx) + buff_ops + meikyo_buff_ops + seq![damage_op(sam_action(ac), sam_hit(pot), t, 0)])
}

/// What casting a Samurai action does: the gauges it leaves and the operations it
/// asks of the event sink, in order.
pub open spec fn spec_sam_cast_snap(ac: SamAction, g: SamGauges, ctx: CastContext) -> (SamGauges, Seq<
    SinkOp,
>) {
    let me = ctx.this;
    let tg = ctx.spec_targets();
    let has_t = tg.len() > 0;
    let t = tg[0];
    let meik = ctx.has_own(spec_meikyo());
    let no_target = (g, seq![error_op(EventError::NoTarget)]);
    let a = sam_action(ac);
    let dmg1 = |pot: u64| damage_op(a, sam_hit(pot), t, 0);
    let dmg_ch1 = |pot: u64| damage_op(a, sam_hit_ch(pot), t, 0);
    let aoe = |pot: u64| aoe_ops(a, sam_hit(pot), sam_hit(pot), tg, 0, 45);
    let med = add_sat(g.meditation, 1, 3);
    match ac {
        SamAction::Hakaze => if !has_t {
            no_target
        } else {
            (
                SamGauges {
                    kenki: add_sat(g.kenki, 5, 100),
                    main: Some((MainCombo::Hakaze, 30000u32)),
                    kaeshi: None,
                    ..g
                },
                meikyo_ops(ctx) + seq![dmg1(200)],
            )
        },
        SamAction::Jinpu => if !has_t {
            no_target
        } else {
            spec_combo_step(
                ac,
                g,
                ctx,
                MainCombo::Hakaze,
                Some(MainCombo::Jinpu),
                5,
                0,
                Some(spec_fugetsu()),
                None,
                (120, 120, 280, 280),
            )
        },
        SamAction::Shifu => if !has_t {
            no_target
        } else {
            spec_combo_step(
                ac,
                g,
                ctx,
                MainCombo::Hakaze,
                Some(MainCombo::Shifu),
                5,
                0,
                Some(spec_fuka()),
                None,
                (120, 120, 280, 280),
            )
        },
        SamAction::Yukikaze => if !has_t {
            no_target
        } else {
            spec_combo_step(
                ac,
                g,
                ctx,
                MainCombo::Hakaze,
                None,
                15,
                1,
                None,
                None,
                (120, 120, 300, 300),
            )
        },
        SamAction::Gekko => if !has_t {
            no_target
        } else {
            spec_combo_step(
                ac,
                g,
                ctx,
                MainCombo::Jinpu,
                None,
                10,
                2,
                None,
                Some(spec_fugetsu()),
                (120, 170, 330, 380),
            )
        },
        SamAction::Kasha => if !has_t {
            no_target
        } else {
            spec_combo_step(
                ac,
                g,
                ctx,
                MainCombo::Shifu,
                None,
                10,
                4,
                None,
                Some(spec_fuka()),
                (120, 170, 330, 380),
            )
        },
        SamAction::Fuga | SamAction::Fuko => (
            SamGauges {
                kenki: if has_t {
                    add_sat(g.kenki, 10, 100)
                } else {
                    g.kenki
                },
                main: if has_t {
                    Some((MainCombo::Fuko, 30000u32))
                } else {
                    None
                },
                kaeshi: None,
                ..g
            },
            meikyo_ops(ctx) + aoe(100),
        ),
        SamAction::Mangetsu | SamAction::Oka => {
            let combo = meik || combo_at(g.main, MainCombo::Fuko);
            (
                SamGauges {
                    kenki: if combo {
                        add_sat(g.kenki, 10, 100)
                    } else {
                        g.kenki
                    },
                    sen: if combo {
                        g.sen | (if ac == SamAction::Mangetsu {
                            2u8
                        } else {
                            4u8
                        })
                    } else {
                        g.sen
                    },
                    main: None,
                    kaeshi: None,
                    ..g
                },
                meikyo_ops(ctx) + (if combo {
                    seq![
                        apply_op(
                            if ac == SamAction::Mangetsu {
                                spec_fugetsu()
                            } else {
                                spec_fuka()
                            },
                            1,
                            me,
                            me,
                            0,
                        ),
                    ]
                } else {
                    Seq::empty()
                }) + aoe(
                    if combo {
                        120
                    } else {
                        100
                    },
                ),
            )
        },
        SamAction::Enpi => if !has_t {
            no_target
        } else {
            let en = ctx.has_own(spec_enenpi());
            (
                SamGauges { kenki: add_sat(g.kenki, 10, 100), ..g },
                (if en {
                    seq![status_op(StatusEvent::spec_remove(spec_enenpi(), me, me), 0)]
                } else {
                    Seq::empty()
                }) + seq![
                    dmg1(
                        if en {
                            260
                        } else {
                            100
                        },
                    ),
                ],
            )
        },
        SamAction::Shinten => if !has_t {
            no_target
        } else {
            (SamGauges { kenki: sub_sat(g.kenki, 25), ..g }, seq![dmg1(250)])
        },
        SamAction::Kyuten => (SamGauges { kenki: sub_sat(g.kenki, 25), ..g }, aoe(120)),
        SamAction::Gyoten => if !has_t {
            no_target
        } else {
            (SamGauges { kenki: sub_sat(g.kenki, 10), ..g }, seq![dmg1(100)])
        },
        SamAction::Yaten => if !has_t {
            no_target
        } else {
            (
                SamGauges { kenki: sub_sat(g.kenki, 10), ..g },
                seq![dmg1(100), apply_op(spec_enenpi(), 1, me, me, 0)],
            )
        },
        SamAction::Hagakure => (
            SamGauges {
                sen: 0,
                kenki: add_sat(g.kenki, (spec_count_ones(g.sen) * 10) as u8, 100),
                ..g
            },
            Seq::empty(),
        ),
        SamAction::Guren => if !has_t {
            no_target
        } else {
            (
                SamGauges { kenki: sub_sat(g.kenki, 25), ..g },
                aoe_ops(a, sam_hit(500), sam_hit(375), tg, 0, 45),
            )
        },
        SamAction::Meikyo => (g, seq![apply_op(spec_meikyo(), 3, me, me, 0)]),
        SamAction::Senei => if !has_t {
            no_target
        } else {
            (SamGauges { kenki: sub_sat(g.kenki, 25), ..g }, seq![dmg1(860)])
        },
        SamAction::Ikishoten => (
            SamGauges { kenki: add_sat(g.kenki, 50, 100), ..g },
            seq![apply_op(spec_ogi_ready(), 1, me, me, 0)],
        ),
        SamAction::Shoha => if !has_t {
            no_target
        } else {
            (SamGauges { meditation: 0, ..g }, seq![dmg1(560)])
        },
        SamAction::Shoha2 => (SamGauges { meditation: 0, ..g }, aoe(200)),
        SamAction::Namikiri => if !has_t {
            no_target
        } else {
            (
                SamGauges {
                    meditation: med,
                    kaeshi: Some((KaeshiCombo::Namikiri, 30000u32)),
                    ..g
                },
                (if ctx.has_own(spec_ogi_ready()) {
                    seq![status_op(StatusEvent::spec_remove(spec_ogi_ready(), me, me), 0)]
                } else {
                    Seq::empty()
                }) + aoe_ops(a, sam_hit_ch(860), sam_hit_ch(215), tg, 0, 45),
            )
        },
        SamAction::Higanbana => if !has_t {
            no_target
        } else {
            (
                SamGauges {
                    meditation: med,
                    kaeshi: Some((KaeshiCombo::Higanbana, 30000u32)),
                    sen: 0,
                    ..g
                },
                seq![dmg1(200), sam_dot_op(t)],
            )
        },
        SamAction::TenkaGoken => (
            SamGauges {
                meditation: med,
                kaeshi: Some((KaeshiCombo::Goken, 30000u32)),
                sen: 0,
                ..g
            },
            aoe(300),
        ),
        SamAction::Midare => if !has_t {
            no_target
        } else {
            (
                SamGauges {
                    meditation: med,
                    kaeshi: Some((KaeshiCombo::Setsugekka, 30000u32)),
                    sen: 0,
                    ..g
                },
                seq![dmg_ch1(640)],
            )
        },
        SamAction::KaeshiHiganbana => if !has_t {
            no_target
        } else {
            (SamGauges { meditation: med, kaeshi: None, ..g }, seq![dmg1(200), sam_dot_op(t)])
        },
        SamAction::KaeshiGoken => (SamGauges { meditation: med, kaeshi: None, ..g }, aoe(300)),
        SamAction::KaeshiSetsugekka => if !has_t {
            no_target
        } else {
            (SamGauges { meditation: med, kaeshi: None, ..g }, seq![dmg_ch1(640)])
        },
        SamAction::KaeshiNamikiri => if !has_t {
            no_target
        } else {
            (
                SamGauges { meditation: med, kaeshi: None, ..g },
                aoe_ops(a, sam_hit_ch(860), sam_hit_ch(215), tg, 0, 45),
            )
        },
    }
}

/// The operation that applies Higanbana to `t`.
pub open spec fn sam_dot_op(t: ActorId) -> SinkOp {
    SinkOp::Dot {
        status: spec_higanbana(),
        damage: sam_hit(45),
        stat: SpeedStat::SkillSpeed,
        stacks: 1,
        target: t,
        delay: 0,
    }
}

/// The exec side of a single target action of the main combo; see
/// [`spec_combo_step`].
fn combo_step(
    ac: SamAction,
    s: &mut SamState,
    ctx: &CastContext,
    ops: &mut Vec<SinkOp>,
    t: ActorId,
    needed: MainCombo,
    next: Option<MainCombo>,
    kenki: u8,
    sen: u8,
    buff: Option<StatusEffect>,
    on_meikyo: Option<StatusEffect>,
    pots: (u64, u64, u64, u64),
)
    requires
        ctx.spec_targets().len() > 0,
        t == ctx.spec_targets()[0],
        sen == 0 || sen == 1 || sen == 2 || sen == 4,
    ensures
        final(s).gauges() == spec_combo_step(
            ac,
            old(s).gauges(),
            *ctx,
            needed,
            next,
            kenki,
            sen,
            buff,
            on_meikyo,
            pots,
        ).0,
        final(ops)@ == old(ops)@ + spec_combo_step(
            ac,
            old(s).gauges(),
            *ctx,
            needed,
            next,
            kenki,
            sen,
            buff,
            on_meikyo,
            pots,
        ).1,
        final(s).cds == old(s).cds,
{
    let me = ctx.this;
    s.combos.kaeshi.reset();
    let meik = consume_status_stack(ctx, ops, meikyo(), 0);
    let combo = meik || s.combos.main.check(needed);
    if combo {
        match next {
            Some(n) => s.combos.main.set(n),
            None => s.combos.main.reset(),
        }
        s.kenki.add_assign(kenki);
        if sen == 1 {
            s.sen.grant_setsu();
        } else if sen == 2 {
            s.sen.grant_getsu();
        } else if sen == 4 {
            s.sen.grant_ka();
        } else {
            let ghost b = s.sen@;
            assert(b | 0 == b) by (bit_vector);
        }
        match buff {
            Some(b) => ops.apply_status(me, b, 1, me, 0),
            None => {},
        }
    } else {
        s.combos.main.reset();
    }
    if meik {
        match on_meikyo {
            Some(m) => ops.apply_status(me, m, 1, me, 0),
            None => {},
        }
    }
    let pot = combo_pos_pot(pots.0, pots.1, pots.2, pots.3, combo, ctx.positional);
    ops.push(
        SinkOp::Damage {
            action: Action::Job(job::Action::Sam(ac)),
            damage: hit(pot),
            target: t,
            delay: 0,
        },
    );
}

impl SamJob {
    /// Executes the specified action: the changes to the job gauges and combos it
    /// makes, and the operations it asks of the event sink, in order.
    ///
    /// An action that needs a target and has none asks only for a
    /// [`NoTarget`](EventError::NoTarget) error, and changes nothing.
    pub fn cast_snap(ac: SamAction, s: &mut SamState, ctx: &CastContext) -> (ops: Vec<SinkOp>)
        requires
            45 * ctx.spec_targets().len() <= u32::MAX,
        ensures
            final(s).gauges() == spec_sam_cast_snap(ac, old(s).gauges(), *ctx).0,
            ops@ == spec_sam_cast_snap(ac, old(s).gauges(), *ctx).1,
            final(s).cds == old(s).cds,
    {
        let mut ops: Vec<SinkOp> = Vec::new();
        let me = ctx.this;
        let a = Action::Job(job::Action::Sam(ac));
        let target = first_target(ctx);
        let ghost g = old(s).gauges();
        let ghost tg = ctx.spec_targets();
        proof {
            assert(Seq::<SinkOp>::empty() + seq![error_op(EventError::NoTarget)] =~= seq![
                error_op(EventError::NoTarget),
            ]);
        }
        match ac {
            SamAction::Hakaze => {
                let t = match target {
                    Some(t) => t,
                    None => {
                        ops.push(SinkOp::Error { error: EventError::NoTarget });
                        return ops;
                    },
                };
                s.combos.kaeshi.reset();
                consume_status_stack(ctx, &mut ops, meikyo(), 0);
                s.combos.main.set(MainCombo::Hakaze);
                s.kenki.add_assign(5);
                ops.damage(a, hit(200), t, 0);
            },
            SamAction::Jinpu => {
                let t = match target {
                    Some(t) => t,
                    None => {
                        ops.push(SinkOp::Error { error: EventError::NoTarget });
                        return ops;
                    },
                };
                combo_step(
                    ac,
                    s,
                    ctx,
                    &mut ops,
                    t,
                    MainCombo::Hakaze,
                    Some(MainCombo::Jinpu),
                    5,
                    0,
                    Some(fugetsu()),
                    None,
                    (120, 120, 280, 280),
                );
            },
            SamAction::Shifu => {
                let t = match target {
                    Some(t) => t,
                    None => {
                        ops.push(SinkOp::Error { error: EventError::NoTarget });
                        return ops;
                    },
                };
                combo_step(
                    ac,
                    s,
                    ctx,
                    &mut ops,
                    t,
                    MainCombo::Hakaze,
                    Some(MainCombo::Shifu),
                    5,
                    0,
                    Some(fuka()),
                    None,
                    (120, 120, 280, 280),
                );
            },
            SamAction::Yukikaze => {
                let t = match target {
                    Some(t) => t,
                    None => {
                        ops.push(SinkOp::Error { error: EventError::NoTarget });
                        return ops;
                    },
                };
                combo_step(
                    ac,
                    s,
                    ctx,
                    &mut ops,
                    t,
                    MainCombo::Hakaze,
                    None,
                    15,
                    1,
                    None,
                    None,
                    (120, 120, 300, 300),
                );
            },
            SamAction::Gekko => {
                let t = match target {
                    Some(t) => t,
                    None => {
                        ops.push(SinkOp::Error { error: EventError::NoTarget });
                        return ops;
                    },
                };
                combo_step(
                    ac,
                    s,
                    ctx,
                    &mut ops,
                    t,
                    MainCombo::Jinpu,
                    None,
                    10,
                    2,
                    None,
                    Some(fugetsu()),
                    (120, 170, 330, 380),
                );
            },
            SamAction::Kasha => {
                let t = match target {
                    Some(t) => t,
                    None => {
                        ops.push(SinkOp::Error { error: EventError::NoTarget });
                        return ops;
                    },
                };
                combo_step(
                    ac,
                    s,
                    ctx,
                    &mut ops,
                    t,
                    MainCombo::Shifu,
                    None,
                    10,
                    4,
                    None,
                    Some(fuka()),
                    (120, 170, 330, 380),
                );
            },
            _ => {
                cast_other(ac, s, ctx, &mut ops, target);
            },
        }
        ops
    }
}

/// The actions of [`SamJob::cast_snap`] outside the single target main combo.
fn cast_other(
    ac: SamAction,
    s: &mut SamState,
    ctx: &CastContext,
    ops: &mut Vec<SinkOp>,
    target: Option<ActorId>,
)
    requires
        old(ops)@.len() == 0,
        target == (if ctx.spec_targets().len() > 0 {
            Some(ctx.spec_targets()[0])
        } else {
            None::<ActorId>
        }),
        !(ac is Hakaze || ac is Jinpu || ac is Shifu || ac is Yukikaze || ac is Gekko
            || ac is Kasha),
        45 * ctx.spec_targets().len() <= u32::MAX,
    ensures
        final(s).gauges() == spec_sam_cast_snap(ac, old(s).gauges(), *ctx).0,
        final(ops)@ == spec_sam_cast_snap(ac, old(s).gauges(), *ctx).1,
        final(s).cds == old(s).cds,
{
    let me = ctx.this;
    let a = Action::Job(job::Action::Sam(ac));
    proof {
        assert(Seq::<SinkOp>::empty() + seq![error_op(EventError::NoTarget)] =~= seq![
            error_op(EventError::NoTarget),
        ]);
        lemma_count_ones_le(old(s).sen@);
    }
    match ac {
        SamAction::Fuga | SamAction::Fuko => {
            s.combos.kaeshi.reset();
            consume_status_stack(ctx, ops, meikyo(), 0);
            push_aoe_all(ops, a, hit(100), hit(100), ctx, 0, 1);
            if target.is_some() {
                s.combos.main.set(MainCombo::Fuko);
                s.kenki.add_assign(10);
            } else {
                s.combos.main.reset();
            }
        },
        SamAction::Mangetsu | SamAction::Oka => {
            s.combos.kaeshi.reset();
            let meik = consume_status_stack(ctx, ops, meikyo(), 0);
            let combo = meik || s.combos.main.check(MainCombo::Fuko);
            if combo {
                s.kenki.add_assign(10);
                if ac == SamAction::Mangetsu {
                    s.sen.grant_getsu();
                    ops.apply_status(me, fugetsu(), 1, me, 0);
                } else {
                    s.sen.grant_ka();
                    ops.apply_status(me, fuka(), 1, me, 0);
                }
            }
            let pot = combo_pot(100, 120, combo);
            push_aoe_all(ops, a, hit(pot), hit(pot), ctx, 0, 1);
            s.combos.main.reset();
        },
        SamAction::Enpi => {
            let t = match target {
                Some(t) => t,
                None => {
                    ops.push(SinkOp::Error { error: EventError::NoTarget });
                    return ;
                },
            };
            s.kenki.add_assign(10);
            let en = consume_status(ctx, ops, enenpi(), 0);
            ops.push(
                SinkOp::Damage {
                    action: a,
                    damage: hit(
                        if en {
                            260
                        } else {
                            100
                        },
                    ),
                    target: t,
                    delay: 0,
                },
            );
        },
        SamAction::Shinten | SamAction::Gyoten | SamAction::Senei => {
            let t = match target {
                Some(t) => t,
                None => {
                    ops.push(SinkOp::Error { error: EventError::NoTarget });
                    return ;
                },
            };
            let (cost, pot): (u8, u64) = match ac {
                SamAction::Shinten => (25, 250),
                SamAction::Gyoten => (10, 100),
                _ => (25, 860),
            };
            s.kenki.sub_assign(cost);
            ops.damage(a, hit(pot), t, 0);
        },
        SamAction::Kyuten => {
            s.kenki.sub_assign(25);
            push_aoe_all(ops, a, hit(120), hit(120), ctx, 0, 1);
        },
        SamAction::Yaten => {
            let t = match target {
                Some(t) => t,
                None => {
                    ops.push(SinkOp::Error { error: EventError::NoTarget });
                    return ;
                },
            };
            s.kenki.sub_assign(10);
            ops.damage(a, hit(100), t, 0);
            ops.apply_status(me, enenpi(), 1, me, 0);
        },
        SamAction::Hagakure => {
            let sen_count = s.sen.count();
            s.sen.clear();
            s.kenki.add_assign(sen_count * 10);
        },
        SamAction::Guren => {
            if target.is_none() {
                ops.push(SinkOp::Error { error: EventError::NoTarget });
                return ;
            }
            s.kenki.sub_assign(25);
            push_aoe_all(ops, a, hit(500), hit(375), ctx, 0, 1);
        },
        SamAction::Meikyo => {
            ops.apply_status(me, meikyo(), 3, me, 0);
        },
        SamAction::Ikishoten => {
            s.kenki.add_assign(50);
            ops.apply_status(me, ogi_ready(), 1, me, 0);
        },
        SamAction::Shoha => {
            let t = match target {
                Some(t) => t,
                None => {
                    ops.push(SinkOp::Error { error: EventError::NoTarget });
                    return ;
                },
            };
            s.meditation.clear();
            ops.damage(a, hit(560), t, 0);
        },
        SamAction::Shoha2 => {
            s.meditation.clear();
            push_aoe_all(ops, a, hit(200), hit(200), ctx, 0, 1);
        },
        SamAction::Namikiri => {
            if target.is_none() {
                ops.push(SinkOp::Error { error: EventError::NoTarget });
                return ;
            }
            s.meditation.add_assign(1);
            s.combos.kaeshi.set(KaeshiCombo::Namikiri);
            consume_status(ctx, ops, ogi_ready(), 0);
            push_aoe_all(ops, a, hit_ch(860), hit_ch(215), ctx, 0, 1);
        },
        SamAction::Higanbana | SamAction::KaeshiHiganbana => {
            let t = match target {
                Some(t) => t,
                None => {
                    ops.push(SinkOp::Error { error: EventError::NoTarget });
                    return ;
                },
            };
            s.meditation.add_assign(1);
            if ac == SamAction::Higanbana {
                s.combos.kaeshi.set(KaeshiCombo::Higanbana);
                s.sen.clear();
            } else {
                s.combos.kaeshi.reset();
            }
            ops.damage(a, hit(200), t, 0);
            ops.push(
                SinkOp::Dot {
                    status: higanbana(),
                    damage: hit(45),
                    stat: SpeedStat::SkillSpeed,
                    stacks: 1,
                    target: t,
                    delay: 0,
                },
            );
        },
        SamAction::TenkaGoken | SamAction::KaeshiGoken => {
            s.meditation.add_assign(1);
            if ac == SamAction::TenkaGoken {
                s.combos.kaeshi.set(KaeshiCombo::Goken);
                s.sen.clear();
            } else {
                s.combos.kaeshi.reset();
            }
            push_aoe_all(ops, a, hit(300), hit(300), ctx, 0, 1);
        },
        SamAction::Midare | SamAction::KaeshiSetsugekka => {
            let t = match target {
                Some(t) => t,
                None => {
                    ops.push(SinkOp::Error { error: EventError::NoTarget });
                    return ;
                },
            };
            s.meditation.add_assign(1);
            if ac == SamAction::Midare {
                s.combos.kaeshi.set(KaeshiCombo::Setsugekka);
                s.sen.clear();
            } else {
                s.combos.kaeshi.reset();
            }
            ops.damage(a, hit_ch(640), t, 0);
        },
        _ => {
            if target.is_none() {
                ops.push(SinkOp::Error { error: EventError::NoTarget });
                return ;
            }
            s.meditation.add_assign(1);
            s.combos.kaeshi.reset();
            push_aoe_all(ops, a, hit_ch(860), hit_ch(215), ctx, 0, 1);
        },
    }
}

/// The iaijutsu a Kaeshi action follows.
pub open spec fn spec_kaeshi_of(ac: SamAction) -> SamAction {
    match ac {
        SamAction::KaeshiHiganbana => SamAction::Higanbana,
        SamAction::KaeshiGoken => SamAction::TenkaGoken,
        SamAction::KaeshiSetsugekka => SamAction::Midare,
        _ => SamAction::Namikiri,
    }
}

/// The errors checking a cast of an action submits, in order.
pub open spec fn spec_sam_check_errors(ac: SamAction, s: SamState, ctx: CastContext) -> Seq<SinkOp> {
    let cd_err = match spec_sam_cd_group(ac) {
        Some(g) => if spec_cd_until(s.cds.spec_cd(g), spec_sam_cooldown(ac), spec_sam_cd_charges(ac))
            != 0 {
            seq![error_op(EventError::Cooldown(job::Action::Sam(ac)))]
        } else {
            Seq::empty()
        },
        None => Seq::empty(),
    };
    let kenki_err = if s.kenki@ < spec_sam_kenki_cost(ac) {
        seq![sam_error_op(SamError::Kenki(spec_sam_kenki_cost(ac)))]
    } else {
        Seq::empty()
    };
    let sen_err = match spec_sam_sen_cost(ac) {
        Some(c) => if c != spec_count_ones(s.sen@) {
            seq![sam_error_op(SamError::IaiSen(c))]
        } else {
            Seq::empty()
        },
        None => Seq::empty(),
    };
    let other = match ac {
        SamAction::Ikishoten => if !ctx.in_combat {
            seq![error_op(EventError::InCombat)]
        } else {
            Seq::empty()
        },
        SamAction::Namikiri => if !ctx.has_own(spec_ogi_ready()) {
            seq![sam_error_op(SamError::OgiRdy)]
        } else {
            Seq::empty()
        },
        SamAction::Shoha | SamAction::Shoha2 => if s.meditation@ != 3 {
            seq![sam_error_op(SamError::Meditation)]
        } else {
            Seq::empty()
        },
        SamAction::Hagakure => if spec_count_ones(s.sen@) == 0 {
            seq![sam_error_op(SamError::HagaSen)]
        } else {
            Seq::empty()
        },
        SamAction::KaeshiHiganbana | SamAction::KaeshiGoken | SamAction::KaeshiSetsugekka
        | SamAction::KaeshiNamikiri => if !combo_at(s.combos.kaeshi.combo, spec_kaeshi_needed(ac)->0) {
            seq![sam_error_op(SamError::Kaeshi(spec_kaeshi_of(ac)))]
        } else {
            Seq::empty()
        },
        _ => Seq::empty(),
    };
    cd_err + kenki_err + sen_err + other
}

/// The timing information of casting an action: its GCD, the lock and snapshot
/// of its cast time with an animation lock of `600`, and its cooldown.
pub open spec fn spec_sam_cast_info<D: DurationInfo>(ac: SamAction, di: &D) -> CastInitInfo<SamCdGroup> {
    let times = spec_cast_times(di.spec_duration(spec_sam_cast(ac)) as u16, 600, di.spec_extra_ani_lock());
    CastInitInfo {
        gcd: match spec_sam_gcd(ac) {
            Some(v) => di.spec_duration(v) as u16,
            None => 0,
        },
        lock: times.0,
        snap: times.1,
        mp: 0,
        cd: match spec_sam_cd_group(ac) {
            Some(g) => Some((g, spec_sam_cooldown(ac), spec_sam_cd_charges(ac))),
            None => None,
        },
        alt_cd: None,
    }
}

impl SamJob {
    /// Checks that a certain action may be cast: submits an error for each
    /// requirement the action does not meet, and returns the timing information of
    /// the cast whatever the errors.
    pub fn check_cast<D: DurationInfo>(
        action: SamAction,
        state: &SamState,
        ctx: &CastContext,
        di: &D,
        ops: &mut Vec<SinkOp>,
    ) -> (r: CastInitInfo<SamCdGroup>)
        requires
            (di.spec_duration(spec_sam_cast(action)) as u16) == 0 ==> 600 + di.spec_extra_ani_lock()
                <= u16::MAX,
            (di.spec_duration(spec_sam_cast(action)) as u16) != 0 ==> (di.spec_duration(
                spec_sam_cast(action),
            ) as u16) + 10 <= u16::MAX,
        ensures
            r == spec_sam_cast_info(action, di),
            final(ops)@ == old(ops)@ + spec_sam_check_errors(action, *state, *ctx),
    {
        let gcd = match action.gcd() {
            Some(v) => di.get_duration(v),
            None => 0,
        } as u16;
        let (lock, snap) = di.get_cast(action.cast(), 600);
        let cd = match action.cd_group() {
            Some(v) => Some((v, action.cooldown(), action.cd_charges())),
            None => None,
        };
        let ghost start = ops@;
        if let Some((cdg, c, charges)) = cd {
            assert(c * (charges - 1) <= 60000 * 1) by {
                assert(c == spec_sam_cooldown(action) && charges == spec_sam_cd_charges(action));
                lemma_sam_cd_fits(action);
            }
            if !state.cds.available(cdg, c, charges) {
                ops.push(SinkOp::Error { error: EventError::Cooldown(job::Action::Sam(action)) });
            }
        }
        let ghost after_cd = ops@;
        if state.kenki.value() < action.kenki_cost() {
            SamError::Kenki(action.kenki_cost()).submit(ops);
        }
        let ghost after_kenki = ops@;
        if let Some(sen_cost) = action.sen_cost() {
            if sen_cost != state.sen.count() {
                SamError::IaiSen(sen_cost).submit(ops);
            }
        }
        let ghost after_sen = ops@;
        match action {
            SamAction::Ikishoten => if !ctx.in_combat {
                ops.push(SinkOp::Error { error: EventError::InCombat });
            },
            SamAction::Namikiri => if !has_status(&ctx.statuses, ogi_ready(), ctx.this) {
                SamError::OgiRdy.submit(ops);
            },
            SamAction::Shoha | SamAction::Shoha2 => if state.meditation.value() != 3 {
                SamError::Meditation.submit(ops);
            },
            SamAction::Hagakure => if state.sen.count() == 0 {
                SamError::HagaSen.submit(ops);
            },
            SamAction::KaeshiHiganbana | SamAction::KaeshiGoken | SamAction::KaeshiSetsugekka
            | SamAction::KaeshiNamikiri => {
                if !state.combos.check_kaeshi_for(action) {
                    let base = match action {
                        SamAction::KaeshiHiganbana => SamAction::Higanbana,
                        SamAction::KaeshiGoken => SamAction::TenkaGoken,
                        SamAction::KaeshiSetsugekka => SamAction::Midare,
                        _ => SamAction::Namikiri,
                    };
                    SamError::Kaeshi(base).submit(ops);
                }
            },
            _ => {},
        }
        proof {
            let e = spec_sam_check_errors(action, *state, *ctx);
            assert(ops@ =~= start + e);
        }
        CastInitInfo { gcd, lock, snap, mp: 0, cd, alt_cd: None }
    }
}


/// The message of a Samurai error.
pub open spec fn spec_sam_error_message(e: SamError) -> Seq<char> {
    match e {
        SamError::Kaeshi(ac) => "Not executed following "@ + spec_sam_name(ac),
        SamError::Kenki(k) => "Not enough Kenki, needed at least "@ + spec_decimal(k),
        SamError::IaiSen(s) => "Invalid Sen count, expected "@ + spec_decimal(s),
        SamError::HagaSen => "Invalid Sen count, expected at least 1"@,
        SamError::Meditation => "Invalid Meditation count, expected 3"@,
        SamError::OgiRdy => "Not under the effect of 'Ogi Namikiri Ready'"@,
    }
}

impl SamError {
    /// Returns the message of the error.
    pub fn message(&self) -> (r: String)
        ensures
            r@ == spec_sam_error_message(*self),
    {
        match self {
            SamError::Kaeshi(ac) => String::from_str("Not executed following ").concat(ac.name()),
            SamError::Kenki(k) => {
                let mut s = String::from_str("Not enough Kenki, needed at least ");
                push_decimal(&mut s, *k);
                s
            },
            SamError::IaiSen(n) => {
                let mut s = String::from_str("Invalid Sen count, expected ");
                push_decimal(&mut s, *n);
                s
            },
            SamError::HagaSen => String::from_str("Invalid Sen count, expected at least 1"),
            SamError::Meditation => String::from_str("Invalid Meditation count, expected 3"),
            SamError::OgiRdy => String::from_str("Not under the effect of 'Ogi Namikiri Ready'"),
        }
    }
}

/// An Iaijutsu spends every Sen: after Higanbana or Midare Setsugekka on a target,
/// or Tenka Goken, no Sen is held, whatever was held before, so the gauge counts
/// `0`; the check of any Iaijutsu on the state that follows then reports that
/// it lacks its Sen.
pub proof fn lemma_iaijutsu_spends_sen(
    ac: SamAction,
    g: SamGauges,
    ctx: CastContext,
    next: SamState,
    follow: SamAction,
    next_ctx: CastContext,
)
    requires
        ac == SamAction::Higanbana || ac == SamAction::TenkaGoken || ac == SamAction::Midare,
        ac != SamAction::TenkaGoken ==> ctx.spec_targets().len() > 0,
        next.gauges() == spec_sam_cast_snap(ac, g, ctx).0,
        spec_sam_sen_cost(follow) is Some,
    ensures
        spec_sam_cast_snap(ac, g, ctx).0.sen == 0,
        spec_count_ones(spec_sam_cast_snap(ac, g, ctx).0.sen) == 0,
        spec_sam_check_errors(follow, next, next_ctx).contains(
            sam_error_op(SamError::IaiSen(spec_sam_sen_cost(follow)->0)),
        ),
{
    assert(spec_count_ones(0u8) == 0);
    let e = spec_sam_check_errors(follow, next, next_ctx);
    let cd_err = match spec_sam_cd_group(follow) {
        Some(gr) => if spec_cd_until(next.cds.spec_cd(gr), spec_sam_cooldown(follow), spec_sam_cd_charges(follow))
            != 0 {
            seq![error_op(EventError::Cooldown(job::Action::Sam(follow)))]
        } else {
            Seq::empty()
        },
        None => Seq::empty(),
    };
    let kenki_err = if next.kenki@ < spec_sam_kenki_cost(follow) {
        seq![sam_error_op(SamError::Kenki(spec_sam_kenki_cost(follow)))]
    } else {
        Seq::empty()
    };
    let k = cd_err.len() + kenki_err.len();
    assert(e[k as int] == sam_error_op(SamError::IaiSen(spec_sam_sen_cost(follow)->0)));
}

} // verus!
