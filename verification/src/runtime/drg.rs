//! Logic and types for Dragoon.
use vstd::prelude::*;

use super::cooldown::{sat_sub, ActionCooldown, CooldownManager};
use super::gnb::combo::combo_sub;
use super::{DamageScale, EffectInstance, StatusEffect, StatusEffectVTable, ValueModifier};

verus! {

/// An action of the Dragoon job.
#[derive(Copy, Clone, Debug, PartialEq, Eq, Hash, Structural)]
pub enum DrgAction {
    /// True Thrust.
    True,
    /// Disembowel.
    Disembowel,
    /// Chaos Thrust.
    Chaos,
    /// Vorpal Thrust.
    Vorpal,
    /// Full Thrust.
    Full,
    /// Fang and Claw.
    FangClaw,
    /// Wheeling Thrust.
    Wheeling,
    /// Raiden Thrust.
    Raiden,
    /// Doom Spike.
    Doom,
    /// Sonic Thrust.
    Sonic,
    /// Coerthan Torment.
    Torment,
    /// Piercing Talon.
    Talon,
    /// Life Surge.
    Surge,
    /// Lance Charge.
    Charge,
    /// Dragon Sight.
    Sight,
    /// Battle Litany.
    Litany,
    /// High Jump.
    Jump,
    /// Spineshatter Dive.
    Spineshatter,
    /// Dragonfire Dive.
    Dragonfire,
    /// Stardiver.
    Stardiver,
    /// Geirskogul.
    Geirskogul,
    /// Nastrond.
    Nastrond,
    /// Mirage Dive.
    Mirage,
    /// Blood of the Dragon.
    Blood,
}

/// `true` for the actions on the global cooldown: those from True Thrust to
/// Piercing Talon.
pub open spec fn spec_drg_gcd(ac: DrgAction) -> bool {
    match ac {
        DrgAction::True | DrgAction::Disembowel | DrgAction::Chaos | DrgAction::Vorpal | DrgAction::Full | DrgAction::FangClaw | DrgAction::Wheeling | DrgAction::Raiden | DrgAction::Doom | DrgAction::Sonic | DrgAction::Torment | DrgAction::Talon => true,
        _ => false,
    }
}

impl DrgAction {
    /// Returns `true` if the action is on the global cooldown.
    pub fn gcd(&self) -> (r: bool)
        ensures
            r == spec_drg_gcd(*self),
    {
        match self {
            DrgAction::True | DrgAction::Disembowel | DrgAction::Chaos | DrgAction::Vorpal | DrgAction::Full | DrgAction::FangClaw | DrgAction::Wheeling | DrgAction::Raiden | DrgAction::Doom | DrgAction::Sonic | DrgAction::Torment | DrgAction::Talon => true,
            _ => false,
        }
    }
}

/// The Dragoon actions that have a cooldown of their own.
#[derive(Copy, Clone, Debug, PartialEq, Eq, Hash, Structural)]
pub enum DrgActionCooldown {
    /// Life Surge.
    Surge,
    /// Lance Charge.
    Charge,
    /// Dragon Sight.
    Sight,
    /// Battle Litany.
    Litany,
    /// High Jump.
    Jump,
    /// Spineshatter Dive.
    Spineshatter,
    /// Dragonfire Dive.
    Dragonfire,
    /// Stardiver.
    Stardiver,
    /// Geirskogul.
    Geirskogul,
    /// Nastrond.
    Nastrond,
    /// Mirage Dive.
    Mirage,
    /// Blood of the Dragon.
    Blood,
}

/// The cooldown of an action, if it has one of its own.
pub open spec fn spec_drg_cd_of(ac: DrgAction) -> Option<DrgActionCooldown> {
    match ac {
        DrgAction::Surge => Some(DrgActionCooldown::Surge),
        DrgAction::Charge => Some(DrgActionCooldown::Charge),
        DrgAction::Sight => Some(DrgActionCooldown::Sight),
        DrgAction::Litany => Some(DrgActionCooldown::Litany),
        DrgAction::Jump => Some(DrgActionCooldown::Jump),
        DrgAction::Spineshatter => Some(DrgActionCooldown::Spineshatter),
        DrgAction::Dragonfire => Some(DrgActionCooldown::Dragonfire),
        DrgAction::Stardiver => Some(DrgActionCooldown::Stardiver),
        DrgAction::Geirskogul => Some(DrgActionCooldown::Geirskogul),
        DrgAction::Nastrond => Some(DrgActionCooldown::Nastrond),
        DrgAction::Mirage => Some(DrgActionCooldown::Mirage),
        DrgAction::Blood => Some(DrgActionCooldown::Blood),
        _ => None,
    }
}

/// The action a cooldown belongs to.
pub open spec fn spec_drg_cd_action(cd: DrgActionCooldown) -> DrgAction {
    match cd {
        DrgActionCooldown::Surge => DrgAction::Surge,
        DrgActionCooldown::Charge => DrgAction::Charge,
        DrgActionCooldown::Sight => DrgAction::Sight,
        DrgActionCooldown::Litany => DrgAction::Litany,
        DrgActionCooldown::Jump => DrgAction::Jump,
        DrgActionCooldown::Spineshatter => DrgAction::Spineshatter,
        DrgActionCooldown::Dragonfire => DrgAction::Dragonfire,
        DrgActionCooldown::Stardiver => DrgAction::Stardiver,
        DrgActionCooldown::Geirskogul => DrgAction::Geirskogul,
        DrgActionCooldown::Nastrond => DrgAction::Nastrond,
        DrgActionCooldown::Mirage => DrgAction::Mirage,
        DrgActionCooldown::Blood => DrgAction::Blood,
    }
}

/// The slot of a cooldown in the cooldown table.
pub open spec fn spec_drg_cd_index(cd: DrgActionCooldown) -> int {
    match cd {
        DrgActionCooldown::Surge => 0,
        DrgActionCooldown::Charge => 1,
        DrgActionCooldown::Sight => 2,
        DrgActionCooldown::Litany => 3,
        DrgActionCooldown::Jump => 4,
        DrgActionCooldown::Spineshatter => 5,
        DrgActionCooldown::Dragonfire => 6,
        DrgActionCooldown::Stardiver => 7,
        DrgActionCooldown::Geirskogul => 8,
        DrgActionCooldown::Nastrond => 9,
        DrgActionCooldown::Mirage => 10,
        DrgActionCooldown::Blood => 11,
    }
}

impl From<DrgActionCooldown> for DrgAction {
    fn from(e: DrgActionCooldown) -> (r: Self) {
        match e {
            DrgActionCooldown::Surge => DrgAction::Surge,
            DrgActionCooldown::Charge => DrgAction::Charge,
            DrgActionCooldown::Sight => DrgAction::Sight,
            DrgActionCooldown::Litany => DrgAction::Litany,
            DrgActionCooldown::Jump => DrgAction::Jump,
            DrgActionCooldown::Spineshatter => DrgAction::Spineshatter,
            DrgActionCooldown::Dragonfire => DrgAction::Dragonfire,
            DrgActionCooldown::Stardiver => DrgAction::Stardiver,
            DrgActionCooldown::Geirskogul => DrgAction::Geirskogul,
            DrgActionCooldown::Nastrond => DrgAction::Nastrond,
            DrgActionCooldown::Mirage => DrgAction::Mirage,
            DrgActionCooldown::Blood => DrgAction::Blood,
        }
    }
}

impl vstd::std_specs::convert::FromSpecImpl<DrgActionCooldown> for DrgAction {
    open spec fn obeys_from_spec() -> bool {
        true
    }

    open spec fn from_spec(v: DrgActionCooldown) -> Self {
        spec_drg_cd_action(v)
    }
}

impl TryFrom<DrgAction> for DrgActionCooldown {
    type Error = DrgAction;

    fn try_from(value: DrgAction) -> (r: Result<Self, Self::Error>) {
        match value {
            DrgAction::Surge => Ok(DrgActionCooldown::Surge),
            DrgAction::Charge => Ok(DrgActionCooldown::Charge),
            DrgAction::Sight => Ok(DrgActionCooldown::Sight),
            DrgAction::Litany => Ok(DrgActionCooldown::Litany),
            DrgAction::Jump => Ok(DrgActionCooldown::Jump),
            DrgAction::Spineshatter => Ok(DrgActionCooldown::Spineshatter),
            DrgAction::Dragonfire => Ok(DrgActionCooldown::Dragonfire),
            DrgAction::Stardiver => Ok(DrgActionCooldown::Stardiver),
            DrgAction::Geirskogul => Ok(DrgActionCooldown::Geirskogul),
            DrgAction::Nastrond => Ok(DrgActionCooldown::Nastrond),
            DrgAction::Mirage => Ok(DrgActionCooldown::Mirage),
            DrgAction::Blood => Ok(DrgActionCooldown::Blood),
            v => Err(v),
        }
    }
}

impl vstd::std_specs::convert::TryFromSpecImpl<DrgAction> for DrgActionCooldown {
    open spec fn obeys_try_from_spec() -> bool {
        true
    }

    open spec fn try_from_spec(v: DrgAction) -> Result<Self, DrgAction> {
        match spec_drg_cd_of(v) {
            Some(c) => Ok(c),
            None => Err(v),
        }
    }
}

impl DrgActionCooldown {
    /// The number of cooldowns.
    pub const LENGTH: usize = 12;

    /// Returns the slot of the cooldown in the cooldown table.
    fn index(&self) -> (r: usize)
        ensures
            r == spec_drg_cd_index(*self),
    {
        match self {
            DrgActionCooldown::Surge => 0,
            DrgActionCooldown::Charge => 1,
            DrgActionCooldown::Sight => 2,
            DrgActionCooldown::Litany => 3,
            DrgActionCooldown::Jump => 4,
            DrgActionCooldown::Spineshatter => 5,
            DrgActionCooldown::Dragonfire => 6,
            DrgActionCooldown::Stardiver => 7,
            DrgActionCooldown::Geirskogul => 8,
            DrgActionCooldown::Nastrond => 9,
            DrgActionCooldown::Mirage => 10,
            DrgActionCooldown::Blood => 11,
        }
    }
}

/// The Dragoon combo: the action that continues it and the time left to use it.
#[derive(Copy, Clone, PartialEq, Eq, Debug, Structural)]
pub enum Combo {
    /// No combo.
    NoCombo,
    /// Disembowel continues the combo.
    Disembowel(u16),
    /// Chaos Thrust continues the combo.
    Chaos(u16),
    /// Vorpal Thrust continues the combo.
    Vorpal(u16),
    /// Full Thrust continues the combo.
    Full(u16),
    /// Fang and Claw continues the combo.
    FangClaw(u16),
    /// Wheeling Thrust continues the combo.
    Wheeling(u16),
    /// Raiden Thrust continues the combo.
    Raiden(u16),
    /// Sonic Thrust continues the combo.
    Sonic(u16),
    /// Coerthan Torment continues the combo.
    Torment(u16),
}

impl Combo {
    /// The combo after some time passes: the same step with less time left.
    pub open spec fn spec_advance(self, time: u32) -> Self {
        match self {
            Combo::NoCombo => Combo::NoCombo,
            Combo::Disembowel(v) => Combo::Disembowel(combo_sub(v, time)),
            Combo::Chaos(v) => Combo::Chaos(combo_sub(v, time)),
            Combo::Vorpal(v) => Combo::Vorpal(combo_sub(v, time)),
            Combo::Full(v) => Combo::Full(combo_sub(v, time)),
            Combo::FangClaw(v) => Combo::FangClaw(combo_sub(v, time)),
            Combo::Wheeling(v) => Combo::Wheeling(combo_sub(v, time)),
            Combo::Raiden(v) => Combo::Raiden(combo_sub(v, time)),
            Combo::Sonic(v) => Combo::Sonic(combo_sub(v, time)),
            Combo::Torment(v) => Combo::Torment(combo_sub(v, time)),
        }
    }

    /// Advances the combo by some time.
    pub fn advance(&mut self, time: u32)
        ensures
            *final(self) == old(self).spec_advance(time),
    {
        *self = match *self {
            Combo::NoCombo => Combo::NoCombo,
            Combo::Disembowel(v) => Combo::Disembowel((v as u32).saturating_sub(time) as u16),
            Combo::Chaos(v) => Combo::Chaos((v as u32).saturating_sub(time) as u16),
            Combo::Vorpal(v) => Combo::Vorpal((v as u32).saturating_sub(time) as u16),
            Combo::Full(v) => Combo::Full((v as u32).saturating_sub(time) as u16),
            Combo::FangClaw(v) => Combo::FangClaw((v as u32).saturating_sub(time) as u16),
            Combo::Wheeling(v) => Combo::Wheeling((v as u32).saturating_sub(time) as u16),
            Combo::Raiden(v) => Combo::Raiden((v as u32).saturating_sub(time) as u16),
            Combo::Sonic(v) => Combo::Sonic((v as u32).saturating_sub(time) as u16),
            Combo::Torment(v) => Combo::Torment((v as u32).saturating_sub(time) as u16),
        };
    }
}

/// The cooldowns of the Dragoon actions, one slot for each.
#[derive(Copy, Clone, Debug)]
pub struct DrgActionCooldowns {
    arr: [u32; 12],
}

impl ActionCooldown for DrgActionCooldowns {
    type Action = DrgActionCooldown;

    closed spec fn spec_get(&self, ac: DrgActionCooldown) -> u32 {
        self.arr@[spec_drg_cd_index(ac)]
    }

    fn new() -> (r: Self) {
        Self { arr: [0, 0, 0, 0, 0, 0, 0, 0, 0, 0, 0, 0] }
    }

    fn get(&self, ac: &DrgActionCooldown) -> (r: u32) {
        self.arr[ac.index()]
    }

    fn ref_mut(&mut self, ac: &DrgActionCooldown) -> (r: &mut u32) {
        let i = ac.index();
        &mut self.arr[i]
    }

    fn advance(&mut self, time: u32) {
        let mut i: usize = 0;
        let ghost start = self.arr@;
        while i < 12
            invariant
                i <= 12,
                self.arr@.len() == 12,
                start.len() == 12,
                forall|j: int| 0 <= j < i ==> self.arr@[j] == sat_sub(start[j], time),
                forall|j: int| i <= j < 12 ==> self.arr@[j] == start[j],
            decreases 12 - i,
        {
            let v = self.arr[i];
            self.arr.set(i, v.saturating_sub(time));
            i = i + 1;
        }
    }
}

/// The state of a Dragoon.
#[derive(Copy, Clone, Debug)]
pub struct DrgJobState {
    /// The combo.
    pub combo: Combo,
    /// The Eyes of the Dragon gauge.
    pub eyes: u8,
    /// The time left on Blood of the Dragon.
    pub blood: u16,
    /// The cooldowns.
    pub cooldown: CooldownManager<DrgActionCooldowns>,
}

/// Receives what a Dragoon cast does.
pub trait DrgEventHandler {
    /// Damage of some potency is dealt to the targets, under Life Surge or not.
    fn damage(&mut self, potency: u64, surge: bool);

    /// An effect is applied to the caster.
    fn self_effect_apply(&mut self, effect: EffectInstance);

    /// An effect is applied to the targets.
    fn effect_apply(&mut self, effect: EffectInstance);

    /// A damage over time effect is applied to the targets, with its potency.
    fn dot_apply(&mut self, effect: EffectInstance, dot_potency: u64);
}

/// The effect "Chaos Thrust".
pub open spec fn spec_chaos_thrust_effect() -> StatusEffect {
    StatusEffect { id: 611, vtable: StatusEffectVTable {
        name: "Chaos Thrust",
        damage: ValueModifier { incoming: None, outgoing: None },
        crit: ValueModifier { incoming: None, outgoing: None },
        dhit: ValueModifier { incoming: None, outgoing: None },
        stats: None,
    } }
}

/// Returns the effect "Chaos Thrust".
pub fn chaos_thrust_effect() -> (r: StatusEffect)
    ensures
        r == spec_chaos_thrust_effect(),
{
    StatusEffect::new(611, StatusEffectVTable::empty("Chaos Thrust"))
}

/// The effect "Life Surge": outgoing Critical Hit chance is raised by `1000` (scaled by `1000`).
pub open spec fn spec_life_surge_effect() -> StatusEffect {
    StatusEffect { id: 612, vtable: StatusEffectVTable {
        name: "Life Surge",
        damage: ValueModifier { incoming: None, outgoing: None },
        crit: ValueModifier { incoming: None, outgoing: Some(1000u64) },
        dhit: ValueModifier { incoming: None, outgoing: None },
        stats: None,
    } }
}

/// Returns the effect "Life Surge".
pub fn life_surge_effect() -> (r: StatusEffect)
    ensures
        r == spec_life_surge_effect(),
{
    StatusEffect::new(612, StatusEffectVTable {
            crit: ValueModifier::outgoing(1000),
            ..StatusEffectVTable::empty("Life Surge")
        })
}

/// The effect "Lance Charge": outgoing damage is multiplied by `115 / 100`.
pub open spec fn spec_lance_charge_effect() -> StatusEffect {
    StatusEffect { id: 613, vtable: StatusEffectVTable {
        name: "Lance Charge",
        damage: ValueModifier { incoming: None, outgoing: Some(DamageScale { mul: 115, div: 100 }) },
        crit: ValueModifier { incoming: None, outgoing: None },
        dhit: ValueModifier { incoming: None, outgoing: None },
        stats: None,
    } }
}

/// Returns the effect "Lance Charge".
pub fn lance_charge_effect() -> (r: StatusEffect)
    ensures
        r == spec_lance_charge_effect(),
{
    StatusEffect::new(613, StatusEffectVTable {
            damage: ValueModifier::outgoing(DamageScale { mul: 115, div: 100 }),
            ..StatusEffectVTable::empty("Lance Charge")
        })
}

/// The effect "Right Eye": outgoing damage is multiplied by `11 / 10`.
pub open spec fn spec_right_eye_effect() -> StatusEffect {
    StatusEffect { id: 614, vtable: StatusEffectVTable {
        name: "Right Eye",
        damage: ValueModifier { incoming: None, outgoing: Some(DamageScale { mul: 11, div: 10 }) },
        crit: ValueModifier { incoming: None, outgoing: None },
        dhit: ValueModifier { incoming: None, outgoing: None },
        stats: None,
    } }
}

/// Returns the effect "Right Eye".
pub fn right_eye_effect() -> (r: StatusEffect)
    ensures
        r == spec_right_eye_effect(),
{
    StatusEffect::new(614, StatusEffectVTable {
            damage: ValueModifier::outgoing(DamageScale { mul: 11, div: 10 }),
            ..StatusEffectVTable::empty("Right Eye")
        })
}

/// The effect "Left Eye": outgoing damage is multiplied by `105 / 100`.
pub open spec fn spec_left_eye_effect() -> StatusEffect {
    StatusEffect { id: 615, vtable: StatusEffectVTable {
        name: "Left Eye",
        damage: ValueModifier { incoming: None, outgoing: Some(DamageScale { mul: 105, div: 100 }) },
        crit: ValueModifier { incoming: None, outgoing: None },
        dhit: ValueModifier { incoming: None, outgoing: None },
        stats: None,
    } }
}

/// Returns the effect "Left Eye".
pub fn left_eye_effect() -> (r: StatusEffect)
    ensures
        r == spec_left_eye_effect(),
{
    StatusEffect::new(615, StatusEffectVTable {
            damage: ValueModifier::outgoing(DamageScale { mul: 105, div: 100 }),
            ..StatusEffectVTable::empty("Left Eye")
        })
}

/// The effect "Battle Litany": outgoing Critical Hit chance is raised by `100` (scaled by `1000`).
pub open spec fn spec_litany_effect() -> StatusEffect {
    StatusEffect { id: 616, vtable: StatusEffectVTable {
        name: "Battle Litany",
        damage: ValueModifier { incoming: None, outgoing: None },
        crit: ValueModifier { incoming: None, outgoing: Some(100u64) },
        dhit: ValueModifier { incoming: None, outgoing: None },
        stats: None,
    } }
}

/// Returns the effect "Battle Litany".
pub fn litany_effect() -> (r: StatusEffect)
    ensures
        r == spec_litany_effect(),
{
    StatusEffect::new(616, StatusEffectVTable {
            crit: ValueModifier::outgoing(100),
            ..StatusEffectVTable::empty("Battle Litany")
        })
}

} // verus!
