//! Logic and types for Gunbreaker.
use vstd::prelude::*;

use super::cooldown::{sat_sub, ActionCooldown, CooldownManager};
use super::math::{spec_speed_calc, speed_calc};
use super::{ActionError, DamageScale, EffectInstance, StatusEffect, StatusEffectVTable, ValueModifier};

/// The combos of Gunbreaker.
pub mod combo;

verus! {

/// An action of the Gunbreaker job.
#[derive(Copy, Clone, Debug, PartialEq, Eq, Hash, Structural)]
pub enum GnbAction {
    /// Keen Edge.
    Keen,
    /// Brutal Shell.
    Brutal,
    /// Solid Barrel.
    Solid,
    /// Burst Strike.
    Burst,
    /// Demon Slice.
    Slice,
    /// Demon Slaughter.
    Slaughter,
    /// Fated Circle.
    Fated,
    /// Gnashing Fang.
    Gnashing,
    /// Savage Claw.
    Savage,
    /// Wicked Talon.
    Wicked,
    /// Sonic Break.
    Sonic,
    /// Lightning Shot.
    Lightning,
    /// Rough Divide.
    Divide,
    /// Blasting Zone.
    Blasting,
    /// Bow Shock.
    Shock,
    /// No Mercy.
    NoMercy,
    /// Bloodfest.
    Bloodfest,
    /// Jugular Rip.
    Jugular,
    /// Abdomen Tear.
    Abdomen,
    /// Eye Gouge.
    Eye,
}

/// `true` for the actions on the global cooldown: those from Keen Edge to
/// Lightning Shot.
pub open spec fn spec_gnb_gcd(ac: GnbAction) -> bool {
    match ac {
        GnbAction::Keen | GnbAction::Brutal | GnbAction::Solid | GnbAction::Burst | GnbAction::Slice
        | GnbAction::Slaughter | GnbAction::Fated | GnbAction::Gnashing | GnbAction::Savage
        | GnbAction::Wicked | GnbAction::Sonic | GnbAction::Lightning => true,
        _ => false,
    }
}

impl GnbAction {
    /// Returns `true` if the action is on the global cooldown.
    pub fn gcd(&self) -> (r: bool)
        ensures
            r == spec_gnb_gcd(*self),
    {
        match self {
            GnbAction::Keen | GnbAction::Brutal | GnbAction::Solid | GnbAction::Burst
            | GnbAction::Slice | GnbAction::Slaughter | GnbAction::Fated | GnbAction::Gnashing
            | GnbAction::Savage | GnbAction::Wicked | GnbAction::Sonic | GnbAction::Lightning => true,
            _ => false,
        }
    }
}

/// The Gunbreaker actions that have a cooldown of their own.
#[derive(Copy, Clone, Debug, PartialEq, Eq, Hash, Structural)]
pub enum GnbActionCooldown {
    /// Gnashing Fang.
    Gnashing,
    /// Sonic Break.
    Sonic,
    /// Rough Divide.
    Divide,
    /// Blasting Zone.
    Blasting,
    /// Bow Shock.
    Shock,
    /// No Mercy.
    NoMercy,
    /// Bloodfest.
    Bloodfest,
}

/// The cooldown of an action, if it has one of its own.
pub open spec fn spec_gnb_cd_of(ac: GnbAction) -> Option<GnbActionCooldown> {
    match ac {
        GnbAction::Gnashing => Some(GnbActionCooldown::Gnashing),
        GnbAction::Sonic => Some(GnbActionCooldown::Sonic),
        GnbAction::Divide => Some(GnbActionCooldown::Divide),
        GnbAction::Blasting => Some(GnbActionCooldown::Blasting),
        GnbAction::Shock => Some(GnbActionCooldown::Shock),
        GnbAction::NoMercy => Some(GnbActionCooldown::NoMercy),
        GnbAction::Bloodfest => Some(GnbActionCooldown::Bloodfest),
        _ => None,
    }
}

/// The action a cooldown belongs to.
pub open spec fn spec_gnb_cd_action(cd: GnbActionCooldown) -> GnbAction {
    match cd {
        GnbActionCooldown::Gnashing => GnbAction::Gnashing,
        GnbActionCooldown::Sonic => GnbAction::Sonic,
        GnbActionCooldown::Divide => GnbAction::Divide,
        GnbActionCooldown::Blasting => GnbAction::Blasting,
        GnbActionCooldown::Shock => GnbAction::Shock,
        GnbActionCooldown::NoMercy => GnbAction::NoMercy,
        GnbActionCooldown::Bloodfest => GnbAction::Bloodfest,
    }
}

impl From<GnbActionCooldown> for GnbAction {
    fn from(e: GnbActionCooldown) -> (r: Self) {
        match e {
            GnbActionCooldown::Gnashing => GnbAction::Gnashing,
            GnbActionCooldown::Sonic => GnbAction::Sonic,
            GnbActionCooldown::Divide => GnbAction::Divide,
            GnbActionCooldown::Blasting => GnbAction::Blasting,
            GnbActionCooldown::Shock => GnbAction::Shock,
            GnbActionCooldown::NoMercy => GnbAction::NoMercy,
            GnbActionCooldown::Bloodfest => GnbAction::Bloodfest,
        }
    }
}

impl vstd::std_specs::convert::FromSpecImpl<GnbActionCooldown> for GnbAction {
    open spec fn obeys_from_spec() -> bool {
        true
    }

    open spec fn from_spec(v: GnbActionCooldown) -> Self {
        spec_gnb_cd_action(v)
    }
}

impl TryFrom<GnbAction> for GnbActionCooldown {
    type Error = GnbAction;

    fn try_from(value: GnbAction) -> (r: Result<Self, Self::Error>) {
        match value {
            GnbAction::Gnashing => Ok(GnbActionCooldown::Gnashing),
            GnbAction::Sonic => Ok(GnbActionCooldown::Sonic),
            GnbAction::Divide => Ok(GnbActionCooldown::Divide),
            GnbAction::Blasting => Ok(GnbActionCooldown::Blasting),
            GnbAction::Shock => Ok(GnbActionCooldown::Shock),
            GnbAction::NoMercy => Ok(GnbActionCooldown::NoMercy),
            GnbAction::Bloodfest => Ok(GnbActionCooldown::Bloodfest),
            v => Err(v),
        }
    }
}

impl vstd::std_specs::convert::TryFromSpecImpl<GnbAction> for GnbActionCooldown {
    open spec fn obeys_try_from_spec() -> bool {
        true
    }

    open spec fn try_from_spec(v: GnbAction) -> Result<Self, GnbAction> {
        match spec_gnb_cd_of(v) {
            Some(c) => Ok(c),
            None => Err(v),
        }
    }
}

/// The slot of a cooldown in the cooldown table.
pub open spec fn spec_gnb_cd_index(cd: GnbActionCooldown) -> int {
    match cd {
        GnbActionCooldown::Gnashing => 0,
        GnbActionCooldown::Sonic => 1,
        GnbActionCooldown::Divide => 2,
        GnbActionCooldown::Blasting => 3,
        GnbActionCooldown::Shock => 4,
        GnbActionCooldown::NoMercy => 5,
        GnbActionCooldown::Bloodfest => 6,
    }
}

/// The time left on a cooldown under which the action can be used anyway: one
/// charge of Rough Divide is back when at most this much is left.
pub open spec fn spec_charge_limit(cd: GnbActionCooldown) -> u32 {
    if cd == GnbActionCooldown::Divide {
        3000
    } else {
        0
    }
}

impl GnbActionCooldown {
    /// The number of cooldowns.
    pub const LENGTH: usize = 7;

    /// Returns the time left on the cooldown under which the action can be used anyway.
    fn charge_limit(&self) -> (r: u32)
        ensures
            r == spec_charge_limit(*self),
    {
        if let GnbActionCooldown::Divide = self {
            3000
        } else {
            0
        }
    }

    /// Returns the slot of the cooldown in the cooldown table.
    fn index(&self) -> (r: usize)
        ensures
            r == spec_gnb_cd_index(*self),
    {
        match self {
            GnbActionCooldown::Gnashing => 0,
            GnbActionCooldown::Sonic => 1,
            GnbActionCooldown::Divide => 2,
            GnbActionCooldown::Blasting => 3,
            GnbActionCooldown::Shock => 4,
            GnbActionCooldown::NoMercy => 5,
            GnbActionCooldown::Bloodfest => 6,
        }
    }
}

/// The cooldowns of the Gunbreaker actions, one slot for each.
#[derive(Copy, Clone, Debug)]
pub struct GnbActionCooldowns {
    arr: [u32; 7],
}

impl ActionCooldown for GnbActionCooldowns {
    type Action = GnbActionCooldown;

    closed spec fn spec_get(&self, ac: GnbActionCooldown) -> u32 {
        self.arr@[spec_gnb_cd_index(ac)]
    }

    fn new() -> (r: Self) {
        Self { arr: [0, 0, 0, 0, 0, 0, 0] }
    }

    fn get(&self, ac: &GnbActionCooldown) -> (r: u32) {
        self.arr[ac.index()]
    }

    fn ref_mut(&mut self, ac: &GnbActionCooldown) -> (r: &mut u32) {
        let i = ac.index();
        &mut self.arr[i]
    }

    fn advance(&mut self, time: u32) {
        let mut i: usize = 0;
        let ghost start = self.arr@;
        while i < 7
            invariant
                i <= 7,
                self.arr@.len() == 7,
                start.len() == 7,
                forall|j: int| 0 <= j < i ==> self.arr@[j] == sat_sub(start[j], time),
                forall|j: int| i <= j < 7 ==> self.arr@[j] == start[j],
            decreases 7 - i,
        {
            let v = self.arr[i];
            self.arr.set(i, v.saturating_sub(time));
            i = i + 1;
        }
        proof {
            assert forall|ac: GnbActionCooldown| #[trigger] self.spec_get(ac) == sat_sub(start[spec_gnb_cd_index(ac)], time) by {
            }
        }
    }
}

/// What a Gunbreaker cast hands to its event handler.
#[derive(Copy, Clone, Debug)]
pub enum GnbOp {
    /// Damage of some potency to the targets.
    Damage(u64),
    /// An effect applied to the targets.
    EffectApply(EffectInstance),
    /// A damage over time effect applied to the targets, with its potency.
    DotApply(EffectInstance, u64),
}

/// Receives what a Gunbreaker cast does.
pub trait GnbEventHandler: Sized {
    /// `true` when `next` is this handler once it has received `op`.
    spec fn spec_handled(&self, op: GnbOp, next: &Self) -> bool;

    /// Damage of some potency is dealt to the targets.
    fn damage(&mut self, potency: u64)
        ensures
            old(self).spec_handled(GnbOp::Damage(potency), &*final(self)),
    ;

    /// An effect is applied to the targets.
    fn effect_apply(&mut self, effect: EffectInstance)
        ensures
            old(self).spec_handled(GnbOp::EffectApply(effect), &*final(self)),
    ;

    /// A damage over time effect is applied to the targets, with its potency.
    fn dot_apply(&mut self, effect: EffectInstance, dot_potency: u64)
        ensures
            old(self).spec_handled(GnbOp::DotApply(effect, dot_potency), &*final(self)),
    ;
}

/// `true` when the handlers of `steps` go from `steps[0]` to its last by
/// receiving `ops`, one after the other.
pub open spec fn spec_handled_in_order<H: GnbEventHandler>(steps: Seq<H>, ops: Seq<GnbOp>) -> bool {
    &&& steps.len() == ops.len() + 1
    &&& forall|i: int| 0 <= i < ops.len() ==> #[trigger] steps[i].spec_handled(ops[i], &steps[i + 1])
}

/// The effect "Sonic Break".
pub open spec fn spec_sonic_effect() -> StatusEffect {
    StatusEffect { id: 601, vtable: StatusEffectVTable {
        name: "Sonic Break",
        damage: ValueModifier { incoming: None, outgoing: None },
        crit: ValueModifier { incoming: None, outgoing: None },
        dhit: ValueModifier { incoming: None, outgoing: None },
        stats: None,
    } }
}

/// Returns the effect "Sonic Break".
pub fn sonic_effect() -> (r: StatusEffect)
    ensures
        r == spec_sonic_effect(),
{
    StatusEffect::new(601, StatusEffectVTable::empty("Sonic Break"))
}

/// The effect "Bow Shock".
pub open spec fn spec_shock_effect() -> StatusEffect {
    StatusEffect { id: 602, vtable: StatusEffectVTable {
        name: "Bow Shock",
        damage: ValueModifier { incoming: None, outgoing: None },
        crit: ValueModifier { incoming: None, outgoing: None },
        dhit: ValueModifier { incoming: None, outgoing: None },
        stats: None,
    } }
}

/// Returns the effect "Bow Shock".
pub fn shock_effect() -> (r: StatusEffect)
    ensures
        r == spec_shock_effect(),
{
    StatusEffect::new(602, StatusEffectVTable::empty("Bow Shock"))
}

/// The effect "No Mercy": outgoing damage is multiplied by `12 / 10`.
pub open spec fn spec_no_mercy_effect() -> StatusEffect {
    StatusEffect { id: 603, vtable: StatusEffectVTable {
        name: "No Mercy",
        damage: ValueModifier { incoming: None, outgoing: Some(DamageScale { mul: 12, div: 10 }) },
        crit: ValueModifier { incoming: None, outgoing: None },
        dhit: ValueModifier { incoming: None, outgoing: None },
        stats: None,
    } }
}

/// Returns the effect "No Mercy".
pub fn no_mercy_effect() -> (r: StatusEffect)
    ensures
        r == spec_no_mercy_effect(),
{
    StatusEffect::new(
        603,
        StatusEffectVTable {
            damage: ValueModifier::outgoing(DamageScale { mul: 12, div: 10 }),
            ..StatusEffectVTable::empty("No Mercy")
        },
    )
}

/// An error specific to Gunbreaker.
#[derive(Copy, Clone, Debug, PartialEq, Eq, Structural)]
pub enum GnbActionError {
    /// No cartridge to spend.
    NoCarts,
    /// The action continues a combo that is not running.
    Uncomboed,
}

/// The state of a Gunbreaker.
#[derive(Copy, Clone, Debug)]
pub struct GnbJobState {
    /// The main combo.
    pub mc: combo::Main,
    /// The Gnashing Fang combo.
    pub gc: combo::Gnashing,
    /// The Continuation combo.
    pub cont: combo::Cont,
    /// The cartridges held.
    pub carts: u8,
    /// The cooldowns.
    pub cooldown: CooldownManager<GnbActionCooldowns>,
}

/// The error that stops a cast, if any: the global cooldown or animation lock,
/// then the action's own cooldown, then the job's gauges and combos.
pub open spec fn spec_gnb_error(s: GnbJobState, ac: GnbAction) -> Option<ActionError<GnbActionError>> {
    let v = match spec_gnb_cd_of(ac) {
        Some(c) => s.cooldown.spec_action(c),
        None => 0,
    };
    let limit = match spec_gnb_cd_of(ac) {
        Some(c) => spec_charge_limit(c),
        None => 0,
    };
    match s.cooldown.spec_error::<GnbActionError>(spec_gnb_gcd(ac)) {
        Err(e) => Some(e),
        Ok(_) => if v != 0 && v > limit {
            Some(ActionError::ActionCooldown(v))
        } else {
            match ac {
                GnbAction::Burst | GnbAction::Fated | GnbAction::Gnashing => if s.carts == 0 {
                    Some(ActionError::Job(GnbActionError::NoCarts))
                } else {
                    None
                },
                GnbAction::Savage => if s.gc is Savage {
                    None
                } else {
                    Some(ActionError::Job(GnbActionError::Uncomboed))
                },
                GnbAction::Wicked => if s.gc is Wicked {
                    None
                } else {
                    Some(ActionError::Job(GnbActionError::Uncomboed))
                },
                GnbAction::Jugular => if s.cont is Jugular {
                    None
                } else {
                    Some(ActionError::Job(GnbActionError::Uncomboed))
                },
                GnbAction::Abdomen => if s.cont is Abdomen {
                    None
                } else {
                    Some(ActionError::Job(GnbActionError::Uncomboed))
                },
                GnbAction::Eye => if s.cont is Eye {
                    None
                } else {
                    Some(ActionError::Job(GnbActionError::Uncomboed))
                },
                _ => None,
            }
        },
    }
}

/// `carts + 1`, up to `2`.
pub open spec fn add_cart(carts: u8) -> u8 {
    if carts + 1 < 2 {
        (carts + 1) as u8
    } else {
        2
    }
}

/// What a successful cast hands to the event handler.
pub open spec fn spec_gnb_ops(s: GnbJobState, ac: GnbAction) -> Seq<GnbOp> {
    match ac {
        GnbAction::Keen => seq![GnbOp::Damage(200)],
        GnbAction::Brutal => seq![GnbOp::Damage(if s.mc is Brutal { 300 } else { 100 })],
        GnbAction::Solid => seq![GnbOp::Damage(if s.mc is Solid { 400 } else { 100 })],
        GnbAction::Burst => seq![GnbOp::Damage(500)],
        GnbAction::Slice => seq![GnbOp::Damage(150)],
        GnbAction::Slaughter => seq![GnbOp::Damage(if s.mc is Slaughter { 250 } else { 100 })],
        GnbAction::Fated => seq![GnbOp::Damage(320)],
        GnbAction::Gnashing => seq![GnbOp::Damage(450)],
        GnbAction::Savage => seq![GnbOp::Damage(550)],
        GnbAction::Wicked => seq![GnbOp::Damage(650)],
        GnbAction::Sonic => seq![
            GnbOp::Damage(300),
            GnbOp::DotApply(EffectInstance { effect: spec_sonic_effect(), time: 3000, stack: 1 }, 90),
        ],
        GnbAction::Lightning => seq![GnbOp::Damage(150)],
        GnbAction::Divide => seq![GnbOp::Damage(200)],
        GnbAction::Blasting => seq![GnbOp::Damage(800)],
        GnbAction::Shock => seq![
            GnbOp::Damage(200),
            GnbOp::DotApply(EffectInstance { effect: spec_shock_effect(), time: 1500, stack: 1 }, 90),
        ],
        GnbAction::NoMercy => seq![
            GnbOp::EffectApply(EffectInstance { effect: spec_no_mercy_effect(), time: 2000, stack: 1 }),
        ],
        GnbAction::Bloodfest => seq![],
        GnbAction::Jugular => seq![GnbOp::Damage(260)],
        GnbAction::Abdomen => seq![GnbOp::Damage(280)],
        GnbAction::Eye => seq![GnbOp::Damage(300)],
    }
}

/// The main combo after a successful cast.
pub open spec fn spec_gnb_main(s: GnbJobState, ac: GnbAction) -> combo::Main {
    match ac {
        GnbAction::Keen => combo::Main::Brutal(1500),
        GnbAction::Brutal => if s.mc is Brutal {
            combo::Main::Solid(1500)
        } else {
            combo::Main::NoCombo
        },
        GnbAction::Solid | GnbAction::Slaughter | GnbAction::Lightning => combo::Main::NoCombo,
        GnbAction::Slice => combo::Main::Slaughter(1500),
        _ => s.mc,
    }
}

/// The Gnashing Fang combo after a successful cast.
pub open spec fn spec_gnb_gnashing(s: GnbJobState, ac: GnbAction) -> combo::Gnashing {
    match ac {
        GnbAction::Keen | GnbAction::Brutal | GnbAction::Solid | GnbAction::Slice
        | GnbAction::Slaughter | GnbAction::Lightning | GnbAction::Wicked => combo::Gnashing::NoCombo,
        GnbAction::Gnashing => combo::Gnashing::Savage(1500),
        GnbAction::Savage => combo::Gnashing::Wicked(1500),
        _ => s.gc,
    }
}

/// The Continuation combo after a successful cast: a GCD sets it (to the step
/// that Gnashing Fang, Savage Claw or Wicked Talon opens, or to none), and a
/// Continuation action ends it.
pub open spec fn spec_gnb_cont(s: GnbJobState, ac: GnbAction) -> combo::Cont {
    match ac {
        GnbAction::Gnashing => combo::Cont::Jugular(1000),
        GnbAction::Savage => combo::Cont::Abdomen(1000),
        GnbAction::Wicked => combo::Cont::Eye(1000),
        GnbAction::Jugular | GnbAction::Abdomen | GnbAction::Eye => combo::Cont::NoCombo,
        _ => if spec_gnb_gcd(ac) {
            combo::Cont::NoCombo
        } else {
            s.cont
        },
    }
}

/// The cartridges after a successful cast.
pub open spec fn spec_gnb_carts(s: GnbJobState, ac: GnbAction) -> u8 {
    match ac {
        GnbAction::Solid => if s.mc is Solid {
            add_cart(s.carts)
        } else {
            s.carts
        },
        GnbAction::Slaughter => if s.mc is Slaughter {
            add_cart(s.carts)
        } else {
            s.carts
        },
        GnbAction::Burst | GnbAction::Fated | GnbAction::Gnashing => (s.carts - 1) as u8,
        GnbAction::Bloodfest => 2,
        _ => s.carts,
    }
}

/// The time a successful cast adds to the action's own cooldown.
pub open spec fn spec_gnb_cd_time(ac: GnbAction, speed: u64) -> u32 {
    match ac {
        GnbAction::Gnashing => spec_speed_calc(speed, 3000) as u32,
        GnbAction::Sonic => spec_speed_calc(speed, 6000) as u32,
        GnbAction::Divide | GnbAction::Blasting => 3000,
        GnbAction::Shock | GnbAction::NoMercy => 6000,
        GnbAction::Bloodfest => 9000,
        _ => 0,
    }
}

/// The animation lock of a successful cast.
pub open spec fn spec_gnb_lock(ac: GnbAction) -> u32 {
    match ac {
        GnbAction::Gnashing => 70,
        GnbAction::Savage => 50,
        GnbAction::Wicked => 77,
        _ => 60,
    }
}

impl GnbJobState {
    /// The state after a successful cast, compared to the state before it.
    pub open spec fn spec_cast(self, ac: GnbAction, speed: u64, next: GnbJobState) -> bool {
        &&& next.mc == spec_gnb_main(self, ac)
        &&& next.gc == spec_gnb_gnashing(self, ac)
        &&& next.cont == spec_gnb_cont(self, ac)
        &&& next.carts == spec_gnb_carts(self, ac)
        &&& next.cooldown.spec_global() == (if spec_gnb_gcd(ac) {
            spec_speed_calc(speed, 250) as u32
        } else {
            self.cooldown.spec_global()
        })
        &&& next.cooldown.spec_ani_lock() == spec_gnb_lock(ac)
        &&& next.cooldown.spec_advanced() == self.cooldown.spec_advanced()
        &&& forall|c: GnbActionCooldown|
            #[trigger] next.cooldown.spec_action(c) == if spec_gnb_cd_of(ac) == Some(c) {
                self.cooldown.spec_action(c) + spec_gnb_cd_time(ac, speed)
            } else {
                self.cooldown.spec_action(c) as int
            }
    }

    /// The state after some time passes.
    pub open spec fn spec_advance(self, time: u32, next: GnbJobState) -> bool {
        &&& next.mc == self.mc.spec_advance(time)
        &&& next.gc == self.gc.spec_advance(time)
        &&& next.cont == self.cont.spec_advance(time)
        &&& next.carts == self.carts
        &&& next.cooldown.spec_global() == sat_sub(self.cooldown.spec_global(), time)
        &&& next.cooldown.spec_ani_lock() == sat_sub(self.cooldown.spec_ani_lock(), time)
        &&& next.cooldown.spec_advanced() == self.cooldown.spec_advanced() + time
        &&& forall|c: GnbActionCooldown|
            #[trigger] next.cooldown.spec_action(c) == sat_sub(self.cooldown.spec_action(c), time)
    }

    /// Creates a state with no combo, no cartridges and no cooldowns.
    pub fn new() -> (r: Self)
        ensures
            r.carts == 0,
            r.mc == combo::Main::NoCombo,
            r.gc == combo::Gnashing::NoCombo,
            r.cont == combo::Cont::NoCombo,
            r.cooldown.spec_global() == 0,
            r.cooldown.spec_ani_lock() == 0,
            r.cooldown.spec_advanced() == 0,
            forall|c: GnbActionCooldown| #[trigger] r.cooldown.spec_action(c) == 0,
    {
        Self {
            carts: 0,
            cont: combo::Cont::NoCombo,
            mc: combo::Main::NoCombo,
            gc: combo::Gnashing::NoCombo,
            cooldown: CooldownManager::new(GnbActionCooldowns::new()),
        }
    }

    /// Casts an action: returns the error that stops it, or changes the state and
    /// returns what the cast hands to the event handler.
    ///
    /// `speed` is the Skill Speed modifier, scaled by `1000`.
    pub fn cast_ops(&mut self, ac: GnbAction, speed: u64) -> (r: Result<Vec<GnbOp>, ActionError<GnbActionError>>)
        requires
            speed <= 2000,
            spec_gnb_error(*old(self), ac) is None && ((ac is Solid && old(self).mc is Solid) || (
                ac is Slaughter && old(self).mc is Slaughter)) ==> old(self).carts < 255,
        ensures
            match r {
                Err(e) => spec_gnb_error(*old(self), ac) == Some(e) && *final(self) == *old(self),
                Ok(ops) => {
                    &&& spec_gnb_error(*old(self), ac) is None
                    &&& ops@ == spec_gnb_ops(*old(self), ac)
                    &&& old(self).spec_cast(ac, speed, *final(self))
                },
            },
    {
        if let Err(e) = self.cooldown.error(ac.gcd()) {
            return Err(e);
        }
        let cd: Result<GnbActionCooldown, GnbAction> = GnbActionCooldown::try_from(ac);
        if let Ok(c) = cd {
            let a = c.charge_limit();
            let v = self.cooldown.action(&c);
            if v != 0 && v > a {
                return Err(ActionError::ActionCooldown(v));
            }
        }
        let mut ops: Vec<GnbOp> = Vec::new();
        let mut ani_lock: u32 = 60;
        let mut cont = combo::Cont::NoCombo;
        match ac {
            GnbAction::Keen => {
                ops.push(GnbOp::Damage(200));
                self.mc = combo::Main::Brutal(1500);
                self.gc = combo::Gnashing::NoCombo;
            },
            GnbAction::Brutal => {
                if let combo::Main::Brutal(_) = self.mc {
                    ops.push(GnbOp::Damage(300));
                    self.mc = combo::Main::Solid(1500);
                } else {
                    ops.push(GnbOp::Damage(100));
                    self.mc = combo::Main::NoCombo;
                }
                self.gc = combo::Gnashing::NoCombo;
            },
            GnbAction::Solid => {
                if let combo::Main::Solid(_) = self.mc {
                    ops.push(GnbOp::Damage(400));
                    self.carts = if self.carts + 1 < 2 {
                        self.carts + 1
                    } else {
                        2
                    };
                } else {
                    ops.push(GnbOp::Damage(100));
                }
                self.mc = combo::Main::NoCombo;
                self.gc = combo::Gnashing::NoCombo;
            },
            GnbAction::Burst => {
                if self.carts > 0 {
                    ops.push(GnbOp::Damage(500));
                    self.carts = self.carts - 1;
                } else {
                    return Err(ActionError::Job(GnbActionError::NoCarts));
                }
            },
            GnbAction::Slice => {
                ops.push(GnbOp::Damage(150));
                self.mc = combo::Main::Slaughter(1500);
                self.gc = combo::Gnashing::NoCombo;
            },
            GnbAction::Slaughter => {
                if let combo::Main::Slaughter(_) = self.mc {
                    ops.push(GnbOp::Damage(250));
                    self.carts = if self.carts + 1 < 2 {
                        self.carts + 1
                    } else {
                        2
                    };
                } else {
                    ops.push(GnbOp::Damage(100));
                }
                self.mc = combo::Main::NoCombo;
                self.gc = combo::Gnashing::NoCombo;
            },
            GnbAction::Fated => {
                if self.carts > 0 {
                    ops.push(GnbOp::Damage(320));
                    self.carts = self.carts - 1;
                } else {
                    return Err(ActionError::Job(GnbActionError::NoCarts));
                }
            },
            GnbAction::Gnashing => {
                if self.carts > 0 {
                    ops.push(GnbOp::Damage(450));
                    self.carts = self.carts - 1;
                    self.gc = combo::Gnashing::Savage(1500);
                    cont = combo::Cont::Jugular(1000);
                    let t = speed_calc(speed, 3000) as u32;
                    self.cooldown.apply_action(&GnbActionCooldown::Gnashing, t);
                    ani_lock = 70;
                } else {
                    return Err(ActionError::Job(GnbActionError::NoCarts));
                }
            },
            GnbAction::Savage => {
                if let combo::Gnashing::Savage(_) = self.gc {
                    ops.push(GnbOp::Damage(550));
                    self.gc = combo::Gnashing::Wicked(1500);
                    cont = combo::Cont::Abdomen(1000);
                    ani_lock = 50;
                } else {
                    return Err(ActionError::Job(GnbActionError::Uncomboed));
                }
            },
            GnbAction::Wicked => {
                if let combo::Gnashing::Wicked(_) = self.gc {
                    ops.push(GnbOp::Damage(650));
                    self.gc = combo::Gnashing::NoCombo;
                    cont = combo::Cont::Eye(1000);
                    ani_lock = 77;
                } else {
                    return Err(ActionError::Job(GnbActionError::Uncomboed));
                }
            },
            GnbAction::Sonic => {
                ops.push(GnbOp::Damage(300));
                ops.push(GnbOp::DotApply(EffectInstance::new(sonic_effect(), 3000, 1), 90));
                let t = speed_calc(speed, 6000) as u32;
                self.cooldown.apply_action(&GnbActionCooldown::Sonic, t);
            },
            GnbAction::Lightning => {
                ops.push(GnbOp::Damage(150));
                self.mc = combo::Main::NoCombo;
                self.gc = combo::Gnashing::NoCombo;
            },
            GnbAction::Divide => {
                ops.push(GnbOp::Damage(200));
                self.cooldown.apply_action(&GnbActionCooldown::Divide, 3000);
            },
            GnbAction::Blasting => {
                ops.push(GnbOp::Damage(800));
                self.cooldown.apply_action(&GnbActionCooldown::Blasting, 3000);
            },
            GnbAction::Shock => {
                ops.push(GnbOp::Damage(200));
                ops.push(GnbOp::DotApply(EffectInstance::new(shock_effect(), 1500, 1), 90));
                self.cooldown.apply_action(&GnbActionCooldown::Shock, 6000);
            },
            GnbAction::NoMercy => {
                ops.push(GnbOp::EffectApply(EffectInstance::new(no_mercy_effect(), 2000, 1)));
                self.cooldown.apply_action(&GnbActionCooldown::NoMercy, 6000);
            },
            GnbAction::Bloodfest => {
                self.carts = 2;
                self.cooldown.apply_action(&GnbActionCooldown::Bloodfest, 9000);
            },
            GnbAction::Jugular => {
                if let combo::Cont::Jugular(_) = self.cont {
                    self.cont = combo::Cont::NoCombo;
                    ops.push(GnbOp::Damage(260));
                } else {
                    return Err(ActionError::Job(GnbActionError::Uncomboed));
                }
            },
            GnbAction::Abdomen => {
                if let combo::Cont::Abdomen(_) = self.cont {
                    self.cont = combo::Cont::NoCombo;
                    ops.push(GnbOp::Damage(280));
                } else {
                    return Err(ActionError::Job(GnbActionError::Uncomboed));
                }
            },
            GnbAction::Eye => {
                if let combo::Cont::Eye(_) = self.cont {
                    self.cont = combo::Cont::NoCombo;
                    ops.push(GnbOp::Damage(300));
                } else {
                    return Err(ActionError::Job(GnbActionError::Uncomboed));
                }
            },
        }
        let ghost mid = self.cooldown;
        if ac.gcd() {
            self.cont = cont;
            let g = speed_calc(speed, 250) as u32;
            self.cooldown.apply_global(g);
        }
        self.cooldown.apply_ani_lock(ani_lock);
        proof {
            assert forall|c: GnbActionCooldown| #[trigger] self.cooldown.spec_action(c) == if spec_gnb_cd_of(ac) == Some(c) {
                old(self).cooldown.spec_action(c) + spec_gnb_cd_time(ac, speed)
            } else {
                old(self).cooldown.spec_action(c) as int
            } by {
                assert(self.cooldown.spec_custom() == mid.spec_custom());
                assert(self.cooldown.spec_action(c) == mid.spec_action(c));
            }
        }
        Ok(ops)
    }

    /// Casts an action, handing what it does to an event handler.
    ///
    /// Returns the error that stops the cast, in which case the state is unchanged
    /// and the handler receives nothing. `speed` is the Skill Speed modifier,
    /// scaled by `1000`.
    pub fn action_cast<H: GnbEventHandler>(&mut self, ac: GnbAction, speed: u64, event: &mut H) -> (r: Result<(), ActionError<GnbActionError>>)
        requires
            speed <= 2000,
            spec_gnb_error(*old(self), ac) is None && ((ac is Solid && old(self).mc is Solid) || (
                ac is Slaughter && old(self).mc is Slaughter)) ==> old(self).carts < 255,
        ensures
            r matches Err(e) ==> spec_gnb_error(*old(self), ac) == Some(e) && *final(self) == *old(self)
                && *final(event) == *old(event),
            r is Ok ==> spec_gnb_error(*old(self), ac) is None && old(self).spec_cast(ac, speed, *final(self)),
            r is Ok ==> exists|steps: Seq<H>|
                {
                    &&& #[trigger] spec_handled_in_order(steps, spec_gnb_ops(*old(self), ac))
                    &&& steps[0] == *old(event)
                    &&& steps.last() == *final(event)
                },
    {
        let ops = match self.cast_ops(ac, speed) {
            Ok(ops) => ops,
            Err(e) => {
                return Err(e);
            },
        };
        let ghost first = *event;
        let ghost mut steps: Seq<H> = seq![*event];
        let mut i: usize = 0;
        while i < ops.len()
            invariant
                i <= ops@.len(),
                steps.len() == i + 1,
                steps[0] == first,
                steps.last() == *event,
                spec_handled_in_order(steps, ops@.take(i as int)),
            decreases ops@.len() - i,
        {
            let ghost before = *event;
            match ops[i] {
                GnbOp::Damage(p) => event.damage(p),
                GnbOp::EffectApply(e) => event.effect_apply(e),
                GnbOp::DotApply(e, p) => event.dot_apply(e, p),
            }
            proof {
                let prev = steps;
                steps = steps.push(*event);
                assert(before.spec_handled(ops@[i as int], &*event));
                assert forall|j: int| 0 <= j < i + 1 implies #[trigger] steps[j].spec_handled(
                    ops@.take(i + 1)[j],
                    &steps[j + 1],
                ) by {
                    if j < i {
                        assert(prev[j].spec_handled(ops@.take(i as int)[j], &prev[j + 1]));
                    }
                }
            }
            i = i + 1;
        }
        assert(ops@.take(ops@.len() as int) =~= ops@);
        assert(spec_handled_in_order(steps, spec_gnb_ops(*old(self), ac)));
        Ok(())
    }

    /// Advances the state by some time.
    pub fn advance(&mut self, time: u32)
        requires
            old(self).cooldown.spec_advanced() + time <= u32::MAX,
        ensures
            old(self).spec_advance(time, *final(self)),
    {
        self.cooldown.advance(time);
        self.mc.advance(time);
        self.gc.advance(time);
        self.cont.advance(time);
    }
}

impl Default for GnbJobState {
    fn default() -> (r: Self)
        ensures
            r.carts == 0,
            r.mc == combo::Main::NoCombo,
            r.gc == combo::Gnashing::NoCombo,
            r.cont == combo::Cont::NoCombo,
            r.cooldown.spec_global() == 0,
            r.cooldown.spec_ani_lock() == 0,
            r.cooldown.spec_advanced() == 0,
            forall|c: GnbActionCooldown| #[trigger] r.cooldown.spec_action(c) == 0,
    {
        Self::new()
    }
}


/// The wait before the next cast of a rotation, given `delay`, the time left on
/// the global cooldown or animation lock that stops it.
pub open spec fn spec_next_cast_wait(state: GnbJobState, ac: GnbAction, delay: u32) -> u32 {
    if ac is NoMercy {
        (state.cooldown.spec_global() - 100) as u32
    } else if ac is Divide {
        let cd = sat_sub(state.cooldown.spec_action(GnbActionCooldown::Divide), 3000);
        if delay >= cd {
            delay
        } else {
            cd
        }
    } else {
        let cd = match spec_gnb_cd_of(ac) {
            Some(c) => state.cooldown.spec_action(c),
            None => 0,
        };
        if delay >= cd {
            delay
        } else {
            cd
        }
    }
}

/// Returns the wait before the next cast of a rotation, given `delay`, the time
/// left on the global cooldown or animation lock that stops it: No Mercy is woven
/// `100` before the global cooldown ends, Rough Divide waits for all but `3000` of
/// its cooldown, and any other action for its cooldown.
pub fn next_cast_wait(state: &GnbJobState, ac: GnbAction, delay: u32) -> (r: u32)
    requires
        ac is NoMercy ==> state.cooldown.spec_global() >= 100,
    ensures
        r == spec_next_cast_wait(*state, ac, delay),
{
    if ac == GnbAction::NoMercy {
        state.cooldown.global() - 100
    } else if ac == GnbAction::Divide {
        let cd = state.cooldown.action(&GnbActionCooldown::Divide);
        let cd = if cd > 3000 {
            cd - 3000
        } else {
            0
        };
        if delay >= cd {
            delay
        } else {
            cd
        }
    } else {
        let c: Result<GnbActionCooldown, GnbAction> = GnbActionCooldown::try_from(ac);
        let cd = match c {
            Ok(v) => state.cooldown.action(&v),
            Err(_) => 0,
        };
        if delay >= cd {
            delay
        } else {
            cd
        }
    }
}

/// Returns `true` if a damage over time tick of a rotation arms the next one: while
/// some damage over time effect or event is left, before the time `14700`.
pub fn dot_tick_rearms(dots: usize, events: usize, global: u32) -> (r: bool)
    ensures
        r == (!(dots == 0 && events == 0) && global < 14700),
{
    !(dots == 0 && events == 0) && global < 14700
}

/// A Gunbreaker holds at most two cartridges: a successful cast from a state
/// with at most two leaves at most two.
pub proof fn lemma_carts_bounded(s: GnbJobState, ac: GnbAction)
    requires
        s.carts <= 2,
        spec_gnb_error(s, ac) is None,
    ensures
        spec_gnb_carts(s, ac) <= 2,
{
}

/// A cartridge spender fails without cartridges, whatever else holds.
pub proof fn lemma_spender_needs_carts(s: GnbJobState, ac: GnbAction)
    requires
        ac == GnbAction::Burst || ac == GnbAction::Fated || ac == GnbAction::Gnashing,
        s.carts == 0,
    ensures
        spec_gnb_error(s, ac) is Some,
{
}

} // verus!
