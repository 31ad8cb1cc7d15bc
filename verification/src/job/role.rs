//! Actions shared by every job of a role.
use vstd::prelude::*;

use crate::enums::ActionCategory;
use crate::world::status::{plain_status, spec_plain_status, StatusEffect, StatusEventExt};
use crate::world::{apply_op, ActorId, SinkOp};

verus! {

/// A melee DPS role action.
#[derive(Clone, Copy, Debug, PartialEq, Eq, Hash, Structural)]
pub enum MeleeRoleAction {
    /// The action "True North".
    TrueNorth,
}

/// The status effect "True North".
pub open spec fn spec_true_north() -> StatusEffect {
    spec_plain_status(501, "True North", 10000)
}

/// Returns the status effect "True North".
pub fn true_north() -> (r: StatusEffect)
    ensures
        r == spec_true_north(),
{
    plain_status(501, "True North", 10000)
}

impl MeleeRoleAction {
    /// Returns the human friendly name of the action.
    pub fn name(&self) -> (r: &'static str)
        ensures
            r@ == "True North"@,
    {
        match self {
            MeleeRoleAction::TrueNorth => "True North",
        }
    }

    /// Returns the cooldown of the skill in milliseconds.
    pub fn cooldown(&self) -> (r: u32)
        ensures
            r == 45000,
    {
        match self {
            MeleeRoleAction::TrueNorth => 45000,
        }
    }

    /// Returns the number of charges a skill has, or `1` if it is a single charge skill.
    pub fn cd_charges(&self) -> (r: u8)
        ensures
            r == 2,
    {
        match self {
            MeleeRoleAction::TrueNorth => 2,
        }
    }

    /// Returns the delay in milliseconds for the damage and statuses to be applied.
    pub fn effect_delay(&self) -> (r: u32)
        ensures
            r == 0,
    {
        match self {
            MeleeRoleAction::TrueNorth => 0,
        }
    }

    /// Returns the [`ActionCategory`] this action is part of.
    pub fn category(&self) -> (r: ActionCategory)
        ensures
            r == ActionCategory::Ability,
    {
        match self {
            MeleeRoleAction::TrueNorth => ActionCategory::Ability,
        }
    }

    /// Casts the role action as the actor `me`: returns the events to submit.
    ///
    /// True North applies its status to the caster.
    pub fn cast(&self, me: ActorId) -> (ops: Vec<SinkOp>)
        ensures
            ops@ == seq![apply_op(spec_true_north(), 1, me, me, 0)],
    {
        let dl = self.effect_delay();
        let mut ops: Vec<SinkOp> = Vec::new();
        match self {
            MeleeRoleAction::TrueNorth => ops.apply_status(me, true_north(), 1, me, dl),
        }
        ops
    }
}

} // verus!
