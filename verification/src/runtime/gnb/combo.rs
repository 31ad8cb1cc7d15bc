//! The combos of Gunbreaker: each names the action that continues it and the
//! time left to use it.
use vstd::prelude::*;

verus! {

/// `v - time`, or `0` when `time` is larger.
pub open spec fn combo_sub(v: u16, time: u32) -> u16 {
    if v > time {
        (v - time) as u16
    } else {
        0
    }
}

/// `v - time` in `u32` arithmetic, saturating at `0`.
fn combo_sub_exec(v: u16, time: u32) -> (r: u16)
    ensures
        r == combo_sub(v, time),
{
    (v as u32).saturating_sub(time) as u16
}

/// The main combo.
#[derive(Copy, Clone, Debug, PartialEq, Eq, Structural)]
pub enum Main {
    /// No combo.
    NoCombo,
    /// Brutal Shell continues the combo.
    Brutal(u16),
    /// Solid Barrel continues the combo.
    Solid(u16),
    /// Demon Slaughter continues the combo.
    Slaughter(u16),
}

impl Main {
    /// The combo after some time passes: the same step with less time left.
    pub open spec fn spec_advance(self, time: u32) -> Self {
        match self {
            Main::NoCombo => Main::NoCombo,
            Main::Brutal(v) => Main::Brutal(combo_sub(v, time)),
            Main::Solid(v) => Main::Solid(combo_sub(v, time)),
            Main::Slaughter(v) => Main::Slaughter(combo_sub(v, time)),
        }
    }

    /// Advances the combo by some time.
    pub fn advance(&mut self, time: u32)
        ensures
            *final(self) == old(self).spec_advance(time),
    {
        *self = match *self {
            Main::NoCombo => Main::NoCombo,
            Main::Brutal(v) => Main::Brutal(combo_sub_exec(v, time)),
            Main::Solid(v) => Main::Solid(combo_sub_exec(v, time)),
            Main::Slaughter(v) => Main::Slaughter(combo_sub_exec(v, time)),
        };
    }
}

/// The Gnashing Fang combo.
#[derive(Copy, Clone, Debug, PartialEq, Eq, Structural)]
pub enum Gnashing {
    /// No combo.
    NoCombo,
    /// Savage Claw continues the combo.
    Savage(u16),
    /// Wicked Talon continues the combo.
    Wicked(u16),
}

impl Gnashing {
    /// The combo after some time passes: the same step with less time left.
    pub open spec fn spec_advance(self, time: u32) -> Self {
        match self {
            Gnashing::NoCombo => Gnashing::NoCombo,
            Gnashing::Savage(v) => Gnashing::Savage(combo_sub(v, time)),
            Gnashing::Wicked(v) => Gnashing::Wicked(combo_sub(v, time)),
        }
    }

    /// Advances the combo by some time.
    pub fn advance(&mut self, time: u32)
        ensures
            *final(self) == old(self).spec_advance(time),
    {
        *self = match *self {
            Gnashing::NoCombo => Gnashing::NoCombo,
            Gnashing::Savage(v) => Gnashing::Savage(combo_sub_exec(v, time)),
            Gnashing::Wicked(v) => Gnashing::Wicked(combo_sub_exec(v, time)),
        };
    }
}

/// The Continuation combo.
#[derive(Copy, Clone, Debug, PartialEq, Eq, Structural)]
pub enum Cont {
    /// No combo.
    NoCombo,
    /// Jugular Rip can be used.
    Jugular(u16),
    /// Abdomen Tear can be used.
    Abdomen(u16),
    /// Eye Gouge can be used.
    Eye(u16),
}

impl Cont {
    /// The combo after some time passes: the same step with less time left.
    pub open spec fn spec_advance(self, time: u32) -> Self {
        match self {
            Cont::NoCombo => Cont::NoCombo,
            Cont::Jugular(v) => Cont::Jugular(combo_sub(v, time)),
            Cont::Abdomen(v) => Cont::Abdomen(combo_sub(v, time)),
            Cont::Eye(v) => Cont::Eye(combo_sub(v, time)),
        }
    }

    /// Advances the combo by some time.
    pub fn advance(&mut self, time: u32)
        ensures
            *final(self) == old(self).spec_advance(time),
    {
        *self = match *self {
            Cont::NoCombo => Cont::NoCombo,
            Cont::Jugular(v) => Cont::Jugular(combo_sub_exec(v, time)),
            Cont::Abdomen(v) => Cont::Abdomen(combo_sub_exec(v, time)),
            Cont::Eye(v) => Cont::Eye(combo_sub_exec(v, time)),
        };
    }
}

} // verus!
