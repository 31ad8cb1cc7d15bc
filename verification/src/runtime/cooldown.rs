//! The global cooldown, the animation lock, and the cooldowns of a job's actions.
use vstd::prelude::*;

use super::ActionError;

verus! {

/// `a - b`, or `0` when `b` is larger.
pub open spec fn sat_sub(a: u32, b: u32) -> u32 {
    if a > b {
        (a - b) as u32
    } else {
        0
    }
}

/// The cooldowns of the actions of a job.
pub trait ActionCooldown: Sized {
    /// The actions that have a cooldown.
    type Action;

    /// The time left on the cooldown of an action.
    spec fn spec_get(&self, ac: Self::Action) -> u32;

    /// Creates the cooldowns of a job, with no time left on any.
    fn new() -> (r: Self)
        ensures
            forall|ac: Self::Action| #[trigger] r.spec_get(ac) == 0,
    ;

    /// Returns the time left on the cooldown of an action.
    fn get(&self, ac: &Self::Action) -> (r: u32)
        ensures
            r == self.spec_get(*ac),
    ;

    /// Returns a mutable reference to the time left on the cooldown of an action.
    fn ref_mut(&mut self, ac: &Self::Action) -> (r: &mut u32)
        ensures
            *r == old(self).spec_get(*ac),
            final(self).spec_get(*ac) == *final(r),
            forall|o: Self::Action| o != *ac ==> #[trigger] final(self).spec_get(o) == old(self).spec_get(o),
    ;

    /// Adds time to the cooldown of an action.
    fn incr_cd(&mut self, ac: &Self::Action, time: u32)
        requires
            old(self).spec_get(*ac) + time <= u32::MAX,
        ensures
            final(self).spec_get(*ac) == old(self).spec_get(*ac) + time,
            forall|o: Self::Action| o != *ac ==> #[trigger] final(self).spec_get(o) == old(self).spec_get(o),
    {
        let r = self.ref_mut(ac);
        *r = *r + time;
    }

    /// Sets the time left on the cooldown of an action.
    fn set_cd(&mut self, ac: &Self::Action, time: u32)
        ensures
            final(self).spec_get(*ac) == time,
            forall|o: Self::Action| o != *ac ==> #[trigger] final(self).spec_get(o) == old(self).spec_get(o),
    {
        let r = self.ref_mut(ac);
        *r = time;
    }

    /// Advances every cooldown by some time, down to no time left.
    fn advance(&mut self, time: u32)
        ensures
            forall|ac: Self::Action| #[trigger] final(self).spec_get(ac) == sat_sub(old(self).spec_get(ac), time),
    ;
}

/// The cooldowns of an actor: the global cooldown, the animation lock, and the
/// cooldowns of its job's actions.
#[derive(Copy, Clone, Debug)]
pub struct CooldownManager<C> {
    global: u32,
    ani_lock: u32,
    custom: C,
    advanced: u32,
}

impl<C> CooldownManager<C> {
    /// The time left on the global cooldown.
    pub closed spec fn spec_global(self) -> u32 {
        self.global
    }

    /// The time left on the animation lock.
    pub closed spec fn spec_ani_lock(self) -> u32 {
        self.ani_lock
    }

    /// The cooldowns of the job's actions.
    pub closed spec fn spec_custom(self) -> C {
        self.custom
    }

    /// The time advanced since it was last taken.
    pub closed spec fn spec_advanced(self) -> u32 {
        self.advanced
    }

    /// The error an action meets now: the global cooldown (or the animation lock,
    /// if it ends later) for a GCD while the global cooldown runs, else the
    /// animation lock while it runs.
    pub open spec fn spec_error<T>(self, gcd: bool) -> Result<(), ActionError<T>> {
        if gcd && self.spec_global() > 0 {
            if self.spec_global() >= self.spec_ani_lock() {
                Err(ActionError::GlobalCooldown(self.spec_global()))
            } else {
                Err(ActionError::AnimationLock(self.spec_ani_lock()))
            }
        } else if self.spec_ani_lock() > 0 {
            Err(ActionError::AnimationLock(self.spec_ani_lock()))
        } else {
            Ok(())
        }
    }
}

impl<C: ActionCooldown> CooldownManager<C> {
    /// The time left on the cooldown of an action.
    pub open spec fn spec_action(self, ac: C::Action) -> u32 {
        self.spec_custom().spec_get(ac)
    }

    /// Creates the cooldowns of an actor with its job's action cooldowns, and no
    /// time left on the global cooldown or animation lock.
    pub fn new(action: C) -> (r: Self)
        ensures
            r.spec_global() == 0,
            r.spec_ani_lock() == 0,
            r.spec_custom() == action,
            r.spec_advanced() == 0,
    {
        Self { advanced: 0, ani_lock: 0, global: 0, custom: action }
    }

    /// Returns the time left on the global cooldown.
    pub fn global(&self) -> (r: u32)
        ensures
            r == self.spec_global(),
    {
        self.global
    }

    /// Returns the time left on the animation lock.
    pub fn ani_lock(&self) -> (r: u32)
        ensures
            r == self.spec_ani_lock(),
    {
        self.ani_lock
    }

    /// Returns the time left on the cooldown of an action.
    pub fn action(&self, ac: &C::Action) -> (r: u32)
        ensures
            r == self.spec_action(*ac),
    {
        self.custom.get(ac)
    }

    /// Returns the time advanced since the last call, and starts counting again.
    pub fn advanced(&mut self) -> (r: u32)
        ensures
            r == old(self).spec_advanced(),
            final(self).spec_advanced() == 0,
            final(self).spec_global() == old(self).spec_global(),
            final(self).spec_ani_lock() == old(self).spec_ani_lock(),
            final(self).spec_custom() == old(self).spec_custom(),
    {
        let r = self.advanced;
        self.advanced = 0;
        r
    }

    /// Starts the global cooldown.
    pub fn apply_global(&mut self, gcd: u32)
        ensures
            final(self).spec_global() == gcd,
            final(self).spec_ani_lock() == old(self).spec_ani_lock(),
            final(self).spec_custom() == old(self).spec_custom(),
            final(self).spec_advanced() == old(self).spec_advanced(),
    {
        self.global = gcd;
    }

    /// Starts the animation lock.
    pub fn apply_ani_lock(&mut self, ani_lock: u32)
        ensures
            final(self).spec_ani_lock() == ani_lock,
            final(self).spec_global() == old(self).spec_global(),
            final(self).spec_custom() == old(self).spec_custom(),
            final(self).spec_advanced() == old(self).spec_advanced(),
    {
        self.ani_lock = ani_lock;
    }

    /// Adds time to the cooldown of an action.
    pub fn apply_action(&mut self, ac: &C::Action, time: u32)
        requires
            old(self).spec_action(*ac) + time <= u32::MAX,
        ensures
            final(self).spec_action(*ac) == old(self).spec_action(*ac) + time,
            forall|o: C::Action| o != *ac ==> #[trigger] final(self).spec_action(o) == old(self).spec_action(o),
            final(self).spec_global() == old(self).spec_global(),
            final(self).spec_ani_lock() == old(self).spec_ani_lock(),
            final(self).spec_advanced() == old(self).spec_advanced(),
    {
        self.custom.incr_cd(ac, time);
    }

    /// Advances every cooldown by some time, down to no time left, and counts the time.
    pub fn advance(&mut self, time: u32)
        requires
            old(self).spec_advanced() + time <= u32::MAX,
        ensures
            final(self).spec_global() == sat_sub(old(self).spec_global(), time),
            final(self).spec_ani_lock() == sat_sub(old(self).spec_ani_lock(), time),
            forall|ac: C::Action| #[trigger] final(self).spec_action(ac) == sat_sub(old(self).spec_action(ac), time),
            final(self).spec_advanced() == old(self).spec_advanced() + time,
    {
        self.global = self.global.saturating_sub(time);
        self.ani_lock = self.ani_lock.saturating_sub(time);
        self.custom.advance(time);
        self.advanced = self.advanced + time;
    }

    /// Returns the error an action meets now, if any.
    pub fn error<T>(&self, gcd: bool) -> (r: Result<(), ActionError<T>>)
        ensures
            r == self.spec_error::<T>(gcd),
    {
        if gcd && self.global > 0 {
            if self.global >= self.ani_lock {
                Err(ActionError::GlobalCooldown(self.global))
            } else {
                Err(ActionError::AnimationLock(self.ani_lock))
            }
        } else if self.ani_lock > 0 {
            Err(ActionError::AnimationLock(self.ani_lock))
        } else {
            Ok(())
        }
    }
}


/// Once time at least as long as the global cooldown and the animation lock
/// has passed, no action meets an error.
pub proof fn lemma_advance_clears_error<C, T>(m: CooldownManager<C>, n: CooldownManager<C>, time: u32, gcd: bool)
    requires
        n.spec_global() == sat_sub(m.spec_global(), time),
        n.spec_ani_lock() == sat_sub(m.spec_ani_lock(), time),
        time >= m.spec_global(),
        time >= m.spec_ani_lock(),
    ensures
        n.spec_error::<T>(gcd) == Ok::<(), ActionError<T>>(()),
{
}

} // verus!
