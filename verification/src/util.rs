//! Various utility types and functions.
use vstd::prelude::*;

use crate::timing::EventCascade;
use crate::world::status::StatusEffect;
use crate::world::{ActionTargetting, EventError, Faction};
use vstd::string::StringExecFns;

verus! {

/// Returns the potency of an action depending on whether it was comboed into and
/// whether it hit its positional.
pub fn combo_pos_pot(
    base: u64,
    if_pos: u64,
    if_combo: u64,
    if_both: u64,
    combo: bool,
    pos: bool,
) -> (r: u64)
    ensures
        r == (if combo && pos {
            if_both
        } else if combo {
            if_combo
        } else if pos {
            if_pos
        } else {
            base
        }),
{
    match (combo, pos) {
        (false, false) => base,
        (false, true) => if_pos,
        (true, false) => if_combo,
        (true, true) => if_both,
    }
}

/// Returns the potency of an action depending on whether it was comboed into.
pub fn combo_pot(base: u64, if_combo: u64, combo: bool) -> (r: u64)
    ensures
        r == (if combo {
            if_combo
        } else {
            base
        }),
{
    if combo {
        if_combo
    } else {
        base
    }
}

/// Returns the potency of an action depending on whether it hit its positional.
pub fn pos_pot(base: u64, if_pos: u64, pos: bool) -> (r: u64)
    ensures
        r == (if pos {
            if_pos
        } else {
            base
        }),
{
    if pos {
        if_pos
    } else {
        base
    }
}

/// `v + rhs`, saturating at `max`.
pub open spec fn add_sat(v: u8, rhs: u8, max: u8) -> u8 {
    if v + rhs <= max {
        (v + rhs) as u8
    } else {
        max
    }
}

/// `v - rhs`, saturating at `0`.
pub open spec fn sub_sat(v: u8, rhs: u8) -> u8 {
    if v >= rhs {
        (v - rhs) as u8
    } else {
        0
    }
}

/// The number of bits set in `b`.
pub open spec fn spec_count_ones(b: u8) -> u8
    decreases b,
{
    if b == 0 {
        0
    } else {
        ((b % 2) + spec_count_ones(b / 2)) as u8
    }
}

/// The number of set bits of a byte is at most `8`.
pub proof fn lemma_count_ones_le(b: u8)
    ensures
        spec_count_ones(b) <= 8,
        b < 128 ==> spec_count_ones(b) <= 7,
        b < 64 ==> spec_count_ones(b) <= 6,
        b < 32 ==> spec_count_ones(b) <= 5,
        b < 16 ==> spec_count_ones(b) <= 4,
        b < 8 ==> spec_count_ones(b) <= 3,
        b < 4 ==> spec_count_ones(b) <= 2,
        b < 2 ==> spec_count_ones(b) <= 1,
    decreases b,
{
    if b > 0 {
        lemma_count_ones_le(b / 2);
    }
}

/// Returns the number of bits set in `b`.
pub fn count_ones(b: u8) -> (r: u8)
    ensures
        r == spec_count_ones(b),
{
    let mut x: u8 = b;
    let mut c: u8 = 0;
    proof {
        lemma_count_ones_le(b);
    }
    while x > 0
        invariant
            c + spec_count_ones(x) == spec_count_ones(b),
            spec_count_ones(b) <= 8,
        decreases x,
    {
        proof {
            lemma_count_ones_le(x / 2);
        }
        c = c + x % 2;
        x = x / 2;
    }
    c
}

/// A job gauge holding a value from `0` up to `MAX`.
///
/// Adding to and taking from the gauge saturates at its bounds.
#[derive(Clone, Copy, Debug)]
pub struct GaugeU8<const MAX: u8>(u8);

impl<const MAX: u8> View for GaugeU8<MAX> {
    type V = u8;

    /// The value held in the gauge.
    closed spec fn view(&self) -> u8 {
        self.0
    }
}

impl<const MAX: u8> Default for GaugeU8<MAX> {
    fn default() -> (r: Self)
        ensures
            r@ == 0,
    {
        GaugeU8(0)
    }
}

impl<const MAX: u8> GaugeU8<MAX> {
    /// Creates a new gauge, with its value set to `0`.
    pub fn new() -> (r: Self)
        ensures
            r@ == 0,
    {
        GaugeU8(0)
    }

    /// Sets the gauge to a value, which may not exceed the maximum.
    pub fn set(&mut self, value: u8)
        requires
            value <= MAX,
        ensures
            final(self)@ == value,
    {
        self.0 = value;
    }

    /// Sets the gauge to a value, even one larger than the maximum.
    pub fn set_unchecked(&mut self, value: u8)
        ensures
            final(self)@ == value,
    {
        self.0 = value;
    }

    /// Sets the gauge to a value, saturating at the maximum.
    pub fn set_saturating(&mut self, value: u8)
        ensures
            final(self)@ == (if value <= MAX {
                value
            } else {
                MAX
            }),
    {
        self.0 = if value <= MAX {
            value
        } else {
            MAX
        };
    }

    /// Sets the gauge to the maximum value it can hold.
    pub fn set_max(&mut self)
        ensures
            final(self)@ == MAX,
    {
        self.0 = MAX;
    }

    /// Returns the maximum value the gauge can hold.
    pub fn max(&self) -> (r: u8)
        ensures
            r == MAX,
    {
        MAX
    }

    /// Resets the gauge down to zero.
    pub fn clear(&mut self)
        ensures
            final(self)@ == 0,
    {
        self.0 = 0;
    }

    /// Returns the value held in this gauge.
    pub fn value(&self) -> (r: u8)
        ensures
            r == self@,
    {
        self.0
    }

    /// Increases the gauge by `rhs`, saturating at the maximum.
    pub fn add_assign(&mut self, rhs: u8)
        ensures
            final(self)@ == (if old(self)@ + rhs <= MAX {
                (old(self)@ + rhs) as u8
            } else {
                MAX
            }),
    {
        let v: u16 = self.0 as u16 + rhs as u16;
        self.0 = if v <= MAX as u16 {
            v as u8
        } else {
            MAX
        };
    }

    /// Decreases the gauge by `rhs`, saturating at `0`.
    pub fn sub_assign(&mut self, rhs: u8)
        ensures
            final(self)@ == (if old(self)@ >= rhs {
                old(self)@ - rhs
            } else {
                0
            }),
    {
        self.0 = self.0.saturating_sub(rhs);
    }

    /// Multiplies the gauge by `rhs`, saturating at the maximum.
    pub fn mul_assign(&mut self, rhs: u8)
        ensures
            final(self)@ == (if old(self)@ * rhs <= MAX {
                old(self)@ * rhs
            } else {
                MAX as int
            }),
    {
        let a: u16 = self.0 as u16;
        let b: u16 = rhs as u16;
        assert(a * b <= 255 * 255) by (nonlinear_arith)
            requires
                a <= 255,
                b <= 255,
        ;
        let p: u16 = a * b;
        self.0 = if p <= MAX as u16 {
            p as u8
        } else {
            MAX
        };
    }

    /// Divides the gauge by `rhs`.
    pub fn div_assign(&mut self, rhs: u8)
        requires
            rhs != 0,
        ensures
            final(self)@ == old(self)@ / rhs,
    {
        self.0 = self.0 / rhs;
    }

    /// Consumes `amount` from the gauge if it holds at least that much, and
    /// returns `true` if it did.
    pub fn consume(&mut self, amount: u8) -> (r: bool)
        ensures
            r == (old(self)@ >= amount),
            final(self)@ == (if r {
                old(self)@ - amount
            } else {
                old(self)@ as int
            }),
    {
        if self.0 >= amount {
            self.0 = self.0 - amount;
            true
        } else {
            false
        }
    }
}

/// `true` if the combo `c` is at the stage `stage`.
pub open spec fn combo_at<C>(c: Option<(C, u32)>, stage: C) -> bool {
    match c {
        Some((s, _)) => s == stage,
        None => false,
    }
}

/// The combo `c` after `time` passes.
pub open spec fn combo_advanced<C>(c: Option<(C, u32)>, time: u32) -> Option<(C, u32)> {
    match c {
        Some((s, t)) => if t > time {
            Some((s, (t - time) as u32))
        } else {
            None
        },
        None => None,
    }
}

/// The state of an action combo: the combo stage reached and the time left before
/// it breaks.
#[derive(Clone, Copy, Debug, PartialEq, Eq)]
pub struct ComboState<C> {
    /// The combo stage reached and the time left before the combo breaks.
    pub combo: Option<(C, u32)>,
}

impl<C> ComboState<C> {
    /// Creates a new combo state, with no combo.
    pub fn new() -> (r: Self)
        ensures
            r.combo is None,
    {
        ComboState { combo: None }
    }

    /// Resets the combo.
    pub fn reset(&mut self)
        ensures
            final(self).combo is None,
    {
        self.combo = None;
    }

    /// Sets the combo to the specified combo stage, for `30000` milliseconds.
    pub fn set(&mut self, combo: C)
        ensures
            final(self).combo == Some((combo, 30000u32)),
    {
        self.combo = Some((combo, 30000));
    }

    /// Advances the combo forward by a certain amount of time; the combo breaks
    /// once its time runs out.
    pub fn advance(&mut self, time: u32)
        ensures
            final(self).combo == (match old(self).combo {
                Some((c, t)) => if t > time {
                    Some((c, (t - time) as u32))
                } else {
                    None
                },
                None => None,
            }),
    {
        let cur = self.combo.take();
        self.combo = match cur {
            Some((c, t)) => if t > time {
                Some((c, t - time))
            } else {
                None
            },
            None => None,
        };
    }
}

/// A stage of an action combo, which a combo state can be checked against.
pub trait ComboStage: Sized {
    /// Returns `true` if the two stages are the same.
    fn same(&self, other: &Self) -> (r: bool)
        ensures
            r == (*self == *other),
    ;
}

impl<C: ComboStage> ComboState<C> {
    /// Checks if the combo is at the specified combo stage.
    pub fn check(&self, combo: C) -> (r: bool)
        ensures
            r == (match self.combo {
                Some((c, _)) => c == combo,
                None => false,
            }),
    {
        match &self.combo {
            Some((c, _)) => c.same(&combo),
            None => false,
        }
    }
}

impl<C> Default for ComboState<C> {
    fn default() -> (r: Self)
        ensures
            r.combo is None,
    {
        ComboState { combo: None }
    }
}

/// A list of actors hit by an action, each with the time of its hit in a delay
/// cascade.
#[derive(Clone, Debug)]
pub struct AoeIter<T> {
    /// The actors not yet handed out, last first.
    inner: Vec<T>,
    cascade: EventCascade,
}

impl<T> View for AoeIter<T> {
    type V = Seq<T>;

    /// The actors not yet handed out, in order.
    closed spec fn view(&self) -> Seq<T> {
        self.inner@.reverse()
    }
}

impl<T> AoeIter<T> {
    /// The cascade that times the hits.
    pub closed spec fn spec_cascade(&self) -> EventCascade {
        self.cascade
    }

    /// Creates the list of the actors `targets`, timed by `cascade`.
    pub fn new(targets: Vec<T>, cascade: EventCascade) -> (r: Self)
        ensures
            r@ == targets@,
            r.spec_cascade() == cascade,
    {
        let mut targets = targets;
        let ghost all = targets@;
        let mut inner: Vec<T> = Vec::new();
        while targets.len() > 0
            invariant
                all == targets@ + inner@.reverse(),
            decreases targets.len(),
        {
            let t = targets.pop().unwrap();
            proof {
                assert(inner@.push(t).reverse() =~= seq![t] + inner@.reverse());
            }
            inner.push(t);
            assert(all =~= targets@ + inner@.reverse());
        }
        assert(inner@.reverse() =~= all);
        AoeIter { inner, cascade }
    }

    /// Adds damage falloff to the list.
    ///
    /// The first actor handed out will have a falloff of `100`, and every one after
    /// that the specified falloff.
    pub fn falloff(self, falloff: u8) -> (r: AoeFalloffIter<T>)
        ensures
            r.spec_inner() == self,
            r.spec_first() == true,
            r.spec_falloff() == falloff,
    {
        AoeFalloffIter { inner: self, first: true, falloff }
    }

    /// Hands out the next actor with the time of its hit.
    pub fn next(&mut self) -> (r: Option<(T, u32)>)
        requires
            old(self).spec_cascade().spec_time() + old(self).spec_cascade().spec_amount() <= u32::MAX,
        ensures
            old(self)@.len() == 0 ==> r is None && *final(self) == *old(self),
            old(self)@.len() > 0 ==> r == Some((old(self)@[0], old(self).spec_cascade().spec_time()))
                && final(self)@ == old(self)@.drop_first() && final(self).spec_cascade().spec_time()
                == old(self).spec_cascade().spec_time() + old(self).spec_cascade().spec_amount()
                && final(self).spec_cascade().spec_amount() == old(self).spec_cascade().spec_amount(),
    {
        if self.inner.len() == 0 {
            return None;
        }
        proof {
            assert(self.inner@.drop_last().reverse() =~= self.inner@.reverse().drop_first());
        }
        let item = self.inner.pop().unwrap();
        let d = self.cascade.next();
        Some((item, d))
    }

    /// The number of actors left.
    pub fn size_hint(&self) -> (r: (usize, Option<usize>))
        ensures
            r.0 == self@.len(),
            r.1 == Some(r.0),
    {
        (self.inner.len(), Some(self.inner.len()))
    }
}

/// A list of actors hit by an action, each with the time of its hit in a delay
/// cascade and its damage falloff.
#[derive(Clone, Debug)]
pub struct AoeFalloffIter<T> {
    inner: AoeIter<T>,
    first: bool,
    falloff: u8,
}

impl<T> AoeFalloffIter<T> {
    /// The actors and their cascade.
    pub closed spec fn spec_inner(&self) -> AoeIter<T> {
        self.inner
    }

    /// Whether no actor was handed out yet.
    pub closed spec fn spec_first(&self) -> bool {
        self.first
    }

    /// The falloff of every actor after the first.
    pub closed spec fn spec_falloff(&self) -> u8 {
        self.falloff
    }

    /// Hands out the next actor with the time of its hit and its falloff.
    pub fn next(&mut self) -> (r: Option<(T, u32, u8)>)
        requires
            old(self).spec_inner().spec_cascade().spec_time() + old(self).spec_inner().spec_cascade().spec_amount() <= u32::MAX,
        ensures
            old(self).spec_inner()@.len() == 0 ==> r is None && *final(self) == *old(self),
            old(self).spec_inner()@.len() > 0 ==> r == Some(
                (
                    old(self).spec_inner()@[0],
                    old(self).spec_inner().spec_cascade().spec_time(),
                    if old(self).spec_first() {
                        100u8
                    } else {
                        old(self).spec_falloff()
                    },
                ),
            ) && final(self).spec_inner()@ == old(self).spec_inner()@.drop_first()
                && final(self).spec_inner().spec_cascade().spec_time() == old(self).spec_inner().spec_cascade().spec_time() + old(self).spec_inner().spec_cascade().spec_amount() && final(self).spec_inner().spec_cascade().spec_amount() == old(self).spec_inner().spec_cascade().spec_amount() && final(self).spec_first() == false
                && final(self).spec_falloff() == old(self).spec_falloff(),
    {
        match self.inner.next() {
            Some((item, delay)) => {
                let f = if self.first {
                    100
                } else {
                    self.falloff
                };
                self.first = false;
                Some((item, delay, f))
            },
            None => None,
        }
    }

    /// The number of actors left.
    pub fn size_hint(&self) -> (r: (usize, Option<usize>))
        ensures
            r.0 == self.spec_inner()@.len(),
            r.1 == Some(r.0),
    {
        self.inner.size_hint()
    }
}


/// The actor's current target, as targetting reads it: its faction, and whether
/// it is within the range of the action.
#[derive(Clone, Copy, Debug, PartialEq, Eq, Structural)]
pub struct TargetInfo {
    /// The faction of the target.
    pub faction: Faction,
    /// `true` if the target is within the range of the action.
    pub in_range: bool,
}

/// `true` if an action with `targetting` can be used on `target` by an actor
/// aiming at actors of `faction`: either the action needs no target, or the target
/// is present, within range, and of that faction.
pub open spec fn spec_target_ok(targetting: ActionTargetting, target: Option<TargetInfo>, faction: Faction) -> bool {
    targetting is Circle || (target matches Some(t) && t.in_range && t.faction == faction)
}

/// Targets actors of `faction`, after checking the current target if the action
/// needs one.
fn target_aoe<T>(
    targetting: ActionTargetting,
    target: Option<TargetInfo>,
    faction: Faction,
    actors: Vec<T>,
    cascade: EventCascade,
) -> (r: Result<AoeIter<T>, EventError>)
    ensures
        spec_target_ok(targetting, target, faction) ==> (r matches Ok(it) && it@ == actors@
            && it.spec_cascade() == cascade),
        !spec_target_ok(targetting, target, faction) ==> r == Err::<AoeIter<T>, EventError>(
            EventError::NoTarget,
        ),
{
    if targetting.requires_target() {
        match target {
            None => {
                return Err(EventError::NoTarget);
            },
            Some(t) => {
                if !t.in_range {
                    return Err(EventError::NoTarget);
                }
                if t.faction != faction {
                    return Err(EventError::NoTarget);
                }
            },
        }
    }
    Ok(AoeIter::new(actors, cascade))
}

/// Returns the first of `actors`, or [`EventError::NoTarget`] if there is none.
fn first_actor<T>(actors: Vec<T>) -> (r: Result<T, EventError>)
    ensures
        actors@.len() > 0 ==> r == Ok::<T, EventError>(actors@[0]),
        actors@.len() == 0 ==> r == Err::<T, EventError>(EventError::NoTarget),
{
    let mut actors = actors;
    if actors.len() == 0 {
        Err(EventError::NoTarget)
    } else {
        Ok(actors.remove(0))
    }
}

/// Utility methods, on what an actor knows of its current target, to help
/// targetting actors.
///
/// The actors an action reaches are found by the world; the methods take them, in
/// order, as `actors`.
pub trait ActionTargettingExt {
    /// What the actor knows of its current target, if it has one.
    spec fn current_target(&self) -> Option<TargetInfo>;

    /// Targets a single enemy: the first of the enemies the action reaches.
    ///
    /// If there is none, returns [`EventError::NoTarget`].
    fn target_enemy<T>(&self, targetting: ActionTargetting, actors: Vec<T>) -> (r: Result<T, EventError>)
        ensures
            actors@.len() > 0 ==> r == Ok::<T, EventError>(actors@[0]),
            actors@.len() == 0 ==> r == Err::<T, EventError>(EventError::NoTarget),
    ;

    /// Targets multiple enemies and links in a delay cascade.
    ///
    /// If the action needs no target (a [`Circle`](ActionTargetting::Circle)), this
    /// is never [`Err`]. Otherwise, if the current target is missing, out of range,
    /// or not an enemy, returns [`EventError::NoTarget`].
    fn target_enemy_aoe<T>(
        &self,
        targetting: ActionTargetting,
        actors: Vec<T>,
        cascade: EventCascade,
    ) -> (r: Result<AoeIter<T>, EventError>)
        ensures
            spec_target_ok(targetting, self.current_target(), Faction::Enemy) ==> (r matches Ok(it)
                && it@ == actors@ && it.spec_cascade() == cascade),
            !spec_target_ok(targetting, self.current_target(), Faction::Enemy) ==> r == Err::<
                AoeIter<T>,
                EventError,
            >(EventError::NoTarget),
    ;

    /// Targets a single party member: the first of the party members the action
    /// reaches.
    ///
    /// If there is none, returns [`EventError::NoTarget`].
    fn target_party<T>(&self, targetting: ActionTargetting, actors: Vec<T>) -> (r: Result<T, EventError>)
        ensures
            actors@.len() > 0 ==> r == Ok::<T, EventError>(actors@[0]),
            actors@.len() == 0 ==> r == Err::<T, EventError>(EventError::NoTarget),
    ;

    /// Targets multiple party members and links in a delay cascade.
    ///
    /// If the action needs no target (a [`Circle`](ActionTargetting::Circle)), this
    /// is never [`Err`]. Otherwise, if the current target is missing, out of range,
    /// or not in the party, returns [`EventError::NoTarget`].
    fn target_party_aoe<T>(
        &self,
        targetting: ActionTargetting,
        actors: Vec<T>,
        cascade: EventCascade,
    ) -> (r: Result<AoeIter<T>, EventError>)
        ensures
            spec_target_ok(targetting, self.current_target(), Faction::Party) ==> (r matches Ok(it)
                && it@ == actors@ && it.spec_cascade() == cascade),
            !spec_target_ok(targetting, self.current_target(), Faction::Party) ==> r == Err::<
                AoeIter<T>,
                EventError,
            >(EventError::NoTarget),
    ;
}

impl ActionTargettingExt for Option<TargetInfo> {
    open spec fn current_target(&self) -> Option<TargetInfo> {
        *self
    }

    fn target_enemy<T>(&self, targetting: ActionTargetting, actors: Vec<T>) -> (r: Result<T, EventError>) {
        first_actor(actors)
    }

    fn target_enemy_aoe<T>(
        &self,
        targetting: ActionTargetting,
        actors: Vec<T>,
        cascade: EventCascade,
    ) -> (r: Result<AoeIter<T>, EventError>) {
        target_aoe(targetting, *self, Faction::Enemy, actors, cascade)
    }

    fn target_party<T>(&self, targetting: ActionTargetting, actors: Vec<T>) -> (r: Result<T, EventError>) {
        first_actor(actors)
    }

    fn target_party_aoe<T>(
        &self,
        targetting: ActionTargetting,
        actors: Vec<T>,
        cascade: EventCascade,
    ) -> (r: Result<AoeIter<T>, EventError>) {
        target_aoe(targetting, *self, Faction::Party, actors, cascade)
    }
}

/// The decimal digit `d`, for `d` below ten.
pub open spec fn spec_digit(d: u8) -> Seq<char> {
    match d {
        0 => "0"@,
        1 => "1"@,
        2 => "2"@,
        3 => "3"@,
        4 => "4"@,
        5 => "5"@,
        6 => "6"@,
        7 => "7"@,
        8 => "8"@,
        _ => "9"@,
    }
}

/// The decimal digits of `v`, without leading zeros.
pub open spec fn spec_decimal(v: u8) -> Seq<char> {
    if v < 10 {
        spec_digit(v)
    } else if v < 100 {
        spec_digit((v / 10) as u8) + spec_digit((v % 10) as u8)
    } else {
        spec_digit((v / 100) as u8) + spec_digit(((v / 10) % 10) as u8) + spec_digit((v % 10) as u8)
    }
}

/// Returns the decimal digit `d`, for `d` below ten.
fn digit(d: u8) -> (r: &'static str)
    requires
        d < 10,
    ensures
        r@ == spec_digit(d),
{
    match d {
        0 => "0",
        1 => "1",
        2 => "2",
        3 => "3",
        4 => "4",
        5 => "5",
        6 => "6",
        7 => "7",
        8 => "8",
        _ => "9",
    }
}

/// Appends the decimal digits of `v` to `s`.
pub(crate) fn push_decimal(s: &mut String, v: u8)
    ensures
        final(s)@ == old(s)@ + spec_decimal(v),
{
    if v >= 100 {
        s.append(digit(v / 100));
    }
    if v >= 10 {
        s.append(digit((v / 10) % 10));
    }
    s.append(digit(v % 10));
    proof {
        assert(final(s)@ =~= old(s)@ + spec_decimal(v));
    }
}

/// The message for lacking a status effect: `Not under the effect of '<name>'.`
pub open spec fn spec_status_proc_error(status: StatusEffect) -> Seq<char> {
    "Not under the effect of '"@ + status.vtable.name@ + "'."@
}

/// Returns the message for lacking a status effect: `Not under the effect of '<name>'.`
pub fn status_proc_error(status: StatusEffect) -> (r: String)
    ensures
        r@ == spec_status_proc_error(status),
{
    let mut s = String::from_str("Not under the effect of '");
    s.append(status.vtable.name);
    s.append("'.");
    s
}

} // verus!
