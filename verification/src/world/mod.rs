//! The global state of a simulation.
//!
//! The [`ActorId`] is an opaque handle for an actor inside the world.
//! It is expected that world implementations will not reuse [`ActorId`]s
//! over the course of the simulation.
//!
//! The logic of a job does not read the world itself: what it needs to know of
//! the world is handed to it as a [`CastContext`], and what it asks of the world
//! comes back as a list of [`SinkOp`]s, in the order it asks.
use vstd::prelude::*;

pub mod queue;
pub mod status;

use crate::enums::{ActionCategory, DamageInstance};
use crate::job;
use crate::math::{HitTypeHandle, SpeedStat};
use crate::rng::{gen_range_inclusive, gen_ratio};
use rand::rngs::StdRng;

use self::status::{StatusEffect, StatusEvent, StatusEventExt, StatusInstance};

verus! {

/// An ID of an actor.
///
/// While the value inside this struct is public, it should be treated as an
/// opaque handle: a world may store data in it however it wants to.
#[derive(Clone, Copy, PartialEq, Eq, Debug, Hash, Structural)]
pub struct ActorId(pub u16);

/// An error that happens due to an event.
#[derive(Clone, Copy, Debug, PartialEq, Eq, Structural)]
pub enum EventError {
    /// The GCD is still active.
    Gcd,
    /// The cast lock is still active.
    Lock,
    /// The action is still on cooldown.
    Cooldown(job::Action),
    /// A job specific error.
    Job(job::CastError),
    /// The actor is not in combat.
    InCombat,
    /// No target exists.
    NoTarget,
}

/// The faction an actor is in.
///
/// This enum is used to control the targetting of actions.
#[derive(Debug, Clone, Copy, PartialEq, Eq, Structural)]
pub enum Faction {
    /// The actor is an enemy.
    Enemy,
    /// The actor is in the current player's party.
    Party,
    /// The actor is friendly, but not in the current player's party.
    Friendly,
}

/// An event that can be submitted to the event queue.
#[derive(Debug, Clone, Copy)]
pub enum Event {
    /// Damage is dealt.
    Damage(DamageEvent),
    /// A status is modified.
    Status(StatusEvent),
    /// An event of a job, for the actor who submitted it.
    Job(job::JobEvent, ActorId),
    /// The cooldown of a cooldown group of an actor is advanced by a time.
    AdvCd(job::CdGroup, u32, ActorId),
    /// MP is added to an actor.
    AddMp(u16, ActorId),
    /// The MP of an actor ticks.
    MpTick(ActorId),
    /// An actor ticks.
    ActorTick(ActorId),
}

/// A damage application event.
#[derive(Debug, Clone, Copy, PartialEq, Eq, Structural)]
pub struct DamageEvent {
    /// The damage of the event.
    pub damage: u64,
    /// The actor dealing the damage.
    pub source: ActorId,
    /// The target receiving the damage.
    pub target: ActorId,
    /// The action dealing the damage.
    pub action: Action,
}

impl DamageEvent {
    /// Creates a new damage event.
    pub fn new(damage: u64, source: ActorId, target: ActorId, action: Action) -> (r: Self)
        ensures
            r == (DamageEvent { damage, source, target, action }),
    {
        DamageEvent { damage, source, target, action }
    }
}

/// A random event determining whether an instance of damage will critically hit.
#[derive(Debug, Clone, Copy)]
pub struct CriticalHit {
    chance: u16,
}

impl CriticalHit {
    /// The chance is a probability: at most `1000`.
    #[verifier::type_invariant]
    spec fn chance_is_probability(self) -> bool {
        self.chance <= 1000
    }

    /// The chance of a critical hit, scaled by `1000`.
    pub closed spec fn spec_chance(&self) -> u16 {
        self.chance
    }

    /// Creates a new instance with the specified `chance` of a critical hit
    /// occuring. This `chance` is a probability scaled by `1000`; a larger one is
    /// taken as `1000`.
    pub fn new(chance: u16) -> (r: Self)
        ensures
            r.spec_chance() == (if chance > 1000 {
                1000
            } else {
                chance
            }),
    {
        CriticalHit {
            chance: if chance > 1000 {
                1000
            } else {
                chance
            },
        }
    }

    /// Rolls whether the hit is a critical hit: `true` with the probability of the chance.
    pub fn sample(&self, rng: &mut StdRng) -> (r: bool)
        ensures
            self.spec_chance() == 0 ==> !r,
            self.spec_chance() == 1000 ==> r,
    {
        proof {
            use_type_invariant(self);
        }
        gen_ratio(rng, self.chance as u32, 1000)
    }

    /// Rolls how the hit is handled: [`HitTypeHandle::Yes`] for a critical hit,
    /// [`HitTypeHandle::No`] otherwise.
    pub fn sample_handle(&self, rng: &mut StdRng) -> (r: HitTypeHandle)
        ensures
            r == HitTypeHandle::Yes || r == HitTypeHandle::No,
            self.spec_chance() == 0 ==> r == HitTypeHandle::No,
            self.spec_chance() == 1000 ==> r == HitTypeHandle::Yes,
    {
        HitTypeHandle::new(self.sample(rng))
    }
}

/// A random event determining whether an instance of damage will direct hit.
#[derive(Debug, Clone, Copy)]
pub struct DirectHit {
    chance: u16,
}

impl DirectHit {
    /// The chance is a probability: at most `1000`.
    #[verifier::type_invariant]
    spec fn chance_is_probability(self) -> bool {
        self.chance <= 1000
    }

    /// The chance of a direct hit, scaled by `1000`.
    pub closed spec fn spec_chance(&self) -> u16 {
        self.chance
    }

    /// Creates a new instance with the specified `chance` of a direct hit
    /// occuring. This `chance` is a probability scaled by `1000`; a larger one is
    /// taken as `1000`.
    pub fn new(chance: u16) -> (r: Self)
        ensures
            r.spec_chance() == (if chance > 1000 {
                1000
            } else {
                chance
            }),
    {
        DirectHit {
            chance: if chance > 1000 {
                1000
            } else {
                chance
            },
        }
    }

    /// Rolls whether the hit is a direct hit: `true` with the probability of the chance.
    pub fn sample(&self, rng: &mut StdRng) -> (r: bool)
        ensures
            self.spec_chance() == 0 ==> !r,
            self.spec_chance() == 1000 ==> r,
    {
        proof {
            use_type_invariant(self);
        }
        gen_ratio(rng, self.chance as u32, 1000)
    }

    /// Rolls how the hit is handled: [`HitTypeHandle::Yes`] for a direct hit,
    /// [`HitTypeHandle::No`] otherwise.
    pub fn sample_handle(&self, rng: &mut StdRng) -> (r: HitTypeHandle)
        ensures
            r == HitTypeHandle::Yes || r == HitTypeHandle::No,
            self.spec_chance() == 0 ==> r == HitTypeHandle::No,
            self.spec_chance() == 1000 ==> r == HitTypeHandle::Yes,
    {
        HitTypeHandle::new(self.sample(rng))
    }
}

/// A random event determining the +/-5% damage variance of an attack: a
/// multiplier from `9500` to `10500`, scaled by `10000`.
#[derive(Debug, Clone, Copy)]
pub struct DamageVariance(());

impl DamageVariance {
    /// Creates a new instance of this `struct`.
    pub fn new() -> (r: Self) {
        DamageVariance(())
    }

    /// Rolls the damage variance: a multiplier from `9500` to `10500`, scaled by `10000`.
    pub fn sample(&self, rng: &mut StdRng) -> (r: u64)
        ensures
            9500 <= r <= 10500,
    {
        gen_range_inclusive(rng, 9500, 10500)
    }
}

/// An action that an actor can cast.
#[derive(Debug, Clone, Copy, PartialEq, Eq, Structural)]
pub enum Action {
    /// An action used by a job.
    Job(job::Action),
}

impl Action {
    /// Returns the [`ActionCategory`] for this action.
    pub fn category(&self) -> (r: ActionCategory)
        ensures
            r == (match *self {
                Action::Job(a) => job::spec_action_category(a),
            }),
    {
        match self {
            Action::Job(v) => v.category(),
        }
    }

    /// Returns `true` if this action is a GCD.
    pub fn gcd(&self) -> (r: bool)
        ensures
            r == (match *self {
                Action::Job(a) => job::spec_action_gcd(a),
            }),
    {
        match self {
            Action::Job(v) => v.gcd(),
        }
    }

    /// Returns the name of the action.
    pub fn name(&self) -> (r: &'static str)
        ensures
            r@ == (match *self {
                Action::Job(a) => job::spec_action_name(a),
            }),
    {
        match self {
            Action::Job(v) => v.name(),
        }
    }
}

/// The kinds of targetting that an action can have.
#[derive(Debug, Clone, Copy, PartialEq, Eq, Structural)]
pub enum ActionTargetting {
    /// A single target action with a certain maximum `range`.
    Single { range: u8 },
    /// A circle centered on the executing actor with a certain `radius`.
    Circle { radius: u8 },
    /// A circle centered on the actor's target with a certain `range` and `radius`.
    TargetCircle { range: u8, radius: u8 },
    /// A line directed at the actor's target with a certain `range`.
    Line { range: u8 },
    /// A cone directed at the actor's target with a certain `range` and an `angle`
    /// in degrees.
    Cone { range: u8, angle: u8 },
}

impl ActionTargetting {
    /// Creates a new single target action with a certain maximum `range`.
    pub fn single(range: u8) -> (r: Self)
        ensures
            r == (ActionTargetting::Single { range }),
    {
        ActionTargetting::Single { range }
    }

    /// Creates a new circle action centered on the actor with a certain `radius`.
    pub fn circle(radius: u8) -> (r: Self)
        ensures
            r == (ActionTargetting::Circle { radius }),
    {
        ActionTargetting::Circle { radius }
    }

    /// Creates a new circle action centered on the actor's target with a certain
    /// `range` and `radius`.
    pub fn target_circle(radius: u8, range: u8) -> (r: Self)
        ensures
            r == (ActionTargetting::TargetCircle { radius, range }),
    {
        ActionTargetting::TargetCircle { radius, range }
    }

    /// Creates a new line action directed at the actor's target with a certain `range`.
    pub fn line(range: u8) -> (r: Self)
        ensures
            r == (ActionTargetting::Line { range }),
    {
        ActionTargetting::Line { range }
    }

    /// Creates a new cone action directed at the actor's target with a certain
    /// `range` and an `angle` in degrees.
    pub fn cone(range: u8, deg: u8) -> (r: Self)
        ensures
            r == (ActionTargetting::Cone { range, angle: deg }),
    {
        ActionTargetting::Cone { range, angle: deg }
    }

    /// Returns `true` if the action targetting requires a target.
    pub fn requires_target(self) -> (r: bool)
        ensures
            r == !(self is Circle),
    {
        match self {
            ActionTargetting::Circle { .. } => false,
            _ => true,
        }
    }
}

/// An action positional.
#[derive(Debug, Clone, Copy, PartialEq, Eq, Structural)]
pub enum Positional {
    /// The front of the target.
    Front,
    /// The two flanks of the target.
    Flank,
    /// The rear of the target.
    Rear,
}

/// What the logic of a job asks of the event sink of its actor.
#[derive(Debug, Clone, Copy)]
pub enum SinkOp {
    /// Deals `damage` to `target` after `delay`: the sink computes the damage of the
    /// hit from its actor's stats and buffs, and submits a [`DamageEvent`].
    Damage { action: Action, damage: DamageInstance, target: ActorId, delay: u32 },
    /// Applies the damage over time effect `status` to `target` after `delay`: the
    /// sink snapshots `damage` with the speed `stat`, and submits the status event.
    Dot {
        status: StatusEffect,
        damage: DamageInstance,
        stat: SpeedStat,
        stacks: u8,
        target: ActorId,
        delay: u32,
    },
    /// Submits `event` to be executed after `delay`.
    Event { event: Event, delay: u32 },
    /// Submits an error.
    Error { error: EventError },
}

/// A damage operation.
pub open spec fn damage_op(action: Action, damage: DamageInstance, target: ActorId, delay: u32) -> SinkOp {
    SinkOp::Damage { action, damage, target, delay }
}

/// A helper trait for easily submitting damage events on to the operations an
/// event sink is asked for.
pub trait DamageEventExt: View<V = Seq<SinkOp>> {
    /// Deals damage to the target after the specified delay: the sink computes the
    /// damage of the hit from its actor's stats and buffs.
    fn damage(&mut self, action: Action, damage: DamageInstance, target: ActorId, delay: u32)
        ensures
            final(self)@ == old(self)@.push(damage_op(action, damage, target, delay)),
    ;
}

impl DamageEventExt for Vec<SinkOp> {
    fn damage(&mut self, action: Action, damage: DamageInstance, target: ActorId, delay: u32) {
        self.push(SinkOp::Damage { action, damage, target, delay });
    }
}

/// A status event operation.
pub open spec fn status_op(event: StatusEvent, delay: u32) -> SinkOp {
    SinkOp::Event { event: Event::Status(event), delay }
}

/// The operation that applies `status` with `stacks` stacks from `source` to
/// `target` after `delay`.
pub open spec fn apply_op(status: StatusEffect, stacks: u8, source: ActorId, target: ActorId, delay: u32) -> SinkOp {
    status_op(StatusEvent::spec_apply(status, stacks, source, target), delay)
}

/// The operation that removes `status` applied by `source` from `target` after `delay`.
pub open spec fn remove_op(status: StatusEffect, source: ActorId, target: ActorId, delay: u32) -> SinkOp {
    status_op(StatusEvent::spec_remove(status, source, target), delay)
}

/// An error operation.
pub open spec fn error_op(error: EventError) -> SinkOp {
    SinkOp::Error { error }
}

/// The damage operations of an area of effect: `first` to the first target and
/// `rest` to every other, in a cascade from `start` by `step`.
pub open spec fn aoe_ops(
    action: Action,
    first: DamageInstance,
    rest: DamageInstance,
    targets: Seq<ActorId>,
    start: u32,
    step: u32,
) -> Seq<SinkOp> {
    Seq::new(
        targets.len(),
        |i: int|
            damage_op(
                action,
                if i == 0 {
                    first
                } else {
                    rest
                },
                targets[i],
                (start + i * step) as u32,
            ),
    )
}

/// The status operations of an effect applied to every target in a cascade from
/// `start` by `step`.
pub open spec fn aoe_status_ops(
    status: StatusEffect,
    stacks: u8,
    source: ActorId,
    targets: Seq<ActorId>,
    start: u32,
    step: u32,
) -> Seq<SinkOp> {
    Seq::new(
        targets.len(),
        |i: int| apply_op(status, stacks, source, targets[i], (start + i * step) as u32),
    )
}

/// What the logic of a job knows of the world when an action of its actor
/// snapshots.
#[derive(Debug, Clone)]
pub struct CastContext {
    /// The casting actor.
    pub this: ActorId,
    /// The status instances on the casting actor.
    pub statuses: Vec<StatusInstance>,
    /// Whether the casting actor is in combat.
    pub in_combat: bool,
    /// The actors the action hits, in order, the main target first; `None` when
    /// the action needs a target and has no valid one.
    pub targets: Option<Vec<ActorId>>,
    /// The status instances on the main target.
    pub target_statuses: Vec<StatusInstance>,
    /// Whether the positional of the action is met on the main target.
    pub positional: bool,
}

impl CastContext {
    /// The actors the action hits, empty when it has no valid target.
    pub open spec fn spec_targets(&self) -> Seq<ActorId> {
        match self.targets {
            Some(t) => t@,
            None => Seq::empty(),
        }
    }

    /// `true` if the casting actor has a status of `effect` that it applied.
    pub open spec fn has_own(&self, effect: StatusEffect) -> bool {
        spec_has_status(self.statuses@, effect, self.this)
    }
}

/// `true` if some instance in `statuses` is of `effect` and was applied by `source`.
pub open spec fn spec_has_status(statuses: Seq<StatusInstance>, effect: StatusEffect, source: ActorId) -> bool {
    exists|i: int|
        0 <= i < statuses.len() && (#[trigger] statuses[i]).effect.id == effect.id && statuses[i].source
            == source
}

/// The index of the first instance in `statuses` of `effect` applied by `source`.
pub open spec fn spec_status_index(
    statuses: Seq<StatusInstance>,
    effect: StatusEffect,
    source: ActorId,
) -> int
    decreases statuses.len(),
{
    if statuses.len() == 0 {
        0
    } else if statuses[0].effect.id == effect.id && statuses[0].source == source {
        0
    } else {
        1 + spec_status_index(statuses.drop_first(), effect, source)
    }
}

/// The first instance in `statuses` of `effect` applied by `source`, if any.
pub open spec fn spec_get_status(
    statuses: Seq<StatusInstance>,
    effect: StatusEffect,
    source: ActorId,
) -> Option<StatusInstance> {
    if spec_has_status(statuses, effect, source) {
        Some(statuses[spec_status_index(statuses, effect, source)])
    } else {
        None
    }
}

/// The first instance of `effect` applied by `source` is the first one that matches.
pub proof fn lemma_status_index(statuses: Seq<StatusInstance>, effect: StatusEffect, source: ActorId)
    requires
        spec_has_status(statuses, effect, source),
    ensures
        0 <= spec_status_index(statuses, effect, source) < statuses.len(),
        statuses[spec_status_index(statuses, effect, source)].effect.id == effect.id,
        statuses[spec_status_index(statuses, effect, source)].source == source,
        forall|j: int|
            0 <= j < spec_status_index(statuses, effect, source) ==> !(statuses[j].effect.id
                == effect.id && statuses[j].source == source),
    decreases statuses.len(),
{
    if !(statuses[0].effect.id == effect.id && statuses[0].source == source) {
        let i = choose|i: int|
            0 <= i < statuses.len() && (#[trigger] statuses[i]).effect.id == effect.id
                && statuses[i].source == source;
        assert(statuses.drop_first()[i - 1] == statuses[i]);
        lemma_status_index(statuses.drop_first(), effect, source);
        assert forall|j: int| 0 <= j < spec_status_index(statuses, effect, source) implies !(
        statuses[j].effect.id == effect.id && statuses[j].source == source) by {
            if j > 0 {
                assert(statuses.drop_first()[j - 1] == statuses[j]);
            }
        }
    }
}

/// Returns the first instance in `statuses` of `effect` applied by `source`, if any.
pub fn get_status(statuses: &Vec<StatusInstance>, effect: StatusEffect, source: ActorId) -> (r:
    Option<StatusInstance>)
    ensures
        r == spec_get_status(statuses@, effect, source),
{
    let mut i: usize = 0;
    while i < statuses.len()
        invariant
            i <= statuses@.len(),
            forall|j: int|
                0 <= j < i ==> !(statuses@[j].effect.id == effect.id && statuses@[j].source
                    == source),
        decreases statuses.len() - i,
    {
        let s = statuses[i];
        if s.effect.id == effect.id && s.source.0 == source.0 {
            proof {
                assert(spec_has_status(statuses@, effect, source));
                lemma_status_index(statuses@, effect, source);
                let k = spec_status_index(statuses@, effect, source);
                assert(k == i as int);
            }
            return Some(s);
        }
        i = i + 1;
    }
    proof {
        if spec_has_status(statuses@, effect, source) {
            let k = choose|k: int|
                0 <= k < statuses@.len() && (#[trigger] statuses@[k]).effect.id == effect.id
                    && statuses@[k].source == source;
            assert(!(statuses@[k].effect.id == effect.id && statuses@[k].source == source));
        }
    }
    None
}

/// Returns `true` if some instance in `statuses` is of `effect` and was applied
/// by `source`.
pub fn has_status(statuses: &Vec<StatusInstance>, effect: StatusEffect, source: ActorId) -> (r:
    bool)
    ensures
        r == spec_has_status(statuses@, effect, source),
{
    get_status(statuses, effect, source).is_some()
}

/// Consumes a status applied by the casting actor to itself: if the actor has it,
/// asks for its removal after `time`. Returns `true` if the actor had it.
pub fn consume_status(ctx: &CastContext, ops: &mut Vec<SinkOp>, status: StatusEffect, time: u32) -> (r:
    bool)
    ensures
        r == ctx.has_own(status),
        final(ops)@ == old(ops)@ + (if r {
            seq![status_op(StatusEvent::spec_remove(status, ctx.this, ctx.this), time)]
        } else {
            Seq::empty()
        }),
{
    let present = has_status(&ctx.statuses, status, ctx.this);
    if present {
        ops.remove_status(ctx.this, status, ctx.this, time);
    }
    present
}

/// Consumes a stack of a status applied by the casting actor to itself: if the
/// actor has it, asks for one stack of it to be removed after `time`. Returns
/// `true` if the actor had it.
pub fn consume_status_stack(
    ctx: &CastContext,
    ops: &mut Vec<SinkOp>,
    status: StatusEffect,
    time: u32,
) -> (r: bool)
    ensures
        r == ctx.has_own(status),
        final(ops)@ == old(ops)@ + (if r {
            seq![status_op(StatusEvent::spec_remove_stacks(status, 1, ctx.this, ctx.this), time)]
        } else {
            Seq::empty()
        }),
{
    let present = has_status(&ctx.statuses, status, ctx.this);
    if present {
        ops.remove_stacks(ctx.this, status, 1, ctx.this, time);
    }
    present
}

/// Returns the main target of the action, if it has one.
pub fn first_target(ctx: &CastContext) -> (r: Option<ActorId>)
    ensures
        r == (if ctx.spec_targets().len() > 0 {
            Some(ctx.spec_targets()[0])
        } else {
            None::<ActorId>
        }),
{
    match &ctx.targets {
        Some(v) => if v.len() > 0 {
            Some(v[0])
        } else {
            None
        },
        None => None,
    }
}

/// Pushes the damage operations of an area of effect on every actor the action
/// hits: `first` to the first and `rest` to every other, in a cascade from `start`
/// by `ticks` cascade ticks.
pub fn push_aoe_all(
    ops: &mut Vec<SinkOp>,
    action: Action,
    first: DamageInstance,
    rest: DamageInstance,
    ctx: &CastContext,
    start: u32,
    ticks: u32,
)
    requires
        start + 45 * ticks * ctx.spec_targets().len() <= u32::MAX,
    ensures
        final(ops)@ == old(ops)@ + aoe_ops(
            action,
            first,
            rest,
            ctx.spec_targets(),
            start,
            (45 * ticks) as u32,
        ),
{
    match &ctx.targets {
        Some(v) => push_aoe(ops, action, first, rest, v, start, ticks),
        None => {
            assert(aoe_ops(action, first, rest, ctx.spec_targets(), start, (45 * ticks) as u32)
                =~= Seq::<SinkOp>::empty());
            assert(old(ops)@ + Seq::<SinkOp>::empty() =~= old(ops)@);
        },
    }
}

/// Pushes the operations that apply `status` from the casting actor to every
/// actor the action hits, in a cascade from `start` by `ticks` cascade ticks.
pub fn push_aoe_status(
    ops: &mut Vec<SinkOp>,
    status: StatusEffect,
    stacks: u8,
    ctx: &CastContext,
    start: u32,
    ticks: u32,
)
    requires
        start + 45 * ticks * ctx.spec_targets().len() <= u32::MAX,
    ensures
        final(ops)@ == old(ops)@ + aoe_status_ops(
            status,
            stacks,
            ctx.this,
            ctx.spec_targets(),
            start,
            (45 * ticks) as u32,
        ),
{
    let ghost base = ops@;
    let ghost tg = ctx.spec_targets();
    let ghost step = (45 * ticks) as u32;
    let ghost n = tg.len();
    let empty: Vec<ActorId> = Vec::new();
    let targets: &Vec<ActorId> = match &ctx.targets {
        Some(v) => v,
        None => &empty,
    };
    assert(targets@ == tg);
    proof {
        if n > 0 {
            assert(45 * ticks <= 45 * ticks * n) by (nonlinear_arith)
                requires
                    n >= 1,
            ;
            assert(step * n == 45 * ticks * n);
        } else {
            assert(step * n == 0) by (nonlinear_arith)
                requires
                    n == 0,
            ;
        }
    }
    let mut i: usize = 0;
    let mut cascade = crate::timing::EventCascade::new(start, if targets.len() == 0 {
        0
    } else {
        ticks
    });
    while i < targets.len()
        invariant
            i <= targets@.len(),
            n == targets@.len(),
            targets@ == tg,
            n > 0 ==> cascade.spec_amount() == step,
            cascade.spec_time() == start + i * step,
            start + step * n <= u32::MAX,
            ops@ == base + aoe_status_ops(status, stacks, ctx.this, tg, start, step).take(i as int),
        decreases targets.len() - i,
    {
        proof {
            assert(start + i * step + step <= start + step * n) by (nonlinear_arith)
                requires
                    i + 1 <= n,
            ;
            assert((i + 1) * step == i * step + step) by (nonlinear_arith);
        }
        let d = cascade.next();
        ops.apply_status(ctx.this, status, stacks, targets[i], d);
        proof {
            assert(aoe_status_ops(status, stacks, ctx.this, tg, start, step).take(i + 1)
                =~= aoe_status_ops(status, stacks, ctx.this, tg, start, step).take(i as int).push(
                apply_op(status, stacks, ctx.this, tg[i as int], d),
            ));
        }
        i = i + 1;
    }
    assert(aoe_status_ops(status, stacks, ctx.this, tg, start, step).take(n as int)
        =~= aoe_status_ops(status, stacks, ctx.this, tg, start, step));
}

/// Pushes the damage operations of an area of effect: `first` to the first target
/// and `rest` to every other, in a cascade from `start` by `ticks` cascade ticks.
pub fn push_aoe(
    ops: &mut Vec<SinkOp>,
    action: Action,
    first: DamageInstance,
    rest: DamageInstance,
    targets: &Vec<ActorId>,
    start: u32,
    ticks: u32,
)
    requires
        start + 45 * ticks * targets@.len() <= u32::MAX,
    ensures
        final(ops)@ == old(ops)@ + aoe_ops(action, first, rest, targets@, start, (45 * ticks) as u32),
{
    let ghost base = ops@;
    let ghost step = (45 * ticks) as u32;
    let ghost n = targets@.len();
    proof {
        if n > 0 {
            assert(45 * ticks <= 45 * ticks * n) by (nonlinear_arith)
                requires
                    n >= 1,
            ;
            assert(step * n == 45 * ticks * n);
        } else {
            assert(step * n == 0) by (nonlinear_arith)
                requires
                    n == 0,
            ;
        }
    }
    let mut i: usize = 0;
    let mut cascade = crate::timing::EventCascade::new(start, if targets.len() == 0 {
        0
    } else {
        ticks
    });
    while i < targets.len()
        invariant
            i <= targets@.len(),
            n == targets@.len(),
            n > 0 ==> cascade.spec_amount() == step,
            cascade.spec_time() == start + i * step,
            start + step * n <= u32::MAX,
            ops@ == base + aoe_ops(action, first, rest, targets@, start, step).take(i as int),
        decreases targets.len() - i,
    {
        proof {
            assert(start + i * step + step <= start + step * n) by (nonlinear_arith)
                requires
                    i + 1 <= n,
            ;
            assert((i + 1) * step == i * step + step) by (nonlinear_arith);
        }
        let d = cascade.next();
        let dmg = if i == 0 {
            first
        } else {
            rest
        };
        ops.damage(action, dmg, targets[i], d);
        proof {
            assert(aoe_ops(action, first, rest, targets@, start, step).take(i + 1) =~= aoe_ops(
                action,
                first,
                rest,
                targets@,
                start,
                step,
            ).take(i as int).push(damage_op(action, dmg, targets@[i as int], d)));
        }
        i = i + 1;
    }
    assert(aoe_ops(action, first, rest, targets@, start, step).take(targets@.len() as int) =~= aoe_ops(
        action,
        first,
        rest,
        targets@,
        start,
        step,
    ));
}

} // verus!
