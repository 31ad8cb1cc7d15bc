//! Interacting with jobs.
//!
//! This module contains the logic for every job. The most important parts are the
//! `check_cast` and `cast_snap` functions of each job: they decide what happens
//! when an action of the job is cast.
use vstd::prelude::*;

use crate::enums::{spec_job_name, ActionCategory, Job};
use crate::timing::{DurationInfo, ScaleTime};
use crate::world::{apply_op, ActorId, CastContext, Event, EventError, Faction, SinkOp};
use rand::rngs::StdRng;
use vstd::string::StringExecFns;

/// Actions shared by every job of a role.
pub mod role;
/// Logic and types for Bard.
pub mod brd;
/// Logic and types for Samurai.
pub mod sam;
/// Logic and types for Dancer.
pub mod dnc;
/// Logic and types for Reaper.
pub mod rpr;

use self::brd::{
    spec_brd_cast_snap, spec_rolls_hawks_eye, spec_song_buff, spec_song_tick, RepertoireProc, spec_brd_cast_info, spec_brd_check_error, spec_brd_error_message, BrdAction, BrdCdGroup, BrdError,
    BrdEvent, BrdJob, BrdJobEffect, BrdState,
};
use self::dnc::{
    spec_dnc_cast_snap, spec_dnc_roll, spec_dnc_rolled, Step, spec_dnc_cast_info, spec_dnc_check_errors, DncAction, DncCdGroup, DncError, DncJob, DncState,
};
use self::rpr::{
    spec_rpr_cast_snap, spec_rpr_damage_dealt, spec_rpr_cast, spec_rpr_cast_info, spec_rpr_check_errors, spec_rpr_error_message, RprAction,
    RprCdGroup, RprError, RprJob, RprState,
};
use self::sam::{
    spec_sam_cast_snap, spec_sam_cast, spec_sam_cast_info, spec_sam_check_errors, spec_sam_error_message, SamAction,
    SamCdGroup, SamError, SamJob, SamState,
};

verus! {

/// A trait that job actions implement.
pub trait JobAction: Sized {
    /// The category the action belongs to.
    spec fn spec_category(&self) -> ActionCategory;

    /// Whether the action is a GCD.
    spec fn spec_gcd(&self) -> bool;

    /// Returns the action category the action belongs to.
    fn category(&self) -> (r: ActionCategory)
        ensures
            r == self.spec_category(),
    ;

    /// Returns `true` if the action is a GCD.
    fn gcd(&self) -> (r: bool)
        ensures
            r == self.spec_gcd(),
    ;
}

/// A trait that job states implement.
pub trait JobState: Sized {
    /// `true` if `next` is this state after `time` passes.
    spec fn spec_advanced(&self, time: u32, next: &Self) -> bool;

    /// Advances the state forward by a certain amount of time.
    fn advance(&mut self, time: u32)
        ensures
            old(self).spec_advanced(time, &*final(self)),
    ;
}

/// A collection of timing information to be applied when an action is cast.
#[derive(Clone, Copy, Debug, PartialEq, Eq, Structural)]
pub struct CastInitInfo<C> {
    /// The GCD to apply.
    ///
    /// This should be `0` if the action is not a GCD.
    pub gcd: u16,
    /// The cast lock to apply: the time it takes to cast the action, or the
    /// animation lock of an instantly cast action.
    pub lock: u16,
    /// The amount of time before the cast snapshots.
    pub snap: u16,
    /// The MP cost of the action.
    pub mp: u16,
    /// The cooldown to apply: the cooldown group, the cooldown of the action and
    /// the number of charges the action can hold (not the number of charges to consume).
    pub cd: Option<(C, u32, u8)>,
    /// The alternate cooldown to apply, used for the time between uses of a
    /// charged action.
    pub alt_cd: Option<(C, u32, u8)>,
}

/// An action for a particular job.
#[derive(Clone, Copy, Debug, PartialEq, Eq, Hash, Structural)]
pub enum Action {
    /// The value for the job "Bard".
    Brd(BrdAction),
    /// The value for the job "Samurai".
    Sam(SamAction),
    /// The value for the job "Dancer".
    Dnc(DncAction),
    /// The value for the job "Reaper".
    Rpr(RprAction),
}

/// An error specific to some particular job.
#[derive(Clone, Copy, Debug, PartialEq, Eq, Structural)]
pub enum CastError {
    /// The value for the job "Bard".
    Brd(BrdError),
    /// The value for the job "Samurai".
    Sam(SamError),
    /// The value for the job "Dancer".
    Dnc(DncError),
    /// The value for the job "Reaper".
    Rpr(RprError),
}

/// The cooldown groups of a particular job.
#[derive(Clone, Copy, Debug, PartialEq, Eq, Hash, Structural)]
pub enum CdGroup {
    /// The value for the job "Bard".
    Brd(BrdCdGroup),
    /// The value for the job "Samurai".
    Sam(SamCdGroup),
    /// The value for the job "Dancer".
    Dnc(DncCdGroup),
    /// The value for the job "Reaper".
    Rpr(RprCdGroup),
}

/// An event specific to some particular job.
#[derive(Clone, Copy, Debug)]
pub enum JobEvent {
    /// The value for the job "Bard".
    Brd(BrdEvent),
    /// The value for the job "Samurai".
    Sam(()),
    /// The value for the job "Dancer".
    Dnc(()),
    /// The value for the job "Reaper".
    Rpr(()),
}

/// The category of an action.
pub open spec fn spec_action_category(a: Action) -> ActionCategory {
    match a {
        Action::Brd(v) => brd::spec_brd_category(v),
        Action::Sam(v) => sam::spec_sam_category(v),
        Action::Dnc(v) => dnc::spec_dnc_category(v),
        Action::Rpr(v) => rpr::spec_rpr_category(v),
    }
}

/// Whether an action is a GCD.
pub open spec fn spec_action_gcd(a: Action) -> bool {
    match a {
        Action::Brd(v) => brd::spec_brd_gcd(v) is Some,
        Action::Sam(v) => sam::spec_sam_gcd(v) is Some,
        Action::Dnc(v) => dnc::spec_dnc_gcd(v) is Some,
        Action::Rpr(v) => rpr::spec_rpr_gcd(v) is Some,
    }
}

/// The name of an action.
pub open spec fn spec_action_name(a: Action) -> Seq<char> {
    match a {
        Action::Brd(v) => brd::spec_brd_name(v),
        Action::Sam(v) => sam::spec_sam_name(v),
        Action::Dnc(v) => dnc::spec_dnc_name(v),
        Action::Rpr(v) => rpr::spec_rpr_name(v),
    }
}

impl Action {
    /// Returns the category of the action.
    pub fn category(&self) -> (r: ActionCategory)
        ensures
            r == spec_action_category(*self),
    {
        match self {
            Action::Brd(v) => v.category(),
            Action::Sam(v) => v.category(),
            Action::Dnc(v) => v.category(),
            Action::Rpr(v) => v.category(),
        }
    }

    /// Returns `true` if the action is a GCD.
    pub fn gcd(&self) -> (r: bool)
        ensures
            r == spec_action_gcd(*self),
    {
        match self {
            Action::Brd(v) => v.gcd().is_some(),
            Action::Sam(v) => v.gcd().is_some(),
            Action::Dnc(v) => v.gcd().is_some(),
            Action::Rpr(v) => v.gcd().is_some(),
        }
    }

    /// Returns the name of the action.
    pub fn name(&self) -> (r: &'static str)
        ensures
            r@ == spec_action_name(*self),
    {
        match self {
            Action::Brd(v) => v.name(),
            Action::Sam(v) => v.name(),
            Action::Dnc(v) => v.name(),
            Action::Rpr(v) => v.name(),
        }
    }

}


/// The cast timing information with its cooldown groups mapped through `f`.
pub open spec fn spec_map_cd_group<C, T>(info: CastInitInfo<C>, f: spec_fn(C) -> T) -> CastInitInfo<T> {
    CastInitInfo {
        gcd: info.gcd,
        lock: info.lock,
        snap: info.snap,
        mp: info.mp,
        cd: match info.cd {
            Some((g, c, n)) => Some((f(g), c, n)),
            None => None,
        },
        alt_cd: match info.alt_cd {
            Some((g, c, n)) => Some((f(g), c, n)),
            None => None,
        },
    }
}

impl<C> CastInitInfo<C> {
    /// Maps the cooldown groups of the information through `f`.
    fn map_cd_group<T, F: Fn(C) -> T>(self, f: F) -> (r: CastInitInfo<T>)
        requires
            forall|c: C| #[trigger] f.requires((c,)),
        ensures
            r.gcd == self.gcd,
            r.lock == self.lock,
            r.snap == self.snap,
            r.mp == self.mp,
            self.cd is None ==> r.cd is None,
            self.cd matches Some(x) ==> (r.cd matches Some(y) && f.ensures((x.0,), y.0) && y.1 == x.1
                && y.2 == x.2),
            self.alt_cd is None ==> r.alt_cd is None,
            self.alt_cd matches Some(x) ==> (r.alt_cd matches Some(y) && f.ensures((x.0,), y.0) && y.1
                == x.1 && y.2 == x.2),
    {
        let cd = match self.cd {
            Some((g, c, n)) => Some((f(g), c, n)),
            None => None,
        };
        let alt_cd = match self.alt_cd {
            Some((g, c, n)) => Some((f(g), c, n)),
            None => None,
        };
        CastInitInfo { gcd: self.gcd, lock: self.lock, snap: self.snap, mp: self.mp, cd, alt_cd }
    }
}

/// `true` when the cast times of a cast of `cast` fit the timing information: the
/// animation lock of an instant cast, or the cast time with its snapshot margin.
pub open spec fn spec_cast_fits<D: DurationInfo>(di: &D, cast: ScaleTime) -> bool {
    &&& (di.spec_duration(cast) as u16) == 0 ==> 600 + di.spec_extra_ani_lock() <= u16::MAX
    &&& (di.spec_duration(cast) as u16) != 0 ==> (di.spec_duration(cast) as u16) + 10 <= u16::MAX
}

/// A particular job.
#[derive(Clone, Copy, Debug, PartialEq, Eq, Hash, Structural)]
pub enum DynJob {
    /// The job "Bard".
    Brd,
    /// The job "Samurai".
    Sam,
    /// The job "Dancer".
    Dnc,
    /// The job "Reaper".
    Rpr,
}

/// The state of a particular job.
#[derive(Clone, Copy, Debug)]
pub enum State {
    /// The state for the job "Bard".
    Brd(BrdState),
    /// The state for the job "Samurai".
    Sam(SamState),
    /// The state for the job "Dancer".
    Dnc(DncState),
    /// The state for the job "Reaper".
    Rpr(RprState),
}

/// The job of the enum variant of a job.
pub open spec fn spec_dyn_job(j: DynJob) -> Job {
    match j {
        DynJob::Brd => Job::BRD,
        DynJob::Sam => Job::SAM,
        DynJob::Dnc => Job::DNC,
        DynJob::Rpr => Job::RPR,
    }
}

/// `true` for the jobs that have an implementation.
pub open spec fn spec_implemented(job: Job) -> bool {
    job is BRD || job is SAM || job is DNC || job is RPR
}

/// `true` when the action and the state both belong to the job.
pub open spec fn spec_matches(j: DynJob, action: Action, state: State) -> bool {
    match (j, action, state) {
        (DynJob::Brd, Action::Brd(_), State::Brd(_)) => true,
        (DynJob::Sam, Action::Sam(_), State::Sam(_)) => true,
        (DynJob::Dnc, Action::Dnc(_), State::Dnc(_)) => true,
        (DynJob::Rpr, Action::Rpr(_), State::Rpr(_)) => true,
        _ => false,
    }
}

/// `true` when the state belongs to the job.
pub open spec fn spec_state_matches(j: DynJob, state: State) -> bool {
    match (j, state) {
        (DynJob::Brd, State::Brd(_)) => true,
        (DynJob::Sam, State::Sam(_)) => true,
        (DynJob::Dnc, State::Dnc(_)) => true,
        (DynJob::Rpr, State::Rpr(_)) => true,
        _ => false,
    }
}

/// `true` when the timing information fits the cast times of the action.
pub open spec fn spec_check_fits<D: DurationInfo>(action: Action, di: &D) -> bool {
    match action {
        Action::Brd(_) => spec_cast_fits(di, ScaleTime::spec_of(0, None, false)),
        Action::Sam(a) => spec_cast_fits(di, spec_sam_cast(a)),
        Action::Dnc(_) => spec_cast_fits(di, ScaleTime::spec_of(0, None, false)),
        Action::Rpr(a) => spec_cast_fits(di, spec_rpr_cast(a)),
    }
}

/// The cooldown group of a Bard cooldown group.
fn brd_group(g: BrdCdGroup) -> (c: CdGroup)
    ensures
        c == CdGroup::Brd(g),
{
    CdGroup::Brd(g)
}

/// The cooldown group of a Samurai cooldown group.
fn sam_group(g: SamCdGroup) -> (c: CdGroup)
    ensures
        c == CdGroup::Sam(g),
{
    CdGroup::Sam(g)
}

/// The cooldown group of a Dancer cooldown group.
fn dnc_group(g: DncCdGroup) -> (c: CdGroup)
    ensures
        c == CdGroup::Dnc(g),
{
    CdGroup::Dnc(g)
}

/// The cooldown group of a Reaper cooldown group.
fn rpr_group(g: RprCdGroup) -> (c: CdGroup)
    ensures
        c == CdGroup::Rpr(g),
{
    CdGroup::Rpr(g)
}

/// What the world knows, for a job, of the actor an event is about: the source of
/// a damage event, or the actor that ticks.
#[derive(Clone, Copy, Debug, PartialEq, Eq, Structural)]
pub struct EventActor {
    /// The faction of the actor.
    pub faction: Faction,
    /// `true` if the actor is within `50` yalms of the job's actor, the reach of a song.
    pub in_song_range: bool,
    /// `true` if the actor has the Circle of Sacrifice of the job's actor.
    pub has_circle: bool,
}

/// `true` when a song tick of generation `gen` rolls for a Repertoire proc: the
/// song is the one that ticks and has time left.
pub open spec fn spec_song_tick_rolls(s: BrdState, gen: u16) -> bool {
    s.song matches Some((_, t)) && gen == s.song_gen && t != 0
}

impl DynJob {
    /// Checks that a certain action may be cast, and returns the timing
    /// information of the cast, with the cooldown groups of the job.
    ///
    /// Samurai, Dancer and Reaper submit each requirement the action does not meet
    /// as an error and always return the information; Bard returns its first unmet
    /// requirement as an [`Err`] instead.
    pub fn check_cast<D: DurationInfo>(
        &self,
        action: Action,
        state: &State,
        ctx: &CastContext,
        di: &D,
        ops: &mut Vec<SinkOp>,
    ) -> (r: Result<CastInitInfo<CdGroup>, EventError>)
        requires
            spec_matches(*self, action, *state),
            spec_check_fits(action, di),
        ensures
            match (action, *state) {
                (Action::Brd(a), State::Brd(s)) => {
                    &&& final(ops)@ == old(ops)@
                    &&& r == match spec_brd_check_error(a, s.gauges(), *ctx) {
                        Some(e) => Err(e),
                        None => Ok(
                            spec_map_cd_group(spec_brd_cast_info(a, di), |g: BrdCdGroup| CdGroup::Brd(g)),
                        ),
                    }
                },
                (Action::Sam(a), State::Sam(s)) => {
                    &&& final(ops)@ == old(ops)@ + spec_sam_check_errors(a, s, *ctx)
                    &&& r == Ok::<CastInitInfo<CdGroup>, EventError>(
                        spec_map_cd_group(spec_sam_cast_info(a, di), |g: SamCdGroup| CdGroup::Sam(g)),
                    )
                },
                (Action::Dnc(a), State::Dnc(s)) => {
                    &&& final(ops)@ == old(ops)@ + spec_dnc_check_errors(a, s.gauges(), *ctx)
                    &&& r == Ok::<CastInitInfo<CdGroup>, EventError>(
                        spec_map_cd_group(spec_dnc_cast_info(a, di), |g: DncCdGroup| CdGroup::Dnc(g)),
                    )
                },
                (Action::Rpr(a), State::Rpr(s)) => {
                    &&& final(ops)@ == old(ops)@ + spec_rpr_check_errors(a, s, *ctx)
                    &&& r == Ok::<CastInitInfo<CdGroup>, EventError>(
                        spec_map_cd_group(spec_rpr_cast_info(a, di), |g: RprCdGroup| CdGroup::Rpr(g)),
                    )
                },
                _ => false,
            },
    {
        match (self, action, state) {
            (DynJob::Brd, Action::Brd(a), State::Brd(s)) => {
                match BrdJob::check_cast(a, s, ctx, di) {
                    Ok(info) => Ok(info.map_cd_group(brd_group)),
                    Err(e) => Err(e),
                }
            },
            (DynJob::Sam, Action::Sam(a), State::Sam(s)) => {
                let info = SamJob::check_cast(a, s, ctx, di, ops);
                Ok(info.map_cd_group(sam_group))
            },
            (DynJob::Dnc, Action::Dnc(a), State::Dnc(s)) => {
                let info = DncJob::check_cast(a, s, ctx, di, ops);
                Ok(info.map_cd_group(dnc_group))
            },
            (DynJob::Rpr, Action::Rpr(a), State::Rpr(s)) => {
                let info = RprJob::check_cast(a, s, ctx, di, ops);
                Ok(info.map_cd_group(rpr_group))
            },
            _ => vstd::pervasive::unreached(),
        }
    }

    /// Rolls what a cast needs, then executes the action with the job of the
    /// actor: see each job's `roll_and_cast`. Only Bard returns an error beside its
    /// operations; the other jobs return `Ok`.
    pub fn cast_snap(
        &self,
        action: Action,
        state: &mut State,
        ctx: &CastContext,
        buff_targets: &Vec<(ActorId, bool)>,
        rng: &mut StdRng,
    ) -> (r: (Vec<SinkOp>, Result<(), EventError>))
        requires
            spec_matches(*self, action, *old(state)),
            135 * ctx.spec_targets().len() <= u32::MAX,
            1000 + 270 * buff_targets@.len() + 20000 <= u32::MAX,
        ensures
            match (action, *old(state), *final(state)) {
                (Action::Brd(a), State::Brd(s0), State::Brd(s1)) => exists|hawks_eye: bool|
                    {
                        &&& (spec_rolls_hawks_eye(a, ctx.spec_targets().len() > 0) || !hawks_eye)
                        &&& s1.gauges() == #[trigger] spec_brd_cast_snap(a, s0.gauges(), *ctx, hawks_eye).0
                        &&& r.0@ == spec_brd_cast_snap(a, s0.gauges(), *ctx, hawks_eye).1
                        &&& r.1 == spec_brd_cast_snap(a, s0.gauges(), *ctx, hawks_eye).2
                    },
                (Action::Sam(a), State::Sam(s0), State::Sam(s1)) => {
                    &&& s1.gauges() == spec_sam_cast_snap(a, s0.gauges(), *ctx).0
                    &&& r.0@ == spec_sam_cast_snap(a, s0.gauges(), *ctx).1
                    &&& s1.cds == s0.cds
                    &&& r.1 is Ok
                },
                (Action::Dnc(a), State::Dnc(s0), State::Dnc(s1)) => exists|
                    proc: bool,
                    std_steps: [Step; 2],
                    tech_steps: [Step; 4],
                |
                    {
                        &&& spec_dnc_rolled(
                            spec_dnc_roll(a, s0.gauges(), ctx.spec_targets().len() > 0),
                            proc,
                            std_steps,
                            tech_steps,
                        )
                        &&& s1.gauges() == #[trigger] spec_dnc_cast_snap(
                            a,
                            s0.gauges(),
                            *ctx,
                            proc,
                            std_steps,
                            tech_steps,
                            buff_targets@,
                        ).0
                        &&& r.0@ == spec_dnc_cast_snap(
                            a,
                            s0.gauges(),
                            *ctx,
                            proc,
                            std_steps,
                            tech_steps,
                            buff_targets@,
                        ).1
                        &&& r.1 is Ok
                    },
                (Action::Rpr(a), State::Rpr(s0), State::Rpr(s1)) => {
                    &&& s1.gauges() == spec_rpr_cast_snap(a, s0.gauges(), *ctx).0
                    &&& r.0@ == spec_rpr_cast_snap(a, s0.gauges(), *ctx).1
                    &&& r.1 is Ok
                },
                _ => false,
            },
    {
        match (self, action, state) {
            (DynJob::Brd, Action::Brd(a), State::Brd(s)) => BrdJob::roll_and_cast(a, s, ctx, rng),
            (DynJob::Sam, Action::Sam(a), State::Sam(s)) => (SamJob::cast_snap(a, s, ctx), Ok(())),
            (DynJob::Dnc, Action::Dnc(a), State::Dnc(s)) => (
                DncJob::roll_and_cast(a, s, ctx, buff_targets, rng),
                Ok(()),
            ),
            (DynJob::Rpr, Action::Rpr(a), State::Rpr(s)) => (RprJob::cast_snap(a, s, ctx), Ok(())),
            _ => vstd::pervasive::unreached(),
        }
    }

    /// Reacts to an event as the actor `me` of the job: a Bard's own song ticks
    /// (rolling for a Repertoire proc) and the ticks of party members in the
    /// reach of its song, and the damage events a Reaper's Circle of Sacrifice
    /// answers. `actor` is what the world knows of the actor the event is about,
    /// if it has one. Any other event changes nothing.
    pub fn event(
        &self,
        state: &mut State,
        me: ActorId,
        event: &Event,
        actor: Option<EventActor>,
        rng: &mut StdRng,
    ) -> (ops: Vec<SinkOp>)
        requires
            spec_state_matches(*self, *old(state)),
        ensures
            match (*event, *old(state), *final(state)) {
                (Event::Job(JobEvent::Brd(BrdEvent::SongTick { gen }), src), State::Brd(s0), State::Brd(
                    s1,
                )) if src == me => exists|rep_proc: bool|
                    {
                        &&& (spec_song_tick_rolls(s0, gen) || !rep_proc)
                        &&& s1.gauges() == #[trigger] spec_song_tick(s0.gauges(), me, gen, rep_proc).0
                        &&& ops@ == spec_song_tick(s0.gauges(), me, gen, rep_proc).1
                    },
                (Event::ActorTick(other), State::Brd(s0), State::Brd(s1)) => {
                    &&& s1 == s0
                    &&& ops@ == match (s0.gauges().song, actor) {
                        (Some((s, _)), Some(a)) => if a.faction == Faction::Party && a.in_song_range {
                            seq![apply_op(spec_song_buff(s), 1, me, other, 0)]
                        } else {
                            Seq::empty()
                        },
                        _ => Seq::empty(),
                    }
                },
                (Event::Damage(d), State::Rpr(s0), State::Rpr(s1)) => {
                    &&& s1 == s0
                    &&& ops@ == match actor {
                        Some(a) => spec_rpr_damage_dealt(me, d, a.faction, a.has_circle),
                        None => Seq::empty(),
                    }
                },
                _ => *final(state) == *old(state) && ops@.len() == 0,
            },
    {
        match (self, event, state) {
            (DynJob::Brd, Event::Job(JobEvent::Brd(BrdEvent::SongTick { gen }), src), State::Brd(s)) => {
                if *src == me {
                    let gen = *gen;
                    let rolls = match s.song {
                        Some((_, t)) => gen == s.song_gen && t != 0,
                        None => false,
                    };
                    let rep_proc = if rolls {
                        RepertoireProc.sample(rng)
                    } else {
                        false
                    };
                    BrdJob::song_tick(s, me, gen, rep_proc)
                } else {
                    Vec::new()
                }
            },
            (DynJob::Brd, Event::ActorTick(other), State::Brd(s)) => {
                match actor {
                    Some(a) => BrdJob::actor_tick(s, me, *other, a.faction == Faction::Party && a.in_song_range),
                    None => Vec::new(),
                }
            },
            (DynJob::Rpr, Event::Damage(d), State::Rpr(_)) => {
                match actor {
                    Some(a) => RprJob::damage_dealt(me, d, a.faction, a.has_circle),
                    None => Vec::new(),
                }
            },
            _ => Vec::new(),
        }
    }

    /// Returns the effect the job state has on the values of the actor, or `None`
    /// if the job has none: only Bard has one.
    pub fn effect(&self, state: &State) -> (r: Option<BrdJobEffect>)
        requires
            spec_state_matches(*self, *state),
        ensures
            r == match *state {
                State::Brd(s) => Some(BrdJobEffect(s)),
                _ => None::<BrdJobEffect>,
            },
    {
        match state {
            State::Brd(s) => BrdJob::effect(s),
            _ => None,
        }
    }

    /// Returns the job associated with the enum variant.
    pub fn job(&self) -> (r: Job)
        ensures
            r == spec_dyn_job(*self),
    {
        match self {
            DynJob::Brd => Job::BRD,
            DynJob::Sam => Job::SAM,
            DynJob::Dnc => Job::DNC,
            DynJob::Rpr => Job::RPR,
        }
    }

    /// Returns the enum variant associated with the job, which must be one of the
    /// jobs that have an implementation.
    pub fn from_job(job: Job) -> (r: Self)
        requires
            spec_implemented(job),
        ensures
            spec_dyn_job(r) == job,
    {
        match job {
            Job::BRD => DynJob::Brd,
            Job::SAM => DynJob::Sam,
            Job::DNC => DynJob::Dnc,
            _ => DynJob::Rpr,
        }
    }
}

impl State {
    /// The job of the state.
    pub open spec fn spec_job(&self) -> Job {
        match *self {
            State::Brd(_) => Job::BRD,
            State::Sam(_) => Job::SAM,
            State::Dnc(_) => Job::DNC,
            State::Rpr(_) => Job::RPR,
        }
    }

    /// Returns the job associated with the enum variant.
    pub fn job(&self) -> (r: Job)
        ensures
            r == self.spec_job(),
    {
        match self {
            State::Brd(_) => Job::BRD,
            State::Sam(_) => Job::SAM,
            State::Dnc(_) => Job::DNC,
            State::Rpr(_) => Job::RPR,
        }
    }

    /// Returns the state of a job that has done nothing yet, for one of the jobs
    /// that have an implementation.
    pub fn default_for(job: Job) -> (r: Self)
        requires
            spec_implemented(job),
        ensures
            r.spec_job() == job,
            match r {
                State::Brd(s) => s.spec_is_new(),
                State::Sam(s) => s.spec_is_new(),
                State::Dnc(s) => s.spec_is_new(),
                State::Rpr(s) => s.spec_is_new(),
            },
    {
        match job {
            Job::BRD => State::Brd(BrdState::new()),
            Job::SAM => State::Sam(SamState::new()),
            Job::DNC => State::Dnc(DncState::new()),
            _ => State::Rpr(RprState::new()),
        }
    }

    /// Advances the state for the job by a certain amount of time.
    pub fn advance(&mut self, time: u32)
        ensures
            match (*old(self), *final(self)) {
                (State::Brd(a), State::Brd(b)) => a.spec_advanced(time, &b),
                (State::Sam(a), State::Sam(b)) => a.spec_advanced(time, &b),
                (State::Dnc(a), State::Dnc(b)) => a.spec_advanced(time, &b),
                (State::Rpr(a), State::Rpr(b)) => a.spec_advanced(time, &b),
                _ => false,
            },
    {
        match self {
            State::Brd(v) => v.advance(time),
            State::Sam(v) => v.advance(time),
            State::Dnc(v) => v.advance(time),
            State::Rpr(v) => v.advance(time),
        }
    }
}

/// The job of an action.
pub open spec fn spec_action_job(a: Action) -> Job {
    match a {
        Action::Brd(_) => Job::BRD,
        Action::Sam(_) => Job::SAM,
        Action::Dnc(_) => Job::DNC,
        Action::Rpr(_) => Job::RPR,
    }
}

impl Action {
    /// Returns the job associated with the enum variant.
    pub fn job(&self) -> (r: Job)
        ensures
            r == spec_action_job(*self),
    {
        match self {
            Action::Brd(_) => Job::BRD,
            Action::Sam(_) => Job::SAM,
            Action::Dnc(_) => Job::DNC,
            Action::Rpr(_) => Job::RPR,
        }
    }
}

impl CdGroup {
    /// Returns the job associated with the enum variant.
    pub fn job(&self) -> (r: Job)
        ensures
            r == match *self {
                CdGroup::Brd(_) => Job::BRD,
                CdGroup::Sam(_) => Job::SAM,
                CdGroup::Dnc(_) => Job::DNC,
                CdGroup::Rpr(_) => Job::RPR,
            },
    {
        match self {
            CdGroup::Brd(_) => Job::BRD,
            CdGroup::Sam(_) => Job::SAM,
            CdGroup::Dnc(_) => Job::DNC,
            CdGroup::Rpr(_) => Job::RPR,
        }
    }
}

/// The message of an error specific to a job: the name of the job, then the
/// message of the error.
pub open spec fn spec_cast_error_message(e: CastError) -> Seq<char> {
    match e {
        CastError::Brd(v) => spec_job_name(Job::BRD) + ": "@ + spec_brd_error_message(v),
        CastError::Sam(v) => spec_job_name(Job::SAM) + ": "@ + spec_sam_error_message(v),
        CastError::Rpr(v) => spec_job_name(Job::RPR) + ": "@ + spec_rpr_error_message(v),
        CastError::Dnc(_) => Seq::empty(),
    }
}

impl CastError {
    /// Returns the job associated with the enum variant.
    pub fn job(&self) -> (r: Job)
        ensures
            r == match *self {
                CastError::Brd(_) => Job::BRD,
                CastError::Sam(_) => Job::SAM,
                CastError::Dnc(_) => Job::DNC,
                CastError::Rpr(_) => Job::RPR,
            },
    {
        match self {
            CastError::Brd(_) => Job::BRD,
            CastError::Sam(_) => Job::SAM,
            CastError::Dnc(_) => Job::DNC,
            CastError::Rpr(_) => Job::RPR,
        }
    }

    /// Returns the message of the error: the name of the job, then the message of
    /// the error. The errors of Dancer have no message.
    pub fn message(&self) -> (r: String)
        requires
            !(*self is Dnc),
        ensures
            r@ == spec_cast_error_message(*self),
    {
        let (job, text) = match self {
            CastError::Brd(v) => (Job::BRD, v.message()),
            CastError::Sam(v) => (Job::SAM, v.message()),
            CastError::Rpr(v) => (Job::RPR, v.message()),
            CastError::Dnc(_) => (Job::DNC, String::new()),
        };
        let head = String::from_str(job.name()).concat(": ");
        head.concat(text.as_str())
    }
}

impl JobEvent {
    /// Returns the job associated with the enum variant.
    pub fn job(&self) -> (r: Job)
        ensures
            r == match *self {
                JobEvent::Brd(_) => Job::BRD,
                JobEvent::Sam(_) => Job::SAM,
                JobEvent::Dnc(_) => Job::DNC,
                JobEvent::Rpr(_) => Job::RPR,
            },
    {
        match self {
            JobEvent::Brd(_) => Job::BRD,
            JobEvent::Sam(_) => Job::SAM,
            JobEvent::Dnc(_) => Job::DNC,
            JobEvent::Rpr(_) => Job::RPR,
        }
    }

    /// Creates an [`Event`] from the event for the job "Bard".
    pub fn brd(event: BrdEvent, actor: ActorId) -> (r: Event)
        ensures
            r == Event::Job(JobEvent::Brd(event), actor),
    {
        Event::Job(JobEvent::Brd(event), actor)
    }

    /// Creates an [`Event`] from the event for the job "Samurai".
    pub fn sam(event: (), actor: ActorId) -> (r: Event)
        ensures
            r == Event::Job(JobEvent::Sam(event), actor),
    {
        Event::Job(JobEvent::Sam(event), actor)
    }

    /// Creates an [`Event`] from the event for the job "Dancer".
    pub fn dnc(event: (), actor: ActorId) -> (r: Event)
        ensures
            r == Event::Job(JobEvent::Dnc(event), actor),
    {
        Event::Job(JobEvent::Dnc(event), actor)
    }

    /// Creates an [`Event`] from the event for the job "Reaper".
    pub fn rpr(event: (), actor: ActorId) -> (r: Event)
        ensures
            r == Event::Job(JobEvent::Rpr(event), actor),
    {
        Event::Job(JobEvent::Rpr(event), actor)
    }
}

} // verus!
