//! The timing facts a timeline needs of an action: its GCD, its lock, and the
//! cooldown it starts.
use vstd::prelude::*;

use crate::job::sam::{spec_sam_cast, spec_sam_cd_group, spec_sam_cooldown, spec_sam_gcd, SamAction, SamCdGroup, SamState};
use crate::timing::{spec_cast_times, DurationInfo, ScaleTime};

verus! {

/// The timing of an action on a timeline.
#[derive(Clone, Copy, Debug, PartialEq, Eq, Structural)]
pub struct SimpleTimelineInfo<C> {
    /// The GCD the action starts, `0` if it is not a GCD.
    pub gcd: u16,
    /// The time the action locks its caster.
    pub lock: u16,
    /// The cooldown the action starts, with its group, if it has one.
    pub cd: Option<(u32, C)>,
}

/// Actions whose timing a timeline can read.
pub trait TimelineInfoExt<D: DurationInfo> {
    /// The state of the job.
    type State;
    /// The cooldown groups of the job.
    type CooldownGroup;

    /// `true` when the timing of the action can be computed with these durations.
    spec fn timeline_defined(&self, di: &D) -> bool;

    /// The timing of the action.
    spec fn spec_timeline_info(&self, state: &Self::State, di: &D) -> SimpleTimelineInfo<
        Self::CooldownGroup,
    >;

    /// Returns the timing of the action, with durations scaled by `di`.
    fn timeline_info(&self, state: &Self::State, di: &D) -> (r: SimpleTimelineInfo<
        Self::CooldownGroup,
    >)
        requires
            self.timeline_defined(di),
        ensures
            r == self.spec_timeline_info(state, di),
    ;
}

impl<D: DurationInfo> TimelineInfoExt<D> for SamAction {
    type State = SamState;

    type CooldownGroup = SamCdGroup;

    /// The cast of the action, unscaled, locks for no more than a `u16` can hold.
    open spec fn timeline_defined(&self, di: &D) -> bool {
        let c = di.spec_duration(ScaleTime::spec_of(spec_sam_cast(*self).spec_duration(), None, false))
            as u16;
        &&& c == 0 ==> 600 + di.spec_extra_ani_lock() <= u16::MAX
        &&& c != 0 ==> c + 10 <= u16::MAX
    }

    /// A Samurai action's GCD scales with Skill Speed; its cast never does.
    open spec fn spec_timeline_info(&self, state: &SamState, di: &D) -> SimpleTimelineInfo<
        SamCdGroup,
    > {
        SimpleTimelineInfo {
            gcd: match spec_sam_gcd(*self) {
                Some(g) => di.spec_duration(g) as u16,
                None => 0,
            },
            lock: spec_cast_times(
                di.spec_duration(ScaleTime::spec_of(spec_sam_cast(*self).spec_duration(), None, false))
                    as u16,
                600,
                di.spec_extra_ani_lock(),
            ).0,
            cd: match spec_sam_cd_group(*self) {
                Some(v) => Some((spec_sam_cooldown(*self), v)),
                None => None,
            },
        }
    }

    fn timeline_info(&self, state: &SamState, di: &D) -> (r: SimpleTimelineInfo<
        SamCdGroup,
    >) {
        let gcd = match self.gcd() {
            Some(g) => di.get_duration(g) as u16,
            None => 0,
        };
        let cast = ScaleTime::none(self.cast().duration());
        let lock = di.get_cast(cast, 600).0;
        let cd = match self.cd_group() {
            Some(v) => Some((self.cooldown(), v)),
            None => None,
        };
        SimpleTimelineInfo { gcd, lock, cd }
    }
}

} // verus!
