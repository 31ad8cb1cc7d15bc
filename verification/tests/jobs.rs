use xivc::enums::ActionCategory;
use xivc::job::role::{true_north, MeleeRoleAction};
use xivc::job::rpr::{RprAction, RprJob, RprState};
use xivc::job::sam::{fugetsu, MainCombo, SamAction, SamCdGroup, SamJob, SamState};
use xivc::enums::Job;
use xivc::job::brd::{BrdAction, BrdError, BrdEvent, BrdState};
use xivc::job::{self, CastError, CdGroup, DynJob, JobAction, JobEvent, State};
use xivc::timeline::{SimpleTimelineInfo, TimelineInfoExt};
use xivc::timing::{DurationInfo, ScaleTime};
use xivc::world::status::StatusEventKind;
use xivc::world::{Action, ActorId, CastContext, Event, EventError, SinkOp};

struct Unscaled;

impl DurationInfo for Unscaled {
    fn spec_duration(&self, duration: ScaleTime) -> u64 {
        duration.duration() as u64
    }

    fn spec_extra_ani_lock(&self) -> u16 {
        100
    }

    fn extra_ani_lock(&self) -> u16 {
        100
    }

    fn get_duration(&self, duration: ScaleTime) -> u64 {
        duration.duration() as u64
    }
}

fn ctx(targets: Option<Vec<ActorId>>) -> CastContext {
    CastContext {
        this: ActorId(1),
        statuses: Vec::new(),
        in_combat: true,
        targets,
        target_statuses: Vec::new(),
        positional: false,
    }
}

fn damages(ops: &[SinkOp]) -> Vec<(u64, ActorId)> {
    ops.iter()
        .filter_map(|op| match op {
            SinkOp::Damage { damage, target, .. } => Some((damage.dmg, *target)),
            _ => None,
        })
        .collect()
}

#[test]
fn sam_hakaze_hits_and_starts_the_combo() {
    let mut s = SamState::default();
    let ops = SamJob::cast_snap(SamAction::Hakaze, &mut s, &ctx(Some(vec![ActorId(2)])));
    assert_eq!(damages(&ops), vec![(200, ActorId(2))]);
    assert_eq!(s.kenki.value(), 5);
    assert!(s.combos.main.check(MainCombo::Hakaze));
}

#[test]
fn sam_jinpu_after_hakaze_is_comboed() {
    let mut s = SamState::default();
    let c = ctx(Some(vec![ActorId(2)]));
    SamJob::cast_snap(SamAction::Hakaze, &mut s, &c);
    let ops = SamJob::cast_snap(SamAction::Jinpu, &mut s, &c);
    assert_eq!(damages(&ops), vec![(280, ActorId(2))]);
    assert_eq!(s.kenki.value(), 10);
    let applies_fugetsu = ops.iter().any(|op| match op {
        SinkOp::Event { event: Event::Status(e), .. } => {
            e.status == fugetsu() && matches!(e.kind, StatusEventKind::Apply { .. })
        }
        _ => false,
    });
    assert!(applies_fugetsu);
}

#[test]
fn sam_jinpu_without_combo_is_weaker() {
    let mut s = SamState::default();
    let ops = SamJob::cast_snap(SamAction::Jinpu, &mut s, &ctx(Some(vec![ActorId(2)])));
    assert_eq!(damages(&ops), vec![(120, ActorId(2))]);
}

#[test]
fn sam_without_target_reports_no_target() {
    let mut s = SamState::default();
    let ops = SamJob::cast_snap(SamAction::Hakaze, &mut s, &ctx(None));
    assert_eq!(ops.len(), 1);
    assert!(matches!(ops[0], SinkOp::Error { error: EventError::NoTarget }));
    assert_eq!(s.kenki.value(), 0);
}

#[test]
fn sam_check_cast_gives_gcd_and_lock() {
    let s = SamState::default();
    let mut ops = Vec::new();
    let info = SamJob::check_cast(SamAction::Hakaze, &s, &ctx(Some(vec![ActorId(2)])), &Unscaled, &mut ops);
    assert_eq!(info.gcd, 2500);
    assert_eq!(info.lock, 700);
    assert!(info.cd.is_none());
    assert!(ops.is_empty());
}

#[test]
fn sam_timeline_info() {
    let info: SimpleTimelineInfo<SamCdGroup> =
        SamAction::Hakaze.timeline_info(&SamState::default(), &Unscaled);
    assert_eq!(info.gcd, 2500);
    assert_eq!(info.lock, 700);
    assert!(info.cd.is_none());
    let shinten = SamAction::Shinten.timeline_info(&SamState::default(), &Unscaled);
    assert_eq!(shinten.gcd, 0);
    assert_eq!(shinten.cd, Some((1000, SamCdGroup::Shinten)));
}

#[test]
fn rpr_slice_builds_soul() {
    let mut s = RprState::default();
    let ops = RprJob::cast_snap(RprAction::Slice, &mut s, &ctx(Some(vec![ActorId(3)])));
    assert_eq!(damages(&ops), vec![(320, ActorId(3))]);
    assert_eq!(s.soul.value(), 10);
}

#[test]
fn action_names_and_categories() {
    assert_eq!(SamAction::Hakaze.name(), "Hakaze");
    assert_eq!(SamAction::Shinten.name(), "Hissatsu: Shinten");
    let a = job::Action::Sam(SamAction::Hakaze);
    assert_eq!(a.category(), ActionCategory::Weaponskill);
    assert!(a.gcd());
    let w = Action::Job(job::Action::Sam(SamAction::Shinten));
    assert!(!w.gcd());
    assert_eq!(JobAction::category(&SamAction::Shinten), ActionCategory::Ability);
}

#[test]
fn true_north_applies_to_the_caster() {
    let ops = MeleeRoleAction::TrueNorth.cast(ActorId(4));
    assert_eq!(ops.len(), 1);
    match &ops[0] {
        SinkOp::Event { event: Event::Status(e), delay } => {
            assert_eq!(*delay, 0);
            assert!(e.status == true_north());
            assert_eq!(e.source, ActorId(4));
            assert_eq!(e.target, ActorId(4));
        }
        _ => panic!("expected a status event"),
    }
    assert_eq!(MeleeRoleAction::TrueNorth.cooldown(), 45000);
    assert_eq!(MeleeRoleAction::TrueNorth.cd_charges(), 2);
    assert_eq!(MeleeRoleAction::TrueNorth.name(), "True North");
}

#[test]
fn dyn_job_maps_jobs_both_ways() {
    for job in [Job::BRD, Job::SAM, Job::DNC, Job::RPR] {
        assert_eq!(DynJob::from_job(job).job(), job);
    }
    assert_eq!(job::Action::Rpr(RprAction::Slice).job(), Job::RPR);
    assert_eq!(CdGroup::Sam(SamCdGroup::Shinten).job(), Job::SAM);
    assert_eq!(State::Brd(BrdState::default()).job(), Job::BRD);
}

#[test]
fn dyn_job_check_cast_dispatches_with_mapped_groups() {
    let mut ops = Vec::new();
    let state = State::Sam(SamState::default());
    let c = ctx(Some(vec![ActorId(2)]));
    let action = job::Action::Sam(SamAction::Shinten);
    let info = DynJob::Sam.check_cast(action, &state, &c, &Unscaled, &mut ops).unwrap();
    assert_eq!(info.cd, Some((CdGroup::Sam(SamCdGroup::Shinten), 1000, 1)));
    assert_eq!(info.alt_cd, None);
    assert_eq!(ops.len(), 1);
}

#[test]
fn dyn_job_check_cast_returns_the_bard_error() {
    let mut ops = Vec::new();
    let state = State::Brd(BrdState::default());
    let c = ctx(Some(vec![ActorId(2)]));
    let r = DynJob::Brd.check_cast(job::Action::Brd(BrdAction::ApexArrow), &state, &c, &Unscaled, &mut ops);
    assert_eq!(r, Err(EventError::Job(CastError::Brd(BrdError::SoulVoice(20)))));
    assert!(ops.is_empty());
}

#[test]
fn dyn_job_effect_only_for_bard() {
    assert!(DynJob::Brd.effect(&State::Brd(BrdState::default())).is_some());
    assert!(DynJob::Sam.effect(&State::Sam(SamState::default())).is_none());
}

#[test]
fn job_state_advance_runs_down_the_combo() {
    let mut s = SamState::default();
    SamJob::cast_snap(SamAction::Hakaze, &mut s, &ctx(Some(vec![ActorId(2)])));
    let mut state = State::Sam(s);
    state.advance(30000);
    match state {
        State::Sam(s) => assert!(!s.combos.check_main_for(SamAction::Jinpu)),
        _ => panic!("the state changed job"),
    }
}

#[test]
fn cast_error_message_names_the_job() {
    assert_eq!(
        CastError::Sam(xivc::job::sam::SamError::Meditation).message(),
        "Samurai: Invalid Meditation count, expected 3"
    );
    assert_eq!(CastError::Brd(BrdError::Coda).message(), "Bard: Not enough Coda.");
}

#[test]
fn job_event_wraps_the_actor() {
    match JobEvent::brd(BrdEvent::SongTick { gen: 3 }, ActorId(5)) {
        Event::Job(JobEvent::Brd(BrdEvent::SongTick { gen }), actor) => {
            assert_eq!((gen, actor), (3, ActorId(5)));
        }
        _ => panic!("wrong event"),
    }
}

#[test]
fn default_for_builds_a_fresh_state_of_the_job() {
    for job in [Job::BRD, Job::SAM, Job::DNC, Job::RPR] {
        assert_eq!(State::default_for(job).job(), job);
    }
    match State::default_for(Job::SAM) {
        State::Sam(s) => {
            assert_eq!(s.kenki.value(), 0);
            assert_eq!(s.sen.count(), 0);
            assert!(s.cds.available(SamCdGroup::Meikyo, 55000, 2));
        }
        _ => panic!("not a Samurai state"),
    }
    let brd = BrdState::new();
    assert!(brd.song.is_none());
    assert_eq!(brd.soul.value(), 0);
}

#[test]
fn sen_count_counts_the_kinds_granted() {
    let mut s = SamState::default();
    s.sen.grant_setsu();
    s.sen.grant_setsu();
    assert_eq!(s.sen.count(), 1);
    s.sen.grant_ka();
    s.sen.grant_getsu();
    assert_eq!(s.sen.count(), 3);
    s.sen.clear();
    assert_eq!(s.sen.count(), 0);
}
