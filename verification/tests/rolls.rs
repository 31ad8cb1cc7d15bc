use rand::rngs::StdRng;
use rand::SeedableRng;
use xivc::job::brd::{HawksEyeProc, RepertoireProc};
use xivc::job::dnc::{FanDance3Proc, FeatherProc, Step, StdStepSeqence, SymmFlowProc, TechStepSeqence};
use xivc::math::HitTypeHandle;
use xivc::world::{CriticalHit, DamageVariance, DirectHit};
use xivc::enums::Job;
use xivc::job::brd::{BrdAction, BrdJob, BrdState};
use xivc::job::dnc::{DncAction, DncJob, DncState, StepGauge};
use xivc::job::rpr::{RprAction, RprState};
use xivc::job::sam::{SamAction, SamState};
use xivc::job::{self, DynJob, EventActor, State};
use xivc::world::{Action, ActorId, CastContext, DamageEvent, Event, EventError, Faction, SinkOp};


#[test]
fn certain_and_impossible_hits() {
    let mut rng = StdRng::seed_from_u64(1);
    for _ in 0..50 {
        assert!(!CriticalHit::new(0).sample(&mut rng));
        assert!(CriticalHit::new(1000).sample(&mut rng));
        assert!(CriticalHit::new(5000).sample(&mut rng));
        assert!(!DirectHit::new(0).sample(&mut rng));
        assert!(DirectHit::new(1000).sample(&mut rng));
        assert_eq!(CriticalHit::new(1000).sample_handle(&mut rng), HitTypeHandle::Yes);
        assert_eq!(DirectHit::new(0).sample_handle(&mut rng), HitTypeHandle::No);
    }
}

#[test]
fn even_chances_give_both_outcomes() {
    let mut rng = StdRng::seed_from_u64(2);
    let mut hits = 0;
    for _ in 0..200 {
        if CriticalHit::new(500).sample(&mut rng) {
            hits += 1;
        }
    }
    assert!(hits > 50 && hits < 150);
}

#[test]
fn damage_variance_stays_in_range() {
    let mut rng = StdRng::seed_from_u64(3);
    let mut seen_low = false;
    let mut seen_high = false;
    for _ in 0..500 {
        let v = DamageVariance::new().sample(&mut rng);
        assert!((9500..=10500).contains(&v));
        seen_low |= v < 10000;
        seen_high |= v > 10000;
    }
    assert!(seen_low && seen_high);
}

#[test]
fn procs_roll_both_ways() {
    let mut rng = StdRng::seed_from_u64(4);
    let mut counts = [0u32; 5];
    for _ in 0..400 {
        counts[0] += HawksEyeProc.sample(&mut rng) as u32;
        counts[1] += RepertoireProc.sample(&mut rng) as u32;
        counts[2] += SymmFlowProc.sample(&mut rng) as u32;
        counts[3] += FeatherProc.sample(&mut rng) as u32;
        counts[4] += FanDance3Proc.sample(&mut rng) as u32;
    }
    for c in counts {
        assert!(c > 0 && c < 400);
    }
    assert!(counts[1] > counts[0]);
}

#[test]
fn step_sequences_hold_different_steps() {
    let mut rng = StdRng::seed_from_u64(5);
    let mut orders = std::collections::HashSet::new();
    for _ in 0..50 {
        let s = StdStepSeqence.sample(&mut rng);
        assert_ne!(s[0], s[1]);
        let t = TechStepSeqence.sample(&mut rng);
        for step in [Step::Emboite, Step::Entrechat, Step::Jete, Step::Pirouette] {
            assert_eq!(t.iter().filter(|x| **x == step).count(), 1);
        }
        orders.insert(format!("{:?}", t));
    }
    assert!(orders.len() > 1);
}

fn cast_ctx(targets: Option<Vec<ActorId>>) -> CastContext {
    CastContext {
        this: ActorId(1),
        statuses: Vec::new(),
        in_combat: true,
        targets,
        target_statuses: Vec::new(),
        positional: false,
    }
}

#[test]
fn proc_ratios() {
    assert_eq!(HawksEyeProc.ratio(), (35, 100));
    assert_eq!(RepertoireProc.ratio(), (8, 10));
    assert_eq!(SymmFlowProc.ratio(), (1, 2));
    assert_eq!(FeatherProc.ratio(), (1, 2));
    assert_eq!(FanDance3Proc.ratio(), (1, 2));
}

#[test]
fn dancer_rolls_its_steps_before_the_cast() {
    let mut rng = StdRng::seed_from_u64(7);
    let mut state = DncState::new();
    let ops = DncJob::roll_and_cast(DncAction::StandardStep, &mut state, &cast_ctx(None), &Vec::new(), &mut rng);
    assert!(!ops.is_empty());
    match state.step {
        StepGauge::Std { steps, .. } => assert_ne!(steps[0], steps[1]),
        _ => panic!("no standard step started"),
    }
}

#[test]
fn bard_without_a_target_rolls_nothing_and_fails() {
    let mut rng = StdRng::seed_from_u64(3);
    let mut state = BrdState::new();
    let (ops, r) = BrdJob::roll_and_cast(BrdAction::HeavyShot, &mut state, &cast_ctx(None), &mut rng);
    assert_eq!(r, Err(EventError::NoTarget));
    assert!(ops.is_empty() || ops.len() == 1);
}

#[test]
fn dyn_job_dispatches_casts_and_events() {
    let mut rng = StdRng::seed_from_u64(5);
    let mut sam = State::Sam(SamState::new());
    let (ops, r) = DynJob::Sam.cast_snap(
        job::Action::Sam(SamAction::Hakaze),
        &mut sam,
        &cast_ctx(Some(vec![ActorId(2)])),
        &Vec::new(),
        &mut rng,
    );
    assert!(r.is_ok());
    assert!(ops.iter().any(|op| matches!(op, SinkOp::Damage { .. })));
    let mut rpr = State::default_for(Job::RPR);
    assert!(matches!(rpr, State::Rpr(_)));
    let hit = DamageEvent::new(100, ActorId(4), ActorId(9), Action::Job(job::Action::Sam(SamAction::Hakaze)));
    let ally = EventActor { faction: Faction::Party, in_song_range: true, has_circle: true };
    let ops = DynJob::Rpr.event(&mut rpr, ActorId(1), &Event::Damage(hit), Some(ally), &mut rng);
    assert_eq!(ops.len(), 2);
    let ops = DynJob::Rpr.event(&mut rpr, ActorId(1), &Event::ActorTick(ActorId(4)), Some(ally), &mut rng);
    assert!(ops.is_empty());
    let _ = RprState::new();
    let _ = RprAction::Slice;
}
