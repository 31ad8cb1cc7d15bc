use xivc::enums::{DamageElement, DamageType};
use xivc::job::brd::{
    battle_voice, minuet, muse, raging_strikes, BrdJob, BrdJobEffect, BrdSong, BrdState,
};
use xivc::job::rpr::deaths_design;
use xivc::math::{Buffs, EotSnapshot, HitTypeHandle, PlayerStats};
use xivc::util::GaugeU8;
use xivc::enums::DamageInstance;
use xivc::job::sam::SamAction;
use xivc::job;
use xivc::world::status::{
    HasteMod, JobEffect, StatusEffect, StatusEvent, StatusEventExt, StatusEventKind,
    StatusInstance, StatusSnapshot, StatusVTable,
};
use xivc::world::{Action, ActorId, DamageEventExt, Event, SinkOp};

fn stats() -> PlayerStats {
    PlayerStats {
        str: 100,
        vit: 200,
        dex: 300,
        intel: 400,
        mnd: 500,
        det: 600,
        crt: 700,
        dh: 800,
        sks: 900,
        sps: 1000,
        ten: 1100,
        pie: 1200,
    }
}

#[test]
fn status_instance_new_takes_the_duration() {
    let s = StatusInstance::new(ActorId(1), raging_strikes());
    assert_eq!(s.time, raging_strikes().vtable.duration);
    assert_eq!(s.stack, 1);
    let t = StatusInstance::new_stack(ActorId(1), muse(), 3);
    assert_eq!(t.stack, 3);
}

#[test]
fn status_instance_stacks_saturate() {
    let mut s = StatusInstance::new_stack(ActorId(1), muse(), 2);
    s.sub_stacks(5);
    assert_eq!(s.stack, 0);
    s.add_stacks(3, 4);
    assert_eq!(s.stack, 3);
    s.add_stacks(3, 4);
    assert_eq!(s.stack, 4);
    s.remove();
    assert_eq!(s.stack, 0);
}

#[test]
fn status_instance_expires_unless_permanent() {
    let mut s = StatusInstance::new(ActorId(1), raging_strikes());
    s.advance(5000);
    assert_eq!(s.time, 15000);
    assert_eq!(s.stack, 1);
    s.advance(20000);
    assert_eq!(s.time, 0);
    assert_eq!(s.stack, 0);
    let mut vt = StatusVTable::empty("Forever");
    vt.permanent = true;
    let mut p = StatusInstance::new(ActorId(1), StatusEffect::new(9000, vt));
    p.advance(1_000_000);
    assert_eq!(p.stack, 1);
}

#[test]
fn status_effects_are_equal_by_id() {
    assert!(raging_strikes() == raging_strikes());
    assert!(raging_strikes() != muse());
}

#[test]
fn status_event_constructors() {
    let e = StatusEvent::apply(raging_strikes(), 1, ActorId(1), ActorId(2));
    assert!(matches!(e.kind, StatusEventKind::Apply { duration: 20000, stacks: 1 }));
    let r = StatusEvent::remove(raging_strikes(), ActorId(1), ActorId(2));
    assert!(matches!(r.kind, StatusEventKind::Remove));
    let x = StatusEvent::apply_or_extend(raging_strikes(), 1, 2, ActorId(1), ActorId(1));
    assert!(matches!(x.kind, StatusEventKind::ApplyOrExtend { duration: 20000, stacks: 1, max: 40000 }));
    let a = StatusEvent::add_stacks(muse(), 1, 4, ActorId(1), ActorId(1));
    assert!(matches!(a.kind, StatusEventKind::AddStacks { stacks: 1, max: 4 }));
    let rs = StatusEvent::remove_stacks(muse(), 2, ActorId(1), ActorId(1));
    assert!(matches!(rs.kind, StatusEventKind::RemoveStacks { stacks: 2 }));
    let aa = StatusEvent::apply_or_add_stacks(muse(), 1, 4, ActorId(1), ActorId(1));
    assert!(matches!(aa.kind, StatusEventKind::ApplyOrAddStacks { duration: 10000, stacks: 1, max: 4 }));
}

#[test]
fn haste_mod_values() {
    assert_eq!(HasteMod::Flat(87).value(3), 87);
    let h = HasteMod::Stacks(99, 98, 96, 88);
    assert_eq!(h.value(1), 99);
    assert_eq!(h.value(4), 88);
    assert_eq!(h.value(0), 100);
    assert_eq!(h.value(5), 100);
}

#[test]
fn empty_snapshot_is_neutral() {
    let snap = StatusSnapshot::<BrdJobEffect>::empty();
    assert_eq!(snap.damage(1234, DamageType::Slashing, DamageElement::NoElement), 1234);
    assert_eq!(snap.crit_chance(250), 250);
    assert_eq!(snap.crit_chance(1500), 1000);
    assert_eq!(snap.dhit_chance(0), 0);
    assert_eq!(snap.haste(2500), 2500);
    let s = snap.stats(stats());
    assert_eq!(s.str, 100);
    assert_eq!(s.pie, 1200);
}

#[test]
fn snapshot_damage_applies_target_then_source() {
    let source = [StatusInstance::new(ActorId(1), raging_strikes())];
    let target = [StatusInstance::new(ActorId(1), deaths_design())];
    let snap = StatusSnapshot::<BrdJobEffect> { source: &source, target: &target, job: None };
    assert_eq!(snap.damage(1000, DamageType::Piercing, DamageElement::NoElement), 1265);
}

#[test]
fn snapshot_chances_add_and_cap() {
    let source = [
        StatusInstance::new(ActorId(1), minuet()),
        StatusInstance::new(ActorId(1), battle_voice()),
    ];
    let snap = StatusSnapshot::<BrdJobEffect> { source: &source, target: &[], job: None };
    assert_eq!(snap.crit_chance(250), 270);
    assert_eq!(snap.crit_chance(990), 1000);
    assert_eq!(snap.dhit_chance(100), 300);
}

#[test]
fn snapshot_haste_multiplies_job_and_statuses() {
    let mut state = BrdState::default();
    let mut rep = GaugeU8::<4>::new();
    rep.set(4);
    state.song = Some((BrdSong::Paeon(rep), 10000));
    let effect = BrdJob::effect(&state).unwrap();
    assert_eq!(effect.haste(), 84);
    let source = [StatusInstance::new_stack(ActorId(1), muse(), 4)];
    let snap = StatusSnapshot { source: &source, target: &[], job: Some(&effect) };
    assert_eq!(snap.haste(2500), 1825);
    let no_job = StatusSnapshot::<BrdJobEffect> { source: &source, target: &[], job: None };
    assert_eq!(no_job.haste(2500), 2200);
}

#[test]
fn brd_job_effect_without_paeon_has_no_haste() {
    let effect = BrdJobEffect::new(BrdState::default());
    assert_eq!(effect.haste(), 100);
    assert_eq!(effect.crit(), 0);
    assert_eq!(effect.dhit(), 0);
    assert_eq!(effect.damage(77, DamageType::Magical, DamageElement::Fire), 77);
}

fn status_event(op: &SinkOp) -> (StatusEvent, u32) {
    match op {
        SinkOp::Event { event: Event::Status(e), delay } => (*e, *delay),
        _ => panic!("not a status event"),
    }
}

#[test]
fn status_helpers_push_the_matching_events() {
    let dd = deaths_design();
    let mut ops: Vec<SinkOp> = Vec::new();
    ops.apply_status(ActorId(1), dd, 1, ActorId(2), 300);
    ops.remove_stacks(ActorId(1), dd, 2, ActorId(2), 0);
    ops.apply_or_extend_status(ActorId(1), dd, 1, 2, ActorId(2), 45);
    ops.apply_status_cascade_remove(ActorId(1), dd, 1, ActorId(3), 90, 90);
    ops.remove_status(ActorId(1), dd, ActorId(2), 0);
    assert_eq!(ops.len(), 5);
    let (e, d) = status_event(&ops[0]);
    assert_eq!((e.source, e.target, d), (ActorId(1), ActorId(2), 300));
    assert_eq!(e.kind, StatusEventKind::Apply { duration: 30000, stacks: 1 });
    let (e, _) = status_event(&ops[1]);
    assert_eq!(e.kind, StatusEventKind::RemoveStacks { stacks: 2 });
    let (e, d) = status_event(&ops[2]);
    assert_eq!(d, 45);
    assert_eq!(e.kind, StatusEventKind::ApplyOrExtend { duration: 30000, stacks: 1, max: 60000 });
    let (e, _) = status_event(&ops[3]);
    assert_eq!(e.target, ActorId(3));
    assert_eq!(e.kind, StatusEventKind::Apply { duration: 30090, stacks: 1 });
    let (e, _) = status_event(&ops[4]);
    assert_eq!(e.kind, StatusEventKind::Remove);
}

#[test]
fn damage_helper_pushes_a_damage_operation() {
    let mut ops: Vec<SinkOp> = Vec::new();
    let action = Action::Job(job::Action::Sam(SamAction::Hakaze));
    ops.damage(action, DamageInstance::new(200), ActorId(4), 10);
    match ops[0] {
        SinkOp::Damage { damage, target, delay, .. } => {
            assert_eq!((damage.dmg, target, delay), (200, ActorId(4), 10));
        }
        _ => panic!("not a damage operation"),
    }
}

#[test]
fn add_stacks_caps_past_the_byte() {
    let mut s = StatusInstance::new_stack(ActorId(1), muse(), 200);
    s.add_stacks(100, 4);
    assert_eq!(s.stack, 4);
    let mut t = StatusInstance::new_stack(ActorId(1), muse(), 250);
    t.add_stacks(10, 255);
    assert_eq!(t.stack, 255);
}

#[test]
fn eot_result_is_neutral_at_the_middle_of_the_dot_range() {
    let e = EotSnapshot { base: 1000, crit_damage: 1500, crit_chance: 0, dhit_chance: 0 };
    assert_eq!(e.eot_result(HitTypeHandle::No, HitTypeHandle::No, 100000), 1000);
    assert_eq!(e.eot_result(HitTypeHandle::No, HitTypeHandle::No, 95000), 950);
    assert_eq!(e.eot_result(HitTypeHandle::Yes, HitTypeHandle::No, 105000), 1575);
}
