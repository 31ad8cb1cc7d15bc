use xivc::runtime::arena::{Arena, RawId};
use xivc::runtime::cooldown::{ActionCooldown, CooldownManager};
use xivc::runtime::drg::{DrgAction, DrgActionCooldown, DrgActionCooldowns};
use xivc::runtime::enums::{Clan, Job};
use xivc::runtime::event::{CommonEvent, CureEvent, DamageEvent, EventWrapper, HasEvent};
use xivc::runtime::gnb::combo::{Cont, Gnashing, Main};
use xivc::runtime::gnb::{
    dot_tick_rearms, next_cast_wait,
    GnbAction, GnbActionCooldown, GnbActionCooldowns, GnbActionError, GnbEventHandler, GnbJobState,
    GnbOp,
};
use xivc::runtime::math::data::{self, ClanField, JobField, LevelField};
use xivc::runtime::math::{
    speed_calc, ActionStat, CDHHandle, PlayerInfo, PlayerStats, SpeedStat, WeaponInfo, XivMath,
};
use xivc::runtime::snapshot::damage_effects;
use xivc::runtime::{
    ActionError, Actor, ActorId, DamageScale, EffectInstance, Runtime, StatusEffect, StatusEffectVTable,
    ValueModifier,
};
use xivc::runtime::enums::{DamageElement, DamageType};
use xivc::runtime::DamageInstance;

#[test]
fn arena_push_then_get() {
    let mut arena: Arena<RawId, &str> = Arena::new();
    let a = arena.push("a");
    let b = arena.push("b");
    assert_eq!(arena.get(a), Some(&"a"));
    assert_eq!(arena.get(b), Some(&"b"));
}

#[test]
fn arena_remove_makes_the_id_stale() {
    let mut arena: Arena<RawId, u32> = Arena::new();
    let a = arena.push(10);
    let b = arena.push(20);
    assert_eq!(arena.remove(a), Some(10));
    assert_eq!(arena.get(a), None);
    assert_eq!(arena.remove(a), None);
    assert_eq!(arena.get(b), Some(&20));
    let stale_gen1 = RawId::dummy_id(0);
    assert_eq!(arena.get(stale_gen1), None);
}

#[test]
fn arena_push_into_a_freed_slot_names_the_end() {
    let mut arena: Arena<RawId, u32> = Arena::new();
    let a = arena.push(10);
    let b = arena.push(20);
    assert_eq!(arena.remove(a), Some(10));
    let c = arena.push(30);
    assert!(!arena.has_slot(c));
    assert_eq!(arena.get(b), Some(&20));
    assert_eq!(arena.get(a), None);
    let ids = arena.ids();
    assert_eq!(ids.len(), 2);
}

#[test]
fn arena_get_mut_changes_the_item() {
    let mut arena: Arena<RawId, u32> = Arena::new();
    let a = arena.push(1);
    if let Some(x) = arena.get_mut(a) {
        *x = 42;
    }
    assert_eq!(arena.get(a), Some(&42));
    assert_eq!(arena.ids(), vec![a]);
}

#[test]
fn arena_reuses_a_freed_slot() {
    let mut arena: Arena<RawId, u32> = Arena::new();
    let a = arena.push(1);
    let b = arena.push(2);
    arena.remove(a);
    let ids = arena.ids();
    assert_eq!(ids, vec![b]);
    let _c = arena.push(3);
    assert_eq!(arena.ids().len(), 2);
    assert_eq!(arena.get(b), Some(&2));
}

#[test]
fn arena_ids_wrap_raw_ids() {
    let mut arena: Arena<ActorId, &str> = Arena::new();
    let boss = arena.push("boss");
    assert_eq!(arena.get(boss), Some(&"boss"));
}

#[test]
fn cooldown_manager_errors() {
    let mut cd = CooldownManager::new(GnbActionCooldowns::new());
    assert_eq!(cd.error::<()>(true), Ok(()));
    cd.apply_global(250);
    cd.apply_ani_lock(60);
    assert_eq!(cd.error::<()>(true), Err(ActionError::GlobalCooldown(250)));
    assert_eq!(cd.error::<()>(false), Err(ActionError::AnimationLock(60)));
    cd.apply_ani_lock(300);
    assert_eq!(cd.error::<()>(true), Err(ActionError::AnimationLock(300)));
    cd.advance(300);
    assert_eq!(cd.error::<()>(true), Ok(()));
    assert_eq!(cd.advanced(), 300);
    assert_eq!(cd.advanced(), 0);
}

#[test]
fn cooldown_manager_action_cooldowns() {
    let mut cd = CooldownManager::new(GnbActionCooldowns::new());
    cd.apply_action(&GnbActionCooldown::NoMercy, 6000);
    assert_eq!(cd.action(&GnbActionCooldown::NoMercy), 6000);
    assert_eq!(cd.action(&GnbActionCooldown::Sonic), 0);
    cd.advance(1000);
    assert_eq!(cd.action(&GnbActionCooldown::NoMercy), 5000);
    assert_eq!(cd.global(), 0);
    assert_eq!(cd.ani_lock(), 0);
}

#[test]
fn action_cooldown_set_and_incr() {
    let mut c = DrgActionCooldowns::new();
    c.incr_cd(&DrgActionCooldown::Jump, 3000);
    c.incr_cd(&DrgActionCooldown::Jump, 3000);
    c.set_cd(&DrgActionCooldown::Blood, 25);
    assert_eq!(c.get(&DrgActionCooldown::Jump), 6000);
    assert_eq!(c.get(&DrgActionCooldown::Blood), 25);
    c.advance(5000);
    assert_eq!(c.get(&DrgActionCooldown::Jump), 1000);
    assert_eq!(c.get(&DrgActionCooldown::Blood), 0);
    *c.ref_mut(&DrgActionCooldown::Surge) = 7;
    assert_eq!(c.get(&DrgActionCooldown::Surge), 7);
}

#[derive(Default)]
struct Log {
    ops: Vec<String>,
}

impl GnbEventHandler for Log {
    fn spec_handled(&self, _op: GnbOp, next: &Self) -> bool {
        next.ops.len() == self.ops.len() + 1
    }

    fn damage(&mut self, potency: u64) {
        self.ops.push(format!("damage {}", potency));
    }

    fn effect_apply(&mut self, effect: EffectInstance) {
        self.ops.push(format!("effect {}", effect.time));
    }

    fn dot_apply(&mut self, effect: EffectInstance, dot_potency: u64) {
        self.ops.push(format!("dot {} {}", effect.time, dot_potency));
    }
}

#[test]
fn gnb_main_combo_grants_a_cartridge() {
    let mut s = GnbJobState::new();
    let mut log = Log::default();
    s.action_cast(GnbAction::Keen, 1000, &mut log).unwrap();
    assert_eq!(s.mc, Main::Brutal(1500));
    assert_eq!(s.cooldown.global(), 250);
    assert_eq!(s.cooldown.ani_lock(), 60);
    s.advance(250);
    s.action_cast(GnbAction::Brutal, 1000, &mut log).unwrap();
    s.advance(250);
    s.action_cast(GnbAction::Solid, 1000, &mut log).unwrap();
    assert_eq!(s.carts, 1);
    assert_eq!(s.mc, Main::NoCombo);
    assert_eq!(log.ops, vec!["damage 200", "damage 300", "damage 400"]);
}

#[test]
fn gnb_errors_leave_the_state_alone() {
    let mut s = GnbJobState::new();
    let mut log = Log::default();
    assert_eq!(
        s.action_cast(GnbAction::Burst, 1000, &mut log),
        Err(ActionError::Job(GnbActionError::NoCarts))
    );
    assert_eq!(
        s.action_cast(GnbAction::Savage, 1000, &mut log),
        Err(ActionError::Job(GnbActionError::Uncomboed))
    );
    assert_eq!(
        s.action_cast(GnbAction::Jugular, 1000, &mut log),
        Err(ActionError::Job(GnbActionError::Uncomboed))
    );
    assert!(log.ops.is_empty());
    s.action_cast(GnbAction::Keen, 1000, &mut log).unwrap();
    assert_eq!(
        s.action_cast(GnbAction::Brutal, 1000, &mut log),
        Err(ActionError::GlobalCooldown(250))
    );
    assert_eq!(
        s.action_cast(GnbAction::NoMercy, 1000, &mut log),
        Err(ActionError::AnimationLock(60))
    );
}

#[test]
fn gnb_gnashing_fang_chain() {
    let mut s = GnbJobState::new();
    s.carts = 2;
    let ops = s.cast_ops(GnbAction::Gnashing, 1000).ok().unwrap();
    assert!(matches!(ops[..], [GnbOp::Damage(450)]));
    assert_eq!(s.carts, 1);
    assert_eq!(s.gc, Gnashing::Savage(1500));
    assert_eq!(s.cont, Cont::Jugular(1000));
    assert_eq!(s.cooldown.ani_lock(), 70);
    assert_eq!(s.cooldown.action(&GnbActionCooldown::Gnashing), 3000);
    s.advance(250);
    let ops = s.cast_ops(GnbAction::Jugular, 1000).ok().unwrap();
    assert!(matches!(ops[..], [GnbOp::Damage(260)]));
    assert_eq!(s.cont, Cont::NoCombo);
    s.advance(60);
    assert_eq!(
        s.cast_ops(GnbAction::Gnashing, 1000).err(),
        Some(ActionError::ActionCooldown(2690))
    );
}

#[test]
fn gnb_rough_divide_has_two_charges() {
    let mut s = GnbJobState::new();
    s.cast_ops(GnbAction::Divide, 1000).ok().unwrap();
    s.advance(60);
    assert!(s.cast_ops(GnbAction::Divide, 1000).is_ok());
    s.advance(60);
    assert_eq!(
        s.cast_ops(GnbAction::Divide, 1000).err(),
        Some(ActionError::ActionCooldown(5880))
    );
}

#[test]
fn gnb_sonic_break_applies_a_dot_and_scaled_cooldown() {
    let mut s = GnbJobState::new();
    let mut log = Log::default();
    s.action_cast(GnbAction::Sonic, 1100, &mut log).unwrap();
    assert_eq!(log.ops, vec!["damage 300", "dot 3000 90"]);
    assert_eq!(s.cooldown.action(&GnbActionCooldown::Sonic), 5400);
    assert_eq!(s.cooldown.global(), 225);
}

#[test]
fn gnb_bloodfest_fills_cartridges_and_gcd_flag() {
    let mut s = GnbJobState::default();
    s.cast_ops(GnbAction::Bloodfest, 1000).ok().unwrap();
    assert_eq!(s.carts, 2);
    assert!(GnbAction::Lightning.gcd());
    assert!(!GnbAction::Bloodfest.gcd());
    assert_eq!(GnbAction::from(GnbActionCooldown::Shock), GnbAction::Shock);
    assert_eq!(GnbActionCooldown::try_from(GnbAction::Keen), Err(GnbAction::Keen));
    assert_eq!(GnbActionCooldown::LENGTH, 7);
}

#[test]
fn gnb_combos_time_out_but_keep_their_step() {
    let mut m = Main::Brutal(1500);
    m.advance(2000);
    assert_eq!(m, Main::Brutal(0));
    let mut c = Cont::Eye(1000);
    c.advance(400);
    assert_eq!(c, Cont::Eye(600));
}

#[test]
fn drg_gcds() {
    assert!(DrgAction::True.gcd());
    assert!(DrgAction::Talon.gcd());
    assert!(!DrgAction::Surge.gcd());
    assert_eq!(DrgActionCooldown::LENGTH, 12);
}

#[test]
fn effect_instance_advance() {
    let mut e = EffectInstance::new(xivc::runtime::gnb::sonic_effect(), 3000, 1);
    assert!(!e.advance(1000));
    assert_eq!(e.time, 2000);
    assert!(e.advance(5000));
    assert_eq!(e.time, 0);
}

#[test]
fn clan_and_job_names() {
    assert_eq!(Clan::Sun.race_name(), "Miqo'te");
    assert_eq!(Clan::Sun.clan_name(), "Seeker of the Sun");
    assert_eq!(Clan::Hellsguard.clan_name(), "Hellguard");
    assert_eq!(Clan::TheLost.race_name(), "Hrothgar");
    assert_eq!(Job::GNB.job_name(), "Gunbreaker");
    assert!(Job::GNB.tank());
    assert!(Job::AST.healer());
    assert!(Job::SAM.melee());
    assert!(Job::DNC.phys_ranged());
    assert!(Job::BLU.caster());
    assert!(!Job::BLU.tank());
}

#[test]
fn data_tables() {
    assert_eq!(data::level(80, LevelField::MAIN), 340);
    assert_eq!(data::level(80, LevelField::SUB), 380);
    assert_eq!(data::level(80, LevelField::DIV), 1300);
    assert_eq!(data::level(70, LevelField::DIV), 0);
    assert_eq!(data::atk_mod(Job::SAM, 80), 165);
    assert_eq!(data::atk_mod(Job::GNB, 80), 115);
    assert_eq!(data::atk_mod(Job::SAM, 60), 100);
    assert_eq!(data::atk_mod(Job::SAM, 30), 75);
    assert_eq!(data::job(Job::GNB, JobField::STR), 100);
    assert_eq!(data::attack_power(Job::DNC), JobField::DEX);
    assert_eq!(data::attack_power(Job::GNB), JobField::STR);
    assert_eq!(data::clan(Clan::Xaela, ClanField::STR), 3);
}

fn gnb_math() -> XivMath {
    XivMath::new(
        PlayerStats {
            str: 5784,
            vit: 6000,
            dex: 400,
            intel: 300,
            mnd: 300,
            det: 2454,
            crt: 4148,
            dh: 1400,
            sks: 1155,
            sps: 380,
            ten: 832,
            pie: 340,
        },
        WeaponInfo { phys_dmg: 134, magic_dmg: 0, auto: 12506, delay: 280 },
        PlayerInfo { clan: Clan::Xaela, job: Job::GNB, lvl: 80 },
    )
}

#[test]
fn math_substats() {
    let m = gnb_math();
    assert_eq!(m.det_damage(), 1000 + 130 * (2454 - 340) / 1300);
    assert_eq!(m.ten_damage(), 1000 + 100 * (832 - 380) / 1300);
    assert_eq!(m.crt_damage(), 1400 + 200 * (4148 - 380) / 1300);
    assert_eq!(m.crt_chance(), 50 + 200 * (4148 - 380) / 1300);
    assert_eq!(m.dh_chance(), 550 * (1400 - 380) / 1300);
    assert_eq!(m.sks_mod(), 1000 + 130 * (1155 - 380) / 1300);
    assert_eq!(m.sps_mod(), 1000);
    assert_eq!(m.mp_regen(), 200);
    assert_eq!(m.main_stat(ActionStat::AttackPower), 5784);
    assert_eq!(m.wd_mod(ActionStat::AttackPower), 340 * 100 / 1000 + 134);
    assert_eq!(m.atk_damage(ActionStat::AttackPower), 115 * (5784 - 340) / 340 + 100);
    assert_eq!(m.aa_mod(), (340 * 100 / 1000 + 134) * 280 / 300);
}

#[test]
fn math_prebuff_action_damage() {
    let m = gnb_math();
    let atk = m.atk_damage(ActionStat::AttackPower);
    let det = m.det_damage();
    let ten = m.ten_damage();
    let wd = m.wd_mod(ActionStat::AttackPower);
    let d1 = 300 * atk * det / 100 / 1000;
    let d2 = d1 * ten / 1000 * wd / 100 * 100 / 100;
    let d3 = d2 * 1000 / 1000 * 1000 / 1000;
    let expected = d3 * 10000 / 10000;
    assert_eq!(
        m.prebuff_action_damage(300, ActionStat::AttackPower, 100, CDHHandle::No, CDHHandle::No, 10000),
        expected
    );
    let crit = m.prebuff_action_damage(300, ActionStat::AttackPower, 100, CDHHandle::Yes, CDHHandle::Yes, 10000);
    assert_eq!(crit, d2 * m.crt_damage() / 1000 * 1250 / 1000);
}

#[test]
fn math_speed_and_cast_length() {
    assert_eq!(speed_calc(1000, 250), 250);
    assert_eq!(speed_calc(1100, 250), 225);
    let m = gnb_math();
    let s = m.sks_mod();
    assert_eq!(
        m.action_cast_length(250, SpeedStat::SkillSpeed, 0, 0),
        ((2000 - s) * 250 / 100) * 100 / 1000
    );
}

#[test]
fn common_events_wrap_and_unwrap() {
    let cure = CureEvent { source: ActorId(RawId::dummy_id(0)), target: ActorId(RawId::dummy_id(1)), health: 50 };
    let e: CommonEvent = <CommonEvent as HasEvent<CureEvent>>::new(cure);
    assert_eq!(HasEvent::<CureEvent>::get(&e).map(|c| c.health), Some(50));
    assert!(HasEvent::<DamageEvent>::get(&e).is_none());
    let back: Result<CureEvent, CommonEvent> = EventWrapper::into(e);
    assert_eq!(back.ok().map(|c| c.health), Some(50));
    let dmg = DamageEvent {
        source: ActorId(RawId::dummy_id(0)),
        target: ActorId(RawId::dummy_id(1)),
        damage: DamageInstance { dmg: 7, ty: DamageType::Slashing, el: DamageElement::NoElement },
    };
    let mut w = CommonEvent::create(dmg);
    if let Some(d) = HasEvent::<DamageEvent>::get_mut(&mut w) {
        d.damage.dmg = 8;
    }
    assert_eq!(HasEvent::<DamageEvent>::get(&w).map(|d| d.damage.dmg), Some(8));
}

fn dummy(name: &'static str) -> Actor {
    Actor { name, health: 1000, effects: Vec::new(), mirrors: Vec::new() }
}

#[test]
fn runtime_hands_out_events_by_time() {
    let mut rt: Runtime<&str> = Runtime::new();
    rt.add_event("late", 300);
    rt.add_event("early", 100);
    rt.add_event("middle", 200);
    assert_eq!(rt.events(), 3);
    assert_eq!(rt.advance(), Some((100, "early")));
    assert_eq!(rt.global(), 100);
    rt.add_event("soon", 50);
    assert_eq!(rt.advance(), Some((50, "soon")));
    assert_eq!(rt.advance(), Some((50, "middle")));
    assert_eq!(rt.advance(), Some((100, "late")));
    assert_eq!(rt.global(), 300);
    assert_eq!(rt.advance(), None);
    assert_eq!(rt.events(), 0);
}

#[test]
fn runtime_hands_out_events_of_one_time_last_added_first() {
    let mut rt: Runtime<&str> = Runtime::new();
    rt.add_event("first", 100);
    rt.add_event("second", 100);
    rt.add_event("later", 150);
    rt.add_event("third", 100);
    assert_eq!(rt.advance(), Some((100, "third")));
    assert_eq!(rt.advance(), Some((0, "second")));
    assert_eq!(rt.advance(), Some((0, "first")));
    assert_eq!(rt.advance(), Some((50, "later")));
    assert_eq!(rt.advance(), None);
}

#[test]
fn runtime_reuses_the_slots_of_taken_events() {
    let mut rt: Runtime<u32> = Runtime::default();
    for round in 0..5u32 {
        rt.add_event(round, 10);
        assert_eq!(rt.advance(), Some((10, round)));
    }
    assert_eq!(rt.global(), 50);
}

#[test]
fn runtime_advances_the_effects_of_actors() {
    let mut rt: Runtime<()> = Runtime::new();
    let a = rt.add_actor(dummy("a"));
    let b = rt.add_actor(dummy("b"));
    assert!(rt.has_actor_slot(b));
    let sonic = xivc::runtime::gnb::sonic_effect();
    rt.get_actor_mut(a).unwrap().apply_effect(b, EffectInstance::new(sonic, 3000, 1));
    rt.get_actor_mut(b).unwrap().apply_effect(a, EffectInstance::new(sonic, 1000, 1));
    rt.add_event((), 2000);
    assert_eq!(rt.advance(), Some((2000, ())));
    let ea = &rt.get_actor(a).unwrap().effects;
    assert_eq!(ea.len(), 1);
    assert_eq!(ea[0].1.time, 1000);
    assert!(rt.get_actor(b).unwrap().effects.is_empty());
}

#[test]
fn gnb_casts_with_a_full_byte_of_cartridges() {
    let mut s = GnbJobState::new();
    s.carts = 255;
    let mut log = Log::default();
    s.action_cast(GnbAction::Keen, 1000, &mut log).unwrap();
    assert_eq!(s.carts, 255);
}

#[test]
fn next_cast_wait_follows_the_cooldowns() {
    let mut s = GnbJobState::new();
    let mut log = Log::default();
    s.action_cast(GnbAction::Keen, 1000, &mut log).unwrap();
    assert_eq!(next_cast_wait(&s, GnbAction::NoMercy, 0), 150);
    assert_eq!(next_cast_wait(&s, GnbAction::Brutal, 250), 250);
    s.advance(250);
    s.action_cast(GnbAction::Divide, 1000, &mut log).unwrap();
    let left = s.cooldown.action(&GnbActionCooldown::Divide);
    assert_eq!(next_cast_wait(&s, GnbAction::Divide, 0), left - 3000);
    assert_eq!(next_cast_wait(&s, GnbAction::Keen, 70), 70);
}

#[test]
fn dot_ticks_rearm_while_something_is_left() {
    assert!(dot_tick_rearms(1, 0, 300));
    assert!(dot_tick_rearms(0, 2, 14699));
    assert!(!dot_tick_rearms(0, 0, 300));
    assert!(!dot_tick_rearms(3, 5, 14700));
}

#[test]
fn damage_effects_keep_the_damage_buffs_of_one_side() {
    let sonic = xivc::runtime::gnb::sonic_effect();
    let buff = StatusEffect::new(
        900,
        StatusEffectVTable { damage: ValueModifier::outgoing(DamageScale { mul: 105, div: 100 }), ..StatusEffectVTable::empty("Buff") },
    );
    let list = [EffectInstance::new(sonic, 100, 1), EffectInstance::new(buff, 100, 1)];
    let out = damage_effects(&list, false);
    assert_eq!(out.len(), 1);
    assert_eq!(out[0].effect.id, 900);
    assert!(damage_effects(&list, true).is_empty());
}
