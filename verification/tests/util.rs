use xivc::job::sam::MainCombo;
use xivc::timing::EventCascade;
use xivc::util::{
    combo_pos_pot, combo_pot, count_ones, pos_pot, ActionTargettingExt, AoeIter, ComboState,
    GaugeU8, TargetInfo,
};
use xivc::world::{ActionTargetting, EventError, Faction};

#[test]
fn gauge_saturates_at_bounds() {
    let mut gauge = GaugeU8::<25>::new();
    gauge.add_assign(10);
    assert_eq!(gauge.value(), 10);
    gauge.add_assign(10);
    assert_eq!(gauge.value(), 20);
    gauge.add_assign(10);
    assert_eq!(gauge.value(), 25);
    gauge.sub_assign(100);
    assert_eq!(gauge.value(), 0);
    gauge.add_assign(5);
    gauge.mul_assign(2);
    assert_eq!(gauge.value(), 10);
}

#[test]
fn gauge_new_is_zero() {
    let gauge = GaugeU8::<100>::new();
    assert_eq!(gauge.value(), 0);
}

#[test]
fn gauge_set_and_variants() {
    let mut gauge = GaugeU8::<50>::new();
    gauge.set(25);
    assert_eq!(gauge.value(), 25);
    gauge.set_unchecked(75);
    assert_eq!(gauge.value(), 75);
    gauge.set_saturating(75);
    assert_eq!(gauge.value(), 50);
    let mut small = GaugeU8::<5>::new();
    small.set_max();
    assert_eq!(small.value(), 5);
    assert_eq!(GaugeU8::<20>::new().max(), 20);
}

#[test]
fn gauge_clear_and_value() {
    let mut gauge = GaugeU8::<100>::new();
    gauge.add_assign(75);
    gauge.clear();
    assert_eq!(gauge.value(), 0);
    gauge.set(30);
    gauge.add_assign(20);
    assert_eq!(gauge.value(), 50);
}

#[test]
fn gauge_consume_only_with_enough() {
    let mut gauge = GaugeU8::<100>::new();
    gauge.add_assign(25);
    assert!(!gauge.consume(50));
    assert_eq!(gauge.value(), 25);
    gauge.add_assign(25);
    assert!(gauge.consume(50));
    assert_eq!(gauge.value(), 0);
}

#[test]
fn gauge_div_and_mul_saturate() {
    let mut gauge = GaugeU8::<100>::new();
    gauge.set(90);
    gauge.mul_assign(3);
    assert_eq!(gauge.value(), 100);
    gauge.div_assign(3);
    assert_eq!(gauge.value(), 33);
}

#[test]
fn combo_state_set_check_reset_advance() {
    let mut combo_state = ComboState::<MainCombo>::new();
    combo_state.set(MainCombo::Hakaze);
    assert!(combo_state.check(MainCombo::Hakaze));
    assert!(!combo_state.check(MainCombo::Shifu));
    combo_state.reset();
    assert!(!combo_state.check(MainCombo::Hakaze));
    combo_state.set(MainCombo::Jinpu);
    combo_state.advance(29999);
    assert!(combo_state.check(MainCombo::Jinpu));
    combo_state.advance(1);
    assert!(!combo_state.check(MainCombo::Jinpu));
}

#[test]
fn combo_state_breaks_after_thirty_seconds() {
    let mut combo_state = ComboState::<MainCombo>::new();
    combo_state.set(MainCombo::Shifu);
    combo_state.advance(30000);
    assert!(!combo_state.check(MainCombo::Shifu));
}

#[test]
fn potency_helpers_pick_the_matching_potency() {
    assert_eq!(combo_pos_pot(100, 150, 200, 250, false, false), 100);
    assert_eq!(combo_pos_pot(100, 150, 200, 250, false, true), 150);
    assert_eq!(combo_pos_pot(100, 150, 200, 250, true, false), 200);
    assert_eq!(combo_pos_pot(100, 150, 200, 250, true, true), 250);
    assert_eq!(combo_pot(120, 300, true), 300);
    assert_eq!(combo_pot(120, 300, false), 120);
    assert_eq!(pos_pot(340, 400, true), 400);
    assert_eq!(pos_pot(340, 400, false), 340);
}

#[test]
fn count_ones_counts_bits() {
    assert_eq!(count_ones(0), 0);
    assert_eq!(count_ones(0b101), 2);
    assert_eq!(count_ones(0xff), 8);
}

#[test]
fn aoe_iter_hands_out_targets_with_cascade_times() {
    let mut it = AoeIter::new(vec![1u8, 2, 3], EventCascade::new(100, 1));
    assert_eq!(it.size_hint(), (3, Some(3)));
    let (a, ta) = it.next().unwrap();
    let (b, tb) = it.next().unwrap();
    let (c, tc) = it.next().unwrap();
    assert_eq!((a, b, c), (1, 2, 3));
    assert!(ta <= tb && tb <= tc);
    assert_eq!(ta, 100);
    assert_eq!(it.next(), None);
}

#[test]
fn aoe_falloff_first_target_takes_full_damage() {
    let mut it = AoeIter::new(vec![1u8, 2], EventCascade::new(0, 1)).falloff(50);
    let (_, _, f1) = it.next().unwrap();
    let (_, _, f2) = it.next().unwrap();
    assert_eq!(f1, 100);
    assert_eq!(f2, 50);
    assert_eq!(it.next(), None);
}

#[test]
fn targetting_checks_the_current_target() {
    let enemy = TargetInfo { faction: Faction::Enemy, in_range: true };
    let far = TargetInfo { faction: Faction::Enemy, in_range: false };
    let ally = TargetInfo { faction: Faction::Party, in_range: true };
    let cone = ActionTargetting::cone(12, 90);
    assert!(Some(enemy).target_enemy_aoe(cone, vec![1u8], EventCascade::new(0, 1)).is_ok());
    assert_eq!(
        Some(far).target_enemy_aoe(cone, vec![1u8], EventCascade::new(0, 1)).err(),
        Some(EventError::NoTarget)
    );
    assert_eq!(
        None::<TargetInfo>.target_enemy_aoe(cone, vec![1u8], EventCascade::new(0, 1)).err(),
        Some(EventError::NoTarget)
    );
    assert_eq!(
        Some(ally).target_enemy_aoe(cone, vec![1u8], EventCascade::new(0, 1)).err(),
        Some(EventError::NoTarget)
    );
    assert!(Some(ally).target_party_aoe(ActionTargetting::single(30), vec![1u8], EventCascade::new(0, 1)).is_ok());
    let circle = ActionTargetting::circle(5);
    let it = None::<TargetInfo>.target_enemy_aoe(circle, vec![4u8, 5], EventCascade::new(0, 1)).ok().unwrap();
    assert_eq!(it.size_hint(), (2, Some(2)));
}

#[test]
fn target_party_rejects_an_enemy_target() {
    let enemy = TargetInfo { faction: Faction::Enemy, in_range: true };
    assert_eq!(
        Some(enemy).target_party_aoe(ActionTargetting::single(30), vec![1u8], EventCascade::new(0, 1)).err(),
        Some(EventError::NoTarget)
    );
}

#[test]
fn single_targetting_takes_the_first_actor_reached() {
    let enemy = Some(TargetInfo { faction: Faction::Enemy, in_range: true });
    let single = ActionTargetting::single(3);
    assert_eq!(enemy.target_enemy(single, vec![7u8, 8]), Ok(7));
    assert_eq!(enemy.target_enemy(single, Vec::<u8>::new()), Err(EventError::NoTarget));
    assert_eq!(None::<TargetInfo>.target_party(single, vec![2u8]), Ok(2));
    assert_eq!(None::<TargetInfo>.target_party(single, Vec::<u8>::new()), Err(EventError::NoTarget));
}

#[test]
fn gauge_add_saturates_past_the_byte() {
    let mut gauge = GaugeU8::<100>::new();
    gauge.set(100);
    gauge.add_assign(200);
    assert_eq!(gauge.value(), 100);
    let mut full = GaugeU8::<255>::new();
    full.set(250);
    full.add_assign(10);
    assert_eq!(full.value(), 255);
}
