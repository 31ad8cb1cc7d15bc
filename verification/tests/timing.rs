use xivc::math::SpeedStat;
use xivc::timing::{ActionCd, EventCascade, ScaleTime};

#[test]
fn action_cd_single_charge() {
    let mut cd = ActionCd::new();
    assert!(cd.available(60000, 1));
    cd.apply(60000, 1);
    assert!(!cd.available(60000, 1));
    assert_eq!(cd.cd_until(60000, 1), 60000);
    cd.advance(59999);
    assert_eq!(cd.cd_until(60000, 1), 1);
    cd.advance(1);
    assert!(cd.available(60000, 1));
}

#[test]
fn action_cd_charges_in_a_row() {
    let mut cd = ActionCd::new();
    cd.apply(30000, 2);
    assert!(cd.available(30000, 2));
    cd.apply(30000, 2);
    assert!(!cd.available(30000, 2));
    assert_eq!(cd.cd_until(30000, 2), 30000);
    cd.advance(10000);
    assert_eq!(cd.cd_until(30000, 2), 20000);
}

#[test]
fn action_cd_apply_caps_at_all_charges() {
    let mut cd = ActionCd::new();
    cd.apply(1000, 2);
    cd.apply(1000, 2);
    cd.apply(1000, 2);
    assert_eq!(cd.cd_until(1000, 2), 1000);
}

#[test]
fn event_cascade_spaces_hits() {
    let mut c = EventCascade::new(600, 1);
    let a = c.next();
    let b = c.next();
    assert_eq!(a, 600);
    assert_eq!(b, 645);
}

#[test]
fn event_cascade_hands_out_the_start_plus_k_amounts() {
    let mut c = EventCascade::with_amount(0, 100);
    for k in 0..20u32 {
        assert_eq!(c.next(), k * 100);
    }
}

#[test]
fn scale_time_parts() {
    let s = ScaleTime::skill(2500);
    assert_eq!(s.duration(), 2500);
    assert_eq!(s.stat(), Some(SpeedStat::SkillSpeed));
    assert!(s.haste());
    let n = ScaleTime::none(1300);
    assert_eq!(n.stat(), None);
    assert!(!n.haste());
    assert!(ScaleTime::zero().is_zero());
    assert!(!n.is_zero());
    let sp = ScaleTime::spell(1500);
    assert_eq!(sp.stat(), Some(SpeedStat::SpellSpeed));
    let custom = ScaleTime::new(100, None, true);
    assert_eq!(custom.duration(), 100);
    assert!(custom.haste());
}
