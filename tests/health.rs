use movement::health::{FallDamage, Health, HealthBundle};

#[test]
fn default_health_is_full() {
    let h = Health::default();
    assert_eq!(h.hearts, 20);
    assert_eq!(h.max, 20);
    assert!(!h.is_dead());
    let ui = h.build_interface();
    assert_eq!(ui.visible, (1..=20).collect::<Vec<u32>>());
    assert!(ui.hidden.is_empty());
}

#[test]
fn damage_hides_lost_hearts() {
    let mut h = Health::default();
    let ui = h.take_damage(3);
    assert_eq!(h.hearts, 17);
    assert_eq!(ui.hidden, vec![18, 19, 20]);
    assert!(ui.visible.is_empty());
    let ui = h.take_damage(100);
    assert_eq!(h.hearts, 0);
    assert_eq!(ui.hidden.len(), 17);
    assert!(h.is_dead());
}

#[test]
fn healing_stops_at_the_maximum() {
    let mut h = Health { hearts: 5, max: 20 };
    let ui = h.heal(2);
    assert_eq!(h.hearts, 7);
    assert_eq!(ui.visible, vec![6, 7]);
    let ui = h.heal(u32::MAX);
    assert_eq!(h.hearts, 20);
    assert_eq!(ui.visible, (8..=20).collect::<Vec<u32>>());
    let ui = h.build_interface();
    assert_eq!(ui.visible.len(), 20);
    let h = Health { hearts: 18, max: 20 };
    assert_eq!(h.build_interface().hidden, vec![19, 20]);
}

#[test]
fn fall_damage_builds_and_lands() {
    let mut f = FallDamage(0);
    assert_eq!(f.update(-10_000_000), None);
    assert_eq!(f.0, 0);
    assert_eq!(f.update(-25_500_000), None);
    assert_eq!(f.0, 5);
    assert_eq!(f.update(-50_000), Some(5));
    assert_eq!(f.0, 0);
    assert_eq!(f.update(0), None);
}

#[test]
fn bundle_starts_without_fall_damage() {
    let b = HealthBundle::from_health(Health { hearts: 3, max: 10 });
    assert_eq!(b.health.hearts, 3);
    assert_eq!(b.fall_damage, FallDamage(0));
}
