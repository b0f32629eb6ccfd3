use gambling::effects::{payout, resolve, EffectCategory, EffectRegistry, EffectsRow};

const NOW: i64 = 1_700_000_000;

fn effect(id: i32, item: &str, expiry: Option<i64>) -> EffectsRow {
    EffectsRow { id, item_id: item.to_string(), expiry }
}

#[test]
fn no_effects_leave_the_payout_alone() {
    let registry = EffectRegistry::standard();
    assert_eq!(resolve(&registry, &Vec::new(), 100, -100, false, NOW), (-100, vec![]));
    assert_eq!(resolve(&registry, &Vec::new(), 100, 250, true, NOW), (250, vec![]));
}

#[test]
fn five_times_boost_on_a_win() {
    let registry = EffectRegistry::standard();
    let ledger = vec![effect(7, "payout5x", None)];
    assert_eq!(resolve(&registry, &ledger, 50, 100, true, NOW), (500, vec![7]));
}

#[test]
fn refund_returns_the_stake_on_a_loss() {
    let registry = EffectRegistry::standard();
    let ledger = vec![effect(3, "luckychip", None)];
    assert_eq!(resolve(&registry, &ledger, 100, -100, false, NOW), (100, vec![3]));
    assert_eq!(resolve(&registry, &ledger, 100, 200, true, NOW), (200, vec![3]));
}

#[test]
fn only_the_first_refund_is_spent() {
    let registry = EffectRegistry::standard();
    let ledger = vec![effect(1, "luckychip", Some(NOW + 60)), effect(2, "luckychip", Some(NOW + 60))];
    assert_eq!(resolve(&registry, &ledger, 40, -40, false, NOW), (40, vec![1]));
}

#[test]
fn single_use_effects_are_spent() {
    let registry = EffectRegistry::standard();
    let ledger = vec![effect(4, "payout2x", None), effect(5, "mystery", None)];
    assert_eq!(resolve(&registry, &ledger, 10, -10, false, NOW), (-10, vec![4, 5]));
}

#[test]
fn timed_effects_run_out() {
    let registry = EffectRegistry::standard();
    let stale = vec![effect(8, "payout10x", Some(NOW - 1))];
    assert_eq!(resolve(&registry, &stale, 10, 100, true, NOW), (100, vec![8]));
    let live = vec![effect(9, "payout2x", Some(NOW + 100))];
    assert_eq!(resolve(&registry, &live, 10, 100, true, NOW), (200, vec![]));
    let edge = vec![effect(9, "payout2x", Some(NOW))];
    assert_eq!(resolve(&registry, &edge, 10, 100, true, NOW), (200, vec![]));
}

#[test]
fn additive_effects_accumulate() {
    let registry = EffectRegistry::standard();
    let ledger = vec![
        effect(1, "payout2x", Some(NOW + 5)),
        effect(2, "payout10x", None),
        effect(3, "luckychip", None),
    ];
    assert_eq!(resolve(&registry, &ledger, 30, 100, true, NOW), (1_200, vec![2, 3]));
}

#[test]
fn payout_never_drops_below_base() {
    let registry = EffectRegistry::standard();
    let ledger = vec![effect(1, "payout2x", None)];
    assert_eq!(resolve(&registry, &ledger, 30, -30, true, NOW), (-30, vec![1]));
    let refund = vec![effect(2, "luckychip", None)];
    assert_eq!(resolve(&registry, &refund, 10, 50, false, NOW), (50, vec![2]));
    let huge = vec![effect(3, "payout100x", None)];
    assert_eq!(resolve(&registry, &huge, 1, i64::MAX / 2, true, NOW), (i64::MAX, vec![3]));
}

#[test]
fn payout_reads_the_clock() {
    let registry = EffectRegistry::standard();
    let ledger = vec![effect(1, "payout5x", Some(0)), effect(2, "payout2x", Some(i64::MAX))];
    assert_eq!(payout(&registry, &ledger, 10, 100, true), (200, vec![1]));
}

#[test]
fn effect_catalog() {
    let registry = EffectRegistry::standard();
    let chip = registry.get("luckychip").unwrap();
    assert_eq!(chip.category, EffectCategory::Refund);
    assert_eq!(chip.apply(70, -70), 70);
    let x50 = registry.get("payout50x").unwrap();
    assert_eq!(x50.duration_secs, Some(120));
    assert_eq!(x50.apply(1, 3), 150);
    assert_eq!(x50.apply(1, -3), -3);
    assert!(registry.get("eggplant").is_none());
}

#[test]
fn activation_sets_expiry() {
    let registry = EffectRegistry::standard();
    assert_eq!(registry.get("payout2x").unwrap().expiry_at(NOW), Some(NOW + 900));
    assert_eq!(registry.get("luckychip").unwrap().expiry_at(NOW), None);
    assert_eq!(registry.get("payout100x").unwrap().expiry_at(i64::MAX - 1), Some(i64::MAX));
}
