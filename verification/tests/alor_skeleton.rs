use strategy_runtime::alor_skeleton::{AlorSkeletonConfig, AlorSkeletonState, AlorSkeletonStrategy};

fn skeleton() -> AlorSkeletonStrategy {
    AlorSkeletonStrategy::new(AlorSkeletonConfig { symbol: "SBER".to_string() })
}

#[test]
fn skeleton_starts_created_and_follows_lifecycle_events() {
    let mut s = skeleton();
    assert_eq!(s.state().lifecycle_stage, "created");
    s.on_bar("GAZP", 10);
    assert_eq!(s.state().lifecycle_stage, "created");
    assert_eq!(s.state().last_bar_ts, None);
    s.on_bar("SBER", 10);
    assert_eq!(s.state().lifecycle_stage, "live");
    assert_eq!(s.state().last_bar_ts, Some(10));
    s.on_stop_order();
    assert_eq!(s.state().lifecycle_stage, "stop_order_observed");
    s.on_bootstrap_snapshot();
    assert_eq!(s.state().lifecycle_stage, "bootstrapped");
    assert!(s.state().bootstrap_seen);
    s.on_runtime_state_restored();
    assert_eq!(s.state().lifecycle_stage, "runtime_state_restored");
    assert!(s.state().runtime_state_restored);
    assert_eq!(s.state().last_bar_ts, Some(10));
}

#[test]
fn skeleton_state_can_be_replaced() {
    let mut s = skeleton();
    s.set_state(AlorSkeletonState {
        lifecycle_stage: "live".to_string(),
        last_bar_ts: Some(5),
        bootstrap_seen: true,
        runtime_state_restored: false,
    });
    assert_eq!(s.state().last_bar_ts, Some(5));
    assert!(s.state().bootstrap_seen);
}
