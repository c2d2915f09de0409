use strategy_runtime::host::{DataOrigin, GatewayPhase, IntentClass, LiveGate, OrderSide, PaperExecutionMode, TradeMode};
use strategy_runtime::hybrid_intraday_runtime::{
    EntryShape, HybridIntradayRuntimeConfig, HybridIntradayRuntimeStrategy, Owner, Side,
};
use strategy_runtime::hybrid_on_bar::{HybridAction, HybridBarStart};
use strategy_runtime::market_buy_and_close::MarketBuyAndCloseLiveOrderStyle;

const MARKET: EntryShape = EntryShape { bracket: false, has_stop_price: false, has_take_price: false };

fn config() -> HybridIntradayRuntimeConfig {
    HybridIntradayRuntimeConfig {
        symbol: "IMOEXF".to_string(),
        qty: 1,
        live_order_style: MarketBuyAndCloseLiveOrderStyle::Market,
        marketable_limit_offset_ticks: 0,
        timezone_offset_hours: 3,
        session_close_hour: 23,
        session_close_minute: 49,
        weekends_off: true,
        stop_end_buffer_sec: 60,
        repair_deadline_sec: 180,
        sl_escalate_timeout_sec: 30,
        max_repair_retries: 3,
        repair_backoff_base_sec: 5,
        repair_backoff_max_sec: 60,
        pending_timeout_sec: 30,
    }
}

fn ready_gate() -> LiveGate {
    LiveGate { trade_mode: TradeMode::Live, allow_live_orders: true, gateway_phase: GatewayPhase::LiveReady }
}

#[test]
fn bars_of_other_symbols_and_repeated_bars_are_ignored() {
    let mut s = HybridIntradayRuntimeStrategy::new(config());
    assert_eq!(s.begin_bar("SiM6", 1_000, true, true, DataOrigin::Live, 0), HybridBarStart::Ignored);
    assert_eq!(s.begin_bar("IMOEXF", 1_000, false, true, DataOrigin::Live, 0), HybridBarStart::Ignored);
    assert_eq!(s.begin_bar("IMOEXF", 1_000, true, true, DataOrigin::Live, 0), HybridBarStart::Proceed);
    let (_, outs) = s.finish_bar("hyb-test", 1_000, ready_gate(), PaperExecutionMode::LiveOnly, true, Some(0), 1, 2, &Vec::new(), &Vec::new());
    assert!(outs.is_empty());
    assert_eq!(s.last_processed_bar_ts, Some(1_000));
    assert_eq!(s.begin_bar("IMOEXF", 1_000, true, true, DataOrigin::Live, 0), HybridBarStart::Ignored);
    assert_eq!(s.begin_bar("IMOEXF", 999, true, true, DataOrigin::Live, 0), HybridBarStart::Ignored);
}

#[test]
fn replayed_startup_bar_counts_as_processed_without_actions() {
    let mut s = HybridIntradayRuntimeStrategy::new(config());
    s.arm_startup_replay_guard(true, 2_000);
    let start = s.begin_bar("IMOEXF", 1_900, true, true, DataOrigin::Live, 0);
    assert_eq!(start, HybridBarStart::ReplayHeld { entry_dropped: false });
    assert_eq!(s.last_processed_bar_ts, Some(1_900));
    assert_eq!(s.startup_replay_suppressed_bars, 1);
}

#[test]
fn actions_follow_the_repair_round_in_order() {
    let mut s = HybridIntradayRuntimeStrategy::new(config());
    s.entry_ready = true;
    assert_eq!(s.begin_bar("IMOEXF", 1_700_000_000, true, true, DataOrigin::Live, 0), HybridBarStart::Proceed);
    let actions = vec![
        HybridAction::ArmOvernightExit,
        HybridAction::SubmitEntry { owner: Owner::MeanReversion, side: Side::Long, shape: MARKET },
        HybridAction::SubmitExit { owner: Owner::MeanReversion },
    ];
    let (plan, outs) = s.finish_bar(
        "hyb-test",
        1_700_000_000,
        ready_gate(),
        PaperExecutionMode::LiveOnly,
        true,
        Some(0),
        1,
        2,
        &actions,
        &vec![10, 11, 12],
    );
    assert!(plan.cleanup.is_empty() && plan.exit.is_none());
    assert_eq!(outs.len(), 3);
    assert!(outs[0].is_none());
    let entry = outs[1].as_ref().expect("entry");
    assert_eq!(entry.side, OrderSide::Buy);
    assert_eq!(entry.class, IntentClass::Entry);
    // A flat broker position has nothing to exit.
    assert!(outs[2].is_none());
    assert_eq!(s.pending_entry_request_id, Some(11));
    assert_eq!(s.last_processed_bar_ts, Some(1_700_000_000));
}

#[test]
fn dropped_entry_releases_orchestrator_pending_state() {
    let mut s = HybridIntradayRuntimeStrategy::new(config());
    s.entry_ready = false;
    assert_eq!(s.begin_bar("IMOEXF", 300, true, true, DataOrigin::Live, 0), HybridBarStart::Proceed);
    let actions = vec![HybridAction::SubmitEntry { owner: Owner::MeanReversion, side: Side::Long, shape: MARKET }];
    let (_, outs) = s.finish_bar("hyb-test", 300, ready_gate(), PaperExecutionMode::LiveOnly, true, Some(0), 1, 2, &actions, &vec![7]);
    // No order: the caller tells the signal engine that its entry was dropped.
    assert!(outs[0].is_none());
    assert!(s.pending_entry.is_none());
    assert!(s.pending_entry_request_id.is_none());
}
