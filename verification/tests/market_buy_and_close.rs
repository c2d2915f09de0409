use strategy_runtime::host::{
    AckStatus, CloseTrigger, DataOrigin, GatewayPhase, LiveGate, OrderSide, TradeMode,
};
use strategy_runtime::market_buy_and_close::{
    aggressive_ticks, BlockReason, ExitReason, MarketBuyAndCloseConfig,
    MarketBuyAndCloseLiveOrderStyle, MarketBuyAndCloseOrder, MarketBuyAndCloseState,
    MarketBuyAndCloseStrategy, RequestIds,
};

fn config() -> MarketBuyAndCloseConfig {
    MarketBuyAndCloseConfig {
        symbol: "SBER".to_string(),
        qty: 1,
        side: OrderSide::Buy,
        live_order_style: MarketBuyAndCloseLiveOrderStyle::Market,
        marketable_limit_offset_ticks: 0,
        close_trigger: CloseTrigger::NextBar,
        entry_ack_timeout_ms: 15_000,
        entry_fill_timeout_ms: 60_000,
        exit_ack_timeout_ms: 15_000,
        exit_fill_timeout_ms: 60_000,
    }
}

fn live_gate() -> LiveGate {
    LiveGate {
        trade_mode: TradeMode::Live,
        allow_live_orders: true,
        gateway_phase: GatewayPhase::LiveReady,
    }
}

fn ids() -> RequestIds {
    RequestIds { live_open: 11, live_close: 12, paper_buy: 21, paper_close: 22 }
}

fn in_position(close_trigger: CloseTrigger) -> MarketBuyAndCloseState {
    MarketBuyAndCloseState::MarketLiveInPosition {
        side: OrderSide::Buy,
        qty: 1,
        baseline_qty: 0,
        close_trigger,
        opened_ts: 100,
        last_bar_ts: 100,
    }
}

fn pending_entry(request_guid: u128, sent_ts: i64) -> MarketBuyAndCloseState {
    MarketBuyAndCloseState::MarketLivePendingEntry {
        request_guid,
        side: OrderSide::Buy,
        qty: 1,
        baseline_qty: 0,
        close_trigger: CloseTrigger::NextBar,
        sent_ts,
        acked: false,
        entry_confirmed_ts: None,
        last_bar_ts: sent_ts,
    }
}

#[test]
fn live_blocks_without_live_origin() {
    let mut strategy = MarketBuyAndCloseStrategy::new(config());
    let out = strategy.on_bar(live_gate(), DataOrigin::History, "SBER", 1, 0, None, Some(0), ids());
    assert!(out.is_none());
    assert_eq!(strategy.state, MarketBuyAndCloseState::Idle);
    assert_eq!(strategy.last_processed_bar_ts, Some(1));
}

#[test]
fn live_needs_position_confirmation_before_close() {
    let mut strategy = MarketBuyAndCloseStrategy::new(config());
    let gate = live_gate();
    assert!(strategy.on_bar(gate, DataOrigin::Live, "SBER", 10, 0, None, Some(0), ids()).is_none());
    assert!(strategy.on_bar(gate, DataOrigin::Live, "SBER", 20, 0, Some(10), Some(0), ids()).is_some());
    assert!(strategy.on_position("SBER", 1, 20, Some(20), 0, ids()).is_none());
    assert!(matches!(strategy.state, MarketBuyAndCloseState::MarketLiveInPosition { opened_ts: 20, .. }));
    assert!(strategy.on_bar(gate, DataOrigin::Live, "SBER", 30, 0, Some(20), Some(1), ids()).is_some());
}

#[test]
fn live_market_mode_entry_still_uses_market_intent() {
    let mut strategy = MarketBuyAndCloseStrategy::new(config());
    let out = strategy.on_bar(live_gate(), DataOrigin::Live, "SBER", 10, 0, Some(5), Some(0), ids());
    assert_eq!(
        out,
        Some(MarketBuyAndCloseOrder::Market { side: OrderSide::Buy, qty: 1, fill_at_bar_open: false })
    );
}

#[test]
fn marketable_limit_entry_uses_place_intent() {
    let mut cfg = config();
    cfg.live_order_style = MarketBuyAndCloseLiveOrderStyle::MarketableLimit;
    let mut strategy = MarketBuyAndCloseStrategy::new(cfg);
    let out = strategy.on_bar(live_gate(), DataOrigin::Live, "SBER", 10, 0, Some(5), Some(0), ids());
    assert_eq!(out, Some(MarketBuyAndCloseOrder::MarketableLimit { side: OrderSide::Buy, qty: 1 }));
    // The limit crosses the reference by one tick more than the configured offset.
    assert_eq!(aggressive_ticks(0), 1);
    assert!(matches!(
        strategy.state(),
        MarketBuyAndCloseState::MarketLivePendingEntry { request_guid: 11, .. }
    ));
}

#[test]
fn live_blocks_on_entry_ack_timeout() {
    let mut cfg = config();
    cfg.entry_ack_timeout_ms = 1_000;
    let mut strategy = MarketBuyAndCloseStrategy::new(cfg);
    let gate = live_gate();
    assert!(strategy.on_bar(gate, DataOrigin::Live, "SBER", 10, 0, None, Some(0), ids()).is_none());
    assert!(strategy.on_bar(gate, DataOrigin::Live, "SBER", 12, 12, Some(10), Some(0), ids()).is_some());
    assert!(strategy.on_bar(gate, DataOrigin::Live, "SBER", 14, 14, Some(12), Some(0), ids()).is_none());
    assert!(matches!(strategy.state(), MarketBuyAndCloseState::Blocked { .. }));
    if let MarketBuyAndCloseState::Blocked { reason, last_bar_ts } = strategy.state() {
        assert_eq!(reason.message(), "entry_ack_timeout_ms exceeded: 1000");
        assert_eq!(last_bar_ts, 14);
    }
}

#[test]
fn live_waits_for_second_bar_before_entry() {
    let mut strategy = MarketBuyAndCloseStrategy::new(config());
    let out = strategy.on_bar(live_gate(), DataOrigin::Live, "SBER", 10, 0, None, Some(0), ids());
    assert!(out.is_none());
    assert_eq!(strategy.state(), MarketBuyAndCloseState::Idle);
}

#[test]
fn live_position_update_trigger_transitions_to_pending_exit() {
    let mut cfg = config();
    cfg.close_trigger = CloseTrigger::PositionUpdate;
    let mut strategy = MarketBuyAndCloseStrategy::new(cfg);
    strategy.state = in_position(CloseTrigger::PositionUpdate);
    let out = strategy.on_position("SBER", 1, 120, Some(120), 0, ids());
    assert!(out.is_some());
    assert!(matches!(
        strategy.state(),
        MarketBuyAndCloseState::MarketLivePendingExit {
            reason: ExitReason::PositionUpdate,
            baseline_qty: 0,
            ..
        }
    ));
    assert_eq!(ExitReason::PositionUpdate.as_str(), "position_update");
}

#[test]
fn marketable_limit_position_update_uses_place_for_flatten() {
    let mut cfg = config();
    cfg.close_trigger = CloseTrigger::PositionUpdate;
    cfg.live_order_style = MarketBuyAndCloseLiveOrderStyle::MarketableLimit;
    let mut strategy = MarketBuyAndCloseStrategy::new(cfg);
    strategy.state = in_position(CloseTrigger::PositionUpdate);
    let out = strategy.on_position("SBER", 1, 120, Some(120), 0, ids());
    assert_eq!(out, Some(MarketBuyAndCloseOrder::MarketableLimit { side: OrderSide::Sell, qty: 1 }));
}

#[test]
fn live_next_bar_trigger_transitions_to_pending_exit() {
    let mut strategy = MarketBuyAndCloseStrategy::new(config());
    strategy.state = in_position(CloseTrigger::NextBar);
    let out = strategy.on_bar(live_gate(), DataOrigin::Live, "SBER", 120, 120, None, Some(1), ids());
    assert!(out.is_some());
    assert!(matches!(
        strategy.state(),
        MarketBuyAndCloseState::MarketLivePendingExit {
            reason: ExitReason::NextBar,
            baseline_qty: 0,
            sent_ts: 120,
            ..
        }
    ));
    assert_eq!(ExitReason::NextBar.as_str(), "next_bar");
}

#[test]
fn marketable_limit_next_bar_uses_place_for_flatten() {
    let mut cfg = config();
    cfg.live_order_style = MarketBuyAndCloseLiveOrderStyle::MarketableLimit;
    let mut strategy = MarketBuyAndCloseStrategy::new(cfg);
    strategy.state = in_position(CloseTrigger::NextBar);
    let out = strategy.on_bar(live_gate(), DataOrigin::Live, "SBER", 120, 0, None, Some(1), ids());
    assert_eq!(out, Some(MarketBuyAndCloseOrder::MarketableLimit { side: OrderSide::Sell, qty: 1 }));
    assert!(matches!(
        strategy.state(),
        MarketBuyAndCloseState::MarketLivePendingExit { request_guid: 12, .. }
    ));
}

#[test]
fn ack_matches_pending_sets_acked_true() {
    let mut strategy = MarketBuyAndCloseStrategy::new(config());
    strategy.state = pending_entry(77, 1_000);
    strategy.on_ack(77, AckStatus::Accepted, 1_000);
    assert!(matches!(
        strategy.state(),
        MarketBuyAndCloseState::MarketLivePendingEntry { acked: true, .. }
    ));
}

#[test]
fn reject_blocks_strategy_with_reason() {
    let mut strategy = MarketBuyAndCloseStrategy::new(config());
    strategy.state = pending_entry(78, 2_000);
    strategy.on_ack(78, AckStatus::Rejected, 2_001);
    match strategy.state() {
        MarketBuyAndCloseState::Blocked { reason, last_bar_ts } => {
            assert!(reason.message().contains("entry_rejected"));
            assert_eq!(reason.message(), "entry_rejected status=Rejected");
            assert_eq!(last_bar_ts, 2_001);
        }
        other => panic!("unexpected state {other:?}"),
    }
}

#[test]
fn ack_for_another_request_changes_nothing() {
    let mut strategy = MarketBuyAndCloseStrategy::new(config());
    strategy.state = pending_entry(78, 2_000);
    strategy.on_ack(79, AckStatus::Rejected, 2_001);
    assert_eq!(strategy.state(), pending_entry(78, 2_000));
}

#[test]
fn paper_round_trip_buys_then_closes_at_bar_opens() {
    let mut strategy = MarketBuyAndCloseStrategy::new(config());
    let gate = LiveGate {
        trade_mode: TradeMode::Paper,
        allow_live_orders: false,
        gateway_phase: GatewayPhase::SyncingHistory,
    };
    assert!(strategy.on_bar(gate, DataOrigin::History, "SBER", 10, 0, None, Some(0), ids()).is_none());
    assert_eq!(
        strategy.on_bar(gate, DataOrigin::History, "SBER", 20, 0, None, Some(0), ids()),
        Some(MarketBuyAndCloseOrder::Market { side: OrderSide::Buy, qty: 1, fill_at_bar_open: true })
    );
    assert_eq!(
        strategy.on_bar(gate, DataOrigin::History, "SBER", 30, 0, None, Some(1), ids()),
        Some(MarketBuyAndCloseOrder::Market { side: OrderSide::Sell, qty: 1, fill_at_bar_open: true })
    );
    assert!(matches!(
        strategy.state(),
        MarketBuyAndCloseState::MarketCloseSent { close_request_id: 22, last_bar_ts: 30, .. }
    ));
    assert!(strategy.on_bar(gate, DataOrigin::History, "SBER", 40, 0, None, Some(0), ids()).is_none());
}

#[test]
fn stale_or_foreign_bars_do_nothing() {
    let mut strategy = MarketBuyAndCloseStrategy::new(config());
    let gate = live_gate();
    assert!(strategy.on_bar(gate, DataOrigin::Live, "GAZP", 10, 0, Some(5), Some(0), ids()).is_none());
    assert_eq!(strategy.last_processed_bar_ts, Some(10));
    assert!(strategy.on_bar(gate, DataOrigin::Live, "SBER", 10, 0, Some(5), Some(0), ids()).is_none());
    assert_eq!(strategy.state(), MarketBuyAndCloseState::Idle);
}

#[test]
fn position_exit_fill_finishes_round_trip() {
    let mut strategy = MarketBuyAndCloseStrategy::new(config());
    strategy.state = MarketBuyAndCloseState::MarketLivePendingExit {
        request_guid: 5,
        reason: ExitReason::NextBar,
        side: OrderSide::Sell,
        qty: 1,
        baseline_qty: 0,
        sent_ts: 100,
        acked: true,
        last_bar_ts: 100,
    };
    assert!(strategy.on_position("SBER", 0, 150, None, 0, ids()).is_none());
    assert_eq!(strategy.state(), MarketBuyAndCloseState::Done { last_bar_ts: 150 });
}

#[test]
fn exit_fill_timeout_blocks_after_ack() {
    let mut cfg = config();
    cfg.exit_fill_timeout_ms = 5_000;
    let mut strategy = MarketBuyAndCloseStrategy::new(cfg);
    strategy.state = MarketBuyAndCloseState::MarketLivePendingExit {
        request_guid: 5,
        reason: ExitReason::NextBar,
        side: OrderSide::Sell,
        qty: 1,
        baseline_qty: 0,
        sent_ts: 100,
        acked: true,
        last_bar_ts: 100,
    };
    strategy.check_live_timeouts(106, 106);
    assert_eq!(
        strategy.state(),
        MarketBuyAndCloseState::Blocked {
            reason: BlockReason::ExitFillTimeout { limit_ms: 5_000 },
            last_bar_ts: 106
        }
    );
    assert_eq!(
        BlockReason::ExitFillTimeout { limit_ms: 5_000 }.message(),
        "exit_fill_timeout_ms exceeded: 5000"
    );
}

#[test]
fn clock_going_backwards_counts_as_timeout() {
    let mut strategy = MarketBuyAndCloseStrategy::new(config());
    strategy.state = pending_entry(1, 100);
    strategy.check_live_timeouts(99, 99);
    assert!(matches!(
        strategy.state(),
        MarketBuyAndCloseState::Blocked { reason: BlockReason::EntryAckTimeout { .. }, .. }
    ));
}

#[test]
fn broker_position_while_idle_is_adopted() {
    let mut strategy = MarketBuyAndCloseStrategy::new(config());
    assert!(strategy.on_position("SBER", -3, 50, None, 0, ids()).is_none());
    assert_eq!(
        strategy.state(),
        MarketBuyAndCloseState::MarketLiveInPosition {
            side: OrderSide::Buy,
            qty: 3,
            baseline_qty: 0,
            close_trigger: CloseTrigger::NextBar,
            opened_ts: 50,
            last_bar_ts: 50
        }
    );
}

#[test]
fn style_words_and_default() {
    assert_eq!(MarketBuyAndCloseLiveOrderStyle::Market.as_str(), "market");
    assert_eq!(MarketBuyAndCloseLiveOrderStyle::MarketableLimit.as_str(), "marketable_limit");
    assert_eq!(MarketBuyAndCloseLiveOrderStyle::default(), MarketBuyAndCloseLiveOrderStyle::Market);
    assert_eq!(aggressive_ticks(3), 4);
    assert_eq!(aggressive_ticks(-2), 1);
}
