use strategy_runtime::host::{
    CleanupIntent, GatewayPhase, IntentClass, LiveGate, OrderSide, PaperExecutionMode,
    StopLimitCondition, TradeMode,
};
use strategy_runtime::hybrid_intraday_runtime::{
    build_comment, can_emit_now, can_execute_now, cycle_ts_utc, format_cycle_id, is_our_tag,
    make_cycle_id, parse_cycle_id, parse_hybrid_tag, HybridIntradayRuntimeConfig,
    AckEffect, EntryShape, HybridIntradayRuntimeStrategy, Owner, PositionEffect, Side, TagRole,
    BootstrapOrder, BootstrapStopOrder, HybridIntradayState,
};
use strategy_runtime::host::{AckStatus, DataOrigin};
use strategy_runtime::market_buy_and_close::MarketBuyAndCloseLiveOrderStyle;

const MARKET: EntryShape = EntryShape { bracket: false, has_stop_price: false, has_take_price: false };

fn test_config() -> HybridIntradayRuntimeConfig {
    HybridIntradayRuntimeConfig {
        symbol: "IMOEXF".to_string(),
        qty: 1,
        live_order_style: MarketBuyAndCloseLiveOrderStyle::Market,
        marketable_limit_offset_ticks: 0,
        timezone_offset_hours: 3,
        session_close_hour: 23,
        session_close_minute: 49,
        weekends_off: true,
        stop_end_buffer_sec: 60,
        repair_deadline_sec: 180,
        sl_escalate_timeout_sec: 30,
        max_repair_retries: 3,
        repair_backoff_base_sec: 5,
        repair_backoff_max_sec: 60,
        pending_timeout_sec: 30,
    }
}

fn live_gate(phase: GatewayPhase) -> LiveGate {
    LiveGate { trade_mode: TradeMode::Live, allow_live_orders: true, gateway_phase: phase }
}

fn utc(y: i32, mo: u32, d: u32, h: u32, mi: u32, s: u32) -> i64 {
    chrono::NaiveDate::from_ymd_opt(y, mo, d)
        .unwrap()
        .and_hms_opt(h, mi, s)
        .unwrap()
        .and_utc()
        .timestamp()
}

fn mr_long(strategy: &mut HybridIntradayRuntimeStrategy) {
    strategy.current_owner = Some(Owner::MeanReversion);
    strategy.current_side = Some(Side::Long);
}

#[test]
fn stop_end_uses_same_day_session_close_plus_buffer() {
    let strategy = HybridIntradayRuntimeStrategy::new(test_config());
    let created = utc(2025, 1, 7, 12, 0, 0);
    assert_eq!(strategy.resolve_stop_end_unix_time(created), utc(2025, 1, 7, 20, 50, 0));
}

#[test]
fn stop_end_weekend_rolls_to_next_trading_day_when_weekends_off() {
    let strategy = HybridIntradayRuntimeStrategy::new(test_config());
    // Sunday 13:00 in the exchange's zone.
    let created = utc(2025, 1, 5, 10, 0, 0);
    assert_eq!(strategy.resolve_stop_end_unix_time(created), utc(2025, 1, 6, 20, 50, 0));
}

#[test]
fn stop_end_after_close_rolls_to_next_day_and_falls_back_for_non_positive_times() {
    let mut cfg = test_config();
    cfg.weekends_off = false;
    let strategy = HybridIntradayRuntimeStrategy::new(cfg);
    // Sunday 23:55 local is past the close: the next close is Monday's.
    let created = utc(2025, 1, 5, 20, 55, 0);
    assert_eq!(strategy.resolve_stop_end_unix_time(created), utc(2025, 1, 6, 20, 50, 0));
    assert_eq!(strategy.resolve_stop_end_unix_time(0), 60);
    assert_eq!(strategy.resolve_stop_end_unix_time(-5), 60);
    assert_eq!(strategy.stop_end_buffer_or_default(100), 160);
}

#[test]
fn stop_end_falls_back_when_zone_offset_is_invalid() {
    let mut cfg = test_config();
    cfg.timezone_offset_hours = 30;
    let strategy = HybridIntradayRuntimeStrategy::new(cfg);
    assert_eq!(strategy.resolve_stop_end_unix_time(1_000), 1_060);
}

#[test]
fn pending_entry_is_counted_as_live_order() {
    let mut strategy = HybridIntradayRuntimeStrategy::new(test_config());
    strategy.entry_ready = true;
    let order = strategy
        .submit_entry("hyb-test", Owner::MeanReversion, Side::Long, MARKET, 10, true, true, 7)
        .expect("entry order");
    assert_eq!(order.side, OrderSide::Buy);
    assert_eq!(order.class, IntentClass::Entry);
    assert!(order.comment.starts_with("HYB|sid=hyb-test|c="));
    assert!(order.comment.ends_with("|o=MR|r=ENTRY"));
    assert!(strategy.has_live_orders());
    assert_eq!(strategy.pending_entry_request_id, Some(7));
}

#[test]
fn pending_exit_is_counted_as_live_order() {
    let mut strategy = HybridIntradayRuntimeStrategy::new(test_config());
    let order = strategy
        .submit_exit("hyb-test", Owner::MeanReversion, 10, true, true, Some(1), 8)
        .expect("exit order");
    assert_eq!(order.side, OrderSide::Sell);
    assert_eq!(order.qty, 1);
    assert!(strategy.pending_exit_request_id.is_some());
    assert!(strategy.has_live_orders());
}

#[test]
fn submit_exit_is_suppressed_while_pending_exit_is_active() {
    let mut strategy = HybridIntradayRuntimeStrategy::new(test_config());
    assert!(strategy.submit_exit("hyb-test", Owner::MeanReversion, 10, true, true, Some(1), 8).is_some());
    assert!(strategy.submit_exit("hyb-test", Owner::MeanReversion, 11, true, true, Some(1), 9).is_none());
    assert_eq!(strategy.pending_exit_request_id, Some(8));
}

#[test]
fn submit_exit_uses_current_position_qty_without_flip() {
    let mut strategy = HybridIntradayRuntimeStrategy::new(test_config());
    let order = strategy
        .submit_exit("hyb-test", Owner::IntradayBreakout, 10, true, true, Some(-3), 8)
        .expect("exit order");
    assert_eq!(order.side, OrderSide::Buy);
    assert_eq!(order.qty, 3);
    assert!(strategy.submit_exit("hyb-test", Owner::IntradayBreakout, 10, true, true, Some(0), 9).is_none());
}

#[test]
fn warmup_blocks_entry_until_prev_day_range_ready() {
    let mut strategy = HybridIntradayRuntimeStrategy::new(test_config());
    assert!(strategy
        .submit_entry("hyb-test", Owner::MeanReversion, Side::Long, MARKET, 10, true, true, 7)
        .is_none());
    assert!(!strategy.has_live_orders());
}

#[test]
fn paper_mode_emits_entry_intent_without_pending_mutation() {
    let mut strategy = HybridIntradayRuntimeStrategy::new(test_config());
    strategy.entry_ready = true;
    let order = strategy.submit_entry("hyb-test", Owner::MeanReversion, Side::Short, MARKET, 10, true, false, 7);
    assert!(order.is_some());
    assert!(strategy.pending_entry.is_none());
    assert!(strategy.pending_entry_request_id.is_none());
    assert!(strategy.active_cycle_id.is_none());
}

#[test]
fn pending_entry_gc_clears_stale_tail_when_flat_without_orders() {
    let mut strategy = HybridIntradayRuntimeStrategy::new(test_config());
    strategy.entry_ready = true;
    strategy.submit_entry("hyb-test", Owner::MeanReversion, Side::Long, MARKET, 10, true, true, 7);
    assert!(strategy.pending_entry.is_some());
    let dropped = strategy.clear_stale_pending_tail(10 + 30 + 1, 0);
    assert!(dropped);
    assert!(strategy.pending_entry.is_none());
    assert!(strategy.pending_entry_request_id.is_none());
    assert!(strategy.pending_entry_created_ts_utc.is_none());
    assert!(strategy.active_cycle_id.is_none());
}

#[test]
fn pending_entry_gc_keeps_edge_timeout_for_next_bar_fill() {
    let mut strategy = HybridIntradayRuntimeStrategy::new(test_config());
    strategy.entry_ready = true;
    strategy.submit_entry("hyb-test", Owner::MeanReversion, Side::Long, MARKET, 10, true, true, 7);
    assert!(!strategy.clear_stale_pending_tail(10 + 30, 0));
    assert!(strategy.pending_entry.is_some());
    assert!(strategy.pending_entry_request_id.is_some());
}

#[test]
fn pending_gc_waits_while_position_open_or_orders_work() {
    let mut strategy = HybridIntradayRuntimeStrategy::new(test_config());
    strategy.entry_ready = true;
    strategy.submit_entry("hyb-test", Owner::MeanReversion, Side::Long, MARKET, 10, true, true, 7);
    assert!(!strategy.clear_stale_pending_tail(1_000, 1));
    strategy.working_orders.push(42);
    assert!(!strategy.clear_stale_pending_tail(1_000, 0));
    assert!(strategy.pending_entry.is_some());
}

#[test]
fn pending_gc_reads_entry_age_from_cycle_id() {
    let mut strategy = HybridIntradayRuntimeStrategy::new(test_config());
    strategy.entry_ready = true;
    strategy.submit_entry("hyb-test", Owner::MeanReversion, Side::Long, MARKET, 100, true, true, 7);
    strategy.pending_entry_created_ts_utc = None;
    assert!(!strategy.clear_stale_pending_tail(130, 0));
    assert!(strategy.clear_stale_pending_tail(131, 0));
}

#[test]
fn runtime_state_restore_clears_flat_stale_pending_tail() {
    let mut strategy = HybridIntradayRuntimeStrategy::new(test_config());
    strategy.entry_ready = true;
    mr_long(&mut strategy);
    strategy.submit_entry("hyb-test", Owner::MeanReversion, Side::Long, MARKET, utc(2026, 1, 5, 7, 0, 0), true, true, 7);
    assert!(strategy.clear_boot_stale_pending_tail());
    assert!(strategy.pending_entry.is_none());
    assert!(strategy.pending_entry_request_id.is_none());
    assert!(strategy.pending_exit_request_id.is_none());
    assert!(strategy.pending_tp_request_id.is_none());
    assert!(strategy.pending_sl_request_id.is_none());
    assert!(strategy.current_owner.is_none());
    assert!(strategy.current_side.is_none());
    assert!(strategy.active_cycle_id.is_none());
    assert!(!strategy.clear_boot_stale_pending_tail());
}

#[test]
fn sl_triggered_escalation_waits_for_timeout() {
    let mut strategy = HybridIntradayRuntimeStrategy::new(test_config());
    mr_long(&mut strategy);
    strategy.active_cycle_id = Some(*b"abc1230001");
    strategy.sl_triggered_ts = Some(1_700_000_100);
    strategy.tp_order_id = Some(111);
    strategy.sl_exchange_order_id = Some(222);
    let plan = strategy.maybe_emit_repair_intents(
        live_gate(GatewayPhase::LiveReady),
        PaperExecutionMode::LiveOnly,
        1,
        1_700_000_120,
        1,
        2,
    );
    assert!(plan.cleanup.is_empty() && plan.exit.is_none());
    assert_eq!(strategy.sl_triggered_ts, Some(1_700_000_100));
    assert_eq!(strategy.tp_order_id, Some(111));
    assert_eq!(strategy.sl_exchange_order_id, Some(222));
}

#[test]
fn sl_triggered_escalation_forces_market_exit_after_timeout() {
    let mut strategy = HybridIntradayRuntimeStrategy::new(test_config());
    mr_long(&mut strategy);
    strategy.active_cycle_id = Some(*b"abc1230001");
    strategy.sl_triggered_ts = Some(1_700_000_100);
    strategy.tp_order_id = Some(111);
    strategy.sl_exchange_order_id = Some(222);
    let plan = strategy.maybe_emit_repair_intents(
        live_gate(GatewayPhase::LiveReady),
        PaperExecutionMode::LiveOnly,
        1,
        1_700_000_131,
        1,
        2,
    );
    assert_eq!(
        plan.cleanup,
        vec![CleanupIntent::Cancel { order_id: 111 }, CleanupIntent::Cancel { order_id: 222 }]
    );
    let exit = plan.exit.expect("exit");
    assert_eq!(exit.side, OrderSide::Sell);
    assert_eq!(exit.qty, 1);
    assert_eq!(&exit.cycle_id, b"abc1230001");
    assert!(strategy.safe_mode_close_only);
    assert_eq!(strategy.safe_mode_reason.as_deref(), Some("sl_triggered_escalation"));
    assert!(strategy.sl_triggered_ts.is_none());
}

#[test]
fn repair_is_deferred_with_backoff_when_gateway_not_live_ready() {
    let mut strategy = HybridIntradayRuntimeStrategy::new(test_config());
    mr_long(&mut strategy);
    let cycle = strategy.next_cycle_id(1_700_000_000);
    strategy.active_cycle_id = Some(cycle);
    strategy.has_mr_take_price = true;
    strategy.has_mr_stop_price = true;
    strategy.repair_deadline_ts = Some(1_700_000_360);
    let gate = live_gate(GatewayPhase::SyncingHistory);
    let plan = strategy.maybe_emit_repair_intents(gate, PaperExecutionMode::LiveOnly, 1, 1_700_000_100, 1, 2);
    assert!(plan.take_profit.is_none() && plan.stop_loss.is_none());
    assert_eq!(strategy.next_repair_at_ts, Some(1_700_000_105));
    assert_eq!(strategy.repair_backoff_level, 1);
    let next = strategy.next_repair_at_ts.unwrap();
    let again = strategy.maybe_emit_repair_intents(gate, PaperExecutionMode::LiveOnly, 1, next - 1, 1, 2);
    assert!(again.take_profit.is_none() && again.stop_loss.is_none());
    assert_eq!(strategy.repair_backoff_level, 1);
}

#[test]
fn repair_deadline_forces_market_exit_and_safe_mode() {
    let mut strategy = HybridIntradayRuntimeStrategy::new(test_config());
    mr_long(&mut strategy);
    let cycle = strategy.next_cycle_id(1_700_000_000);
    strategy.active_cycle_id = Some(cycle);
    strategy.has_mr_take_price = true;
    strategy.has_mr_stop_price = true;
    strategy.repair_deadline_ts = Some(1_700_000_100);
    let plan = strategy.maybe_emit_repair_intents(
        live_gate(GatewayPhase::LiveReady),
        PaperExecutionMode::LiveOnly,
        2,
        1_700_000_101,
        1,
        2,
    );
    let exit = plan.exit.expect("exit");
    assert_eq!(exit.side, OrderSide::Sell);
    assert_eq!(exit.qty, 2);
    assert!(plan.cleanup.is_empty());
    assert!(strategy.safe_mode_close_only);
    assert_eq!(strategy.safe_mode_reason.as_deref(), Some("repair_deadline_force_flatten"));
}

#[test]
fn repair_retries_exhausted_enters_safe_mode() {
    let mut cfg = test_config();
    cfg.max_repair_retries = 1;
    cfg.repair_backoff_base_sec = 1;
    cfg.repair_backoff_max_sec = 1;
    let mut strategy = HybridIntradayRuntimeStrategy::new(cfg);
    mr_long(&mut strategy);
    let cycle = strategy.next_cycle_id(1_700_000_000);
    strategy.active_cycle_id = Some(cycle);
    strategy.has_mr_take_price = true;
    strategy.has_mr_stop_price = true;
    strategy.repair_deadline_ts = Some(1_700_010_000);
    let gate = live_gate(GatewayPhase::LiveReady);
    let first = strategy.maybe_emit_repair_intents(gate, PaperExecutionMode::LiveOnly, 1, 1_700_000_100, 31, 32);
    let tp = first.take_profit.expect("take profit");
    let sl = first.stop_loss.expect("stop loss");
    assert_eq!(tp.side, OrderSide::Sell);
    assert_eq!(tp.request_id, 31);
    assert_eq!(sl.side, OrderSide::Sell);
    assert_eq!(sl.condition, StopLimitCondition::LessOrEqual);
    assert_eq!(sl.request_id, 32);
    assert_eq!(sl.stop_end_unix_time, strategy.resolve_stop_end_unix_time(1_700_000_100));
    assert_eq!(strategy.repair_attempts, 1);
    // Both legs were rejected by the gateway.
    strategy.pending_tp_request_id = None;
    strategy.pending_sl_request_id = None;
    strategy.repair_deadline_ts = None;
    let next = strategy.next_repair_at_ts.unwrap();
    let second = strategy.maybe_emit_repair_intents(gate, PaperExecutionMode::LiveOnly, 1, next, 31, 32);
    assert!(second.take_profit.is_none() && second.stop_loss.is_none());
    assert!(strategy.safe_mode_close_only);
    assert_eq!(strategy.safe_mode_reason.as_deref(), Some("repair_retries_exhausted"));
}

#[test]
fn repair_without_cycle_or_levels_enters_safe_mode() {
    let gate = live_gate(GatewayPhase::LiveReady);
    let mut strategy = HybridIntradayRuntimeStrategy::new(test_config());
    mr_long(&mut strategy);
    strategy.maybe_emit_repair_intents(gate, PaperExecutionMode::LiveOnly, 1, 100, 1, 2);
    assert_eq!(strategy.safe_mode_reason.as_deref(), Some("repair_missing_cycle_id"));
    let mut strategy = HybridIntradayRuntimeStrategy::new(test_config());
    mr_long(&mut strategy);
    strategy.active_cycle_id = Some(*b"abc1230001");
    strategy.maybe_emit_repair_intents(gate, PaperExecutionMode::LiveOnly, 1, 100, 1, 2);
    assert_eq!(strategy.safe_mode_reason.as_deref(), Some("repair_missing_bracket_levels"));
}

#[test]
fn repair_ignores_flat_or_foreign_positions() {
    let gate = live_gate(GatewayPhase::LiveReady);
    let mut strategy = HybridIntradayRuntimeStrategy::new(test_config());
    strategy.current_owner = Some(Owner::IntradayBreakout);
    strategy.sl_triggered_ts = Some(5);
    let plan = strategy.maybe_emit_repair_intents(gate, PaperExecutionMode::LiveOnly, 1, 100, 1, 2);
    assert!(plan.exit.is_none());
    assert!(strategy.sl_triggered_ts.is_none());
    assert!(!strategy.safe_mode_close_only);
}

#[test]
fn flat_transition_emits_cancel_all_protection() {
    let mut strategy = HybridIntradayRuntimeStrategy::new(test_config());
    strategy.tp_order_id = Some(11);
    strategy.sl_stop_order_id = Some("stop-1".to_string());
    strategy.sl_exchange_order_id = Some(12);
    let cleanup = strategy.emit_cancel_all_protection(Some(Side::Long));
    assert_eq!(
        cleanup,
        vec![
            CleanupIntent::Cancel { order_id: 11 },
            CleanupIntent::DeleteStopLimit { order_id: "stop-1".to_string(), side: Some(OrderSide::Sell) },
            CleanupIntent::Cancel { order_id: 12 },
        ]
    );
    assert!(strategy.tp_order_id.is_none());
    assert!(strategy.sl_stop_order_id.is_none());
    assert!(strategy.sl_exchange_order_id.is_none());
}

#[test]
fn backoff_doubles_up_to_the_maximum() {
    let mut strategy = HybridIntradayRuntimeStrategy::new(test_config());
    let mut steps = Vec::new();
    for _ in 0..6 {
        strategy.schedule_next_repair(1_000);
        steps.push(strategy.next_repair_at_ts.unwrap() - 1_000);
    }
    assert_eq!(steps, vec![5, 10, 20, 40, 60, 60]);
    strategy.reset_repair_tracking();
    assert_eq!(strategy.repair_backoff_level, 0);
    assert!(strategy.next_repair_at_ts.is_none());
}

#[test]
fn gates_follow_trade_mode() {
    let live = live_gate(GatewayPhase::LiveReady);
    assert!(can_execute_now(live, PaperExecutionMode::LiveOnly, true));
    assert!(!can_execute_now(live, PaperExecutionMode::LiveOnly, false));
    let syncing = live_gate(GatewayPhase::SyncingHistory);
    assert!(!can_emit_now(syncing, PaperExecutionMode::HistorySim, true));
    let paper = LiveGate { trade_mode: TradeMode::Paper, ..live };
    assert!(can_execute_now(paper, PaperExecutionMode::HistorySim, false));
    assert!(!can_execute_now(paper, PaperExecutionMode::LiveOnly, false));
    assert!(can_emit_now(paper, PaperExecutionMode::LiveOnly, false));
    let backtest = LiveGate { trade_mode: TradeMode::Backtest, ..syncing };
    assert!(can_execute_now(backtest, PaperExecutionMode::LiveOnly, false));
}

#[test]
fn comment_round_trips_through_tag_parser() {
    let cycle = make_cycle_id(1_700_000_000, 0x1ab);
    assert_eq!(format_cycle_id(&cycle), "6553f100ab");
    let comment = build_comment("hyb-test", &cycle, Owner::MeanReversion, TagRole::Tp);
    assert_eq!(comment, "HYB|sid=hyb-test|c=6553f100ab|o=MR|r=TP");
    let tag = parse_hybrid_tag(Some(&comment)).expect("tag");
    assert_eq!(tag.sid, "hyb-test");
    assert_eq!(tag.cycle, "6553f100ab");
    assert_eq!(tag.owner, Some(Owner::MeanReversion));
    assert_eq!(tag.role, Some(TagRole::Tp));
    assert!(is_our_tag("hyb-test", Some(&comment)));
    assert!(!is_our_tag("other", Some(&comment)));
    assert_eq!(parse_cycle_id(&tag.cycle), Some(cycle));
    assert_eq!(cycle_ts_utc(&cycle), Some(1_700_000_000));
}

#[test]
fn tag_parser_rejects_foreign_and_malformed_comments() {
    assert!(parse_hybrid_tag(None).is_none());
    assert!(parse_hybrid_tag(Some("AUS|sid=x|c=1")).is_none());
    assert!(parse_hybrid_tag(Some("HYB|sid=x|broken|c=1")).is_none());
    assert!(parse_hybrid_tag(Some("HYB|c=1")).is_none());
    let tag = parse_hybrid_tag(Some("HYB|sid=a|c=b|o=XX|r=EXIT|z=9")).expect("tag");
    assert_eq!(tag.owner, None);
    assert_eq!(tag.role, Some(TagRole::Exit));
    assert!(parse_cycle_id("abc").is_none());
    assert!(parse_cycle_id("abcdefghij").is_none());
}

#[test]
fn cycle_ids_follow_sequence_and_clamp_negative_time() {
    let mut strategy = HybridIntradayRuntimeStrategy::new(test_config());
    let a = strategy.next_cycle_id(-5);
    let b = strategy.next_cycle_id(-5);
    assert_eq!(format_cycle_id(&a), "0000000000");
    assert_eq!(format_cycle_id(&b), "0000000001");
    assert_eq!(strategy.next_cycle_seq, 2);
    assert_eq!(cycle_ts_utc(b"-000000aff"), Some(-10));
}

#[test]
fn active_cycle_is_adopted_from_our_comment_once() {
    let mut strategy = HybridIntradayRuntimeStrategy::new(test_config());
    strategy.ensure_active_cycle_from_comment(Some("HYB|sid=s|c=00000010ff|o=BO|r=ENTRY"));
    assert_eq!(strategy.active_cycle_id, Some(*b"00000010ff"));
    strategy.ensure_active_cycle_from_comment(Some("HYB|sid=s|c=0000002000|o=BO|r=ENTRY"));
    assert_eq!(strategy.active_cycle_id, Some(*b"00000010ff"));
    let mut other = HybridIntradayRuntimeStrategy::new(test_config());
    other.ensure_active_cycle_from_comment(Some("HYB|sid=s|c=xyz|o=BO"));
    assert!(other.active_cycle_id.is_none());
}

#[test]
fn startup_tolerance_is_at_least_a_minute() {
    let strategy = HybridIntradayRuntimeStrategy::new(test_config());
    assert_eq!(strategy.pending_timeout_sec(), 30);
    assert_eq!(strategy.startup_live_replay_tolerance_sec(), 60);
    let mut cfg = test_config();
    cfg.pending_timeout_sec = 0;
    assert_eq!(HybridIntradayRuntimeStrategy::new(cfg).pending_timeout_sec(), 1);
}

const BRACKET: EntryShape = EntryShape { bracket: true, has_stop_price: true, has_take_price: true };

fn tag(owner: &str, cycle: &str, role: &str) -> String {
    format!("HYB|sid=hyb-test|c={cycle}|o={owner}|r={role}")
}

#[test]
fn ack_negative_clears_pending_exit_lifecycle() {
    for status in [AckStatus::Rejected, AckStatus::Expired, AckStatus::Error] {
        let mut strategy = HybridIntradayRuntimeStrategy::new(test_config());
        strategy.submit_exit("hyb-test", Owner::MeanReversion, 10, true, true, Some(1), 8);
        assert_eq!(strategy.on_ack(8, status, 11), AckEffect::ExitRejected);
        assert!(strategy.pending_exit_request_id.is_none());
        assert!(strategy.pending_exit_created_ts_utc.is_none());
    }
}

#[test]
fn ack_reject_clears_only_matching_pending_entry() {
    let mut strategy = HybridIntradayRuntimeStrategy::new(test_config());
    strategy.entry_ready = true;
    strategy.submit_entry("hyb-test", Owner::MeanReversion, Side::Long, MARKET, 100, true, true, 7);
    assert_eq!(strategy.on_ack(99, AckStatus::Rejected, 101), AckEffect::Ignored);
    assert!(strategy.pending_entry.is_some());
    assert_eq!(strategy.on_ack(7, AckStatus::Accepted, 101), AckEffect::Handled);
    assert!(strategy.pending_entry.is_some());
    assert_eq!(strategy.on_ack(7, AckStatus::Rejected, 102), AckEffect::EntryRejected);
    assert!(strategy.pending_entry.is_none());
    assert!(strategy.pending_entry_request_id.is_none());
    assert!(strategy.active_cycle_id.is_none());
    assert_eq!(strategy.safe_mode_reason.as_deref(), Some("entry_rejected"));
}

#[test]
fn refused_bracket_leg_reschedules_repair() {
    let mut strategy = HybridIntradayRuntimeStrategy::new(test_config());
    strategy.pending_tp_request_id = Some(5);
    strategy.pending_tp_created_ts_utc = Some(100);
    assert_eq!(strategy.on_ack(5, AckStatus::Error, 200), AckEffect::Handled);
    assert!(strategy.pending_tp_request_id.is_none());
    assert_eq!(strategy.next_repair_at_ts, Some(205));
}

#[test]
fn mr_entry_fill_emits_tp_and_sl_protective_intents() {
    let mut strategy = HybridIntradayRuntimeStrategy::new(test_config());
    strategy.entry_ready = true;
    strategy.submit_entry("hyb-test", Owner::MeanReversion, Side::Long, BRACKET, 1_700_000_000, true, true, 7);
    match strategy.on_position(1, 1_700_000_060, 41, 42) {
        PositionEffect::EntryFilled { owner, side, take_profit, stop_loss } => {
            assert_eq!(owner, Owner::MeanReversion);
            assert_eq!(side, Side::Long);
            let tp = take_profit.expect("take profit");
            assert_eq!(tp.side, OrderSide::Sell);
            assert_eq!(tp.request_id, 41);
            let sl = stop_loss.expect("stop loss");
            assert_eq!(sl.condition, StopLimitCondition::LessOrEqual);
            assert_eq!(sl.request_id, 42);
        }
        other => panic!("unexpected effect {other:?}"),
    }
    assert_eq!(strategy.pending_tp_request_id, Some(41));
    assert!(strategy.pending_tp_created_ts_utc.is_some());
    assert_eq!(strategy.pending_sl_request_id, Some(42));
    assert!(strategy.pending_sl_created_ts_utc.is_some());
    assert_eq!(strategy.current_owner, Some(Owner::MeanReversion));
    assert_eq!(strategy.repair_deadline_ts, Some(1_700_000_060 + 180));
    assert!(strategy.pending_entry.is_none());
}

#[test]
fn market_entry_fill_sends_no_bracket() {
    let mut strategy = HybridIntradayRuntimeStrategy::new(test_config());
    strategy.entry_ready = true;
    strategy.submit_entry("hyb-test", Owner::IntradayBreakout, Side::Short, BRACKET, 10, true, true, 7);
    match strategy.on_position(-1, 20, 41, 42) {
        PositionEffect::EntryFilled { take_profit: None, stop_loss: None, .. } => {}
        other => panic!("unexpected effect {other:?}"),
    }
    assert!(strategy.pending_tp_request_id.is_none());
}

#[test]
fn flat_position_transition_emits_cancel_all_protection() {
    let mut strategy = HybridIntradayRuntimeStrategy::new(test_config());
    strategy.last_position_qty = 1;
    mr_long(&mut strategy);
    strategy.tp_order_id = Some(111);
    strategy.sl_stop_order_id = Some("abc".to_string());
    strategy.sl_exchange_order_id = Some(222);
    strategy.safe_mode_close_only = true;
    match strategy.on_position(0, 1_700_000_120, 1, 2) {
        PositionEffect::Exited { owner, cleanup } => {
            assert_eq!(owner, Owner::MeanReversion);
            assert_eq!(
                cleanup,
                vec![
                    CleanupIntent::Cancel { order_id: 111 },
                    CleanupIntent::DeleteStopLimit { order_id: "abc".to_string(), side: Some(OrderSide::Sell) },
                    CleanupIntent::Cancel { order_id: 222 },
                ]
            );
        }
        other => panic!("unexpected effect {other:?}"),
    }
    assert!(!strategy.safe_mode_close_only);
    assert!(strategy.current_owner.is_none());
    assert_eq!(strategy.last_position_qty, 0);
}

#[test]
fn recovered_position_without_owner_enters_safe_mode_and_blocks_entry() {
    let mut strategy = HybridIntradayRuntimeStrategy::new(test_config());
    strategy.entry_ready = true;
    assert!(matches!(strategy.on_position(1, 1_700_000_200, 1, 2), PositionEffect::RecoveredOwnerUnknown));
    assert!(strategy.safe_mode_close_only);
    assert_eq!(strategy.safe_mode_reason.as_deref(), Some("recovered_position_owner_unknown"));
    assert!(strategy.active_cycle_id.is_some());
    assert!(strategy
        .submit_entry("hyb-test", Owner::MeanReversion, Side::Long, BRACKET, 1_700_000_260, true, true, 3)
        .is_none());
}

#[test]
fn ignores_foreign_working_orders_for_live_order_gate() {
    let mut strategy = HybridIntradayRuntimeStrategy::new(test_config());
    let cleanup = strategy.on_order("hyb-test", "IMOEXF", 42, "working", None);
    assert!(cleanup.is_empty());
    assert!(!strategy.has_live_orders());
    strategy.on_order("hyb-test", "IMOEXF", 43, "working", Some(&tag("BO", "abc1230001", "ENTRY")));
    assert!(strategy.has_live_orders());
    assert_eq!(strategy.active_cycle_id, Some(*b"abc1230001"));
    strategy.on_order("hyb-test", "IMOEXF", 43, "Filled", Some(&tag("BO", "abc1230001", "ENTRY")));
    assert!(!strategy.has_live_orders());
}

#[test]
fn take_profit_fill_deletes_stop_leg() {
    let mut strategy = HybridIntradayRuntimeStrategy::new(test_config());
    mr_long(&mut strategy);
    strategy.pending_tp_request_id = Some(9);
    strategy.sl_stop_order_id = Some("sl-1".to_string());
    strategy.sl_exchange_order_id = Some(5);
    let working = strategy.on_order("hyb-test", "IMOEXF", 111, "working", Some(&tag("MR", "abc1230001", "TP")));
    assert!(working.is_empty());
    assert_eq!(strategy.tp_order_id, Some(111));
    assert!(strategy.pending_tp_request_id.is_none());
    let filled = strategy.on_order("hyb-test", "IMOEXF", 111, "filled", Some(&tag("MR", "abc1230001", "TP")));
    assert_eq!(
        filled,
        vec![CleanupIntent::DeleteStopLimit { order_id: "sl-1".to_string(), side: Some(OrderSide::Sell) }]
    );
    assert!(strategy.tp_order_id.is_none());
    assert!(strategy.sl_stop_order_id.is_none());
    assert!(strategy.sl_exchange_order_id.is_none());
}

#[test]
fn stop_order_lag_event_adopts_sl_state() {
    let mut strategy = HybridIntradayRuntimeStrategy::new(test_config());
    mr_long(&mut strategy);
    strategy.active_cycle_id = Some(*b"abc1230001");
    strategy.pending_sl_request_id = Some(77);
    let cleanup = strategy.on_stop_order(
        "hyb-test",
        "IMOEXF",
        "sl-lag",
        "working",
        Some(&tag("MR", "abc1230001", "SL")),
        Some(333),
        1_700_000_320,
    );
    assert!(cleanup.is_empty());
    assert!(strategy.pending_sl_request_id.is_none());
    assert_eq!(strategy.sl_stop_order_id.as_deref(), Some("sl-lag"));
    assert_eq!(strategy.sl_exchange_order_id, Some(333));
    assert!(strategy.working_stop_orders.contains(&"sl-lag".to_string()));
}

#[test]
fn stop_order_triggered_keeps_exchange_order_for_escalation() {
    let mut strategy = HybridIntradayRuntimeStrategy::new(test_config());
    mr_long(&mut strategy);
    strategy.active_cycle_id = Some(*b"abc1230001");
    strategy.tp_order_id = Some(111);
    let cleanup = strategy.on_stop_order(
        "hyb-test",
        "IMOEXF",
        "sl-2",
        "triggered",
        Some(&tag("MR", "abc1230001", "SL")),
        Some(222),
        1_700_000_120,
    );
    assert_eq!(cleanup, vec![CleanupIntent::Cancel { order_id: 111 }]);
    assert!(strategy.sl_stop_order_id.is_none());
    assert_eq!(strategy.sl_exchange_order_id, Some(222));
    assert_eq!(strategy.sl_triggered_ts, Some(1_700_000_120));
    assert!(strategy.tp_order_id.is_none());
    assert!(strategy.working_stop_orders.is_empty());
}

#[test]
fn startup_replay_guard_warms_stale_live_bar_without_emitting_intents() {
    let mut strategy = HybridIntradayRuntimeStrategy::new(test_config());
    let now = utc(2026, 1, 5, 7, 2, 0);
    strategy.arm_startup_replay_guard(true, now);
    assert_eq!(strategy.startup_live_replay_boundary_ts_utc, Some(utc(2026, 1, 5, 7, 1, 0)));
    let stale = utc(2026, 1, 5, 7, 0, 0);
    assert!(strategy.suppress_startup_replay_bar(true, DataOrigin::Live, stale));
    assert_eq!(strategy.startup_replay_suppressed_bars, 1);
    let fresh = utc(2026, 1, 5, 7, 1, 0);
    assert!(!strategy.suppress_startup_replay_bar(true, DataOrigin::Live, fresh));
    assert!(strategy.startup_live_replay_boundary_ts_utc.is_none());
    assert_eq!(strategy.startup_replay_suppressed_bars, 0);
}

#[test]
fn replay_guard_holds_history_bars_and_is_off_outside_live_runs() {
    let mut strategy = HybridIntradayRuntimeStrategy::new(test_config());
    strategy.arm_startup_replay_guard(true, 1_000);
    assert!(strategy.suppress_startup_replay_bar(true, DataOrigin::History, 2_000));
    assert!(!strategy.suppress_startup_replay_bar(false, DataOrigin::History, 2_000));
    assert!(strategy.startup_live_replay_boundary_ts_utc.is_none());
    strategy.arm_startup_replay_guard(false, 1_000);
    assert!(!strategy.suppress_startup_replay_bar(true, DataOrigin::History, 2_000));
}

fn boot_tag(owner: &str, cycle: &str, role: &str) -> String {
    format!("HYB|sid=hyb-test|c={cycle}|o={owner}|r={role}")
}

#[test]
fn bootstrap_adopts_working_mr_bracket_and_skips_repair() {
    let mut strategy = HybridIntradayRuntimeStrategy::new(test_config());
    let orders = vec![BootstrapOrder {
        order_id: 111,
        symbol: "IMOEXF".to_string(),
        comment: Some(boot_tag("MR", "abc1230001", "TP")),
    }];
    let stops = vec![BootstrapStopOrder {
        stop_order_id: "sl-1".to_string(),
        symbol: "IMOEXF".to_string(),
        comment: Some(boot_tag("MR", "abc1230001", "SL")),
        exchange_order_id: Some(222),
    }];

    strategy.on_bootstrap_snapshot("hyb-test", &orders, &stops, Some(1));
    assert!(!strategy.safe_mode_close_only);
    assert_eq!(strategy.current_owner, Some(Owner::MeanReversion));
    assert_eq!(strategy.current_side, Some(Side::Long));
    assert_eq!(strategy.tp_order_id, Some(111));
    assert_eq!(strategy.sl_stop_order_id.as_deref(), Some("sl-1"));
    assert_eq!(strategy.sl_exchange_order_id, Some(222));
    assert_eq!(strategy.active_cycle_id, Some(*b"abc1230001"));
    assert_eq!(strategy.working_orders, vec![111]);
    assert_eq!(strategy.working_stop_orders, vec!["sl-1".to_string()]);

    let plan = strategy.maybe_emit_repair_intents(
        live_gate(GatewayPhase::LiveReady),
        PaperExecutionMode::LiveOnly,
        1,
        1_700_000_305,
        1,
        2,
    );
    assert!(plan.cleanup.is_empty());
    assert!(plan.exit.is_none() && plan.take_profit.is_none() && plan.stop_loss.is_none());
}

#[test]
fn bootstrap_open_position_without_owner_enters_safe_mode_even_with_cycle() {
    let mut strategy = HybridIntradayRuntimeStrategy::new(test_config());
    strategy.active_cycle_id = Some(*b"abc1230001");

    strategy.on_bootstrap_snapshot("hyb-test", &Vec::new(), &Vec::new(), Some(1));
    assert!(strategy.safe_mode_close_only);
    assert_eq!(strategy.safe_mode_reason.as_deref(), Some("bootstrap_position_owner_unknown"));
}

#[test]
fn bootstrap_ignores_foreign_orders_and_flags_conflicting_owners() {
    let mut strategy = HybridIntradayRuntimeStrategy::new(test_config());
    let orders = vec![
        BootstrapOrder { order_id: 1, symbol: "SiM6".to_string(), comment: Some(boot_tag("MR", "abc1230001", "TP")) },
        BootstrapOrder { order_id: 2, symbol: "IMOEXF".to_string(), comment: Some("manual".to_string()) },
        BootstrapOrder { order_id: 3, symbol: "IMOEXF".to_string(), comment: Some(boot_tag("BO", "abc1230002", "ENTRY")) },
        BootstrapOrder { order_id: 4, symbol: "IMOEXF".to_string(), comment: Some(boot_tag("MR", "abc1230003", "TP")) },
    ];
    strategy.on_bootstrap_snapshot("hyb-test", &orders, &Vec::new(), Some(-2));
    assert_eq!(strategy.working_orders, vec![3, 4]);
    assert_eq!(strategy.current_owner, Some(Owner::IntradayBreakout));
    assert_eq!(strategy.active_cycle_id, Some(*b"abc1230002"));
    assert_eq!(strategy.tp_order_id, Some(4));
    assert_eq!(strategy.current_side, Some(Side::Short));
    assert_eq!(strategy.last_position_qty, -2);
    assert!(strategy.safe_mode_close_only);
    assert_eq!(strategy.safe_mode_reason.as_deref(), Some("bootstrap_conflicting_owner_tags"));
}

#[test]
fn runtime_restore_forgets_stale_tail_and_arms_replay_guard() {
    let mut strategy = HybridIntradayRuntimeStrategy::new(test_config());
    strategy.current_owner = Some(Owner::MeanReversion);
    strategy.active_cycle_id = Some(*b"abc1230001");
    assert!(strategy.on_runtime_state_restored(true, 1_700_000_000));
    assert_eq!(strategy.current_owner, None);
    assert_eq!(strategy.active_cycle_id, None);
    assert_eq!(strategy.startup_live_replay_boundary_ts_utc, Some(1_700_000_000 - 60));
    assert_eq!(strategy.startup_replay_suppressed_bars, 0);

    let mut busy = HybridIntradayRuntimeStrategy::new(test_config());
    busy.current_owner = Some(Owner::MeanReversion);
    busy.working_orders = vec![7];
    assert!(!busy.on_runtime_state_restored(false, 1_700_000_000));
    assert_eq!(busy.current_owner, Some(Owner::MeanReversion));
    assert_eq!(busy.startup_live_replay_boundary_ts_utc, None);
}

#[test]
fn stop_end_past_the_calendar_falls_back_to_the_buffer() {
    let strategy = HybridIntradayRuntimeStrategy::new(test_config());
    assert_eq!(strategy.resolve_stop_end_unix_time(9_000_000_000_000), 9_000_000_000_060);
    assert_eq!(strategy.resolve_stop_end_unix_time(i64::MAX), i64::MAX);
}

fn empty_state() -> HybridIntradayState {
    HybridIntradayState {
        active_cycle_id: None,
        next_cycle_seq: 0,
        last_position_qty: 0,
        current_owner: None,
        current_side: None,
        pending_entry_owner: None,
        pending_entry_side: None,
        pending_entry_cycle_id: None,
        pending_entry_request_id: None,
        pending_entry_created_ts_utc: None,
        pending_exit_request_id: None,
        pending_exit_created_ts_utc: None,
        pending_tp_request_id: None,
        pending_tp_created_ts_utc: None,
        pending_sl_request_id: None,
        pending_sl_created_ts_utc: None,
        tp_order_id: None,
        sl_stop_order_id: None,
        sl_exchange_order_id: None,
        sl_triggered_ts: None,
        has_mr_take_price: false,
        has_mr_stop_price: false,
        repair_deadline_ts: None,
        next_repair_at_ts: None,
        repair_backoff_level: 0,
        repair_attempts: 0,
        safe_mode_close_only: false,
        safe_mode_reason: None,
        entry_ready: true,
        has_prev_day_range: true,
    }
}

#[test]
fn restore_disables_entry_ready_when_prev_day_range_missing() {
    let mut strategy = HybridIntradayRuntimeStrategy::new(test_config());
    let mut restored = empty_state();
    restored.has_prev_day_range = false;
    assert!(strategy.set_state(restored));
    assert!(!strategy.entry_ready);
}

#[test]
fn restore_reads_back_tracking_and_pending_entry() {
    let mut strategy = HybridIntradayRuntimeStrategy::new(test_config());
    let cycle = make_cycle_id(1_700_000_000, 3);
    let text = format_cycle_id(&cycle);
    let mut restored = empty_state();
    restored.active_cycle_id = Some(text.clone());
    restored.pending_entry_owner = Some(Owner::MeanReversion);
    restored.pending_entry_side = Some(Side::Long);
    restored.pending_entry_cycle_id = Some(text);
    restored.pending_entry_request_id = Some(9);
    restored.tp_order_id = Some(41);
    restored.sl_stop_order_id = Some("SL-1".to_string());
    restored.repair_attempts = 2;
    restored.safe_mode_close_only = true;
    restored.safe_mode_reason = Some("repair_exhausted".to_string());
    assert!(!strategy.set_state(restored));
    assert!(strategy.entry_ready);
    assert_eq!(strategy.active_cycle_id, Some(cycle));
    let e = strategy.pending_entry.expect("pending entry");
    assert_eq!((e.owner, e.side, e.cycle_id, e.bracket), (Owner::MeanReversion, Side::Long, cycle, false));
    assert_eq!(strategy.pending_entry_request_id, Some(9));
    assert_eq!(strategy.tp_order_id, Some(41));
    assert_eq!(strategy.sl_stop_order_id.as_deref(), Some("SL-1"));
    assert_eq!(strategy.repair_attempts, 2);
    assert!(strategy.safe_mode_close_only);

    let mut bad = empty_state();
    bad.active_cycle_id = Some("not-a-cycle".to_string());
    bad.pending_entry_owner = Some(Owner::MeanReversion);
    bad.pending_entry_side = Some(Side::Long);
    bad.pending_entry_cycle_id = Some("not-a-cycle".to_string());
    strategy.set_state(bad);
    assert_eq!(strategy.active_cycle_id, None);
    assert!(strategy.pending_entry.is_none());
}

#[test]
fn every_hex_cycle_id_reads_back_from_its_text() {
    let id: [u8; 10] = *b"0a1B2c3D4e";
    let text = format_cycle_id(&id);
    assert_eq!(text, "0a1B2c3D4e");
    assert_eq!(parse_cycle_id(&text), Some(id));
    let parsed = parse_cycle_id("FFFF00001a").expect("hex id");
    assert_eq!(format_cycle_id(&parsed), "FFFF00001a");
    assert_eq!(parse_cycle_id("0123456789a"), None);
    assert_eq!(parse_cycle_id("012345678g"), None);
}

#[test]
fn publish_gate_blocks_pending_mutation_when_not_publishable() {
    let mut strategy = HybridIntradayRuntimeStrategy::new(test_config());
    strategy.entry_ready = true;
    // Neither publishable nor executable while the gateway syncs history.
    let order = strategy.submit_entry("hyb-test", Owner::MeanReversion, Side::Long, MARKET, 100, false, false, 7);
    assert!(order.is_none());
    assert!(strategy.pending_entry.is_none());
    assert!(strategy.pending_entry_request_id.is_none());
    assert!(strategy.pending_entry_created_ts_utc.is_none());
}

#[test]
fn restore_recovers_day_features_from_state() {
    let mut strategy = HybridIntradayRuntimeStrategy::new(test_config());
    let restored = empty_state();
    // The day's prices (last close, high, low, previous range) stay with the price model;
    // what the strategy restores is whether a previous day's range is known.
    assert!(!strategy.set_state(restored.clone()));
    assert!(strategy.entry_ready);
    let mut without_range = restored;
    without_range.has_prev_day_range = false;
    assert!(strategy.set_state(without_range));
    assert!(!strategy.entry_ready);
}
