use strategy_runtime::alor_usdrubf_hybrid::{
    infer_owner_from_existing_state, mr_bracket_protective_partial_progress, snapshot_owner_fallback,
    Owner, PositionSide, mr_protection_comment, OpenHolding, PendingFill, PositionUpdate,
    BootstrapPosition, ExitTracking, HybridState, MrProtection, OrderTracking, ProtectionRole,
    RejectPolicy, TimerOutcome, AlorUsdrubfHybridState, AlorUsdrubfHybridStrategy, PendingHolding,
};
use strategy_runtime::alor_usdrubf_hybrid::LiveMarketOrder;
use strategy_runtime::host::{AckStatus, CleanupIntent, OrderSide, StopLimitCondition};
use strategy_runtime::hybrid_intraday_runtime::{BootstrapOrder, BootstrapStopOrder};

fn tracking() -> OrderTracking {
    OrderTracking {
        pending_request_ids: vec![7, 8],
        tracked_order_ids: vec![],
        entry_intent_inflight: false,
        entry_reject_deferred_until_bar_ts: None,
        exit: ExitTracking { exit_reject_deferred_until_bar_ts: None, exit_intent_inflight: false },
        lifecycle_stage: String::from("running"),
        last_bar_ts: Some(1_775_490_120),
        bracket_terminal_reconcile_started_ms: None,
        protection: MrProtection {
            pending_tp_bar_ts_utc: None,
            pending_sl_bar_ts_utc: None,
            tp_order_id: None,
            sl_stop_order_id: None,
            sl_exchange_order_id: None,
        },
        hybrid_state: HybridState::Pending,
    }
}

#[test]
fn positive_ack_tracks_broker_order_and_clears_request() {
    let mut t = tracking();
    t.entry_intent_inflight = true;
    let p = t.on_ack(7, Some(501), AckStatus::Accepted, false, true);
    assert_eq!(p, RejectPolicy::NotRejected);
    assert_eq!(t.pending_request_ids, vec![8]);
    assert_eq!(t.tracked_order_ids, vec![501]);
    assert!(t.entry_intent_inflight);
    assert_eq!(t.lifecycle_stage, "running");
}

#[test]
fn rejected_exit_with_open_position_is_deferred_to_last_bar() {
    let mut t = tracking();
    t.exit.exit_intent_inflight = true;
    let p = t.on_ack(8, None, AckStatus::Rejected, true, false);
    assert_eq!(p, RejectPolicy::ExitDeferred);
    assert_eq!(t.exit.exit_reject_deferred_until_bar_ts, Some(1_775_490_120));
    assert!(!t.exit.exit_intent_inflight);
    assert_eq!(t.lifecycle_stage, "exit_reject_deferred_retry");
    assert_eq!(t.pending_request_ids, vec![7]);
}

#[test]
fn rejected_entry_is_deferred_and_other_refusals_clear_flags() {
    let mut t = tracking();
    t.entry_intent_inflight = true;
    let p = t.on_ack(7, None, AckStatus::Error, false, true);
    assert_eq!(p, RejectPolicy::EntryDeferred);
    assert_eq!(t.entry_reject_deferred_until_bar_ts, Some(1_775_490_120));
    assert_eq!(t.lifecycle_stage, "entry_reject_deferred_retry");
    assert!(!t.entry_intent_inflight);

    let mut u = tracking();
    u.last_bar_ts = None;
    u.entry_intent_inflight = true;
    let q = u.on_ack(7, None, AckStatus::Expired, false, false);
    assert_eq!(q, RejectPolicy::ClearedInflight);
    assert_eq!(u.entry_reject_deferred_until_bar_ts, None);
    assert_eq!(u.lifecycle_stage, "broker_ack_rejected");
    assert!(!u.entry_intent_inflight);
}

#[test]
fn take_profit_fill_waits_for_broker_flat() {
    let mut t = tracking();
    t.hybrid_state = HybridState::Open;
    let comment = mr_protection_comment("alor_usdrubf_hybrid_v1", ProtectionRole::Tp);
    t.on_order(true, 900, Some(7), "working", Some(comment.as_str()), true, true, false, 1000);
    assert_eq!(t.protection.tp_order_id, Some(900));
    assert_eq!(t.tracked_order_ids, vec![900]);
    assert_eq!(t.pending_request_ids, vec![8]);

    t.on_order(true, 900, None, "Filled", Some(comment.as_str()), true, true, false, 2000);
    assert_eq!(t.protection.tp_order_id, None);
    assert_eq!(t.bracket_terminal_reconcile_started_ms, Some(2000));
    assert!(t.exit.exit_intent_inflight);
    assert_eq!(t.lifecycle_stage, "mr_tp_filled_awaiting_broker_flat");
    assert!(t.tracked_order_ids.is_empty());
    assert_eq!(t.hybrid_state, HybridState::Open);
}

#[test]
fn finished_orders_settle_to_flat_without_position() {
    let mut t = tracking();
    t.entry_intent_inflight = true;
    t.on_order(true, 42, None, "cancelled", None, false, false, false, 0);
    assert!(t.tracked_order_ids.is_empty());
    assert!(!t.entry_intent_inflight);
    assert_eq!(t.hybrid_state, HybridState::Flat);

    let mut other = tracking();
    other.on_order(false, 42, Some(7), "filled", None, false, false, false, 0);
    assert_eq!(other.pending_request_ids, vec![7, 8]);
    assert!(other.tracked_order_ids.is_empty());
    assert_eq!(other.hybrid_state, HybridState::Pending);
}

#[test]
fn fired_stop_loss_cancels_take_profit() {
    let mut t = tracking();
    t.protection.tp_order_id = Some(900);
    let none = t.on_stop_order(true, "SL-1", "working", Some(77), 10);
    assert!(none.is_empty());
    assert_eq!(t.protection.sl_stop_order_id.as_deref(), Some("SL-1"));
    assert_eq!(t.protection.sl_exchange_order_id, Some(77));

    let cleanup = t.on_stop_order(true, "SL-1", "Triggered", None, 20);
    assert_eq!(cleanup, vec![CleanupIntent::Cancel { order_id: 900 }]);
    assert_eq!(t.protection.tp_order_id, None);
    assert_eq!(t.protection.sl_stop_order_id, None);
    assert_eq!(t.protection.sl_exchange_order_id, Some(77));
    assert_eq!(t.bracket_terminal_reconcile_started_ms, Some(20));
    assert_eq!(t.lifecycle_stage, "mr_sl_filled_awaiting_broker_flat");
    assert!(t.exit.exit_intent_inflight);
}

#[test]
fn withdrawn_stop_loss_forgets_its_exchange_order() {
    let mut t = tracking();
    t.protection.sl_stop_order_id = Some(String::from("SL-2"));
    t.protection.sl_exchange_order_id = Some(5);
    t.protection.tp_order_id = Some(1);
    let cleanup = t.on_stop_order(true, "SL-2", "expired", None, 30);
    assert!(cleanup.is_empty());
    assert_eq!(t.protection.sl_stop_order_id, None);
    assert_eq!(t.protection.sl_exchange_order_id, None);
    assert_eq!(t.protection.tp_order_id, Some(1));
    assert_eq!(t.lifecycle_stage, "running");

    let mut u = tracking();
    let r = u.on_stop_order(false, "SL-3", "filled", Some(9), 40);
    assert!(r.is_empty());
    assert_eq!(u.protection.sl_stop_order_id, None);
}

#[test]
fn deferrals_expire_after_their_bar() {
    let mut t = tracking();
    t.entry_reject_deferred_until_bar_ts = Some(100);
    t.exit.exit_reject_deferred_until_bar_ts = Some(200);
    t.clear_expired_deferrals(100);
    assert_eq!(t.entry_reject_deferred_until_bar_ts, Some(100));
    t.clear_expired_deferrals(160);
    assert_eq!(t.entry_reject_deferred_until_bar_ts, None);
    assert_eq!(t.exit.exit_reject_deferred_until_bar_ts, Some(200));
    t.clear_expired_deferrals(260);
    assert_eq!(t.exit.exit_reject_deferred_until_bar_ts, None);
}

#[test]
fn residual_flatten_cancels_protection_then_exits() {
    let mut t = tracking();
    t.protection.tp_order_id = Some(900);
    t.protection.sl_stop_order_id = Some(String::from("SL-1"));
    t.protection.sl_exchange_order_id = Some(77);
    let e = t.emit_broker_residual_emergency_exit("USDRUBF", -3, "broker_residual").expect("flatten");
    assert_eq!(
        e.cleanup,
        vec![
            CleanupIntent::Cancel { order_id: 900 },
            CleanupIntent::DeleteStopLimit { order_id: String::from("SL-1"), side: Some(OrderSide::Buy) },
            CleanupIntent::Cancel { order_id: 77 },
        ]
    );
    assert_eq!(e.exit.side, OrderSide::Buy);
    assert_eq!(e.exit.qty, 3);
    assert_eq!(e.exit.comment, "USDRUBF|exit|broker_residual");
    assert!(t.exit.exit_intent_inflight);
    assert_eq!(t.lifecycle_stage, "broker_residual");
    assert_eq!(t.protection.tp_order_id, None);

    assert!(t.emit_broker_residual_emergency_exit("USDRUBF", -3, "again").is_none());
    assert_eq!(t.lifecycle_stage, "broker_residual");
}

#[test]
fn bracket_grace_timeout_flattens_only_a_residual() {
    let mut t = tracking();
    t.bracket_terminal_reconcile_started_ms = Some(1000);
    t.exit.exit_intent_inflight = true;
    assert!(t.emit_bracket_reconcile_timeout_exit("USDRUBF", 2, 3999).is_none());
    assert_eq!(t.bracket_terminal_reconcile_started_ms, Some(1000));

    let mut flat = t.clone();
    assert!(flat.emit_bracket_reconcile_timeout_exit("USDRUBF", 0, 4000).is_none());
    assert_eq!(flat.bracket_terminal_reconcile_started_ms, None);
    assert!(flat.exit.exit_intent_inflight);

    let e = t.emit_bracket_reconcile_timeout_exit("USDRUBF", 2, 4000).expect("flatten");
    assert_eq!(e.exit.side, OrderSide::Sell);
    assert_eq!(e.exit.qty, 2);
    assert_eq!(e.exit.comment, "USDRUBF|exit|bracket_terminal_reconcile_timeout");
    assert_eq!(t.bracket_terminal_reconcile_started_ms, None);
    assert_eq!(t.lifecycle_stage, "bracket_terminal_reconcile_timeout");
}

#[test]
fn timer_gives_up_a_stalled_partial_entry() {
    let mut t = tracking();
    t.tracked_order_ids = vec![5, 6];
    match t.on_timer("USDRUBF", 1, 3999, Some(3), Some(1000)) {
        TimerOutcome::Idle => {}
        other => panic!("unexpected {other:?}"),
    }
    match t.on_timer("USDRUBF", 1, 4000, Some(1), Some(1000)) {
        TimerOutcome::Idle => {}
        other => panic!("unexpected {other:?}"),
    }
    match t.on_timer("USDRUBF", 1, 4000, Some(3), Some(1000)) {
        TimerOutcome::PartialEntryTimeout { cancel_order_ids, flatten } => {
            assert_eq!(cancel_order_ids, vec![5, 6]);
            let e = flatten.expect("flatten");
            assert_eq!(e.exit.side, OrderSide::Sell);
            assert_eq!(e.exit.qty, 1);
            assert_eq!(e.exit.comment, "USDRUBF|exit|partial_entry_fill_timeout");
        }
        other => panic!("unexpected {other:?}"),
    }
    assert_eq!(t.lifecycle_stage, "partial_entry_timeout_flatten");
    assert!(t.exit.exit_intent_inflight);
}

#[test]
fn owner_falls_back_from_open_to_pending_to_breakout() {
    assert_eq!(infer_owner_from_existing_state(Some(Owner::MeanRev), Some(Owner::Breakout)), Some(Owner::MeanRev));
    assert_eq!(infer_owner_from_existing_state(None, Some(Owner::MeanRev)), Some(Owner::MeanRev));
    assert_eq!(infer_owner_from_existing_state(None, None), None);
    assert_eq!(snapshot_owner_fallback(None, None), Owner::Breakout);
    assert_eq!(snapshot_owner_fallback(None, Some(Owner::MeanRev)), Owner::MeanRev);
}

#[test]
fn partial_bracket_progress_needs_a_smaller_same_side_mean_reversion_residual() {
    assert!(mr_bracket_protective_partial_progress(Owner::MeanRev, PositionSide::Short, 3, -1));
    assert!(!mr_bracket_protective_partial_progress(Owner::MeanRev, PositionSide::Short, 3, -3));
    assert!(!mr_bracket_protective_partial_progress(Owner::MeanRev, PositionSide::Short, 3, 1));
    assert!(!mr_bracket_protective_partial_progress(Owner::Breakout, PositionSide::Long, 3, 1));
    assert!(!mr_bracket_protective_partial_progress(Owner::MeanRev, PositionSide::Long, 3, 0));

    let mut t = tracking();
    t.mark_mr_bracket_partial_reconcile(5000);
    assert_eq!(t.bracket_terminal_reconcile_started_ms, Some(5000));
    assert!(t.exit.exit_intent_inflight);
    assert_eq!(t.lifecycle_stage, "mr_bracket_partial_awaiting_broker_flat");
}

#[test]
fn broker_flat_cancels_bracket_and_settles() {
    let mut t = tracking();
    t.protection.tp_order_id = Some(900);
    t.tracked_order_ids = vec![900];
    t.exit.exit_intent_inflight = true;
    t.bracket_terminal_reconcile_started_ms = Some(10);
    let open = OpenHolding { owner: Owner::MeanRev, side: PositionSide::Long, size: 1 };
    let (u, a) = t
        .on_position("USDRUBF", "USDRUBF", 0, false, None, Some(open), Owner::MeanRev, 20)
        .expect("same symbol");
    assert_eq!(u, PositionUpdate::BrokerFlat { closing_side: Some(OrderSide::Sell) });
    assert_eq!(a.cleanup, vec![CleanupIntent::Cancel { order_id: 900 }]);
    assert!(a.flatten.is_none());
    assert!(t.tracked_order_ids.is_empty());
    assert!(!t.exit.exit_intent_inflight);
    assert_eq!(t.bracket_terminal_reconcile_started_ms, None);
    assert_eq!(t.hybrid_state, HybridState::Flat);
    assert_eq!(t.lifecycle_stage, "broker_position_flat");

    assert!(t.on_position("USDRUBF", "SiM6", 3, false, None, None, Owner::MeanRev, 20).is_none());
}

#[test]
fn unexpected_residual_is_flattened_and_open_positions_wait_for_flat() {
    let mut t = tracking();
    let (u, a) = t
        .on_position("USDRUBF", "USDRUBF", 2, false, None, None, Owner::Breakout, 0)
        .expect("same symbol");
    assert_eq!(u, PositionUpdate::UnexpectedResidual { side: PositionSide::Long, size: 2 });
    let e = a.flatten.expect("flatten");
    assert_eq!(e.exit.side, OrderSide::Sell);
    assert_eq!(e.exit.qty, 2);
    assert_eq!(e.exit.comment, "USDRUBF|exit|unexpected_broker_residual");
    assert_eq!(t.hybrid_state, HybridState::Open);

    let open = OpenHolding { owner: Owner::Breakout, side: PositionSide::Long, size: 2 };
    let (u, _) = t
        .on_position("USDRUBF", "USDRUBF", 2, true, None, Some(open), Owner::Breakout, 0)
        .expect("same symbol");
    assert_eq!(u, PositionUpdate::AwaitingBrokerFlat);
    assert_eq!(t.lifecycle_stage, "exit_filled_awaiting_broker_flat");
}

#[test]
fn pending_entry_fill_opens_and_partial_fills_wait() {
    let mut t = tracking();
    t.entry_intent_inflight = true;
    let pending = PendingFill { side: PositionSide::Short, target_qty: 3 };
    let (u, _) = t
        .on_position("USDRUBF", "USDRUBF", -1, false, Some(pending), None, Owner::MeanRev, 0)
        .expect("same symbol");
    assert_eq!(u, PositionUpdate::PartialEntryWaiting);
    assert_eq!(t.lifecycle_stage, "partial_entry_waiting_target");
    assert!(t.entry_intent_inflight);

    let (u, a) = t
        .on_position("USDRUBF", "USDRUBF", -3, false, Some(pending), None, Owner::MeanRev, 0)
        .expect("same symbol");
    assert_eq!(u, PositionUpdate::Opened { side: PositionSide::Short, size: 3 });
    assert!(a.flatten.is_none() && a.cleanup.is_empty());
    assert!(!t.entry_intent_inflight);
    assert_eq!(t.hybrid_state, HybridState::Open);
    assert_eq!(t.lifecycle_stage, "broker_position_open");

    let mut wrong = tracking();
    let (u, a) = wrong
        .on_position("USDRUBF", "USDRUBF", 4, false, Some(pending), None, Owner::MeanRev, 0)
        .expect("same symbol");
    assert_eq!(u, PositionUpdate::PartialEntryInvalid);
    assert_eq!(a.flatten.expect("flatten").exit.comment, "USDRUBF|exit|partial_entry_invalid");
}

#[test]
fn bootstrap_rebuilds_tracking_and_bracket_from_the_snapshot() {
    let mut t = tracking();
    t.entry_intent_inflight = true;
    t.entry_reject_deferred_until_bar_ts = Some(5);
    t.protection.tp_order_id = Some(1);
    let tp = mr_protection_comment("alor_usdrubf_hybrid_v1", ProtectionRole::Tp);
    let sl = mr_protection_comment("alor_usdrubf_hybrid_v1", ProtectionRole::Sl);
    let orders = vec![
        BootstrapOrder { order_id: 10, symbol: "USDRUBF".to_string(), comment: Some(tp.clone()) },
        BootstrapOrder { order_id: 11, symbol: "SiM6".to_string(), comment: Some(tp) },
        BootstrapOrder { order_id: 12, symbol: "USDRUBF".to_string(), comment: None },
    ];
    let stops = vec![BootstrapStopOrder {
        stop_order_id: "SL-9".to_string(),
        symbol: "USDRUBF".to_string(),
        comment: Some(sl),
        exchange_order_id: Some(99),
    }];
    let b = t.on_bootstrap_snapshot("USDRUBF", &orders, &stops, Some(2), Some(Owner::MeanRev));
    assert_eq!(
        b,
        BootstrapPosition::Adopt { owner: Owner::MeanRev, owner_confirmed: true, side: PositionSide::Long, size: 2 }
    );
    assert_eq!(t.tracked_order_ids, vec![10, 12]);
    assert!(t.pending_request_ids.is_empty());
    assert_eq!(t.protection.tp_order_id, Some(10));
    assert_eq!(t.protection.sl_stop_order_id.as_deref(), Some("SL-9"));
    assert_eq!(t.protection.sl_exchange_order_id, Some(99));
    assert_eq!(t.entry_reject_deferred_until_bar_ts, None);
    assert!(!t.entry_intent_inflight);
    assert_eq!(t.hybrid_state, HybridState::Open);
    assert_eq!(t.lifecycle_stage, "bootstrap_non_flat_adopted");
}

#[test]
fn bootstrap_flat_with_working_orders_blocks_entries() {
    let mut t = tracking();
    let orders = vec![BootstrapOrder { order_id: 10, symbol: "USDRUBF".to_string(), comment: None }];
    let b = t.on_bootstrap_snapshot("USDRUBF", &orders, &Vec::new(), Some(0), None);
    assert_eq!(b, BootstrapPosition::PendingReconcile);
    assert!(t.entry_intent_inflight);
    assert_eq!(t.hybrid_state, HybridState::Pending);
    assert_eq!(t.lifecycle_stage, "bootstrap_working_orders_pending_reconcile");

    let mut u = tracking();
    let b = u.on_bootstrap_snapshot("USDRUBF", &Vec::new(), &Vec::new(), Some(-1), None);
    assert_eq!(
        b,
        BootstrapPosition::Adopt { owner: Owner::Breakout, owner_confirmed: false, side: PositionSide::Short, size: 1 }
    );
    assert_eq!(u.lifecycle_stage, "bootstrap_non_flat_owner_unconfirmed");

    let mut v = tracking();
    assert_eq!(v.on_bootstrap_snapshot("USDRUBF", &Vec::new(), &Vec::new(), None, None), BootstrapPosition::Absent);
    assert_eq!(v.lifecycle_stage, "bootstrapped");
    assert_eq!(v.hybrid_state, HybridState::Pending);
}

#[test]
fn runtime_restore_replaces_tracking_and_forgets_the_bracket() {
    let mut t = tracking();
    t.entry_intent_inflight = true;
    t.exit.exit_intent_inflight = true;
    t.entry_reject_deferred_until_bar_ts = Some(1_775_490_060);
    t.exit.exit_reject_deferred_until_bar_ts = Some(1_775_490_060);
    t.protection.tp_order_id = Some(10);
    t.protection.sl_stop_order_id = Some("SL-9".to_string());
    t.protection.sl_exchange_order_id = Some(99);
    t.bracket_terminal_reconcile_started_ms = Some(5_000);
    t.on_runtime_state_restored(&vec![31, 32], &vec![501, 502]);
    assert_eq!(t.pending_request_ids, vec![31, 32]);
    assert_eq!(t.tracked_order_ids, vec![501, 502]);
    assert!(!t.entry_intent_inflight);
    assert!(!t.exit.exit_intent_inflight);
    assert_eq!(t.entry_reject_deferred_until_bar_ts, None);
    assert_eq!(t.exit.exit_reject_deferred_until_bar_ts, None);
    assert_eq!(t.protection.tp_order_id, None);
    assert_eq!(t.protection.sl_stop_order_id, None);
    assert_eq!(t.protection.sl_exchange_order_id, None);
    assert_eq!(t.lifecycle_stage, "runtime_state_restored");
    assert_eq!(t.last_bar_ts, Some(1_775_490_120));
    assert_eq!(t.bracket_terminal_reconcile_started_ms, Some(5_000));
    assert_eq!(t.hybrid_state, HybridState::Pending);
}

fn restored_pending_mean_reversion_entry() -> OrderTracking {
    let mut t = tracking();
    t.pending_request_ids = vec![];
    t.lifecycle_stage = String::from("runtime_state_restored");
    t.last_bar_ts = Some(1_775_490_000);
    t.entry_intent_inflight = true;
    t
}

#[test]
fn live_ack_rejection_clears_inflight_flags() {
    let mut t = restored_pending_mean_reversion_entry();
    t.exit.exit_intent_inflight = true;
    let p = t.on_ack(0x51, None, AckStatus::Rejected, false, true);
    assert_eq!(p, RejectPolicy::EntryDeferred);
    assert!(!t.entry_intent_inflight);
    assert!(!t.exit.exit_intent_inflight);
    assert_eq!(t.lifecycle_stage, "entry_reject_deferred_retry");
}

#[test]
fn runtime_restore_populates_pending_and_tracked_hooks() {
    let mut t = tracking();
    t.pending_request_ids = vec![];
    let req: u128 = 0x0123_4567_89ab_cdef_0123_4567_89ab_cdef;
    t.on_runtime_state_restored(&vec![req], &vec![42, 7]);
    assert_eq!(t.pending_request_ids(), vec![req]);
    assert_eq!(t.tracked_order_ids(), vec![7, 42]);
}

#[test]
fn ack_and_order_callbacks_update_tracking_sets() {
    let mut t = tracking();
    let req: u128 = 0x77;
    t.on_runtime_state_restored(&vec![req], &Vec::new());

    t.on_ack(req, Some(1001), AckStatus::Accepted, false, false);
    assert!(t.pending_request_ids().is_empty());
    assert_eq!(t.tracked_order_ids(), vec![1001]);

    t.on_order(true, 1001, None, "cancelled", None, false, false, false, 0);
    assert!(t.tracked_order_ids().is_empty());
}

#[test]
fn broker_truth_reconciliation_is_stable_with_out_of_order_ack() {
    let mut t = tracking();
    let req: u128 = 0x99;
    t.on_runtime_state_restored(&vec![req], &Vec::new());
    let (u, _) = t
        .on_position("USDRUBF", "USDRUBF", 1, false, None, None, Owner::Breakout, 0)
        .expect("same symbol");
    assert_eq!(u, PositionUpdate::UnexpectedResidual { side: PositionSide::Long, size: 1 });
    t.on_ack(req, None, AckStatus::Rejected, true, false);
    assert_eq!(t.hybrid_state, HybridState::Open);
    assert!(t.pending_request_ids().is_empty());
}

#[test]
fn terminal_reject_after_entry_intent_clears_inflight_and_defers_retry() {
    let mut t = restored_pending_mean_reversion_entry();
    let p = t.on_ack(0x52, None, AckStatus::Rejected, false, true);
    assert_eq!(p, RejectPolicy::EntryDeferred);
    assert_eq!(t.lifecycle_stage, "entry_reject_deferred_retry");
    assert!(!t.entry_intent_inflight);
    assert_eq!(t.entry_reject_deferred_until_bar_ts, Some(1_775_490_000));

    // The same bar comes again: the retry stays deferred.
    t.clear_expired_deferrals(1_775_490_000);
    assert_eq!(t.entry_reject_deferred_until_bar_ts, Some(1_775_490_000));
    t.clear_expired_deferrals(1_775_490_060);
    assert_eq!(t.entry_reject_deferred_until_bar_ts, None);
}

#[test]
fn terminal_reject_after_exit_intent_preserves_open_risk_state() {
    let mut t = tracking();
    t.last_bar_ts = Some(1_775_490_000);
    t.tracked_order_ids = vec![77];
    t.hybrid_state = HybridState::Open;
    t.exit.exit_intent_inflight = true;
    let p = t.on_ack(0x53, None, AckStatus::Rejected, true, false);
    assert_eq!(p, RejectPolicy::ExitDeferred);
    assert_eq!(t.lifecycle_stage, "exit_reject_deferred_retry");
    assert!(!t.exit.exit_intent_inflight);
    assert_eq!(t.hybrid_state, HybridState::Open);
    let risk = t.exit.exit_risk_status(true);
    assert_eq!(risk.phase_override.as_deref(), Some("ExitRejectDeferredRetry"));
    assert!(risk.exit_recovery_active);
    assert!(risk.open_risk_position_unflattened);
}

#[test]
fn live_bo_partial_entry_timeout_cancels_and_flattens_residual() {
    let mut t = tracking();
    t.tracked_order_ids = vec![77];
    match t.on_timer("USDRUBF", -1, 13_001, Some(2), Some(10_000)) {
        TimerOutcome::PartialEntryTimeout { cancel_order_ids, flatten } => {
            assert!(cancel_order_ids.contains(&77));
            let e = flatten.expect("flatten");
            assert_eq!(e.exit.side, OrderSide::Buy);
            assert_eq!(e.exit.qty, 1);
        }
        other => panic!("unexpected {other:?}"),
    }
    assert_eq!(t.lifecycle_stage, "partial_entry_timeout_flatten");
}

#[test]
fn filled_mr_tp_reconcile_timeout_emits_single_residual_flatten() {
    let mut t = tracking();
    t.hybrid_state = HybridState::Open;
    t.protection.sl_stop_order_id = Some("sl-1".to_string());
    t.exit.exit_intent_inflight = true;
    t.bracket_terminal_reconcile_started_ms = Some(10_000);
    match t.on_timer("USDRUBF", -1, 13_001, None, None) {
        TimerOutcome::ReconcileTimeout { flatten } => {
            assert!(flatten.cleanup.iter().any(|c| matches!(
                c,
                CleanupIntent::DeleteStopLimit { order_id, .. } if order_id == "sl-1"
            )));
            assert_eq!(flatten.exit.side, OrderSide::Buy);
            assert_eq!(flatten.exit.qty, 1);
        }
        other => panic!("unexpected {other:?}"),
    }
    assert!(t.exit.exit_intent_inflight);
    assert_eq!(t.lifecycle_stage, "bracket_terminal_reconcile_timeout");

    match t.on_timer("USDRUBF", -1, 16_500, None, None) {
        TimerOutcome::Idle => {}
        other => panic!("unexpected {other:?}"),
    }
}

#[test]
fn strategy_runtime_restore_tracks_sorted_sets_and_rearms_the_guard() {
    let mut s = AlorUsdrubfHybridStrategy::new("USDRUBF".to_string(), 1);
    s.guard.live_ready = true;
    let req: u128 = 0xfeed;
    s.on_runtime_state_restored(&vec![req], &vec![42, 7]);
    assert_eq!(s.tracking.pending_request_ids(), vec![req]);
    assert_eq!(s.tracking.tracked_order_ids(), vec![7, 42]);
    assert!(!s.guard.live_ready);
    assert!(s.runtime_state_restored);
    assert_eq!(s.guard.lifecycle_stage, "runtime_state_restored");
}

#[test]
fn strategy_position_updates_move_the_holdings() {
    let mut s = AlorUsdrubfHybridStrategy::new("USDRUBF".to_string(), 2);
    s.pending_entry = Some(PendingHolding {
        owner: Owner::MeanRev,
        side: PositionSide::Short,
        target_qty: 2,
        partial_started_ms: None,
    });
    s.tracking.entry_intent_inflight = true;
    let (u, _, _) = s.on_position("alor_usdrubf_hybrid_v1", "USDRUBF", -1, false, 5_000 / 1000, 5_000, true, true).expect("same symbol");
    assert_eq!(u, PositionUpdate::PartialEntryWaiting);
    assert_eq!(s.pending_entry.unwrap().partial_started_ms, Some(5_000));
    let (u, _, _) = s.on_position("alor_usdrubf_hybrid_v1", "USDRUBF", -2, false, 6_000 / 1000, 6_000, true, true).expect("same symbol");
    assert_eq!(u, PositionUpdate::Opened { side: PositionSide::Short, size: 2 });
    assert!(s.pending_entry.is_none());
    assert_eq!(s.open_position, Some(OpenHolding { owner: Owner::MeanRev, side: PositionSide::Short, size: 2 }));
    assert!(s.on_position("alor_usdrubf_hybrid_v1", "SiM6", 3, false, 6_000 / 1000, 6_000, true, true).is_none());
    let (u, _, _) = s.on_position("alor_usdrubf_hybrid_v1", "USDRUBF", 0, false, 7_000 / 1000, 7_000, true, true).expect("same symbol");
    assert!(matches!(u, PositionUpdate::BrokerFlat { .. }));
    assert!(s.open_position.is_none());
}

#[test]
fn strategy_timer_drops_a_timed_out_partial_entry() {
    let mut s = AlorUsdrubfHybridStrategy::new("USDRUBF".to_string(), 2);
    s.pending_entry = Some(PendingHolding {
        owner: Owner::Breakout,
        side: PositionSide::Short,
        target_qty: 2,
        partial_started_ms: Some(10_000),
    });
    s.tracking.tracked_order_ids = vec![77];
    match s.on_timer(-1, 13_001) {
        TimerOutcome::PartialEntryTimeout { cancel_order_ids, .. } => assert_eq!(cancel_order_ids, vec![77]),
        other => panic!("unexpected {other:?}"),
    }
    assert!(s.pending_entry.is_none());
}

fn persisted() -> AlorUsdrubfHybridState {
    AlorUsdrubfHybridState {
        lifecycle_stage: "runtime_state_restored".to_string(),
        last_bar_ts: Some(1_775_490_000),
        last_processed_bar_ts: Some(1_775_490_000),
        bootstrap_seen: true,
        runtime_state_restored: true,
        live_ready: true,
        hybrid_state: "pending".to_string(),
        current_date_local: Some("2026-04-06".to_string()),
        bo_was_long_today: false,
        bo_was_short_today: true,
        pending_entry_owner: Some("mean_rev".to_string()),
        pending_entry_side: Some("short".to_string()),
        pending_request_ids: Vec::new(),
        tracked_order_ids: vec![77],
        entry_intent_inflight: false,
        open_position_owner: None,
        open_position_side: None,
        exit_intent_inflight: false,
        open_position_lots: 0,
    }
}

#[test]
fn strategy_set_state_restores_pending_entry_and_guard() {
    let mut s = AlorUsdrubfHybridStrategy::new("USDRUBF".to_string(), 2);
    s.tracking.protection.tp_order_id = Some(5);
    s.set_state(persisted());
    assert_eq!(
        s.pending_entry,
        Some(PendingHolding { owner: Owner::MeanRev, side: PositionSide::Short, target_qty: 2, partial_started_ms: None })
    );
    assert!(s.open_position.is_none());
    assert_eq!(s.tracking.hybrid_state, HybridState::Pending);
    assert_eq!(s.guard.last_processed_bar_ts, Some(1_775_490_000));
    assert!(s.guard.live_ready);
    assert!(s.bo_was_short_today);
    assert_eq!(s.tracking.protection.tp_order_id, None);
    assert_eq!(s.tracking.tracked_order_ids(), vec![77]);
    assert!(s.owner_confirmed_by_live_event);
}

#[test]
fn strategy_set_state_restores_open_position_of_whole_lots() {
    let mut s = AlorUsdrubfHybridStrategy::new("USDRUBF".to_string(), 1);
    let mut st = persisted();
    st.lifecycle_stage = "bootstrap_non_flat_owner_unconfirmed".to_string();
    st.hybrid_state = "open".to_string();
    st.pending_entry_owner = None;
    st.open_position_owner = Some("day_breakout_waitfix".to_string());
    st.open_position_side = Some("long".to_string());
    st.open_position_lots = 3;
    s.set_state(st.clone());
    assert_eq!(s.open_position, Some(OpenHolding { owner: Owner::Breakout, side: PositionSide::Long, size: 3 }));
    assert!(s.pending_entry.is_none());
    assert_eq!(s.tracking.hybrid_state, HybridState::Open);
    assert!(!s.owner_confirmed_by_live_event);
    st.open_position_lots = 0;
    st.hybrid_state = "unknown".to_string();
    s.set_state(st);
    assert!(s.open_position.is_none());
    assert_eq!(s.tracking.hybrid_state, HybridState::Flat);
}

fn day_number(y: i32, m: u32, d: u32) -> i32 {
    chrono::NaiveDate::from_ymd_opt(y, m, d).unwrap().to_epoch_days()
}

#[test]
fn live_bar_accepts_a_signal_and_sends_its_entry_at_once() {
    let mut s = AlorUsdrubfHybridStrategy::new("USDRUBF".to_string(), 1);
    let day = day_number(2026, 4, 6);
    let r = s.on_live_model_bar(SID, day, 1_775_490_060, true, true, None, Some((Owner::MeanRev, PositionSide::Short)), 3, 2);
    assert!(r.signal_accepted);
    assert_eq!(
        r.entry,
        Some(LiveMarketOrder { side: OrderSide::Sell, qty: 2, comment: "USDRUBF|entry|mean_rev".to_string() })
    );
    assert_eq!(s.current_day, Some(day));
    assert_eq!(s.guard.last_processed_bar_ts, Some(1_775_490_060));
    assert!(s.tracking.entry_intent_inflight);
    assert_eq!(s.tracking.hybrid_state, HybridState::Pending);
    assert_eq!(s.tracking.lifecycle_stage, "live_entry_intent_emitted");
    assert_eq!(s.pending_entry.unwrap().target_qty, 2);

    // In flight: the next bar neither resends nor takes another signal.
    let r = s.on_live_model_bar(SID, day, 1_775_490_120, true, true, None, Some((Owner::Breakout, PositionSide::Long)), 3, 2);
    assert!(r.entry.is_none() && !r.signal_accepted);
    assert!(!s.bo_was_long_today);
}

#[test]
fn live_bar_resends_a_restored_pending_entry_sized_for_the_open() {
    let mut s = AlorUsdrubfHybridStrategy::new("USDRUBF".to_string(), 1);
    s.set_state(persisted());
    let r = s.on_live_model_bar(SID, day_number(2026, 4, 6), 1_775_490_060, true, true, None, None, 4, 9);
    assert!(!r.signal_accepted);
    assert_eq!(r.entry.expect("entry").qty, 4);
    assert_eq!(s.guard.last_processed_bar_ts, Some(1_775_490_060));
}

#[test]
fn live_bar_leaves_mean_reversion_take_to_the_bracket_and_sends_other_exits() {
    let day = day_number(2026, 4, 6);
    let mut s = AlorUsdrubfHybridStrategy::new("USDRUBF".to_string(), 1);
    s.current_day = Some(day);
    s.open_position = Some(OpenHolding { owner: Owner::MeanRev, side: PositionSide::Short, size: 2 });
    s.tracking.protection.tp_order_id = Some(900);
    let r = s.on_live_model_bar(SID, day, 1_775_490_060, true, true, Some("mr_take"), None, 1, 1);
    assert!(r.exit_left_to_bracket && r.exit.is_none());
    assert_eq!(s.tracking.protection.tp_order_id, Some(900));

    let r = s.on_live_model_bar(SID, day, 1_775_490_120, true, true, Some("session_close"), None, 1, 1);
    let (cleanup, order) = r.exit.expect("exit");
    assert_eq!(cleanup, vec![CleanupIntent::Cancel { order_id: 900 }]);
    assert_eq!(order, LiveMarketOrder { side: OrderSide::Buy, qty: 2, comment: "USDRUBF|exit|session_close".to_string() });
    assert!(s.tracking.exit.exit_intent_inflight);
    assert_eq!(s.tracking.lifecycle_stage, "live_exit_intent_emitted");

    // A deferred exit waits out its bar.
    let mut t = AlorUsdrubfHybridStrategy::new("USDRUBF".to_string(), 1);
    t.current_day = Some(day);
    t.open_position = Some(OpenHolding { owner: Owner::Breakout, side: PositionSide::Long, size: 1 });
    t.tracking.exit.exit_reject_deferred_until_bar_ts = Some(1_775_490_060);
    assert!(t.on_live_model_bar(SID, day, 1_775_490_060, true, true, Some("bo_stop"), None, 1, 1).exit.is_none());
    assert!(t.on_live_model_bar(SID, day, 1_775_490_120, true, true, Some("bo_stop"), None, 1, 1).exit.is_some());
}

#[test]
fn live_bar_of_a_new_day_drops_the_old_session() {
    let mut s = AlorUsdrubfHybridStrategy::new("USDRUBF".to_string(), 1);
    s.current_day = Some(day_number(2026, 4, 6));
    s.open_position = Some(OpenHolding { owner: Owner::Breakout, side: PositionSide::Long, size: 1 });
    s.bo_was_long_today = true;
    s.tracking.tracked_order_ids = vec![5];
    let r = s.on_live_model_bar(SID, day_number(2026, 4, 7), 1_775_570_000, true, true, None, Some((Owner::Breakout, PositionSide::Long)), 1, 1);
    assert!(r.signal_accepted);
    assert!(s.bo_was_long_today);
    assert!(s.tracking.tracked_order_ids().is_empty());
    assert_eq!(s.open_position, None);
    assert_eq!(r.entry.expect("entry").comment, "USDRUBF|entry|day_breakout_waitfix");
}

#[test]
fn strategy_state_round_trips_through_set_state() {
    let mut s = AlorUsdrubfHybridStrategy::new("USDRUBF".to_string(), 1);
    s.set_state(persisted());
    s.open_position = Some(OpenHolding { owner: Owner::MeanRev, side: PositionSide::Short, size: 2 });
    s.pending_entry = None;
    s.tracking.tracked_order_ids = vec![9, 3, 9];
    s.sync_state();
    let st = s.state().clone();
    assert_eq!(st.current_date_local.as_deref(), Some("2026-04-06"));
    assert_eq!(st.open_position_owner.as_deref(), Some("mean_rev"));
    assert_eq!(st.open_position_side.as_deref(), Some("short"));
    assert_eq!(st.open_position_lots, 2);
    assert_eq!(st.tracked_order_ids, vec![3, 9]);
    assert_eq!(st.hybrid_state, "pending");
    let mut t = AlorUsdrubfHybridStrategy::new("USDRUBF".to_string(), 1);
    t.set_state(st);
    assert_eq!(t.open_position, s.open_position);
    assert_eq!(t.current_day, s.current_day);
    assert_eq!(t.tracking.hybrid_state, s.tracking.hybrid_state);
    assert_eq!(t.tracking.lifecycle_stage, s.tracking.lifecycle_stage);
}

#[test]
fn strategy_gate_keeps_the_tracking_bar_in_step() {
    let mut s = AlorUsdrubfHybridStrategy::new("USDRUBF".to_string(), 1);
    let v = s.gate_bar("SiM6", false, true, 1_775_490_100, 1_775_490_060, strategy_runtime::host::DataOrigin::Live, 120);
    assert!(matches!(v, strategy_runtime::alor_usdrubf_hybrid::BarVerdict::Ignored));
    assert_eq!(s.tracking.last_bar_ts, None);
    s.gate_bar("USDRUBF", false, true, 1_775_490_100, 1_775_490_060, strategy_runtime::host::DataOrigin::Live, 120);
    assert_eq!(s.tracking.last_bar_ts, Some(1_775_490_060));
    assert_eq!(s.tracking.lifecycle_stage, s.guard.lifecycle_stage);
    s.suppress_outside_session(1_775_490_060);
    assert_eq!(s.guard.last_processed_bar_ts, Some(1_775_490_060));
    assert_eq!(s.tracking.lifecycle_stage, "outside_model_session_suppressed");
}

#[test]
fn strategy_bootstrap_adopts_the_broker_position_under_the_held_owner() {
    let mut s = AlorUsdrubfHybridStrategy::new("USDRUBF".to_string(), 1);
    s.guard.live_ready = true;
    s.pending_entry = Some(PendingHolding {
        owner: Owner::MeanRev,
        side: PositionSide::Long,
        target_qty: 1,
        partial_started_ms: None,
    });
    let orders = vec![BootstrapOrder { order_id: 10, symbol: "USDRUBF".to_string(), comment: None }];
    let b = s.on_bootstrap_snapshot(&orders, &Vec::new(), Some(2));
    assert_eq!(
        b,
        BootstrapPosition::Adopt { owner: Owner::MeanRev, owner_confirmed: true, side: PositionSide::Long, size: 2 }
    );
    assert_eq!(s.open_position, Some(OpenHolding { owner: Owner::MeanRev, side: PositionSide::Long, size: 2 }));
    assert!(s.pending_entry.is_none());
    assert!(s.bootstrap_seen && !s.guard.live_ready);
    assert_eq!(s.guard.lifecycle_stage, "bootstrap_non_flat_adopted");
    assert_eq!(s.tracking.tracked_order_ids(), vec![10]);

    let mut t = AlorUsdrubfHybridStrategy::new("USDRUBF".to_string(), 1);
    let b = t.on_bootstrap_snapshot(&Vec::new(), &Vec::new(), Some(-1));
    assert_eq!(
        b,
        BootstrapPosition::Adopt { owner: Owner::Breakout, owner_confirmed: false, side: PositionSide::Short, size: 1 }
    );
    assert!(!t.owner_confirmed_by_live_event);
}

#[test]
fn strategy_ack_and_order_use_the_held_position() {
    let mut s = AlorUsdrubfHybridStrategy::new("USDRUBF".to_string(), 1);
    s.tracking.last_bar_ts = Some(1_775_490_000);
    s.open_position = Some(OpenHolding { owner: Owner::MeanRev, side: PositionSide::Short, size: 1 });
    s.tracking.exit.exit_intent_inflight = true;
    assert_eq!(s.on_ack(0x31, None, AckStatus::Rejected), RejectPolicy::ExitDeferred);
    assert_eq!(s.tracking.exit.exit_reject_deferred_until_bar_ts, Some(1_775_490_000));

    s.on_order("USDRUBF", 700, None, "FILLED", Some("AUS|sid=x|o=MR|r=TP"), 9_000);
    assert_eq!(s.tracking.bracket_terminal_reconcile_started_ms, Some(9_000));
    assert_eq!(s.tracking.lifecycle_stage, "mr_tp_filled_awaiting_broker_flat");
    assert!(s.tracking.tracked_order_ids().is_empty());
    s.on_order("SiM6", 701, None, "working", None, 9_000);
    assert!(s.tracking.tracked_order_ids().is_empty());
}

#[test]
fn strategy_stop_order_applies_only_to_the_held_mean_reversion_stop() {
    let mut s = AlorUsdrubfHybridStrategy::new("USDRUBF".to_string(), 1);
    s.tracking.protection.tp_order_id = Some(41);
    let r = s.on_stop_order("USDRUBF", Some("AUS|sid=x|o=MR|r=SL"), "SL-1", "filled", Some(77), 5_000);
    assert!(r.is_empty());
    assert_eq!(s.tracking.protection.sl_stop_order_id, None);

    s.open_position = Some(OpenHolding { owner: Owner::MeanRev, side: PositionSide::Long, size: 1 });
    let r = s.on_stop_order("USDRUBF", Some("AUS|sid=x|o=MR|r=SL"), "SL-1", "filled", Some(77), 5_000);
    assert_eq!(r, vec![CleanupIntent::Cancel { order_id: 41 }]);
    assert_eq!(s.tracking.bracket_terminal_reconcile_started_ms, Some(5_000));
    assert_eq!(s.tracking.lifecycle_stage, "mr_sl_filled_awaiting_broker_flat");
}

#[test]
fn restored_state_reads_back_unchanged_until_the_next_event() {
    let mut s = AlorUsdrubfHybridStrategy::new("USDRUBF".to_string(), 1);
    assert_eq!(s.state().lifecycle_stage, "created");
    assert_eq!(s.state().hybrid_state, "flat");
    let mut st = persisted();
    st.hybrid_state = "x".to_string();
    st.tracked_order_ids = vec![9, 3, 9];
    st.current_date_local = Some("not-a-date".to_string());
    s.set_state(st.clone());
    assert_eq!(s.state().hybrid_state, "x");
    assert_eq!(s.state().tracked_order_ids, vec![9, 3, 9]);
    assert_eq!(s.state().current_date_local.as_deref(), Some("not-a-date"));
    assert_eq!(s.tracking.hybrid_state, HybridState::Flat);
    assert_eq!(s.current_day, None);

    // A positive acknowledgement does not synchronize; a refusal does.
    s.on_ack(0x1, None, AckStatus::Accepted);
    assert_eq!(s.state().hybrid_state, "x");
    s.on_ack(0x1, None, AckStatus::Rejected);
    assert_eq!(s.state().hybrid_state, "flat");
    assert_eq!(s.state().tracked_order_ids, vec![3, 9]);
    assert_eq!(s.state().current_date_local, None);
}

const SID: &str = "alor_usdrubf_hybrid_v1";

#[test]
fn live_mr_position_emits_tp_and_sl_brackets() {
    let mut s = AlorUsdrubfHybridStrategy::new("USDRUBF".to_string(), 1);
    s.pending_entry = Some(PendingHolding {
        owner: Owner::MeanRev,
        side: PositionSide::Short,
        target_qty: 1,
        partial_started_ms: None,
    });
    let (u, a, b) = s
        .on_position(SID, "USDRUBF", -1, false, 1_775_490_120, 1_775_490_120_000, true, true)
        .expect("same symbol");
    assert_eq!(u, PositionUpdate::Opened { side: PositionSide::Short, size: 1 });
    assert!(a.cleanup.is_empty() && a.flatten.is_none());
    let tp = b.take_profit.expect("take profit");
    assert_eq!(tp.comment, "AUS|sid=alor_usdrubf_hybrid_v1|o=MR|r=TP");
    assert_eq!(tp.side, OrderSide::Buy);
    assert_eq!(tp.qty, 1);
    let sl = b.stop_loss.expect("stop loss");
    assert_eq!(sl.comment, "AUS|sid=alor_usdrubf_hybrid_v1|o=MR|r=SL");
    assert_eq!(sl.side, OrderSide::Buy);
    assert_eq!(sl.condition, StopLimitCondition::MoreOrEqual);
    assert_eq!(sl.stop_end_unix_time, 1_775_490_120 + 12 * 3600);
    assert_eq!(s.tracking.protection.pending_tp_bar_ts_utc, Some(1_775_490_120));
    assert_eq!(s.tracking.protection.pending_sl_bar_ts_utc, Some(1_775_490_120));
}

#[test]
fn live_mr_partial_entry_waits_for_target_before_brackets() {
    let mut s = AlorUsdrubfHybridStrategy::new("USDRUBF".to_string(), 3);
    s.pending_entry = Some(PendingHolding {
        owner: Owner::MeanRev,
        side: PositionSide::Short,
        target_qty: 3,
        partial_started_ms: None,
    });
    let (u, _, b) = s
        .on_position(SID, "USDRUBF", -1, false, 1_775_490_120, 1_775_490_120_000, true, true)
        .expect("same symbol");
    assert_eq!(u, PositionUpdate::PartialEntryWaiting);
    assert!(b.take_profit.is_none() && b.stop_loss.is_none());
    assert!(s.pending_entry.is_some());
    assert!(s.open_position.is_none());

    let (u, _, b) = s
        .on_position(SID, "USDRUBF", -3, false, 1_775_490_121, 1_775_490_121_000, true, true)
        .expect("same symbol");
    assert_eq!(u, PositionUpdate::Opened { side: PositionSide::Short, size: 3 });
    assert!(s.pending_entry.is_none());
    assert_eq!(s.open_position.map(|p| p.size), Some(3));
    assert_eq!(b.take_profit.expect("take profit").qty, 3);
    assert_eq!(b.stop_loss.expect("stop loss").qty, 3);
}

#[test]
fn unknown_tp_outcome_is_not_retried_on_next_bar() {
    let mut s = AlorUsdrubfHybridStrategy::new("USDRUBF".to_string(), 1);
    s.open_position = Some(OpenHolding { owner: Owner::MeanRev, side: PositionSide::Short, size: 1 });
    s.tracking.protection.pending_tp_bar_ts_utc = Some(1_775_490_060);
    // The position has a take level and no stop level.
    let b = s.maybe_emit_live_mr_brackets(SID, 1_775_490_120, true, false);
    assert!(b.take_profit.is_none());
    assert!(b.stop_loss.is_none());
    assert_eq!(s.tracking.protection.pending_tp_bar_ts_utc, Some(1_775_490_060));
}

#[test]
fn brackets_wait_while_an_exit_is_in_flight_and_skip_breakout_positions() {
    let mut s = AlorUsdrubfHybridStrategy::new("USDRUBF".to_string(), 1);
    s.open_position = Some(OpenHolding { owner: Owner::MeanRev, side: PositionSide::Long, size: 2 });
    s.tracking.exit.exit_intent_inflight = true;
    let b = s.maybe_emit_live_mr_brackets(SID, 100, true, true);
    assert!(b.take_profit.is_none() && b.stop_loss.is_none());
    s.tracking.exit.exit_intent_inflight = false;
    s.tracking.protection.tp_order_id = Some(5);
    let b = s.maybe_emit_live_mr_brackets(SID, 100, true, true);
    assert!(b.take_profit.is_none());
    let sl = b.stop_loss.expect("stop loss");
    assert_eq!(sl.side, OrderSide::Sell);
    assert_eq!(sl.qty, 2);
    assert_eq!(sl.condition, StopLimitCondition::LessOrEqual);
    let mut bo = AlorUsdrubfHybridStrategy::new("USDRUBF".to_string(), 1);
    bo.open_position = Some(OpenHolding { owner: Owner::Breakout, side: PositionSide::Long, size: 1 });
    let b = bo.maybe_emit_live_mr_brackets(SID, 100, true, true);
    assert!(b.take_profit.is_none() && b.stop_loss.is_none());
}

fn mr_short(size: u64) -> AlorUsdrubfHybridStrategy {
    let mut s = AlorUsdrubfHybridStrategy::new("USDRUBF".to_string(), 1);
    s.open_position = Some(OpenHolding { owner: Owner::MeanRev, side: PositionSide::Short, size });
    s.owner_confirmed_by_live_event = true;
    s
}

#[test]
fn mr_tp_fill_waits_for_broker_flat_before_canceling_stop() {
    let mut s = mr_short(1);
    s.tracking.protection.sl_stop_order_id = Some("sl-1".to_string());
    s.on_order("USDRUBF", 111, None, "filled", Some("AUS|sid=alor_usdrubf_hybrid_v1|o=MR|r=TP"), 1_775_490_120_000);
    assert_eq!(s.tracking.protection.sl_stop_order_id.as_deref(), Some("sl-1"));
    assert!(s.tracking.exit.exit_intent_inflight);
    assert_eq!(s.tracking.lifecycle_stage, "mr_tp_filled_awaiting_broker_flat");
}

#[test]
fn filled_mr_tp_cannot_be_repaired_before_broker_flat_reconciliation() {
    let mut s = mr_short(1);
    s.tracking.protection.tp_order_id = Some(111);
    s.tracking.protection.sl_stop_order_id = Some("sl-1".to_string());
    s.on_order("USDRUBF", 111, None, "filled", Some("AUS|sid=alor_usdrubf_hybrid_v1|o=MR|r=TP"), 1_775_490_120_000);

    let repair = s.maybe_emit_live_mr_brackets(SID, 1_775_490_121, true, true);
    assert!(repair.take_profit.is_none() && repair.stop_loss.is_none());

    let (_, a, b) = s
        .on_position(SID, "USDRUBF", -1, false, 1_775_490_122, 1_775_490_122_000, true, true)
        .expect("same symbol");
    assert!(a.cleanup.is_empty() && a.flatten.is_none());
    assert!(b.take_profit.is_none() && b.stop_loss.is_none());
    assert!(s.tracking.exit.exit_intent_inflight);
    assert_eq!(s.tracking.protection.sl_stop_order_id.as_deref(), Some("sl-1"));

    let (_, a, _) = s
        .on_position(SID, "USDRUBF", 0, false, 1_775_490_123, 1_775_490_123_000, true, true)
        .expect("same symbol");
    assert!(a.cleanup.iter().any(|c| matches!(c, CleanupIntent::DeleteStopLimit { order_id, .. } if order_id == "sl-1")));
    assert!(!s.tracking.exit.exit_intent_inflight);
    assert!(s.open_position.is_none());
}

#[test]
fn partial_mr_tp_fill_waits_for_broker_flat_without_residual_churn() {
    let mut s = mr_short(2);
    s.tracking.protection.tp_order_id = Some(111);
    s.tracking.protection.sl_stop_order_id = Some("sl-1".to_string());

    let (_, a, b) = s
        .on_position(SID, "USDRUBF", -1, false, 1_775_490_121, 1_775_490_121_000, true, true)
        .expect("same symbol");
    assert!(a.cleanup.is_empty() && a.flatten.is_none());
    assert!(b.take_profit.is_none() && b.stop_loss.is_none());
    assert!(s.tracking.exit.exit_intent_inflight);
    assert_eq!(s.tracking.lifecycle_stage, "mr_bracket_partial_awaiting_broker_flat");
    assert_eq!(s.tracking.protection.tp_order_id, Some(111));
    assert_eq!(s.tracking.protection.sl_stop_order_id.as_deref(), Some("sl-1"));

    let (_, a, _) = s
        .on_position(SID, "USDRUBF", 0, false, 1_775_490_122, 1_775_490_122_000, true, true)
        .expect("same symbol");
    assert!(a.flatten.is_none());
    assert!(a.cleanup.iter().any(|c| matches!(c, CleanupIntent::Cancel { order_id: 111 })));
    assert!(a.cleanup.iter().any(|c| matches!(c, CleanupIntent::DeleteStopLimit { order_id, .. } if order_id == "sl-1")));
    assert!(!s.tracking.exit.exit_intent_inflight);
    assert!(s.open_position.is_none());
}

#[test]
fn mr_sl_trigger_cancels_tp_cleanup() {
    let mut s = mr_short(1);
    s.tracking.protection.tp_order_id = Some(111);
    let cleanup = s.on_stop_order(
        "USDRUBF",
        Some("AUS|sid=alor_usdrubf_hybrid_v1|o=MR|r=SL"),
        "sl-1",
        "triggered",
        Some(222),
        1_775_490_120_000,
    );
    assert!(cleanup.iter().any(|c| matches!(c, CleanupIntent::Cancel { order_id: 111 })));
    assert!(s.tracking.exit.exit_intent_inflight);
    assert_eq!(s.tracking.lifecycle_stage, "mr_sl_filled_awaiting_broker_flat");
}
