use strategy_runtime::clock::{LocalDateTime, TimeOfDay};
use strategy_runtime::alor_usdrubf_hybrid::{
    AlorUsdrubfHybridStrategy,
    adopt_take_profit, classify_bootstrap_position, classify_position_update,
    is_model_session_bar, residual_exit_order, BarGuard, BarVerdict, BootstrapPosition,
    OpenHolding, PendingFill, PositionUpdate,
    bracket_terminal_reconcile_active, broker_comment, hex8, intent_comment_tag,
    is_live_startup_bar_stale, is_recovered_or_non_live_bar_origin, mr_protection_comment,
    parse_mr_protection_role, parse_owner, parse_position_side, snapshot_position_side,
    stop_condition_for_position_side, stop_end_unix_time, ExitTracking, HybridState,
    MrProtection, Owner, PositionSide, ProtectionRole, utc_to_local,
};
use strategy_runtime::host::{CleanupIntent, DataOrigin, IntentClass, OrderSide, StopLimitCondition};

#[test]
fn intent_comment_and_exit_risk_hooks_are_strategy_owned() {
    let entry_tag = intent_comment_tag("alor_usdrubf_hybrid_v1", 1775490120, IntentClass::Entry)
        .unwrap_or_default();
    assert!(entry_tag.contains("AUS|sid=alor_usdrubf_hybrid_v1"));
    assert!(entry_tag.contains("r=ENTRY"));
    assert_eq!(entry_tag, "AUS|sid=alor_usdrubf_hybrid_v1|c=69d3d448|r=ENTRY");

    let tracking = ExitTracking { exit_reject_deferred_until_bar_ts: None, exit_intent_inflight: true };
    let risk = tracking.exit_risk_status(true);
    assert_eq!(risk.phase_override.as_deref(), Some("ExitIntentInflight"));
    assert!(risk.exit_recovery_active);
    assert!(risk.open_risk_position_unflattened);
}

#[test]
fn exit_risk_prefers_deferred_retry_and_needs_open_position() {
    let deferred = ExitTracking { exit_reject_deferred_until_bar_ts: Some(5), exit_intent_inflight: true };
    assert_eq!(deferred.exit_risk_status(true).phase_override.as_deref(), Some("ExitRejectDeferredRetry"));
    let none = deferred.exit_risk_status(false);
    assert!(none.phase_override.is_none() && !none.exit_recovery_active);
}

#[test]
fn words_round_trip() {
    assert_eq!(parse_owner(Owner::MeanRev.as_str()), Some(Owner::MeanRev));
    assert_eq!(parse_owner(Owner::Breakout.as_str()), Some(Owner::Breakout));
    assert_eq!(parse_owner("mr"), None);
    assert_eq!(parse_position_side(PositionSide::Long.as_str()), Some(PositionSide::Long));
    assert_eq!(parse_position_side(PositionSide::Short.as_str()), Some(PositionSide::Short));
    assert_eq!(parse_position_side("flat"), None);
    assert_eq!(HybridState::Pending.as_str(), "pending");
    assert_eq!(ProtectionRole::Sl.as_str(), "SL");
    assert_eq!(PositionSide::Short.entry_side(), OrderSide::Sell);
    assert_eq!(PositionSide::Short.exit_side(), OrderSide::Buy);
    assert_eq!(snapshot_position_side(0), PositionSide::Long);
    assert_eq!(snapshot_position_side(-2), PositionSide::Short);
    assert_eq!(stop_condition_for_position_side(PositionSide::Short), StopLimitCondition::MoreOrEqual);
}

#[test]
fn bracket_comments_name_their_leg() {
    let tp = mr_protection_comment("alor_usdrubf_hybrid_v1", ProtectionRole::Tp);
    assert_eq!(tp, "AUS|sid=alor_usdrubf_hybrid_v1|o=MR|r=TP");
    assert_eq!(parse_mr_protection_role(Some(&tp)), Some(ProtectionRole::Tp));
    let sl = mr_protection_comment("alor_usdrubf_hybrid_v1", ProtectionRole::Sl);
    assert_eq!(parse_mr_protection_role(Some(&sl)), Some(ProtectionRole::Sl));
    assert_eq!(parse_mr_protection_role(Some("AUS|sid=x|c=1|r=ENTRY")), None);
    assert_eq!(parse_mr_protection_role(None), None);
}

#[test]
fn broker_comments_keep_ascii_and_at_most_a_hundred_characters() {
    assert_eq!(broker_comment("añb"), "ab");
    let long = "x".repeat(150);
    assert_eq!(broker_comment(&long).len(), 100);
    assert_eq!(hex8(0), "00000000");
    assert_eq!(hex8(255), "000000ff");
    assert_eq!(hex8(0x1_2345_6789), "123456789");
    let tag = intent_comment_tag("s", -5, IntentClass::ProtectiveRepair).unwrap();
    assert_eq!(tag, "AUS|sid=s|c=00000000|r=REPAIR");
}

#[test]
fn bar_origin_staleness_and_reconcile_grace() {
    assert!(is_recovered_or_non_live_bar_origin(DataOrigin::Replay));
    assert!(!is_recovered_or_non_live_bar_origin(DataOrigin::Live));
    assert!(is_live_startup_bar_stale(1_000, 800, 120));
    assert!(!is_live_startup_bar_stale(1_000, 900, 120));
    assert!(bracket_terminal_reconcile_active(Some(10_000), 12_999));
    assert!(!bracket_terminal_reconcile_active(Some(10_000), 13_000));
    assert!(!bracket_terminal_reconcile_active(None, 0));
    assert_eq!(stop_end_unix_time(100), 100 + 12 * 3600);
    assert_eq!(stop_end_unix_time(i64::MAX - 5), i64::MAX);
}

#[test]
fn mr_protection_cleanup_forgets_bracket() {
    let mut p = MrProtection {
        pending_tp_bar_ts_utc: Some(1),
        pending_sl_bar_ts_utc: Some(2),
        tp_order_id: None,
        sl_stop_order_id: Some("sl-1".to_string()),
        sl_exchange_order_id: Some(9),
    };
    let cleanup = p.emit_cancel_all_protection(Some(OrderSide::Sell));
    assert_eq!(
        cleanup,
        vec![
            CleanupIntent::DeleteStopLimit { order_id: "sl-1".to_string(), side: Some(OrderSide::Sell) },
            CleanupIntent::Cancel { order_id: 9 },
        ]
    );
    assert!(p.pending_tp_bar_ts_utc.is_none() && p.sl_stop_order_id.is_none());
    assert!(p.emit_cancel_all_protection(None).is_empty());
}

fn guard() -> BarGuard {
    BarGuard {
        last_processed_bar_ts: None,
        last_bar_ts: None,
        lifecycle_stage: "created".to_string(),
        live_ready: false,
        startup_replay_tail_info_emitted: false,
        awaiting_live_bar_info_emitted: false,
        recovered_bar_suppressed_info_emitted: false,
    }
}



#[test]
fn recovered_origin_bar_is_suppressed_in_live_without_session_reset() {
    let mut g = guard();
    g.live_ready = true;
    g.last_processed_bar_ts = Some(1775400000);
    let v = g.gate_bar("USDRUBF", "USDRUBF", true, true, 1775486460, 1775486400, DataOrigin::Replay, 120);
    assert_eq!(v, BarVerdict::RecoveredSuppressed { first: true });
    assert_eq!(g.lifecycle_stage, "recovered_bar_suppressed");
    let again = g.gate_bar("USDRUBF", "USDRUBF", true, true, 1775486520, 1775486460, DataOrigin::Replay, 120);
    assert_eq!(again, BarVerdict::RecoveredSuppressed { first: false });
}

#[test]
fn dirty_start_waits_for_live_origin_bar() {
    let mut g = guard();
    let v = g.gate_bar("USDRUBF", "USDRUBF", true, true, 1_000, 990, DataOrigin::History, 120);
    assert_eq!(v, BarVerdict::AwaitingLiveOrigin { first: true });
    assert_eq!(g.lifecycle_stage, "awaiting_fresh_live_origin_bar");
    let v = g.gate_bar("USDRUBF", "USDRUBF", true, true, 1_000, 995, DataOrigin::Live, 120);
    assert_eq!(v, BarVerdict::Proceed { became_live_ready: true });
}

#[test]
fn runtime_guard_blocks_live_path_when_live_execution_disabled() {
    let mut g = guard();
    let v = g.gate_bar("USDRUBF", "USDRUBF", true, false, 1_000, 990, DataOrigin::Live, 120);
    assert_eq!(v, BarVerdict::LiveExecutionDisabled);
    assert_eq!(g.last_processed_bar_ts, Some(990));
    assert!(!g.live_ready);
    assert_eq!(g.gate_bar("USDRUBF", "SI", true, true, 1_000, 995, DataOrigin::Live, 120), BarVerdict::Ignored);
}

#[test]
fn live_pending_entry_is_confirmed_by_position_callback() {
    let pending = Some(PendingFill { side: PositionSide::Long, target_qty: 1 });
    assert_eq!(
        classify_position_update(1, false, pending, None, false, false),
        PositionUpdate::Opened { side: PositionSide::Long, size: 1 }
    );
}

#[test]
fn live_bo_partial_entry_waits_for_target_before_opening_position() {
    let pending = Some(PendingFill { side: PositionSide::Long, target_qty: 3 });
    assert_eq!(classify_position_update(1, false, pending, None, false, false), PositionUpdate::PartialEntryWaiting);
    assert_eq!(classify_position_update(-1, false, pending, None, false, false), PositionUpdate::PartialEntryInvalid);
    assert_eq!(classify_position_update(4, false, pending, None, false, false), PositionUpdate::PartialEntryInvalid);
    assert_eq!(
        classify_position_update(3, false, pending, None, false, false),
        PositionUpdate::Opened { side: PositionSide::Long, size: 3 }
    );
}

#[test]
fn unexpected_live_residual_emits_emergency_market_exit() {
    assert_eq!(
        classify_position_update(-2, false, None, None, false, false),
        PositionUpdate::UnexpectedResidual { side: PositionSide::Short, size: 2 }
    );
    let exit = residual_exit_order("USDRUBF", -2, "unexpected_broker_residual", false).expect("exit");
    assert_eq!(exit.side, OrderSide::Buy);
    assert_eq!(exit.qty, 2);
    assert_eq!(exit.comment, "USDRUBF|exit|unexpected_broker_residual");
    assert!(residual_exit_order("USDRUBF", -2, "x", true).is_none());
    assert!(residual_exit_order("USDRUBF", 0, "x", false).is_none());
}

#[test]
fn open_position_updates_are_reconciled() {
    let open = Some(OpenHolding { owner: Owner::MeanRev, side: PositionSide::Long, size: 3 });
    assert_eq!(
        classify_position_update(0, true, None, open, false, false),
        PositionUpdate::BrokerFlat { closing_side: Some(OrderSide::Sell) }
    );
    assert_eq!(classify_position_update(3, true, None, open, true, false), PositionUpdate::AwaitingBrokerFlat);
    assert_eq!(classify_position_update(3, true, None, open, false, true), PositionUpdate::AwaitingBrokerFlat);
    assert_eq!(classify_position_update(1, true, None, open, false, false), PositionUpdate::BracketPartialProgress);
    assert_eq!(
        classify_position_update(-1, true, None, open, false, false),
        PositionUpdate::SizeChanged { sign_flip: true, side: PositionSide::Short, size: 1 }
    );
    assert_eq!(
        classify_position_update(3, true, None, open, false, false),
        PositionUpdate::Opened { side: PositionSide::Long, size: 3 }
    );
    let bo = Some(OpenHolding { owner: Owner::Breakout, side: PositionSide::Long, size: 3 });
    assert_eq!(
        classify_position_update(1, true, None, bo, false, false),
        PositionUpdate::SizeChanged { sign_flip: false, side: PositionSide::Long, size: 1 }
    );
}

#[test]
fn bootstrap_adoption_with_non_flat_snapshot_prevents_blind_entry() {
    assert_eq!(
        classify_bootstrap_position(Some(-1), None, false),
        BootstrapPosition::Adopt { owner: Owner::Breakout, owner_confirmed: false, side: PositionSide::Short, size: 1 }
    );
    assert_eq!(
        classify_bootstrap_position(Some(2), Some(Owner::MeanRev), false),
        BootstrapPosition::Adopt { owner: Owner::MeanRev, owner_confirmed: true, side: PositionSide::Long, size: 2 }
    );
    assert_eq!(classify_bootstrap_position(Some(0), None, true), BootstrapPosition::PendingReconcile);
    assert_eq!(classify_bootstrap_position(Some(0), None, false), BootstrapPosition::Flat);
    assert_eq!(classify_bootstrap_position(None, None, true), BootstrapPosition::Absent);
}

#[test]
fn bootstrap_adopts_tagged_take_profit() {
    let orders = vec![
        (1, None),
        (2, Some("AUS|sid=x|o=MR|r=TP".to_string())),
        (3, Some("AUS|sid=x|o=MR|r=SL".to_string())),
    ];
    assert_eq!(adopt_take_profit(&orders), Some(2));
    assert_eq!(adopt_take_profit(&vec![(5, Some("manual".to_string()))]), None);
}

#[test]
fn model_session_bounds_are_inclusive() {
    let start = TimeOfDay { secs: 9 * 3600, frac: 0 };
    let end = TimeOfDay { secs: 23 * 3600 + 49 * 60 + 59, frac: 0 };
    assert!(is_model_session_bar(start, end, LocalDateTime { day: 0, secs: 9 * 3600 }));
    assert!(is_model_session_bar(start, end, LocalDateTime { day: 0, secs: 23 * 3600 + 49 * 60 + 59 }));
    assert!(!is_model_session_bar(start, end, LocalDateTime { day: 0, secs: 8 * 3600 + 59 * 60 }));
}

#[test]
fn utc_to_local_shifts_by_whole_hours_and_falls_back() {
    let day = chrono::NaiveDate::from_ymd_opt(2026, 4, 6).unwrap().to_epoch_days();
    // 2026-04-06 15:40:00 UTC is 18:40 in Moscow.
    assert_eq!(utc_to_local(1_775_490_000, 3), LocalDateTime { day, secs: 18 * 3600 + 40 * 60 });
    assert_eq!(utc_to_local(1_775_490_000, 0), LocalDateTime { day, secs: 15 * 3600 + 40 * 60 });
    // An offset of a day or more is not a zone: UTC is kept.
    assert_eq!(utc_to_local(1_775_490_000, 24), LocalDateTime { day, secs: 15 * 3600 + 40 * 60 });
    assert_eq!(utc_to_local(-1, 0), LocalDateTime { day: -1, secs: 86_399 });
    // Outside the calendar the epoch is read instead.
    assert_eq!(utc_to_local(i64::MAX, 3), LocalDateTime { day: 0, secs: 3 * 3600 });
}

#[test]
fn runtime_restore_rearms_the_replay_guard() {
    let mut g = guard();
    g.live_ready = true;
    g.last_processed_bar_ts = Some(1_775_490_000);
    g.last_bar_ts = Some(1_775_490_000);
    g.awaiting_live_bar_info_emitted = true;
    g.recovered_bar_suppressed_info_emitted = true;
    g.startup_replay_tail_info_emitted = true;
    g.rearm("runtime_state_restored");
    assert!(!g.live_ready);
    assert!(!g.awaiting_live_bar_info_emitted);
    assert!(!g.recovered_bar_suppressed_info_emitted);
    assert!(!g.startup_replay_tail_info_emitted);
    assert_eq!(g.lifecycle_stage, "runtime_state_restored");
    assert_eq!(g.last_processed_bar_ts, Some(1_775_490_000));
}

#[test]
fn paper_bar_fills_pending_entry_at_open_then_closes_on_exit() {
    let mut strategy = AlorUsdrubfHybridStrategy::new("USDRUBF".to_string(), 1);
    let day = utc_to_local(999_000, 3).day;
    let signal = strategy.on_paper_model_bar(day, 999_000, None, Some((Owner::MeanRev, PositionSide::Short)), 1);
    assert!(signal.signal_accepted);
    assert!(signal.entry.is_none());
    assert_eq!(strategy.tracking.hybrid_state, HybridState::Pending);
    assert_eq!(strategy.state().hybrid_state, "pending");

    let filled = strategy.on_paper_model_bar(day, 999_060, None, None, 3);
    let fill = filled.entry.expect("fill");
    assert_eq!(fill.side, OrderSide::Sell);
    assert_eq!(fill.qty, 3);
    assert_eq!(fill.comment, "USDRUBF|entry|mean_rev");
    assert!(!filled.signal_accepted);
    assert_eq!(
        strategy.open_position,
        Some(OpenHolding { owner: Owner::MeanRev, side: PositionSide::Short, size: 3 })
    );
    assert!(strategy.pending_entry.is_none());
    assert_eq!(strategy.tracking.hybrid_state, HybridState::Open);

    let closed = strategy.on_paper_model_bar(day, 999_120, Some("mr_take"), None, 3);
    let exit = closed.exit.expect("exit");
    assert_eq!(exit.side, OrderSide::Buy);
    assert_eq!(exit.qty, 3);
    assert_eq!(exit.comment, "USDRUBF|exit|mr_take");
    assert!(strategy.open_position.is_none());
    assert_eq!(strategy.state().hybrid_state, "flat");
    assert_eq!(strategy.state().last_processed_bar_ts, Some(999_120));
}

#[test]
fn paper_breakout_signal_marks_the_side_traded_today() {
    let mut strategy = AlorUsdrubfHybridStrategy::new("USDRUBF".to_string(), 1);
    let day = utc_to_local(999_000, 3).day;
    let r = strategy.on_paper_model_bar(day, 999_000, None, Some((Owner::Breakout, PositionSide::Long)), 1);
    assert!(r.signal_accepted);
    assert!(strategy.bo_was_long_today);
    assert!(!strategy.bo_was_short_today);
    // A second signal while one is pending is not taken.
    let again = strategy.on_paper_model_bar(day, 999_060, Some("bo_eod"), Some((Owner::Breakout, PositionSide::Short)), 2);
    assert!(!again.signal_accepted);
    assert!(again.entry.is_some());
    assert!(again.exit.is_some());
    assert!(!strategy.bo_was_short_today);
}
