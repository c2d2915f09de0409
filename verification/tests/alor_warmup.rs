use strategy_runtime::alor_usdrubf_hybrid::{
    is_model_session_bar, utc_to_local, AlorUsdrubfHybridState, AlorUsdrubfHybridStrategy,
    BarVerdict,
};
use strategy_runtime::alor_warmup::{HistoryBar, WarmupStep};
use strategy_runtime::clock::TimeOfDay;
use strategy_runtime::host::DataOrigin;

fn hms(h: u32, m: u32, s: u32) -> TimeOfDay {
    TimeOfDay { secs: h * 3600 + m * 60 + s, frac: 0 }
}

fn bar(ts: i64) -> HistoryBar {
    HistoryBar { symbol: "USDRUBF".to_string(), close_time_utc: ts }
}

#[test]
fn warmup_processes_history_bars_for_aggregates() {
    let mut strategy = AlorUsdrubfHybridStrategy::new("USDRUBF".to_string(), 1);
    let bars = vec![bar(999_000), bar(999_060), bar(999_120)];
    let outcome = strategy.warmup_from_history(&bars, 3, hms(9, 0, 0), hms(23, 49, 59));
    assert_eq!(outcome.processed, 3);
    assert_eq!(strategy.state().lifecycle_stage, "warmed_up");
    let day = utc_to_local(999_000, 3).day;
    assert_eq!(
        outcome.steps,
        vec![
            WarmupStep::Aggregated { day, new_day: true },
            WarmupStep::Aggregated { day, new_day: false },
            WarmupStep::Aggregated { day, new_day: false },
        ]
    );
    assert_eq!(strategy.state().last_processed_bar_ts, Some(999_120));
    assert_eq!(strategy.state().last_bar_ts, Some(999_120));
}

#[test]
fn warmup_keeps_trading_state_untouched_when_pending_or_open_exists() {
    let mut strategy = AlorUsdrubfHybridStrategy::new("USDRUBF".to_string(), 1);
    strategy.set_state(AlorUsdrubfHybridState {
        lifecycle_stage: "runtime_state_restored".to_string(),
        last_bar_ts: Some(1_775_490_000),
        last_processed_bar_ts: Some(1_775_490_000),
        bootstrap_seen: true,
        runtime_state_restored: true,
        live_ready: true,
        hybrid_state: "pending".to_string(),
        current_date_local: Some("2026-04-06".to_string()),
        bo_was_long_today: false,
        bo_was_short_today: false,
        pending_entry_owner: Some("mean_rev".to_string()),
        pending_entry_side: Some("short".to_string()),
        pending_request_ids: Vec::new(),
        tracked_order_ids: Vec::new(),
        entry_intent_inflight: false,
        open_position_owner: None,
        open_position_side: None,
        exit_intent_inflight: false,
        open_position_lots: 0,
    });
    let bars = vec![bar(1_775_490_060), bar(1_775_490_120)];
    let outcome = strategy.warmup_from_history(&bars, 3, hms(9, 0, 0), hms(23, 49, 59));
    assert_eq!(outcome.processed, 0);
    assert!(outcome.steps.is_empty());
    let st = strategy.state();
    assert_eq!(st.hybrid_state, "pending");
    assert_eq!(st.pending_entry_owner.as_deref(), Some("mean_rev"));
    assert_eq!(st.open_position_lots, 0);
    assert_eq!(st.last_processed_bar_ts, Some(1_775_490_000));
}

#[test]
fn model_session_guard_excludes_service_bars_from_live_and_warmup_state() {
    let start = hms(7, 0, 0);
    let end = hms(23, 49, 59);
    let now = 1_785_124_800;
    let service_bar = 1_785_124_200; // 06:50 Moscow.
    let opening_bar = 1_785_124_800; // 07:00 Moscow.
    let after_session_bar = 1_785_185_400; // 23:50 Moscow.

    // A paper run: the service bar is processed without opening the day.
    let mut live = AlorUsdrubfHybridStrategy::new("USDRUBF".to_string(), 1);
    for ts in [service_bar, opening_bar, after_session_bar] {
        let v = live.gate_bar("USDRUBF", false, true, now, ts, DataOrigin::Live, 1200);
        assert!(matches!(v, BarVerdict::Proceed { .. }));
        let local = utc_to_local(ts, 3);
        if is_model_session_bar(start, end, local) {
            assert_eq!(ts, opening_bar);
            let _ = live.on_paper_model_bar(local.day, ts, None, None, 1);
            assert_eq!(live.current_day, Some(local.day));
        } else {
            live.suppress_outside_session(ts);
            if ts == service_bar {
                assert_eq!(live.current_day, None);
            }
        }
        assert_eq!(live.guard.last_processed_bar_ts, Some(ts));
    }
    assert_eq!(live.state().lifecycle_stage, "outside_model_session_suppressed");

    let mut warmup = AlorUsdrubfHybridStrategy::new("USDRUBF".to_string(), 1);
    let outcome = warmup.warmup_from_history(&vec![bar(service_bar), bar(opening_bar)], 3, start, end);
    assert_eq!(outcome.processed, 1);
    assert_eq!(outcome.steps[0], WarmupStep::OutsideSession);
    assert_eq!(outcome.steps[1], WarmupStep::Aggregated { day: utc_to_local(opening_bar, 3).day, new_day: true });
}

#[test]
fn warmup_skips_other_symbols_and_bars_already_processed() {
    let mut strategy = AlorUsdrubfHybridStrategy::new("USDRUBF".to_string(), 1);
    let other = HistoryBar { symbol: "SiM6".to_string(), close_time_utc: 999_000 };
    let bars = vec![other, bar(999_060), bar(999_060), bar(999_000)];
    let outcome = strategy.warmup_from_history(&bars, 3, hms(9, 0, 0), hms(23, 49, 59));
    assert_eq!(outcome.processed, 1);
    assert_eq!(outcome.steps[0], WarmupStep::Skipped);
    assert!(matches!(outcome.steps[1], WarmupStep::Aggregated { new_day: true, .. }));
    assert_eq!(outcome.steps[2], WarmupStep::Skipped);
    assert_eq!(outcome.steps[3], WarmupStep::Skipped);

    // Only bars outside the session: processed, but no stage change and no sync.
    let mut quiet = AlorUsdrubfHybridStrategy::new("USDRUBF".to_string(), 1);
    let night = 1_785_124_200; // 06:50 Moscow.
    let outcome = quiet.warmup_from_history(&vec![bar(night)], 3, hms(7, 0, 0), hms(23, 49, 59));
    assert_eq!(outcome.processed, 0);
    assert_eq!(quiet.guard.last_processed_bar_ts, Some(night));
    assert_eq!(quiet.guard.lifecycle_stage, "created");
    assert_eq!(quiet.state().last_processed_bar_ts, None);
}
