use strategy_runtime::clock::LocalDateTime;
use strategy_runtime::host::{DataOrigin, IntentClass, OrderSide};
use strategy_runtime::ri_author41_42_live::{
    RiAuthor4142ExecutionPath, RiAuthor4142JournalDecision, RiAuthor4142LiveConfig,
    RiAuthor4142LiveStrategy, RiAuthor4142RuntimeMode, RiAuthor4142Side,
};
use strategy_runtime::ri_live_bar::{RiBoPending, RiLiveBook};

fn config(mode: RiAuthor4142RuntimeMode, allow_order_emission: bool) -> RiAuthor4142LiveConfig {
    RiAuthor4142LiveConfig {
        symbol: "RIM6".to_string(),
        profile_id: "ri_author41_42_primary_combo_cost2".to_string(),
        timeframe: "10m".to_string(),
        mode,
        allow_order_emission,
        execution_path: RiAuthor4142ExecutionPath::ActionScopedOnly,
        order_symbol: None,
        session_start_time: "09:00:00".to_string(),
        session_end_time: "23:49:59".to_string(),
        author41_entry_end_time: "12:00:00".to_string(),
        author41_time_exit: "20:00:00".to_string(),
        author42_exit_time: "23:00:00".to_string(),
        excluded_model_dates: Vec::new(),
        min_anchor_bars: 0,
        anchor_first_bar_at_or_before: "23:59:59".to_string(),
        anchor_last_bar_at_or_after: "00:00:00".to_string(),
        anchor_transition_date: None,
        pre_transition_min_anchor_bars: None,
        pre_transition_anchor_first_bar_at_or_before: None,
        pre_transition_anchor_last_bar_at_or_after: None,
        actual_expiry_date: None,
        roll_target_sessions_before: 1,
        roll_fallback_sessions_before: 2,
        timezone_offset_hours: 3,
    }
}

fn live() -> RiAuthor4142LiveStrategy {
    RiAuthor4142LiveStrategy::new(config(RiAuthor4142RuntimeMode::MicroLive, true)).expect("live")
}

fn prospective() -> RiAuthor4142LiveStrategy {
    RiAuthor4142LiveStrategy::new(config(RiAuthor4142RuntimeMode::ProspectiveShadow, false))
        .expect("prospective")
}

fn dt(y: i32, mo: u32, d: u32, h: u32, mi: u32) -> LocalDateTime {
    let day = chrono::NaiveDate::from_ymd_opt(y, mo, d).unwrap().to_epoch_days();
    LocalDateTime { day, secs: h * 3600 + mi * 60 }
}

fn phase(s: &RiAuthor4142LiveStrategy) -> String {
    s.phase_for_test().expect("phase")
}

#[test]
fn prospective_shadow_adapter_sends_nothing_and_assumes_fills() {
    let mut s = prospective();
    let mut book = RiLiveBook::new();
    let entry = s.on_model_bar(&mut book, dt(2026, 5, 4, 9, 0), None, Some(RiAuthor4142Side::Short), None, None);
    assert!(entry.is_empty());
    assert_eq!(phase(&s), "live_in_position");
    let p = book.mr_position.clone().expect("position");
    assert_eq!(p.side, RiAuthor4142Side::Short);
    assert_eq!(
        p.decision_key,
        "ri_author41_42_primary_combo_cost2|author41_mr|2026-05-04 09:00:00|Some(Short)|live_prospective"
    );
    let exit = s.on_model_bar(&mut book, dt(2026, 5, 4, 9, 10), Some("take_author_close"), None, None, None);
    assert!(exit.is_empty());
    assert_eq!(phase(&s), "flat");
    assert!(s.live_positions_dropped);
    let rows = s.journal_records_for_test();
    assert_eq!(rows.len(), 2);
    assert!(rows
        .iter()
        .all(|r| r.adapter_decision == RiAuthor4142JournalDecision::ProspectiveIntentSuppressed));
    assert_eq!(rows[1].entry_exit_reason, "take_author_close");
}

#[test]
fn live_adapter_sends_mean_reversion_entry_then_exit() {
    let mut s = live();
    let mut book = RiLiveBook::new();
    let entry = s.on_model_bar(&mut book, dt(2026, 5, 4, 9, 0), None, Some(RiAuthor4142Side::Short), None, None);
    assert_eq!(entry.len(), 1);
    assert_eq!(entry[0].side, OrderSide::Sell);
    assert_eq!(entry[0].intent_class, IntentClass::Entry);
    assert_eq!(entry[0].comment, "ri_author41_42:ri_author41_42_primary_combo_cost2:author41_mr:entry");
    assert_eq!(entry[0].symbol, None);
    assert_eq!(phase(&s), "live_pending_entry");
    assert_eq!(book.mr_entries_today, 1);

    // While the entry is in flight the models wait.
    let waiting = s.on_model_bar(&mut book, dt(2026, 5, 4, 9, 10), Some("stop"), None, None, None);
    assert!(waiting.is_empty());

    s.on_position(false);
    assert_eq!(phase(&s), "live_in_position");
    let exit = s.on_model_bar(&mut book, dt(2026, 5, 4, 9, 20), Some("stop"), None, None, None);
    assert_eq!(exit.len(), 1);
    assert_eq!(exit[0].side, OrderSide::Buy);
    assert_eq!(exit[0].intent_class, IntentClass::Exit);
    assert_eq!(phase(&s), "live_pending_exit");
    assert_eq!(s.state.last_transition_reason.as_deref(), Some("live_exit_emitted:stop"));
    let rows = s.journal_records_for_test();
    assert_eq!(rows.len(), 2);
    assert!(rows.iter().all(|r| r.adapter_decision == RiAuthor4142JournalDecision::IntentEmitted));
}

#[test]
fn mean_reversion_takes_at_most_two_entries_a_day() {
    let mut s = live();
    let mut book = RiLiveBook::new();
    book.mr_day = Some(dt(2026, 5, 4, 9, 0).day);
    book.mr_entries_today = 2;
    let none = s.on_model_bar(&mut book, dt(2026, 5, 4, 10, 0), None, Some(RiAuthor4142Side::Long), None, None);
    assert!(none.is_empty());
    assert_eq!(phase(&s), "flat");
    // The next day counts afresh.
    let next = s.on_model_bar(&mut book, dt(2026, 5, 5, 10, 0), None, Some(RiAuthor4142Side::Long), None, None);
    assert_eq!(next.len(), 1);
    assert_eq!(next[0].side, OrderSide::Buy);
    assert_eq!(book.mr_entries_today, 1);
    assert_eq!(book.mr_day, Some(dt(2026, 5, 5, 0, 0).day));
}

#[test]
fn breakout_entry_is_sent_at_the_next_bar() {
    let mut s = live();
    let mut book = RiLiveBook::new();
    let first = s.on_model_bar(&mut book, dt(2026, 5, 4, 10, 0), None, None, None, Some(RiAuthor4142Side::Long));
    assert!(first.is_empty());
    assert_eq!(book.bo_pending, Some(RiBoPending::Entry(RiAuthor4142Side::Long)));
    let second = s.on_model_bar(&mut book, dt(2026, 5, 4, 10, 10), None, None, None, None);
    assert_eq!(second.len(), 1);
    assert_eq!(second[0].side, OrderSide::Buy);
    assert_eq!(second[0].comment, "ri_author41_42:ri_author41_42_primary_combo_cost2:author42_bo:entry");
    assert_eq!(book.bo_pending, None);
    assert!(book.bo_was_long_today);
    assert_eq!(
        book.bo_position.clone().expect("position").decision_key,
        "ri_author41_42_primary_combo_cost2|author42_bo|2026-05-04 10:10:00|Some(Long)|live_prospective"
    );
    assert_eq!(s.state.last_transition_reason.as_deref(), Some("live_bo_entry_emitted"));
}

#[test]
fn breakout_stop_exits_at_the_next_open_and_time_exit_at_the_close() {
    let mut s = live();
    let mut book = RiLiveBook::new();
    let _ = s.on_model_bar(&mut book, dt(2026, 5, 4, 10, 0), None, None, None, Some(RiAuthor4142Side::Short));
    let _ = s.on_model_bar(&mut book, dt(2026, 5, 4, 10, 10), None, None, None, None);
    s.on_position(false);
    let stop = s.on_model_bar(&mut book, dt(2026, 5, 4, 10, 20), None, None, Some("stop_emergency_short_next_open"), None);
    assert!(stop.is_empty());
    assert_eq!(book.bo_pending, Some(RiBoPending::Exit("stop_emergency_short_next_open".to_string())));
    let exit = s.on_model_bar(&mut book, dt(2026, 5, 4, 10, 30), None, None, None, None);
    assert_eq!(exit.len(), 1);
    assert_eq!(exit[0].side, OrderSide::Buy);
    assert_eq!(
        s.state.last_transition_reason.as_deref(),
        Some("live_bo_exit_emitted:stop_emergency_short_next_open")
    );

    let mut t = live();
    let mut late_book = RiLiveBook::new();
    let _ = t.on_model_bar(&mut late_book, dt(2026, 5, 4, 22, 0), None, None, None, Some(RiAuthor4142Side::Long));
    let _ = t.on_model_bar(&mut late_book, dt(2026, 5, 4, 22, 10), None, None, None, None);
    t.on_position(false);
    let late = t.on_model_bar(&mut late_book, dt(2026, 5, 4, 23, 0), None, None, None, None);
    assert_eq!(late.len(), 1);
    assert_eq!(late[0].side, OrderSide::Sell);
    assert_eq!(
        t.state.last_transition_reason.as_deref(),
        Some("live_bo_exit_emitted:time_exit_same_bar_close")
    );
}

#[test]
fn deferred_exit_is_sent_again() {
    let mut s = live();
    let mut book = RiLiveBook::new();
    let _ = s.on_model_bar(&mut book, dt(2026, 5, 4, 9, 0), None, Some(RiAuthor4142Side::Long), None, None);
    s.on_position(false);
    s.transition_live_deferred_exit("live_exit_ack_rejected".to_string());
    let again = s.on_model_bar(&mut book, dt(2026, 5, 4, 9, 10), None, None, None, None);
    assert_eq!(again.len(), 1);
    assert_eq!(again[0].side, OrderSide::Sell);
    assert_eq!(
        s.state.last_transition_reason.as_deref(),
        Some("live_deferred_exit_reissued:deferred_exit_reissue")
    );
}

#[test]
fn adapter_works_only_live_model_bars_it_may_act_on() {
    let shadow =
        RiAuthor4142LiveStrategy::new(config(RiAuthor4142RuntimeMode::Shadow, false)).expect("shadow");
    let ts = chrono::NaiveDate::from_ymd_opt(2026, 5, 4)
        .unwrap()
        .and_hms_opt(10, 0, 0)
        .unwrap()
        .and_utc()
        .timestamp()
        - 3 * 3600;
    assert_eq!(shadow.adapter_model_bar(ts, DataOrigin::Live, true, true), None);
    let p = prospective();
    assert_eq!(p.adapter_model_bar(ts, DataOrigin::Live, false, false), Some(dt(2026, 5, 4, 10, 0)));
    assert_eq!(p.adapter_model_bar(ts, DataOrigin::History, false, false), None);
    let l = live();
    assert_eq!(l.adapter_model_bar(ts, DataOrigin::Live, true, true), Some(dt(2026, 5, 4, 10, 0)));
    assert_eq!(l.adapter_model_bar(ts, DataOrigin::Live, true, false), None);
    // Saturday is no model bar.
    assert_eq!(l.adapter_model_bar(ts + 5 * 86400, DataOrigin::Live, true, true), None);
}

#[test]
fn prospective_shadow_matches_live_adapter_without_emitting_orders() {
    let mut prospective = prospective();
    let mut live = live();
    let mut prospective_book = RiLiveBook::new();
    let mut live_book = RiLiveBook::new();

    // The price model reads a mean-reversion short on the entry bar and its take on the
    // exit bar; both adapters are handed the same reading.
    let entry_bar = dt(2026, 5, 4, 9, 0);
    assert!(prospective
        .on_model_bar(&mut prospective_book, entry_bar, None, Some(RiAuthor4142Side::Short), None, None)
        .is_empty());
    assert_eq!(phase(&prospective), "live_in_position");
    assert_eq!(
        live.on_model_bar(&mut live_book, entry_bar, None, Some(RiAuthor4142Side::Short), None, None).len(),
        1
    );
    live.on_position(false);

    let exit_bar = dt(2026, 5, 4, 9, 10);
    assert!(prospective
        .on_model_bar(&mut prospective_book, exit_bar, Some("take_author_close"), None, None, None)
        .is_empty());
    assert_eq!(phase(&prospective), "flat");
    assert_eq!(
        live.on_model_bar(&mut live_book, exit_bar, Some("take_author_close"), None, None, None).len(),
        1
    );

    let prospective_rows: Vec<_> = prospective
        .journal_records_for_test()
        .iter()
        .filter(|row| row.adapter_decision == RiAuthor4142JournalDecision::ProspectiveIntentSuppressed)
        .collect();
    let live_rows: Vec<_> = live
        .journal_records_for_test()
        .iter()
        .filter(|row| row.adapter_decision == RiAuthor4142JournalDecision::IntentEmitted)
        .collect();
    assert_eq!(prospective_rows.len(), 2);
    assert_eq!(live_rows.len(), 2);
    for (p, l) in prospective_rows.iter().zip(live_rows.iter()) {
        assert_eq!(p.component, l.component);
        assert_eq!(p.side, l.side);
        assert_eq!(p.role, l.role);
        assert_eq!(p.candidate_scheduled_ts_local, l.candidate_scheduled_ts_local);
        assert_eq!(p.entry_exit_reason, l.entry_exit_reason);
        assert_eq!(p.decision_key, l.decision_key);
    }
    assert!(prospective
        .journal_records_for_test()
        .iter()
        .all(|row| row.adapter_decision != RiAuthor4142JournalDecision::IntentEmitted));
}

#[test]
fn micro_live_emits_author41_entry_and_exit_as_action_scoped_market_intents() {
    let mut strategy = live();
    let mut book = RiLiveBook::new();

    // The price model reads a mean-reversion short on the entry bar.
    let entry_intents =
        strategy.on_model_bar(&mut book, dt(2026, 5, 4, 9, 0), None, Some(RiAuthor4142Side::Short), None, None);
    assert_eq!(entry_intents.len(), 1);
    assert_eq!(entry_intents[0].side, OrderSide::Sell);
    assert!(entry_intents[0].comment.contains("author41_mr:entry"));
    assert_eq!(entry_intents[0].intent_class, IntentClass::Entry);
    strategy.on_position(false);
    assert_eq!(phase(&strategy), "live_in_position");

    // ... and its take on the exit bar.
    let exit_intents =
        strategy.on_model_bar(&mut book, dt(2026, 5, 4, 9, 10), Some("take_author_close"), None, None, None);
    assert_eq!(exit_intents.len(), 1);
    assert_eq!(exit_intents[0].side, OrderSide::Buy);
    assert!(exit_intents[0].comment.contains("author41_mr:exit"));
    assert_eq!(exit_intents[0].intent_class, IntentClass::Exit);
    assert_eq!(phase(&strategy), "live_pending_exit");
    strategy.on_position(true);
    assert_eq!(phase(&strategy), "flat");
    assert!(strategy
        .journal_records_for_test()
        .iter()
        .any(|row| row.adapter_decision == RiAuthor4142JournalDecision::IntentEmitted));
}

fn utc_of(y: i32, mo: u32, d: u32, h: u32, mi: u32) -> i64 {
    chrono::NaiveDate::from_ymd_opt(y, mo, d)
        .unwrap()
        .and_hms_opt(h, mi, 0)
        .unwrap()
        .and_utc()
        .timestamp()
        - 3 * 3600
}

#[test]
fn prospective_shadow_on_bar_sends_nothing_on_any_bar() {
    let mut p = prospective();
    let mut l = live();
    let mut pb = RiLiveBook::new();
    let mut lb = RiLiveBook::new();
    let entry = utc_of(2026, 5, 4, 9, 0);
    let exit = utc_of(2026, 5, 4, 9, 10);
    assert!(p.on_bar(&mut pb, entry, DataOrigin::Live, false, false, None, Some(RiAuthor4142Side::Short), None, None).is_empty());
    assert_eq!(phase(&p), "live_in_position");
    assert_eq!(l.on_bar(&mut lb, entry, DataOrigin::Live, true, true, None, Some(RiAuthor4142Side::Short), None, None).len(), 1);
    assert!(p.on_bar(&mut pb, exit, DataOrigin::Live, false, false, Some("take_author_close"), None, None, None).is_empty());
    assert_eq!(phase(&p), "flat");
    assert_eq!(p.state.model_bars_seen, 2);
    // A bar the adapter does not work (history) is only counted.
    let mut q = live();
    let mut qb = RiLiveBook::new();
    assert!(q.on_bar(&mut qb, entry, DataOrigin::History, true, true, None, Some(RiAuthor4142Side::Short), None, None).is_empty());
    assert_eq!(phase(&q), "flat");
    assert_eq!(q.state.last_bar_ts, Some(entry));
}
