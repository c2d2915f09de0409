use strategy_runtime::clock::LocalDateTime;
use strategy_runtime::host::{AckStatus, IntentClass, OrderSide};
use strategy_runtime::text::text_less;
use strategy_runtime::moex_author41_42::{
    Component, Instrument, ModelProfile, OverlapDecision, ProfileId, ShadowJournalRecord, ShadowSide,
};
use strategy_runtime::ri_author41_42_live::{
    decision_key, finalized_decisions_from_records, is_finalized_record,
    RiAuthor4142CandidateRole, RiAuthor4142Component, RiAuthor4142DecisionAction,
    IntentBlockDisposition, RiAuthor4142ExecutionPath, RiAuthor4142JournalDecision, RiAuthor4142LiveConfig,
    RiAuthor4142LiveStrategy, RiAuthor4142ModelDecision, RiAuthor4142Phase,
    RiAuthor4142RuntimeMode, RiAuthor4142Side,
};

fn default_config() -> RiAuthor4142LiveConfig {
    RiAuthor4142LiveConfig {
        symbol: "RIM6".to_string(),
        profile_id: "ri_author41_42_primary_combo_cost2".to_string(),
        timeframe: "10m".to_string(),
        mode: RiAuthor4142RuntimeMode::Shadow,
        allow_order_emission: false,
        execution_path: RiAuthor4142ExecutionPath::ActionScopedOnly,
        order_symbol: None,
        session_start_time: "09:00:00".to_string(),
        session_end_time: "23:49:59".to_string(),
        author41_entry_end_time: "12:00:00".to_string(),
        author41_time_exit: "20:00:00".to_string(),
        author42_exit_time: "23:00:00".to_string(),
        excluded_model_dates: Vec::new(),
        min_anchor_bars: 0,
        anchor_first_bar_at_or_before: "23:59:59".to_string(),
        anchor_last_bar_at_or_after: "00:00:00".to_string(),
        anchor_transition_date: None,
        pre_transition_min_anchor_bars: None,
        pre_transition_anchor_first_bar_at_or_before: None,
        pre_transition_anchor_last_bar_at_or_after: None,
        actual_expiry_date: None,
        roll_target_sessions_before: 1,
        roll_fallback_sessions_before: 2,
        timezone_offset_hours: 3,
    }
}

fn dt(year: i32, month: u32, day: u32, hour: u32, minute: u32, second: u32) -> LocalDateTime {
    let day = chrono::NaiveDate::from_ymd_opt(year, month, day).unwrap().to_epoch_days();
    LocalDateTime { day, secs: hour * 3600 + minute * 60 + second }
}

fn sample_record(overlap_decision: OverlapDecision, reason: &str) -> ShadowJournalRecord {
    ShadowJournalRecord {
        instrument: Instrument::Ri,
        profile_id: ProfileId::RiAuthor41_42PrimaryComboCost2,
        component: Component::Author42Bo,
        model_variant_id: "grid_k0.42_both".to_string(),
        bar_ts_local: dt(2026, 5, 1, 13, 0, 0),
        timeframe: "10m".to_string(),
        prev_regular_date: Some(
            chrono::NaiveDate::from_ymd_opt(2026, 4, 30).unwrap().to_epoch_days(),
        ),
        side: Some(ShadowSide::Short),
        skip_reason: if overlap_decision == OverlapDecision::DroppedMrOverlap {
            Some(reason.to_string())
        } else {
            None
        },
        scheduled_entry_ts_local: Some(dt(2026, 5, 1, 13, 0, 0)),
        scheduled_exit_ts_local: Some(dt(2026, 5, 1, 23, 40, 0)),
        exit_reason: Some(reason.to_string()),
        overlap_decision,
        feed_quality_flags: Vec::new(),
    }
}

fn accepted_shadow_decision(
    component: Component,
    side: ShadowSide,
    entry_ts: LocalDateTime,
    exit_ts: LocalDateTime,
    reason: &str,
) -> RiAuthor4142ModelDecision {
    let mut record = sample_record(OverlapDecision::Accepted, reason);
    record.component = component;
    record.side = Some(side);
    record.bar_ts_local = entry_ts;
    record.scheduled_entry_ts_local = Some(entry_ts);
    record.scheduled_exit_ts_local = Some(exit_ts);
    record.exit_reason = Some(reason.to_string());
    let key = decision_key(&record);
    RiAuthor4142ModelDecision::from_shadow_record(record, key).expect("decision")
}

#[test]
fn dropped_overlap_record_becomes_suppress_decision() {
    let record = sample_record(OverlapDecision::DroppedMrOverlap, "mr_interval_overlap");
    let decision =
        RiAuthor4142ModelDecision::from_shadow_record(record, "decision-key".to_string())
            .expect("decision");

    assert_eq!(decision.action, RiAuthor4142DecisionAction::Suppress);
    assert_eq!(decision.reason, "mr_interval_overlap");
}

#[test]
fn same_day_forced_tail_is_not_finalized() {
    let record = sample_record(OverlapDecision::Accepted, "forced_last_bar_close");
    let current_dt = dt(2026, 5, 1, 23, 40, 0);

    assert!(!is_finalized_record(&record, current_dt));
}

#[test]
fn previous_day_forced_tail_is_finalized() {
    let record = sample_record(OverlapDecision::Accepted, "forced_last_bar_close");
    let current_dt = dt(2026, 5, 2, 9, 0, 0);

    assert!(is_finalized_record(&record, current_dt));
}

#[test]
fn finality_needs_a_past_exit_and_a_closed_day_for_forced_tails() {
    let mut record = sample_record(OverlapDecision::Accepted, "time_exit");
    assert!(is_finalized_record(&record, dt(2026, 5, 1, 23, 40, 0)));
    assert!(!is_finalized_record(&record, dt(2026, 5, 1, 23, 30, 0)));
    record.scheduled_exit_ts_local = None;
    assert!(!is_finalized_record(&record, dt(2026, 5, 2, 9, 0, 0)));
}

#[test]
fn dry_run_enter_decision_round_trips_to_flat() {
    let mut strategy = RiAuthor4142LiveStrategy::new(default_config()).expect("strategy");
    let record = sample_record(OverlapDecision::Accepted, "time_exit_same_bar_close");
    let decision =
        RiAuthor4142ModelDecision::from_shadow_record(record, "decision-key".to_string())
            .expect("decision");

    strategy.apply_dry_run_decision(&decision);

    assert_eq!(strategy.phase_for_test().as_deref(), Some(RiAuthor4142Phase::Flat.as_str()));
    assert_eq!(
        strategy.state.last_transition_reason.as_deref(),
        Some("dry_run_exit:time_exit_same_bar_close")
    );
    assert!(strategy.state.current_cycle_id.is_none());
}

#[test]
fn suppress_decision_keeps_flat_phase() {
    let mut strategy = RiAuthor4142LiveStrategy::new(default_config()).expect("strategy");
    let record = sample_record(OverlapDecision::DroppedMrOverlap, "mr_interval_overlap");
    let decision =
        RiAuthor4142ModelDecision::from_shadow_record(record, "decision-key".to_string())
            .expect("decision");

    strategy.apply_dry_run_decision(&decision);

    assert_eq!(strategy.phase_for_test().as_deref(), Some(RiAuthor4142Phase::Flat.as_str()));
}

#[test]
fn accepted_decision_builds_entry_and_exit_candidates() {
    let strategy = RiAuthor4142LiveStrategy::new(default_config()).expect("strategy");
    let record = sample_record(OverlapDecision::Accepted, "time_exit_same_bar_close");
    let decision =
        RiAuthor4142ModelDecision::from_shadow_record(record, "decision-key".to_string())
            .expect("decision");

    let candidates = strategy.candidate_intents_for_decision(&decision);

    assert_eq!(candidates.len(), 2);
    assert_eq!(candidates[0].role, RiAuthor4142CandidateRole::Entry);
    assert_eq!(candidates[0].side, OrderSide::Sell);
    assert_eq!(candidates[0].order_style, "market_p0");
    assert_eq!(candidates[0].intent_class, IntentClass::Entry);
    assert_eq!(candidates[0].execution_path, RiAuthor4142ExecutionPath::ActionScopedOnly);
    assert!(candidates[0].comment.contains("author42_bo:entry"));
    assert_eq!(candidates[1].role, RiAuthor4142CandidateRole::Exit);
    assert_eq!(candidates[1].side, OrderSide::Buy);
    assert_eq!(candidates[1].intent_class, IntentClass::Exit);
    assert_eq!(candidates[1].execution_path, RiAuthor4142ExecutionPath::ActionScopedOnly);
    assert!(candidates[1].comment.contains("author42_bo:exit"));
    assert_eq!(
        candidates[1].comment,
        "ri_author41_42:ri_author41_42_primary_combo_cost2:author42_bo:exit"
    );
    assert_eq!(candidates[1].scheduled_ts_local, dt(2026, 5, 1, 23, 40, 0));
}

#[test]
fn candidate_adapter_keeps_all_roles_action_scoped_only() {
    let strategy = RiAuthor4142LiveStrategy::new(default_config()).expect("strategy");
    let cases = [
        (Component::Author41Mr, ShadowSide::Long, "author41_mr"),
        (Component::Author42Bo, ShadowSide::Short, "author42_bo"),
    ];

    for (component, side, component_label) in cases {
        let mut record = sample_record(OverlapDecision::Accepted, "time_exit_same_bar_close");
        record.component = component;
        record.side = Some(side);
        let decision = RiAuthor4142ModelDecision::from_shadow_record(
            record,
            format!("{component_label}-decision-key"),
        )
        .expect("decision");

        let candidates = strategy.candidate_intents_for_decision(&decision);

        assert_eq!(candidates.len(), 2);
        assert_eq!(decision.side, Some(RiAuthor4142Side::from_shadow(side)));
        for candidate in candidates {
            assert_eq!(candidate.execution_path, RiAuthor4142ExecutionPath::ActionScopedOnly);
            assert_eq!(candidate.order_style, "market_p0");
            assert!(candidate.comment.contains(component_label));
            match candidate.role {
                RiAuthor4142CandidateRole::Entry => {
                    assert_eq!(candidate.intent_class, IntentClass::Entry);
                }
                RiAuthor4142CandidateRole::Exit => {
                    assert_eq!(candidate.intent_class, IntentClass::Exit);
                }
            }
        }
    }
}

#[test]
fn cross_day_decision_requires_manual_intervention_before_candidate_lifecycle() {
    let mut strategy = RiAuthor4142LiveStrategy::new(default_config()).expect("strategy");
    let mut record = sample_record(OverlapDecision::Accepted, "forced_last_bar_close");
    record.scheduled_exit_ts_local = Some(dt(2026, 5, 2, 9, 0, 0));
    let decision = RiAuthor4142ModelDecision::from_shadow_record(
        record,
        "cross-day-decision-key".to_string(),
    )
    .expect("decision");

    strategy.apply_dry_run_decision(&decision);

    assert_eq!(
        strategy.phase_for_test().as_deref(),
        Some(RiAuthor4142Phase::ManualInterventionRequired.as_str())
    );
    let journal = strategy.journal_records_for_test();
    assert_eq!(journal.len(), 1);
    assert_eq!(journal[0].adapter_decision, RiAuthor4142JournalDecision::ManualInterventionRequired);
    assert_eq!(journal[0].entry_exit_reason, "cross_day_exit_not_allowed");
    assert_eq!(journal[0].role, None);
    assert_eq!(journal[0].request_id, None);
}

#[test]
fn exit_before_entry_requires_manual_intervention() {
    let mut strategy = RiAuthor4142LiveStrategy::new(default_config()).expect("strategy");
    let mut record = sample_record(OverlapDecision::Accepted, "time_exit");
    record.scheduled_exit_ts_local = Some(dt(2026, 5, 1, 12, 0, 0));
    let decision = RiAuthor4142ModelDecision::from_shadow_record(record, "k".to_string())
        .expect("decision");

    strategy.apply_dry_run_decision(&decision);

    assert_eq!(strategy.phase_for_test().as_deref(), Some("manual_intervention_required"));
    assert_eq!(
        strategy.journal_records_for_test()[0].entry_exit_reason,
        "exit_before_entry_not_allowed"
    );
}

#[test]
fn entered_decision_without_side_is_journaled_for_an_operator_and_keeps_phase() {
    let mut strategy = RiAuthor4142LiveStrategy::new(default_config()).expect("strategy");
    let mut record = sample_record(OverlapDecision::Accepted, "time_exit");
    record.side = None;
    let decision = RiAuthor4142ModelDecision::from_shadow_record(record, "k".to_string())
        .expect("decision");

    strategy.apply_dry_run_decision(&decision);

    assert_eq!(strategy.phase_for_test().as_deref(), Some("flat"));
    let journal = strategy.journal_records_for_test();
    assert_eq!(journal.len(), 1);
    assert_eq!(journal[0].adapter_decision, RiAuthor4142JournalDecision::ManualInterventionRequired);
    assert_eq!(
        journal[0].entry_exit_reason,
        "accepted_model_decision_without_complete_entry_exit_candidate"
    );
    assert_eq!(journal[0].side, None);
}

#[test]
fn suppressed_decision_builds_no_candidate_intents() {
    let strategy = RiAuthor4142LiveStrategy::new(default_config()).expect("strategy");
    let record = sample_record(OverlapDecision::DroppedMrOverlap, "mr_interval_overlap");
    let decision =
        RiAuthor4142ModelDecision::from_shadow_record(record, "decision-key".to_string())
            .expect("decision");

    let candidates = strategy.candidate_intents_for_decision(&decision);

    assert!(candidates.is_empty());
}

#[test]
fn accepted_decision_records_shadow_and_candidate_journal_entries() {
    let mut strategy = RiAuthor4142LiveStrategy::new(default_config()).expect("strategy");
    let record = sample_record(OverlapDecision::Accepted, "time_exit_same_bar_close");
    let decision =
        RiAuthor4142ModelDecision::from_shadow_record(record, "decision-key".to_string())
            .expect("decision");

    strategy.record_shadow_journal(&decision);
    strategy.apply_dry_run_decision(&decision);

    let journal = strategy.journal_records_for_test();
    assert_eq!(journal.len(), 3);
    assert_eq!(journal[0].adapter_decision, RiAuthor4142JournalDecision::ShadowRecorded);
    assert_eq!(journal[0].component, "author42_bo");
    assert_eq!(journal[0].cycle_id, "author42_bo:20260501130000");
    assert_eq!(journal[0].side.as_deref(), Some("short"));
    assert_eq!(journal[0].role, None);
    assert_eq!(journal[0].request_id, None);
    assert_eq!(journal[0].broker_order_id, None);
    assert_eq!(journal[0].model_signal_ts_local, "2026-05-01 13:00:00");
    assert_eq!(journal[0].no_overlap_decision, "Accepted");
    assert_eq!(journal[0].execution_path, "not_applicable_pre_go");
    assert_eq!(journal[1].adapter_decision, RiAuthor4142JournalDecision::IntentSuppressed);
    assert_eq!(journal[1].role.as_deref(), Some("entry"));
    assert_eq!(journal[1].candidate_order_side, Some(OrderSide::Sell));
    assert_eq!(journal[1].candidate_intent_class, Some(IntentClass::Entry));
    assert_eq!(journal[1].execution_path, "action_scoped_only");
    assert_eq!(journal[1].candidate_scheduled_ts_local.as_deref(), Some("2026-05-01 13:00:00"));
    assert_eq!(journal[2].role.as_deref(), Some("exit"));
    assert_eq!(journal[2].candidate_order_side, Some(OrderSide::Buy));
    assert_eq!(journal[2].candidate_intent_class, Some(IntentClass::Exit));
    assert_eq!(journal[2].candidate_scheduled_ts_local.as_deref(), Some("2026-05-01 23:40:00"));
}

#[test]
fn suppressed_decision_records_shadow_and_suppression_journal_entries() {
    let mut strategy = RiAuthor4142LiveStrategy::new(default_config()).expect("strategy");
    let record = sample_record(OverlapDecision::DroppedMrOverlap, "mr_interval_overlap");
    let decision =
        RiAuthor4142ModelDecision::from_shadow_record(record, "decision-key".to_string())
            .expect("decision");

    strategy.record_shadow_journal(&decision);
    strategy.apply_dry_run_decision(&decision);

    let journal = strategy.journal_records_for_test();
    assert_eq!(journal.len(), 2);
    assert_eq!(journal[0].adapter_decision, RiAuthor4142JournalDecision::ShadowRecorded);
    assert_eq!(journal[1].adapter_decision, RiAuthor4142JournalDecision::IntentSuppressed);
    assert_eq!(journal[1].role, None);
    assert_eq!(journal[1].entry_exit_reason, "mr_interval_overlap");
    assert_eq!(journal[1].candidate_order_side, None);
    assert_eq!(journal[1].no_overlap_decision, "DroppedMrOverlap");
}

#[test]
fn drain_observation_journal_records_serializes_and_clears_buffer() {
    let mut strategy = RiAuthor4142LiveStrategy::new(default_config()).expect("strategy");
    let record = sample_record(OverlapDecision::Accepted, "time_exit_same_bar_close");
    let decision =
        RiAuthor4142ModelDecision::from_shadow_record(record, "decision-key".to_string())
            .expect("decision");

    strategy.record_shadow_journal(&decision);
    strategy.apply_dry_run_decision(&decision);
    let drained = strategy.drain_observation_journal_records();

    assert_eq!(drained.len(), 3);
    assert_eq!(drained[0].adapter_decision, RiAuthor4142JournalDecision::ShadowRecorded);
    assert_eq!(drained[1].adapter_decision, RiAuthor4142JournalDecision::IntentSuppressed);
    assert_eq!(drained[1].role.as_deref(), Some("entry"));
    assert!(strategy.journal_records_for_test().is_empty());
}

#[test]
fn journal_keeps_only_the_latest_rows() {
    let mut strategy = RiAuthor4142LiveStrategy::new(default_config()).expect("strategy");
    let record = sample_record(OverlapDecision::DroppedMrOverlap, "mr_interval_overlap");
    let decision = RiAuthor4142ModelDecision::from_shadow_record(record, "k".to_string())
        .expect("decision");
    for _ in 0..10_000 {
        strategy.record_shadow_journal(&decision);
    }
    strategy.apply_dry_run_decision(&decision);
    let journal = strategy.journal_records_for_test();
    assert_eq!(journal.len(), 10_000);
    assert_eq!(journal[9_999].adapter_decision, RiAuthor4142JournalDecision::IntentSuppressed);
    assert_eq!(journal[0].adapter_decision, RiAuthor4142JournalDecision::ShadowRecorded);
}

#[test]
fn decision_key_names_profile_component_bar_side_exit_and_reason() {
    let record = sample_record(OverlapDecision::Accepted, "time_exit");
    assert_eq!(
        decision_key(&record),
        "ri_author41_42_primary_combo_cost2|author42_bo|2026-05-01 13:00:00|Some(Short)|Some(2026-05-01T23:40:00)|time_exit"
    );
    let mut bare = sample_record(OverlapDecision::NotApplicable, "x");
    bare.side = None;
    bare.scheduled_exit_ts_local = None;
    bare.exit_reason = None;
    bare.component = Component::Combo;
    assert_eq!(
        decision_key(&bare),
        "ri_author41_42_primary_combo_cost2|combo|2026-05-01 13:00:00|None|None|none"
    );
    assert!(RiAuthor4142ModelDecision::from_shadow_record(bare, "k".to_string()).is_none());
}

#[test]
fn decision_reason_prefers_skip_then_exit_then_default() {
    let mut record = sample_record(OverlapDecision::Accepted, "time_exit");
    record.skip_reason = Some("friday_filter".to_string());
    let d = RiAuthor4142ModelDecision::from_shadow_record(record.clone(), "k".to_string()).unwrap();
    assert_eq!(d.reason, "friday_filter");
    record.skip_reason = None;
    record.exit_reason = None;
    let d = RiAuthor4142ModelDecision::from_shadow_record(record, "k".to_string()).unwrap();
    assert_eq!(d.reason, "model_decision");
    assert_eq!(d.action, RiAuthor4142DecisionAction::Enter);
    assert_eq!(d.component, RiAuthor4142Component::Author42Bo);
}

#[test]
fn finalized_decisions_are_ordered_by_entry_component_exit_and_key() {
    let bo = {
        let mut r = sample_record(OverlapDecision::Accepted, "time_exit");
        r.scheduled_exit_ts_local = Some(dt(2026, 5, 1, 14, 0, 0));
        r
    };
    let mr_same_time = {
        let mut r = bo.clone();
        r.component = Component::Author41Mr;
        r
    };
    let earlier = {
        let mut r = sample_record(OverlapDecision::Accepted, "take_author_close");
        r.bar_ts_local = dt(2026, 5, 1, 10, 0, 0);
        r.scheduled_entry_ts_local = Some(dt(2026, 5, 1, 10, 0, 0));
        r.scheduled_exit_ts_local = Some(dt(2026, 5, 1, 12, 0, 0));
        r
    };
    let open_ended = {
        let mut r = sample_record(OverlapDecision::Accepted, "time_exit");
        r.scheduled_exit_ts_local = None;
        r
    };
    let future = {
        let mut r = sample_record(OverlapDecision::Accepted, "time_exit");
        r.scheduled_exit_ts_local = Some(dt(2026, 5, 1, 23, 0, 0));
        r
    };
    let combo = {
        let mut r = bo.clone();
        r.component = Component::Combo;
        r
    };
    let decisions = finalized_decisions_from_records(
        vec![bo, open_ended, future, combo, mr_same_time, earlier],
        dt(2026, 5, 1, 15, 0, 0),
    );
    assert_eq!(decisions.len(), 3);
    assert_eq!(decisions[0].reason, "take_author_close");
    assert_eq!(decisions[1].component, RiAuthor4142Component::Author41Mr);
    assert_eq!(decisions[2].component, RiAuthor4142Component::Author42Bo);
    assert!(decisions[1].decision_key.contains("author41_mr"));
}

#[test]
fn text_order_is_lexicographic_by_character() {
    assert!(text_less("abc", "abd"));
    assert!(text_less("ab", "abc"));
    assert!(!text_less("abc", "abc"));
    assert!(!text_less("b", "abc"));
    assert!(text_less("", "a"));
}

#[test]
fn incremental_collection_takes_each_decision_key_once() {
    let mut strategy = RiAuthor4142LiveStrategy::new(default_config()).expect("strategy");
    let first = accepted_shadow_decision(
        Component::Author41Mr,
        ShadowSide::Long,
        dt(2026, 7, 20, 9, 0, 0),
        dt(2026, 7, 20, 9, 10, 0),
        "take_author_close",
    );
    let second = accepted_shadow_decision(
        Component::Author42Bo,
        ShadowSide::Short,
        dt(2026, 7, 20, 10, 0, 0),
        dt(2026, 7, 20, 11, 10, 0),
        "time_exit",
    );
    let taken = strategy.collect_incremental_decisions(vec![first.clone(), second.clone(), first.clone()]);
    assert_eq!(taken.len(), 2);
    assert_eq!(taken[0], first);
    assert_eq!(taken[1], second);
    assert_eq!(strategy.state.model_decisions_seen, 2);
    assert_eq!(strategy.state.last_decision_key.as_deref(), Some(second.decision_key.as_str()));
    assert_eq!(strategy.journal_records_for_test().len(), 2);

    let again = strategy.collect_incremental_decisions(vec![second.clone()]);
    assert!(again.is_empty());
    assert_eq!(strategy.state.model_decisions_seen, 2);
}

#[test]
fn live_transitions_record_the_worked_decision() {
    let mut strategy = RiAuthor4142LiveStrategy::new(default_config()).expect("strategy");
    let decision = strategy.live_decision(
        RiAuthor4142Component::Author41Mr,
        RiAuthor4142Side::Long,
        dt(2026, 7, 20, 9, 0, 0),
        Some(dt(2026, 7, 20, 9, 0, 0)),
        None,
        "author41_entry",
        "key-1".to_string(),
    );
    assert_eq!(decision.overlap_decision, "Accepted");
    strategy.transition_live_pending_entry(&decision, "live_entry_emitted");
    assert_eq!(strategy.phase_for_test().as_deref(), Some("live_pending_entry"));
    assert_eq!(strategy.state.current_cycle_id.as_deref(), Some("author41_mr:20260720090000"));
    assert_eq!(strategy.state.current_entry_ts_local.as_deref(), Some("2026-07-20 09:00:00"));
    assert_eq!(strategy.state.current_exit_ts_local, None);
    assert_eq!(strategy.state.current_side.as_deref(), Some("long"));

    strategy.transition_live_pending_exit(&decision, "live_exit_emitted");
    assert_eq!(strategy.phase_for_test().as_deref(), Some("live_pending_exit"));
    assert_eq!(
        strategy.state.last_transition_reason.as_deref(),
        Some("live_exit_emitted:author41_entry")
    );
}

#[test]
fn live_candidate_routes_to_configured_order_symbol() {
    let mut config = default_config();
    config.mode = RiAuthor4142RuntimeMode::MicroLive;
    config.allow_order_emission = true;
    config.order_symbol = Some("SPBFUT.RIM6".to_string());
    let mut strategy = RiAuthor4142LiveStrategy::new(config).expect("strategy");
    let decision = strategy.live_decision(
        RiAuthor4142Component::Author42Bo,
        RiAuthor4142Side::Short,
        dt(2026, 7, 20, 9, 0, 0),
        Some(dt(2026, 7, 20, 9, 0, 0)),
        Some(dt(2026, 7, 20, 12, 0, 0)),
        "author42_entry",
        "key-2".to_string(),
    );
    let candidates = strategy.candidate_intents_for_decision(&decision);
    let order = strategy.emit_live_candidate(candidates[0].clone(), &decision);
    assert_eq!(order.side, OrderSide::Sell);
    assert_eq!(order.intent_class, IntentClass::Entry);
    assert_eq!(order.symbol.as_deref(), Some("SPBFUT.RIM6"));
    let journal = strategy.journal_records_for_test();
    assert_eq!(journal.len(), 1);
    assert_eq!(journal[0].adapter_decision, RiAuthor4142JournalDecision::IntentEmitted);
}

#[test]
fn skipped_journal_record_keeps_component_context() {
    let profile = ModelProfile::ri_shadow_10m();
    let record = ShadowJournalRecord::skipped(
        &profile,
        Component::Author42Bo,
        dt(2026, 4, 28, 12, 50, 0),
        "friday_filter",
    );

    assert_eq!(record.instrument, Instrument::Ri);
    assert_eq!(record.profile_id, ProfileId::RiAuthor41_42PrimaryComboCost2);
    assert_eq!(record.model_variant_id, "grid_k0.42_both");
    assert_eq!(record.skip_reason.as_deref(), Some("friday_filter"));
    assert_eq!(record.overlap_decision, OverlapDecision::NotApplicable);
}

fn day_of(y: i32, m: u32, d: u32) -> i32 {
    chrono::NaiveDate::from_ymd_opt(y, m, d).unwrap().to_epoch_days()
}

#[test]
fn shadow_path_marks_recomputed_overlap_decision_as_superseded() {
    let mut strategy = RiAuthor4142LiveStrategy::new(default_config()).expect("strategy");
    let later_long = accepted_shadow_decision(
        Component::Author41Mr,
        ShadowSide::Long,
        dt(2026, 7, 20, 9, 0, 0),
        dt(2026, 7, 20, 9, 10, 0),
        "take_author_close",
    );
    let later_long_key = later_long.decision_key.clone();

    strategy.collect_shadow_decisions(vec![later_long], dt(2026, 7, 20, 9, 20, 0));

    let active_after_first = strategy.shadow_path_keys(day_of(2026, 7, 20));
    assert!(active_after_first.contains(&later_long_key));

    let earlier_short = accepted_shadow_decision(
        Component::Author41Mr,
        ShadowSide::Short,
        dt(2026, 7, 20, 7, 40, 0),
        dt(2026, 7, 20, 9, 30, 0),
        "take_author_close",
    );
    let earlier_short_key = earlier_short.decision_key.clone();

    strategy.collect_shadow_decisions(vec![earlier_short], dt(2026, 7, 20, 9, 40, 0));

    let active_after_recompute = strategy.shadow_path_keys(day_of(2026, 7, 20));
    assert!(!active_after_recompute.contains(&later_long_key));
    assert!(active_after_recompute.contains(&earlier_short_key));

    let journal = strategy.journal_records_for_test();
    assert!(journal.iter().any(|row| {
        row.adapter_decision == RiAuthor4142JournalDecision::ShadowPathSuperseded
            && row.decision_key == later_long_key
    }));
    assert!(journal.iter().any(|row| {
        row.adapter_decision == RiAuthor4142JournalDecision::ShadowPathActive
            && row.decision_key == earlier_short_key
    }));
}

#[test]
fn shadow_path_does_not_duplicate_active_rows_when_path_is_unchanged() {
    let mut strategy = RiAuthor4142LiveStrategy::new(default_config()).expect("strategy");
    let decision = accepted_shadow_decision(
        Component::Author41Mr,
        ShadowSide::Long,
        dt(2026, 7, 20, 9, 0, 0),
        dt(2026, 7, 20, 9, 10, 0),
        "take_author_close",
    );

    strategy.collect_shadow_decisions(vec![decision.clone()], dt(2026, 7, 20, 9, 20, 0));
    strategy.collect_shadow_decisions(vec![decision], dt(2026, 7, 20, 9, 30, 0));

    let active_rows = strategy
        .journal_records_for_test()
        .iter()
        .filter(|row| row.adapter_decision == RiAuthor4142JournalDecision::ShadowPathActive)
        .count();
    let superseded_rows = strategy
        .journal_records_for_test()
        .iter()
        .filter(|row| row.adapter_decision == RiAuthor4142JournalDecision::ShadowPathSuperseded)
        .count();

    assert_eq!(active_rows, 1);
    assert_eq!(superseded_rows, 0);
}

#[test]
fn shadow_path_keeps_late_bo_after_mr_time_exit() {
    let mut strategy = RiAuthor4142LiveStrategy::new(default_config()).expect("strategy");
    let mr = accepted_shadow_decision(
        Component::Author41Mr,
        ShadowSide::Long,
        dt(2026, 7, 15, 8, 10, 0),
        dt(2026, 7, 15, 20, 0, 0),
        "time_exit",
    );
    let late_bo = accepted_shadow_decision(
        Component::Author42Bo,
        ShadowSide::Short,
        dt(2026, 7, 15, 21, 0, 0),
        dt(2026, 7, 15, 23, 0, 0),
        "time_exit_same_bar_close",
    );
    let late_bo_key = late_bo.decision_key.clone();

    strategy.collect_shadow_decisions(vec![mr, late_bo], dt(2026, 7, 15, 23, 10, 0));

    let active = strategy.shadow_path_keys(day_of(2026, 7, 15));
    assert!(active.contains(&late_bo_key));
    assert!(strategy.journal_records_for_test().iter().any(|row| {
        row.adapter_decision == RiAuthor4142JournalDecision::ShadowPathActive
            && row.decision_key == late_bo_key
    }));
}

#[test]
fn shadow_collection_journals_new_decisions_then_dry_runs_then_path() {
    let mut strategy = RiAuthor4142LiveStrategy::new(default_config()).expect("strategy");
    let decision = accepted_shadow_decision(
        Component::Author42Bo,
        ShadowSide::Short,
        dt(2026, 7, 15, 13, 0, 0),
        dt(2026, 7, 15, 23, 0, 0),
        "time_exit",
    );
    let taken = strategy.collect_shadow_decisions(vec![decision], dt(2026, 7, 15, 23, 10, 0));
    assert_eq!(taken.len(), 1);
    let kinds: Vec<RiAuthor4142JournalDecision> =
        strategy.journal_records_for_test().iter().map(|row| row.adapter_decision).collect();
    assert_eq!(
        kinds,
        vec![
            RiAuthor4142JournalDecision::ShadowRecorded,
            RiAuthor4142JournalDecision::IntentSuppressed,
            RiAuthor4142JournalDecision::IntentSuppressed,
            RiAuthor4142JournalDecision::ShadowPathActive,
        ]
    );
    assert_eq!(strategy.phase_for_test().as_deref(), Some("flat"));
    assert_eq!(strategy.state.model_decisions_seen, 1);
}

#[test]
fn model_exit_is_sent_as_exit_market_order_and_pends() {
    let mut config = default_config();
    config.mode = RiAuthor4142RuntimeMode::MicroLive;
    config.allow_order_emission = true;
    let mut strategy = RiAuthor4142LiveStrategy::new(config).expect("strategy");
    let order = strategy.emit_exit_intent(
        RiAuthor4142Component::Author41Mr,
        RiAuthor4142Side::Long,
        dt(2026, 7, 20, 9, 0, 0),
        dt(2026, 7, 20, 20, 0, 0),
        "time_exit",
        "author41_time_exit",
        "key-3".to_string(),
    );
    assert_eq!(order.side, OrderSide::Sell);
    assert_eq!(order.intent_class, IntentClass::Exit);
    assert_eq!(order.symbol, None);
    assert_eq!(order.comment, "ri_author41_42:ri_author41_42_primary_combo_cost2:author41_mr:exit");
    assert_eq!(strategy.phase_for_test().as_deref(), Some("live_pending_exit"));
    assert_eq!(
        strategy.state.last_transition_reason.as_deref(),
        Some("author41_time_exit:time_exit")
    );
    let journal = strategy.journal_records_for_test();
    assert_eq!(journal.len(), 1);
    assert_eq!(journal[0].role.as_deref(), Some("exit"));
    assert_eq!(journal[0].candidate_scheduled_ts_local.as_deref(), Some("2026-07-20 20:00:00"));
}

fn micro_live_config(order_symbol: Option<&str>) -> RiAuthor4142LiveConfig {
    let mut config = default_config();
    config.mode = RiAuthor4142RuntimeMode::MicroLive;
    config.allow_order_emission = true;
    config.order_symbol = order_symbol.map(|s| s.to_string());
    config
}

/// A micro-live strategy that has just sent the entry of an author41 mean-reversion trade
/// opened on the 09:00 bar of 2026-05-04.
fn micro_live_after_entry(
    order_symbol: Option<&str>,
    side: RiAuthor4142Side,
) -> (RiAuthor4142LiveStrategy, RiAuthor4142ModelDecision, strategy_runtime::ri_author41_42_live::RiMarketOrder) {
    let mut strategy = RiAuthor4142LiveStrategy::new(micro_live_config(order_symbol)).expect("micro strategy");
    let decision = strategy.live_decision(
        RiAuthor4142Component::Author41Mr,
        side,
        dt(2026, 5, 4, 9, 0, 0),
        Some(dt(2026, 5, 4, 9, 0, 0)),
        None,
        "author41_entry",
        "micro-entry".to_string(),
    );
    let candidates = strategy.candidate_intents_for_decision(&decision);
    let order = strategy.emit_live_candidate(candidates[0].clone(), &decision);
    strategy.transition_live_pending_entry(&decision, "live_entry_emitted");
    (strategy, decision, order)
}

#[test]
fn micro_live_routes_orders_to_full_alor_symbol_when_configured() {
    let (_, _, order) = micro_live_after_entry(Some("RTS-6.26"), RiAuthor4142Side::Short);
    assert_eq!(order.symbol.as_deref(), Some("RTS-6.26"));
    assert_eq!(order.intent_class, IntentClass::Entry);
}

#[test]
fn micro_live_rejected_entry_rolls_back_to_flat_when_broker_flat() {
    let (mut strategy, _, _) = micro_live_after_entry(None, RiAuthor4142Side::Short);
    assert_eq!(strategy.phase_for_test().as_deref(), Some("live_pending_entry"));
    strategy.on_ack(
        AckStatus::Rejected,
        0x1234,
        Some("cws_http_400".to_string()),
        Some("unknown instrument".to_string()),
        None,
    );
    assert_eq!(strategy.phase_for_test().as_deref(), Some("flat"));
    assert!(strategy.live_positions_dropped);
}

#[test]
fn micro_live_readiness_blocked_entry_marks_missed_and_blocks_opposite_replacement() {
    let (mut strategy, _, order) = micro_live_after_entry(None, RiAuthor4142Side::Long);
    assert_eq!(order.side, OrderSide::Buy);
    assert_eq!(strategy.phase_for_test().as_deref(), Some("live_pending_entry"));
    let created = moscow_bar_ts(2026, 5, 4, 9, 0, 0);
    let disposition = strategy.on_intent_blocked(
        "live_guard",
        IntentClass::Entry,
        &vec!["phase=SyncingHistory".to_string(), "gateway_ready=false".to_string()],
        created,
    );
    assert_eq!(disposition, IntentBlockDisposition::KeepStrategyState);
    assert_eq!(strategy.phase_for_test().as_deref(), Some("live_entry_missed_runtime_not_ready"));
    assert!(strategy.live_positions_dropped);
    assert_eq!(strategy.state.current_component.as_deref(), Some("author41_mr"));
    assert_eq!(strategy.state.current_side.as_deref(), Some("long"));
    assert_eq!(strategy.state.current_entry_ts_local.as_deref(), Some("2026-05-04 09:00:00"));
    // No replacement entry, of either side, while the missed entry stands.
    assert!(strategy.phase_blocks_fresh_entries());
}

#[test]
fn restored_flat_state_clears_unpersisted_live_positions() {
    let mut strategy = RiAuthor4142LiveStrategy::new(micro_live_config(None)).expect("micro strategy");
    let previous_state = strategy.state.clone();
    let decision = strategy.live_decision(
        RiAuthor4142Component::Author41Mr,
        RiAuthor4142Side::Short,
        dt(2026, 5, 4, 9, 0, 0),
        Some(dt(2026, 5, 4, 9, 0, 0)),
        None,
        "author41_entry",
        "micro-entry".to_string(),
    );
    strategy.transition_live_pending_entry(&decision, "live_entry_emitted");
    assert_eq!(strategy.phase_for_test().as_deref(), Some("live_pending_entry"));

    strategy.set_state(previous_state);
    assert_eq!(strategy.phase_for_test().as_deref(), Some(RiAuthor4142Phase::Flat.as_str()));
    assert!(strategy.live_positions_dropped);
    assert!(strategy.pending_request_ids().is_empty());
}

#[test]
fn micro_live_trading_window_closed_exit_reject_enters_deferred_exit_and_reissues() {
    let (mut strategy, decision, _) = micro_live_after_entry(None, RiAuthor4142Side::Short);
    strategy.on_position(false);
    assert_eq!(strategy.phase_for_test().as_deref(), Some("live_in_position"));
    strategy.transition_live_pending_exit(&decision, "live_exit_emitted");
    assert_eq!(strategy.phase_for_test().as_deref(), Some("live_pending_exit"));
    let pending_exit_request_id: u128 = 0xe417;
    strategy.on_command_prepared(IntentClass::Exit, pending_exit_request_id);
    assert_eq!(strategy.pending_request_ids(), vec![pending_exit_request_id]);

    strategy.on_ack(
        AckStatus::Rejected,
        pending_exit_request_id,
        Some("trading_window_closed".to_string()),
        Some("validation failed".to_string()),
        Some(false),
    );
    assert_eq!(strategy.phase_for_test().as_deref(), Some("live_deferred_exit"));
    assert!(strategy.pending_request_ids().is_empty());

    // The next exit is sent from the deferred phase.
    strategy.transition_live_pending_exit(&decision, "live_exit_emitted");
    assert_eq!(strategy.phase_for_test().as_deref(), Some("live_pending_exit"));
}

#[test]
fn micro_live_entry_ack_with_request_id_skew_does_not_clear_pending_entry() {
    let (mut strategy, _, _) = micro_live_after_entry(None, RiAuthor4142Side::Short);
    let request_id: u128 = 0xa11;
    strategy.on_command_prepared(IntentClass::Entry, request_id);

    strategy.on_ack(
        AckStatus::Rejected,
        0xb22,
        Some("cws_http_400".to_string()),
        Some("unknown instrument".to_string()),
        None,
    );
    assert_eq!(strategy.phase_for_test().as_deref(), Some("live_pending_entry"));
    assert_eq!(strategy.pending_request_ids(), vec![request_id]);

    strategy.on_ack(
        AckStatus::Rejected,
        request_id,
        Some("cws_http_400".to_string()),
        Some("unknown instrument".to_string()),
        None,
    );
    assert_eq!(strategy.phase_for_test().as_deref(), Some(RiAuthor4142Phase::Flat.as_str()));
    assert!(strategy.pending_request_ids().is_empty());
}

#[test]
fn micro_live_promotes_pending_entry_to_in_position_on_position_update() {
    let (mut strategy, _, _) = micro_live_after_entry(None, RiAuthor4142Side::Short);
    strategy.on_command_prepared(IntentClass::Entry, 0x5);
    strategy.on_position(false);
    assert_eq!(strategy.phase_for_test().as_deref(), Some("live_in_position"));
    assert!(strategy.pending_request_ids().is_empty());
}

fn moscow_bar_ts(y: i32, mo: u32, d: u32, h: u32, mi: u32, s: u32) -> i64 {
    chrono::NaiveDate::from_ymd_opt(y, mo, d)
        .unwrap()
        .and_hms_opt(h, mi, s)
        .unwrap()
        .and_utc()
        .timestamp()
        - 3 * 3600
}

#[test]
fn decision_key_spells_out_the_record() {
    let record = sample_record(OverlapDecision::Accepted, "time_exit");
    assert_eq!(
        decision_key(&record),
        "ri_author41_42_primary_combo_cost2|author42_bo|2026-05-01 13:00:00|Some(Short)|Some(2026-05-01T23:40:00)|time_exit"
    );
    let mut bare = sample_record(OverlapDecision::Accepted, "time_exit");
    bare.side = None;
    bare.scheduled_exit_ts_local = None;
    bare.exit_reason = None;
    assert_eq!(
        decision_key(&bare),
        "ri_author41_42_primary_combo_cost2|author42_bo|2026-05-01 13:00:00|None|None|none"
    );
}

#[test]
fn pending_request_ids_can_be_read_and_the_entry_cleared() {
    let (mut strategy, decision, _) = micro_live_after_entry(None, RiAuthor4142Side::Long);
    strategy.on_command_prepared(IntentClass::Entry, 0x10);
    assert_eq!(strategy.pending_entry_request_id(), Some(0x10));
    assert_eq!(strategy.pending_exit_request_id(), None);
    strategy.clear_pending_entry_request_id();
    assert_eq!(strategy.pending_entry_request_id(), None);
    assert_eq!(strategy.phase_for_test().as_deref(), Some("live_pending_entry"));
    strategy.on_position(false);
    strategy.transition_live_pending_exit(&decision, "live_exit_emitted");
    strategy.on_command_prepared(IntentClass::Exit, 0x20);
    assert_eq!(strategy.pending_exit_request_id(), Some(0x20));
}
