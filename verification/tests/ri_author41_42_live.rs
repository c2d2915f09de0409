use strategy_runtime::clock::{LocalDateTime, TimeOfDay};
use strategy_runtime::host::DataOrigin;
use strategy_runtime::ri_author41_42_live::{
    decision_component_sort_key, is_author42_hour_check,
    RiAuthor4142Component, RiAuthor4142ExecutionPath, RiAuthor4142LiveConfig,
    RiAuthor4142LiveStrategy, RiAuthor4142Phase, RiAuthor4142RuntimeMode, RiConfigCheck,
};

fn default_config() -> RiAuthor4142LiveConfig {
    RiAuthor4142LiveConfig {
        symbol: "RIM6".to_string(),
        profile_id: "ri_author41_42_primary_combo_cost2".to_string(),
        timeframe: "10m".to_string(),
        mode: RiAuthor4142RuntimeMode::Shadow,
        allow_order_emission: false,
        execution_path: RiAuthor4142ExecutionPath::ActionScopedOnly,
        order_symbol: None,
        session_start_time: "09:00:00".to_string(),
        session_end_time: "23:49:59".to_string(),
        author41_entry_end_time: "12:00:00".to_string(),
        author41_time_exit: "20:00:00".to_string(),
        author42_exit_time: "23:00:00".to_string(),
        excluded_model_dates: Vec::new(),
        min_anchor_bars: 0,
        anchor_first_bar_at_or_before: "23:59:59".to_string(),
        anchor_last_bar_at_or_after: "00:00:00".to_string(),
        anchor_transition_date: None,
        pre_transition_min_anchor_bars: None,
        pre_transition_anchor_first_bar_at_or_before: None,
        pre_transition_anchor_last_bar_at_or_after: None,
        actual_expiry_date: None,
        roll_target_sessions_before: 1,
        roll_fallback_sessions_before: 2,
        timezone_offset_hours: 3,
    }
}

fn canonical07_transition_config() -> RiAuthor4142LiveConfig {
    let mut config = default_config();
    config.session_start_time = "07:00:00".to_string();
    config.author41_entry_end_time = "10:00:00".to_string();
    config.min_anchor_bars = 92;
    config.anchor_first_bar_at_or_before = "07:10:00".to_string();
    config.anchor_last_bar_at_or_after = "23:30:00".to_string();
    config.anchor_transition_date = Some("2026-07-14".to_string());
    config.pre_transition_min_anchor_bars = Some(80);
    config.pre_transition_anchor_first_bar_at_or_before = Some("09:10:00".to_string());
    config.pre_transition_anchor_last_bar_at_or_after = Some("23:30:00".to_string());
    config
}

fn dt(y: i32, mo: u32, d: u32, h: u32, mi: u32, s: u32) -> LocalDateTime {
    let day = chrono::NaiveDate::from_ymd_opt(y, mo, d).unwrap().to_epoch_days();
    LocalDateTime { day, secs: h * 3600 + mi * 60 + s }
}

/// The unix time of a bar that closes at the given Moscow wall-clock time.
fn bar_ts(y: i32, mo: u32, d: u32, h: u32, mi: u32, s: u32) -> i64 {
    chrono::NaiveDate::from_ymd_opt(y, mo, d)
        .unwrap()
        .and_hms_opt(h, mi, s)
        .unwrap()
        .and_utc()
        .timestamp()
        - 3 * 3600
}

fn model_flags(strategy: &mut RiAuthor4142LiveStrategy, bars: &[(i64, DataOrigin)]) -> Vec<bool> {
    bars.iter()
        .map(|(ts, origin)| strategy.observe_bar(*ts, *origin).expect("local time").1)
        .collect()
}

#[test]
fn shadow_mode_scaffold_cannot_emit_orders() {
    let strategy = RiAuthor4142LiveStrategy::new(default_config()).expect("strategy");
    assert!(!strategy.can_emit_orders());
}

#[test]
fn allow_order_emission_requires_micro_live_mode() {
    let mut config = default_config();
    config.allow_order_emission = true;
    let err = RiAuthor4142LiveStrategy::new(config)
        .expect_err("order emission must be paired with micro_live")
        .message();
    assert!(err.contains("mode=micro_live and allow_order_emission=true"));
}

#[test]
fn micro_live_mode_requires_order_emission_permission() {
    let mut config = default_config();
    config.mode = RiAuthor4142RuntimeMode::MicroLive;
    let err = RiAuthor4142LiveStrategy::new(config)
        .expect_err("micro_live must be paired with order emission")
        .message();
    assert!(err.contains("mode=micro_live and allow_order_emission=true"));
}

#[test]
fn micro_live_with_order_emission_can_emit_orders() {
    let mut config = default_config();
    config.mode = RiAuthor4142RuntimeMode::MicroLive;
    config.allow_order_emission = true;
    let strategy = RiAuthor4142LiveStrategy::new(config).expect("micro strategy");
    assert!(strategy.can_emit_orders());
}

#[test]
fn non_10m_timeframe_is_rejected() {
    let mut config = default_config();
    config.timeframe = "1m".to_string();
    let err = RiAuthor4142LiveStrategy::new(config)
        .expect_err("RI frozen model must stay on 10m")
        .message();
    assert!(err.contains("frozen model requires 10m timeframe"));
}

#[test]
fn rollover_policy_requires_ordered_positive_offsets() {
    let mut config = default_config();
    config.roll_target_sessions_before = 2;
    config.roll_fallback_sessions_before = 1;
    let err = RiAuthor4142LiveStrategy::new(config)
        .expect_err("fallback cannot be later than target")
        .message();
    assert!(err.contains("rollover requires"));
}

#[test]
fn invalid_dates_and_times_are_reported_with_their_field() {
    let mut config = default_config();
    config.excluded_model_dates = vec!["2026-06-12".to_string(), "2026-13-01".to_string()];
    let err = config.validate().expect_err("bad date");
    assert_eq!(err.check, RiConfigCheck::InvalidDate);
    assert!(err.message().contains("2026-13-01"));

    let mut config = default_config();
    config.session_end_time = "25:00:00".to_string();
    assert!(config.validate().is_err());

    let mut config = default_config();
    config.session_start_time = "23:50:00".to_string();
    let err = config.validate().expect_err("session order");
    assert_eq!(err.check, RiConfigCheck::SessionOrder);
}

#[test]
fn unsupported_mode_and_path_words_are_rejected() {
    assert_eq!(RiAuthor4142RuntimeMode::parse("  Micro_Live "), Ok(RiAuthor4142RuntimeMode::MicroLive));
    assert_eq!(RiAuthor4142RuntimeMode::parse(""), Ok(RiAuthor4142RuntimeMode::Shadow));
    assert_eq!(RiAuthor4142RuntimeMode::parse("dryrun"), Ok(RiAuthor4142RuntimeMode::DryRun));
    let err = RiAuthor4142RuntimeMode::parse("paper").expect_err("unsupported");
    assert_eq!(err.check, RiConfigCheck::UnsupportedMode);
    assert_eq!(
        RiAuthor4142ExecutionPath::parse("action-scoped-only"),
        Ok(RiAuthor4142ExecutionPath::ActionScopedOnly)
    );
    for mode in [
        RiAuthor4142RuntimeMode::Shadow,
        RiAuthor4142RuntimeMode::ProspectiveShadow,
        RiAuthor4142RuntimeMode::DryRun,
        RiAuthor4142RuntimeMode::MicroLive,
    ] {
        assert_eq!(RiAuthor4142RuntimeMode::parse(mode.as_str()), Ok(mode));
    }
}

#[test]
fn model_feed_guard_excludes_service_weekend_and_history_gap_bars() {
    let mut strategy = RiAuthor4142LiveStrategy::new(default_config()).expect("strategy");
    let flags = model_flags(
        &mut strategy,
        &[
            (bar_ts(2026, 5, 1, 8, 50, 0), DataOrigin::Live),
            (bar_ts(2026, 5, 2, 10, 0, 0), DataOrigin::Live),
            (bar_ts(2026, 5, 1, 10, 0, 0), DataOrigin::HistoryGap),
            (bar_ts(2026, 5, 1, 10, 10, 0), DataOrigin::Live),
        ],
    );
    assert_eq!(flags, vec![false, false, false, true]);
    assert_eq!(strategy.state.model_bars_seen, 1);
    assert_eq!(strategy.state.suppressed_service_bars, 3);
}

#[test]
fn canonical07_feed_guard_excludes_auction_and_accepts_continuous_bars() {
    let mut config = default_config();
    config.session_start_time = "07:00:00".to_string();
    config.author41_entry_end_time = "10:00:00".to_string();
    config.anchor_first_bar_at_or_before = "07:10:00".to_string();
    let mut strategy = RiAuthor4142LiveStrategy::new(config).expect("strategy");
    let flags = model_flags(
        &mut strategy,
        &[
            (bar_ts(2026, 7, 16, 6, 50, 0), DataOrigin::Live),
            (bar_ts(2026, 7, 16, 7, 0, 0), DataOrigin::Live),
            (bar_ts(2026, 7, 16, 8, 50, 0), DataOrigin::Live),
        ],
    );
    assert_eq!(flags, vec![false, true, true]);
}

#[test]
fn transition_feed_guard_excludes_legacy_pre_session_service_bar() {
    let bars = [
        (bar_ts(2026, 7, 13, 8, 50, 0), DataOrigin::History),
        (bar_ts(2026, 7, 13, 9, 0, 0), DataOrigin::History),
        (bar_ts(2026, 7, 14, 7, 0, 0), DataOrigin::History),
    ];
    let mut strategy =
        RiAuthor4142LiveStrategy::new(canonical07_transition_config()).expect("transition strategy");
    assert_eq!(model_flags(&mut strategy, &bars), vec![false, true, true]);

    let mut prospective_config = canonical07_transition_config();
    prospective_config.mode = RiAuthor4142RuntimeMode::ProspectiveShadow;
    let mut prospective =
        RiAuthor4142LiveStrategy::new(prospective_config).expect("prospective transition");
    assert_eq!(model_flags(&mut prospective, &bars), vec![false, true, true]);
}

#[test]
fn operational_shadow_excludes_moex_break_bars_without_changing_live_contract() {
    let bars = [
        (bar_ts(2026, 7, 15, 14, 0, 0), DataOrigin::Live),
        (bar_ts(2026, 7, 15, 18, 50, 0), DataOrigin::Live),
    ];
    let mut shadow = RiAuthor4142LiveStrategy::new(default_config()).expect("shadow");
    assert_eq!(model_flags(&mut shadow, &bars), vec![false, false]);

    let mut prospective_config = default_config();
    prospective_config.mode = RiAuthor4142RuntimeMode::ProspectiveShadow;
    let mut prospective = RiAuthor4142LiveStrategy::new(prospective_config).expect("prospective");
    assert_eq!(model_flags(&mut prospective, &bars), vec![false, false]);

    let mut live_config = default_config();
    live_config.mode = RiAuthor4142RuntimeMode::MicroLive;
    live_config.allow_order_emission = true;
    let mut live = RiAuthor4142LiveStrategy::new(live_config).expect("live");
    assert_eq!(model_flags(&mut live, &bars), vec![true, true]);
}

#[test]
fn legacy09_feed_guard_still_rejects_pre_0900_bars() {
    let mut strategy = RiAuthor4142LiveStrategy::new(default_config()).expect("strategy");
    let flags = model_flags(
        &mut strategy,
        &[
            (bar_ts(2026, 7, 16, 8, 50, 0), DataOrigin::Live),
            (bar_ts(2026, 7, 16, 9, 0, 0), DataOrigin::Live),
        ],
    );
    assert_eq!(flags, vec![false, true]);
}

#[test]
fn configured_special_session_is_excluded_from_model_and_live_emission() {
    let mut config = default_config();
    config.mode = RiAuthor4142RuntimeMode::MicroLive;
    config.allow_order_emission = true;
    config.excluded_model_dates = vec!["2026-06-12".to_string()];
    let mut strategy = RiAuthor4142LiveStrategy::new(config).expect("strategy");
    assert_eq!(
        model_flags(&mut strategy, &[(bar_ts(2026, 6, 12, 10, 0, 0), DataOrigin::Live)]),
        vec![false]
    );
    assert!(strategy.is_excluded_date(dt(2026, 6, 12, 0, 0, 0).day));
}

#[test]
fn author42_hour_check_sequence_is_relative_to_first_model_bar() {
    let first = dt(2026, 7, 16, 7, 0, 0);
    assert!(!is_author42_hour_check(dt(2026, 7, 16, 7, 50, 0), Some(first)));
    assert!(is_author42_hour_check(dt(2026, 7, 16, 8, 50, 0), Some(first)));
    assert!(!is_author42_hour_check(dt(2026, 7, 16, 8, 40, 0), Some(first)));
    assert!(!is_author42_hour_check(dt(2026, 7, 16, 8, 50, 0), None));
}

#[test]
fn bootstrap_flat_without_working_orders_keeps_flat_phase() {
    let mut strategy = RiAuthor4142LiveStrategy::new(default_config()).expect("strategy");
    strategy.on_bootstrap_snapshot(None, 0, 0);
    assert_eq!(strategy.phase_for_test().as_deref(), Some(RiAuthor4142Phase::Flat.as_str()));
}

#[test]
fn bootstrap_non_flat_position_requires_manual_intervention() {
    let mut strategy = RiAuthor4142LiveStrategy::new(default_config()).expect("strategy");
    strategy.on_bootstrap_snapshot(Some("-1"), 0, 0);
    assert_eq!(
        strategy.phase_for_test().as_deref(),
        Some(RiAuthor4142Phase::ManualInterventionRequired.as_str())
    );
    assert_eq!(
        strategy.state.last_transition_reason.as_deref(),
        Some("bootstrap_non_flat_position_qty:-1")
    );
}

#[test]
fn bootstrap_working_orders_require_manual_intervention() {
    let mut strategy = RiAuthor4142LiveStrategy::new(default_config()).expect("strategy");
    strategy.on_bootstrap_snapshot(None, 1, 0);
    assert_eq!(
        strategy.phase_for_test().as_deref(),
        Some(RiAuthor4142Phase::ManualInterventionRequired.as_str())
    );
}

#[test]
fn bootstrap_working_stop_orders_require_manual_intervention() {
    let mut strategy = RiAuthor4142LiveStrategy::new(default_config()).expect("strategy");
    strategy.on_bootstrap_snapshot(None, 0, 1);
    assert_eq!(
        strategy.phase_for_test().as_deref(),
        Some(RiAuthor4142Phase::ManualInterventionRequired.as_str())
    );
    assert_eq!(
        strategy.state.last_transition_reason.as_deref(),
        Some("bootstrap_working_stop_orders:1")
    );
}

#[test]
fn runtime_state_restore_empty_keeps_flat_phase() {
    let mut strategy = RiAuthor4142LiveStrategy::new(default_config()).expect("strategy");
    strategy.on_runtime_state_restored(0, 0);
    assert_eq!(strategy.phase_for_test().as_deref(), Some(RiAuthor4142Phase::Flat.as_str()));
}

#[test]
fn runtime_state_restore_pending_requests_require_manual_intervention() {
    let mut strategy = RiAuthor4142LiveStrategy::new(default_config()).expect("strategy");
    strategy.on_runtime_state_restored(1, 0);
    assert_eq!(
        strategy.phase_for_test().as_deref(),
        Some(RiAuthor4142Phase::ManualInterventionRequired.as_str())
    );
}

#[test]
fn runtime_state_restore_known_orders_require_manual_intervention() {
    let mut strategy = RiAuthor4142LiveStrategy::new(default_config()).expect("strategy");
    strategy.on_runtime_state_restored(0, 1);
    assert_eq!(
        strategy.phase_for_test().as_deref(),
        Some(RiAuthor4142Phase::ManualInterventionRequired.as_str())
    );
    assert!(strategy.phase_blocks_fresh_entries());
}

#[test]
fn prospective_shadow_ignores_restart_evidence() {
    let mut config = default_config();
    config.mode = RiAuthor4142RuntimeMode::ProspectiveShadow;
    let mut strategy = RiAuthor4142LiveStrategy::new(config).expect("strategy");
    strategy.on_runtime_state_restored(3, 3);
    strategy.on_bootstrap_snapshot(Some("2"), 1, 1);
    assert_eq!(strategy.phase_for_test().as_deref(), Some(RiAuthor4142Phase::Flat.as_str()));
}

#[test]
fn decision_components_sort_mean_reversion_first() {
    assert!(
        decision_component_sort_key(RiAuthor4142Component::Author41Mr)
            < decision_component_sort_key(RiAuthor4142Component::Author42Bo)
    );
}

#[test]
fn legacy_execution_path_is_rejected() {
    let err = RiAuthor4142ExecutionPath::parse("legacy_long_lived")
        .expect_err("legacy cws path must not be accepted")
        .message();

    assert!(err.contains("unsupported ri_author41_42 execution_path"));
}

fn day_number(y: i32, mo: u32, d: u32) -> i32 {
    chrono::NaiveDate::from_ymd_opt(y, mo, d).unwrap().to_epoch_days()
}

fn time_of_day(h: u32, mi: u32, s: u32) -> TimeOfDay {
    TimeOfDay { secs: h * 3600 + mi * 60 + s, frac: 0 }
}

#[test]
fn transition_anchor_guard_accepts_complete_legacy_sessions_only_before_cutover() {
    let strategy = RiAuthor4142LiveStrategy::new(canonical07_transition_config()).expect("transition strategy");
    // A legacy session: 86 bars from 09:00 to 23:40; a canonical one: 98 bars from 07:00.
    assert!(strategy.is_eligible_anchor_session(
        day_number(2026, 7, 13),
        86,
        time_of_day(9, 0, 0),
        time_of_day(23, 40, 0),
    ));
    assert!(!strategy.is_eligible_anchor_session(
        day_number(2026, 7, 14),
        86,
        time_of_day(9, 0, 0),
        time_of_day(23, 40, 0),
    ));
    assert!(strategy.is_eligible_anchor_session(
        day_number(2026, 7, 14),
        98,
        time_of_day(7, 0, 0),
        time_of_day(23, 40, 0),
    ));
}

#[test]
fn anchor_guard_rejects_short_late_or_early_ending_sessions() {
    let mut config = default_config();
    config.min_anchor_bars = 3;
    config.anchor_first_bar_at_or_before = "09:10:00".to_string();
    config.anchor_last_bar_at_or_after = "23:30:00".to_string();
    let strategy = RiAuthor4142LiveStrategy::new(config).expect("strategy");
    let day = day_number(2026, 6, 11);
    assert!(strategy.is_eligible_anchor_session(day, 3, time_of_day(9, 0, 0), time_of_day(23, 40, 0)));
    assert!(!strategy.is_eligible_anchor_session(day, 2, time_of_day(9, 0, 0), time_of_day(23, 40, 0)));
    assert!(!strategy.is_eligible_anchor_session(day, 3, time_of_day(10, 0, 0), time_of_day(23, 40, 0)));
    assert!(!strategy.is_eligible_anchor_session(day, 3, time_of_day(9, 0, 0), time_of_day(23, 20, 0)));
}

#[test]
fn prospective_adapter_assumes_entries_and_exits_filled() {
    let mut config = default_config();
    config.mode = RiAuthor4142RuntimeMode::ProspectiveShadow;
    let mut strategy = RiAuthor4142LiveStrategy::new(config).expect("strategy");
    strategy.state.phase = "live_pending_entry".to_string();
    strategy.finalize_prospective_adapter_transition();
    assert_eq!(strategy.phase_for_test().as_deref(), Some("live_in_position"));
    assert_eq!(
        strategy.state.last_transition_reason.as_deref(),
        Some("prospective_shadow_entry_assumed_filled")
    );
    strategy.state.phase = "live_pending_exit".to_string();
    strategy.finalize_prospective_adapter_transition();
    assert_eq!(strategy.phase_for_test().as_deref(), Some(RiAuthor4142Phase::Flat.as_str()));
    assert!(strategy.live_positions_dropped);
}

#[test]
fn calendar_settings_are_read_as_times_days_and_local_instants() {
    let mut config = default_config();
    config.author41_entry_end_time = "09:30:15".to_string();
    config.excluded_model_dates = vec!["1970-01-02".to_string()];
    let strategy = RiAuthor4142LiveStrategy::new(config).expect("strategy");
    assert_eq!(strategy.author41_entry_end, TimeOfDay { secs: 9 * 3600 + 30 * 60 + 15, frac: 0 });
    assert_eq!(strategy.excluded_model_dates, vec![1]);
    assert_eq!(strategy.local_dt(86_400 + 3_600), Some(LocalDateTime { day: 1, secs: 4 * 3_600 }));
    assert_eq!(strategy.local_dt(-1 - 3 * 3_600), Some(LocalDateTime { day: -1, secs: 86_399 }));

    let mut bad_time = default_config();
    bad_time.author41_entry_end_time = "9h30".to_string();
    assert!(RiAuthor4142LiveStrategy::new(bad_time).is_err());
    let mut bad_day = default_config();
    bad_day.excluded_model_dates = vec!["2026-02-30".to_string()];
    assert!(RiAuthor4142LiveStrategy::new(bad_day).is_err());
}

#[test]
fn runtime_state_restore_reason_counts_the_evidence() {
    let mut strategy = RiAuthor4142LiveStrategy::new(default_config()).expect("strategy");
    strategy.on_runtime_state_restored(12, 0);
    assert_eq!(
        strategy.state.last_transition_reason.as_deref(),
        Some("runtime_restore_pending_requests:12")
    );
    let mut other = RiAuthor4142LiveStrategy::new(default_config()).expect("strategy");
    other.on_runtime_state_restored(0, 3);
    assert_eq!(
        other.state.last_transition_reason.as_deref(),
        Some("runtime_restore_known_order_ids:3")
    );
}

#[test]
fn author_june_window_runs_from_may_21_to_july_1() {
    assert!(!RiAuthor4142LiveStrategy::in_author_june_window(day_number(2026, 5, 20)));
    assert!(RiAuthor4142LiveStrategy::in_author_june_window(day_number(2026, 5, 21)));
    assert!(RiAuthor4142LiveStrategy::in_author_june_window(day_number(2026, 6, 15)));
    assert!(RiAuthor4142LiveStrategy::in_author_june_window(day_number(2026, 7, 1)));
    assert!(!RiAuthor4142LiveStrategy::in_author_june_window(day_number(2026, 7, 2)));
    assert!(RiAuthor4142LiveStrategy::in_author_june_window(day_number(1999, 6, 1)));
}

#[test]
fn config_errors_carry_chrono_reason() {
    let mut config = default_config();
    config.excluded_model_dates = vec!["2026-13-01".to_string()];
    let err = config.validate().expect_err("bad date");
    assert_eq!(err.message(), "invalid excluded_model_dates value 2026-13-01: input is out of range");

    let mut config = default_config();
    config.session_end_time = "9h30".to_string();
    let err = config.validate().expect_err("bad time");
    assert_eq!(err.check, RiConfigCheck::InvalidModelTime);
    assert_eq!(
        err.message(),
        "invalid ri_author41_42 session_end_time 9h30: input contains invalid characters"
    );
}

#[test]
fn mode_words_read_back_in_any_case_and_padding() {
    for mode in [
        RiAuthor4142RuntimeMode::Shadow,
        RiAuthor4142RuntimeMode::ProspectiveShadow,
        RiAuthor4142RuntimeMode::DryRun,
        RiAuthor4142RuntimeMode::MicroLive,
    ] {
        let padded = format!("  {}\t ", mode.as_str().to_ascii_uppercase());
        assert_eq!(RiAuthor4142RuntimeMode::parse(&padded), Ok(mode));
    }
}

#[test]
fn validated_config_keeps_every_rule() {
    let config = canonical07_transition_config();
    assert!(config.validate().is_ok());
    assert!(!config.mode.can_emit_orders() && !config.allow_order_emission);
    assert!(config.roll_target_sessions_before >= 1);
    assert!(config.roll_target_sessions_before <= config.roll_fallback_sessions_before);
}

#[test]
fn anchor_guard_skips_latest_incomplete_session() {
    let mut config = default_config();
    config.min_anchor_bars = 3;
    config.anchor_first_bar_at_or_before = "09:10:00".to_string();
    config.anchor_last_bar_at_or_after = "23:30:00".to_string();
    let strategy = RiAuthor4142LiveStrategy::new(config).expect("strategy");
    // 2026-06-11: three bars, 09:00 to 23:40; 2026-06-12: two bars, 10:00 to 23:30. The
    // anchor for 2026-06-15 is the last eligible session before it, 2026-06-11.
    assert!(!strategy.is_eligible_anchor_session(
        day_number(2026, 6, 12),
        2,
        time_of_day(10, 0, 0),
        time_of_day(23, 30, 0),
    ));
    assert!(strategy.is_eligible_anchor_session(
        day_number(2026, 6, 11),
        3,
        time_of_day(9, 0, 0),
        time_of_day(23, 40, 0),
    ));
}

#[test]
fn canonical07_clock_translation_keeps_late_exits_unchanged() {
    let mut config = default_config();
    config.session_start_time = "07:00:00".to_string();
    config.author41_entry_end_time = "10:00:00".to_string();
    config.author41_time_exit = "20:00:00".to_string();
    config.author42_exit_time = "23:00:00".to_string();
    let strategy = RiAuthor4142LiveStrategy::new(config).expect("strategy");
    assert_eq!(strategy.session_policy.start, time_of_day(7, 0, 0));
    assert_eq!(strategy.author41_entry_end, time_of_day(10, 0, 0));
    assert_eq!(strategy.author41_time_exit, time_of_day(20, 0, 0));
    assert_eq!(strategy.author42_exit_time, time_of_day(23, 0, 0));
}
