use strategy_runtime::moex_author41_42::ShadowRuntimeMode;

#[test]
fn shadow_modes_cannot_emit_orders() {
    assert!(!ShadowRuntimeMode::ReplayOnly.can_emit_orders());
    assert!(!ShadowRuntimeMode::ShadowOnly.can_emit_orders());
}

use strategy_runtime::clock::LocalDateTime;
use strategy_runtime::moex_author41_42::{
    field, parse_side, Instrument, ProfileId, RegularSessionPolicy, ShadowSide, SourceFieldError,
};

fn dt(date: (i32, u32, u32), time: (u32, u32, u32)) -> LocalDateTime {
    let day = chrono::NaiveDate::from_ymd_opt(date.0, date.1, date.2).unwrap().to_epoch_days();
    LocalDateTime { day, secs: time.0 * 3600 + time.1 * 60 + time.2 }
}

#[test]
fn frozen_profiles_match_handoff_ids() {
    assert_eq!(Instrument::Ri.as_str(), "RI");
    assert_eq!(ProfileId::RiAuthor41_42PrimaryComboCost2.as_str(), "ri_author41_42_primary_combo_cost2");
    assert_eq!(Instrument::Imoexf.as_str(), "IMOEXF");
    assert_eq!(
        ProfileId::ImoexfAuthor41_42PrimaryComboCost2.as_str(),
        "imoexf_author41_42_primary_combo_cost2"
    );
}

#[test]
fn feed_guard_accepts_only_regular_weekday_model_bars() {
    let guard = RegularSessionPolicy::moex_10m();
    assert!(guard.is_model_bar(dt((2026, 4, 28), (9, 0, 0))));
    assert!(guard.is_model_bar(dt((2026, 4, 28), (23, 49, 0))));
    assert!(!guard.is_model_bar(dt((2026, 4, 28), (8, 59, 0))));
    assert!(!guard.is_model_bar(dt((2026, 4, 28), (23, 50, 0))));
    assert!(!guard.is_model_bar(dt((2026, 5, 2), (10, 0, 0))));
}

#[test]
fn side_column_accepts_only_long_and_short() {
    assert_eq!(parse_side("long"), Ok(ShadowSide::Long));
    assert_eq!(parse_side("short"), Ok(ShadowSide::Short));
    let err = parse_side("Long").expect_err("case matters");
    assert_eq!(err, SourceFieldError::UnsupportedSide { value: "Long".to_string() });
    assert_eq!(err.message(), "unsupported side \"Long\"");
}

#[test]
fn artifact_fields_are_trimmed_and_nan_is_missing() {
    let headers = vec!["fixed_model_id".to_string(), "side".to_string(), "pnl".to_string(), "side".to_string()];
    let record = vec!["m1".to_string(), "  short ".to_string(), "NaN".to_string(), "long".to_string()];
    assert_eq!(field(&headers, &record, "side"), Some("short".to_string()));
    assert_eq!(field(&headers, &record, "pnl"), None);
    assert_eq!(field(&headers, &record, "missing"), None);
    let short_record = vec!["m1".to_string()];
    assert_eq!(field(&headers, &short_record, "side"), None);
    assert_eq!(field(&headers, &vec!["".to_string()], "fixed_model_id"), None);
}

#[test]
fn imoexf_profile_is_the_passive_short_combo() {
    let p = strategy_runtime::moex_author41_42::ModelProfile::imoexf_passive_shadow_10m();
    assert_eq!(p.profile_id, ProfileId::ImoexfAuthor41_42PrimaryComboCost2);
    assert_eq!(p.instrument, Instrument::Imoexf);
    assert_eq!(p.timeframe, "10m");
    assert_eq!(p.author41_variant, "author41_boundary_short");
    assert_eq!(p.author42_variant, "grid_k0.44_both");
    assert_eq!(p.combo_variant, "imoexf_41short_42best_cost2_nooverlap");
    assert!(p.no_overlap_enforced);
    assert!(p.session_policy.weekdays_only);
    assert_eq!(p.session_policy.start.secs, 9 * 3600);
    assert_eq!(p.session_policy.end.secs, 23 * 3600 + 49 * 60 + 59);
}
