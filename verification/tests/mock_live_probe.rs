use strategy_runtime::mock_live_probe::MockLiveProbeMode;

#[test]
fn parses_mode_from_strategy_id_suffix() {
    assert_eq!(
        MockLiveProbeMode::parse("mock_live_probe.place_limit_bad_price"),
        MockLiveProbeMode::PlaceLimitBadPrice
    );
    assert_eq!(
        MockLiveProbeMode::parse("mock_live_probe:bad_step"),
        MockLiveProbeMode::PlaceLimitBadStep
    );
    assert_eq!(
        MockLiveProbeMode::parse("mock_live_probe-terminal_cancel"),
        MockLiveProbeMode::CancelAfterTerminal
    );
}

use strategy_runtime::host::{
    AckStatus, CommandAck, DataOrigin, GatewayPhase, LiveGate, OrderEvent, OrderSide, TradeMode,
};
use strategy_runtime::mock_live_probe::{
    MockLiveProbeConfig, MockLiveProbeStrategy, ProbeAction, ProbePhase, ProbeState,
};

fn gate() -> LiveGate {
    LiveGate { trade_mode: TradeMode::Live, allow_live_orders: true, gateway_phase: GatewayPhase::LiveReady }
}

fn probe(mode: MockLiveProbeMode) -> MockLiveProbeStrategy {
    MockLiveProbeStrategy::new(MockLiveProbeConfig {
        symbol: "IMOEXF".to_string(),
        side: OrderSide::Buy,
        offset_ticks: 0,
        trigger_after_live_bars: 1,
        mode,
    })
}

#[test]
fn emits_bad_step_limit_once_on_first_live_bar() {
    let mut s = probe(MockLiveProbeMode::PlaceLimitBadStep);
    let first = s.on_bar(gate(), "IMOEXF", 1_700_000_000, DataOrigin::Live, 5);
    assert_eq!(first, ProbeAction::Place { side: OrderSide::Buy });
    let second = s.on_bar(gate(), "IMOEXF", 1_700_000_060, DataOrigin::Live, 6);
    assert_eq!(second, ProbeAction::Nothing);
    assert_eq!(s.primary_request_id, Some(5));
}

#[test]
fn bare_mode_names_and_unknown_suffixes_parse() {
    for mode in [
        MockLiveProbeMode::PlaceMarketOnce,
        MockLiveProbeMode::PlaceLimitBadPrice,
        MockLiveProbeMode::PlaceLimitBadStep,
        MockLiveProbeMode::CancelAfterTerminal,
    ] {
        assert_eq!(MockLiveProbeMode::parse(mode.as_str()), mode);
        assert_eq!(MockLiveProbeMode::parse(&format!("probe/{}", mode.as_str())), mode);
    }
    assert_eq!(MockLiveProbeMode::parse("mock_live_probe"), MockLiveProbeMode::PlaceMarketOnce);
    assert_eq!(MockLiveProbeMode::parse("probe.BAD_PRICE"), MockLiveProbeMode::PlaceLimitBadPrice);
}

#[test]
fn history_bars_and_other_symbols_do_not_fire() {
    let mut s = probe(MockLiveProbeMode::PlaceMarketOnce);
    assert_eq!(s.on_bar(gate(), "SBER", 10, DataOrigin::Live, 1), ProbeAction::Nothing);
    assert_eq!(s.on_bar(gate(), "IMOEXF", 10, DataOrigin::History, 1), ProbeAction::Nothing);
    assert_eq!(s.live_bars_seen, 0);
    assert_eq!(s.on_bar(gate(), "IMOEXF", 20, DataOrigin::Live, 2), ProbeAction::Market { side: OrderSide::Buy });
    assert!(matches!(s.state, ProbeState::MarketLivePendingEntry { request_id: 2, .. }));
}

#[test]
fn positive_ack_finishes_market_probe() {
    let mut s = probe(MockLiveProbeMode::PlaceMarketOnce);
    s.on_bar(gate(), "IMOEXF", 20, DataOrigin::Live, 2);
    let ack = CommandAck {
        request_id: 2,
        status: AckStatus::Accepted,
        broker_order_id: Some(900),
        processed_ts_utc: 21,
        error_code: None,
        error_msg: None,
        cws_http_code: None,
        cws_message: None,
    };
    assert_eq!(s.on_ack(&ack), ProbeAction::Nothing);
    assert_eq!(s.phase, ProbePhase::Done);
    assert_eq!(s.broker_order_id, Some(900));
}

#[test]
fn rejected_ack_blocks_with_broker_details() {
    let mut s = probe(MockLiveProbeMode::PlaceLimitBadPrice);
    s.on_bar(gate(), "IMOEXF", 20, DataOrigin::Live, 2);
    let ack = CommandAck {
        request_id: 2,
        status: AckStatus::Rejected,
        broker_order_id: None,
        processed_ts_utc: 21,
        error_code: Some("E1".to_string()),
        error_msg: None,
        cws_http_code: Some(400),
        cws_message: Some("bad price".to_string()),
    };
    s.on_ack(&ack);
    match &s.state {
        ProbeState::Blocked { reason, last_bar_ts } => {
            assert_eq!(reason, "ack_rejected code=E1 msg=unknown_error cws_http=400 cws_msg=bad price");
            assert_eq!(*last_bar_ts, 21);
        }
        other => panic!("unexpected state {other:?}"),
    }
}

#[test]
fn cancel_after_terminal_cancels_once_order_is_done() {
    let mut s = probe(MockLiveProbeMode::CancelAfterTerminal);
    s.on_bar(gate(), "IMOEXF", 20, DataOrigin::Live, 2);
    let ord = OrderEvent {
        request_id: Some(2),
        order_id: 77,
        symbol: "IMOEXF".to_string(),
        status: "Filled".to_string(),
        ts_utc: 22,
    };
    assert_eq!(s.on_order(&ord, 3), ProbeAction::Cancel { order_id: 77 });
    assert_eq!(s.cancel_request_id, Some(3));
    assert_eq!(s.phase, ProbePhase::CancelSent);
}

#[test]
fn market_modes_send_a_market_primary_order() {
    assert!(MockLiveProbeMode::PlaceMarketOnce.sends_market_order());
    assert!(MockLiveProbeMode::CancelAfterTerminal.sends_market_order());
    assert!(!MockLiveProbeMode::PlaceLimitBadPrice.sends_market_order());
    assert!(!MockLiveProbeMode::PlaceLimitBadStep.sends_market_order());
}

#[test]
fn mode_names_read_back_in_any_case_with_or_without_prefix() {
    for mode in [
        MockLiveProbeMode::PlaceMarketOnce,
        MockLiveProbeMode::PlaceLimitBadPrice,
        MockLiveProbeMode::PlaceLimitBadStep,
        MockLiveProbeMode::CancelAfterTerminal,
    ] {
        assert_eq!(MockLiveProbeMode::parse(mode.as_str()), mode);
        assert_eq!(MockLiveProbeMode::parse(&format!("acct:probe.{}", mode.as_str())), mode);
        assert_eq!(MockLiveProbeMode::parse(&mode.as_str().to_ascii_uppercase()), mode);
    }
}
