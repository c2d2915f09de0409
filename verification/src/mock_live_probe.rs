use vstd::prelude::*;

use crate::host::{
    ack_is_positive, is_positive_ack, spec_blocks_live_bar, CommandAck, DataOrigin, LiveGate,
    OrderEvent, OrderSide, TradeMode,
};
use crate::text::{
    ascii_lower, ascii_lower_seq, chars_eq_str, chars_of, concat_str, decimal_text, i64_text, lowered,
    normalized, str_eq,
};

verus! {

broadcast use vstd::string::group_string_axioms;

/// What the probe exercises on the live gateway.
#[derive(Debug, Clone, Copy, PartialEq, Eq, Structural)]
pub enum MockLiveProbeMode {
    PlaceMarketOnce,
    PlaceLimitBadPrice,
    PlaceLimitBadStep,
    CancelAfterTerminal,
}

/// The characters that separate the parts of a strategy id.
pub open spec fn is_id_separator(c: char) -> bool {
    c == '.' || c == ':' || c == '/' || c == '-'
}

/// The part of `s` after its last separator (all of `s` when it has none).
pub open spec fn last_segment(s: Seq<char>) -> Seq<char>
    decreases s.len(),
{
    if s.len() == 0 {
        s
    } else if is_id_separator(s.last()) {
        Seq::empty()
    } else {
        last_segment(s.drop_last()).push(s.last())
    }
}

/// The probe mode that a strategy-id suffix names; any other suffix places one market order.
pub open spec fn spec_mode_from_suffix(suffix: Seq<char>) -> MockLiveProbeMode {
    if suffix == "place_limit_bad_price"@ || suffix == "bad_price"@ {
        MockLiveProbeMode::PlaceLimitBadPrice
    } else if suffix == "place_limit_bad_step"@ || suffix == "bad_step"@ {
        MockLiveProbeMode::PlaceLimitBadStep
    } else if suffix == "cancel_after_terminal"@ || suffix == "terminal_cancel"@ {
        MockLiveProbeMode::CancelAfterTerminal
    } else {
        MockLiveProbeMode::PlaceMarketOnce
    }
}

proof fn lemma_last_segment_at(s: Seq<char>, j: int)
    requires
        0 <= j <= s.len(),
        forall|k: int| j <= k < s.len() ==> !is_id_separator(#[trigger] s[k]),
        j == 0 || is_id_separator(s[j - 1]),
    ensures
        last_segment(s) == s.subrange(j, s.len() as int),
    decreases s.len() - j,
{
    if j == s.len() {
        if s.len() == 0 {
            assert(s.subrange(j, s.len() as int) =~= s);
        } else {
            assert(s.subrange(j, s.len() as int) =~= Seq::<char>::empty());
        }
    } else {
        let t = s.drop_last();
        assert forall|k: int| j <= k < t.len() implies !is_id_separator(#[trigger] t[k]) by {
            assert(t[k] == s[k]);
        }
        if j > 0 {
            assert(t[j - 1] == s[j - 1]);
        }
        lemma_last_segment_at(t, j);
        assert(t.subrange(j, t.len() as int).push(s.last()) =~= s.subrange(j, s.len() as int));
    }
}

impl MockLiveProbeMode {
    /// The mode named by the last part of a strategy id, compared in ASCII lower case.
    pub fn parse(strategy_id: &str) -> (m: Self)
        ensures
            m == spec_mode_from_suffix(last_segment(ascii_lower_seq(strategy_id@))),
    {
        let cs = chars_of(strategy_id);
        let n = lowered(&cs);
        let len = n.len();
        let mut j: usize = len;
        while j > 0 && !(n[j - 1] == '.' || n[j - 1] == ':' || n[j - 1] == '/' || n[j - 1] == '-')
            invariant
                j <= len,
                len == n@.len(),
                forall|k: int| j <= k < len ==> !is_id_separator(#[trigger] n@[k]),
            decreases j,
        {
            j = j - 1;
        }
        let mut suffix: Vec<char> = Vec::new();
        let mut k: usize = j;
        while k < len
            invariant
                j <= k <= len,
                len == n@.len(),
                suffix@ == n@.subrange(j as int, k as int),
            decreases len - k,
        {
            suffix.push(n[k]);
            k = k + 1;
            assert(suffix@ =~= n@.subrange(j as int, k as int));
        }
        proof {
            lemma_last_segment_at(n@, j as int);
        }
        if chars_eq_str(&suffix, "place_limit_bad_price") || chars_eq_str(&suffix, "bad_price") {
            MockLiveProbeMode::PlaceLimitBadPrice
        } else if chars_eq_str(&suffix, "place_limit_bad_step") || chars_eq_str(&suffix, "bad_step") {
            MockLiveProbeMode::PlaceLimitBadStep
        } else if chars_eq_str(&suffix, "cancel_after_terminal") || chars_eq_str(
            &suffix,
            "terminal_cancel",
        ) {
            MockLiveProbeMode::CancelAfterTerminal
        } else {
            MockLiveProbeMode::PlaceMarketOnce
        }
    }

    /// The mode's name in logs.
    pub fn as_str(self) -> (s: &'static str)
        ensures
            s@ == spec_mode_name(self),
    {
        match self {
            MockLiveProbeMode::PlaceMarketOnce => "place_market_once",
            MockLiveProbeMode::PlaceLimitBadPrice => "place_limit_bad_price",
            MockLiveProbeMode::PlaceLimitBadStep => "place_limit_bad_step",
            MockLiveProbeMode::CancelAfterTerminal => "cancel_after_terminal",
        }
    }

    /// Whether the primary order of the mode is a market order (whose request id is derived
    /// from the order side) rather than a limit placement.
    pub fn sends_market_order(self) -> (b: bool)
        ensures
            b == (self is PlaceMarketOnce || self is CancelAfterTerminal),
    {
        match self {
            MockLiveProbeMode::PlaceMarketOnce | MockLiveProbeMode::CancelAfterTerminal => true,
            _ => false,
        }
    }
}

/// Settings of the live probe that its decisions read (order size and tick size stay with
/// the caller, which prices the orders).
#[derive(Debug, Clone)]
pub struct MockLiveProbeConfig {
    pub symbol: String,
    pub side: OrderSide,
    pub offset_ticks: i64,
    pub trigger_after_live_bars: u32,
    pub mode: MockLiveProbeMode,
}

/// Where the probe is in its single round.
#[derive(Debug, Clone, Copy, PartialEq, Eq, Structural)]
pub enum ProbePhase {
    Idle,
    WaitingAck,
    WaitingTerminalThenCancel,
    CancelSent,
    Done,
    Blocked,
}

/// The persisted state of the probe.
#[derive(Debug, Clone)]
pub enum ProbeState {
    Idle,
    MarketLivePendingEntry { request_id: u128, side: OrderSide, sent_ts: i64, acked: bool, last_bar_ts: i64 },
    Placed { place_request_id: u128, placed_bar_ts: i64 },
    CancelSent { cancel_request_id: u128, order_id: i64, last_bar_ts: i64 },
    Done { last_bar_ts: i64 },
    Blocked { reason: String, last_bar_ts: i64 },
}

/// The order the probe asks for; prices and sizes are attached by the caller.
#[derive(Debug, Clone, Copy, PartialEq, Eq, Structural)]
pub enum ProbeAction {
    Nothing,
    Market { side: OrderSide },
    Place { side: OrderSide },
    Cancel { order_id: i64 },
}

/// The live probe: one order (and possibly one cancel) on the live gateway.
pub struct MockLiveProbeStrategy {
    pub config: MockLiveProbeConfig,
    pub state: ProbeState,
    pub phase: ProbePhase,
    pub last_processed_bar_ts: Option<i64>,
    pub live_bars_seen: u32,
    pub primary_request_id: Option<u128>,
    pub cancel_request_id: Option<u128>,
    pub broker_order_id: Option<i64>,
}

/// Order states after which the order is finished.
pub open spec fn spec_terminal_status(status: Seq<char>) -> bool {
    let n = normalized(status);
    n == "filled"@ || n == "canceled"@ || n == "cancelled"@ || n == "rejected"@ || n == "expired"@
}

/// The text that a rejected acknowledgement blocks the probe with.
pub open spec fn spec_reject_reason(ack: CommandAck) -> Seq<char> {
    "ack_rejected code="@ + (match ack.error_code {
        Some(c) => c@,
        None => "unknown_code"@,
    }) + " msg="@ + (match ack.error_msg {
        Some(m) => m@,
        None => "unknown_error"@,
    }) + " cws_http="@ + decimal_text(
        match ack.cws_http_code {
            Some(h) => h as int,
            None => 0,
        },
    ) + " cws_msg="@ + (match ack.cws_message {
        Some(m) => m@,
        None => ""@,
    })
}

/// Whether the probe is in the given phase with the given blocked reason.
pub open spec fn blocked_with(s: ProbeState, reason: Seq<char>, ts: i64) -> bool {
    s matches ProbeState::Blocked { reason: r, last_bar_ts } && r@ == reason && last_bar_ts == ts
}

impl MockLiveProbeStrategy {
    /// A fresh probe, idle.
    pub fn new(config: MockLiveProbeConfig) -> (p: Self)
        ensures
            p.config == config,
            p.state is Idle,
            p.phase == ProbePhase::Idle,
            p.last_processed_bar_ts is None,
            p.live_bars_seen == 0,
            p.primary_request_id is None,
            p.cancel_request_id is None,
            p.broker_order_id is None,
    {
        MockLiveProbeStrategy {
            config,
            state: ProbeState::Idle,
            phase: ProbePhase::Idle,
            last_processed_bar_ts: None,
            live_bars_seen: 0,
            primary_request_id: None,
            cancel_request_id: None,
            broker_order_id: None,
        }
    }

    /// Whether a bar must be skipped in a live run (not live data, live orders not allowed
    /// or gateway not ready).
    pub fn should_skip_live_bar(gate: LiveGate, origin: DataOrigin) -> (b: bool)
        ensures
            b == spec_blocks_live_bar(gate, origin),
    {
        gate.blocks_live_bar(origin)
    }

    /// Whether an order status is terminal (trimmed, ASCII lower case).
    pub fn terminal_order_status(status: &str) -> (b: bool)
        ensures
            b == spec_terminal_status(status@),
    {
        let n = crate::text::normalize(status);
        chars_eq_str(&n, "filled") || chars_eq_str(&n, "canceled") || chars_eq_str(&n, "cancelled")
            || chars_eq_str(&n, "rejected") || chars_eq_str(&n, "expired")
    }

    /// The text that a rejected acknowledgement blocks the probe with.
    pub fn reject_reason(ack: &CommandAck) -> (s: String)
        ensures
            s@ == spec_reject_reason(*ack),
    {
        let code = match &ack.error_code {
            Some(c) => c.clone(),
            None => String::from_str("unknown_code"),
        };
        let msg = match &ack.error_msg {
            Some(m) => m.clone(),
            None => String::from_str("unknown_error"),
        };
        let http: i64 = match ack.cws_http_code {
            Some(h) => h,
            None => 0,
        };
        let cws = match &ack.cws_message {
            Some(m) => m.clone(),
            None => String::new(),
        };
        let a = concat_str("ack_rejected code=", code.as_str());
        let b = concat_str(a.as_str(), " msg=");
        let c = concat_str(b.as_str(), msg.as_str());
        let d = concat_str(c.as_str(), " cws_http=");
        let e = concat_str(d.as_str(), i64_text(http).as_str());
        let f = concat_str(e.as_str(), " cws_msg=");
        proof {
            reveal_strlit("");
        }
        let r = concat_str(f.as_str(), cws.as_str());
        assert(r@ =~= spec_reject_reason(*ack));
        r
    }

    fn set_done(&mut self, ts: i64)
        ensures
            final(self).phase == ProbePhase::Done,
            final(self).state == (ProbeState::Done { last_bar_ts: ts }),
            final(self).config == old(self).config,
            final(self).last_processed_bar_ts == old(self).last_processed_bar_ts,
            final(self).live_bars_seen == old(self).live_bars_seen,
            final(self).primary_request_id == old(self).primary_request_id,
            final(self).cancel_request_id == old(self).cancel_request_id,
            final(self).broker_order_id == old(self).broker_order_id,
    {
        self.phase = ProbePhase::Done;
        self.state = ProbeState::Done { last_bar_ts: ts };
    }

    fn set_blocked(&mut self, reason: String, ts: i64)
        ensures
            final(self).phase == ProbePhase::Blocked,
            blocked_with(final(self).state, reason@, ts),
            final(self).config == old(self).config,
            final(self).last_processed_bar_ts == old(self).last_processed_bar_ts,
            final(self).live_bars_seen == old(self).live_bars_seen,
            final(self).primary_request_id == old(self).primary_request_id,
            final(self).cancel_request_id == old(self).cancel_request_id,
            final(self).broker_order_id == old(self).broker_order_id,
    {
        self.phase = ProbePhase::Blocked;
        self.state = ProbeState::Blocked { reason, last_bar_ts: ts };
    }

    fn emit_primary_intent(&mut self, bar_ts: i64, request_id: u128) -> (a: ProbeAction)
        ensures
            final(self).primary_request_id == Some(request_id),
            final(self).config == old(self).config,
            final(self).last_processed_bar_ts == old(self).last_processed_bar_ts,
            final(self).live_bars_seen == old(self).live_bars_seen,
            final(self).cancel_request_id == old(self).cancel_request_id,
            final(self).broker_order_id == old(self).broker_order_id,
            match old(self).config.mode {
                MockLiveProbeMode::PlaceMarketOnce | MockLiveProbeMode::CancelAfterTerminal => {
                    &&& final(self).phase == (if old(self).config.mode is PlaceMarketOnce {
                        ProbePhase::WaitingAck
                    } else {
                        ProbePhase::WaitingTerminalThenCancel
                    })
                    &&& final(self).state == (ProbeState::MarketLivePendingEntry {
                        request_id,
                        side: old(self).config.side,
                        sent_ts: bar_ts,
                        acked: false,
                        last_bar_ts: bar_ts,
                    })
                    &&& a == (ProbeAction::Market { side: old(self).config.side })
                },
                _ => {
                    &&& final(self).phase == ProbePhase::WaitingAck
                    &&& final(self).state == (ProbeState::Placed {
                        place_request_id: request_id,
                        placed_bar_ts: bar_ts,
                    })
                    &&& a == (ProbeAction::Place { side: old(self).config.side })
                },
            },
    {
        self.primary_request_id = Some(request_id);
        match self.config.mode {
            MockLiveProbeMode::PlaceMarketOnce | MockLiveProbeMode::CancelAfterTerminal => {
                self.phase = match self.config.mode {
                    MockLiveProbeMode::PlaceMarketOnce => ProbePhase::WaitingAck,
                    _ => ProbePhase::WaitingTerminalThenCancel,
                };
                self.state = ProbeState::MarketLivePendingEntry {
                    request_id,
                    side: self.config.side,
                    sent_ts: bar_ts,
                    acked: false,
                    last_bar_ts: bar_ts,
                };
                ProbeAction::Market { side: self.config.side }
            },
            _ => {
                self.phase = ProbePhase::WaitingAck;
                self.state = ProbeState::Placed { place_request_id: request_id, placed_bar_ts: bar_ts };
                ProbeAction::Place { side: self.config.side }
            },
        }
    }

    /// Handles a bar. Bars of other symbols and bars not after the last processed one are
    /// ignored; bars that a live run must skip, and every bar outside live trading, are only
    /// marked processed. A live-origin bar is counted, and once enough live bars were seen
    /// an idle probe sends its primary order with the given request id.
    pub fn on_bar(
        &mut self,
        gate: LiveGate,
        bar_symbol: &str,
        bar_ts: i64,
        origin: DataOrigin,
        request_id: u128,
    ) -> (a: ProbeAction)
        ensures
            final(self).config == old(self).config,
            final(self).cancel_request_id == old(self).cancel_request_id,
            final(self).broker_order_id == old(self).broker_order_id,
            ({
                let o = *old(self);
                let f = *final(self);
                let stale = o.last_processed_bar_ts matches Some(l) && bar_ts <= l;
                if bar_symbol@ != o.config.symbol@ || stale {
                    a == ProbeAction::Nothing && f.last_processed_bar_ts == o.last_processed_bar_ts
                        && f.live_bars_seen == o.live_bars_seen && f.phase == o.phase && f.state
                        == o.state && f.primary_request_id == o.primary_request_id
                } else if spec_blocks_live_bar(gate, origin) || gate.trade_mode != TradeMode::Live {
                    a == ProbeAction::Nothing && f.last_processed_bar_ts == Some(bar_ts)
                        && f.live_bars_seen == o.live_bars_seen && f.phase == o.phase && f.state
                        == o.state && f.primary_request_id == o.primary_request_id
                } else {
                    let seen = if origin == DataOrigin::Live && o.live_bars_seen < u32::MAX {
                        (o.live_bars_seen + 1) as u32
                    } else {
                        o.live_bars_seen
                    };
                    let threshold = if o.config.trigger_after_live_bars > 1 {
                        o.config.trigger_after_live_bars
                    } else {
                        1u32
                    };
                    &&& f.live_bars_seen == seen
                    &&& f.last_processed_bar_ts == Some(bar_ts)
                    &&& if o.phase == ProbePhase::Idle && seen >= threshold {
                        &&& f.primary_request_id == Some(request_id)
                        &&& a != ProbeAction::Nothing
                        &&& match o.config.mode {
                            MockLiveProbeMode::PlaceMarketOnce
                            | MockLiveProbeMode::CancelAfterTerminal => a == (ProbeAction::Market {
                                side: o.config.side,
                            }) && f.state == (ProbeState::MarketLivePendingEntry {
                                request_id,
                                side: o.config.side,
                                sent_ts: bar_ts,
                                acked: false,
                                last_bar_ts: bar_ts,
                            }),
                            _ => a == (ProbeAction::Place { side: o.config.side }) && f.state == (
                            ProbeState::Placed { place_request_id: request_id, placed_bar_ts: bar_ts }),
                        }
                        &&& f.phase == (if o.config.mode is CancelAfterTerminal {
                            ProbePhase::WaitingTerminalThenCancel
                        } else {
                            ProbePhase::WaitingAck
                        })
                    } else {
                        a == ProbeAction::Nothing && f.phase == o.phase && f.state == o.state
                            && f.primary_request_id == o.primary_request_id
                    }
                }
            }),
    {
        if !str_eq(bar_symbol, self.config.symbol.as_str()) {
            return ProbeAction::Nothing;
        }
        match self.last_processed_bar_ts {
            Some(last) => {
                if bar_ts <= last {
                    return ProbeAction::Nothing;
                }
            },
            None => {},
        }
        if Self::should_skip_live_bar(gate, origin) {
            self.last_processed_bar_ts = Some(bar_ts);
            return ProbeAction::Nothing;
        }
        if gate.trade_mode != TradeMode::Live {
            self.last_processed_bar_ts = Some(bar_ts);
            return ProbeAction::Nothing;
        }
        if origin == DataOrigin::Live {
            self.live_bars_seen = self.live_bars_seen.saturating_add(1);
        }
        let threshold = if self.config.trigger_after_live_bars > 1 {
            self.config.trigger_after_live_bars
        } else {
            1
        };
        let should_fire = self.phase == ProbePhase::Idle && self.live_bars_seen >= threshold;
        let action = if should_fire {
            self.emit_primary_intent(bar_ts, request_id)
        } else {
            ProbeAction::Nothing
        };
        self.last_processed_bar_ts = Some(bar_ts);
        action
    }

    /// Handles an acknowledgement. The cancel's acknowledgement finishes the probe, or
    /// blocks it when negative. The primary order's acknowledgement records the broker
    /// order id; a positive one finishes a probe waiting for it (unless the probe still has
    /// to cancel after a terminal state), a negative one blocks it. Others are ignored.
    pub fn on_ack(&mut self, ack: &CommandAck) -> (a: ProbeAction)
        ensures
            a == ProbeAction::Nothing,
            final(self).config == old(self).config,
            final(self).last_processed_bar_ts == old(self).last_processed_bar_ts,
            final(self).live_bars_seen == old(self).live_bars_seen,
            final(self).primary_request_id == old(self).primary_request_id,
            final(self).cancel_request_id == old(self).cancel_request_id,
            ({
                let o = *old(self);
                let f = *final(self);
                if o.cancel_request_id == Some(ack.request_id) {
                    f.broker_order_id == o.broker_order_id && if ack_is_positive(ack.status) {
                        f.phase == ProbePhase::Done && f.state == (ProbeState::Done {
                            last_bar_ts: ack.processed_ts_utc,
                        })
                    } else {
                        f.phase == ProbePhase::Blocked && blocked_with(
                            f.state,
                            spec_reject_reason(*ack),
                            ack.processed_ts_utc,
                        )
                    }
                } else if o.primary_request_id != Some(ack.request_id) {
                    f.broker_order_id == o.broker_order_id && f.phase == o.phase && f.state
                        == o.state
                } else {
                    &&& f.broker_order_id == (if ack.broker_order_id is Some {
                        ack.broker_order_id
                    } else {
                        o.broker_order_id
                    })
                    &&& if ack_is_positive(ack.status) {
                        if o.phase == ProbePhase::WaitingAck && o.config.mode
                            != MockLiveProbeMode::CancelAfterTerminal {
                            f.phase == ProbePhase::Done && f.state == (ProbeState::Done {
                                last_bar_ts: ack.processed_ts_utc,
                            })
                        } else {
                            f.phase == o.phase && f.state == o.state
                        }
                    } else {
                        f.phase == ProbePhase::Blocked && blocked_with(
                            f.state,
                            spec_reject_reason(*ack),
                            ack.processed_ts_utc,
                        )
                    }
                }
            }),
    {
        if self.cancel_request_id == Some(ack.request_id) {
            if is_positive_ack(ack.status) {
                self.set_done(ack.processed_ts_utc);
            } else {
                self.set_blocked(Self::reject_reason(ack), ack.processed_ts_utc);
            }
            return ProbeAction::Nothing;
        }
        if self.primary_request_id != Some(ack.request_id) {
            return ProbeAction::Nothing;
        }
        match ack.broker_order_id {
            Some(order_id) => {
                self.broker_order_id = Some(order_id);
            },
            None => {},
        }
        if is_positive_ack(ack.status) {
            if self.phase == ProbePhase::WaitingAck && self.config.mode
                != MockLiveProbeMode::CancelAfterTerminal {
                self.set_done(ack.processed_ts_utc);
            }
        } else {
            self.set_blocked(Self::reject_reason(ack), ack.processed_ts_utc);
        }
        ProbeAction::Nothing
    }

    /// Handles an order update in cancel-after-terminal mode while waiting: an update of the
    /// primary order (by request id or broker order id) that is not terminal marks the market
    /// entry acknowledged; a terminal one sends a cancel with the given request id.
    pub fn on_order(&mut self, ord: &OrderEvent, cancel_request_id: u128) -> (a: ProbeAction)
        ensures
            final(self).config == old(self).config,
            final(self).last_processed_bar_ts == old(self).last_processed_bar_ts,
            final(self).live_bars_seen == old(self).live_bars_seen,
            final(self).primary_request_id == old(self).primary_request_id,
            final(self).broker_order_id == old(self).broker_order_id,
            ({
                let o = *old(self);
                let f = *final(self);
                let matches = (ord.request_id is Some && o.primary_request_id is Some
                    && ord.request_id == o.primary_request_id) || o.broker_order_id == Some(
                    ord.order_id,
                );
                if o.config.mode != MockLiveProbeMode::CancelAfterTerminal || o.phase
                    != ProbePhase::WaitingTerminalThenCancel || !matches {
                    a == ProbeAction::Nothing && f.phase == o.phase && f.state == o.state
                        && f.cancel_request_id == o.cancel_request_id
                } else if !spec_terminal_status(ord.status@) {
                    &&& a == ProbeAction::Nothing
                    &&& f.phase == o.phase
                    &&& f.cancel_request_id == o.cancel_request_id
                    &&& f.state == (match o.state {
                        ProbeState::MarketLivePendingEntry { request_id, side, sent_ts, last_bar_ts, .. } =>
                            ProbeState::MarketLivePendingEntry { request_id, side, sent_ts, acked: true, last_bar_ts },
                        other => other,
                    })
                } else {
                    &&& a == (ProbeAction::Cancel { order_id: ord.order_id })
                    &&& f.phase == ProbePhase::CancelSent
                    &&& f.cancel_request_id == Some(cancel_request_id)
                    &&& f.state == (ProbeState::CancelSent {
                        cancel_request_id,
                        order_id: ord.order_id,
                        last_bar_ts: ord.ts_utc,
                    })
                }
            }),
    {
        if self.config.mode != MockLiveProbeMode::CancelAfterTerminal || self.phase
            != ProbePhase::WaitingTerminalThenCancel {
            return ProbeAction::Nothing;
        }
        let request_matches = match (ord.request_id, self.primary_request_id) {
            (Some(lhs), Some(rhs)) => lhs == rhs,
            _ => false,
        };
        let order_matches = match self.broker_order_id {
            Some(id) => id == ord.order_id,
            None => false,
        };
        if !request_matches && !order_matches {
            return ProbeAction::Nothing;
        }
        if !Self::terminal_order_status(ord.status.as_str()) {
            let next = match &self.state {
                ProbeState::MarketLivePendingEntry { request_id, side, sent_ts, last_bar_ts, .. } =>
                    ProbeState::MarketLivePendingEntry {
                    request_id: *request_id,
                    side: *side,
                    sent_ts: *sent_ts,
                    acked: true,
                    last_bar_ts: *last_bar_ts,
                },
                _ => {
                    return ProbeAction::Nothing;
                },
            };
            self.state = next;
            return ProbeAction::Nothing;
        }
        self.cancel_request_id = Some(cancel_request_id);
        self.phase = ProbePhase::CancelSent;
        self.state = ProbeState::CancelSent {
            cancel_request_id,
            order_id: ord.order_id,
            last_bar_ts: ord.ts_utc,
        };
        ProbeAction::Cancel { order_id: ord.order_id }
    }

    /// Restores a persisted state: the phase follows it (done, blocked, otherwise idle) and
    /// every tracked id is forgotten.
    pub fn set_state(&mut self, state: ProbeState)
        ensures
            final(self).state == state,
            final(self).phase == (match state {
                ProbeState::Done { .. } => ProbePhase::Done,
                ProbeState::Blocked { .. } => ProbePhase::Blocked,
                _ => ProbePhase::Idle,
            }),
            final(self).primary_request_id is None,
            final(self).cancel_request_id is None,
            final(self).broker_order_id is None,
            final(self).config == old(self).config,
            final(self).last_processed_bar_ts == old(self).last_processed_bar_ts,
            final(self).live_bars_seen == old(self).live_bars_seen,
    {
        self.phase = match &state {
            ProbeState::Done { .. } => ProbePhase::Done,
            ProbeState::Blocked { .. } => ProbePhase::Blocked,
            _ => ProbePhase::Idle,
        };
        self.state = state;
        self.primary_request_id = None;
        self.cancel_request_id = None;
        self.broker_order_id = None;
    }
}

/// The name of a probe mode in logs.
pub open spec fn spec_mode_name(mode: MockLiveProbeMode) -> Seq<char> {
    match mode {
        MockLiveProbeMode::PlaceMarketOnce => "place_market_once"@,
        MockLiveProbeMode::PlaceLimitBadPrice => "place_limit_bad_price"@,
        MockLiveProbeMode::PlaceLimitBadStep => "place_limit_bad_step"@,
        MockLiveProbeMode::CancelAfterTerminal => "cancel_after_terminal"@,
    }
}

/// A strategy id that ends in a mode's name, written in any ASCII case, selects that mode,
/// whether the name stands alone or follows a prefix that ends in a separator.
pub proof fn lemma_mode_name_round_trip(prefix: Seq<char>, word: Seq<char>, mode: MockLiveProbeMode)
    requires
        ascii_lower_seq(word) == spec_mode_name(mode),
        prefix.len() == 0 || is_id_separator(prefix.last()),
    ensures
        spec_mode_from_suffix(last_segment(ascii_lower_seq(prefix + word))) == mode,
{
    reveal_strlit("place_market_once");
    reveal_strlit("place_limit_bad_price");
    reveal_strlit("bad_price");
    reveal_strlit("place_limit_bad_step");
    reveal_strlit("bad_step");
    reveal_strlit("cancel_after_terminal");
    reveal_strlit("terminal_cancel");
    let name = spec_mode_name(mode);
    let raw = prefix + word;
    let low = ascii_lower_seq(raw);
    let lp = ascii_lower_seq(prefix);
    assert(forall|i: int| 0 <= i < name.len() ==> ('a' <= #[trigger] name[i] <= 'z') || name[i] == '_');
    assert forall|i: int| 0 <= i < low.len() implies #[trigger] low[i] == (lp + name)[i] by {
        if i >= prefix.len() {
            assert(raw[i] == word[i - prefix.len()]);
            assert(name[i - prefix.len()] == ascii_lower(word[i - prefix.len()]));
        }
    }
    assert(low =~= lp + name);
    let j: int = lp.len() as int;
    if j > 0 {
        assert(low[j - 1] == ascii_lower(prefix.last()));
    }
    assert forall|k: int| j <= k < low.len() implies !is_id_separator(#[trigger] low[k]) by {
        assert(low[k] == name[k - j]);
    }
    lemma_last_segment_at(low, j);
    assert(low.subrange(j, low.len() as int) =~= name);
    assert("place_market_once"@ != "place_limit_bad_price"@ && "place_market_once"@ != "bad_price"@
        && "place_market_once"@ != "place_limit_bad_step"@ && "place_market_once"@ != "bad_step"@
        && "place_market_once"@ != "cancel_after_terminal"@ && "place_market_once"@
        != "terminal_cancel"@) by {
        assert("place_market_once"@[6] != "place_limit_bad_price"@[6]);
        assert("place_market_once"@[0] != "bad_price"@[0]);
        assert("place_market_once"@[6] != "place_limit_bad_step"@[6]);
        assert("place_market_once"@[0] != "bad_step"@[0]);
        assert("place_market_once"@[0] != "cancel_after_terminal"@[0]);
        assert("place_market_once"@[0] != "terminal_cancel"@[0]);
    }
    assert("place_limit_bad_step"@ != "place_limit_bad_price"@ && "place_limit_bad_step"@
        != "bad_price"@) by {
        assert("place_limit_bad_step"@[16] != "place_limit_bad_price"@[16]);
        assert("place_limit_bad_step"@[0] != "bad_price"@[0]);
    }
    assert("cancel_after_terminal"@ != "place_limit_bad_price"@ && "cancel_after_terminal"@
        != "bad_price"@ && "cancel_after_terminal"@ != "place_limit_bad_step"@
        && "cancel_after_terminal"@ != "bad_step"@) by {
        assert("cancel_after_terminal"@[0] != "place_limit_bad_price"@[0]);
        assert("cancel_after_terminal"@[0] != "bad_price"@[0]);
        assert("cancel_after_terminal"@[0] != "place_limit_bad_step"@[0]);
        assert("cancel_after_terminal"@[0] != "bad_step"@[0]);
    }
}

/// A mode's name is written in ASCII lower case.
pub proof fn lemma_mode_name_is_lower(mode: MockLiveProbeMode)
    ensures
        ascii_lower_seq(spec_mode_name(mode)) == spec_mode_name(mode),
{
    reveal_strlit("place_market_once");
    reveal_strlit("place_limit_bad_price");
    reveal_strlit("place_limit_bad_step");
    reveal_strlit("cancel_after_terminal");
    let n = spec_mode_name(mode);
    assert(ascii_lower_seq(n) =~= n);
}

/// Reading back a mode's name gives the mode: `MockLiveProbeMode::parse(m.as_str())` is `m`,
/// and so is the parse of the name after any prefix that ends in a separator.
pub proof fn lemma_parse_of_mode_name(mode: MockLiveProbeMode, prefix: Seq<char>)
    requires
        prefix.len() == 0 || is_id_separator(prefix.last()),
    ensures
        spec_mode_from_suffix(last_segment(ascii_lower_seq(spec_mode_name(mode)))) == mode,
        spec_mode_from_suffix(last_segment(ascii_lower_seq(prefix + spec_mode_name(mode)))) == mode,
{
    lemma_mode_name_is_lower(mode);
    lemma_mode_name_round_trip(prefix, spec_mode_name(mode), mode);
    lemma_mode_name_round_trip(Seq::empty(), spec_mode_name(mode), mode);
    assert(Seq::<char>::empty() + spec_mode_name(mode) =~= spec_mode_name(mode));
}

/// Distinct modes have distinct names.
pub proof fn lemma_mode_names_distinct(a: MockLiveProbeMode, b: MockLiveProbeMode)
    requires
        spec_mode_name(a) == spec_mode_name(b),
    ensures
        a == b,
{
    lemma_parse_of_mode_name(a, Seq::empty());
    lemma_parse_of_mode_name(b, Seq::empty());
}

} // verus!
