use vstd::prelude::*;

use crate::host::{
    ack_is_positive, is_positive_ack, opposite, opposite_side, spec_blocks_live_bar, AckStatus,
    CloseTrigger, DataOrigin, GatewayPhase, LiveGate, OrderSide, TradeMode,
};
use crate::sat::{clamp_i64, sat_sub_i64};
use crate::text::{concat_str, decimal_text, str_eq, u64_text};

verus! {

broadcast use vstd::string::group_string_axioms;

/// How the round-trip strategy sends its live orders.
#[derive(Debug, Clone, Copy, PartialEq, Eq, Structural)]
pub enum MarketBuyAndCloseLiveOrderStyle {
    Market,
    MarketableLimit,
}

/// The configuration word of a live order style.
pub open spec fn spec_style_word(style: MarketBuyAndCloseLiveOrderStyle) -> Seq<char> {
    match style {
        MarketBuyAndCloseLiveOrderStyle::Market => "market"@,
        MarketBuyAndCloseLiveOrderStyle::MarketableLimit => "marketable_limit"@,
    }
}

impl Default for MarketBuyAndCloseLiveOrderStyle {
    /// Plain market orders.
    fn default() -> (s: Self)
        ensures
            s == MarketBuyAndCloseLiveOrderStyle::Market,
    {
        MarketBuyAndCloseLiveOrderStyle::Market
    }
}

impl MarketBuyAndCloseLiveOrderStyle {
    /// The configuration word of the style.
    pub fn as_str(self) -> (s: &'static str)
        ensures
            s@ == spec_style_word(self),
    {
        match self {
            MarketBuyAndCloseLiveOrderStyle::Market => "market",
            MarketBuyAndCloseLiveOrderStyle::MarketableLimit => "marketable_limit",
        }
    }
}

/// Ticks by which a marketable limit order crosses the reference price: the configured
/// offset (never below zero) and one more, so that rounding on the gateway cannot leave
/// the order passive.
pub fn aggressive_ticks(offset_ticks: i64) -> (t: i64)
    requires
        offset_ticks < i64::MAX,
    ensures
        t == (if offset_ticks > 0 { offset_ticks as int } else { 0 }) + 1,
{
    let base: i64 = if offset_ticks > 0 {
        offset_ticks
    } else {
        0
    };
    base + 1
}

/// Settings of the round-trip strategy. Quantities are whole lots.
#[derive(Debug, Clone)]
pub struct MarketBuyAndCloseConfig {
    pub symbol: String,
    pub qty: u64,
    pub side: OrderSide,
    pub live_order_style: MarketBuyAndCloseLiveOrderStyle,
    pub marketable_limit_offset_ticks: i64,
    pub close_trigger: CloseTrigger,
    pub entry_ack_timeout_ms: u64,
    pub entry_fill_timeout_ms: u64,
    pub exit_ack_timeout_ms: u64,
    pub exit_fill_timeout_ms: u64,
}

/// Why a live position is being flattened.
#[derive(Debug, Clone, Copy, PartialEq, Eq, Structural)]
pub enum ExitReason {
    NextBar,
    PositionUpdate,
}

/// The word recorded for an exit reason.
pub open spec fn spec_exit_reason_word(r: ExitReason) -> Seq<char> {
    match r {
        ExitReason::NextBar => "next_bar"@,
        ExitReason::PositionUpdate => "position_update"@,
    }
}

impl ExitReason {
    /// The word recorded for the reason.
    pub fn as_str(self) -> (s: &'static str)
        ensures
            s@ == spec_exit_reason_word(self),
    {
        match self {
            ExitReason::NextBar => "next_bar",
            ExitReason::PositionUpdate => "position_update",
        }
    }
}

/// Why the strategy stopped trading.
#[derive(Debug, Clone, Copy, PartialEq, Eq, Structural)]
pub enum BlockReason {
    EntryAckTimeout { limit_ms: u64 },
    EntryFillTimeout { limit_ms: u64 },
    ExitAckTimeout { limit_ms: u64 },
    ExitFillTimeout { limit_ms: u64 },
    EntryRejected { status: AckStatus },
    ExitRejected { status: AckStatus },
}

/// The name under which an acknowledgement status is printed.
pub open spec fn spec_status_name(status: AckStatus) -> Seq<char> {
    match status {
        AckStatus::Accepted => "Accepted"@,
        AckStatus::Confirmed => "Confirmed"@,
        AckStatus::Duplicate => "Duplicate"@,
        AckStatus::Rejected => "Rejected"@,
        AckStatus::Expired => "Expired"@,
        AckStatus::Error => "Error"@,
    }
}

/// The text of a block reason.
pub open spec fn spec_block_message(r: BlockReason) -> Seq<char> {
    match r {
        BlockReason::EntryAckTimeout { limit_ms } => "entry_ack_timeout_ms exceeded: "@ + decimal_text(
            limit_ms as int,
        ),
        BlockReason::EntryFillTimeout { limit_ms } => "entry_fill_timeout_ms exceeded: "@
            + decimal_text(limit_ms as int),
        BlockReason::ExitAckTimeout { limit_ms } => "exit_ack_timeout_ms exceeded: "@ + decimal_text(
            limit_ms as int,
        ),
        BlockReason::ExitFillTimeout { limit_ms } => "exit_fill_timeout_ms exceeded: "@
            + decimal_text(limit_ms as int),
        BlockReason::EntryRejected { status } => "entry_rejected status="@ + spec_status_name(
            status,
        ),
        BlockReason::ExitRejected { status } => "exit_rejected status="@ + spec_status_name(
            status,
        ),
    }
}

fn status_name(status: AckStatus) -> (s: &'static str)
    ensures
        s@ == spec_status_name(status),
{
    match status {
        AckStatus::Accepted => "Accepted",
        AckStatus::Confirmed => "Confirmed",
        AckStatus::Duplicate => "Duplicate",
        AckStatus::Rejected => "Rejected",
        AckStatus::Expired => "Expired",
        AckStatus::Error => "Error",
    }
}

impl BlockReason {
    /// The text of the reason.
    pub fn message(&self) -> (s: String)
        ensures
            s@ == spec_block_message(*self),
    {
        match *self {
            BlockReason::EntryAckTimeout { limit_ms } => {
                let n = u64_text(limit_ms);
                concat_str("entry_ack_timeout_ms exceeded: ", n.as_str())
            },
            BlockReason::EntryFillTimeout { limit_ms } => {
                let n = u64_text(limit_ms);
                concat_str("entry_fill_timeout_ms exceeded: ", n.as_str())
            },
            BlockReason::ExitAckTimeout { limit_ms } => {
                let n = u64_text(limit_ms);
                concat_str("exit_ack_timeout_ms exceeded: ", n.as_str())
            },
            BlockReason::ExitFillTimeout { limit_ms } => {
                let n = u64_text(limit_ms);
                concat_str("exit_fill_timeout_ms exceeded: ", n.as_str())
            },
            BlockReason::EntryRejected { status } => concat_str(
                "entry_rejected status=",
                status_name(status),
            ),
            BlockReason::ExitRejected { status } => concat_str(
                "exit_rejected status=",
                status_name(status),
            ),
        }
    }
}

/// Where the round trip stands. Paper and backtest runs go through the `MarketBuy*` and
/// `MarketCloseSent` states; live runs through the `MarketLive*` states.
#[derive(Debug, Clone, Copy, PartialEq, Eq, Structural)]
pub enum MarketBuyAndCloseState {
    Idle,
    MarketBuyPending {
        buy_request_id: u128,
        baseline_qty: Option<i64>,
        close_trigger: CloseTrigger,
        pending_bar_ts: i64,
        last_bar_ts: i64,
    },
    MarketBuySent {
        buy_request_id: u128,
        baseline_qty: Option<i64>,
        close_trigger: CloseTrigger,
        buy_bar_ts: i64,
        last_bar_ts: i64,
    },
    MarketCloseSent { close_request_id: u128, baseline_qty: Option<i64>, last_bar_ts: i64 },
    MarketLivePendingEntry {
        request_guid: u128,
        side: OrderSide,
        qty: u64,
        baseline_qty: i64,
        close_trigger: CloseTrigger,
        sent_ts: i64,
        acked: bool,
        entry_confirmed_ts: Option<i64>,
        last_bar_ts: i64,
    },
    MarketLiveInPosition {
        side: OrderSide,
        qty: u64,
        baseline_qty: i64,
        close_trigger: CloseTrigger,
        opened_ts: i64,
        last_bar_ts: i64,
    },
    MarketLivePendingExit {
        request_guid: u128,
        reason: ExitReason,
        side: OrderSide,
        qty: u64,
        baseline_qty: i64,
        sent_ts: i64,
        acked: bool,
        last_bar_ts: i64,
    },
    Blocked { reason: BlockReason, last_bar_ts: i64 },
    Done { last_bar_ts: i64 },
}

/// An order the strategy sends. A marketable limit order is priced by the caller from
/// the reference price; a paper market order fills at the open of the bar.
#[derive(Debug, Clone, Copy, PartialEq, Eq, Structural)]
pub enum MarketBuyAndCloseOrder {
    Market { side: OrderSide, qty: u64, fill_at_bar_open: bool },
    MarketableLimit { side: OrderSide, qty: u64 },
}

/// The request ids that the host derives for the current event: for a live order on the
/// configured side and on the closing side, and for the paper buy and close.
#[derive(Debug, Clone, Copy, PartialEq, Eq, Structural)]
pub struct RequestIds {
    pub live_open: u128,
    pub live_close: u128,
    pub paper_buy: u128,
    pub paper_close: u128,
}

/// The round-trip strategy: buy (or sell) once, then close on the next bar or on the
/// position update.
#[derive(Debug)]
pub struct MarketBuyAndCloseStrategy {
    pub config: MarketBuyAndCloseConfig,
    pub state: MarketBuyAndCloseState,
    pub last_processed_bar_ts: Option<i64>,
}

/// The live order of the configured style.
pub open spec fn spec_live_order(
    cfg: MarketBuyAndCloseConfig,
    side: OrderSide,
    qty: u64,
) -> MarketBuyAndCloseOrder {
    match cfg.live_order_style {
        MarketBuyAndCloseLiveOrderStyle::Market => MarketBuyAndCloseOrder::Market {
            side,
            qty,
            fill_at_bar_open: false,
        },
        MarketBuyAndCloseLiveOrderStyle::MarketableLimit => MarketBuyAndCloseOrder::MarketableLimit {
            side,
            qty,
        },
    }
}

/// Milliseconds since `sent_ts`, with saturating `i64` arithmetic and then read as a
/// `u64` (a negative difference wraps to a huge count).
pub open spec fn spec_elapsed_ms(now_ts: i64, sent_ts: i64) -> int {
    let d = clamp_i64(clamp_i64(now_ts * 1000) - clamp_i64(sent_ts * 1000));
    if d >= 0 {
        d
    } else {
        d + 0x1_0000_0000_0000_0000
    }
}

/// The live state after the acknowledgement and fill deadlines are checked at `now_ts`.
pub open spec fn spec_after_timeouts(
    s: MarketBuyAndCloseState,
    cfg: MarketBuyAndCloseConfig,
    now_ts: i64,
    bar_ts: i64,
) -> MarketBuyAndCloseState {
    match s {
        MarketBuyAndCloseState::MarketLivePendingEntry {
            sent_ts,
            acked,
            entry_confirmed_ts,
            ..
        } => {
            let e = spec_elapsed_ms(now_ts, sent_ts);
            if !acked && e > cfg.entry_ack_timeout_ms {
                MarketBuyAndCloseState::Blocked {
                    reason: BlockReason::EntryAckTimeout { limit_ms: cfg.entry_ack_timeout_ms },
                    last_bar_ts: bar_ts,
                }
            } else if entry_confirmed_ts is None && e > cfg.entry_fill_timeout_ms {
                MarketBuyAndCloseState::Blocked {
                    reason: BlockReason::EntryFillTimeout { limit_ms: cfg.entry_fill_timeout_ms },
                    last_bar_ts: bar_ts,
                }
            } else {
                s
            }
        },
        MarketBuyAndCloseState::MarketLivePendingExit { sent_ts, acked, .. } => {
            let e = spec_elapsed_ms(now_ts, sent_ts);
            if !acked && e > cfg.exit_ack_timeout_ms {
                MarketBuyAndCloseState::Blocked {
                    reason: BlockReason::ExitAckTimeout { limit_ms: cfg.exit_ack_timeout_ms },
                    last_bar_ts: bar_ts,
                }
            } else if e > cfg.exit_fill_timeout_ms {
                MarketBuyAndCloseState::Blocked {
                    reason: BlockReason::ExitFillTimeout { limit_ms: cfg.exit_fill_timeout_ms },
                    last_bar_ts: bar_ts,
                }
            } else {
                s
            }
        },
        _ => s,
    }
}

/// One bar of a paper or backtest run: the first bar arms the buy, the next bar sends it
/// at its open, the bar after that sends the close; later bars only move the bar clock.
pub open spec fn spec_paper_step(
    s: MarketBuyAndCloseState,
    cfg: MarketBuyAndCloseConfig,
    bar_ts: i64,
    position_qty: Option<i64>,
    ids: RequestIds,
) -> (MarketBuyAndCloseState, Option<MarketBuyAndCloseOrder>) {
    match s {
        MarketBuyAndCloseState::Idle => (
            MarketBuyAndCloseState::MarketBuyPending {
                buy_request_id: ids.paper_buy,
                baseline_qty: position_qty,
                close_trigger: CloseTrigger::NextBar,
                pending_bar_ts: bar_ts,
                last_bar_ts: bar_ts,
            },
            None,
        ),
        MarketBuyAndCloseState::MarketBuyPending {
            buy_request_id,
            baseline_qty,
            close_trigger,
            pending_bar_ts,
            ..
        } => if bar_ts > pending_bar_ts {
            (
                MarketBuyAndCloseState::MarketBuySent {
                    buy_request_id,
                    baseline_qty,
                    close_trigger,
                    buy_bar_ts: bar_ts,
                    last_bar_ts: bar_ts,
                },
                Some(
                    MarketBuyAndCloseOrder::Market {
                        side: cfg.side,
                        qty: cfg.qty,
                        fill_at_bar_open: true,
                    },
                ),
            )
        } else {
            (
                MarketBuyAndCloseState::MarketBuyPending {
                    buy_request_id,
                    baseline_qty,
                    close_trigger,
                    pending_bar_ts,
                    last_bar_ts: bar_ts,
                },
                None,
            )
        },
        MarketBuyAndCloseState::MarketBuySent {
            buy_request_id,
            baseline_qty,
            close_trigger,
            buy_bar_ts,
            ..
        } => if bar_ts > buy_bar_ts {
            (
                MarketBuyAndCloseState::MarketCloseSent {
                    close_request_id: ids.paper_close,
                    baseline_qty,
                    last_bar_ts: bar_ts,
                },
                Some(
                    MarketBuyAndCloseOrder::Market {
                        side: opposite_side(cfg.side),
                        qty: cfg.qty,
                        fill_at_bar_open: true,
                    },
                ),
            )
        } else {
            (
                MarketBuyAndCloseState::MarketBuySent {
                    buy_request_id,
                    baseline_qty,
                    close_trigger,
                    buy_bar_ts,
                    last_bar_ts: bar_ts,
                },
                None,
            )
        },
        MarketBuyAndCloseState::MarketCloseSent { close_request_id, baseline_qty, .. } => (
            MarketBuyAndCloseState::MarketCloseSent {
                close_request_id,
                baseline_qty,
                last_bar_ts: bar_ts,
            },
            None,
        ),
        MarketBuyAndCloseState::Done { .. } => (
            MarketBuyAndCloseState::Done { last_bar_ts: bar_ts },
            None,
        ),
        MarketBuyAndCloseState::Blocked { reason, .. } => (
            MarketBuyAndCloseState::Blocked { reason, last_bar_ts: bar_ts },
            None,
        ),
        _ => (s, None),
    }
}

/// `s` with its bar clock moved to `bar_ts`, for the states that keep one.
pub open spec fn spec_with_bar_ts(s: MarketBuyAndCloseState, bar_ts: i64) -> MarketBuyAndCloseState {
    match s {
        MarketBuyAndCloseState::MarketLivePendingEntry {
            request_guid,
            side,
            qty,
            baseline_qty,
            close_trigger,
            sent_ts,
            acked,
            entry_confirmed_ts,
            ..
        } => MarketBuyAndCloseState::MarketLivePendingEntry {
            request_guid,
            side,
            qty,
            baseline_qty,
            close_trigger,
            sent_ts,
            acked,
            entry_confirmed_ts,
            last_bar_ts: bar_ts,
        },
        MarketBuyAndCloseState::MarketLivePendingExit {
            request_guid,
            reason,
            side,
            qty,
            baseline_qty,
            sent_ts,
            acked,
            ..
        } => MarketBuyAndCloseState::MarketLivePendingExit {
            request_guid,
            reason,
            side,
            qty,
            baseline_qty,
            sent_ts,
            acked,
            last_bar_ts: bar_ts,
        },
        MarketBuyAndCloseState::Blocked { reason, .. } => MarketBuyAndCloseState::Blocked {
            reason,
            last_bar_ts: bar_ts,
        },
        MarketBuyAndCloseState::Done { .. } => MarketBuyAndCloseState::Done { last_bar_ts: bar_ts },
        _ => s,
    }
}

/// One bar of a live run, after the deadlines were checked: from idle the entry goes out
/// once the host has seen an earlier bar; a position held with the next-bar trigger is
/// flattened on a later bar; pending and final states only move their bar clock.
pub open spec fn spec_live_step(
    s: MarketBuyAndCloseState,
    cfg: MarketBuyAndCloseConfig,
    bar_ts: i64,
    now_ts: i64,
    host_last_bar_ts: Option<i64>,
    position_qty: Option<i64>,
    ids: RequestIds,
) -> (MarketBuyAndCloseState, Option<MarketBuyAndCloseOrder>) {
    match s {
        MarketBuyAndCloseState::Idle => if host_last_bar_ts is None {
            (s, None)
        } else {
            (
                MarketBuyAndCloseState::MarketLivePendingEntry {
                    request_guid: ids.live_open,
                    side: cfg.side,
                    qty: cfg.qty,
                    baseline_qty: match position_qty {
                        Some(q) => q,
                        None => 0,
                    },
                    close_trigger: cfg.close_trigger,
                    sent_ts: now_ts,
                    acked: false,
                    entry_confirmed_ts: None,
                    last_bar_ts: bar_ts,
                },
                Some(spec_live_order(cfg, cfg.side, cfg.qty)),
            )
        },
        MarketBuyAndCloseState::MarketLiveInPosition {
            close_trigger,
            opened_ts,
            baseline_qty,
            ..
        } => if close_trigger == CloseTrigger::NextBar && bar_ts > opened_ts {
            (
                MarketBuyAndCloseState::MarketLivePendingExit {
                    request_guid: ids.live_close,
                    reason: ExitReason::NextBar,
                    side: opposite_side(cfg.side),
                    qty: cfg.qty,
                    baseline_qty,
                    sent_ts: now_ts,
                    acked: false,
                    last_bar_ts: bar_ts,
                },
                Some(spec_live_order(cfg, opposite_side(cfg.side), cfg.qty)),
            )
        } else {
            (s, None)
        },
        _ => (spec_with_bar_ts(s, bar_ts), None),
    }
}

/// The state after an acknowledgement: one that matches the pending entry or exit marks
/// it acknowledged when positive and blocks the strategy otherwise.
pub open spec fn spec_after_ack(
    s: MarketBuyAndCloseState,
    request_id: u128,
    status: AckStatus,
    processed_ts: i64,
) -> MarketBuyAndCloseState {
    match s {
        MarketBuyAndCloseState::MarketLivePendingEntry {
            request_guid,
            side,
            qty,
            baseline_qty,
            close_trigger,
            sent_ts,
            entry_confirmed_ts,
            last_bar_ts,
            ..
        } => if request_id != request_guid {
            s
        } else if ack_is_positive(status) {
            MarketBuyAndCloseState::MarketLivePendingEntry {
                request_guid,
                side,
                qty,
                baseline_qty,
                close_trigger,
                sent_ts,
                acked: true,
                entry_confirmed_ts,
                last_bar_ts,
            }
        } else {
            MarketBuyAndCloseState::Blocked {
                reason: BlockReason::EntryRejected { status },
                last_bar_ts: processed_ts,
            }
        },
        MarketBuyAndCloseState::MarketLivePendingExit {
            request_guid,
            reason,
            side,
            qty,
            baseline_qty,
            sent_ts,
            last_bar_ts,
            ..
        } => if request_id != request_guid {
            s
        } else if ack_is_positive(status) {
            MarketBuyAndCloseState::MarketLivePendingExit {
                request_guid,
                reason,
                side,
                qty,
                baseline_qty,
                sent_ts,
                acked: true,
                last_bar_ts,
            }
        } else {
            MarketBuyAndCloseState::Blocked {
                reason: BlockReason::ExitRejected { status },
                last_bar_ts: processed_ts,
            }
        },
        _ => s,
    }
}

/// The magnitude of a position, in lots.
pub open spec fn abs_qty(q: i64) -> int {
    if q < 0 {
        -q
    } else {
        q as int
    }
}

/// A position update for the configured symbol: the broker's position (in lots) decides
/// whether the entry filled, whether the position is gone, and whether the exit filled.
pub open spec fn spec_position_step(
    s: MarketBuyAndCloseState,
    cfg: MarketBuyAndCloseConfig,
    pos_qty: i64,
    event_ts: i64,
    now_ts: i64,
    ids: RequestIds,
) -> (MarketBuyAndCloseState, Option<MarketBuyAndCloseOrder>) {
    match s {
        MarketBuyAndCloseState::MarketLivePendingEntry { baseline_qty, close_trigger, .. } => if pos_qty
            != baseline_qty {
            (
                MarketBuyAndCloseState::MarketLiveInPosition {
                    side: cfg.side,
                    qty: cfg.qty,
                    baseline_qty,
                    close_trigger,
                    opened_ts: event_ts,
                    last_bar_ts: event_ts,
                },
                None,
            )
        } else {
            (spec_with_bar_ts(s, event_ts), None)
        },
        MarketBuyAndCloseState::MarketLiveInPosition { baseline_qty, close_trigger, .. } => if pos_qty
            == baseline_qty {
            (MarketBuyAndCloseState::Idle, None)
        } else if close_trigger == CloseTrigger::PositionUpdate {
            (
                MarketBuyAndCloseState::MarketLivePendingExit {
                    request_guid: ids.live_close,
                    reason: ExitReason::PositionUpdate,
                    side: opposite_side(cfg.side),
                    qty: cfg.qty,
                    baseline_qty,
                    sent_ts: now_ts,
                    acked: false,
                    last_bar_ts: event_ts,
                },
                Some(spec_live_order(cfg, opposite_side(cfg.side), cfg.qty)),
            )
        } else {
            (s, None)
        },
        MarketBuyAndCloseState::MarketLivePendingExit { baseline_qty, .. } => if pos_qty
            == baseline_qty {
            (MarketBuyAndCloseState::Done { last_bar_ts: event_ts }, None)
        } else {
            (spec_with_bar_ts(s, event_ts), None)
        },
        MarketBuyAndCloseState::Idle => if pos_qty != 0 {
            (
                MarketBuyAndCloseState::MarketLiveInPosition {
                    side: cfg.side,
                    qty: abs_qty(pos_qty) as u64,
                    baseline_qty: 0,
                    close_trigger: cfg.close_trigger,
                    opened_ts: event_ts,
                    last_bar_ts: event_ts,
                },
                None,
            )
        } else {
            (s, None)
        },
        _ => (s, None),
    }
}

fn saturating_ms(ts: i64) -> (r: i64)
    ensures
        r == clamp_i64(ts * 1000),
{
    if ts > 9_223_372_036_854_775 {
        i64::MAX
    } else if ts < -9_223_372_036_854_775 {
        i64::MIN
    } else {
        ts * 1000
    }
}

fn elapsed_ms(now_ts: i64, sent_ts: i64) -> (e: u64)
    ensures
        e == spec_elapsed_ms(now_ts, sent_ts),
{
    let d = sat_sub_i64(saturating_ms(now_ts), saturating_ms(sent_ts));
    if d >= 0 {
        d as u64
    } else {
        let m: u64 = (-(d + 1)) as u64;
        u64::MAX - m
    }
}

impl MarketBuyAndCloseStrategy {
    /// A strategy that has not traded yet.
    pub fn new(config: MarketBuyAndCloseConfig) -> (s: Self)
        ensures
            s.config == config,
            s.state == MarketBuyAndCloseState::Idle,
            s.last_processed_bar_ts is None,
    {
        MarketBuyAndCloseStrategy {
            config,
            state: MarketBuyAndCloseState::Idle,
            last_processed_bar_ts: None,
        }
    }

    /// The side that closes the configured position.
    pub fn close_side(&self) -> (s: OrderSide)
        ensures
            s == opposite_side(self.config.side),
    {
        opposite(self.config.side)
    }

    /// Whether a bar must be skipped in a live run.
    pub fn should_block_live(&self, gate: LiveGate, origin: DataOrigin) -> (b: bool)
        ensures
            b == spec_blocks_live_bar(gate, origin),
    {
        gate.blocks_live_bar(origin)
    }

    fn live_order(&self, side: OrderSide) -> (o: MarketBuyAndCloseOrder)
        ensures
            o == spec_live_order(self.config, side, self.config.qty),
    {
        match self.config.live_order_style {
            MarketBuyAndCloseLiveOrderStyle::Market => MarketBuyAndCloseOrder::Market {
                side,
                qty: self.config.qty,
                fill_at_bar_open: false,
            },
            MarketBuyAndCloseLiveOrderStyle::MarketableLimit => MarketBuyAndCloseOrder::MarketableLimit {
                side,
                qty: self.config.qty,
            },
        }
    }

    /// Checks the acknowledgement and fill deadlines of a pending live order at `now_ts`;
    /// a missed deadline blocks the strategy at `bar_ts`.
    pub fn check_live_timeouts(&mut self, now_ts_utc: i64, bar_ts: i64)
        ensures
            final(self).config == old(self).config,
            final(self).last_processed_bar_ts == old(self).last_processed_bar_ts,
            final(self).state == spec_after_timeouts(
                old(self).state,
                old(self).config,
                now_ts_utc,
                bar_ts,
            ),
    {
        match self.state {
            MarketBuyAndCloseState::MarketLivePendingEntry {
                sent_ts,
                acked,
                entry_confirmed_ts,
                ..
            } => {
                let e = elapsed_ms(now_ts_utc, sent_ts);
                if !acked && e > self.config.entry_ack_timeout_ms {
                    self.state = MarketBuyAndCloseState::Blocked {
                        reason: BlockReason::EntryAckTimeout {
                            limit_ms: self.config.entry_ack_timeout_ms,
                        },
                        last_bar_ts: bar_ts,
                    };
                } else if entry_confirmed_ts.is_none() && e > self.config.entry_fill_timeout_ms {
                    self.state = MarketBuyAndCloseState::Blocked {
                        reason: BlockReason::EntryFillTimeout {
                            limit_ms: self.config.entry_fill_timeout_ms,
                        },
                        last_bar_ts: bar_ts,
                    };
                }
            },
            MarketBuyAndCloseState::MarketLivePendingExit { sent_ts, acked, .. } => {
                let e = elapsed_ms(now_ts_utc, sent_ts);
                if !acked && e > self.config.exit_ack_timeout_ms {
                    self.state = MarketBuyAndCloseState::Blocked {
                        reason: BlockReason::ExitAckTimeout {
                            limit_ms: self.config.exit_ack_timeout_ms,
                        },
                        last_bar_ts: bar_ts,
                    };
                } else if e > self.config.exit_fill_timeout_ms {
                    self.state = MarketBuyAndCloseState::Blocked {
                        reason: BlockReason::ExitFillTimeout {
                            limit_ms: self.config.exit_fill_timeout_ms,
                        },
                        last_bar_ts: bar_ts,
                    };
                }
            },
            _ => {},
        }
    }

    fn paper_step(&mut self, bar_ts: i64, position_qty: Option<i64>, ids: RequestIds) -> (o: Option<
        MarketBuyAndCloseOrder,
    >)
        ensures
            final(self).config == old(self).config,
            final(self).last_processed_bar_ts == old(self).last_processed_bar_ts,
            (final(self).state, o) == spec_paper_step(
                old(self).state,
                old(self).config,
                bar_ts,
                position_qty,
                ids,
            ),
    {
        match self.state {
            MarketBuyAndCloseState::Idle => {
                self.state = MarketBuyAndCloseState::MarketBuyPending {
                    buy_request_id: ids.paper_buy,
                    baseline_qty: position_qty,
                    close_trigger: CloseTrigger::NextBar,
                    pending_bar_ts: bar_ts,
                    last_bar_ts: bar_ts,
                };
                None
            },
            MarketBuyAndCloseState::MarketBuyPending {
                buy_request_id,
                baseline_qty,
                close_trigger,
                pending_bar_ts,
                ..
            } => {
                if bar_ts > pending_bar_ts {
                    self.state = MarketBuyAndCloseState::MarketBuySent {
                        buy_request_id,
                        baseline_qty,
                        close_trigger,
                        buy_bar_ts: bar_ts,
                        last_bar_ts: bar_ts,
                    };
                    Some(
                        MarketBuyAndCloseOrder::Market {
                            side: self.config.side,
                            qty: self.config.qty,
                            fill_at_bar_open: true,
                        },
                    )
                } else {
                    self.state = MarketBuyAndCloseState::MarketBuyPending {
                        buy_request_id,
                        baseline_qty,
                        close_trigger,
                        pending_bar_ts,
                        last_bar_ts: bar_ts,
                    };
                    None
                }
            },
            MarketBuyAndCloseState::MarketBuySent {
                buy_request_id,
                baseline_qty,
                close_trigger,
                buy_bar_ts,
                ..
            } => {
                if bar_ts > buy_bar_ts {
                    self.state = MarketBuyAndCloseState::MarketCloseSent {
                        close_request_id: ids.paper_close,
                        baseline_qty,
                        last_bar_ts: bar_ts,
                    };
                    Some(
                        MarketBuyAndCloseOrder::Market {
                            side: self.close_side(),
                            qty: self.config.qty,
                            fill_at_bar_open: true,
                        },
                    )
                } else {
                    self.state = MarketBuyAndCloseState::MarketBuySent {
                        buy_request_id,
                        baseline_qty,
                        close_trigger,
                        buy_bar_ts,
                        last_bar_ts: bar_ts,
                    };
                    None
                }
            },
            MarketBuyAndCloseState::MarketCloseSent { close_request_id, baseline_qty, .. } => {
                self.state = MarketBuyAndCloseState::MarketCloseSent {
                    close_request_id,
                    baseline_qty,
                    last_bar_ts: bar_ts,
                };
                None
            },
            MarketBuyAndCloseState::Done { .. } => {
                self.state = MarketBuyAndCloseState::Done { last_bar_ts: bar_ts };
                None
            },
            MarketBuyAndCloseState::Blocked { reason, .. } => {
                self.state = MarketBuyAndCloseState::Blocked { reason, last_bar_ts: bar_ts };
                None
            },
            _ => None,
        }
    }

    fn set_bar_ts(&mut self, bar_ts: i64)
        ensures
            final(self).config == old(self).config,
            final(self).last_processed_bar_ts == old(self).last_processed_bar_ts,
            final(self).state == spec_with_bar_ts(old(self).state, bar_ts),
    {
        match self.state {
            MarketBuyAndCloseState::MarketLivePendingEntry {
                request_guid,
                side,
                qty,
                baseline_qty,
                close_trigger,
                sent_ts,
                acked,
                entry_confirmed_ts,
                ..
            } => {
                self.state = MarketBuyAndCloseState::MarketLivePendingEntry {
                    request_guid,
                    side,
                    qty,
                    baseline_qty,
                    close_trigger,
                    sent_ts,
                    acked,
                    entry_confirmed_ts,
                    last_bar_ts: bar_ts,
                };
            },
            MarketBuyAndCloseState::MarketLivePendingExit {
                request_guid,
                reason,
                side,
                qty,
                baseline_qty,
                sent_ts,
                acked,
                ..
            } => {
                self.state = MarketBuyAndCloseState::MarketLivePendingExit {
                    request_guid,
                    reason,
                    side,
                    qty,
                    baseline_qty,
                    sent_ts,
                    acked,
                    last_bar_ts: bar_ts,
                };
            },
            MarketBuyAndCloseState::Blocked { reason, .. } => {
                self.state = MarketBuyAndCloseState::Blocked { reason, last_bar_ts: bar_ts };
            },
            MarketBuyAndCloseState::Done { .. } => {
                self.state = MarketBuyAndCloseState::Done { last_bar_ts: bar_ts };
            },
            _ => {},
        }
    }

    fn live_step(
        &mut self,
        bar_ts: i64,
        now_ts: i64,
        host_last_bar_ts: Option<i64>,
        position_qty: Option<i64>,
        ids: RequestIds,
    ) -> (o: Option<MarketBuyAndCloseOrder>)
        ensures
            final(self).config == old(self).config,
            final(self).last_processed_bar_ts == old(self).last_processed_bar_ts,
            (final(self).state, o) == spec_live_step(
                old(self).state,
                old(self).config,
                bar_ts,
                now_ts,
                host_last_bar_ts,
                position_qty,
                ids,
            ),
    {
        match self.state {
            MarketBuyAndCloseState::Idle => {
                if host_last_bar_ts.is_none() {
                    return None;
                }
                let baseline: i64 = match position_qty {
                    Some(q) => q,
                    None => 0,
                };
                self.state = MarketBuyAndCloseState::MarketLivePendingEntry {
                    request_guid: ids.live_open,
                    side: self.config.side,
                    qty: self.config.qty,
                    baseline_qty: baseline,
                    close_trigger: self.config.close_trigger,
                    sent_ts: now_ts,
                    acked: false,
                    entry_confirmed_ts: None,
                    last_bar_ts: bar_ts,
                };
                Some(self.live_order(self.config.side))
            },
            MarketBuyAndCloseState::MarketLiveInPosition {
                close_trigger,
                opened_ts,
                baseline_qty,
                ..
            } => {
                if close_trigger == CloseTrigger::NextBar && bar_ts > opened_ts {
                    let close_side = self.close_side();
                    self.state = MarketBuyAndCloseState::MarketLivePendingExit {
                        request_guid: ids.live_close,
                        reason: ExitReason::NextBar,
                        side: close_side,
                        qty: self.config.qty,
                        baseline_qty,
                        sent_ts: now_ts,
                        acked: false,
                        last_bar_ts: bar_ts,
                    };
                    Some(self.live_order(close_side))
                } else {
                    None
                }
            },
            _ => {
                self.set_bar_ts(bar_ts);
                None
            },
        }
    }

    /// Handles a bar. Bars held back from a live run and bars of another symbol are only
    /// recorded as processed; a bar not later than the last processed one is ignored.
    /// Otherwise paper and backtest runs take one paper step, and live runs check the
    /// deadlines and take one live step. `position_qty` is the host's position in lots.
    pub fn on_bar(
        &mut self,
        gate: LiveGate,
        origin: DataOrigin,
        bar_symbol: &str,
        bar_ts: i64,
        now_ts: i64,
        host_last_bar_ts: Option<i64>,
        position_qty: Option<i64>,
        ids: RequestIds,
    ) -> (o: Option<MarketBuyAndCloseOrder>)
        ensures
            final(self).config == old(self).config,
            gate.trade_mode == TradeMode::Live && !gate.allow_live_orders ==> final(self).state == old(
                self,
            ).state && o is None,
            ({
                let skip = spec_blocks_live_bar(gate, origin) || bar_symbol@ != old(
                    self,
                ).config.symbol@;
                let stale = old(self).last_processed_bar_ts matches Some(l) && bar_ts <= l;
                if skip {
                    &&& final(self).state == old(self).state
                    &&& final(self).last_processed_bar_ts == Some(bar_ts)
                    &&& o is None
                } else if stale {
                    &&& final(self).state == old(self).state
                    &&& final(self).last_processed_bar_ts == old(self).last_processed_bar_ts
                    &&& o is None
                } else {
                    &&& final(self).last_processed_bar_ts == Some(bar_ts)
                    &&& (final(self).state, o) == (if gate.trade_mode == TradeMode::Live {
                        spec_live_step(
                            spec_after_timeouts(old(self).state, old(self).config, now_ts, bar_ts),
                            old(self).config,
                            bar_ts,
                            now_ts,
                            host_last_bar_ts,
                            position_qty,
                            ids,
                        )
                    } else {
                        spec_paper_step(
                            old(self).state,
                            old(self).config,
                            bar_ts,
                            position_qty,
                            ids,
                        )
                    })
                }
            }),
    {
        if self.should_block_live(gate, origin) || !str_eq(bar_symbol, self.config.symbol.as_str()) {
            self.last_processed_bar_ts = Some(bar_ts);
            return None;
        }
        match self.last_processed_bar_ts {
            Some(l) => {
                if bar_ts <= l {
                    return None;
                }
            },
            None => {},
        }
        let o = if gate.trade_mode == TradeMode::Live {
            self.check_live_timeouts(now_ts, bar_ts);
            self.live_step(bar_ts, now_ts, host_last_bar_ts, position_qty, ids)
        } else {
            self.paper_step(bar_ts, position_qty, ids)
        };
        self.last_processed_bar_ts = Some(bar_ts);
        o
    }

    /// Handles an acknowledgement of a command.
    pub fn on_ack(&mut self, request_id: u128, status: AckStatus, processed_ts_utc: i64)
        ensures
            final(self).config == old(self).config,
            final(self).last_processed_bar_ts == old(self).last_processed_bar_ts,
            final(self).state == spec_after_ack(old(self).state, request_id, status, processed_ts_utc),
    {
        match self.state {
            MarketBuyAndCloseState::MarketLivePendingEntry {
                request_guid,
                side,
                qty,
                baseline_qty,
                close_trigger,
                sent_ts,
                entry_confirmed_ts,
                last_bar_ts,
                ..
            } => {
                if request_id == request_guid {
                    if is_positive_ack(status) {
                        self.state = MarketBuyAndCloseState::MarketLivePendingEntry {
                            request_guid,
                            side,
                            qty,
                            baseline_qty,
                            close_trigger,
                            sent_ts,
                            acked: true,
                            entry_confirmed_ts,
                            last_bar_ts,
                        };
                    } else {
                        self.state = MarketBuyAndCloseState::Blocked {
                            reason: BlockReason::EntryRejected { status },
                            last_bar_ts: processed_ts_utc,
                        };
                    }
                }
            },
            MarketBuyAndCloseState::MarketLivePendingExit {
                request_guid,
                reason,
                side,
                qty,
                baseline_qty,
                sent_ts,
                last_bar_ts,
                ..
            } => {
                if request_id == request_guid {
                    if is_positive_ack(status) {
                        self.state = MarketBuyAndCloseState::MarketLivePendingExit {
                            request_guid,
                            reason,
                            side,
                            qty,
                            baseline_qty,
                            sent_ts,
                            acked: true,
                            last_bar_ts,
                        };
                    } else {
                        self.state = MarketBuyAndCloseState::Blocked {
                            reason: BlockReason::ExitRejected { status },
                            last_bar_ts: processed_ts_utc,
                        };
                    }
                }
            },
            _ => {},
        }
    }

    /// Handles a position update; `pos_qty` is the broker's position in lots. The event
    /// time is the host's last bar time, or the update's own time when there was no bar.
    pub fn on_position(
        &mut self,
        pos_symbol: &str,
        pos_qty: i64,
        pos_ts_utc: i64,
        host_last_bar_ts: Option<i64>,
        now_ts: i64,
        ids: RequestIds,
    ) -> (o: Option<MarketBuyAndCloseOrder>)
        ensures
            final(self).config == old(self).config,
            final(self).last_processed_bar_ts == old(self).last_processed_bar_ts,
            pos_symbol@ != old(self).config.symbol@ ==> final(self).state == old(self).state
                && o is None,
            pos_symbol@ == old(self).config.symbol@ && (old(
                self,
            ).state matches MarketBuyAndCloseState::MarketLiveInPosition { baseline_qty, .. }
                && pos_qty == baseline_qty) ==> final(self).state == MarketBuyAndCloseState::Idle
                && o is None,
            pos_symbol@ == old(self).config.symbol@ ==> (final(self).state, o)
                == spec_position_step(
                old(self).state,
                old(self).config,
                pos_qty,
                match host_last_bar_ts {
                    Some(t) => t,
                    None => pos_ts_utc,
                },
                now_ts,
                ids,
            ),
    {
        if !str_eq(pos_symbol, self.config.symbol.as_str()) {
            return None;
        }
        let event_ts: i64 = match host_last_bar_ts {
            Some(t) => t,
            None => pos_ts_utc,
        };
        match self.state {
            MarketBuyAndCloseState::MarketLivePendingEntry { baseline_qty, close_trigger, .. } => {
                if pos_qty != baseline_qty {
                    self.state = MarketBuyAndCloseState::MarketLiveInPosition {
                        side: self.config.side,
                        qty: self.config.qty,
                        baseline_qty,
                        close_trigger,
                        opened_ts: event_ts,
                        last_bar_ts: event_ts,
                    };
                } else {
                    self.set_bar_ts(event_ts);
                }
                None
            },
            MarketBuyAndCloseState::MarketLiveInPosition { baseline_qty, close_trigger, .. } => {
                if pos_qty == baseline_qty {
                    self.state = MarketBuyAndCloseState::Idle;
                    return None;
                }
                if close_trigger == CloseTrigger::PositionUpdate {
                    let close_side = self.close_side();
                    self.state = MarketBuyAndCloseState::MarketLivePendingExit {
                        request_guid: ids.live_close,
                        reason: ExitReason::PositionUpdate,
                        side: close_side,
                        qty: self.config.qty,
                        baseline_qty,
                        sent_ts: now_ts,
                        acked: false,
                        last_bar_ts: event_ts,
                    };
                    return Some(self.live_order(close_side));
                }
                None
            },
            MarketBuyAndCloseState::MarketLivePendingExit { baseline_qty, .. } => {
                if pos_qty == baseline_qty {
                    self.state = MarketBuyAndCloseState::Done { last_bar_ts: event_ts };
                } else {
                    self.set_bar_ts(event_ts);
                }
                None
            },
            MarketBuyAndCloseState::Idle => {
                if pos_qty != 0 {
                    let magnitude: u64 = if pos_qty < 0 {
                        ((-(pos_qty + 1)) as u64) + 1
                    } else {
                        pos_qty as u64
                    };
                    self.state = MarketBuyAndCloseState::MarketLiveInPosition {
                        side: self.config.side,
                        qty: magnitude,
                        baseline_qty: 0,
                        close_trigger: self.config.close_trigger,
                        opened_ts: event_ts,
                        last_bar_ts: event_ts,
                    };
                }
                None
            },
            _ => None,
        }
    }

    /// The current state.
    pub fn state(&self) -> (s: MarketBuyAndCloseState)
        ensures
            s == self.state,
    {
        self.state
    }

    /// Replaces the current state.
    pub fn set_state(&mut self, state: MarketBuyAndCloseState)
        ensures
            final(self).config == old(self).config,
            final(self).last_processed_bar_ts == old(self).last_processed_bar_ts,
            final(self).state == state,
    {
        self.state = state;
    }
}

/// A live round trip closes what it opened. From idle, a bar after the host's first one
/// sends the entry on the configured side; once the broker position moves off its
/// baseline the strategy holds the position; it then sends the exit, on the opposite
/// side and of the same size and style, on a later bar (next-bar trigger) or on the next
/// position update that still differs from the baseline (position-update trigger).
pub proof fn lemma_live_round_trip_closes_entry(
    cfg: MarketBuyAndCloseConfig,
    bar_ts: i64,
    now_ts: i64,
    host_last_bar_ts: i64,
    position_qty: Option<i64>,
    ids: RequestIds,
    filled_qty: i64,
    fill_ts: i64,
    later_bar_ts: i64,
    later_now_ts: i64,
    later_qty: i64,
)
    requires
        filled_qty != (match position_qty {
            Some(q) => q,
            None => 0,
        }),
    ensures
        ({
            let (s1, o1) = spec_live_step(
                MarketBuyAndCloseState::Idle,
                cfg,
                bar_ts,
                now_ts,
                Some(host_last_bar_ts),
                position_qty,
                ids,
            );
            let (s2, o2) = spec_position_step(s1, cfg, filled_qty, fill_ts, now_ts, ids);
            let closing = Some(spec_live_order(cfg, opposite_side(cfg.side), cfg.qty));
            &&& o1 == Some(spec_live_order(cfg, cfg.side, cfg.qty))
            &&& s2 is MarketLiveInPosition && o2 is None
            &&& (cfg.close_trigger == CloseTrigger::NextBar && later_bar_ts > fill_ts) ==> spec_live_step(
                spec_after_timeouts(s2, cfg, later_now_ts, later_bar_ts),
                cfg,
                later_bar_ts,
                later_now_ts,
                Some(host_last_bar_ts),
                position_qty,
                ids,
            ).1 == closing
            &&& (cfg.close_trigger == CloseTrigger::PositionUpdate && later_qty != (match position_qty {
                Some(q) => q,
                None => 0,
            })) ==> spec_position_step(s2, cfg, later_qty, later_bar_ts, later_now_ts, ids).1
                == closing
        }),
{
}

/// A paper or backtest round trip: over three bars at increasing times the strategy arms
/// the buy, sends it at the second bar's open and closes it at the third bar's open, on
/// the opposite side and of the same size; later bars send nothing.
pub proof fn lemma_paper_round_trip(
    cfg: MarketBuyAndCloseConfig,
    t1: i64,
    t2: i64,
    t3: i64,
    t4: i64,
    position_qty: Option<i64>,
    ids: RequestIds,
)
    requires
        t1 < t2 < t3,
    ensures
        ({
            let (s1, o1) = spec_paper_step(MarketBuyAndCloseState::Idle, cfg, t1, position_qty, ids);
            let (s2, o2) = spec_paper_step(s1, cfg, t2, position_qty, ids);
            let (s3, o3) = spec_paper_step(s2, cfg, t3, position_qty, ids);
            let (s4, o4) = spec_paper_step(s3, cfg, t4, position_qty, ids);
            &&& o1 is None
            &&& o2 == Some(
                MarketBuyAndCloseOrder::Market { side: cfg.side, qty: cfg.qty, fill_at_bar_open: true },
            )
            &&& o3 == Some(
                MarketBuyAndCloseOrder::Market {
                    side: opposite_side(cfg.side),
                    qty: cfg.qty,
                    fill_at_bar_open: true,
                },
            )
            &&& s3 is MarketCloseSent && o4 is None && s4 is MarketCloseSent
        }),
{
}

/// What a position update does to a live trade, whatever the quantities: while holding a
/// position, a broker position back at the baseline means the position is gone, so the
/// strategy goes idle and sends nothing; while the entry is pending, a broker position
/// off the baseline means the entry filled, and the strategy holds the configured side
/// and size from the update's time; while the exit is pending, a broker position back at
/// the baseline means the exit filled and the trade is done; from idle, a broker position
/// that is not flat is taken over with a zero baseline. None of these sends an order.
pub proof fn lemma_position_update_transitions(
    cfg: MarketBuyAndCloseConfig,
    pos_qty: i64,
    event_ts: i64,
    now_ts: i64,
    ids: RequestIds,
    request_guid: u128,
    reason: ExitReason,
    side: OrderSide,
    qty: u64,
    baseline_qty: i64,
    close_trigger: CloseTrigger,
    sent_ts: i64,
    acked: bool,
    entry_confirmed_ts: Option<i64>,
    opened_ts: i64,
    last_bar_ts: i64,
)
    ensures
        pos_qty == baseline_qty ==> spec_position_step(
            MarketBuyAndCloseState::MarketLiveInPosition {
                side,
                qty,
                baseline_qty,
                close_trigger,
                opened_ts,
                last_bar_ts,
            },
            cfg,
            pos_qty,
            event_ts,
            now_ts,
            ids,
        ) == (MarketBuyAndCloseState::Idle, Option::<MarketBuyAndCloseOrder>::None),
        pos_qty != baseline_qty ==> spec_position_step(
            MarketBuyAndCloseState::MarketLivePendingEntry {
                request_guid,
                side,
                qty,
                baseline_qty,
                close_trigger,
                sent_ts,
                acked,
                entry_confirmed_ts,
                last_bar_ts,
            },
            cfg,
            pos_qty,
            event_ts,
            now_ts,
            ids,
        ) == (
            MarketBuyAndCloseState::MarketLiveInPosition {
                side: cfg.side,
                qty: cfg.qty,
                baseline_qty,
                close_trigger,
                opened_ts: event_ts,
                last_bar_ts: event_ts,
            },
            Option::<MarketBuyAndCloseOrder>::None,
        ),
        pos_qty == baseline_qty ==> spec_position_step(
            MarketBuyAndCloseState::MarketLivePendingExit {
                request_guid,
                reason,
                side,
                qty,
                baseline_qty,
                sent_ts,
                acked,
                last_bar_ts,
            },
            cfg,
            pos_qty,
            event_ts,
            now_ts,
            ids,
        ) == (
            MarketBuyAndCloseState::Done { last_bar_ts: event_ts },
            Option::<MarketBuyAndCloseOrder>::None,
        ),
        pos_qty != 0 ==> spec_position_step(
            MarketBuyAndCloseState::Idle,
            cfg,
            pos_qty,
            event_ts,
            now_ts,
            ids,
        ) == (
            MarketBuyAndCloseState::MarketLiveInPosition {
                side: cfg.side,
                qty: abs_qty(pos_qty) as u64,
                baseline_qty: 0,
                close_trigger: cfg.close_trigger,
                opened_ts: event_ts,
                last_bar_ts: event_ts,
            },
            Option::<MarketBuyAndCloseOrder>::None,
        ),
{
}

/// In a live run without permission for live orders, every bar is held back: whatever
/// the bar's origin, the strategy leaves its state alone and sends nothing (see
/// `on_bar`). With permission, a ready gateway and a live bar, nothing is held back;
/// paper and backtest runs hold nothing back.
pub proof fn lemma_live_bars_need_permission(gate: LiveGate, origin: DataOrigin)
    ensures
        gate.trade_mode == TradeMode::Live && !gate.allow_live_orders ==> spec_blocks_live_bar(
            gate,
            origin,
        ),
        gate.trade_mode == TradeMode::Live && gate.gateway_phase != GatewayPhase::LiveReady
            ==> spec_blocks_live_bar(gate, origin),
        gate.trade_mode == TradeMode::Live && origin != DataOrigin::Live ==> spec_blocks_live_bar(
            gate,
            origin,
        ),
        gate.trade_mode == TradeMode::Live && gate.allow_live_orders && gate.gateway_phase
            == GatewayPhase::LiveReady && origin == DataOrigin::Live ==> !spec_blocks_live_bar(
            gate,
            origin,
        ),
        gate.trade_mode != TradeMode::Live ==> !spec_blocks_live_bar(gate, origin),
{
}

} // verus!
