use vstd::prelude::*;

verus! {

/// Direction of a broker order.
#[derive(Debug, Clone, Copy, PartialEq, Eq, Structural)]
pub enum OrderSide {
    Buy,
    Sell,
}

/// The opposite order direction.
pub open spec fn opposite_side(side: OrderSide) -> OrderSide {
    match side {
        OrderSide::Buy => OrderSide::Sell,
        OrderSide::Sell => OrderSide::Buy,
    }
}

/// What an order is for, as the execution gateway classifies it.
#[derive(Debug, Clone, Copy, PartialEq, Eq, Structural)]
pub enum IntentClass {
    Entry,
    Exit,
    CancelCleanup,
    ProtectiveRepair,
}

/// Outcome of a command as the gateway acknowledged it.
#[derive(Debug, Clone, Copy, PartialEq, Eq, Structural)]
pub enum AckStatus {
    Accepted,
    Confirmed,
    Duplicate,
    Rejected,
    Expired,
    Error,
}

/// Whether an acknowledgement means the command went through.
pub open spec fn ack_is_positive(status: AckStatus) -> bool {
    status is Accepted || status is Confirmed || status is Duplicate
}

/// Trigger condition of a stop-limit order.
#[derive(Debug, Clone, Copy, PartialEq, Eq, Structural)]
pub enum StopLimitCondition {
    LessOrEqual,
    MoreOrEqual,
}

/// How the host runs a strategy.
#[derive(Debug, Clone, Copy, PartialEq, Eq, Structural)]
pub enum TradeMode {
    Live,
    Paper,
    Backtest,
}

/// Which bars a paper run executes on.
#[derive(Debug, Clone, Copy, PartialEq, Eq, Structural)]
pub enum PaperExecutionMode {
    HistorySim,
    LiveOnly,
}

/// Where a bar came from.
#[derive(Debug, Clone, Copy, PartialEq, Eq, Structural)]
pub enum DataOrigin {
    Live,
    History,
    HistoryGap,
    Replay,
}

/// Readiness of the execution gateway.
#[derive(Debug, Clone, Copy, PartialEq, Eq, Structural)]
pub enum GatewayPhase {
    SyncingHistory,
    LiveReady,
}

/// When a round-trip strategy closes its position.
#[derive(Debug, Clone, Copy, PartialEq, Eq, Structural)]
pub enum CloseTrigger {
    PositionUpdate,
    NextBar,
}

/// The parts of the host context that gate live order emission.
#[derive(Debug, Clone, Copy, PartialEq, Eq, Structural)]
pub struct LiveGate {
    pub trade_mode: TradeMode,
    pub allow_live_orders: bool,
    pub gateway_phase: GatewayPhase,
}

/// A bar is held back from a live run when it is not live data, when live orders are not
/// allowed or when the gateway is not ready.
pub open spec fn spec_blocks_live_bar(gate: LiveGate, origin: DataOrigin) -> bool {
    gate.trade_mode == TradeMode::Live && (origin != DataOrigin::Live || !gate.allow_live_orders
        || gate.gateway_phase != GatewayPhase::LiveReady)
}

impl LiveGate {
    /// Whether a bar of the given origin must be skipped in a live run.
    pub fn blocks_live_bar(&self, origin: DataOrigin) -> (b: bool)
        ensures
            b == spec_blocks_live_bar(*self, origin),
            self.trade_mode == TradeMode::Live && !self.allow_live_orders ==> b,
            self.trade_mode != TradeMode::Live ==> !b,
    {
        self.trade_mode == TradeMode::Live && (origin != DataOrigin::Live || !self.allow_live_orders
            || self.gateway_phase != GatewayPhase::LiveReady)
    }
}

/// The opposite order direction.
pub fn opposite(side: OrderSide) -> (r: OrderSide)
    ensures
        r == opposite_side(side),
{
    match side {
        OrderSide::Buy => OrderSide::Sell,
        OrderSide::Sell => OrderSide::Buy,
    }
}

/// Whether an acknowledgement means the command went through.
pub fn is_positive_ack(status: AckStatus) -> (b: bool)
    ensures
        b == ack_is_positive(status),
{
    match status {
        AckStatus::Accepted | AckStatus::Confirmed | AckStatus::Duplicate => true,
        _ => false,
    }
}

/// How the strategy describes its exit risk to the host.
#[derive(Debug, Clone, PartialEq, Eq)]
pub struct StrategyExitRiskStatus {
    pub phase_override: Option<String>,
    pub exit_recovery_active: bool,
    pub operator_intervention_required: bool,
    pub open_risk_position_unflattened: bool,
}

/// A gateway acknowledgement of a command.
#[derive(Debug, Clone)]
pub struct CommandAck {
    pub request_id: u128,
    pub status: AckStatus,
    pub broker_order_id: Option<i64>,
    pub processed_ts_utc: i64,
    pub error_code: Option<String>,
    pub error_msg: Option<String>,
    pub cws_http_code: Option<i64>,
    pub cws_message: Option<String>,
}

/// A broker order update.
#[derive(Debug, Clone)]
pub struct OrderEvent {
    pub request_id: Option<u128>,
    pub order_id: i64,
    pub symbol: String,
    pub status: String,
    pub ts_utc: i64,
}

/// A cleanup order that cancels protection left on the exchange.
#[derive(Debug, Clone, PartialEq, Eq)]
pub enum CleanupIntent {
    Cancel { order_id: i64 },
    DeleteStopLimit { order_id: String, side: Option<OrderSide> },
}

/// What a cleanup order holds, with the stop order's id as characters.
pub enum CleanupView {
    Cancel { order_id: i64 },
    DeleteStopLimit { order_id: Seq<char>, side: Option<OrderSide> },
}

impl View for CleanupIntent {
    type V = CleanupView;

    open spec fn view(&self) -> CleanupView {
        match self {
            CleanupIntent::Cancel { order_id } => CleanupView::Cancel { order_id: *order_id },
            CleanupIntent::DeleteStopLimit { order_id, side } => CleanupView::DeleteStopLimit {
                order_id: order_id@,
                side: *side,
            },
        }
    }
}

/// The cleanup orders for the protection that is known: the take-profit order, the
/// stop-limit order and the exchange order that a triggered stop left, in that order.
pub open spec fn spec_cleanup(
    tp_order_id: Option<i64>,
    sl_stop_order_id: Option<Seq<char>>,
    sl_exchange_order_id: Option<i64>,
    side: Option<OrderSide>,
) -> Seq<CleanupView> {
    let a = match tp_order_id {
        Some(id) => seq![CleanupView::Cancel { order_id: id }],
        None => Seq::empty(),
    };
    let b = match sl_stop_order_id {
        Some(id) => seq![CleanupView::DeleteStopLimit { order_id: id, side }],
        None => Seq::empty(),
    };
    let c = match sl_exchange_order_id {
        Some(id) => seq![CleanupView::Cancel { order_id: id }],
        None => Seq::empty(),
    };
    a + b + c
}

/// The characters of an optional string.
pub open spec fn opt_chars(s: Option<String>) -> Option<Seq<char>> {
    match s {
        Some(v) => Some(v@),
        None => None,
    }
}

/// Builds the cleanup orders for the known protection.
pub fn cleanup_intents(
    tp_order_id: Option<i64>,
    sl_stop_order_id: Option<String>,
    sl_exchange_order_id: Option<i64>,
    side: Option<OrderSide>,
) -> (r: Vec<CleanupIntent>)
    ensures
        r@.map_values(|c: CleanupIntent| c@) == spec_cleanup(
            tp_order_id,
            opt_chars(sl_stop_order_id),
            sl_exchange_order_id,
            side,
        ),
{
    let mut r: Vec<CleanupIntent> = Vec::new();
    let ghost a = match tp_order_id {
        Some(id) => seq![CleanupView::Cancel { order_id: id }],
        None => Seq::<CleanupView>::empty(),
    };
    let ghost b = match opt_chars(sl_stop_order_id) {
        Some(id) => seq![CleanupView::DeleteStopLimit { order_id: id, side }],
        None => Seq::<CleanupView>::empty(),
    };
    if let Some(id) = tp_order_id {
        r.push(CleanupIntent::Cancel { order_id: id });
    }
    assert(r@.map_values(|c: CleanupIntent| c@) =~= a);
    if let Some(id) = sl_stop_order_id {
        r.push(CleanupIntent::DeleteStopLimit { order_id: id, side });
    }
    assert(r@.map_values(|c: CleanupIntent| c@) =~= a + b);
    if let Some(id) = sl_exchange_order_id {
        r.push(CleanupIntent::Cancel { order_id: id });
    }
    r
}

} // verus!
